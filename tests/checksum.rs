use hedera_core::checksum::{checksum, EntityChecksum};
use hedera_core::client::{Client, LedgerId};
use hedera_core::error::Error;

#[test]
fn known_checksums() {
    assert_eq!(checksum(&LedgerId::mainnet(), 0, 0, 123), b"vfmkw".to_vec());
    assert_eq!(checksum(&LedgerId::testnet(), 0, 0, 123), b"esxsf".to_vec());
    assert_eq!(checksum(&LedgerId::previewnet(), 0, 0, 123), b"ogizo".to_vec());
}

#[test]
fn checksums_validated_only_when_asked() {
    let mut c = Client::for_name("mainnet").unwrap();
    let good = vec![EntityChecksum { shard: 0, realm: 0, num: 123, checksum: b"vfmkw".to_vec() }];
    let bad = vec![EntityChecksum { shard: 0, realm: 0, num: 123, checksum: b"esxsf".to_vec() }];
    assert!(c.validate_checksums(&bad).is_ok());
    c.set_auto_validate_checksums(true);
    assert!(c.validate_checksums(&good).is_ok());
    assert!(matches!(c.validate_checksums(&bad), Err(Error::CannotValidateChecksum)));
    c.set_ledger_id(None);
    assert!(c.validate_checksums(&bad).is_ok());
}
