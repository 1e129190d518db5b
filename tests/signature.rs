use hedera_core::signature::{compare_keys, signature_map};

#[test]
fn keys_compare_bytewise() {
    assert_eq!(compare_keys(&[1, 2, 3], &[1, 2, 4]), Some(true));
    assert_eq!(compare_keys(&[1, 3], &[1, 2, 4]), Some(false));
    assert_eq!(compare_keys(&[1, 2], &[1, 2, 0]), Some(true));
    assert_eq!(compare_keys(&[7, 7], &[7, 7]), None);
    assert_eq!(compare_keys(&[], &[0]), Some(true));
}

#[test]
fn signature_map_sorts_and_dedups() {
    let given = vec![
        (vec![9, 1, 1, 1, 1, 1], vec![0xa]),
        (vec![2, 5, 5, 5, 5, 5], vec![0xb]),
        (vec![9, 1, 1, 1, 1, 1], vec![0xc]),
        (vec![2, 5, 5, 5, 5], vec![0xd]),
    ];
    let map = signature_map(&given);
    let keys: Vec<Vec<u8>> = map.iter().map(|p| p.public_key_prefix.clone()).collect();
    assert_eq!(keys, vec![vec![2, 5, 5, 5, 5], vec![2, 5, 5, 5, 5, 5], vec![9, 1, 1, 1, 1, 1]]);
    let sigs: Vec<Vec<u8>> = map.iter().map(|p| p.signature.clone()).collect();
    assert_eq!(sigs, vec![vec![0xd], vec![0xb], vec![0xa]]);
}

#[test]
fn signature_map_of_nothing() {
    assert!(signature_map(&Vec::new()).is_empty());
}
