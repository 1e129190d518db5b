use hedera_core::client::{Client, Hbar};
use hedera_core::error::Error;
use hedera_core::exchange_rates::{ExchangeRate, ExchangeRates, WireExchangeRate, WireTimestamp};
use hedera_core::ids::{AccountId, ContractId, FileId, Timestamp, TokenId, TopicId, TransactionId};
use hedera_core::system::{SystemDeleteTarget, SystemDeleteTransaction, SystemDeleteTransactionData};
use hedera_core::token::{
    TokenGrantKycTransaction, TokenGrantKycTransactionData, TokenInfoQuery, TokenInfoQueryData,
    TokenWipeTransaction, TokenWipeTransactionData,
};
use hedera_core::topic::{TopicDeleteTransaction, TopicDeleteTransactionData};

#[test]
fn token_wipe_fields() {
    let mut tx = TokenWipeTransaction::with_data(TokenWipeTransactionData::new());
    tx.account_id(AccountId::new(0, 0, 5)).token_id(TokenId::new(0, 0, 6)).amount(10_055u64).serials(vec![1, 2, 3]);
    assert_eq!(tx.get_account_id(), Some(AccountId::new(0, 0, 5)));
    assert_eq!(tx.get_token_id(), Some(TokenId::new(0, 0, 6)));
    assert_eq!(tx.get_amount(), Some(10_055));
    assert_eq!(tx.get_serials(), &[1, 2, 3]);
}

#[test]
fn token_wipe_wire_fields() {
    let data = TokenWipeTransactionData::new();
    assert_eq!(data.wire_amount(), 0);
    let back = TokenWipeTransactionData::from_wire(None, Some(TokenId::new(0, 0, 1)), 7, &vec![4, -1]);
    assert_eq!(back.amount, Some(7));
    assert_eq!(back.serials, vec![4, u64::MAX]);
    assert_eq!(back.wire_serial_numbers(), vec![4, -1]);
    assert_eq!(back.wire_amount(), 7);
}

#[test]
fn grant_kyc_fields() {
    let mut tx = TokenGrantKycTransaction::with_data(TokenGrantKycTransactionData::new());
    tx.account_id(AccountId::new(0, 0, 8)).token_id(TokenId::new(0, 0, 9));
    assert_eq!(tx.data().account_id, Some(AccountId::new(0, 0, 8)));
    assert_eq!(tx.data().token_id, Some(TokenId::new(0, 0, 9)));
}

#[test]
fn topic_delete_fields() {
    let mut tx = TopicDeleteTransaction::with_data(TopicDeleteTransactionData::new());
    tx.topic_id(TopicId::new(0, 0, 12));
    assert_eq!(tx.data().topic_id, Some(TopicId::new(0, 0, 12)));
}

#[test]
fn token_info_query_fields() {
    let mut q = TokenInfoQuery::with_data(TokenInfoQueryData::new());
    assert_eq!(q.get_token_id(), None);
    q.token_id(TokenId::new(0, 0, 44));
    assert_eq!(q.get_token_id(), Some(TokenId::new(0, 0, 44)));
    assert!(q.requires_transaction_id());
}

#[test]
fn system_delete_targets_one_entity() {
    let mut tx = SystemDeleteTransaction::with_data(SystemDeleteTransactionData::new());
    assert_eq!(tx.data().target(), None);
    tx.file_id(FileId::new(0, 0, 150)).expiration_time(Timestamp::new(100, 0));
    assert_eq!(tx.data().target(), Some(SystemDeleteTarget::File(FileId::new(0, 0, 150))));
    assert!(tx.data().uses_file_service());
    tx.contract_id(ContractId::new(0, 0, 151));
    assert_eq!(tx.data().file_id, None);
    assert_eq!(tx.data().target(), Some(SystemDeleteTarget::Contract(ContractId::new(0, 0, 151))));
    assert!(!tx.data().uses_file_service());
    assert_eq!(tx.data().expiration_time, Some(Timestamp::new(100, 0)));
    let both = SystemDeleteTransactionData {
        expiration_time: None,
        file_id: Some(FileId::new(0, 0, 1)),
        contract_id: Some(ContractId::new(0, 0, 2)),
    };
    assert_eq!(both.target(), Some(SystemDeleteTarget::Contract(ContractId::new(0, 0, 2))));
}

#[test]
fn transaction_common_fields() {
    let mut tx = TopicDeleteTransaction::with_data(TopicDeleteTransactionData::new());
    assert_eq!(tx.body.transaction_valid_duration, 120);
    let id = TransactionId::with_valid_start(AccountId::new(0, 0, 2), Timestamp::new(5, 6));
    tx.transaction_id(id).max_transaction_fee(Hbar::from_tinybars(3)).transaction_memo("hi".to_string());
    tx.node_account_ids(vec![AccountId::new(0, 0, 3)]);
    assert_eq!(tx.get_transaction_id(), Some(id));
    assert_eq!(tx.get_max_transaction_fee(), Some(Hbar::from_tinybars(3)));
    assert_eq!(tx.body.transaction_memo, "hi");
    assert_eq!(tx.get_node_account_ids(), &Some(vec![AccountId::new(0, 0, 3)]));
    let client = Client::for_name("localhost").unwrap();
    let exec = tx.start_execution(&client, Timestamp::new(9, 0)).unwrap();
    assert_eq!(exec.transaction_id, Some(id));
    assert_eq!(exec.explicit_nodes, Some(vec![AccountId::new(0, 0, 3)]));
    let fresh = TopicDeleteTransaction::with_data(TopicDeleteTransactionData::new());
    assert!(matches!(fresh.start_execution(&client, Timestamp::new(9, 0)), Err(Error::NoPayerAccountOrTransactionId)));
}

#[test]
fn exchange_rates_from_wire() {
    let rates = ExchangeRates::from_wire(
        Some(WireExchangeRate { hbar_equiv: 30000, cent_equiv: 580150, expiration_time: Some(WireTimestamp { seconds: 1645714800, nanos: 0 }) }),
        Some(WireExchangeRate { hbar_equiv: 30000, cent_equiv: 587660, expiration_time: Some(WireTimestamp { seconds: 1645718400, nanos: 0 }) }),
    )
    .unwrap();
    assert_eq!(rates.current_rate, ExchangeRate { hbars: 30000, cents: 580150, expiration_time: Timestamp::new(1645714800, 0) });
    assert_eq!(rates.next_rate.hbars, 30000);
    assert_eq!(rates.next_rate.cents, 587660);
    assert_eq!(rates.next_rate.expiration_time, Timestamp::new(1645718400, 0));
    let (current, next) = rates.to_wire();
    assert_eq!(current.cent_equiv, 580150);
    assert_eq!(next.expiration_time, Some(WireTimestamp { seconds: 1645718400, nanos: 0 }));
}

#[test]
fn exchange_rates_missing_fields() {
    let ok = WireExchangeRate { hbar_equiv: 1, cent_equiv: 2, expiration_time: Some(WireTimestamp { seconds: 0, nanos: 0 }) };
    assert!(matches!(ExchangeRates::from_wire(None, Some(ok)), Err(Error::FromProtobuf(_))));
    let bad = WireExchangeRate { hbar_equiv: 1, cent_equiv: 2, expiration_time: None };
    assert!(matches!(ExchangeRates::from_wire(Some(ok), Some(bad)), Err(Error::FromProtobuf(_))));
    let bad_nanos = WireExchangeRate { hbar_equiv: 1, cent_equiv: 2, expiration_time: Some(WireTimestamp { seconds: 0, nanos: -1 }) };
    assert!(matches!(ExchangeRate::from_wire(bad_nanos), Err(Error::FromProtobuf(_))));
}

#[test]
fn timestamps() {
    let t = Timestamp::new(5, 999_999_999);
    let n = t.next_nano();
    assert_eq!(n, Timestamp::new(6, 0));
    assert!(n.is_after(&t));
    assert!(!t.is_after(&t));
}

#[test]
fn account_id_text() {
    assert_eq!(AccountId::from_text("0.0.3").unwrap(), AccountId::new(0, 0, 3));
    assert_eq!("1.2.18446744073709551615".parse::<AccountId>().unwrap(), AccountId::new(1, 2, u64::MAX));
    for bad in ["", "0.0", "0.0.3.4", "0..3", ".0.3", "0.0.", "a.0.3", "0.0.18446744073709551616", "0.0.-3"] {
        assert!(matches!(AccountId::from_text(bad), Err(Error::BasicParse(_))), "{}", bad);
    }
}

#[test]
fn transaction_id_text() {
    let id = TransactionId::with_valid_start(AccountId::new(0, 0, 1001), Timestamp::new(1_700_000_000, 42));
    assert_eq!(id.to_text(), "0.0.1001@1700000000.000000042");
    let scheduled = TransactionId { scheduled: true, nonce: Some(7), ..id };
    assert_eq!(scheduled.to_text(), "0.0.1001@1700000000.000000042?scheduled/7");
    let early = TransactionId::with_valid_start(AccountId::new(1, 2, 3), Timestamp::new(-5, 999_999_999));
    assert_eq!(early.to_text(), "1.2.3@-5.999999999");
    assert_eq!(AccountId::new(0, 0, u64::MAX).to_text(), "0.0.18446744073709551615");
    let text = AccountId::new(12, 0, 98).to_text();
    assert_eq!(AccountId::from_text(&text).unwrap(), AccountId::new(12, 0, 98));
}
