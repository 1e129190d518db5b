use hedera_core::client::{
    Client, ClientBackoff, ClientBuilder, ClientConfig, ConfigMirror, ConfigNetwork, Hbar, LedgerId,
    ManagedNetworkBuilder, NetworkName, Operator,
};
use hedera_core::config::EndpointConfig;
use hedera_core::error::Error;
use hedera_core::ids::AccountId;

#[test]
fn endpoint_defaults() {
    let c = EndpointConfig::new();
    assert_eq!(c.connect_timeout, Some(10_000));
    assert_eq!(c.http2_keep_alive_interval, None);
    assert_eq!(c.http2_keep_alive_timeout, Some(10_000));
    assert_eq!(c.http2_keep_alive_while_idle, Some(true));
    assert_eq!(c.tcp_keepalive, Some(10_000));
}

#[test]
fn backoff_defaults() {
    let b = ClientBackoff::default();
    assert_eq!(b.initial_backoff, 250);
    assert_eq!(b.max_backoff, 8_000);
    assert_eq!(b.max_attempts, 10);
    assert_eq!(b.request_timeout, None);
    assert_eq!(b.grpc_timeout, None);
}

#[test]
fn builder_defaults() {
    let b = ClientBuilder::for_testnet();
    assert!(matches!(b.network, ManagedNetworkBuilder::Testnet));
    assert_eq!(b.ledger_id.as_ref().unwrap().bytes, vec![1u8]);
    assert!(b.update_network);
    assert!(b.regenerate_transaction_ids);
    assert!(!b.auto_validate_checksums);
    let b = ClientBuilder::for_mainnet().disable_network_updating().endpoint_config(EndpointConfig::new());
    assert!(!b.update_network);
    assert!(b.endpoint_config.is_some());
    assert_eq!(ClientBuilder::for_previewnet().ledger_id.unwrap().bytes, vec![2u8]);
    assert!(ClientBuilder::for_mainnet().ledger_id(None).ledger_id.is_none());
}

#[test]
fn build_from_addresses() {
    let book = vec![("127.0.0.1:50211".to_string(), AccountId::new(0, 0, 3))];
    let c = ClientBuilder::new(ManagedNetworkBuilder::Addresses(book.clone())).build().unwrap();
    assert_eq!(c.network(), book);
    assert_eq!(c.network_update_period(), Some(86_400_000));
    assert_eq!(c.mirror_network(), Vec::<String>::new());
    let c = Client::for_network(book).unwrap();
    assert_eq!(c.network_update_period(), None);
}

#[test]
fn named_networks() {
    let c = Client::for_name("testnet").unwrap();
    assert_eq!(c.mirror_network(), vec!["testnet.mirrornode.hedera.com:443".to_string()]);
    assert_eq!(c.ledger_id().as_ref().unwrap().bytes, LedgerId::testnet().bytes);
    assert_eq!(c.network.nodes.len(), 7);
    let c = Client::for_name("mainnet").unwrap();
    assert_eq!(c.mirror_network(), vec!["mainnet-public.mirrornode.hedera.com:443".to_string()]);
    let c = Client::for_name("previewnet").unwrap();
    assert_eq!(c.mirror_network(), vec!["previewnet.mirrornode.hedera.com:443".to_string()]);
}

#[test]
fn localhost_network() {
    let c = Client::for_name("localhost").unwrap();
    assert_eq!(c.network(), vec![("127.0.0.1:50211".to_string(), AccountId::new(0, 0, 3))]);
    assert_eq!(c.mirror_network(), vec!["127.0.0.1:5600".to_string()]);
}

#[test]
fn unknown_network_name() {
    match Client::for_name("moonnet") {
        Err(Error::BasicParse(m)) => assert_eq!(m, "Unknown network name moonnet"),
        other => panic!("unexpected {:?}", other),
    }
}

#[test]
fn fees() {
    let mut c = Client::for_name("localhost").unwrap();
    assert_eq!(c.default_max_transaction_fee(), None);
    c.set_default_max_transaction_fee(Hbar::from_tinybars(500));
    assert_eq!(c.default_max_transaction_fee(), Some(Hbar::from_tinybars(500)));
    c.set_default_max_transaction_fee(Hbar::from_tinybars(0));
    assert_eq!(c.default_max_transaction_fee(), None);
    c.set_default_max_query_payment(Hbar::from_tinybars(7));
    assert_eq!(c.default_max_query_payment(), Some(Hbar::from_tinybars(7)));
}

#[test]
fn settings() {
    let mut c = Client::for_name("localhost").unwrap();
    c.set_min_backoff(100);
    c.set_max_backoff(900);
    c.set_max_attempts(4);
    c.set_request_timeout(Some(200));
    assert_eq!(c.min_backoff(), 100);
    assert_eq!(c.max_backoff(), 900);
    assert_eq!(c.max_attempts(), 4);
    assert_eq!(c.request_timeout(), Some(200));
    c.set_max_node_attempts(0);
    assert_eq!(c.max_node_attempts(), None);
    c.set_max_node_attempts(3);
    assert_eq!(c.max_node_attempts(), Some(3));
    c.set_min_node_backoff(10);
    c.set_max_node_backoff(20);
    assert_eq!(c.min_node_backoff(), 10);
    assert_eq!(c.max_node_backoff(), 20);
    c.set_auto_validate_checksums(true);
    assert!(c.auto_validate_checksums());
    assert!(c.default_regenerate_transaction_id());
    c.set_default_regenerate_transaction_id(false);
    assert!(!c.default_regenerate_transaction_id());
    c.set_network_update_period(Some(5));
    assert_eq!(c.network_update_period(), Some(5));
    c.set_ledger_id(Some(LedgerId::mainnet()));
    assert_eq!(c.ledger_id().as_ref().unwrap().bytes, vec![0u8]);
    assert_eq!(c.get_operator_account_id(), None);
    c.set_operator(AccountId::new(0, 0, 2), vec![9, 9]);
    assert_eq!(c.get_operator_account_id(), Some(AccountId::new(0, 0, 2)));
    assert_eq!(c.get_operator_public_key(), Some(vec![9, 9]));
}

#[test]
fn set_network_keeps_surviving_health() {
    let mut c = Client::for_name("localhost").unwrap();
    c.network.mark_node_unhealthy(0, 100, 249);
    c.set_network(vec![
        ("127.0.0.1:50211".to_string(), AccountId::new(0, 0, 3)),
        ("127.0.0.1:50212".to_string(), AccountId::new(0, 0, 4)),
    ])
    .unwrap();
    assert_eq!(c.network.nodes.len(), 2);
    assert_eq!(c.network.nodes[0].unhealthy_until, 350);
    assert_eq!(c.network.nodes[1].unhealthy_until, 0);
}

#[test]
fn config_with_addresses_and_operator() {
    let config = ClientConfig {
        operator: Some(Operator { account_id: AccountId::new(0, 0, 6), public_key: vec![1] }),
        network: ConfigNetwork::Addresses(vec![("10.0.0.1:50211".to_string(), AccountId::new(0, 0, 3))]),
        mirror_network: Some(ConfigMirror::Addresses(vec!["mirror:443".to_string()])),
    };
    let c = Client::from_config_data(config).unwrap();
    assert_eq!(c.get_operator_account_id(), Some(AccountId::new(0, 0, 6)));
    assert_eq!(c.network(), vec![("10.0.0.1:50211".to_string(), AccountId::new(0, 0, 3))]);
    assert_eq!(c.mirror_network(), vec!["mirror:443".to_string()]);
}

#[test]
fn config_with_names() {
    let config = ClientConfig {
        operator: None,
        network: ConfigNetwork::Name(NetworkName::Previewnet),
        mirror_network: Some(ConfigMirror::Name(NetworkName::Testnet)),
    };
    let c = Client::from_config_data(config).unwrap();
    assert_eq!(c.ledger_id().as_ref().unwrap().bytes, vec![2u8]);
    assert_eq!(c.mirror_network(), vec!["testnet.mirrornode.hedera.com:443".to_string()]);
    assert_eq!(c.get_operator_account_id(), None);
}

#[test]
fn set_network_refuses_bad_addresses() {
    let mut c = Client::for_name("localhost").unwrap();
    for bad in ["no-port", ":50211", "host:", "host:99999", "ho st:1", "host:1x"] {
        let r = c.set_network(vec![
            ("127.0.0.1:50212".to_string(), AccountId::new(0, 0, 4)),
            (bad.to_string(), AccountId::new(0, 0, 5)),
        ]);
        assert!(matches!(r, Err(Error::BasicParse(_))), "{}", bad);
        assert_eq!(c.network(), vec![("127.0.0.1:50211".to_string(), AccountId::new(0, 0, 3))]);
    }
    c.set_network(vec![("[::1]:50211".to_string(), AccountId::new(0, 0, 7))]).unwrap();
    assert_eq!(c.network(), vec![("[::1]:50211".to_string(), AccountId::new(0, 0, 7))]);
}

#[test]
fn named_clients_hold_builtin_nodes_and_defaults() {
    let c = Client::for_testnet().unwrap();
    let mut ids = c.network.node_ids();
    ids.sort_by_key(|id| id.num);
    assert_eq!(ids, (3..10).map(|n| AccountId::new(0, 0, n)).collect::<Vec<_>>());
    assert_eq!(c.max_attempts(), 10);
    assert_eq!(c.request_timeout(), None);
    assert!(c.default_regenerate_transaction_id());
    assert_eq!(c.default_max_transaction_fee(), None);
    assert_eq!(c.get_operator_account_id(), None);
    assert_eq!(c.network_update_period(), Some(86_400_000));
    let m = Client::for_mainnet().unwrap();
    assert!(m.network().contains(&("35.237.200.180:50211".to_string(), AccountId::new(0, 0, 3))));
}
