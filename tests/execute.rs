use hedera_core::client::{Client, ClientBuilder, ManagedNetworkBuilder};
use hedera_core::error::Error;
use hedera_core::execute::{Execution, Outcome, Step};
use hedera_core::ids::{AccountId, Timestamp, TransactionId};
use hedera_core::network::NetworkData;

fn book() -> Vec<(String, AccountId)> {
    vec![
        ("a:50211".to_string(), AccountId::new(0, 0, 3)),
        ("b:50211".to_string(), AccountId::new(0, 0, 4)),
        ("c:50211".to_string(), AccountId::new(0, 0, 5)),
    ]
}

fn network() -> NetworkData {
    NetworkData::from_addresses(&book(), 250, 8_000)
}

fn ids() -> Vec<AccountId> {
    vec![AccountId::new(0, 0, 3), AccountId::new(0, 0, 4), AccountId::new(0, 0, 5)]
}

fn operator() -> AccountId {
    AccountId::new(0, 0, 1001)
}

fn now() -> Timestamp {
    Timestamp::new(1_700_000_000, 0)
}

fn start(explicit_nodes: Option<Vec<AccountId>>, tx: Option<TransactionId>) -> Execution {
    Execution::new(true, tx, Some(operator()), explicit_nodes, 10, true, now()).unwrap()
}

#[test]
fn scenario_first_node_ok() {
    let net = network();
    let mut exec = start(None, None);
    exec.begin_round(&net, 0, 7).unwrap();
    assert_eq!(exec.sample.len(), 1);
    let node = exec.current_node().unwrap();
    match exec.on_outcome(Outcome::Status(0), now()) {
        Step::Succeeded { node: n, transaction_id } => {
            assert_eq!(n, node);
            assert_eq!(transaction_id, Some(TransactionId::with_valid_start(operator(), now())));
        }
        other => panic!("unexpected step {:?}", other),
    }
    assert_eq!(exec.current_node(), None);
    assert!(!exec.needs_backoff());
}

#[test]
fn scenario_unavailable_then_ok() {
    let mut net = network();
    let mut exec = start(Some(ids()), None);
    exec.begin_round(&net, 1_000, 1).unwrap();
    assert_eq!(exec.current_node(), Some(AccountId::new(0, 0, 3)));
    match exec.on_outcome(Outcome::Transport(14), now()) {
        Step::Continue { unhealthy: Some(id) } => {
            let i = net.find(&id).unwrap();
            net.mark_node_unhealthy(i, 1_000, 0);
        }
        other => panic!("unexpected step {:?}", other),
    }
    assert!(net.nodes[0].unhealthy_until > 1_000);
    assert!(!net.nodes[0].is_healthy(1_000));
    assert!(net.nodes[1].is_healthy(1_000));
    assert_eq!(exec.current_node(), Some(AccountId::new(0, 0, 4)));
    match exec.on_outcome(Outcome::Status(22), now()) {
        Step::Succeeded { node, .. } => {
            assert_eq!(node, AccountId::new(0, 0, 4));
            net.mark_node_healthy(1);
        }
        other => panic!("unexpected step {:?}", other),
    }
    assert!(net.nodes[1].is_healthy(1_000));
    assert!(!exec.needs_backoff());
}

#[test]
fn scenario_busy_round_then_ok() {
    let net = network();
    let mut exec = start(Some(ids()), None);
    exec.begin_round(&net, 0, 1).unwrap();
    for _ in 0..3 {
        assert!(matches!(exec.on_outcome(Outcome::Status(12), now()), Step::Continue { unhealthy: None }));
    }
    assert!(matches!(exec.last_error, Some(Error::PreCheckStatus { status: 12, .. })));
    assert!(exec.needs_backoff());
    assert_eq!(exec.on_backoff(Some(250)).unwrap(), 250);
    exec.begin_round(&net, 250, 2).unwrap();
    assert_eq!(exec.attempt, 2);
    assert!(matches!(exec.on_outcome(Outcome::Status(0), now()), Step::Succeeded { .. }));
}

#[test]
fn scenario_expired_generated_id_is_regenerated() {
    let net = network();
    let mut exec = start(Some(ids()), None);
    exec.begin_round(&net, 0, 1).unwrap();
    let first = exec.transaction_id.unwrap();
    assert!(matches!(exec.on_outcome(Outcome::Status(4), now()), Step::Continue { unhealthy: None }));
    let second = exec.transaction_id.unwrap();
    assert_ne!(first, second);
    assert!(second.valid_start.is_after(&first.valid_start));
    assert!(!exec.needs_backoff());
    match exec.on_outcome(Outcome::Status(0), now()) {
        Step::Succeeded { transaction_id, .. } => assert_eq!(transaction_id, Some(second)),
        other => panic!("unexpected step {:?}", other),
    }
}

#[test]
fn scenario_expired_regeneration_uses_later_clock() {
    let net = network();
    let mut exec = start(Some(ids()), None);
    exec.begin_round(&net, 0, 1).unwrap();
    let later = Timestamp::new(1_700_000_005, 5);
    exec.on_outcome(Outcome::Status(4), later);
    assert_eq!(exec.transaction_id.unwrap().valid_start, later);
    assert_eq!(exec.transaction_id.unwrap().account_id, operator());
}

#[test]
fn scenario_expired_on_last_node_skips_backoff() {
    let net = network();
    let mut exec = start(Some(vec![AccountId::new(0, 0, 3)]), None);
    exec.begin_round(&net, 0, 1).unwrap();
    exec.on_outcome(Outcome::Status(4), now());
    assert_eq!(exec.current_node(), None);
    assert!(!exec.needs_backoff());
    exec.begin_round(&net, 0, 1).unwrap();
    assert_eq!(exec.attempt, 1);
    assert!(matches!(exec.on_outcome(Outcome::Status(0), now()), Step::Succeeded { .. }));
}

#[test]
fn scenario_explicit_id_expired_fails() {
    let net = network();
    let tx = TransactionId::with_valid_start(AccountId::new(0, 0, 77), Timestamp::new(10, 0));
    let mut exec = start(Some(ids()), Some(tx));
    exec.begin_round(&net, 0, 1).unwrap();
    match exec.on_outcome(Outcome::Status(4), now()) {
        Step::Failed(Error::PreCheckStatus { status, transaction_id }) => {
            assert_eq!(status, 4);
            assert_eq!(transaction_id, Some(tx));
        }
        other => panic!("unexpected step {:?}", other),
    }
    assert_eq!(exec.current_node(), None);
}

#[test]
fn scenario_all_unavailable_times_out() {
    let net = network();
    let mut exec = start(Some(ids()), None);
    exec.begin_round(&net, 0, 1).unwrap();
    for _ in 0..3 {
        assert!(matches!(exec.on_outcome(Outcome::Transport(14), now()), Step::Continue { unhealthy: Some(_) }));
    }
    match exec.on_backoff(None) {
        Err(Error::TimedOut(Some(last))) => assert!(matches!(*last, Error::Transport { code: 14 })),
        other => panic!("unexpected result {:?}", other),
    }
}

#[test]
fn max_attempts_exhausted() {
    let net = network();
    let mut exec = Execution::new(true, None, Some(operator()), Some(ids()), 2, true, now()).unwrap();
    for round in 0..2 {
        exec.begin_round(&net, round, 1).unwrap();
        for _ in 0..3 {
            exec.on_outcome(Outcome::Status(67), now());
        }
        exec.on_backoff(Some(1)).unwrap();
    }
    match exec.begin_round(&net, 5, 1) {
        Err(Error::MaxAttemptsExceeded(Some(last))) => {
            assert!(matches!(*last, Error::PreCheckStatus { status: 67, .. }))
        }
        other => panic!("unexpected result {:?}", other),
    }
}

#[test]
fn cancel_stops_calls() {
    let net = network();
    let mut exec = start(Some(ids()), None);
    exec.begin_round(&net, 0, 1).unwrap();
    let e = exec.cancel();
    assert!(matches!(e, Error::TimedOut(None)));
    assert_eq!(exec.current_node(), None);
}

#[test]
fn other_transport_error_fails_at_once() {
    let net = network();
    let mut exec = start(Some(ids()), None);
    exec.begin_round(&net, 0, 1).unwrap();
    assert!(matches!(exec.on_outcome(Outcome::Transport(3), now()), Step::Failed(Error::Transport { code: 3 })));
}

#[test]
fn internal_and_exhausted_mark_unhealthy() {
    let net = network();
    let mut exec = start(Some(ids()), None);
    exec.begin_round(&net, 0, 1).unwrap();
    assert!(matches!(exec.on_outcome(Outcome::Transport(13), now()), Step::Continue { unhealthy: Some(_) }));
    assert!(matches!(exec.on_outcome(Outcome::Transport(8), now()), Step::Continue { unhealthy: Some(_) }));
}

#[test]
fn unknown_and_undecodable_fail() {
    let net = network();
    let mut exec = start(Some(ids()), None);
    exec.begin_round(&net, 0, 1).unwrap();
    assert!(matches!(exec.on_outcome(Outcome::UnknownStatus(9999), now()), Step::Failed(Error::ResponseStatusUnrecognized(9999))));
    let mut exec = start(Some(ids()), None);
    exec.begin_round(&net, 0, 1).unwrap();
    assert!(matches!(exec.on_outcome(Outcome::Undecodable("bad".to_string()), now()), Step::Failed(Error::FromProtobuf(_))));
}

#[test]
fn other_pre_check_fails_at_once() {
    let net = network();
    let mut exec = start(Some(ids()), None);
    exec.begin_round(&net, 0, 1).unwrap();
    assert!(matches!(exec.on_outcome(Outcome::Status(7), now()), Step::Failed(Error::PreCheckStatus { status: 7, .. })));
}

#[test]
fn no_payer_is_refused() {
    let r = Execution::new(true, None, None, None, 10, true, now());
    assert!(matches!(r, Err(Error::NoPayerAccountOrTransactionId)));
    let q = Execution::new(false, None, None, None, 10, true, now()).unwrap();
    assert_eq!(q.transaction_id, None);
}

#[test]
fn unknown_explicit_node_is_refused() {
    let net = network();
    let mut exec = start(Some(vec![AccountId::new(0, 0, 3), AccountId::new(0, 0, 99)]), None);
    assert!(matches!(exec.begin_round(&net, 0, 1), Err(Error::NodeAccountUnknown(Some(id))) if id == AccountId::new(0, 0, 99)));
}

#[test]
fn empty_network_is_refused() {
    let net = NetworkData::empty(250, 8_000);
    let mut exec = start(None, None);
    assert!(matches!(exec.begin_round(&net, 0, 1), Err(Error::NodeAccountUnknown(None))));
}

#[test]
fn explicit_nodes_keep_order() {
    let net = network();
    let order = vec![AccountId::new(0, 0, 5), AccountId::new(0, 0, 3)];
    let mut exec = start(Some(order.clone()), None);
    exec.begin_round(&net, 0, 1).unwrap();
    assert_eq!(exec.sample, order);
    assert_eq!(exec.current_node(), Some(order[0]));
    exec.on_outcome(Outcome::Status(12), now());
    assert_eq!(exec.current_node(), Some(order[1]));
}

#[test]
fn client_starts_execution_with_its_settings() {
    let mut client = ClientBuilder::new(ManagedNetworkBuilder::Addresses(book())).build().unwrap();
    client.set_operator(operator(), vec![1, 2, 3]);
    client.set_max_attempts(3);
    let exec = client.start_execution(true, None, None, now()).unwrap();
    assert_eq!(exec.max_attempts, 3);
    assert_eq!(exec.transaction_id, Some(TransactionId::with_valid_start(operator(), now())));
    let bare = Client::for_network(book()).unwrap();
    assert!(matches!(bare.start_execution(true, None, None, now()), Err(Error::NoPayerAccountOrTransactionId)));
}
