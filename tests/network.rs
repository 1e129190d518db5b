use hedera_core::execute::Execution;
use hedera_core::ids::{AccountId, Timestamp};
use hedera_core::network::NetworkData;

fn book(n: u64) -> Vec<(String, AccountId)> {
    (0..n).map(|i| (format!("node{}:50211", i), AccountId::new(0, 0, 3 + i))).collect()
}

#[test]
fn sample_is_a_third_of_healthy_nodes() {
    for (n, expected) in [(1u64, 1usize), (2, 1), (3, 1), (4, 2), (6, 2), (7, 3), (9, 3), (10, 4)] {
        let net = NetworkData::from_addresses(&book(n), 250, 8_000);
        let s = net.select_nodes(&None, 0, 42);
        assert_eq!(s.len(), expected, "with {} nodes", n);
        let mut sorted = s.clone();
        sorted.sort();
        sorted.dedup();
        assert_eq!(sorted.len(), s.len());
        assert!(s.iter().all(|&i| i < n as usize));
    }
}

#[test]
fn sample_skips_unhealthy_nodes() {
    let mut net = NetworkData::from_addresses(&book(6), 250, 8_000);
    for i in 0..4 {
        net.mark_node_unhealthy(i, 100, 0);
    }
    for seed in 0..20 {
        let s = net.select_nodes(&None, 100, seed);
        assert_eq!(s.len(), 1);
        assert!(s[0] >= 4);
    }
}

#[test]
fn sample_falls_back_to_all_nodes() {
    let mut net = NetworkData::from_addresses(&book(3), 250, 8_000);
    for i in 0..3 {
        net.mark_node_unhealthy(i, 100, 0);
    }
    assert_eq!(net.healthy_node_indexes(100), Vec::<usize>::new());
    assert_eq!(net.select_nodes(&None, 100, 1), vec![0, 1, 2]);
}

#[test]
fn explicit_selection_is_kept() {
    let net = NetworkData::from_addresses(&book(5), 250, 8_000);
    assert_eq!(net.select_nodes(&Some(vec![4, 0, 2]), 0, 1), vec![4, 0, 2]);
}

#[test]
fn same_seed_same_sample() {
    let net = NetworkData::from_addresses(&book(9), 250, 8_000);
    assert_eq!(net.select_nodes(&None, 0, 5), net.select_nodes(&None, 0, 5));
}

#[test]
fn unhealthy_marking_grows_backoff() {
    let mut net = NetworkData::from_addresses(&book(3), 250, 1_000);
    net.mark_node_unhealthy(1, 10_000, 249);
    assert_eq!(net.nodes[1].unhealthy_until, 10_250);
    assert_eq!(net.nodes[1].bad_count, 1);
    assert_eq!(net.nodes[1].current_backoff, 500);
    net.mark_node_unhealthy(1, 20_000, 499);
    assert_eq!(net.nodes[1].unhealthy_until, 20_500);
    assert_eq!(net.nodes[1].current_backoff, 1_000);
    net.mark_node_unhealthy(1, 30_000, 999);
    assert_eq!(net.nodes[1].unhealthy_until, 31_000);
    assert_eq!(net.nodes[1].current_backoff, 1_000);
    assert_eq!(net.nodes[0].unhealthy_until, 0);
    assert_eq!(net.nodes[2].unhealthy_until, 0);
    assert!(!net.nodes[1].is_healthy(30_999));
    assert!(net.nodes[1].is_healthy(31_000));
    net.mark_node_healthy(1);
    assert_eq!(net.nodes[1].unhealthy_until, 0);
    assert_eq!(net.nodes[1].bad_count, 0);
    assert_eq!(net.nodes[1].current_backoff, 250);
}

#[test]
fn zero_backoff_still_quarantines() {
    let mut net = NetworkData::from_addresses(&book(1), 0, 0);
    net.mark_node_unhealthy(0, 5, 7);
    assert_eq!(net.nodes[0].unhealthy_until, 6);
}

#[test]
fn quarantine_saturates_at_clock_end() {
    let mut net = NetworkData::from_addresses(&book(1), 250, 8_000);
    net.mark_node_unhealthy(0, u64::MAX - 10, 249);
    assert_eq!(net.nodes[0].unhealthy_until, u64::MAX);
}

#[test]
fn update_keeps_health_of_surviving_nodes() {
    let mut net = NetworkData::from_addresses(&book(3), 250, 8_000);
    net.mark_node_unhealthy(1, 1_000, 249);
    let next = net.update_from_addresses(&vec![
        ("x:1".to_string(), AccountId::new(0, 0, 4)),
        ("y:1".to_string(), AccountId::new(0, 0, 9)),
        ("x:2".to_string(), AccountId::new(0, 0, 4)),
    ]);
    assert_eq!(next.nodes.len(), 2);
    assert_eq!(next.nodes[0].account_id, AccountId::new(0, 0, 4));
    assert_eq!(next.nodes[0].addresses, vec!["x:1".to_string(), "x:2".to_string()]);
    assert_eq!(next.nodes[0].unhealthy_until, 1_250);
    assert_eq!(next.nodes[0].bad_count, 1);
    assert_eq!(next.nodes[1].account_id, AccountId::new(0, 0, 9));
    assert_eq!(next.nodes[1].unhealthy_until, 0);
    assert_eq!(next.find(&AccountId::new(0, 0, 3)), None);
    assert_eq!(net.nodes.len(), 3);
}

#[test]
fn indexes_for_ids() {
    let net = NetworkData::from_addresses(&book(3), 250, 8_000);
    assert_eq!(net.node_indexes_for_ids(&vec![AccountId::new(0, 0, 5), AccountId::new(0, 0, 3)]), Ok(vec![2, 0]));
    assert_eq!(
        net.node_indexes_for_ids(&vec![AccountId::new(0, 0, 8), AccountId::new(0, 0, 9)]),
        Err(AccountId::new(0, 0, 8))
    );
}

#[test]
fn node_removed_after_too_many_failures() {
    let mut net = NetworkData::from_addresses(&book(2), 250, 8_000);
    net.max_node_attempts = Some(2);
    net.mark_node_unhealthy(0, 0, 3);
    assert!(!net.remove_node_if_exceeded(0));
    net.mark_node_unhealthy(0, 0, 3);
    assert!(net.remove_node_if_exceeded(0));
    assert_eq!(net.nodes.len(), 1);
    assert_eq!(net.nodes[0].account_id, AccountId::new(0, 0, 4));
}

#[test]
fn addresses_list_every_endpoint() {
    let net = NetworkData::from_addresses(&book(2), 250, 8_000);
    let mut a = net.addresses();
    a.sort_by(|x, y| x.0.cmp(&y.0));
    assert_eq!(a, vec![("node0:50211".to_string(), AccountId::new(0, 0, 3)), ("node1:50211".to_string(), AccountId::new(0, 0, 4))]);
    assert_eq!(net.node_ids(), vec![AccountId::new(0, 0, 3), AccountId::new(0, 0, 4)]);
}

#[test]
fn quarantine_is_jittered() {
    let mut net = NetworkData::from_addresses(&book(2), 250, 8_000);
    net.mark_node_unhealthy(0, 1_000, 0);
    assert_eq!(net.nodes[0].unhealthy_until, 1_001);
    net.mark_node_unhealthy(1, 1_000, 300);
    assert_eq!(net.nodes[1].unhealthy_until, 1_051);
    assert_eq!(net.nodes[1].current_backoff, 500);
}

#[test]
fn repeated_explicit_ids_are_tried_once() {
    let net = NetworkData::from_addresses(&book(3), 250, 8_000);
    let a = AccountId::new(0, 0, 3);
    let b = AccountId::new(0, 0, 5);
    let mut exec = Execution::new(false, None, None, Some(vec![b, a, b, a]), 3, true, Timestamp::new(1, 0)).unwrap();
    exec.begin_round(&net, 0, 1).unwrap();
    assert_eq!(exec.sample, vec![b, a]);
}
