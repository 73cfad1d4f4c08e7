use ore_miner::messages::{failure_result, success_result};
use ore_miner::router::{route_result, RunStats};

#[test]
fn a_failed_batch_requeues_every_wallet_bit_for_bit() {
    let wallets = vec!["A".to_string(), "B".to_string()];
    let result = failure_result(wallets.clone(), 17);
    assert!(result.failed);
    assert_eq!(result.sig, "failed");
    assert_eq!(result.tx_time_elapsed, 0);
    assert_eq!(result.hash_time_elapsed, 17);
    let requeued = route_result(&result);
    assert_eq!(requeued.len(), 2);
    assert_eq!(requeued[0].wallet, "A");
    assert_eq!(requeued[1].wallet, "B");
}

#[test]
fn a_confirmed_batch_also_requeues_its_wallets() {
    let wallets = vec!["A".to_string(), "B".to_string(), "C".to_string()];
    let result = success_result(wallets.clone(), "sigX".to_string(), 4, 9);
    assert!(!result.failed);
    let requeued = route_result(&result);
    let names: Vec<String> = requeued.into_iter().map(|m| m.wallet).collect();
    assert_eq!(names, wallets);
}

#[test]
fn stats_record_only_confirmed_batches() {
    let mut stats = RunStats::new();
    let ok = success_result(vec!["A".to_string()], "sig".to_string(), 4, 9);
    let bad = failure_result(vec!["B".to_string()], 30);
    assert!(stats.record(&ok));
    assert!(!stats.record(&bad));
    assert_eq!(stats.tx_times, vec![4]);
    assert_eq!(stats.hash_times, vec![9]);
    assert_eq!(stats.total_times, vec![13]);
}
