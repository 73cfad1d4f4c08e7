use ore_miner::collector::BatchCollector;
use ore_miner::messages::WalletQueueMessage;

fn msg(name: &str) -> WalletQueueMessage {
    WalletQueueMessage { wallet: name.to_string() }
}

#[test]
fn seven_wallets_make_two_batches_of_three_and_one_pending() {
    let mut collector = BatchCollector::new(3);
    let names = ["w1", "w2", "w3", "w4", "w5", "w6", "w7"];
    let mut batches: Vec<Vec<String>> = Vec::new();
    for name in names {
        if let Some(batch) = collector.push(msg(name)) {
            batches.push(batch);
        }
    }
    assert_eq!(batches.len(), 2);
    assert_eq!(batches[0], vec!["w1", "w2", "w3"]);
    assert_eq!(batches[1], vec!["w4", "w5", "w6"]);
    assert_eq!(collector.pending_count(), 1);
    // The leftover wallet is not dropped: the next two messages finish
    // the third batch.
    assert!(collector.push(msg("w8")).is_none());
    let batch = collector.push(msg("w9")).expect("third batch must fill");
    assert_eq!(batch, vec!["w7", "w8", "w9"]);
    assert_eq!(collector.pending_count(), 0);
}

#[test]
fn batch_size_is_clamped_to_the_hard_cap() {
    let collector = BatchCollector::new(9);
    assert_eq!(collector.batch_size(), 5);
    let collector = BatchCollector::new(5);
    assert_eq!(collector.batch_size(), 5);
    let collector = BatchCollector::new(1);
    assert_eq!(collector.batch_size(), 1);
}

#[test]
fn size_one_emits_immediately() {
    let mut collector = BatchCollector::new(1);
    let batch = collector.push(msg("solo")).expect("a single wallet fills the batch");
    assert_eq!(batch, vec!["solo"]);
    assert_eq!(collector.pending_count(), 0);
}
