//! One full pass of the pipeline on a single wallet, with the network
//! replaced by hand-fed statuses: collect, solve, plan, encode, decode,
//! race to confirmation, and route the wallet back to the queue.

use ore_miner::codec::{build_tx_queue_message, decode_tx_queue_message};
use ore_miner::collector::BatchCollector;
use ore_miner::engine::{ConfirmationLevel, ConfirmationRace, RaceOutcome, SignatureStatus};
use ore_miner::messages::{success_result, WalletQueueMessage};
use ore_miner::plan::{build_mine_plan, plan_instructions, PlanInstruction, WalletSolution};
use ore_miner::router::route_result;
use ore_miner::solver::{search_range, MinerV2};

#[test]
fn single_wallet_batch_produces_one_confirmed_mining_transaction() {
    let wallet = "wallet-one".to_string();
    let pubkey = vec![7u8; 32];
    let challenge = vec![3u8; 32];
    let mut difficulty = vec![0xffu8; 32];
    difficulty[0] = 0;

    // Collecting: batch size 1 fills on the first message.
    let mut collector = BatchCollector::new(1);
    let batch = collector
        .push(WalletQueueMessage { wallet: wallet.clone() })
        .expect("a batch of one fills immediately");
    assert_eq!(batch, vec![wallet.clone()]);

    // Hashing: solve the puzzle for the one wallet in the batch.
    let (solution, nonce) =
        search_range(&challenge, &pubkey, &difficulty, 0, 1_000_000).expect("solution exists");
    assert!(MinerV2::validate_hash(&solution, &challenge, &pubkey, nonce, &difficulty));

    // Building: one plan, bus 0, encoded into the queue message.
    let solved = vec![WalletSolution {
        wallet: batch[0].clone(),
        pubkey: pubkey.clone(),
        solution: solution.clone(),
        nonce,
    }];
    let (plan, wallets) = build_mine_plan(&solved, 0, 1_000);
    let msg = build_tx_queue_message(&plan, wallets, 2);

    // Dispatching: the plan comes back intact and expands to exactly one
    // mining instruction behind the two budget instructions.
    let recovered = decode_tx_queue_message(&msg).expect("own message decodes");
    let ixs = plan_instructions(&recovered);
    assert_eq!(ixs.len(), 3);
    let mine_count = ixs
        .iter()
        .filter(|ix| matches!(ix, PlanInstruction::Mine { .. }))
        .count();
    assert_eq!(mine_count, 1);
    match &ixs[2] {
        PlanInstruction::Mine { signer, bus_id, solution: sol, nonce: n } => {
            assert_eq!(*signer, pubkey);
            assert_eq!(*bus_id, 0);
            assert_eq!(*sol, solution);
            assert_eq!(*n, nonce);
        },
        _ => panic!("the third instruction must be the mining instruction"),
    }

    // Confirming: one broadcast, then a confirmed status settles the race.
    let mut race = ConfirmationRace::new(500);
    race.record_signature("sig-final".to_string());
    let settled = race.poll(
        &vec![Some(SignatureStatus {
            confirmation: Some(ConfirmationLevel::Confirmed),
            ok: true,
        })],
        100,
    );
    assert!(settled);
    let sig = match race.outcome() {
        Some(RaceOutcome::Confirmed { sig }) => sig.clone(),
        _ => panic!("the race must confirm"),
    };

    // Routing: the wallet returns to the queue, identity unchanged, and
    // the orchestrator is back at Collecting.
    let result = success_result(msg.wallets, sig, 3, msg.hash_time_elapsed);
    let requeued = route_result(&result);
    assert_eq!(requeued.len(), 1);
    assert_eq!(requeued[0].wallet, wallet);
    assert_eq!(collector.pending_count(), 0);
}
