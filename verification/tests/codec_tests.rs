use ore_miner::codec::{build_tx_queue_message, decode_plan, decode_tx_queue_message, encode_plan};
use ore_miner::messages::TransactionQueueMessage;
use ore_miner::plan::{
    build_mine_plan, plan_instructions, PlanInstruction, WalletSolution, CU_LIMIT_MINE,
};

fn solved(tag: u8, nonce: u64) -> WalletSolution {
    WalletSolution {
        wallet: format!("wallet-{}", tag),
        pubkey: vec![tag; 32],
        solution: vec![tag.wrapping_add(1); 32],
        nonce,
    }
}

#[test]
fn plan_keeps_every_wallet_field_in_order() {
    let batch = vec![solved(1, 10), solved(2, 20), solved(3, 30)];
    let (plan, wallets) = build_mine_plan(&batch, 0, 5_000);
    assert_eq!(wallets, vec!["wallet-1", "wallet-2", "wallet-3"]);
    assert_eq!(plan.priority_fee, 5_000);
    assert_eq!(plan.bus_id, 0);
    assert_eq!(plan.entries.len(), 3);
    for (i, entry) in plan.entries.iter().enumerate() {
        assert_eq!(entry.pubkey, batch[i].pubkey);
        assert_eq!(entry.solution, batch[i].solution);
        assert_eq!(entry.nonce, batch[i].nonce);
    }
}

#[test]
fn instructions_are_two_budget_then_one_mine_per_wallet() {
    let batch = vec![solved(1, 10), solved(2, 20), solved(3, 30)];
    let (plan, _) = build_mine_plan(&batch, 4, 77);
    let ixs = plan_instructions(&plan);
    assert_eq!(ixs.len(), 5);
    assert!(matches!(ixs[0], PlanInstruction::BudgetLimit { units } if units == CU_LIMIT_MINE * 3));
    assert!(matches!(ixs[1], PlanInstruction::BudgetPrice { micro_lamports: 77 }));
    for (i, ix) in ixs[2..].iter().enumerate() {
        match ix {
            PlanInstruction::Mine { signer, bus_id, solution, nonce } => {
                assert_eq!(*signer, batch[i].pubkey);
                assert_eq!(*bus_id, 4);
                assert_eq!(*solution, batch[i].solution);
                assert_eq!(*nonce, batch[i].nonce);
            },
            _ => panic!("instruction {} should be a mining instruction", i + 2),
        }
    }
}

#[test]
fn frame_round_trips_through_bytes() {
    let batch = vec![solved(7, 123_456_789), solved(9, u64::MAX)];
    let (plan, _) = build_mine_plan(&batch, 3, u64::MAX - 1);
    let bytes = encode_plan(&plan);
    assert_eq!(bytes.len(), 17 + 2 * 72);
    let decoded = decode_plan(&bytes).expect("a freshly written frame must parse");
    assert_eq!(decoded.priority_fee, plan.priority_fee);
    assert_eq!(decoded.bus_id, plan.bus_id);
    assert_eq!(decoded.entries.len(), 2);
    for i in 0..2 {
        assert_eq!(decoded.entries[i].pubkey, plan.entries[i].pubkey);
        assert_eq!(decoded.entries[i].solution, plan.entries[i].solution);
        assert_eq!(decoded.entries[i].nonce, plan.entries[i].nonce);
    }
}

#[test]
fn garbage_bytes_do_not_parse() {
    assert!(decode_plan(&vec![]).is_none());
    assert!(decode_plan(&vec![0u8; 17]).is_none());
    // Count byte says one entry but the record is truncated.
    let mut short = vec![1u8];
    short.extend_from_slice(&[0u8; 40]);
    assert!(decode_plan(&short).is_none());
    // Correct length, but the bus id is out of range.
    let batch = vec![solved(1, 1)];
    let (plan, _) = build_mine_plan(&batch, 0, 0);
    let mut bytes = encode_plan(&plan);
    bytes[9] = 0xff;
    assert!(decode_plan(&bytes).is_none());
}

#[test]
fn queue_message_round_trips_the_plan() {
    let batch = vec![solved(5, 42)];
    let (plan, wallets) = build_mine_plan(&batch, 2, 999);
    let msg = build_tx_queue_message(&plan, wallets.clone(), 31);
    assert_eq!(msg.wallets, wallets);
    assert_eq!(msg.hash_time_elapsed, 31);
    // One 89-byte frame encodes to 120 base64 characters: the encoding
    // really ran.
    assert_eq!(msg.encoded_unsigned_tx.len(), 120);
    let decoded = decode_tx_queue_message(&msg).expect("our own message must decode");
    assert_eq!(decoded.priority_fee, 999);
    assert_eq!(decoded.bus_id, 2);
    assert_eq!(decoded.entries.len(), 1);
    assert_eq!(decoded.entries[0].pubkey, vec![5u8; 32]);
    assert_eq!(decoded.entries[0].nonce, 42);
}

#[test]
fn a_corrupted_message_does_not_decode_to_a_plan() {
    let msg = TransactionQueueMessage {
        wallets: vec!["w".to_string()],
        encoded_unsigned_tx: "not base64!!".to_string(),
        hash_time_elapsed: 0,
    };
    assert!(decode_tx_queue_message(&msg).is_none());
}
