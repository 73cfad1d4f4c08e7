use ore_miner::solver::{search_range, start_nonce_for, MinerV2};

fn easy_difficulty() -> Vec<u8> {
    // Accepts any digest whose first byte is zero (and a hair more).
    let mut d = vec![0xffu8; 32];
    d[0] = 0;
    d
}

#[test]
fn search_finds_a_winning_nonce() {
    let challenge = vec![1u8; 32];
    let signer = vec![2u8; 32];
    let difficulty = easy_difficulty();
    let found = search_range(&challenge, &signer, &difficulty, 0, 1_000_000);
    let (solution, nonce) = found.expect("a 1-in-256 puzzle must fall within a million nonces");
    assert_eq!(solution.len(), 32);
    assert_eq!(solution[0], 0);
    assert!(MinerV2::validate_hash(&solution, &challenge, &signer, nonce, &difficulty));
}

#[test]
fn search_reports_no_solution_on_an_impossible_target() {
    let challenge = vec![9u8; 32];
    let signer = vec![8u8; 32];
    let difficulty = vec![0u8; 32];
    let found = search_range(&challenge, &signer, &difficulty, 0, 64);
    assert!(found.is_none());
}

#[test]
fn search_starts_at_the_range_start() {
    // With the loosest possible target every nonce wins, so the first
    // nonce of the range must come back: the solver scans in order.
    let challenge = vec![5u8; 32];
    let signer = vec![6u8; 32];
    let difficulty = vec![0xffu8; 32];
    let (_, nonce) = search_range(&challenge, &signer, &difficulty, 7_000, 10).unwrap();
    assert_eq!(nonce, 7_000);
}

#[test]
fn validate_rejects_a_wrong_nonce() {
    let challenge = vec![1u8; 32];
    let signer = vec![2u8; 32];
    let difficulty = easy_difficulty();
    let (solution, nonce) = search_range(&challenge, &signer, &difficulty, 0, 1_000_000).unwrap();
    assert!(!MinerV2::validate_hash(
        &solution,
        &challenge,
        &signer,
        nonce.wrapping_add(1),
        &difficulty
    ));
}

#[test]
fn validate_rejects_a_digest_over_the_target() {
    // The recomputed digest matches, but the target only accepts zero.
    let challenge = vec![1u8; 32];
    let signer = vec![2u8; 32];
    let loose = vec![0xffu8; 32];
    let (solution, nonce) = search_range(&challenge, &signer, &loose, 0, 4).unwrap();
    let impossible = vec![0u8; 32];
    assert!(!MinerV2::validate_hash(&solution, &challenge, &signer, nonce, &impossible));
}

#[test]
fn partitions_cover_distinct_starts() {
    assert_eq!(start_nonce_for(0, 4), 0);
    assert_eq!(start_nonce_for(1, 4), u64::MAX / 4);
    assert_eq!(start_nonce_for(2, 4), (u64::MAX / 4) * 2);
    assert_eq!(start_nonce_for(3, 4), (u64::MAX / 4) * 3);
    assert_eq!(start_nonce_for(0, 1), 0);
}

#[test]
fn more_workers_still_find_a_valid_solution() {
    // The solution found inside any worker's partition validates against
    // the same challenge, whatever the worker count was.
    let challenge = vec![4u8; 32];
    let signer = vec![3u8; 32];
    let difficulty = easy_difficulty();
    for workers in [1u64, 2, 4] {
        let start = start_nonce_for(workers - 1, workers);
        let (solution, nonce) =
            search_range(&challenge, &signer, &difficulty, start, 1_000_000).unwrap();
        assert!(nonce >= start);
        assert!(MinerV2::validate_hash(&solution, &challenge, &signer, nonce, &difficulty));
    }
}
