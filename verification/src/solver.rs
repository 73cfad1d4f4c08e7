//! The nonce-search engine: scans a contiguous nonce range for a digest
//! that meets the difficulty target.

use vstd::prelude::*;

use crate::digest::{bytes_eq, bytes_le, keccak_mine, keccak_mine_digest, le_bytes};

verus! {

/// A nonce wins the puzzle when its digest, read as a big-endian integer,
/// is at most the difficulty target.
pub open spec fn wins(challenge: Seq<u8>, signer: Seq<u8>, difficulty: Seq<u8>, nonce: u64) -> bool {
    le_bytes(keccak_mine_digest(challenge, signer, nonce), difficulty)
}

/// Scans nonces `start, start + 1, ...` for at most `count` steps and
/// returns the first winning `(digest, nonce)` pair, or `None` when no
/// nonce in the range wins. No nonce is skipped: everything below the
/// returned nonce loses.
pub fn search_range(
    challenge: &[u8],
    signer: &[u8],
    difficulty: &[u8],
    start: u64,
    count: u64,
) -> (r: Option<(Vec<u8>, u64)>)
    requires
        difficulty@.len() == 32,
        start + count <= u64::MAX + 1,
    ensures
        match r {
            Some((solution, nonce)) => {
                &&& start <= nonce < start + count
                &&& solution@ == keccak_mine_digest(challenge@, signer@, nonce)
                &&& le_bytes(solution@, difficulty@)
                &&& forall|m: u64| start <= m < nonce ==> !wins(challenge@, signer@, difficulty@, m)
            },
            None => forall|m: u64|
                start <= m < start + count ==> !wins(challenge@, signer@, difficulty@, m),
        },
{
    let mut i: u64 = 0;
    while i < count
        invariant
            0 <= i <= count,
            start + count <= u64::MAX + 1,
            difficulty@.len() == 32,
            forall|m: u64| start <= m < start + i ==> !wins(challenge@, signer@, difficulty@, m),
        decreases count - i,
    {
        let nonce = start + i;
        let solution = keccak_mine(challenge, signer, nonce);
        if bytes_le(solution.as_slice(), difficulty) {
            return Some((solution, nonce));
        }
        i = i + 1;
    }
    None
}

/// Where worker `index` of `workers` begins its scan: the 64-bit nonce
/// space is cut into `workers` contiguous ranges of width
/// `u64::MAX / workers` each.
pub open spec fn partition_start(index: u64, workers: u64) -> int {
    (u64::MAX as int / workers as int) * index as int
}

/// The starting nonce of one worker's partition of the nonce space.
pub fn start_nonce_for(index: u64, workers: u64) -> (r: u64)
    requires
        1 <= workers,
        index < workers,
    ensures
        r == partition_start(index, workers),
{
    let width = u64::MAX / workers;
    proof {
        let w = width as int;
        let t = workers as int;
        let idx = index as int;
        vstd::arithmetic::div_mod::lemma_fundamental_div_mod(u64::MAX as int, t);
        assert(t * w + u64::MAX as int % t == u64::MAX as int);
        vstd::arithmetic::div_mod::lemma_mod_bound(u64::MAX as int, t);
        assert(t * w <= u64::MAX as int);
        vstd::arithmetic::mul::lemma_mul_inequality(idx, t, w);
        assert(idx * w <= t * w);
        vstd::arithmetic::mul::lemma_mul_is_commutative(w, idx);
    }
    width * index
}

/// The number of nonces a worker scans between looks at the shared stop
/// flag.
pub const STOP_CHECK_INTERVAL: u64 = 10_000;

/// The mining client's hash-validation entry point.
pub struct MinerV2;

impl MinerV2 {
    /// Checks a claimed solution: the digest must equal the keccak digest
    /// of `(current_hash, signer, nonce)` and be at most the difficulty.
    pub fn validate_hash(
        hash: &[u8],
        current_hash: &[u8],
        signer: &[u8],
        nonce: u64,
        difficulty: &[u8],
    ) -> (r: bool)
        requires
            hash@.len() == 32,
            difficulty@.len() == 32,
        ensures
            r == (hash@ == keccak_mine_digest(current_hash@, signer@, nonce)
                && le_bytes(hash@, difficulty@)),
    {
        let computed = keccak_mine(current_hash, signer, nonce);
        if !bytes_eq(hash, computed.as_slice()) {
            return false;
        }
        bytes_le(hash, difficulty)
    }
}

/// When the first nonce of a scanned range already wins, any result that
/// meets `search_range`'s contract is that very nonce: the solver stops at
/// the first winner instead of scanning the rest of the space, whatever
/// worker count chose the range.
pub proof fn lemma_win_at_start_is_found_first(
    challenge: Seq<u8>,
    signer: Seq<u8>,
    difficulty: Seq<u8>,
    start: u64,
    nonce: u64,
)
    requires
        wins(challenge, signer, difficulty, start),
        start <= nonce,
        forall|m: u64| start <= m < nonce ==> !wins(challenge, signer, difficulty, m),
    ensures
        nonce == start,
{
    if nonce > start {
        assert(!wins(challenge, signer, difficulty, start));
    }
}

} // verus!
