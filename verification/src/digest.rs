//! Keccak digests and the big-endian ordering used by the difficulty check.

use vstd::prelude::*;

verus! {

/// The digest that the mining puzzle is built on: keccak-256 over the
/// concatenation of a challenge hash, a signer public key, and the
/// little-endian bytes of a nonce. The value is fixed by the inputs alone;
/// nothing further is assumed about it.
pub uninterp spec fn keccak_mine_digest(challenge: Seq<u8>, signer: Seq<u8>, nonce: u64) -> Seq<u8>;

/// Relies on solana_program::keccak::hashv: the keccak-256 digest of the
/// concatenated byte slices, 32 bytes long, a function of the bytes alone.
#[verifier::external_body]
pub(crate) fn keccak_mine(challenge: &[u8], signer: &[u8], nonce: u64) -> (r: Vec<u8>)
    ensures
        r@ == keccak_mine_digest(challenge@, signer@, nonce),
        r@.len() == 32,
{
    solana_program::keccak::hashv(&[challenge, signer, &nonce.to_le_bytes()])
        .to_bytes()
        .to_vec()
}

/// Big-endian numeric order on equal-length byte strings: `a <= b` exactly
/// when, at the first position where they differ, `a` holds the smaller
/// byte. On 32-byte digests this is the order the difficulty check uses.
pub open spec fn le_bytes(a: Seq<u8>, b: Seq<u8>) -> bool
    decreases a.len(),
{
    if a.len() == 0 {
        true
    } else if b.len() == 0 {
        false
    } else if a[0] < b[0] {
        true
    } else if a[0] > b[0] {
        false
    } else {
        le_bytes(a.skip(1), b.skip(1))
    }
}

proof fn lemma_le_bytes_step(a: Seq<u8>, b: Seq<u8>, i: int)
    requires
        a.len() == b.len(),
        0 <= i < a.len(),
        forall|j: int| 0 <= j < i ==> a[j] == b[j],
        a[i] == b[i],
    ensures
        le_bytes(a.skip(i), b.skip(i)) == le_bytes(a.skip(i + 1), b.skip(i + 1)),
{
    assert(a.skip(i)[0] == a[i]);
    assert(b.skip(i)[0] == b[i]);
    assert(a.skip(i).skip(1) =~= a.skip(i + 1));
    assert(b.skip(i).skip(1) =~= b.skip(i + 1));
}

proof fn lemma_le_bytes_prefix(a: Seq<u8>, b: Seq<u8>, i: int)
    requires
        a.len() == b.len(),
        0 <= i <= a.len(),
        forall|j: int| 0 <= j < i ==> a[j] == b[j],
    ensures
        le_bytes(a, b) == le_bytes(a.skip(i), b.skip(i)),
    decreases i,
{
    if i > 0 {
        lemma_le_bytes_prefix(a, b, i - 1);
        lemma_le_bytes_step(a, b, i - 1);
    } else {
        assert(a.skip(0) =~= a);
        assert(b.skip(0) =~= b);
    }
}

/// Compares two equal-length byte strings as big-endian unsigned integers.
pub fn bytes_le(a: &[u8], b: &[u8]) -> (r: bool)
    requires
        a@.len() == b@.len(),
    ensures
        r == le_bytes(a@, b@),
{
    let n = a.len();
    let mut i: usize = 0;
    while i < n
        invariant
            0 <= i <= n,
            n == a@.len(),
            a@.len() == b@.len(),
            forall|j: int| 0 <= j < i ==> a@[j] == b@[j],
        decreases n - i,
    {
        if a[i] < b[i] {
            proof {
                lemma_le_bytes_prefix(a@, b@, i as int);
            }
            return true;
        }
        if a[i] > b[i] {
            proof {
                lemma_le_bytes_prefix(a@, b@, i as int);
            }
            return false;
        }
        i = i + 1;
    }
    proof {
        lemma_le_bytes_prefix(a@, b@, n as int);
    }
    true
}

/// Compares two byte strings for equality.
pub fn bytes_eq(a: &[u8], b: &[u8]) -> (r: bool)
    ensures
        r == (a@ == b@),
{
    if a.len() != b.len() {
        assert(a@.len() != b@.len());
        return false;
    }
    let n = a.len();
    let mut i: usize = 0;
    while i < n
        invariant
            0 <= i <= n,
            n == a@.len(),
            a@.len() == b@.len(),
            forall|j: int| 0 <= j < i ==> a@[j] == b@[j],
        decreases n - i,
    {
        if a[i] != b[i] {
            assert(a@ != b@);
            return false;
        }
        i = i + 1;
    }
    assert(a@ =~= b@);
    true
}

} // verus!
