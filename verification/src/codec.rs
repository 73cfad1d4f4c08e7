//! The byte form a plan travels in: a fixed framing of the plan's fields,
//! carried through the transaction queue as a base64 string.
//!
//! The frame is one count byte, the priority fee and bus id as
//! little-endian words, then one 72-byte record per entry: the 32-byte
//! key, the 32-byte digest, and the nonce. Encoding and parsing are
//! proved inverse, so the dispatcher reads back exactly the plan the
//! batch builder wrote.

use vstd::prelude::*;

use vstd::bytes::{
    lemma_auto_spec_u64_to_from_le_bytes, spec_u64_from_le_bytes, spec_u64_to_le_bytes,
    u64_from_le_bytes, u64_to_le_bytes,
};

use crate::bus::BUS_COUNT;
use crate::messages::TransactionQueueMessage;
use crate::plan::{wf_entry, wf_plan, MineEntry, MineEntryView, MinePlan, MinePlanView};

use base64::Engine;

verus! {

/// The bytes of one entry record: key, digest, nonce.
pub open spec fn entry_bytes(e: MineEntryView) -> Seq<u8> {
    e.pubkey + e.solution + spec_u64_to_le_bytes(e.nonce)
}

/// The concatenated records of all entries, in order.
pub open spec fn entries_bytes(entries: Seq<MineEntryView>) -> Seq<u8>
    decreases entries.len(),
{
    if entries.len() == 0 {
        Seq::<u8>::empty()
    } else {
        entries_bytes(entries.drop_last()) + entry_bytes(entries.last())
    }
}

/// The whole frame: count byte, fee, bus id, then the entry records.
pub open spec fn frame_of(v: MinePlanView) -> Seq<u8> {
    seq![v.entries.len() as u8] + spec_u64_to_le_bytes(v.priority_fee) + spec_u64_to_le_bytes(
        v.bus_id,
    ) + entries_bytes(v.entries)
}

/// The entry record starting at `off`.
pub open spec fn parse_entry(bytes: Seq<u8>, off: int) -> MineEntryView {
    MineEntryView {
        pubkey: bytes.subrange(off, off + 32),
        solution: bytes.subrange(off + 32, off + 64),
        nonce: spec_u64_from_le_bytes(bytes.subrange(off + 64, off + 72)),
    }
}

/// What a byte string parses to: a well-formed plan when the count is in
/// range, the length matches exactly, and the bus id is legal; nothing
/// otherwise.
pub open spec fn parse_frame(bytes: Seq<u8>) -> Option<MinePlanView> {
    if bytes.len() < 17 {
        None::<MinePlanView>
    } else {
        let n = bytes[0] as int;
        if 1 <= n <= 5 && bytes.len() == 17 + n * 72 {
            let v = MinePlanView {
                priority_fee: spec_u64_from_le_bytes(bytes.subrange(1, 9)),
                bus_id: spec_u64_from_le_bytes(bytes.subrange(9, 17)),
                entries: Seq::new(n as nat, |i: int| parse_entry(bytes, 17 + i * 72)),
            };
            if v.bus_id < BUS_COUNT {
                Some(v)
            } else {
                None::<MinePlanView>
            }
        } else {
            None::<MinePlanView>
        }
    }
}

proof fn lemma_entries_bytes_props(entries: Seq<MineEntryView>)
    requires
        forall|i: int| 0 <= i < entries.len() ==> wf_entry(#[trigger] entries[i]),
    ensures
        entries_bytes(entries).len() == 72 * entries.len(),
        forall|i: int|
            0 <= i < entries.len() ==> entries_bytes(entries).subrange(72 * i, 72 * i + 72)
                =~= entry_bytes(#[trigger] entries[i]),
    decreases entries.len(),
{
    lemma_auto_spec_u64_to_from_le_bytes();
    if entries.len() > 0 {
        let head = entries.drop_last();
        let e = entries.last();
        lemma_entries_bytes_props(head);
        assert(entry_bytes(e).len() == 72);
        assert forall|i: int|
            0 <= i < entries.len() implies entries_bytes(entries).subrange(72 * i, 72 * i + 72)
            =~= entry_bytes(#[trigger] entries[i]) by {
            if i < entries.len() - 1 {
                assert(entries_bytes(head).subrange(72 * i, 72 * i + 72) =~= entry_bytes(head[i]));
                assert(entries_bytes(entries).subrange(72 * i, 72 * i + 72) =~= entries_bytes(
                    head,
                ).subrange(72 * i, 72 * i + 72));
            } else {
                assert(entries_bytes(entries).subrange(72 * i, 72 * i + 72) =~= entry_bytes(e));
            }
        }
    }
}

/// Parsing inverts framing: every well-formed plan comes back from its
/// own frame unchanged.
pub proof fn lemma_plan_codec_round_trip(v: MinePlanView)
    requires
        wf_plan(v),
    ensures
        parse_frame(frame_of(v)) == Some(v),
{
    lemma_auto_spec_u64_to_from_le_bytes();
    lemma_entries_bytes_props(v.entries);
    let b = frame_of(v);
    let n = v.entries.len() as int;
    assert(b.len() == 17 + n * 72);
    assert(b[0] == n as u8);
    assert(b.subrange(1, 9) =~= spec_u64_to_le_bytes(v.priority_fee));
    assert(b.subrange(9, 17) =~= spec_u64_to_le_bytes(v.bus_id));
    assert forall|i: int| 0 <= i < n implies parse_entry(b, 17 + i * 72) == v.entries[i] by {
        let e = v.entries[i];
        let off = 17 + i * 72;
        assert(entries_bytes(v.entries).subrange(72 * i, 72 * i + 72) =~= entry_bytes(e));
        assert(b.subrange(off, off + 72) =~= entries_bytes(v.entries).subrange(
            72 * i,
            72 * i + 72,
        ));
        assert(b.subrange(off, off + 32) =~= entry_bytes(e).subrange(0, 32));
        assert(b.subrange(off + 32, off + 64) =~= entry_bytes(e).subrange(32, 64));
        assert(b.subrange(off + 64, off + 72) =~= entry_bytes(e).subrange(64, 72));
        assert(entry_bytes(e).subrange(0, 32) =~= e.pubkey);
        assert(entry_bytes(e).subrange(32, 64) =~= e.solution);
        assert(entry_bytes(e).subrange(64, 72) =~= spec_u64_to_le_bytes(e.nonce));
    }
    let parsed = parse_frame(b);
    assert(parsed matches Some(p) && p.entries =~= v.entries);
}

/// Writes a plan's frame.
pub fn encode_plan(plan: &MinePlan) -> (bytes: Vec<u8>)
    requires
        plan.wf(),
    ensures
        bytes@ == frame_of(plan@),
{
    let n = plan.entries.len();
    let mut bytes: Vec<u8> = Vec::new();
    bytes.push(n as u8);
    let mut word = u64_to_le_bytes(plan.priority_fee);
    bytes.append(&mut word);
    let mut word = u64_to_le_bytes(plan.bus_id);
    bytes.append(&mut word);
    proof {
        assert(bytes@ =~= seq![plan@.entries.len() as u8] + spec_u64_to_le_bytes(
            plan@.priority_fee,
        ) + spec_u64_to_le_bytes(plan@.bus_id));
        assert(plan@.entries.take(0) =~= Seq::<MineEntryView>::empty());
    }
    let header: Ghost<Seq<u8>> = Ghost(bytes@);
    let mut i: usize = 0;
    while i < n
        invariant
            0 <= i <= n,
            n == plan@.entries.len(),
            plan.wf(),
            header@ == seq![plan@.entries.len() as u8] + spec_u64_to_le_bytes(
                plan@.priority_fee,
            ) + spec_u64_to_le_bytes(plan@.bus_id),
            bytes@ == header@ + entries_bytes(plan@.entries.take(i as int)),
        decreases n - i,
    {
        let e = &plan.entries[i];
        let mut part = vstd::slice::slice_to_vec(e.pubkey.as_slice());
        bytes.append(&mut part);
        let mut part = vstd::slice::slice_to_vec(e.solution.as_slice());
        bytes.append(&mut part);
        let mut part = u64_to_le_bytes(e.nonce);
        bytes.append(&mut part);
        proof {
            let taken = plan@.entries.take(i as int);
            let taken1 = plan@.entries.take(i as int + 1);
            assert(taken1.drop_last() =~= taken);
            assert(taken1.last() == plan@.entries[i as int]);
            assert(entries_bytes(taken1) == entries_bytes(taken) + entry_bytes(
                plan@.entries[i as int],
            ));
            assert(bytes@ =~= header@ + entries_bytes(taken1));
        }
        i = i + 1;
    }
    proof {
        assert(plan@.entries.take(n as int) =~= plan@.entries);
        assert(bytes@ =~= frame_of(plan@));
    }
    bytes
}

/// Reads a frame back; returns exactly what `parse_frame` says the bytes
/// hold.
pub fn decode_plan(bytes: &Vec<u8>) -> (r: Option<MinePlan>)
    ensures
        match r {
            Some(p) => p.wf() && parse_frame(bytes@) == Some(p@),
            None => parse_frame(bytes@) is None,
        },
{
    if bytes.len() < 17 {
        return None;
    }
    let n = bytes[0] as usize;
    if n < 1 || n > 5 {
        return None;
    }
    if bytes.len() != 17 + n * 72 {
        return None;
    }
    let s = bytes.as_slice();
    let priority_fee = u64_from_le_bytes(vstd::slice::slice_subrange(s, 1, 9));
    let bus_id = u64_from_le_bytes(vstd::slice::slice_subrange(s, 9, 17));
    if bus_id >= BUS_COUNT {
        return None;
    }
    let mut entries: Vec<MineEntry> = Vec::new();
    let mut i: usize = 0;
    while i < n
        invariant
            0 <= i <= n,
            1 <= n <= 5,
            bytes@.len() == 17 + n * 72,
            s@ == bytes@,
            entries@.len() == i,
            forall|k: int|
                0 <= k < i ==> (#[trigger] entries@[k])@ == parse_entry(bytes@, 17 + k * 72),
            forall|k: int| 0 <= k < i ==> wf_entry((#[trigger] entries@[k])@),
        decreases n - i,
    {
        let off = 17 + i * 72;
        let pubkey = vstd::slice::slice_to_vec(vstd::slice::slice_subrange(s, off, off + 32));
        let solution = vstd::slice::slice_to_vec(vstd::slice::slice_subrange(s, off + 32, off + 64));
        let nonce = u64_from_le_bytes(vstd::slice::slice_subrange(s, off + 64, off + 72));
        entries.push(MineEntry { pubkey, solution, nonce });
        i = i + 1;
    }
    let plan = MinePlan { priority_fee, bus_id, entries };
    proof {
        let parsed = parse_frame(bytes@);
        assert(parsed matches Some(v) && plan@.entries =~= v.entries);
        assert(plan.wf());
    }
    Some(plan)
}

/// A name for what the base64 engine produces: the encoding is a
/// function of the bytes alone.
pub uninterp spec fn b64_of(bytes: Seq<u8>) -> Seq<char>;

/// Relies on base64's standard-alphabet engine: `encode` is a
/// deterministic function of the input bytes.
#[verifier::external_body]
fn b64_encode(bytes: &Vec<u8>) -> (r: String)
    ensures
        r@ == b64_of(bytes@),
{
    base64::engine::general_purpose::STANDARD.encode(bytes.as_slice())
}

/// What decoding guarantees: any bytes the string is the encoding of
/// come back exactly.
pub open spec fn b64_decodes(s: Seq<char>, r: Option<Vec<u8>>) -> bool {
    forall|b: Seq<u8>| s == b64_of(b) ==> (r matches Some(v) && v@ == b)
}

/// Relies on base64's standard-alphabet engine: `decode` inverts
/// `encode`, so a string that is the encoding of some bytes decodes to
/// exactly those bytes.
#[verifier::external_body]
fn b64_decode(s: &str) -> (r: Option<Vec<u8>>)
    ensures
        b64_decodes(s@, r),
{
    match base64::engine::general_purpose::STANDARD.decode(s) {
        Ok(v) => Some(v),
        Err(_) => None,
    }
}

/// Builds the queue message for a finished batch: the wallets ride
/// beside the encoded frame, and the hashing time is carried through.
pub fn build_tx_queue_message(plan: &MinePlan, wallets: Vec<String>, hash_time_elapsed: u64) -> (m:
    TransactionQueueMessage)
    requires
        plan.wf(),
    ensures
        m.wallets == wallets,
        m.hash_time_elapsed == hash_time_elapsed,
        m.encoded_unsigned_tx@ == b64_of(frame_of(plan@)),
{
    let bytes = encode_plan(plan);
    let encoded_unsigned_tx = b64_encode(&bytes);
    TransactionQueueMessage { wallets, encoded_unsigned_tx, hash_time_elapsed }
}

/// Recovers the plan a queue message carries. Whatever well-formed plan
/// the message was built from comes back unchanged; a message that does
/// not carry a frame yields nothing.
pub fn decode_tx_queue_message(msg: &TransactionQueueMessage) -> (r: Option<MinePlan>)
    ensures
        r matches Some(p) ==> p.wf(),
        forall|v: MinePlanView|
            wf_plan(v) && msg.encoded_unsigned_tx@ == b64_of(frame_of(v)) ==> (r matches Some(p)
                && p@ == v),
{
    match b64_decode(msg.encoded_unsigned_tx.as_str()) {
        Some(bytes) => {
            match decode_plan(&bytes) {
                Some(p) => {
                    proof {
                        assert forall|v: MinePlanView|
                            wf_plan(v) && msg.encoded_unsigned_tx@ == b64_of(
                                frame_of(v),
                            ) implies p@ == v by {
                            lemma_plan_codec_round_trip(v);
                        }
                    }
                    Some(p)
                },
                None => {
                    proof {
                        assert forall|v: MinePlanView|
                            wf_plan(v) && msg.encoded_unsigned_tx@ == b64_of(frame_of(v))
                                implies false by {
                            lemma_plan_codec_round_trip(v);
                        }
                    }
                    None
                },
            }
        },
        None => {
            proof {
                assert forall|v: MinePlanView|
                    wf_plan(v) && msg.encoded_unsigned_tx@ == b64_of(frame_of(v)) implies false by {
                    lemma_plan_codec_round_trip(v);
                }
            }
            None
        },
    }
}

} // verus!
