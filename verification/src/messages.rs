//! The messages that flow between the pipeline stages.
//!
//! Wallet identities travel as their portable string form; a transaction
//! travels as the encoded bytes of its unsigned plan together with the
//! wallets that built it.

use vstd::prelude::*;

verus! {

/// One wallet waiting to be mined for, in its portable string form.
pub struct WalletQueueMessage {
    pub wallet: String,
}

/// One built batch: the wallets it covers, the encoded unsigned
/// transaction plan, and the seconds the hashing stage took.
pub struct TransactionQueueMessage {
    pub wallets: Vec<String>,
    pub encoded_unsigned_tx: String,
    pub hash_time_elapsed: u64,
}

/// The outcome of dispatching one batch: its wallets, the confirmed
/// signature or a failure marker, and the timings.
pub struct TransactionResultMessage {
    pub wallets: Vec<String>,
    pub sig: String,
    pub tx_time_elapsed: u64,
    pub hash_time_elapsed: u64,
    pub failed: bool,
}

/// The result the dispatcher emits when the race confirmed the
/// transaction: the signature and both timings are carried through.
pub fn success_result(
    wallets: Vec<String>,
    sig: String,
    tx_time_elapsed: u64,
    hash_time_elapsed: u64,
) -> (m: TransactionResultMessage)
    ensures
        m.wallets == wallets,
        m.sig == sig,
        m.tx_time_elapsed == tx_time_elapsed,
        m.hash_time_elapsed == hash_time_elapsed,
        m.failed == false,
{
    TransactionResultMessage { wallets, sig, tx_time_elapsed, hash_time_elapsed, failed: false }
}

/// The result the dispatcher emits when the race ended in expiry or an
/// on-chain failure: a sentinel marker instead of a signature, zero send
/// time, and the batch's wallets unchanged so the router can requeue them.
pub fn failure_result(wallets: Vec<String>, hash_time_elapsed: u64) -> (m: TransactionResultMessage)
    ensures
        m.wallets == wallets,
        m.sig@ == "failed"@,
        m.tx_time_elapsed == 0,
        m.hash_time_elapsed == hash_time_elapsed,
        m.failed == true,
{
    TransactionResultMessage {
        wallets,
        sig: String::from_str("failed"),
        tx_time_elapsed: 0,
        hash_time_elapsed,
        failed: true,
    }
}

} // verus!
