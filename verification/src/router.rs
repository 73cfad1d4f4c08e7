//! The result router: re-enqueues every wallet of a finished batch and
//! keeps the running statistics.

use vstd::prelude::*;

use crate::messages::{TransactionResultMessage, WalletQueueMessage};

verus! {

/// Turns one dispatch result into the wallet messages to put back on the
/// wallet queue: one message per wallet, success or failure alike, each
/// carrying the wallet's string form unchanged.
pub fn route_result(msg: &TransactionResultMessage) -> (out: Vec<WalletQueueMessage>)
    ensures
        out@.len() == msg.wallets@.len(),
        forall|i: int| 0 <= i < out@.len() ==> out@[i].wallet == msg.wallets@[i],
{
    let mut out: Vec<WalletQueueMessage> = Vec::new();
    let n = msg.wallets.len();
    let mut i: usize = 0;
    while i < n
        invariant
            0 <= i <= n,
            n == msg.wallets@.len(),
            out@.len() == i,
            forall|j: int| 0 <= j < i ==> out@[j].wallet == msg.wallets@[j],
        decreases n - i,
    {
        let wallet = msg.wallets[i].clone();
        out.push(WalletQueueMessage { wallet });
        i = i + 1;
    }
    out
}

/// Every wallet of a routed batch reappears exactly once, bit for bit:
/// the routed messages, read back as wallet strings, are exactly the
/// result's wallet list.
pub proof fn lemma_routing_requeues_every_wallet(
    msg: TransactionResultMessage,
    out: Seq<WalletQueueMessage>,
)
    requires
        out.len() == msg.wallets@.len(),
        forall|i: int| 0 <= i < out.len() ==> out[i].wallet == msg.wallets@[i],
    ensures
        out.map_values(|m: WalletQueueMessage| m.wallet) =~= msg.wallets@,
{
}

/// The running statistics the router logs: per confirmed batch, the send
/// time, the hash time, and their sum.
pub struct RunStats {
    pub tx_times: Vec<u64>,
    pub hash_times: Vec<u64>,
    pub total_times: Vec<u64>,
}

impl RunStats {
    /// The three series stay aligned, and every total is the sum of its
    /// send and hash times.
    pub open spec fn wf(self) -> bool {
        &&& self.tx_times@.len() == self.hash_times@.len()
        &&& self.tx_times@.len() == self.total_times@.len()
        &&& forall|i: int|
            0 <= i < self.tx_times@.len() ==> self.total_times@[i]
                == self.tx_times@[i] + self.hash_times@[i]
    }

    pub fn new() -> (s: Self)
        ensures
            s.wf(),
            s.tx_times@.len() == 0,
    {
        RunStats { tx_times: Vec::new(), hash_times: Vec::new(), total_times: Vec::new() }
    }

    /// Records a confirmed batch's timings; a failed result leaves the
    /// statistics untouched.
    pub fn record(&mut self, msg: &TransactionResultMessage) -> (recorded: bool)
        requires
            old(self).wf(),
            msg.tx_time_elapsed + msg.hash_time_elapsed <= u64::MAX,
        ensures
            final(self).wf(),
            recorded == !msg.failed,
            msg.failed ==> *final(self) == *old(self),
            !msg.failed ==> {
                &&& final(self).tx_times@ == old(self).tx_times@.push(msg.tx_time_elapsed)
                &&& final(self).hash_times@ == old(self).hash_times@.push(msg.hash_time_elapsed)
                &&& final(self).total_times@ == old(self).total_times@.push(
                    (msg.tx_time_elapsed + msg.hash_time_elapsed) as u64,
                )
            },
    {
        if msg.failed {
            return false;
        }
        self.tx_times.push(msg.tx_time_elapsed);
        self.hash_times.push(msg.hash_time_elapsed);
        self.total_times.push(msg.tx_time_elapsed + msg.hash_time_elapsed);
        true
    }
}

} // verus!
