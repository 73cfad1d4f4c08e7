//! The batching stage: wallets are collected from the queue until a full
//! batch is assembled, then the batch is handed on and collection starts
//! over.

use vstd::prelude::*;

use crate::messages::WalletQueueMessage;

verus! {

/// The hard cap on a batch: no transaction carries more than this many
/// mining instructions.
pub const MAX_BATCH_SIZE: u64 = 5;

/// One step of collection: the wallet joins the pending batch; a batch
/// that reaches the configured size is emitted and the pending list
/// starts empty again.
pub open spec fn collect_step(
    pending: Seq<String>,
    size: u64,
    wallet: String,
) -> (Seq<String>, Option<Seq<String>>) {
    let p = pending.push(wallet);
    if p.len() == size {
        (Seq::<String>::empty(), Some(p))
    } else {
        (p, None::<Seq<String>>)
    }
}

/// The batches and the leftover pending wallets after feeding a whole
/// stream of wallets through collection, starting empty.
pub open spec fn collect_run(wallets: Seq<String>, size: u64) -> (Seq<Seq<String>>, Seq<String>)
    decreases wallets.len(),
{
    if wallets.len() == 0 {
        (Seq::<Seq<String>>::empty(), Seq::<String>::empty())
    } else {
        let prior = collect_run(wallets.drop_last(), size);
        let step = collect_step(prior.1, size, wallets.last());
        match step.1 {
            Some(batch) => (prior.0.push(batch), step.0),
            None => (prior.0, step.0),
        }
    }
}

/// Collection never loses a wallet: a stream of `n` wallets yields
/// exactly `n / size` full batches, in order, and the remaining
/// `n % size` wallets stay pending; batches and pending together are the
/// stream itself.
pub proof fn lemma_collect_run_accounts(wallets: Seq<String>, size: u64)
    requires
        1 <= size,
    ensures
        ({
            let run = collect_run(wallets, size);
            &&& run.0.len() == wallets.len() as int / size as int
            &&& run.1.len() == wallets.len() as int % size as int
            &&& (forall|i: int| 0 <= i < run.0.len() ==> #[trigger] run.0[i].len() == size)
            &&& run.0.flatten() + run.1 =~= wallets
        }),
    decreases wallets.len(),
{
    let n = wallets.len() as int;
    let s = size as int;
    if wallets.len() == 0 {
        vstd::arithmetic::div_mod::lemma_fundamental_div_mod_converse(0, s, 0, 0);
        assert(collect_run(wallets, size).0.flatten() =~= Seq::<String>::empty());
    } else {
        let head = wallets.drop_last();
        lemma_collect_run_accounts(head, size);
        let prior = collect_run(head, size);
        let q = (n - 1) / s;
        let r = (n - 1) % s;
        vstd::arithmetic::div_mod::lemma_fundamental_div_mod(n - 1, s);
        let last = wallets.last();
        assert(head.push(last) =~= wallets);
        if r + 1 == s {
            assert(n == (q + 1) * s + 0) by (nonlinear_arith)
                requires
                    n - 1 == s * q + r,
                    r + 1 == s,
            ;
            vstd::arithmetic::div_mod::lemma_fundamental_div_mod_converse(n, s, q + 1, 0);
            let full = prior.1.push(last);
            prior.0.lemma_flatten_push(full);
            assert(prior.0.flatten() + full =~= (prior.0.flatten() + prior.1).push(last));
            assert(collect_run(wallets, size).0.flatten() + collect_run(wallets, size).1
                =~= prior.0.flatten() + full);
        } else {
            assert(n == q * s + (r + 1)) by (nonlinear_arith)
                requires
                    n - 1 == s * q + r,
            ;
            vstd::arithmetic::div_mod::lemma_fundamental_div_mod_converse(n, s, q, r + 1);
            assert(collect_run(wallets, size).0.flatten() + collect_run(wallets, size).1
                =~= (prior.0.flatten() + prior.1).push(last));
        }
    }
}

/// Collects wallet messages into batches of a configured size.
pub struct BatchCollector {
    pending: Vec<String>,
    batch_size: u64,
}

impl BatchCollector {
    /// The wallets collected so far towards the next batch, in arrival
    /// order.
    pub closed spec fn spec_pending(self) -> Seq<String> {
        self.pending@
    }

    /// The configured batch size after clamping.
    pub closed spec fn spec_batch_size(self) -> u64 {
        self.batch_size
    }

    /// The batch size never exceeds the hard cap, and a positive size
    /// bounds the pending list: a full batch is emitted, never stored.
    pub open spec fn wf(self) -> bool {
        &&& self.spec_batch_size() <= MAX_BATCH_SIZE
        &&& self.spec_batch_size() > 0 ==> self.spec_pending().len() < self.spec_batch_size()
    }

    /// A collector for the requested batch size, clamped to the hard cap.
    pub fn new(batch_size: u64) -> (c: Self)
        ensures
            c.wf(),
            c.spec_pending() == Seq::<String>::empty(),
            c.spec_batch_size() == if batch_size > MAX_BATCH_SIZE {
                MAX_BATCH_SIZE
            } else {
                batch_size
            },
    {
        let clamped = if batch_size > MAX_BATCH_SIZE {
            MAX_BATCH_SIZE
        } else {
            batch_size
        };
        BatchCollector { pending: Vec::new(), batch_size: clamped }
    }

    /// How many wallets are waiting for the next batch.
    pub fn pending_count(&self) -> (n: usize)
        ensures
            n == self.spec_pending().len(),
    {
        self.pending.len()
    }

    /// The configured batch size after clamping.
    pub fn batch_size(&self) -> (s: u64)
        ensures
            s == self.spec_batch_size(),
    {
        self.batch_size
    }

    /// Takes one wallet message; returns the assembled batch exactly when
    /// this wallet fills it, as `collect_step` describes.
    pub fn push(&mut self, m: WalletQueueMessage) -> (r: Option<Vec<String>>)
        requires
            old(self).wf(),
        ensures
            final(self).wf(),
            final(self).spec_batch_size() == old(self).spec_batch_size(),
            ({
                let step = collect_step(
                    old(self).spec_pending(),
                    old(self).spec_batch_size(),
                    m.wallet,
                );
                &&& final(self).spec_pending() == step.0
                &&& match r {
                    Some(batch) => step.1 == Some(batch@),
                    None => step.1 is None,
                }
            }),
    {
        self.pending.push(m.wallet);
        if self.pending.len() as u64 == self.batch_size {
            let mut batch: Vec<String> = Vec::new();
            core::mem::swap(&mut batch, &mut self.pending);
            Some(batch)
        } else {
            None
        }
    }
}

} // verus!
