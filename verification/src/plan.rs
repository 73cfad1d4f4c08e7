//! The unsigned transaction plan a solved batch turns into: two leading
//! compute-budget instructions, then one mining instruction per wallet.

use vstd::prelude::*;

use crate::bus::BUS_COUNT;

verus! {

/// The compute-unit limit one mining instruction needs; a batch asks for
/// this much per wallet.
pub const CU_LIMIT_MINE: u32 = 3200;

/// One wallet's finished hashing work: the wallet's portable string
/// form, its public key, and the winning digest with its nonce.
pub struct WalletSolution {
    pub wallet: String,
    pub pubkey: Vec<u8>,
    pub solution: Vec<u8>,
    pub nonce: u64,
}

impl WalletSolution {
    pub open spec fn wf(self) -> bool {
        &&& self.pubkey@.len() == 32
        &&& self.solution@.len() == 32
    }
}

/// One mining instruction's payload inside a plan.
pub struct MineEntry {
    pub pubkey: Vec<u8>,
    pub solution: Vec<u8>,
    pub nonce: u64,
}

/// A mining entry with its byte vectors read as sequences.
pub struct MineEntryView {
    pub pubkey: Seq<u8>,
    pub solution: Seq<u8>,
    pub nonce: u64,
}

impl View for MineEntry {
    type V = MineEntryView;

    open spec fn view(&self) -> MineEntryView {
        MineEntryView { pubkey: self.pubkey@, solution: self.solution@, nonce: self.nonce }
    }
}

/// The unsigned transaction plan for one batch: the priority fee, the
/// bus to credit, and one entry per wallet, in batch order. The payer is
/// the first entry's key.
pub struct MinePlan {
    pub priority_fee: u64,
    pub bus_id: u64,
    pub entries: Vec<MineEntry>,
}

/// A plan with its entries read as sequences.
pub struct MinePlanView {
    pub priority_fee: u64,
    pub bus_id: u64,
    pub entries: Seq<MineEntryView>,
}

impl View for MinePlan {
    type V = MinePlanView;

    open spec fn view(&self) -> MinePlanView {
        MinePlanView {
            priority_fee: self.priority_fee,
            bus_id: self.bus_id,
            entries: self.entries@.map_values(|e: MineEntry| e@),
        }
    }
}

pub open spec fn wf_entry(e: MineEntryView) -> bool {
    &&& e.pubkey.len() == 32
    &&& e.solution.len() == 32
}

pub open spec fn wf_plan(v: MinePlanView) -> bool {
    &&& 1 <= v.entries.len() <= 5
    &&& v.bus_id < BUS_COUNT
    &&& forall|i: int| 0 <= i < v.entries.len() ==> wf_entry(#[trigger] v.entries[i])
}

impl MinePlan {
    pub open spec fn wf(self) -> bool {
        wf_plan(self@)
    }
}

/// Builds the plan for a solved batch, together with the batch's wallet
/// strings in the same order: the fee and bus are taken as given, and
/// entry `i` carries exactly wallet `i`'s key, digest, and nonce.
pub fn build_mine_plan(solved: &Vec<WalletSolution>, bus_id: u64, priority_fee: u64) -> (r: (
    MinePlan,
    Vec<String>,
))
    requires
        1 <= solved@.len() <= 5,
        bus_id < BUS_COUNT,
        forall|i: int| 0 <= i < solved@.len() ==> (#[trigger] solved@[i]).wf(),
    ensures
        r.0.wf(),
        r.0@.priority_fee == priority_fee,
        r.0@.bus_id == bus_id,
        r.0@.entries.len() == solved@.len(),
        forall|i: int| 0 <= i < solved@.len() ==> {
            &&& (#[trigger] r.0@.entries[i]).pubkey == solved@[i].pubkey@
            &&& r.0@.entries[i].solution == solved@[i].solution@
            &&& r.0@.entries[i].nonce == solved@[i].nonce
        },
        r.1@.len() == solved@.len(),
        forall|i: int| 0 <= i < solved@.len() ==> #[trigger] r.1@[i] == solved@[i].wallet,
{
    let n = solved.len();
    let mut entries: Vec<MineEntry> = Vec::new();
    let mut wallets: Vec<String> = Vec::new();
    let mut i: usize = 0;
    while i < n
        invariant
            0 <= i <= n,
            n == solved@.len(),
            forall|k: int| 0 <= k < solved@.len() ==> (#[trigger] solved@[k]).wf(),
            entries@.len() == i,
            wallets@.len() == i,
            forall|k: int| 0 <= k < i ==> {
                &&& (#[trigger] entries@[k])@.pubkey == solved@[k].pubkey@
                &&& entries@[k]@.solution == solved@[k].solution@
                &&& entries@[k]@.nonce == solved@[k].nonce
            },
            forall|k: int| 0 <= k < i ==> #[trigger] wallets@[k] == solved@[k].wallet,
        decreases n - i,
    {
        let s = &solved[i];
        let pubkey = vstd::slice::slice_to_vec(s.pubkey.as_slice());
        let solution = vstd::slice::slice_to_vec(s.solution.as_slice());
        entries.push(MineEntry { pubkey, solution, nonce: s.nonce });
        wallets.push(s.wallet.clone());
        i = i + 1;
    }
    let plan = MinePlan { priority_fee, bus_id, entries };
    proof {
        assert(plan@.entries.len() == solved@.len());
        assert forall|k: int| 0 <= k < solved@.len() implies wf_entry(#[trigger] plan@.entries[k]) by {
            assert(plan@.entries[k] == plan.entries@[k]@);
        }
    }
    (plan, wallets)
}

/// One instruction of the assembled transaction, as the plan describes
/// it.
pub enum PlanInstruction {
    /// Requests a compute-unit limit scaled to the batch size.
    BudgetLimit { units: u32 },
    /// Sets the priority fee in micro-units per compute unit.
    BudgetPrice { micro_lamports: u64 },
    /// One wallet's mining submission: its key, the bus to credit, and
    /// the winning digest with its nonce.
    Mine { signer: Vec<u8>, bus_id: u64, solution: Vec<u8>, nonce: u64 },
}

/// Whether an instruction is the mining instruction for one entry:
/// the entry's key, digest, and nonce, crediting the given bus.
pub open spec fn is_mine_ix_for(ix: PlanInstruction, e: MineEntryView, bus: u64) -> bool {
    ix matches PlanInstruction::Mine { signer, bus_id, solution, nonce } && signer@ == e.pubkey
        && bus_id == bus && solution@ == e.solution && nonce == e.nonce
}

/// Expands a plan into its instruction list: a compute-budget limit of
/// `CU_LIMIT_MINE` per wallet, the priority fee, then exactly one mining
/// instruction per wallet, in batch order.
pub fn plan_instructions(plan: &MinePlan) -> (ixs: Vec<PlanInstruction>)
    requires
        plan.wf(),
    ensures
        ixs@.len() == 2 + plan@.entries.len(),
        ixs@[0] matches PlanInstruction::BudgetLimit { units } && units
            == CU_LIMIT_MINE * plan@.entries.len(),
        ixs@[1] matches PlanInstruction::BudgetPrice { micro_lamports } && micro_lamports
            == plan@.priority_fee,
        forall|i: int| 0 <= i < plan@.entries.len() ==> #[trigger] is_mine_ix_for(
            ixs@[2 + i],
            plan@.entries[i],
            plan@.bus_id,
        ),
{
    let n = plan.entries.len();
    let mut ixs: Vec<PlanInstruction> = Vec::new();
    ixs.push(PlanInstruction::BudgetLimit { units: CU_LIMIT_MINE * (n as u32) });
    ixs.push(PlanInstruction::BudgetPrice { micro_lamports: plan.priority_fee });
    let mut i: usize = 0;
    while i < n
        invariant
            0 <= i <= n,
            n == plan@.entries.len(),
            plan.wf(),
            ixs@.len() == 2 + i,
            ixs@[0] matches PlanInstruction::BudgetLimit { units } && units
                == CU_LIMIT_MINE * plan@.entries.len(),
            ixs@[1] matches PlanInstruction::BudgetPrice { micro_lamports } && micro_lamports
                == plan@.priority_fee,
            forall|k: int| 0 <= k < i ==> #[trigger] is_mine_ix_for(
                ixs@[2 + k],
                plan@.entries[k],
                plan@.bus_id,
            ),
        decreases n - i,
    {
        let e = &plan.entries[i];
        let signer = vstd::slice::slice_to_vec(e.pubkey.as_slice());
        let solution = vstd::slice::slice_to_vec(e.solution.as_slice());
        ixs.push(PlanInstruction::Mine { signer, bus_id: plan.bus_id, solution, nonce: e.nonce });
        i = i + 1;
    }
    ixs
}

} // verus!
