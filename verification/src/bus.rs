//! Bus selection: which of the fixed reward pools a mining transaction
//! credits.

use vstd::prelude::*;

verus! {

/// The fixed number of on-chain reward busses.
pub const BUS_COUNT: u64 = 8;

/// A read-only snapshot of one bus: its index and the rewards it still
/// holds.
pub struct BusState {
    pub id: u64,
    pub rewards: u64,
}

impl BusState {
    pub open spec fn wf(self) -> bool {
        self.id < BUS_COUNT
    }
}

/// Whether a bus holds enough rewards to submit into: strictly more than
/// twenty times the current reward rate, the admission-control gate that
/// keeps transactions out of under-funded pools. The product saturates,
/// so a huge reward rate disqualifies every bus.
pub open spec fn spec_bus_qualifies(bus_rewards: u64, reward_rate: u64) -> bool {
    bus_rewards > (if reward_rate * 20 > u64::MAX {
        u64::MAX as int
    } else {
        reward_rate * 20
    })
}

/// The admission test on one bus snapshot.
pub fn bus_qualifies(bus_rewards: u64, reward_rate: u64) -> (r: bool)
    ensures
        r == spec_bus_qualifies(bus_rewards, reward_rate),
{
    match reward_rate.checked_mul(20) {
        Some(threshold) => bus_rewards > threshold,
        None => {
            assert(reward_rate * 20 > u64::MAX);
            false
        },
    }
}

/// The bus id the deterministic selection strategy probes: always the
/// first bus.
pub fn next_bus_probe() -> (id: u64)
    ensures
        id == 0,
{
    0
}

/// One step of the selection loop: accept the bus just read exactly when
/// the read succeeded and the bus passes the admission test; otherwise
/// the caller probes again.
pub fn select_bus_step(read: Option<BusState>, reward_rate: u64) -> (r: Option<BusState>)
    ensures
        match read {
            Some(bus) => {
                &&& spec_bus_qualifies(bus.rewards, reward_rate) ==> r == Some(bus)
                &&& !spec_bus_qualifies(bus.rewards, reward_rate) ==> r is None
            },
            None => r is None,
        },
{
    match read {
        Some(bus) => {
            if bus_qualifies(bus.rewards, reward_rate) {
                Some(bus)
            } else {
                None
            }
        },
        None => None,
    }
}

} // verus!
