//! The send-and-confirm race: repeated broadcasts race confirmation
//! polling under a block-height expiry, and the first definitive result
//! wins.
//!
//! The tracker below is the decision core of that race. The surrounding
//! tasks feed it the signatures each broadcast produced, the polled
//! statuses, and the current block height; the tracker decides when the
//! race is over and with which outcome.

use vstd::prelude::*;

verus! {

/// How far a polled signature has progressed on chain.
pub enum ConfirmationLevel {
    Processed,
    Confirmed,
    Finalized,
}

/// One polled status: the confirmation level, if any, and whether the
/// transaction executed without an on-chain error.
pub struct SignatureStatus {
    pub confirmation: Option<ConfirmationLevel>,
    pub ok: bool,
}

/// The definitive end of a race.
#[derive(Clone)]
pub enum RaceOutcome {
    /// The transaction landed and executed successfully.
    Confirmed { sig: String },
    /// The transaction landed but the program rejected it.
    TransactionFailed,
    /// The block height passed the expiry before any definitive status.
    Expired,
}

/// A race outcome with the signature read as its character sequence.
pub enum RaceOutcomeView {
    Confirmed { sig: Seq<char> },
    TransactionFailed,
    Expired,
}

impl View for RaceOutcome {
    type V = RaceOutcomeView;

    open spec fn view(&self) -> RaceOutcomeView {
        match self {
            RaceOutcome::Confirmed { sig } => RaceOutcomeView::Confirmed { sig: sig@ },
            RaceOutcome::TransactionFailed => RaceOutcomeView::TransactionFailed,
            RaceOutcome::Expired => RaceOutcomeView::Expired,
        }
    }
}

/// A status settles the race exactly when it reports the transaction
/// landed: confirmed or finalized, never merely processed.
pub open spec fn decisive(status: SignatureStatus) -> bool {
    match status.confirmation {
        Some(level) => level is Confirmed || level is Finalized,
        None => false,
    }
}

/// An entry that cannot settle the race: absent, or not yet landed.
pub open spec fn non_decisive(entry: Option<SignatureStatus>) -> bool {
    match entry {
        Some(status) => !decisive(status),
        None => true,
    }
}

/// The verdict of the first decisive status in poll order, if any:
/// `true` for a successful execution, `false` for an on-chain failure.
pub open spec fn first_decisive(statuses: Seq<Option<SignatureStatus>>) -> Option<bool>
    decreases statuses.len(),
{
    if statuses.len() == 0 {
        None::<bool>
    } else {
        match statuses[0] {
            Some(status) => if decisive(status) {
                Some(status.ok)
            } else {
                first_decisive(statuses.drop_first())
            },
            None => first_decisive(statuses.drop_first()),
        }
    }
}

/// What one poll does to the race: a settled race never changes; an
/// unsettled one settles on the first decisive status — success wins the
/// race with the first signature seen, an on-chain error loses it — or
/// expires when the chain has grown past the validity window, or stays
/// open.
pub open spec fn poll_outcome(
    prior: Option<RaceOutcomeView>,
    sigs: Seq<Seq<char>>,
    statuses: Seq<Option<SignatureStatus>>,
    expiry: u64,
    current_blockheight: u64,
) -> Option<RaceOutcomeView> {
    if prior is Some {
        prior
    } else {
        match first_decisive(statuses) {
            Some(true) => Some(RaceOutcomeView::Confirmed { sig: sigs[0] }),
            Some(false) => Some(RaceOutcomeView::TransactionFailed),
            None => if current_blockheight > expiry {
                Some(RaceOutcomeView::Expired)
            } else {
                None::<RaceOutcomeView>
            },
        }
    }
}

proof fn lemma_first_decisive_skip(statuses: Seq<Option<SignatureStatus>>, i: int)
    requires
        0 <= i <= statuses.len(),
        forall|j: int| 0 <= j < i ==> non_decisive(#[trigger] statuses[j]),
    ensures
        first_decisive(statuses) == first_decisive(statuses.skip(i)),
    decreases i,
{
    if i > 0 {
        lemma_first_decisive_skip(statuses, i - 1);
        assert(statuses.skip(i - 1).drop_first() =~= statuses.skip(i));
        assert(statuses.skip(i - 1)[0] == statuses[i - 1]);
    } else {
        assert(statuses.skip(0) =~= statuses);
    }
}

/// Tracks one transaction's race between broadcasting and confirmation.
pub struct ConfirmationRace {
    sigs: Vec<String>,
    last_valid_blockheight: u64,
    outcome: Option<RaceOutcome>,
}

impl ConfirmationRace {
    /// The signatures seen so far, in first-seen order, as character
    /// sequences.
    pub closed spec fn spec_sigs(self) -> Seq<Seq<char>> {
        self.sigs@.map_values(|s: String| s@)
    }

    /// The block height beyond which the transaction's blockhash is no
    /// longer valid.
    pub closed spec fn spec_expiry(self) -> u64 {
        self.last_valid_blockheight
    }

    /// The definitive result, once one exists.
    pub closed spec fn spec_outcome(self) -> Option<RaceOutcomeView> {
        match self.outcome {
            Some(o) => Some(o@),
            None => None::<RaceOutcomeView>,
        }
    }

    /// No signature is tracked twice.
    pub open spec fn wf(self) -> bool {
        forall|i: int, j: int|
            0 <= i < j < self.spec_sigs().len() ==> self.spec_sigs()[i] != self.spec_sigs()[j]
    }

    /// A fresh race: no signatures, no outcome, the given expiry.
    pub fn new(last_valid_blockheight: u64) -> (race: Self)
        ensures
            race.wf(),
            race.spec_sigs() == Seq::<Seq<char>>::empty(),
            race.spec_expiry() == last_valid_blockheight,
            race.spec_outcome() is None,
    {
        let race = ConfirmationRace { sigs: Vec::new(), last_valid_blockheight, outcome: None };
        proof {
            assert(race.spec_sigs() =~= Seq::<Seq<char>>::empty());
        }
        race
    }

    /// Notes the signature one broadcast returned: a signature already
    /// seen is dropped, a new one joins the end of the list.
    pub fn record_signature(&mut self, sig: String) -> (added: bool)
        requires
            old(self).wf(),
        ensures
            final(self).wf(),
            final(self).spec_expiry() == old(self).spec_expiry(),
            final(self).spec_outcome() == old(self).spec_outcome(),
            added == !old(self).spec_sigs().contains(sig@),
            final(self).spec_sigs() == if old(self).spec_sigs().contains(sig@) {
                old(self).spec_sigs()
            } else {
                old(self).spec_sigs().push(sig@)
            },
    {
        let n = self.sigs.len();
        let mut i: usize = 0;
        while i < n
            invariant
                0 <= i <= n,
                n == self.sigs@.len(),
                *self == *old(self),
                old(self).wf(),
                forall|j: int| 0 <= j < i ==> old(self).spec_sigs()[j] != sig@,
            decreases n - i,
        {
            if self.sigs[i] == sig {
                proof {
                    assert(old(self).spec_sigs()[i as int] == self.sigs@[i as int]@);
                    assert(old(self).spec_sigs().contains(sig@));
                }
                return false;
            }
            proof {
                assert(old(self).spec_sigs()[i as int] == self.sigs@[i as int]@);
            }
            i = i + 1;
        }
        proof {
            assert(!old(self).spec_sigs().contains(sig@));
        }
        self.sigs.push(sig);
        proof {
            assert(self.spec_sigs() =~= old(self).spec_sigs().push(sig@));
            assert forall|a: int, b: int|
                0 <= a < b < self.spec_sigs().len() implies self.spec_sigs()[a]
                    != self.spec_sigs()[b] by {
                if b == self.spec_sigs().len() - 1 {
                    assert(!old(self).spec_sigs().contains(sig@));
                    assert(old(self).spec_sigs()[a] == self.spec_sigs()[a]);
                } else {
                    assert(old(self).spec_sigs()[a] == self.spec_sigs()[a]);
                    assert(old(self).spec_sigs()[b] == self.spec_sigs()[b]);
                }
            }
        }
        true
    }

    /// One confirmation poll, in the order the poller works: the
    /// statuses first, the block height second. Returns whether the race
    /// is now settled.
    pub fn poll(
        &mut self,
        statuses: &Vec<Option<SignatureStatus>>,
        current_blockheight: u64,
    ) -> (settled: bool)
        requires
            old(self).wf(),
            statuses@.len() == old(self).spec_sigs().len(),
        ensures
            final(self).wf(),
            final(self).spec_sigs() == old(self).spec_sigs(),
            final(self).spec_expiry() == old(self).spec_expiry(),
            final(self).spec_outcome() == poll_outcome(
                old(self).spec_outcome(),
                old(self).spec_sigs(),
                statuses@,
                old(self).spec_expiry(),
                current_blockheight,
            ),
            settled == (final(self).spec_outcome() is Some),
    {
        if self.outcome.is_some() {
            return true;
        }
        let n = statuses.len();
        let mut i: usize = 0;
        while i < n
            invariant
                0 <= i <= n,
                n == statuses@.len(),
                statuses@.len() == self.sigs@.len(),
                *self == *old(self),
                old(self).wf(),
                old(self).spec_outcome() is None,
                forall|j: int| 0 <= j < i ==> non_decisive(#[trigger] statuses@[j]),
            decreases n - i,
        {
            let verdict: Option<bool> = match &statuses[i] {
                Some(status) => {
                    let landed = match status.confirmation {
                        Some(ConfirmationLevel::Confirmed) => true,
                        Some(ConfirmationLevel::Finalized) => true,
                        Some(ConfirmationLevel::Processed) => false,
                        None => false,
                    };
                    if landed {
                        Some(status.ok)
                    } else {
                        None
                    }
                },
                None => None,
            };
            match verdict {
                Some(ok) => {
                    proof {
                        lemma_first_decisive_skip(statuses@, i as int);
                        assert(statuses@.skip(i as int)[0] == statuses@[i as int]);
                        assert(statuses@[i as int] matches Some(st) && decisive(st)
                            && st.ok == ok);
                        assert(first_decisive(statuses@) == Some(ok));
                    }
                    if ok {
                        let sig = self.sigs[0].clone();
                        proof {
                            assert(sig@ == old(self).spec_sigs()[0]);
                        }
                        self.outcome = Some(RaceOutcome::Confirmed { sig });
                    } else {
                        self.outcome = Some(RaceOutcome::TransactionFailed);
                    }
                    return true;
                },
                None => {},
            }
            i = i + 1;
        }
        proof {
            lemma_first_decisive_skip(statuses@, n as int);
            assert(statuses@.skip(n as int) =~= Seq::<Option<SignatureStatus>>::empty());
        }
        if current_blockheight > self.last_valid_blockheight {
            self.outcome = Some(RaceOutcome::Expired);
            return true;
        }
        false
    }

    /// The signatures to ask the network about, in first-seen order.
    pub fn signatures(&self) -> (r: &Vec<String>)
        ensures
            r@.map_values(|s: String| s@) == self.spec_sigs(),
    {
        &self.sigs
    }

    /// Whether the broadcaster should keep firing: only while no
    /// definitive outcome exists.
    pub fn should_broadcast(&self) -> (r: bool)
        ensures
            r == (self.spec_outcome() is None),
    {
        self.outcome.is_none()
    }

    /// The definitive result, once the race has settled.
    pub fn outcome(&self) -> (r: &Option<RaceOutcome>)
        ensures
            match r {
                Some(o) => self.spec_outcome() == Some(o@),
                None => self.spec_outcome() is None,
            },
    {
        &self.outcome
    }
}

/// First write wins: once a race has settled, no later poll changes its
/// outcome, and the broadcaster is told to stop.
pub proof fn lemma_settled_race_is_stable(
    prior: Option<RaceOutcomeView>,
    sigs: Seq<Seq<char>>,
    statuses: Seq<Option<SignatureStatus>>,
    expiry: u64,
    current_blockheight: u64,
)
    requires
        prior is Some,
    ensures
        poll_outcome(prior, sigs, statuses, expiry, current_blockheight) == prior,
{
}

/// A poll whose statuses carry a decisive successful entry settles an
/// open race as `Confirmed`, with the first signature seen.
pub proof fn lemma_confirmation_wins(
    sigs: Seq<Seq<char>>,
    statuses: Seq<Option<SignatureStatus>>,
    expiry: u64,
    current_blockheight: u64,
)
    requires
        first_decisive(statuses) == Some(true),
    ensures
        poll_outcome(None::<RaceOutcomeView>, sigs, statuses, expiry, current_blockheight)
            == Some(RaceOutcomeView::Confirmed { sig: sigs[0] }),
{
}

/// A poll past the expiry height with no decisive status settles an open
/// race as `Expired`.
pub proof fn lemma_expiry_decides(
    sigs: Seq<Seq<char>>,
    statuses: Seq<Option<SignatureStatus>>,
    expiry: u64,
    current_blockheight: u64,
)
    requires
        first_decisive(statuses) is None,
        current_blockheight > expiry,
    ensures
        poll_outcome(None::<RaceOutcomeView>, sigs, statuses, expiry, current_blockheight)
            == Some(RaceOutcomeView::Expired),
{
}

/// How many failed simulations a single-transaction send tolerates
/// before giving up.
pub const SIMULATION_RETRIES: u64 = 4;

/// Counts simulation attempts that ended in an error and decides when to
/// abort the send.
pub struct SimulationGate {
    failures: u64,
}

impl SimulationGate {
    /// The number of failed simulation attempts so far.
    pub closed spec fn spec_failures(self) -> u64 {
        self.failures
    }

    pub fn new() -> (g: Self)
        ensures
            g.spec_failures() == 0,
    {
        SimulationGate { failures: 0 }
    }

    /// Notes one failed simulation; the send is aborted exactly when the
    /// failures exceed the retry budget.
    pub fn record_failure(&mut self) -> (abort: bool)
        requires
            old(self).spec_failures() <= SIMULATION_RETRIES,
        ensures
            final(self).spec_failures() == old(self).spec_failures() + 1,
            abort == (final(self).spec_failures() > SIMULATION_RETRIES),
    {
        self.failures = self.failures + 1;
        self.failures > SIMULATION_RETRIES
    }
}

/// The compute-unit budget a dynamically sized transaction asks for:
/// the simulated consumption plus a fixed headroom.
pub fn dynamic_budget(units_consumed: u64) -> (r: u32)
    requires
        units_consumed + 1000 <= u32::MAX,
    ensures
        r == units_consumed + 1000,
{
    (units_consumed as u32) + 1000
}

} // verus!
