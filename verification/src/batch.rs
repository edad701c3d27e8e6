//! The accounting model of the bounded-concurrency batch downloader.
//!
//! The driving loop lives outside the library: it performs the network and
//! disk work of each unit. Every scheduling decision and every piece of
//! bookkeeping goes through a `BatchState`, whose invariant ties the counters
//! to the sequence of recorded outcomes: a unit is started only while the
//! admission gate has capacity, at most `limit` units are ever in flight, and
//! the final tallies are exactly the successes and bytes of the recorded
//! outcomes, one outcome per unit.

use vstd::prelude::*;
use crate::config::DownloadConfig;
use crate::error::Error;

verus! {

/// The result of one download unit: the number of bytes written, or the
/// error that made the unit fail. A failure is recorded, never propagated.
#[derive(Debug)]
pub enum DownloadOutcome {
    Success(u64),
    Failure(Error),
}

/// Whether an outcome counts as a success.
pub open spec fn outcome_is_success(o: DownloadOutcome) -> bool {
    o matches DownloadOutcome::Success(_)
}

/// The bytes an outcome contributes to the batch total.
pub open spec fn outcome_bytes(o: DownloadOutcome) -> nat {
    match o {
        DownloadOutcome::Success(b) => b as nat,
        DownloadOutcome::Failure(_) => 0,
    }
}

/// How many outcomes of `s` are successes.
pub open spec fn count_successes(s: Seq<DownloadOutcome>) -> nat
    decreases s.len(),
{
    if s.len() == 0 {
        0
    } else {
        count_successes(s.drop_last()) + (if outcome_is_success(s.last()) {
            1nat
        } else {
            0nat
        })
    }
}

/// The total bytes of the successful outcomes of `s`.
pub open spec fn sum_bytes(s: Seq<DownloadOutcome>) -> nat
    decreases s.len(),
{
    if s.len() == 0 {
        0
    } else {
        sum_bytes(s.drop_last()) + outcome_bytes(s.last())
    }
}

/// No more outcomes succeed than there are outcomes.
pub proof fn lemma_count_successes_le_len(s: Seq<DownloadOutcome>)
    ensures
        count_successes(s) <= s.len(),
    decreases s.len(),
{
    if s.len() > 0 {
        lemma_count_successes_le_len(s.drop_last());
    }
}

/// Recording one more outcome adds exactly its own success and bytes.
pub proof fn lemma_outcome_push(s: Seq<DownloadOutcome>, o: DownloadOutcome)
    ensures
        count_successes(s.push(o)) == count_successes(s) + (if outcome_is_success(o) {
            1nat
        } else {
            0nat
        }),
        sum_bytes(s.push(o)) == sum_bytes(s) + outcome_bytes(o),
{
    assert(s.push(o).drop_last() =~= s);
    assert(s.push(o).last() == o);
}

/// The aggregate of a finished batch.
#[derive(Debug, Clone, Copy)]
pub struct BatchResult {
    pub success_count: u32,
    pub total_bytes: u64,
}

/// The state of a running batch: how many units were started, how many hold
/// admission-gate capacity right now, and the recorded outcomes of the
/// completed ones.
pub struct BatchState {
    pub count: u32,
    pub limit: usize,
    pub started: u32,
    pub in_flight: u32,
    pub completed: u32,
    pub success_count: u32,
    pub total_bytes: u64,
    pub outcomes: Ghost<Seq<DownloadOutcome>>,
}

impl BatchState {
    /// The batch invariant. Every transition preserves it; in particular the
    /// in-flight units never exceed the admission gate's capacity, and the
    /// tallies are exactly those of the recorded outcomes.
    pub open spec fn wf(&self) -> bool {
        &&& 1 <= self.limit && self.limit <= 20
        &&& self.started <= self.count
        &&& self.in_flight as int <= self.limit as int
        &&& self.completed + self.in_flight == self.started
        &&& self.outcomes@.len() == self.completed
        &&& self.success_count as nat == count_successes(self.outcomes@)
        &&& self.total_bytes as nat == sum_bytes(self.outcomes@)
    }

    /// Every unit was started and none is still in flight.
    pub open spec fn spec_done(&self) -> bool {
        self.started == self.count && self.in_flight == 0
    }

    /// A fresh batch for a validated download request: nothing started,
    /// the admission gate fully available.
    pub fn new(config: &DownloadConfig) -> (s: Self)
        requires
            config.valid(),
        ensures
            s.wf(),
            s.count == config.count,
            s.limit == config.concurrent_limit,
            s.started == 0,
            s.in_flight == 0,
            s.completed == 0,
            s.outcomes@ == Seq::<DownloadOutcome>::empty(),
    {
        BatchState {
            count: config.count,
            limit: config.concurrent_limit,
            started: 0,
            in_flight: 0,
            completed: 0,
            success_count: 0,
            total_bytes: 0,
            outcomes: Ghost(Seq::empty()),
        }
    }

    /// Whether another unit may start now: units remain and the admission
    /// gate has capacity.
    pub fn can_start(&self) -> (r: bool)
        ensures
            r == (self.started < self.count && (self.in_flight as int) < (self.limit as int)),
    {
        self.started < self.count && (self.in_flight as usize) < self.limit
    }

    /// Whether the batch is finished.
    pub fn is_done(&self) -> (r: bool)
        ensures
            r == self.spec_done(),
    {
        self.started == self.count && self.in_flight == 0
    }

    /// Admits one unit: it takes one slot of gate capacity and becomes
    /// in-flight. Only gate capacity and remaining units admit a start.
    pub fn start_unit(&mut self)
        requires
            old(self).wf(),
            old(self).started < old(self).count,
            (old(self).in_flight as int) < (old(self).limit as int),
        ensures
            final(self).wf(),
            final(self).started == old(self).started + 1,
            final(self).in_flight == old(self).in_flight + 1,
            final(self).completed == old(self).completed,
            final(self).count == old(self).count,
            final(self).limit == old(self).limit,
            final(self).success_count == old(self).success_count,
            final(self).total_bytes == old(self).total_bytes,
            final(self).outcomes@ == old(self).outcomes@,
    {
        self.started = self.started + 1;
        self.in_flight = self.in_flight + 1;
    }

    /// Records the outcome of one in-flight unit and releases its gate
    /// capacity. A failure advances completion exactly as a success does:
    /// it frees one admission slot, is tallied, and never blocks the other
    /// units.
    pub fn finish_unit(&mut self, outcome: DownloadOutcome)
        requires
            old(self).wf(),
            old(self).in_flight > 0,
            outcome matches DownloadOutcome::Success(b) ==> old(self).total_bytes + b
                <= u64::MAX,
        ensures
            final(self).wf(),
            final(self).outcomes@ == old(self).outcomes@.push(outcome),
            final(self).completed == old(self).completed + 1,
            final(self).in_flight == old(self).in_flight - 1,
            final(self).started == old(self).started,
            final(self).count == old(self).count,
            final(self).limit == old(self).limit,
            final(self).success_count as int == old(self).success_count as int + (
            if outcome_is_success(outcome) {
                1int
            } else {
                0int
            }),
            final(self).total_bytes as int == old(self).total_bytes as int + outcome_bytes(
                outcome,
            ),
    {
        proof {
            lemma_count_successes_le_len(self.outcomes@);
            lemma_outcome_push(self.outcomes@, outcome);
        }
        self.in_flight = self.in_flight - 1;
        self.completed = self.completed + 1;
        match &outcome {
            DownloadOutcome::Success(b) => {
                self.success_count = self.success_count + 1;
                self.total_bytes = self.total_bytes + *b;
            },
            DownloadOutcome::Failure(_) => {},
        }
        self.outcomes = Ghost(self.outcomes@.push(outcome));
    }

    /// The aggregate of a finished batch: exactly the successes and bytes of
    /// the recorded outcomes, one per requested unit.
    pub fn result(&self) -> (r: BatchResult)
        requires
            self.wf(),
            self.spec_done(),
        ensures
            r.success_count == self.success_count,
            r.total_bytes == self.total_bytes,
            r.success_count as nat == count_successes(self.outcomes@),
            r.total_bytes as nat == sum_bytes(self.outcomes@),
            self.outcomes@.len() == self.count,
            r.success_count <= self.count,
    {
        proof {
            lemma_count_successes_le_len(self.outcomes@);
        }
        BatchResult { success_count: self.success_count, total_bytes: self.total_bytes }
    }

    /// A batch that has finished started exactly `count` units, completed
    /// every one of them, recorded one outcome per unit, and counted no more
    /// successes than units.
    pub proof fn lemma_batch_accounting(&self)
        requires
            self.wf(),
            self.spec_done(),
        ensures
            self.started == self.count,
            self.completed == self.count,
            self.outcomes@.len() == self.count,
            self.success_count <= self.count,
    {
        lemma_count_successes_le_len(self.outcomes@);
    }

    /// At no instant do the units holding admission-gate capacity exceed the
    /// configured concurrency limit.
    pub proof fn lemma_gate_bound(&self)
        requires
            self.wf(),
        ensures
            self.in_flight as int <= self.limit as int,
    {
    }
}

/// One unit's failure is isolated: turning any single successful outcome
/// into a failure removes exactly that unit's success and bytes from the
/// tallies and leaves the accounting of the other units unchanged.
pub proof fn lemma_failure_isolated(s: Seq<DownloadOutcome>, i: int, e: Error)
    requires
        0 <= i < s.len(),
        outcome_is_success(s[i]),
    ensures
        s.update(i, DownloadOutcome::Failure(e)).len() == s.len(),
        count_successes(s.update(i, DownloadOutcome::Failure(e))) == count_successes(s) - 1,
        sum_bytes(s.update(i, DownloadOutcome::Failure(e))) == sum_bytes(s) - outcome_bytes(s[i]),
    decreases s.len(),
{
    let s2 = s.update(i, DownloadOutcome::Failure(e));
    if i == s.len() - 1 {
        assert(s2.drop_last() =~= s.drop_last());
        assert(s2.last() == DownloadOutcome::Failure(e));
    } else {
        assert(s2.drop_last() =~= s.drop_last().update(i, DownloadOutcome::Failure(e)));
        lemma_failure_isolated(s.drop_last(), i, e);
        assert(s2.last() == s.last());
    }
}

} // verus!
