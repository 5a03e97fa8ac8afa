use vstd::prelude::*;
use crate::outcome::ProbeOutcome;
use crate::report::{summary_text, write_summary};

verus! {

/// One entry of the list of completed probes: a host, by its position in
/// the host list, and the outcome of its probe.
#[derive(Clone, Copy, Debug, PartialEq, Eq, Structural)]
pub struct Completion {
    pub host: usize,
    pub outcome: ProbeOutcome,
}

/// How often `kind` occurs among `outcomes`.
pub open spec fn count_of(outcomes: Seq<ProbeOutcome>, kind: ProbeOutcome) -> nat {
    outcomes.to_multiset().count(kind)
}

/// The outcomes of a list of completed probes, in the order of the list.
pub open spec fn outcomes_of(completed: Seq<Completion>) -> Seq<ProbeOutcome> {
    completed.map_values(|entry: Completion| entry.outcome)
}

/// The closing line for a list of outcomes.
pub open spec fn summary_of(outcomes: Seq<ProbeOutcome>) -> Seq<char> {
    summary_text(
        count_of(outcomes, ProbeOutcome::Confirmed),
        count_of(outcomes, ProbeOutcome::Potential),
    )
}

/// A `ScanRun` as contracts see it.
pub struct ScanRunView {
    /// The number of hosts of the scan.
    pub total: nat,
    /// The probes that ended with an outcome, in the order in which they
    /// were recorded.
    pub completed: Seq<Completion>,
    /// The number of probes that ended without an outcome.
    pub failed: nat,
}

impl ScanRunView {
    /// A run over `total` hosts of which none has been recorded.
    pub open spec fn start(total: nat) -> ScanRunView {
        ScanRunView { total, completed: Seq::empty(), failed: 0 }
    }

    /// The outcomes in the order in which they were recorded.
    pub open spec fn outcomes(self) -> Seq<ProbeOutcome> {
        outcomes_of(self.completed)
    }

    /// The number of probes that have ended, with an outcome or without.
    pub open spec fn settled(self) -> nat {
        self.completed.len() + self.failed
    }

    /// Every probe has ended.
    pub open spec fn is_complete(self) -> bool {
        self.settled() >= self.total
    }

    /// The run after the probe of `host` ended with `result`. A probe that
    /// ended without an outcome counts as failed and enters no list. A
    /// complete run takes nothing more.
    pub open spec fn record(self, host: usize, result: Option<ProbeOutcome>) -> ScanRunView {
        if self.is_complete() {
            self
        } else {
            match result {
                Some(outcome) => ScanRunView {
                    total: self.total,
                    completed: self.completed.push(Completion { host, outcome }),
                    failed: self.failed,
                },
                None => ScanRunView {
                    total: self.total,
                    completed: self.completed,
                    failed: self.failed + 1,
                },
            }
        }
    }
}

/// Taking one more outcome into a list raises the count of its kind by one
/// and leaves the other counts as they are.
pub proof fn lemma_count_of_push(outcomes: Seq<ProbeOutcome>, next: ProbeOutcome, kind: ProbeOutcome)
    ensures
        count_of(outcomes.push(next), kind) == count_of(outcomes, kind) + (if next == kind {
            1nat
        } else {
            0nat
        }),
{
    broadcast use vstd::seq_lib::group_to_multiset_ensures;

}

/// No kind occurs more often than there are outcomes, and the five counts
/// add up to the number of outcomes.
pub proof fn lemma_counts_add_up(outcomes: Seq<ProbeOutcome>)
    ensures
        count_of(outcomes, ProbeOutcome::Confirmed) + count_of(outcomes, ProbeOutcome::Potential)
            + count_of(outcomes, ProbeOutcome::Absent) + count_of(
            outcomes,
            ProbeOutcome::Unreachable,
        ) + count_of(outcomes, ProbeOutcome::Invalid) == outcomes.len(),
    decreases outcomes.len(),
{
    if outcomes.len() == 0 {
        assert(outcomes.to_multiset() =~= vstd::multiset::Multiset::empty()) by {
            broadcast use vstd::seq_lib::group_to_multiset_ensures;

            outcomes.to_multiset_ensures();
        }
    } else {
        let front = outcomes.drop_last();
        let last = outcomes.last();
        assert(outcomes =~= front.push(last));
        lemma_counts_add_up(front);
        lemma_count_of_push(front, last, ProbeOutcome::Confirmed);
        lemma_count_of_push(front, last, ProbeOutcome::Potential);
        lemma_count_of_push(front, last, ProbeOutcome::Absent);
        lemma_count_of_push(front, last, ProbeOutcome::Unreachable);
        lemma_count_of_push(front, last, ProbeOutcome::Invalid);
    }
}

/// The counters and the closing line of a scan depend on which outcomes
/// came in and how often, not on the order in which the probes completed.
pub proof fn lemma_completion_order_is_immaterial(
    first: Seq<ProbeOutcome>,
    second: Seq<ProbeOutcome>,
)
    requires
        first.to_multiset() == second.to_multiset(),
    ensures
        forall|kind: ProbeOutcome| count_of(first, kind) == count_of(second, kind),
        summary_of(first) == summary_of(second),
        first.len() == second.len(),
{
    first.to_multiset_ensures();
    second.to_multiset_ensures();
}

/// Recording the results of two probes in either order gives the same
/// outcomes, each as often, the same number of failures and so the same
/// closing line, as long as the run has room for both.
pub proof fn lemma_record_commutes(
    run: ScanRunView,
    host_a: usize,
    result_a: Option<ProbeOutcome>,
    host_b: usize,
    result_b: Option<ProbeOutcome>,
)
    requires
        run.settled() + 2 <= run.total,
    ensures
        ({
            let ab = run.record(host_a, result_a).record(host_b, result_b);
            let ba = run.record(host_b, result_b).record(host_a, result_a);
            &&& ab.outcomes().to_multiset() == ba.outcomes().to_multiset()
            &&& ab.failed == ba.failed
            &&& ab.total == ba.total
            &&& summary_of(ab.outcomes()) == summary_of(ba.outcomes())
        }),
{
    broadcast use vstd::seq_lib::group_to_multiset_ensures;

    let ab = run.record(host_a, result_a).record(host_b, result_b);
    let ba = run.record(host_b, result_b).record(host_a, result_a);
    let base = run.outcomes();
    match (result_a, result_b) {
        (Some(a), Some(b)) => {
            assert(ab.outcomes() =~= base.push(a).push(b));
            assert(ba.outcomes() =~= base.push(b).push(a));
        },
        (Some(a), None) => {
            assert(ab.outcomes() =~= base.push(a));
            assert(ba.outcomes() =~= base.push(a));
        },
        (None, Some(b)) => {
            assert(ab.outcomes() =~= base.push(b));
            assert(ba.outcomes() =~= base.push(b));
        },
        (None, None) => {},
    }
    assert(ab.outcomes().to_multiset() =~= ba.outcomes().to_multiset());
}

/// The aggregate of one scan: how many hosts there are, which probes have
/// ended with which outcome, in the order in which they ended, how many
/// ended without one, and a counter for each kind of outcome.
#[derive(Debug)]
pub struct ScanRun {
    total: usize,
    completed: Vec<Completion>,
    failed: usize,
    confirmed: usize,
    potential: usize,
    absent: usize,
    unreachable: usize,
    invalid: usize,
}

impl View for ScanRun {
    type V = ScanRunView;

    closed spec fn view(&self) -> ScanRunView {
        ScanRunView {
            total: self.total as nat,
            completed: self.completed@,
            failed: self.failed as nat,
        }
    }
}

impl ScanRun {
    /// The counters agree with the list of completed probes, and no more
    /// probes have ended than there are hosts.
    pub closed spec fn wf(&self) -> bool {
        &&& self@.settled() <= self@.total
        &&& self.confirmed == count_of(self@.outcomes(), ProbeOutcome::Confirmed)
        &&& self.potential == count_of(self@.outcomes(), ProbeOutcome::Potential)
        &&& self.absent == count_of(self@.outcomes(), ProbeOutcome::Absent)
        &&& self.unreachable == count_of(self@.outcomes(), ProbeOutcome::Unreachable)
        &&& self.invalid == count_of(self@.outcomes(), ProbeOutcome::Invalid)
    }

    /// A run over `total` hosts, with every counter at zero.
    pub fn new(total: usize) -> (run: ScanRun)
        ensures
            run.wf(),
            run@ == ScanRunView::start(total as nat),
    {
        let run = ScanRun {
            total,
            completed: Vec::new(),
            failed: 0,
            confirmed: 0,
            potential: 0,
            absent: 0,
            unreachable: 0,
            invalid: 0,
        };
        proof {
            broadcast use vstd::seq_lib::group_to_multiset_ensures;

            assert(run@.outcomes() =~= Seq::<ProbeOutcome>::empty());
            run@.outcomes().to_multiset_ensures();
            assert(run@.outcomes().to_multiset() =~= vstd::multiset::Multiset::empty());
        }
        run
    }

    /// Takes in the end of the probe of `host`: with an outcome, which is
    /// counted and listed, or without one, which is counted as failed and
    /// enters no counter of outcomes. A run in which every probe has ended
    /// is frozen: it takes nothing and answers `false`.
    pub fn record(&mut self, host: usize, result: Option<ProbeOutcome>) -> (recorded: bool)
        requires
            old(self).wf(),
        ensures
            final(self).wf(),
            recorded == !old(self)@.is_complete(),
            final(self)@ == old(self)@.record(host, result),
    {
        if self.completed.len() >= self.total - self.failed {
            return false;
        }
        match result {
            Some(outcome) => {
                proof {
                    lemma_counts_add_up(self@.outcomes());
                    lemma_count_of_push(self@.outcomes(), outcome, ProbeOutcome::Confirmed);
                    lemma_count_of_push(self@.outcomes(), outcome, ProbeOutcome::Potential);
                    lemma_count_of_push(self@.outcomes(), outcome, ProbeOutcome::Absent);
                    lemma_count_of_push(self@.outcomes(), outcome, ProbeOutcome::Unreachable);
                    lemma_count_of_push(self@.outcomes(), outcome, ProbeOutcome::Invalid);
                    assert(outcomes_of(self.completed@.push(Completion { host, outcome }))
                        =~= self@.outcomes().push(outcome));
                }
                self.completed.push(Completion { host, outcome });
                match outcome {
                    ProbeOutcome::Confirmed => {
                        self.confirmed = self.confirmed + 1;
                    },
                    ProbeOutcome::Potential => {
                        self.potential = self.potential + 1;
                    },
                    ProbeOutcome::Absent => {
                        self.absent = self.absent + 1;
                    },
                    ProbeOutcome::Unreachable => {
                        self.unreachable = self.unreachable + 1;
                    },
                    ProbeOutcome::Invalid => {
                        self.invalid = self.invalid + 1;
                    },
                }
            },
            None => {
                self.failed = self.failed + 1;
            },
        }
        true
    }

    /// The number of hosts of the scan.
    pub fn total(&self) -> (n: usize)
        ensures
            n == self@.total,
    {
        self.total
    }

    /// The number of probes that ended without an outcome.
    pub fn failed(&self) -> (n: usize)
        ensures
            n == self@.failed,
    {
        self.failed
    }

    /// The number of probes that have ended, with an outcome or without.
    pub fn settled(&self) -> (n: usize)
        requires
            self.wf(),
        ensures
            n == self@.settled(),
    {
        self.completed.len() + self.failed
    }

    /// Whether every probe has ended.
    pub fn is_complete(&self) -> (done: bool)
        requires
            self.wf(),
        ensures
            done == self@.is_complete(),
    {
        self.completed.len() + self.failed >= self.total
    }

    /// The probes that ended with an outcome, in the order in which they
    /// were recorded.
    pub fn completed(&self) -> (list: &Vec<Completion>)
        ensures
            list@ == self@.completed,
    {
        &self.completed
    }

    /// The number of probes that ended with `kind`.
    pub fn count(&self, kind: ProbeOutcome) -> (n: usize)
        requires
            self.wf(),
        ensures
            n == count_of(self@.outcomes(), kind),
    {
        match kind {
            ProbeOutcome::Confirmed => self.confirmed,
            ProbeOutcome::Potential => self.potential,
            ProbeOutcome::Absent => self.absent,
            ProbeOutcome::Unreachable => self.unreachable,
            ProbeOutcome::Invalid => self.invalid,
        }
    }

    /// The closing line: that nothing was found where no probe ended as
    /// confirmed or potential, else the count of each of the two that is
    /// not zero.
    pub fn summary(&self) -> (line: String)
        requires
            self.wf(),
        ensures
            line@ == summary_of(self@.outcomes()),
    {
        write_summary(self.confirmed as u64, self.potential as u64)
    }
}

} // verus!
