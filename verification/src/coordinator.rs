use vstd::prelude::*;
use crate::outcome::ProbeOutcome;
use crate::run::{Completion, ScanRun, ScanRunView};

verus! {

/// Where one host of the scan stands.
#[derive(Clone, Copy, Debug, PartialEq, Eq, Structural)]
pub enum HostState {
    /// Its probe has not been launched.
    Waiting,
    /// Its probe runs.
    InFlight,
    /// Its probe has ended and was recorded.
    Settled,
}

/// What the coordinator asks of the caller next.
#[derive(Clone, Copy, Debug, PartialEq, Eq, Structural)]
pub enum CoordinatorAction {
    /// Start the probe of the host at this position of the host list.
    Launch(usize),
    /// Wait until one of the probes in flight ends, and report it.
    Wait,
    /// Every probe has ended: report the run.
    Finish,
}

/// Why a scan cannot be set up.
#[derive(Clone, Copy, Debug, PartialEq, Eq, Structural)]
pub enum ScanError {
    /// The host list is empty.
    NoHosts,
}

/// Why the end of a probe was not taken in.
#[derive(Clone, Copy, Debug, PartialEq, Eq, Structural)]
pub enum CompleteError {
    /// The position is beyond the host list.
    UnknownHost,
    /// The probe of this host was never launched.
    NotLaunched,
    /// The end of this host's probe was taken in before.
    AlreadySettled,
}

/// How often `state` occurs among `hosts`.
pub open spec fn count_in(hosts: Seq<HostState>, state: HostState) -> nat {
    hosts.to_multiset().count(state)
}

/// A `Coordinator` as contracts see it.
pub struct CoordinatorView {
    /// The state of each host, by its position in the host list.
    pub hosts: Seq<HostState>,
    /// The number of probes that have been launched. Hosts are launched in
    /// the order of the host list.
    pub launched: nat,
    /// The most probes that may be in flight at once; 0 sets no bound.
    pub limit: nat,
    /// What has been recorded.
    pub run: ScanRunView,
}

impl CoordinatorView {
    /// A scan of `total` hosts that has launched nothing.
    pub open spec fn start(total: nat, limit: nat) -> CoordinatorView {
        CoordinatorView {
            hosts: Seq::new(total, |i: int| HostState::Waiting),
            launched: 0,
            limit,
            run: ScanRunView::start(total),
        }
    }

    /// The number of probes in flight.
    pub open spec fn in_flight(self) -> nat {
        count_in(self.hosts, HostState::InFlight)
    }

    /// What holds of every scan: the first `launched` hosts, and only
    /// they, have left `Waiting`; what was launched is in flight or
    /// recorded; the bound on probes in flight is kept; and the list of
    /// completed probes names settled hosts only, none of them twice.
    pub open spec fn wf(self) -> bool {
        &&& self.hosts.len() == self.run.total
        &&& self.launched <= self.hosts.len()
        &&& forall|i: int|
            0 <= i < self.hosts.len() ==> (self.hosts[i] == HostState::Waiting <==> i
                >= self.launched)
        &&& self.launched == self.in_flight() + self.run.settled()
        &&& self.limit == 0 || self.in_flight() <= self.limit
        &&& forall|k: int|
            0 <= k < self.run.completed.len() ==> (#[trigger] self.run.completed[k]).host
                < self.hosts.len() && self.hosts[self.run.completed[k].host as int]
                == HostState::Settled
        &&& forall|j: int, k: int|
            0 <= j < k < self.run.completed.len() ==> (#[trigger] self.run.completed[j]).host != (
            #[trigger] self.run.completed[k]).host
    }

    /// A probe may be launched: a host is still waiting, and the bound on
    /// probes in flight leaves room.
    pub open spec fn can_launch(self) -> bool {
        &&& self.launched < self.hosts.len()
        &&& self.limit == 0 || self.in_flight() < self.limit
    }

    /// What the coordinator asks for: a launch wherever one is allowed,
    /// else to wait while probes are in flight, else to finish.
    pub open spec fn next_action(self) -> CoordinatorAction {
        if self.can_launch() {
            CoordinatorAction::Launch(self.launched as usize)
        } else if self.in_flight() > 0 {
            CoordinatorAction::Wait
        } else {
            CoordinatorAction::Finish
        }
    }

    /// The scan after the action that `next_action` names was handed out.
    pub open spec fn after_action(self) -> CoordinatorView {
        if self.can_launch() {
            CoordinatorView {
                hosts: self.hosts.update(self.launched as int, HostState::InFlight),
                launched: self.launched + 1,
                limit: self.limit,
                run: self.run,
            }
        } else {
            self
        }
    }

    /// The scan after the probe of `host`, which was in flight, ended with
    /// `result`.
    pub open spec fn after_complete(self, host: usize, result: Option<ProbeOutcome>) -> CoordinatorView {
        CoordinatorView {
            hosts: self.hosts.update(host as int, HostState::Settled),
            launched: self.launched,
            limit: self.limit,
            run: self.run.record(host, result),
        }
    }
}

/// Changing the state of one host moves one unit from the count of its old
/// state to the count of its new state.
proof fn lemma_count_in_update(hosts: Seq<HostState>, at: int, to: HostState, state: HostState)
    requires
        0 <= at < hosts.len(),
    ensures
        count_in(hosts.update(at, to), state) == count_in(hosts, state) + (if to == state {
            1int
        } else {
            0int
        }) - (if hosts[at] == state {
            1int
        } else {
            0int
        }),
        count_in(hosts, hosts[at]) >= 1,
{
    broadcast use vstd::seq_lib::group_to_multiset_ensures;

    vstd::seq_lib::to_multiset_update(hosts, at, to);
    hosts.to_multiset_ensures();
    assert(hosts.contains(hosts[at]));
}

/// Where every host waits, none is in flight.
proof fn lemma_count_in_fresh(total: nat, state: HostState)
    ensures
        count_in(Seq::new(total, |i: int| HostState::Waiting), state) == (if state
            == HostState::Waiting {
            total
        } else {
            0
        }),
    decreases total,
{
    broadcast use vstd::seq_lib::group_to_multiset_ensures;

    let hosts = Seq::new(total, |i: int| HostState::Waiting);
    if total == 0 {
        hosts.to_multiset_ensures();
        assert(hosts.to_multiset() =~= vstd::multiset::Multiset::empty());
    } else {
        let front = Seq::new((total - 1) as nat, |i: int| HostState::Waiting);
        assert(hosts =~= front.push(HostState::Waiting));
        lemma_count_in_fresh((total - 1) as nat, state);
    }
}

/// Handing out an action keeps the scan well-formed. A launch puts one more
/// probe in flight; a wait or a finish changes nothing.
pub proof fn lemma_action_keeps_well_formed(scan: CoordinatorView)
    requires
        scan.wf(),
    ensures
        scan.after_action().wf(),
        scan.after_action().in_flight() == scan.in_flight() + (if scan.can_launch() {
            1nat
        } else {
            0nat
        }),
        scan.next_action() == CoordinatorAction::Wait ==> scan.in_flight() > 0,
        scan.next_action() == CoordinatorAction::Finish <==> scan.run.is_complete(),
{
    if scan.can_launch() {
        lemma_count_in_update(
            scan.hosts,
            scan.launched as int,
            HostState::InFlight,
            HostState::InFlight,
        );
    }
}

/// Taking in the end of a probe that is in flight keeps the scan
/// well-formed, takes that probe out of flight, and records one more end.
pub proof fn lemma_complete_keeps_well_formed(
    scan: CoordinatorView,
    host: usize,
    result: Option<ProbeOutcome>,
)
    requires
        scan.wf(),
        host < scan.hosts.len(),
        scan.hosts[host as int] == HostState::InFlight,
    ensures
        scan.after_complete(host, result).wf(),
        scan.after_complete(host, result).in_flight() + 1 == scan.in_flight(),
        scan.after_complete(host, result).run.settled() == scan.run.settled() + 1,
{
    lemma_count_in_update(scan.hosts, host as int, HostState::Settled, HostState::InFlight);
}

impl CoordinatorView {
    /// The scan after `n` actions were handed out in a row, with no probe
    /// ending in between.
    pub open spec fn after_actions(self, n: nat) -> CoordinatorView
        decreases n,
    {
        if n == 0 {
            self
        } else {
            self.after_action().after_actions((n - 1) as nat)
        }
    }
}

/// A scan without a bound fans out: its first actions launch the hosts one
/// after the other, in the order of the host list, and it does not wait
/// before every probe is in flight at once.
pub proof fn lemma_unbounded_scan_fans_out(total: nat, launches: nat)
    requires
        0 < total <= usize::MAX,
        launches <= total,
    ensures
        ({
            let scan = CoordinatorView::start(total, 0).after_actions(launches);
            &&& scan.wf()
            &&& scan.launched == launches
            &&& scan.in_flight() == launches
            &&& launches < total ==> scan.next_action() == CoordinatorAction::Launch(
                launches as usize,
            )
            &&& launches == total ==> scan.next_action() == CoordinatorAction::Wait
        }),
{
    let start = CoordinatorView::start(total, 0);
    lemma_count_in_fresh(total, HostState::InFlight);
    lemma_launches_in_a_row(start, launches);
}

/// While the bound leaves room for them, `n` actions in a row are `n`
/// launches.
proof fn lemma_launches_in_a_row(scan: CoordinatorView, n: nat)
    requires
        scan.wf(),
        scan.launched + n <= scan.hosts.len(),
        scan.limit == 0 || scan.in_flight() + n <= scan.limit,
    ensures
        scan.after_actions(n).wf(),
        scan.after_actions(n).launched == scan.launched + n,
        scan.after_actions(n).in_flight() == scan.in_flight() + n,
        scan.after_actions(n).limit == scan.limit,
        scan.after_actions(n).hosts.len() == scan.hosts.len(),
        scan.after_actions(n).run == scan.run,
    decreases n,
{
    if n > 0 {
        lemma_action_keeps_well_formed(scan);
        lemma_launches_in_a_row(scan.after_action(), (n - 1) as nat);
    }
}

/// A scan with a bound launches probes until the bound is reached, and then
/// waits: never are more probes in flight than the bound allows.
pub proof fn lemma_bounded_scan_fills_up(total: nat, limit: nat)
    requires
        0 < limit <= total <= usize::MAX,
    ensures
        ({
            let scan = CoordinatorView::start(total, limit).after_actions(limit);
            &&& scan.wf()
            &&& scan.in_flight() == limit
            &&& scan.next_action() == CoordinatorAction::Wait
            &&& scan.after_action() == scan
        }),
{
    let start = CoordinatorView::start(total, limit);
    lemma_count_in_fresh(total, HostState::InFlight);
    lemma_launches_in_a_row(start, limit);
}

/// The coordinator of one scan: a state machine that the caller drives. It
/// says which probe to launch and when to wait, takes in the end of each
/// probe exactly once, and owns the run that the ends are recorded in.
#[derive(Debug)]
pub struct Coordinator {
    hosts: Vec<HostState>,
    launched: usize,
    in_flight: usize,
    limit: usize,
    run: ScanRun,
}

impl View for Coordinator {
    type V = CoordinatorView;

    closed spec fn view(&self) -> CoordinatorView {
        CoordinatorView {
            hosts: self.hosts@,
            launched: self.launched as nat,
            limit: self.limit as nat,
            run: self.run@,
        }
    }
}

impl Coordinator {
    /// The scan is well-formed, and so is the run in it.
    pub closed spec fn wf(&self) -> bool {
        &&& self@.wf()
        &&& self.run.wf()
        &&& self.in_flight == self@.in_flight()
    }

    /// Sets up the scan of `total` hosts, with at most `limit` probes in
    /// flight at once, or without a bound where `limit` is 0. An empty host
    /// list is rejected.
    pub fn new(total: usize, limit: usize) -> (made: Result<Coordinator, ScanError>)
        ensures
            total == 0 <==> made == Err::<Coordinator, ScanError>(ScanError::NoHosts),
            made matches Ok(coordinator) ==> coordinator.wf() && coordinator@
                == CoordinatorView::start(total as nat, limit as nat),
    {
        if total == 0 {
            return Err(ScanError::NoHosts);
        }
        let mut hosts: Vec<HostState> = Vec::new();
        let mut i: usize = 0;
        while i < total
            invariant
                i <= total,
                hosts@ == Seq::new(i as nat, |k: int| HostState::Waiting),
            decreases total - i,
        {
            hosts.push(HostState::Waiting);
            i += 1;
            assert(hosts@ =~= Seq::new(i as nat, |k: int| HostState::Waiting));
        }
        let coordinator = Coordinator {
            hosts,
            launched: 0,
            in_flight: 0,
            limit,
            run: ScanRun::new(total),
        };
        proof {
            lemma_count_in_fresh(total as nat, HostState::InFlight);
        }
        Ok(coordinator)
    }

    /// The number of hosts of the scan.
    pub fn total(&self) -> (n: usize)
        ensures
            n == self@.hosts.len(),
    {
        self.hosts.len()
    }

    /// The number of probes that have been launched.
    pub fn launched(&self) -> (n: usize)
        ensures
            n == self@.launched,
    {
        self.launched
    }

    /// The number of probes in flight.
    pub fn in_flight(&self) -> (n: usize)
        requires
            self.wf(),
        ensures
            n == self@.in_flight(),
    {
        self.in_flight
    }

    /// Where the host at `host` stands, or `None` beyond the host list.
    pub fn host_state(&self, host: usize) -> (state: Option<HostState>)
        ensures
            state == (if host < self@.hosts.len() {
                Some(self@.hosts[host as int])
            } else {
                None::<HostState>
            }),
    {
        if host < self.hosts.len() {
            Some(self.hosts[host])
        } else {
            None
        }
    }

    /// What has been recorded so far.
    pub fn run(&self) -> (run: &ScanRun)
        requires
            self.wf(),
        ensures
            run@ == self@.run,
            run.wf(),
    {
        &self.run
    }

    /// Ends the scan and hands out the run.
    pub fn into_run(self) -> (run: ScanRun)
        requires
            self.wf(),
        ensures
            run@ == self@.run,
            run.wf(),
    {
        self.run
    }

    /// Says what the caller has to do next, and counts a launch as made.
    /// A probe is launched wherever a host still waits and the bound leaves
    /// room: without a bound, every host is launched before the first
    /// wait. The caller is sent to wait only while probes are in flight, and
    /// told to finish exactly when every probe has ended.
    pub fn next_action(&mut self) -> (action: CoordinatorAction)
        requires
            old(self).wf(),
        ensures
            final(self).wf(),
            action == old(self)@.next_action(),
            final(self)@ == old(self)@.after_action(),
            action == CoordinatorAction::Finish <==> old(self)@.run.is_complete(),
    {
        if self.launched < self.hosts.len() && (self.limit == 0 || self.in_flight < self.limit) {
            let host = self.launched;
            proof {
                lemma_action_keeps_well_formed(self@);
            }
            self.hosts.set(host, HostState::InFlight);
            self.launched = self.launched + 1;
            self.in_flight = self.in_flight + 1;
            CoordinatorAction::Launch(host)
        } else if self.in_flight > 0 {
            CoordinatorAction::Wait
        } else {
            CoordinatorAction::Finish
        }
    }

    /// Takes in the end of the probe of `host`: with its outcome, or with
    /// `None` where the probe failed in a way that is no outcome. Each
    /// launched host is taken in once; anything else is refused and changes
    /// nothing. On success the answer is the number of probes that have
    /// ended so far, one more than before.
    pub fn complete(&mut self, host: usize, result: Option<ProbeOutcome>) -> (taken: Result<
        usize,
        CompleteError,
    >)
        requires
            old(self).wf(),
        ensures
            final(self).wf(),
            match taken {
                Ok(settled) => {
                    &&& host < old(self)@.hosts.len()
                    &&& old(self)@.hosts[host as int] == HostState::InFlight
                    &&& final(self)@ == old(self)@.after_complete(host, result)
                    &&& settled == old(self)@.run.settled() + 1
                    &&& settled == final(self)@.run.settled()
                },
                Err(CompleteError::UnknownHost) => {
                    &&& host >= old(self)@.hosts.len()
                    &&& final(self)@ == old(self)@
                },
                Err(CompleteError::NotLaunched) => {
                    &&& host < old(self)@.hosts.len()
                    &&& old(self)@.hosts[host as int] == HostState::Waiting
                    &&& final(self)@ == old(self)@
                },
                Err(CompleteError::AlreadySettled) => {
                    &&& host < old(self)@.hosts.len()
                    &&& old(self)@.hosts[host as int] == HostState::Settled
                    &&& final(self)@ == old(self)@
                },
            },
    {
        if host >= self.hosts.len() {
            return Err(CompleteError::UnknownHost);
        }
        match self.hosts[host] {
            HostState::Waiting => Err(CompleteError::NotLaunched),
            HostState::Settled => Err(CompleteError::AlreadySettled),
            HostState::InFlight => {
                proof {
                    lemma_complete_keeps_well_formed(self@, host, result);
                }
                self.hosts.set(host, HostState::Settled);
                self.in_flight = self.in_flight - 1;
                let recorded = self.run.record(host, result);
                assert(recorded);
                Ok(self.run.settled())
            },
        }
    }
}

} // verus!
