//! The connectivity state machine behind the health monitor.
//!
//! The monitor owns the one mutable connectivity state. Nothing else reads or
//! writes it: the state shows only in the transitions that the monitor
//! reports, one per change and none while the state holds.

use vstd::prelude::*;

verus! {

/// Name of the event that carries a new connectivity state to its observers.
pub const STATUS_EVENT: &'static str = "agent-status-changed";

/// Seconds between two polls of the agent's health.
pub const HEALTH_CHECK_INTERVAL_SECS: u64 = 10;

/// The bridge's own classification of whether the agent can be reached.
#[derive(Clone, Copy, Debug, PartialEq, Eq, Structural)]
pub enum ConnectivityState {
    /// The agent answers and reports itself healthy.
    Connected,
    /// The agent answers and reports anything else.
    Degraded,
    /// The agent does not answer, or not intelligibly.
    Disconnected,
}

impl ConnectivityState {
    /// The token under which observers know the state.
    pub open spec fn token(self) -> Seq<char> {
        match self {
            ConnectivityState::Connected => "connected"@,
            ConnectivityState::Degraded => "degraded"@,
            ConnectivityState::Disconnected => "disconnected"@,
        }
    }

    /// The token under which observers know the state.
    pub fn as_str(&self) -> (name: &'static str)
        ensures
            name@ == self.token(),
    {
        match self {
            ConnectivityState::Connected => "connected",
            ConnectivityState::Degraded => "degraded",
            ConnectivityState::Disconnected => "disconnected",
        }
    }
}

/// One change of connectivity state.
#[derive(Clone, Copy, Debug, PartialEq, Eq, Structural)]
pub struct StatusChange {
    pub previous: ConnectivityState,
    pub current: ConnectivityState,
}

/// What a poll that classifies to `target` makes known when the state was
/// `current`: a change, or nothing.
pub open spec fn transition(current: ConnectivityState, target: ConnectivityState) -> Option<
    StatusChange,
> {
    if target != current {
        Some(StatusChange { previous: current, current: target })
    } else {
        None
    }
}

/// The state after the polls in `targets`, starting from `initial`.
pub open spec fn state_after(initial: ConnectivityState, targets: Seq<ConnectivityState>)
    -> ConnectivityState {
    if targets.len() == 0 {
        initial
    } else {
        targets.last()
    }
}

/// The changes reported over the polls in `targets`, in order, starting from
/// `initial`.
pub open spec fn changes(initial: ConnectivityState, targets: Seq<ConnectivityState>) -> Seq<
    StatusChange,
>
    decreases targets.len(),
{
    if targets.len() == 0 {
        Seq::empty()
    } else {
        let earlier = targets.drop_last();
        match transition(state_after(initial, earlier), targets.last()) {
            Some(change) => changes(initial, earlier).push(change),
            None => changes(initial, earlier),
        }
    }
}

/// The health monitor's state: the connectivity last observed.
///
/// Beside it the monitor keeps, for proofs only, every classification it has
/// been handed and every change it has reported.
pub struct HealthMonitor {
    last_status: ConnectivityState,
    polls: Ghost<Seq<ConnectivityState>>,
    reported: Ghost<Seq<StatusChange>>,
}

impl HealthMonitor {
    #[verifier::type_invariant]
    spec fn consistent(self) -> bool {
        &&& self.last_status == state_after(ConnectivityState::Disconnected, self.polls@)
        &&& self.reported@ == changes(ConnectivityState::Disconnected, self.polls@)
    }

    /// The connectivity last observed.
    pub closed spec fn state(&self) -> ConnectivityState {
        self.last_status
    }

    /// The classifications observed since the monitor was made, oldest first.
    pub closed spec fn polls(&self) -> Seq<ConnectivityState> {
        self.polls@
    }

    /// The changes reported since the monitor was made, oldest first.
    pub closed spec fn reported(&self) -> Seq<StatusChange> {
        self.reported@
    }

    /// A monitor that has seen nothing yet and assumes the worst.
    pub fn new() -> (monitor: Self)
        ensures
            monitor.state() == ConnectivityState::Disconnected,
            monitor.polls() == Seq::<ConnectivityState>::empty(),
            monitor.reported() == Seq::<StatusChange>::empty(),
    {
        HealthMonitor {
            last_status: ConnectivityState::Disconnected,
            polls: Ghost(Seq::empty()),
            reported: Ghost(Seq::empty()),
        }
    }

    /// Takes in the classification of one poll. Reports a change exactly when
    /// `target` differs from the state so far, and makes `target` the state.
    pub fn observe(&mut self, target: ConnectivityState) -> (change: Option<StatusChange>)
        ensures
            change == transition(old(self).state(), target),
            final(self).state() == target,
            final(self).polls() == old(self).polls().push(target),
            final(self).reported() == match change {
                Some(c) => old(self).reported().push(c),
                None => old(self).reported(),
            },
            final(self).state() == state_after(ConnectivityState::Disconnected, final(self).polls()),
            final(self).reported() == changes(ConnectivityState::Disconnected, final(self).polls()),
    {
        proof {
            use_type_invariant(&*self);
        }
        let previous = self.last_status;
        let change = if target != previous {
            Some(StatusChange { previous, current: target })
        } else {
            None
        };
        let ghost polls = self.polls@.push(target);
        let ghost reported = match change {
            Some(c) => self.reported@.push(c),
            None => self.reported@,
        };
        proof {
            assert(polls.drop_last() =~= self.polls@);
            assert(polls.last() == target);
        }
        *self = HealthMonitor { last_status: target, polls: Ghost(polls), reported: Ghost(reported) };
        change
    }
}

/// The state in force when poll `i` of `targets` is taken.
pub open spec fn state_before(initial: ConnectivityState, targets: Seq<ConnectivityState>, i: int)
    -> ConnectivityState {
    if i <= 0 {
        initial
    } else {
        targets[i - 1]
    }
}

/// Whether poll `i` of `targets` classifies to another state than the one in
/// force.
pub open spec fn changes_at(initial: ConnectivityState, targets: Seq<ConnectivityState>, i: int)
    -> bool {
    targets[i] != state_before(initial, targets, i)
}

/// The polls of `targets` at which the classified state differs from the one
/// in force.
pub open spec fn change_points(initial: ConnectivityState, targets: Seq<ConnectivityState>) -> Set<
    int,
> {
    Set::new(|i: int| 0 <= i < targets.len() && changes_at(initial, targets, i))
}

/// A poll that classifies to the state in force reports nothing; any other
/// poll reports exactly one change, from the state in force to the new one.
pub proof fn lemma_poll_reports_change_only(
    initial: ConnectivityState,
    targets: Seq<ConnectivityState>,
    i: int,
)
    requires
        0 <= i < targets.len(),
    ensures
        !changes_at(initial, targets, i) ==> changes(initial, targets.take(i + 1)) == changes(
            initial,
            targets.take(i),
        ),
        changes_at(initial, targets, i) ==> changes(initial, targets.take(i + 1)) == changes(
            initial,
            targets.take(i),
        ).push(
            StatusChange { previous: state_before(initial, targets, i), current: targets[i] },
        ),
{
    let upto = targets.take(i + 1);
    assert(upto.drop_last() =~= targets.take(i));
    assert(upto.last() == targets[i]);
    assert(state_after(initial, targets.take(i)) == state_before(initial, targets, i));
}

/// Whether entry `k` of `reported` leaves the state that entry `k - 1`
/// entered.
pub open spec fn follows_on(reported: Seq<StatusChange>, k: int) -> bool {
    reported[k].previous == reported[k - 1].current
}

/// Whether `reported` is a chain of real changes that starts at `initial`:
/// no entry stays in place, the first one leaves `initial`, and each later
/// one leaves the state that the one before it entered.
pub open spec fn is_chain_from(initial: ConnectivityState, reported: Seq<StatusChange>) -> bool {
    &&& forall|k: int| 0 <= k < reported.len() ==> (#[trigger] reported[k]).previous != reported[k].current
    &&& reported.len() > 0 ==> reported[0].previous == initial
    &&& forall|k: int| 0 < k < reported.len() ==> #[trigger] follows_on(reported, k)
}

/// The state that a chain of changes from `initial` ends in.
pub open spec fn chain_end(initial: ConnectivityState, reported: Seq<StatusChange>)
    -> ConnectivityState {
    if reported.len() == 0 {
        initial
    } else {
        reported.last().current
    }
}

/// The reported changes form a chain from the initial state to the state in
/// force, and there are no more of them than polls.
pub proof fn lemma_changes_chain(initial: ConnectivityState, targets: Seq<ConnectivityState>)
    ensures
        changes(initial, targets).len() <= targets.len(),
        is_chain_from(initial, changes(initial, targets)),
        chain_end(initial, changes(initial, targets)) == state_after(initial, targets),
    decreases targets.len(),
{
    if targets.len() > 0 {
        let earlier = targets.drop_last();
        let before = changes(initial, earlier);
        let now = changes(initial, targets);
        lemma_changes_chain(initial, earlier);
        match transition(state_after(initial, earlier), targets.last()) {
            Some(change) => {
                assert(now == before.push(change));
                assert(change.previous == chain_end(initial, before));
                assert(change.current == targets.last());
                assert forall|k: int| 0 <= k < now.len() implies (#[trigger] now[k]).previous
                    != now[k].current by {
                    if k < before.len() {
                        assert(now[k] == before[k]);
                    }
                }
                assert forall|k: int| 0 < k < now.len() implies #[trigger] follows_on(now, k) by {
                    assert(now[k - 1] == before[k - 1]);
                    if k < before.len() {
                        assert(now[k] == before[k]);
                        assert(follows_on(before, k));
                    }
                }
                if before.len() > 0 {
                    assert(now[0] == before[0]);
                }
            },
            None => {
                assert(now == before);
            },
        }
    }
}

/// The number of reported changes is the number of polls at which the
/// classified state differed from the one in force.
pub proof fn lemma_one_change_per_transition(
    initial: ConnectivityState,
    targets: Seq<ConnectivityState>,
)
    ensures
        change_points(initial, targets).finite(),
        changes(initial, targets).len() == change_points(initial, targets).len(),
    decreases targets.len(),
{
    if targets.len() == 0 {
        assert(change_points(initial, targets) =~= Set::<int>::empty());
    } else {
        let earlier = targets.drop_last();
        let n = targets.len() - 1;
        lemma_one_change_per_transition(initial, earlier);
        assert(state_after(initial, earlier) == state_before(initial, targets, n));
        assert forall|i: int| 0 <= i < n implies #[trigger] changes_at(initial, targets, i)
            == changes_at(initial, earlier, i) by {
            assert(earlier[i] == targets[i]);
        }
        if changes_at(initial, targets, n) {
            assert(change_points(initial, targets) =~= change_points(initial, earlier).insert(n));
        } else {
            assert(change_points(initial, targets) =~= change_points(initial, earlier));
        }
    }
}

/// While every poll classifies to the initial state, nothing is reported.
pub proof fn lemma_steady_state_is_silent(
    initial: ConnectivityState,
    targets: Seq<ConnectivityState>,
)
    requires
        forall|i: int| 0 <= i < targets.len() ==> targets[i] == initial,
    ensures
        changes(initial, targets) == Seq::<StatusChange>::empty(),
    decreases targets.len(),
{
    if targets.len() > 0 {
        lemma_steady_state_is_silent(initial, targets.drop_last());
    }
}

} // verus!
