use crate::routing::Route;
use vstd::prelude::*;

verus! {

/// One of the two endpoints of a failover client.
#[derive(Clone, Copy, Debug, PartialEq, Eq, Structural)]
pub enum Endpoint {
    Primary,
    Backup,
}

/// How far one call through a failover client has come.
///
/// A call starts by waiting on one endpoint, is handed that endpoint's
/// outcome, and either finishes with it or fails over and waits on the
/// backup, whose outcome always finishes it.
#[derive(Clone, Copy, Debug, PartialEq, Eq, Structural)]
pub enum Execution {
    /// Waiting on the primary; `can_fail_over` says whether a backup is
    /// configured to fall back to.
    AwaitingPrimary { can_fail_over: bool },
    /// Waiting on the backup.
    AwaitingBackup,
    /// The outcome has been handed to the caller.
    Finished,
}

/// What the driver of a call does with an outcome it has handed over.
#[derive(Debug)]
pub enum Step<T, E> {
    /// The call is over: hand this outcome to the caller.
    Done(Result<T, E>),
    /// The primary failed with this error, which goes to the log and nowhere
    /// else: switch the routing state to the backup, then run the operation
    /// against the backup.
    FailOver(E),
}

impl Execution {
    /// The state in which a call starts, given whether a backup is configured
    /// and the route read at the start. Without a backup the route plays no part.
    pub open spec fn start(has_backup: bool, route: Route) -> Execution {
        if has_backup && route == Route::Backup {
            Execution::AwaitingBackup
        } else {
            Execution::AwaitingPrimary { can_fail_over: has_backup }
        }
    }

    /// The endpoint whose outcome the call waits on, if it waits on one.
    pub open spec fn awaits(self) -> Option<Endpoint> {
        match self {
            Execution::AwaitingPrimary { .. } => Some(Endpoint::Primary),
            Execution::AwaitingBackup => Some(Endpoint::Backup),
            Execution::Finished => None,
        }
    }

    /// The next state and the step to take once the awaited endpoint has
    /// given `outcome`.
    pub open spec fn advance<T, E>(self, outcome: Result<T, E>) -> (Execution, Step<T, E>) {
        match self {
            Execution::AwaitingPrimary { can_fail_over } => match outcome {
                Ok(v) => (Execution::Finished, Step::Done(Ok(v))),
                Err(e) => if can_fail_over {
                    (Execution::AwaitingBackup, Step::FailOver(e))
                } else {
                    (Execution::Finished, Step::Done(Err(e)))
                },
            },
            _ => (Execution::Finished, Step::Done(outcome)),
        }
    }

    /// How many more outcomes the call can wait on at most.
    pub open spec fn remaining(self) -> nat {
        match self {
            Execution::AwaitingPrimary { can_fail_over } => if can_fail_over {
                2
            } else {
                1
            },
            Execution::AwaitingBackup => 1,
            Execution::Finished => 0,
        }
    }

    /// Starts a call.
    pub fn begin(has_backup: bool, route: Route) -> (r: Execution)
        ensures
            r == Execution::start(has_backup, route),
    {
        if has_backup && route.is_backup() {
            Execution::AwaitingBackup
        } else {
            Execution::AwaitingPrimary { can_fail_over: has_backup }
        }
    }

    /// The endpoint to run the operation against next, or `None` once the
    /// call is finished.
    pub fn awaiting(&self) -> (r: Option<Endpoint>)
        ensures
            r == self.awaits(),
    {
        match self {
            Execution::AwaitingPrimary { .. } => Some(Endpoint::Primary),
            Execution::AwaitingBackup => Some(Endpoint::Backup),
            Execution::Finished => None,
        }
    }

    /// Hands over the outcome of the awaited endpoint and says what to do next.
    pub fn on_outcome<T, E>(&mut self, outcome: Result<T, E>) -> (r: Step<T, E>)
        requires
            !(*old(self) is Finished),
        ensures
            (*final(self), r) == old(self).advance(outcome),
    {
        match *self {
            Execution::AwaitingPrimary { can_fail_over } => match outcome {
                Ok(v) => {
                    *self = Execution::Finished;
                    Step::Done(Ok(v))
                },
                Err(e) => {
                    if can_fail_over {
                        *self = Execution::AwaitingBackup;
                        Step::FailOver(e)
                    } else {
                        *self = Execution::Finished;
                        Step::Done(Err(e))
                    }
                },
            },
            _ => {
                *self = Execution::Finished;
                Step::Done(outcome)
            },
        }
    }
}

/// The outcome that `which` gives, when the primary would give `primary` and
/// the backup would give `backup`.
pub open spec fn outcome_of<T, E>(which: Endpoint, primary: Result<T, E>, backup: Result<T, E>) -> Result<
    T,
    E,
> {
    match which {
        Endpoint::Primary => primary,
        Endpoint::Backup => backup,
    }
}

/// What a call that is in state `exec` goes on to do, when the primary would
/// give `primary` and the backup `backup`: the endpoints it runs the operation
/// against, in order, the outcome it hands to the caller (`None` only for a
/// call that is already finished), and whether it switches the routing state.
pub open spec fn drive<T, E>(exec: Execution, primary: Result<T, E>, backup: Result<T, E>) -> (
    Seq<Endpoint>,
    Option<Result<T, E>>,
    bool,
)
    decreases exec.remaining(),
{
    match exec.awaits() {
        None => (Seq::empty(), None, false),
        Some(which) => {
            let (next, step) = exec.advance(outcome_of(which, primary, backup));
            match step {
                Step::Done(r) => (seq![which], Some(r), false),
                Step::FailOver(_) => {
                    let rest = drive(next, primary, backup);
                    (seq![which] + rest.0, rest.1, true)
                },
            }
        },
    }
}

/// A whole call through a client with or without a backup that reads `route`
/// at its start: see [`drive`].
pub open spec fn call<T, E>(has_backup: bool, route: Route, primary: Result<T, E>, backup: Result<T, E>) -> (
    Seq<Endpoint>,
    Option<Result<T, E>>,
    bool,
) {
    drive(Execution::start(has_backup, route), primary, backup)
}

/// The route after a call that started on `route` and did or did not fail over.
pub open spec fn route_after(route: Route, failed_over: bool) -> Route {
    if failed_over {
        route.switched()
    } else {
        route
    }
}

/// The route that the call numbered `i` of a run of calls, one after another on
/// one client, reads at its start. Each entry of `outcomes` gives what the
/// primary and the backup would give to that call.
pub open spec fn route_before<T, E>(
    has_backup: bool,
    route: Route,
    outcomes: Seq<(Result<T, E>, Result<T, E>)>,
    i: nat,
) -> Route
    decreases i,
{
    if i == 0 {
        route
    } else {
        let prev = (i - 1) as nat;
        let before = route_before(has_backup, route, outcomes, prev);
        route_after(before, call(has_backup, before, outcomes[prev as int].0, outcomes[prev as int].1).2)
    }
}

/// The call numbered `i` of such a run.
pub open spec fn call_in_run<T, E>(
    has_backup: bool,
    route: Route,
    outcomes: Seq<(Result<T, E>, Result<T, E>)>,
    i: nat,
) -> (Seq<Endpoint>, Option<Result<T, E>>, bool) {
    let before = route_before(has_backup, route, outcomes, i);
    call(has_backup, before, outcomes[i as int].0, outcomes[i as int].1)
}

/// The route after a series of accesses by any number of callers, in the order
/// in which they land: `true` stands for a switch to the backup, `false` for a
/// read, which leaves the route as it is.
pub open spec fn route_after_accesses(route: Route, accesses: Seq<bool>) -> Route
    decreases accesses.len(),
{
    if accesses.len() == 0 {
        route
    } else {
        let before = route_after_accesses(route, accesses.drop_last());
        if accesses.last() {
            before.switched()
        } else {
            before
        }
    }
}

/// Without a backup, a call runs the operation against the primary alone and
/// hands its outcome, success or error, to the caller unchanged; it never
/// switches, and the route it would read makes no difference.
pub proof fn lemma_without_backup_primary_only<T, E>(
    route: Route,
    primary: Result<T, E>,
    backup: Result<T, E>,
)
    ensures
        call(false, route, primary, backup) == (seq![Endpoint::Primary], Some(primary), false),
        call(false, route, primary, backup) == call(false, Route::Primary, primary, backup),
{
    reveal_with_fuel(drive, 2);
    assert(call(false, route, primary, backup).0 =~= seq![Endpoint::Primary]);
}

/// With a backup and the route on the primary, a primary that fails makes the
/// call run the operation once more, against the backup, switch the route,
/// and hand the backup's outcome to the caller, not the primary's error.
pub proof fn lemma_primary_failure_fails_over<T, E>(error: E, backup: Result<T, E>)
    ensures
        call(true, Route::Primary, Err::<T, E>(error), backup) == (
            seq![Endpoint::Primary, Endpoint::Backup],
            Some(backup),
            true,
        ),
        route_after(Route::Primary, call(true, Route::Primary, Err::<T, E>(error), backup).2)
            == Route::Backup,
{
    reveal_with_fuel(drive, 3);
    let exec = Execution::start(true, Route::Primary);
    let (next, _) = exec.advance(Err::<T, E>(error));
    assert(drive(next, Err::<T, E>(error), backup).0 =~= seq![Endpoint::Backup]);
    assert(call(true, Route::Primary, Err::<T, E>(error), backup).0 =~= seq![
        Endpoint::Primary,
        Endpoint::Backup,
    ]);
}

/// With a backup and the route on the primary, a primary that succeeds ends
/// the call with its outcome and leaves the route on the primary.
pub proof fn lemma_primary_success_stays<T, E>(value: T, backup: Result<T, E>)
    ensures
        call(true, Route::Primary, Ok::<T, E>(value), backup) == (
            seq![Endpoint::Primary],
            Some(Ok::<T, E>(value)),
            false,
        ),
{
    reveal_with_fuel(drive, 2);
    assert(call(true, Route::Primary, Ok::<T, E>(value), backup).0 =~= seq![Endpoint::Primary]);
}

/// Once the route is on the backup, a call runs the operation against the
/// backup alone, hands its outcome to the caller, and the route stays on the
/// backup, whatever the primary would have given.
pub proof fn lemma_backup_route_backup_only<T, E>(primary: Result<T, E>, backup: Result<T, E>)
    ensures
        call(true, Route::Backup, primary, backup) == (seq![Endpoint::Backup], Some(backup), false),
        route_after(Route::Backup, call(true, Route::Backup, primary, backup).2) == Route::Backup,
{
    reveal_with_fuel(drive, 2);
    assert(call(true, Route::Backup, primary, backup).0 =~= seq![Endpoint::Backup]);
}

/// In a run of calls on one client, once a call has failed over, every later
/// call reads the route as the backup and runs the operation against the
/// backup alone, however many successes the primary would have given.
pub proof fn lemma_failover_is_sticky<T, E>(
    has_backup: bool,
    route: Route,
    outcomes: Seq<(Result<T, E>, Result<T, E>)>,
    i: nat,
    j: nat,
)
    requires
        i < j < outcomes.len(),
        call_in_run(has_backup, route, outcomes, i).2,
    ensures
        route_before(has_backup, route, outcomes, j) == Route::Backup,
        call_in_run(has_backup, route, outcomes, j) == (
            seq![Endpoint::Backup],
            Some(outcomes[j as int].1),
            false,
        ),
{
    let before = route_before(has_backup, route, outcomes, i);
    if !has_backup {
        lemma_without_backup_primary_only(before, outcomes[i as int].0, outcomes[i as int].1);
    }
    lemma_route_stays_on_backup(has_backup, route, outcomes, i, j);
    lemma_backup_route_backup_only(outcomes[j as int].0, outcomes[j as int].1);
}

proof fn lemma_route_stays_on_backup<T, E>(
    has_backup: bool,
    route: Route,
    outcomes: Seq<(Result<T, E>, Result<T, E>)>,
    i: nat,
    j: nat,
)
    requires
        i < j,
        call_in_run(has_backup, route, outcomes, i).2,
    ensures
        route_before(has_backup, route, outcomes, j) == Route::Backup,
    decreases j,
{
    if j > i + 1 {
        lemma_route_stays_on_backup(has_backup, route, outcomes, i, (j - 1) as nat);
    }
}

/// Switching is idempotent: a second switch leaves the route where the first put it.
pub proof fn lemma_switch_idempotent(route: Route)
    ensures
        route.switched().switched() == route.switched(),
        route.switched() == Route::Backup,
{
}

/// However the accesses of concurrent callers interleave, once one switch has
/// landed the route is on the backup after every later access, and stays there.
pub proof fn lemma_switches_settle(route: Route, accesses: Seq<bool>, i: int)
    requires
        0 <= i < accesses.len(),
        accesses[i],
    ensures
        forall|k: int|
            i < k <= accesses.len() ==> #[trigger] route_after_accesses(route, accesses.take(k))
                == Route::Backup,
        route_after_accesses(route, accesses) == Route::Backup,
{
    assert forall|k: int| i < k <= accesses.len() implies #[trigger] route_after_accesses(
        route,
        accesses.take(k),
    ) == Route::Backup by {
        lemma_settled_prefix(route, accesses, i, k);
    }
    assert(accesses.take(accesses.len() as int) =~= accesses);
}

proof fn lemma_settled_prefix(route: Route, accesses: Seq<bool>, i: int, k: int)
    requires
        0 <= i < k <= accesses.len(),
        accesses[i],
    ensures
        route_after_accesses(route, accesses.take(k)) == Route::Backup,
    decreases k,
{
    let prefix = accesses.take(k);
    assert(prefix.drop_last() =~= accesses.take(k - 1));
    if k > i + 1 {
        lemma_settled_prefix(route, accesses, i, k - 1);
    }
}

/// Whether `which` occurs at most once in `calls`.
pub open spec fn at_most_once(calls: Seq<Endpoint>, which: Endpoint) -> bool {
    forall|a: int, b: int|
        0 <= a < calls.len() && 0 <= b < calls.len() && calls[a] == which && calls[b] == which ==> a
            == b
}

/// Whatever route a call reads at its start, and so however many calls run at
/// the same time, one call runs the operation against each endpoint at most
/// once, so against the backup at most once, and always hands one outcome to
/// its caller.
pub proof fn lemma_backup_at_most_once<T, E>(
    has_backup: bool,
    route: Route,
    primary: Result<T, E>,
    backup: Result<T, E>,
)
    ensures
        call(has_backup, route, primary, backup).0.len() <= 2,
        at_most_once(call(has_backup, route, primary, backup).0, Endpoint::Backup),
        at_most_once(call(has_backup, route, primary, backup).0, Endpoint::Primary),
        call(has_backup, route, primary, backup).1 is Some,
{
    if !has_backup {
        lemma_without_backup_primary_only(route, primary, backup);
    } else if route == Route::Backup {
        lemma_backup_route_backup_only(primary, backup);
    } else {
        match primary {
            Ok(v) => lemma_primary_success_stays(v, backup),
            Err(e) => lemma_primary_failure_fails_over(e, backup),
        }
    }
}

} // verus!
