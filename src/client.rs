use crate::failover::{Endpoint, Execution, Step};
use crate::routing::{Route, RoutingState};
use vstd::prelude::*;

verus! {

/// A backup endpoint client together with the routing state that says
/// whether traffic has been switched to it.
#[derive(Clone, Debug)]
struct Fallback<C> {
    endpoint: C,
    routing: RoutingState,
}

/// Runs operations against a primary endpoint client and, once the primary
/// has failed, against a backup for good.
///
/// Clones share one routing state, so a switch made through any of them
/// holds for all. A client built without a backup has no routing state at
/// all and sends everything to the primary.
#[derive(Clone, Debug)]
pub struct FailoverClient<C> {
    primary: C,
    fallback: Option<Fallback<C>>,
}

impl<C> FailoverClient<C> {
    /// The primary endpoint client.
    pub closed spec fn primary_spec(&self) -> C {
        self.primary
    }

    /// The backup endpoint client, if one is configured.
    pub closed spec fn backup_spec(&self) -> Option<C> {
        match self.fallback {
            Some(f) => Some(f.endpoint),
            None => None,
        }
    }

    /// A client over `primary`, with `backup` to fall back to if it is given.
    /// Traffic starts out on the primary.
    pub fn new(primary: C, backup: Option<C>) -> (r: FailoverClient<C>)
        ensures
            r.primary_spec() == primary,
            r.backup_spec() == backup,
    {
        let fallback = match backup {
            Some(endpoint) => Some(Fallback { endpoint, routing: RoutingState::new() }),
            None => None,
        };
        FailoverClient { primary, fallback }
    }

    /// Whether a backup is configured.
    pub fn has_backup(&self) -> (r: bool)
        ensures
            r == self.backup_spec() is Some,
    {
        self.fallback.is_some()
    }

    /// The primary endpoint client.
    pub fn primary(&self) -> (r: &C)
        ensures
            *r == self.primary_spec(),
    {
        &self.primary
    }

    /// The backup endpoint client, if one is configured.
    pub fn backup(&self) -> (r: Option<&C>)
        ensures
            r matches Some(b) ==> self.backup_spec() == Some(*b),
            r is None <==> self.backup_spec() is None,
    {
        match &self.fallback {
            Some(f) => Some(&f.endpoint),
            None => None,
        }
    }

    /// The endpoint client that `which` names: `None` for the backup of a
    /// client that has none.
    pub fn endpoint(&self, which: Endpoint) -> (r: Option<&C>)
        ensures
            which == Endpoint::Primary ==> r == Some(&self.primary_spec()),
            which == Endpoint::Backup ==> (r matches Some(b) ==> self.backup_spec() == Some(*b)),
            which == Endpoint::Backup ==> (r is None <==> self.backup_spec() is None),
    {
        match which {
            Endpoint::Primary => Some(&self.primary),
            Endpoint::Backup => self.backup(),
        }
    }

    /// Whether traffic is on the backup. Always `false` without a backup,
    /// in which case no shared state is read.
    pub fn current_is_backup(&self) -> (r: bool)
        ensures
            self.backup_spec() is None ==> !r,
    {
        match &self.fallback {
            Some(f) => f.routing.current_is_backup(),
            None => false,
        }
    }

    /// Starts a call: it waits on the endpoint that the routing policy picks.
    /// Without a backup that is the primary, and no shared state is read;
    /// with one, it is whichever endpoint the route read now names.
    pub fn begin(&self) -> (r: Execution)
        ensures
            r == Execution::start(self.backup_spec() is Some, Route::Primary) || r
                == Execution::start(self.backup_spec() is Some, Route::Backup),
            self.backup_spec() is None ==> r == Execution::start(false, Route::Primary),
    {
        match &self.fallback {
            None => Execution::begin(false, Route::Primary),
            Some(f) => {
                let route = f.routing.current();
                Execution::begin(true, route)
            },
        }
    }

    /// Hands the outcome of the awaited endpoint to `exec` and says what to
    /// do next. When the primary has failed and a backup is configured, the
    /// routing state is switched to the backup before this returns, whether
    /// or not another caller has already done so.
    pub fn on_outcome<T, E>(&self, exec: &mut Execution, outcome: Result<T, E>) -> (r: Step<T, E>)
        requires
            !(*old(exec) is Finished),
        ensures
            (*final(exec), r) == old(exec).advance(outcome),
    {
        let step = exec.on_outcome(outcome);
        if let Step::FailOver(_) = &step {
            if let Some(f) = &self.fallback {
                f.routing.switch_to_backup();
            }
        }
        step
    }

    /// Runs `op` through the client, for operations that complete without
    /// awaiting anything (asynchronous callers drive [`Self::begin`] and
    /// [`Self::on_outcome`] themselves, in the same way).
    ///
    /// Without a backup the result is the primary's outcome, success or
    /// error. With one, it is either a success of the primary or the
    /// backup's outcome: the backup runs `op` when the route is already on
    /// it, or when the primary fails, after the switch to the backup.
    pub fn execute<T, E, F: Fn(&C) -> Result<T, E>>(&self, op: F) -> (r: Result<T, E>)
        requires
            op.requires((&self.primary_spec(),)),
            self.backup_spec() matches Some(b) ==> op.requires((&b,)),
        ensures
            self.backup_spec() is None ==> op.ensures((&self.primary_spec(),), r),
            self.backup_spec() matches Some(b) ==> op.ensures((&b,), r) || (r is Ok && op.ensures(
                (&self.primary_spec(),),
                r,
            )),
    {
        let has_backup = self.has_backup();
        let mut exec = self.begin();
        loop
            invariant
                !(exec is Finished),
                exec is AwaitingBackup ==> has_backup,
                exec matches Execution::AwaitingPrimary { can_fail_over } ==> can_fail_over
                    == has_backup,
                has_backup == self.backup_spec() is Some,
                op.requires((&self.primary_spec(),)),
                self.backup_spec() matches Some(b) ==> op.requires((&b,)),
            decreases exec.remaining(),
        {
            let which = exec.awaiting().unwrap();
            let endpoint = self.endpoint(which).unwrap();
            let outcome = op(endpoint);
            match self.on_outcome(&mut exec, outcome) {
                Step::Done(r) => {
                    return r;
                },
                Step::FailOver(_) => {},
            }
        }
    }
}

} // verus!
