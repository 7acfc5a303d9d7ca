use std::sync::atomic::{AtomicBool, Ordering};
use std::sync::Arc;
use vstd::prelude::*;

verus! {

/// Which endpoint a failover client currently directs its traffic to.
#[derive(Clone, Copy, Debug, PartialEq, Eq, Structural)]
pub enum Route {
    Primary,
    Backup,
}

impl Route {
    /// The route after a switch: the backup, whatever it was before.
    pub open spec fn switched(self) -> Route {
        Route::Backup
    }

    pub fn is_backup(&self) -> (r: bool)
        ensures
            r == (*self == Route::Backup),
    {
        match self {
            Route::Primary => false,
            Route::Backup => true,
        }
    }
}

/// The routing state of one failover client, shared by every clone of it
/// and by every caller that runs an operation through it at the same time.
///
/// It offers a read and a switch to the backup, and nothing else: the flag
/// starts out clear and the only value ever written to it is `true`, so the
/// route can move from `Primary` to `Backup` and never back. What a read
/// returns depends on what other callers stored before it, which is why the
/// methods promise nothing about the value they see.
#[derive(Clone, Debug)]
pub struct RoutingState {
    on_backup: Arc<AtomicBool>,
}

impl RoutingState {
    /// A routing state that directs traffic to the primary.
    pub fn new() -> RoutingState {
        RoutingState { on_backup: Arc::new(AtomicBool::new(false)) }
    }

    /// Whether the traffic is directed to the backup.
    pub fn current_is_backup(&self) -> bool {
        self.on_backup.load(Ordering::SeqCst)
    }

    /// The current route.
    pub fn current(&self) -> Route {
        if self.current_is_backup() {
            Route::Backup
        } else {
            Route::Primary
        }
    }

    /// Directs all further traffic to the backup. Any caller may do this any
    /// number of times, without reading the state first.
    pub fn switch_to_backup(&self) {
        self.on_backup.store(true, Ordering::SeqCst);
    }
}

} // verus!
