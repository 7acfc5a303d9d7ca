use oracle_pull::client::FailoverClient;
use oracle_pull::failover::{Endpoint, Execution, Step};
use oracle_pull::routing::{Route, RoutingState};
use std::cell::{Cell, RefCell};
use std::collections::VecDeque;
use std::rc::Rc;

/// An endpoint client that answers each call with the next scripted outcome.
struct Scripted {
    outcomes: RefCell<VecDeque<Result<String, String>>>,
    calls: Cell<usize>,
}

impl Scripted {
    fn new(outcomes: Vec<Result<&str, &str>>) -> Scripted {
        let outcomes = outcomes
            .into_iter()
            .map(|o| o.map(|v| v.to_string()).map_err(|e| e.to_string()))
            .collect();
        Scripted {
            outcomes: RefCell::new(outcomes),
            calls: Cell::new(0),
        }
    }

    fn send(&self) -> Result<String, String> {
        self.calls.set(self.calls.get() + 1);
        self.outcomes
            .borrow_mut()
            .pop_front()
            .expect("endpoint called more often than scripted")
    }
}

fn send(endpoint: &Scripted) -> Result<String, String> {
    endpoint.send()
}

#[test]
fn no_backup_returns_primary_success() {
    let client = FailoverClient::new(Scripted::new(vec![]), None);
    let result: Result<u32, String> = client.execute(|_| Ok(42));
    assert_eq!(result, Ok(42));
    assert!(!client.has_backup());
    assert!(!client.current_is_backup());
}

#[test]
fn no_backup_propagates_primary_error() {
    let client = FailoverClient::new(Scripted::new(vec![Err("timeout"), Ok("tx")]), None);
    assert_eq!(client.execute(send), Err("timeout".to_string()));
    assert_eq!(client.execute(send), Ok("tx".to_string()));
    assert_eq!(client.primary().calls.get(), 2);
    assert!(!client.current_is_backup());
}

#[test]
fn primary_success_then_failover_then_backup_only() {
    let primary = Scripted::new(vec![Ok("tx1"), Err("timeout"), Ok("unused")]);
    let backup = Scripted::new(vec![Ok("tx2"), Ok("tx3")]);
    let client = FailoverClient::new(primary, Some(backup));

    assert_eq!(client.execute(send), Ok("tx1".to_string()));
    assert!(!client.current_is_backup());
    assert_eq!(client.backup().unwrap().calls.get(), 0);

    assert_eq!(client.execute(send), Ok("tx2".to_string()));
    assert!(client.current_is_backup());
    assert_eq!(client.primary().calls.get(), 2);
    assert_eq!(client.backup().unwrap().calls.get(), 1);

    assert_eq!(client.execute(send), Ok("tx3".to_string()));
    assert_eq!(client.primary().calls.get(), 2);
    assert_eq!(client.backup().unwrap().calls.get(), 2);
    assert!(client.current_is_backup());
}

#[test]
fn backup_error_is_returned_after_failover() {
    let primary = Scripted::new(vec![Err("timeout")]);
    let backup = Scripted::new(vec![Err("backup down")]);
    let client = FailoverClient::new(primary, Some(backup));
    assert_eq!(client.execute(send), Err("backup down".to_string()));
    assert!(client.current_is_backup());
}

#[test]
fn failover_is_sticky_across_many_calls_and_clones() {
    let primary = Rc::new(Scripted::new(vec![Err("down")]));
    let backup = Rc::new(Scripted::new(vec![Ok("b1"), Ok("b2"), Ok("b3"), Ok("b4")]));
    let client = FailoverClient::new(primary, Some(backup));
    let other = client.clone();
    let send_shared = |endpoint: &Rc<Scripted>| endpoint.send();
    assert_eq!(client.execute(send_shared), Ok("b1".to_string()));
    for _ in 0..3 {
        assert!(other.execute(send_shared).is_ok());
    }
    assert_eq!(client.primary().calls.get(), 1);
    assert_eq!(client.backup().unwrap().calls.get(), 4);
    assert!(other.current_is_backup());
    assert_eq!(client.begin(), Execution::AwaitingBackup);
}

#[test]
fn one_call_invokes_the_backup_at_most_once() {
    let primary = Scripted::new(vec![Err("down")]);
    let backup = Scripted::new(vec![Err("also down")]);
    let client = FailoverClient::new(primary, Some(backup));
    let backup_calls = Cell::new(0);
    let result = client.execute(|endpoint: &Scripted| {
        if std::ptr::eq(endpoint, client.backup().unwrap()) {
            backup_calls.set(backup_calls.get() + 1);
        }
        endpoint.send()
    });
    assert_eq!(result, Err("also down".to_string()));
    assert_eq!(backup_calls.get(), 1);
    assert_eq!(client.primary().calls.get(), 1);
}

#[test]
fn calls_that_began_before_a_switch_each_fail_over_once() {
    let primary = Scripted::new(vec![Err("e1"), Err("e2"), Err("e3")]);
    let backup = Scripted::new(vec![Ok("b1"), Ok("b2"), Ok("b3")]);
    let client = FailoverClient::new(primary, Some(backup));
    let mut calls: Vec<Execution> = (0..3).map(|_| client.begin()).collect();
    assert!(calls.iter().all(|c| *c == Execution::AwaitingPrimary { can_fail_over: true }));
    for exec in calls.iter_mut() {
        let outcome = client.primary().send();
        assert!(matches!(client.on_outcome(exec, outcome), Step::FailOver(_)));
        assert_eq!(exec.awaiting(), Some(Endpoint::Backup));
        assert!(client.current_is_backup());
    }
    for exec in calls.iter_mut() {
        let outcome = client.backup().unwrap().send();
        assert!(matches!(client.on_outcome(exec, outcome), Step::Done(Ok(_))));
        assert_eq!(exec.awaiting(), None);
    }
    assert_eq!(client.backup().unwrap().calls.get(), 3);
    assert!(client.current_is_backup());
}

#[test]
fn routing_state_switch_is_idempotent_and_shared() {
    let routing = RoutingState::new();
    assert!(!routing.current_is_backup());
    assert_eq!(routing.current(), Route::Primary);
    let other = routing.clone();
    other.switch_to_backup();
    other.switch_to_backup();
    routing.switch_to_backup();
    assert!(routing.current_is_backup());
    assert_eq!(routing.current(), Route::Backup);
    assert!(other.current_is_backup());
}

#[test]
fn route_is_backup() {
    assert!(Route::Backup.is_backup());
    assert!(!Route::Primary.is_backup());
}

#[test]
fn execution_begins_by_policy() {
    assert_eq!(
        Execution::begin(false, Route::Backup),
        Execution::AwaitingPrimary { can_fail_over: false }
    );
    assert_eq!(
        Execution::begin(false, Route::Primary),
        Execution::AwaitingPrimary { can_fail_over: false }
    );
    assert_eq!(
        Execution::begin(true, Route::Primary),
        Execution::AwaitingPrimary { can_fail_over: true }
    );
    assert_eq!(Execution::begin(true, Route::Backup), Execution::AwaitingBackup);
    assert_eq!(Execution::begin(true, Route::Backup).awaiting(), Some(Endpoint::Backup));
    assert_eq!(Execution::begin(false, Route::Backup).awaiting(), Some(Endpoint::Primary));
}

#[test]
fn execution_steps_on_outcomes() {
    let mut exec = Execution::begin(true, Route::Primary);
    match exec.on_outcome::<u32, &str>(Err("timeout")) {
        Step::FailOver(e) => assert_eq!(e, "timeout"),
        Step::Done(_) => panic!("expected a failover"),
    }
    assert_eq!(exec, Execution::AwaitingBackup);
    match exec.on_outcome::<u32, &str>(Err("backup down")) {
        Step::Done(r) => assert_eq!(r, Err("backup down")),
        Step::FailOver(_) => panic!("the backup never fails over"),
    }
    assert_eq!(exec, Execution::Finished);
    assert_eq!(exec.awaiting(), None);

    let mut exec = Execution::begin(false, Route::Primary);
    match exec.on_outcome::<u32, &str>(Err("timeout")) {
        Step::Done(r) => assert_eq!(r, Err("timeout")),
        Step::FailOver(_) => panic!("no backup to fail over to"),
    }
    assert_eq!(exec, Execution::Finished);

    let mut exec = Execution::begin(true, Route::Primary);
    match exec.on_outcome::<u32, &str>(Ok(7)) {
        Step::Done(r) => assert_eq!(r, Ok(7)),
        Step::FailOver(_) => panic!("a success never fails over"),
    }
    assert_eq!(exec, Execution::Finished);
}

#[test]
fn endpoint_lookup() {
    let client = FailoverClient::new(Scripted::new(vec![]), None);
    assert!(client.endpoint(Endpoint::Primary).is_some());
    assert!(client.endpoint(Endpoint::Backup).is_none());
    assert!(client.backup().is_none());
    let client = FailoverClient::new(Scripted::new(vec![Ok("p")]), Some(Scripted::new(vec![Ok("b")])));
    assert_eq!(client.endpoint(Endpoint::Backup).unwrap().send(), Ok("b".to_string()));
    assert_eq!(client.endpoint(Endpoint::Primary).unwrap().send(), Ok("p".to_string()));
}
