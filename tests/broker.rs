use tide_sqlx::broker::{Action, Broker, BrokerState, Event};
use tide_sqlx::handle::ResourceKind;
use tide_sqlx::method::Method;

fn request(method: Method) -> Event {
    Event::Request { method, slot_present: false }
}

#[test]
fn get_request_uses_plain_connection_and_never_commits() {
    let mut b = Broker::new();
    assert_eq!(b.advance(request(Method::Get)), Some(Action::AcquireConnection));
    assert_eq!(b.state(), BrokerState::Acquiring(ResourceKind::Plain));
    assert_eq!(b.advance(Event::Acquired), Some(Action::InstallAndRunNext));
    assert_eq!(b.state(), BrokerState::Delegating(ResourceKind::Plain));
    assert_eq!(b.advance(Event::Outcome { has_error: false }), Some(Action::ReclaimSlot));
    assert_eq!(b.advance(Event::Reclaimed { sole_owner: true }), Some(Action::Release));
    assert_eq!(b.state(), BrokerState::Finished);
    assert_eq!(b.advance(Event::Committed), None);
}

#[test]
fn post_request_with_success_commits() {
    let mut b = Broker::new();
    assert_eq!(b.advance(request(Method::Post)), Some(Action::BeginTransaction));
    assert_eq!(b.state(), BrokerState::Acquiring(ResourceKind::Transaction));
    assert_eq!(b.advance(Event::Acquired), Some(Action::InstallAndRunNext));
    assert_eq!(b.advance(Event::Outcome { has_error: false }), Some(Action::ReclaimSlot));
    assert_eq!(b.state(), BrokerState::Reclaiming(ResourceKind::Transaction));
    assert_eq!(b.advance(Event::Reclaimed { sole_owner: true }), Some(Action::Commit));
    assert_eq!(b.state(), BrokerState::Committing);
    assert_eq!(b.advance(Event::Committed), Some(Action::ReturnOutcome));
    assert_eq!(b.state(), BrokerState::Finished);
}

#[test]
fn post_request_with_error_outcome_releases_without_commit() {
    let mut b = Broker::new();
    assert_eq!(b.advance(request(Method::Post)), Some(Action::BeginTransaction));
    assert_eq!(b.advance(Event::Acquired), Some(Action::InstallAndRunNext));
    assert_eq!(b.advance(Event::Outcome { has_error: true }), Some(Action::Release));
    assert_eq!(b.state(), BrokerState::Finished);
    assert_eq!(b.advance(Event::Reclaimed { sole_owner: true }), None);
    assert_eq!(b.advance(Event::Committed), None);
    assert_eq!(b.state(), BrokerState::Finished);
}

#[test]
fn head_request_uses_plain_connection() {
    let mut b = Broker::new();
    assert_eq!(b.advance(request(Method::Head)), Some(Action::AcquireConnection));
}

#[test]
fn mutating_methods_begin_transactions() {
    for m in [Method::Post, Method::Put, Method::Delete, Method::Patch, Method::Options] {
        let mut b = Broker::new();
        assert_eq!(b.advance(request(m)), Some(Action::BeginTransaction));
        assert_eq!(b.state(), BrokerState::Acquiring(ResourceKind::Transaction));
    }
}

#[test]
fn installed_resource_is_forwarded_untouched() {
    let mut b = Broker::new();
    let e = Event::Request { method: Method::Post, slot_present: true };
    assert_eq!(b.advance(e), Some(Action::RunNext));
    assert_eq!(b.state(), BrokerState::Forwarding);
    assert_eq!(b.advance(Event::Acquired), None);
    assert_eq!(b.advance(Event::Reclaimed { sole_owner: true }), None);
    assert_eq!(b.advance(Event::Outcome { has_error: false }), Some(Action::ReturnOutcome));
    assert_eq!(b.state(), BrokerState::Finished);
}

#[test]
fn second_request_event_is_refused() {
    let mut b = Broker::new();
    assert_eq!(b.advance(request(Method::Get)), Some(Action::AcquireConnection));
    assert_eq!(b.advance(request(Method::Post)), None);
    assert_eq!(b.state(), BrokerState::Acquiring(ResourceKind::Plain));
}

#[test]
fn retained_resource_halts() {
    let mut b = Broker::new();
    assert_eq!(b.advance(request(Method::Put)), Some(Action::BeginTransaction));
    assert_eq!(b.advance(Event::Acquired), Some(Action::InstallAndRunNext));
    assert_eq!(b.advance(Event::Outcome { has_error: false }), Some(Action::ReclaimSlot));
    assert_eq!(b.advance(Event::Reclaimed { sole_owner: false }), Some(Action::Halt));
    assert_eq!(b.state(), BrokerState::Halted);
    assert_eq!(b.advance(Event::Committed), None);
    assert_eq!(b.advance(Event::Reclaimed { sole_owner: true }), None);
    assert_eq!(b.state(), BrokerState::Halted);
}

#[test]
fn retained_plain_connection_halts() {
    let mut b = Broker::new();
    assert_eq!(b.advance(request(Method::Get)), Some(Action::AcquireConnection));
    assert_eq!(b.advance(Event::Acquired), Some(Action::InstallAndRunNext));
    assert_eq!(b.advance(Event::Outcome { has_error: false }), Some(Action::ReclaimSlot));
    assert_eq!(b.advance(Event::Reclaimed { sole_owner: false }), Some(Action::Halt));
}

#[test]
fn pool_failure_ends_request_before_delegation() {
    let mut b = Broker::new();
    assert_eq!(b.advance(request(Method::Post)), Some(Action::BeginTransaction));
    assert_eq!(b.advance(Event::AcquireFailed), Some(Action::FailWithPoolError));
    assert_eq!(b.state(), BrokerState::Finished);
    assert_eq!(b.advance(Event::Outcome { has_error: false }), None);
}

#[test]
fn commit_failure_overrides_outcome() {
    let mut b = Broker::new();
    assert_eq!(b.advance(request(Method::Delete)), Some(Action::BeginTransaction));
    assert_eq!(b.advance(Event::Acquired), Some(Action::InstallAndRunNext));
    assert_eq!(b.advance(Event::Outcome { has_error: false }), Some(Action::ReclaimSlot));
    assert_eq!(b.advance(Event::Reclaimed { sole_owner: true }), Some(Action::Commit));
    assert_eq!(b.advance(Event::CommitFailed), Some(Action::FailWithCommitError));
    assert_eq!(b.state(), BrokerState::Finished);
}

#[test]
fn events_out_of_order_leave_state_unchanged() {
    let mut b = Broker::new();
    for e in [
        Event::Acquired,
        Event::AcquireFailed,
        Event::Outcome { has_error: false },
        Event::Reclaimed { sole_owner: true },
        Event::Committed,
        Event::CommitFailed,
    ] {
        assert_eq!(b.advance(e), None);
        assert_eq!(b.state(), BrokerState::Idle);
    }
}

#[test]
fn step_matches_advance() {
    let s = BrokerState::Delegating(ResourceKind::Transaction);
    assert_eq!(
        s.step(Event::Outcome { has_error: true }),
        Some((BrokerState::Finished, Action::Release))
    );
    assert_eq!(
        s.step(Event::Outcome { has_error: false }),
        Some((BrokerState::Reclaiming(ResourceKind::Transaction), Action::ReclaimSlot))
    );
    assert_eq!(BrokerState::Halted.step(request(Method::Get)), None);
}
