use vstd::prelude::*;

use crate::handle::ResourceKind;
use crate::method::{classify, resource_for, Method};

verus! {

/// Where the broker stands in handling one request.
#[derive(PartialEq, Eq, Structural, Clone, Copy, Debug)]
pub enum BrokerState {
    /// No request has been seen yet.
    Idle,
    /// A resource of the given kind has been asked of the pool.
    Acquiring(ResourceKind),
    /// The resource is installed and the downstream stages are running.
    Delegating(ResourceKind),
    /// A resource was already installed for this request; the downstream
    /// stages run without a second one.
    Forwarding,
    /// The downstream outcome carried no error; the broker is taking back sole
    /// ownership of the resource.
    Reclaiming(ResourceKind),
    /// The transaction's commit has been issued.
    Committing,
    /// The request has been answered.
    Finished,
    /// The resource outlived its request: processing must stop.
    Halted,
}

/// What the surrounding pipeline reports to the broker.
#[derive(PartialEq, Eq, Structural, Clone, Copy, Debug)]
pub enum Event {
    /// A request arrived; `slot_present` tells whether its context already
    /// carries a resource.
    Request { method: Method, slot_present: bool },
    /// The pool handed out the resource that was asked for.
    Acquired,
    /// The pool could not hand out the resource.
    AcquireFailed,
    /// The downstream stages returned an outcome.
    Outcome { has_error: bool },
    /// The attempt to take sole ownership of the resource returned;
    /// `sole_owner` is false when another reference to it is still alive.
    Reclaimed { sole_owner: bool },
    /// The commit succeeded.
    Committed,
    /// The commit failed.
    CommitFailed,
}

/// What the broker asks the surrounding pipeline to do next.
#[derive(PartialEq, Eq, Structural, Clone, Copy, Debug)]
pub enum Action {
    /// Pass the request on unchanged, without installing a resource.
    RunNext,
    /// Ask the pool for a plain connection.
    AcquireConnection,
    /// Ask the pool to begin a transaction.
    BeginTransaction,
    /// Store the acquired resource in the request's context and pass the
    /// request on.
    InstallAndRunNext,
    /// Answer with the pool's error; nothing was installed.
    FailWithPoolError,
    /// Try to take sole ownership of the installed resource.
    ReclaimSlot,
    /// Commit the transaction.
    Commit,
    /// Drop the resource (an uncommitted transaction rolls back) and answer
    /// with the downstream outcome.
    Release,
    /// Answer with the downstream outcome.
    ReturnOutcome,
    /// Answer with the commit's error in place of the downstream outcome.
    FailWithCommitError,
    /// Stop processing for good: the resource cannot be resolved.
    Halt,
}

/// The broker's transition: the next state and the action to perform when
/// event `e` arrives in state `s`, or `None` when `s` does not accept `e`.
pub open spec fn transition(s: BrokerState, e: Event) -> Option<(BrokerState, Action)> {
    match (s, e) {
        (BrokerState::Idle, Event::Request { method, slot_present }) => {
            if slot_present {
                Some((BrokerState::Forwarding, Action::RunNext))
            } else if resource_for(method) == ResourceKind::Plain {
                Some((BrokerState::Acquiring(ResourceKind::Plain), Action::AcquireConnection))
            } else {
                Some((BrokerState::Acquiring(ResourceKind::Transaction), Action::BeginTransaction))
            }
        },
        (BrokerState::Acquiring(k), Event::Acquired) => Some(
            (BrokerState::Delegating(k), Action::InstallAndRunNext),
        ),
        (BrokerState::Acquiring(_), Event::AcquireFailed) => Some(
            (BrokerState::Finished, Action::FailWithPoolError),
        ),
        (BrokerState::Forwarding, Event::Outcome { .. }) => Some(
            (BrokerState::Finished, Action::ReturnOutcome),
        ),
        (BrokerState::Delegating(k), Event::Outcome { has_error }) => {
            if has_error {
                Some((BrokerState::Finished, Action::Release))
            } else {
                Some((BrokerState::Reclaiming(k), Action::ReclaimSlot))
            }
        },
        (BrokerState::Reclaiming(k), Event::Reclaimed { sole_owner }) => {
            if !sole_owner {
                Some((BrokerState::Halted, Action::Halt))
            } else if k == ResourceKind::Transaction {
                Some((BrokerState::Committing, Action::Commit))
            } else {
                Some((BrokerState::Finished, Action::Release))
            }
        },
        (BrokerState::Committing, Event::Committed) => Some(
            (BrokerState::Finished, Action::ReturnOutcome),
        ),
        (BrokerState::Committing, Event::CommitFailed) => Some(
            (BrokerState::Finished, Action::FailWithCommitError),
        ),
        _ => None,
    }
}

impl BrokerState {
    /// The transition on event `e`: the next state and the action to perform,
    /// or `None` when this state does not accept `e`.
    pub fn step(self, e: Event) -> (r: Option<(BrokerState, Action)>)
        ensures
            r == transition(self, e),
    {
        match (self, e) {
            (BrokerState::Idle, Event::Request { method, slot_present }) => {
                if slot_present {
                    Some((BrokerState::Forwarding, Action::RunNext))
                } else {
                    match classify(method) {
                        ResourceKind::Plain => Some(
                            (BrokerState::Acquiring(ResourceKind::Plain), Action::AcquireConnection),
                        ),
                        ResourceKind::Transaction => Some(
                            (
                                BrokerState::Acquiring(ResourceKind::Transaction),
                                Action::BeginTransaction,
                            ),
                        ),
                    }
                }
            },
            (BrokerState::Acquiring(k), Event::Acquired) => Some(
                (BrokerState::Delegating(k), Action::InstallAndRunNext),
            ),
            (BrokerState::Acquiring(_), Event::AcquireFailed) => Some(
                (BrokerState::Finished, Action::FailWithPoolError),
            ),
            (BrokerState::Forwarding, Event::Outcome { .. }) => Some(
                (BrokerState::Finished, Action::ReturnOutcome),
            ),
            (BrokerState::Delegating(k), Event::Outcome { has_error }) => {
                if has_error {
                    Some((BrokerState::Finished, Action::Release))
                } else {
                    Some((BrokerState::Reclaiming(k), Action::ReclaimSlot))
                }
            },
            (BrokerState::Reclaiming(k), Event::Reclaimed { sole_owner }) => {
                if !sole_owner {
                    Some((BrokerState::Halted, Action::Halt))
                } else if k.needs_commit() {
                    Some((BrokerState::Committing, Action::Commit))
                } else {
                    Some((BrokerState::Finished, Action::Release))
                }
            },
            (BrokerState::Committing, Event::Committed) => Some(
                (BrokerState::Finished, Action::ReturnOutcome),
            ),
            (BrokerState::Committing, Event::CommitFailed) => Some(
                (BrokerState::Finished, Action::FailWithCommitError),
            ),
            _ => None,
        }
    }
}

/// The broker for one request: it holds where the request stands and
/// advances on each event that the pipeline reports.
pub struct Broker {
    state: BrokerState,
}

impl View for Broker {
    type V = BrokerState;

    closed spec fn view(&self) -> BrokerState {
        self.state
    }
}

impl Broker {
    /// A broker that has seen no request yet.
    pub fn new() -> (r: Broker)
        ensures
            r@ == BrokerState::Idle,
    {
        Broker { state: BrokerState::Idle }
    }

    /// Where the request stands.
    pub fn state(&self) -> (r: BrokerState)
        ensures
            r == self@,
    {
        self.state
    }

    /// Advances on event `e` and returns the action to perform; an event
    /// that the current state does not accept leaves the broker as it was and
    /// returns `None`.
    pub fn advance(&mut self, e: Event) -> (r: Option<Action>)
        ensures
            match transition(old(self)@, e) {
                Some((next, a)) => final(self)@ == next && r == Some(a),
                None => final(self)@ == old(self)@ && r.is_none(),
            },
    {
        match self.state.step(e) {
            Some((next, a)) => {
                self.state = next;
                Some(a)
            },
            None => None,
        }
    }
}

} // verus!
