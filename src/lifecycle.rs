//! Laws about whole runs of the broker over the events of one request.
use vstd::prelude::*;

use crate::broker::{transition, Action, BrokerState, Event};
use crate::handle::ResourceKind;
use crate::method::{read_only, Method};

verus! {

/// The state reached and the actions performed when the broker, starting in
/// `s`, receives `events` in order. An event that the current state does not
/// accept is passed over.
pub open spec fn run(s: BrokerState, events: Seq<Event>) -> (BrokerState, Seq<Action>)
    decreases events.len(),
{
    if events.len() == 0 {
        (s, Seq::empty())
    } else {
        match transition(s, events[0]) {
            Some((next, a)) => {
                let rest = run(next, events.drop_first());
                (rest.0, seq![a] + rest.1)
            },
            None => run(s, events.drop_first()),
        }
    }
}

/// How many times action `a` occurs in `acts`.
pub open spec fn count(acts: Seq<Action>, a: Action) -> nat
    decreases acts.len(),
{
    if acts.len() == 0 {
        0
    } else {
        (if acts[0] == a {
            1nat
        } else {
            0nat
        }) + count(acts.drop_first(), a)
    }
}

/// How many more times a broker in state `s` can touch the pool.
spec fn acquisitions_left(s: BrokerState) -> nat {
    if s == BrokerState::Idle {
        1
    } else {
        0
    }
}

/// How many more commits a broker in state `s` can issue.
spec fn commits_left(s: BrokerState) -> nat {
    match s {
        BrokerState::Idle => 1,
        BrokerState::Acquiring(k) | BrokerState::Delegating(k) | BrokerState::Reclaiming(k) => {
            if k == ResourceKind::Transaction {
                1
            } else {
                0
            }
        },
        _ => 0,
    }
}

/// How many more times a broker in state `s` can resolve the resource, by a
/// commit or by a release.
spec fn resolutions_left(s: BrokerState) -> nat {
    match s {
        BrokerState::Idle
        | BrokerState::Acquiring(_)
        | BrokerState::Delegating(_)
        | BrokerState::Reclaiming(_) => 1,
        _ => 0,
    }
}

/// The actions a broker in state `s` performs up to and including a commit,
/// on the only path that leads to one.
spec fn commit_path(s: BrokerState) -> Seq<Action> {
    match s {
        BrokerState::Idle => seq![
            Action::BeginTransaction,
            Action::InstallAndRunNext,
            Action::ReclaimSlot,
            Action::Commit,
        ],
        BrokerState::Acquiring(_) => seq![
            Action::InstallAndRunNext,
            Action::ReclaimSlot,
            Action::Commit,
        ],
        BrokerState::Delegating(_) => seq![Action::ReclaimSlot, Action::Commit],
        BrokerState::Reclaiming(_) => seq![Action::Commit],
        _ => Seq::empty(),
    }
}

proof fn lemma_count_prepend(a: Action, acts: Seq<Action>, b: Action)
    ensures
        count(seq![a] + acts, b) == (if a == b {
            1nat
        } else {
            0nat
        }) + count(acts, b),
{
    assert((seq![a] + acts).drop_first() =~= acts);
}

proof fn lemma_run_prepend(s: BrokerState, e: Event, rest: Seq<Event>)
    ensures
        run(s, seq![e] + rest) == (match transition(s, e) {
            Some((next, a)) => (run(next, rest).0, seq![a] + run(next, rest).1),
            None => run(s, rest),
        }),
{
    assert((seq![e] + rest).drop_first() =~= rest);
}

/// The pool is touched, and a commit issued, no more often than the state
/// still allows.
proof fn lemma_budgets(s: BrokerState, events: Seq<Event>)
    ensures
        count(run(s, events).1, Action::Commit) <= commits_left(s),
        count(run(s, events).1, Action::AcquireConnection) + count(
            run(s, events).1,
            Action::BeginTransaction,
        ) <= acquisitions_left(s),
        count(run(s, events).1, Action::Commit) + count(run(s, events).1, Action::Release)
            <= resolutions_left(s),
    decreases events.len(),
{
    if events.len() > 0 {
        match transition(s, events[0]) {
            Some((next, a)) => {
                let rest = run(next, events.drop_first()).1;
                lemma_budgets(next, events.drop_first());
                lemma_count_prepend(a, rest, Action::Commit);
                lemma_count_prepend(a, rest, Action::Release);
                lemma_count_prepend(a, rest, Action::AcquireConnection);
                lemma_count_prepend(a, rest, Action::BeginTransaction);
            },
            None => lemma_budgets(s, events.drop_first()),
        }
    }
}

/// Once halted, the broker accepts nothing and does nothing more.
proof fn lemma_halted_is_final(events: Seq<Event>)
    ensures
        run(BrokerState::Halted, events) == (BrokerState::Halted, Seq::<Action>::empty()),
    decreases events.len(),
{
    if events.len() > 0 {
        lemma_halted_is_final(events.drop_first());
    }
}

/// A broker that forwards, or has finished forwarding, only ever answers
/// with the downstream outcome.
proof fn lemma_forwarding_only_answers(s: BrokerState, events: Seq<Event>)
    requires
        s == BrokerState::Forwarding || s == BrokerState::Finished,
    ensures
        forall|i: int|
            0 <= i < run(s, events).1.len() ==> #[trigger] run(s, events).1[i]
                == Action::ReturnOutcome,
    decreases events.len(),
{
    if events.len() > 0 {
        match transition(s, events[0]) {
            Some((next, a)) => {
                lemma_forwarding_only_answers(next, events.drop_first());
                let rest = run(next, events.drop_first()).1;
                assert forall|i: int| 0 <= i < (seq![a] + rest).len() implies (seq![a]
                    + rest)[i] == Action::ReturnOutcome by {
                    if i > 0 {
                        assert((seq![a] + rest)[i] == rest[i - 1]);
                    }
                }
            },
            None => lemma_forwarding_only_answers(s, events.drop_first()),
        }
    }
}

/// A run that commits starts with the path to the commit that its first
/// state allows.
proof fn lemma_commit_path(s: BrokerState, events: Seq<Event>)
    ensures
        count(run(s, events).1, Action::Commit) > 0 ==> {
            let acts = run(s, events).1;
            &&& acts.len() >= commit_path(s).len()
            &&& acts.subrange(0, commit_path(s).len() as int) == commit_path(s)
        },
    decreases events.len(),
{
    if events.len() > 0 {
        match transition(s, events[0]) {
            Some((next, a)) => {
                let rest = run(next, events.drop_first()).1;
                lemma_commit_path(next, events.drop_first());
                lemma_budgets(next, events.drop_first());
                lemma_count_prepend(a, rest, Action::Commit);
                if count(seq![a] + rest, Action::Commit) > 0 {
                    let n = commit_path(next).len() as int;
                    if a == Action::Commit {
                        assert((seq![a] + rest).subrange(0, 1) =~= seq![a]);
                        assert(commit_path(s) =~= seq![a]);
                    } else {
                        assert((seq![a] + rest).subrange(0, n + 1) =~= seq![a] + rest.subrange(
                            0,
                            n,
                        ));
                        assert(commit_path(s) =~= seq![a] + commit_path(next));
                    }
                }
            },
            None => lemma_commit_path(s, events.drop_first()),
        }
    }
}

/// Whatever events arrive, one request touches the pool at most once, and
/// its resource is resolved at most once: commits and releases together
/// number at most one.
pub proof fn lemma_acquire_and_resolve_at_most_once(events: Seq<Event>)
    ensures
        count(run(BrokerState::Idle, events).1, Action::AcquireConnection) + count(
            run(BrokerState::Idle, events).1,
            Action::BeginTransaction,
        ) <= 1,
        count(run(BrokerState::Idle, events).1, Action::Commit) + count(
            run(BrokerState::Idle, events).1,
            Action::Release,
        ) <= 1,
{
    lemma_budgets(BrokerState::Idle, events);
}

/// Whatever events arrive, a commit is only issued as the fourth action of a
/// request: after a transaction was begun, installed, and reclaimed (which
/// the broker only does on an error-free outcome).
pub proof fn lemma_commit_only_after_clean_transaction(events: Seq<Event>)
    ensures
        ({
            let acts = run(BrokerState::Idle, events).1;
            count(acts, Action::Commit) > 0 ==> {
                &&& acts.len() >= 4
                &&& acts[0] == Action::BeginTransaction
                &&& acts[1] == Action::InstallAndRunNext
                &&& acts[2] == Action::ReclaimSlot
                &&& acts[3] == Action::Commit
            }
        }),
{
    lemma_commit_path(BrokerState::Idle, events);
    let acts = run(BrokerState::Idle, events).1;
    if count(acts, Action::Commit) > 0 {
        assert(acts.subrange(0, 4)[0] == acts[0]);
        assert(acts.subrange(0, 4)[1] == acts[1]);
        assert(acts.subrange(0, 4)[2] == acts[2]);
        assert(acts.subrange(0, 4)[3] == acts[3]);
    }
}

/// A request with a read-only method is given a plain connection: the broker
/// asks the pool for a connection first, and never begins a transaction nor
/// commits, whatever events follow.
pub proof fn lemma_read_only_gets_plain_connection(method: Method, rest: Seq<Event>)
    requires
        read_only(method),
    ensures
        ({
            let acts = run(
                BrokerState::Idle,
                seq![Event::Request { method, slot_present: false }] + rest,
            ).1;
            &&& acts.len() > 0
            &&& acts[0] == Action::AcquireConnection
            &&& count(acts, Action::BeginTransaction) == 0
            &&& count(acts, Action::Commit) == 0
        }),
{
    let e = Event::Request { method, slot_present: false };
    let next = BrokerState::Acquiring(ResourceKind::Plain);
    lemma_run_prepend(BrokerState::Idle, e, rest);
    lemma_budgets(next, rest);
    lemma_count_prepend(Action::AcquireConnection, run(next, rest).1, Action::BeginTransaction);
    lemma_count_prepend(Action::AcquireConnection, run(next, rest).1, Action::Commit);
}

/// A request with a mutating method is given a transaction: the broker asks
/// the pool to begin one first, and never asks for a plain connection.
pub proof fn lemma_mutating_gets_transaction(method: Method, rest: Seq<Event>)
    requires
        !read_only(method),
    ensures
        ({
            let acts = run(
                BrokerState::Idle,
                seq![Event::Request { method, slot_present: false }] + rest,
            ).1;
            &&& acts.len() > 0
            &&& acts[0] == Action::BeginTransaction
            &&& count(acts, Action::AcquireConnection) == 0
        }),
{
    let e = Event::Request { method, slot_present: false };
    let next = BrokerState::Acquiring(ResourceKind::Transaction);
    lemma_run_prepend(BrokerState::Idle, e, rest);
    lemma_budgets(next, rest);
    lemma_count_prepend(Action::BeginTransaction, run(next, rest).1, Action::AcquireConnection);
}

/// When the downstream outcome of a mutating request carries no error and
/// the broker is left as the resource's sole owner, the transaction is
/// committed exactly once, whatever events follow.
pub proof fn lemma_clean_outcome_commits_once(method: Method, rest: Seq<Event>)
    requires
        !read_only(method),
    ensures
        ({
            let acts = run(
                BrokerState::Idle,
                seq![
                    Event::Request { method, slot_present: false },
                    Event::Acquired,
                    Event::Outcome { has_error: false },
                    Event::Reclaimed { sole_owner: true },
                ] + rest,
            ).1;
            &&& acts.len() >= 4
            &&& acts[3] == Action::Commit
            &&& count(acts, Action::Commit) == 1
        }),
{
    let e0 = Event::Request { method, slot_present: false };
    let e1 = Event::Acquired;
    let e2 = Event::Outcome { has_error: false };
    let e3 = Event::Reclaimed { sole_owner: true };
    let r3 = seq![e3] + rest;
    let r2 = seq![e2] + r3;
    let r1 = seq![e1] + r2;
    assert(seq![e0, e1, e2, e3] + rest =~= seq![e0] + r1);
    let s1 = BrokerState::Acquiring(ResourceKind::Transaction);
    let s2 = BrokerState::Delegating(ResourceKind::Transaction);
    let s3 = BrokerState::Reclaiming(ResourceKind::Transaction);
    let s4 = BrokerState::Committing;
    lemma_run_prepend(BrokerState::Idle, e0, r1);
    lemma_run_prepend(s1, e1, r2);
    lemma_run_prepend(s2, e2, r3);
    lemma_run_prepend(s3, e3, rest);
    lemma_budgets(s4, rest);
    let a4 = run(s4, rest).1;
    let a3 = seq![Action::Commit] + a4;
    let a2 = seq![Action::ReclaimSlot] + a3;
    let a1 = seq![Action::InstallAndRunNext] + a2;
    lemma_count_prepend(Action::Commit, a4, Action::Commit);
    lemma_count_prepend(Action::ReclaimSlot, a3, Action::Commit);
    lemma_count_prepend(Action::InstallAndRunNext, a2, Action::Commit);
    lemma_count_prepend(Action::BeginTransaction, a1, Action::Commit);
}

/// When the downstream outcome carries an error, the resource is released
/// without a commit, whatever the method and whatever events follow.
pub proof fn lemma_error_outcome_never_commits(method: Method, rest: Seq<Event>)
    ensures
        ({
            let acts = run(
                BrokerState::Idle,
                seq![
                    Event::Request { method, slot_present: false },
                    Event::Acquired,
                    Event::Outcome { has_error: true },
                ] + rest,
            ).1;
            &&& acts.len() >= 3
            &&& acts[2] == Action::Release
            &&& count(acts, Action::Commit) == 0
        }),
{
    let e0 = Event::Request { method, slot_present: false };
    let e1 = Event::Acquired;
    let e2 = Event::Outcome { has_error: true };
    let r2 = seq![e2] + rest;
    let r1 = seq![e1] + r2;
    assert(seq![e0, e1, e2] + rest =~= seq![e0] + r1);
    let k = if read_only(method) {
        ResourceKind::Plain
    } else {
        ResourceKind::Transaction
    };
    let first = if read_only(method) {
        Action::AcquireConnection
    } else {
        Action::BeginTransaction
    };
    lemma_run_prepend(BrokerState::Idle, e0, r1);
    lemma_run_prepend(BrokerState::Acquiring(k), e1, r2);
    lemma_run_prepend(BrokerState::Delegating(k), e2, rest);
    lemma_budgets(BrokerState::Finished, rest);
    let a3 = run(BrokerState::Finished, rest).1;
    let a2 = seq![Action::Release] + a3;
    let a1 = seq![Action::InstallAndRunNext] + a2;
    lemma_count_prepend(Action::Release, a3, Action::Commit);
    lemma_count_prepend(Action::InstallAndRunNext, a2, Action::Commit);
    lemma_count_prepend(first, a1, Action::Commit);
}

/// When the request's context already carries a resource, the broker only
/// passes the request on and answers with the downstream outcome: it
/// acquires, installs, reclaims, commits and releases nothing.
pub proof fn lemma_reentrant_request_only_forwards(method: Method, rest: Seq<Event>)
    ensures
        ({
            let acts = run(
                BrokerState::Idle,
                seq![Event::Request { method, slot_present: true }] + rest,
            ).1;
            &&& acts.len() > 0
            &&& acts[0] == Action::RunNext
            &&& forall|i: int| 0 < i < acts.len() ==> #[trigger] acts[i] == Action::ReturnOutcome
        }),
{
    let e = Event::Request { method, slot_present: true };
    lemma_run_prepend(BrokerState::Idle, e, rest);
    lemma_forwarding_only_answers(BrokerState::Forwarding, rest);
    let tail = run(BrokerState::Forwarding, rest).1;
    assert forall|i: int| 0 < i < (seq![Action::RunNext] + tail).len() implies #[trigger] (seq![
        Action::RunNext,
    ] + tail)[i] == Action::ReturnOutcome by {
        assert((seq![Action::RunNext] + tail)[i] == tail[i - 1]);
    }
}

/// When another reference to the resource is still alive after an
/// error-free outcome, the broker halts: it neither commits nor releases,
/// and does nothing more, whatever events follow.
pub proof fn lemma_retained_resource_halts(method: Method, rest: Seq<Event>)
    ensures
        ({
            let r = run(
                BrokerState::Idle,
                seq![
                    Event::Request { method, slot_present: false },
                    Event::Acquired,
                    Event::Outcome { has_error: false },
                    Event::Reclaimed { sole_owner: false },
                ] + rest,
            );
            &&& r.0 == BrokerState::Halted
            &&& r.1.len() == 4
            &&& r.1[3] == Action::Halt
            &&& count(r.1, Action::Commit) == 0
            &&& count(r.1, Action::Release) == 0
        }),
{
    let e0 = Event::Request { method, slot_present: false };
    let e1 = Event::Acquired;
    let e2 = Event::Outcome { has_error: false };
    let e3 = Event::Reclaimed { sole_owner: false };
    let r3 = seq![e3] + rest;
    let r2 = seq![e2] + r3;
    let r1 = seq![e1] + r2;
    assert(seq![e0, e1, e2, e3] + rest =~= seq![e0] + r1);
    let k = if read_only(method) {
        ResourceKind::Plain
    } else {
        ResourceKind::Transaction
    };
    let first = if read_only(method) {
        Action::AcquireConnection
    } else {
        Action::BeginTransaction
    };
    lemma_run_prepend(BrokerState::Idle, e0, r1);
    lemma_run_prepend(BrokerState::Acquiring(k), e1, r2);
    lemma_run_prepend(BrokerState::Delegating(k), e2, r3);
    lemma_run_prepend(BrokerState::Reclaiming(k), e3, rest);
    lemma_halted_is_final(rest);
    let a4 = Seq::<Action>::empty();
    let a3 = seq![Action::Halt] + a4;
    let a2 = seq![Action::ReclaimSlot] + a3;
    let a1 = seq![Action::InstallAndRunNext] + a2;
    lemma_count_prepend(Action::Halt, a4, Action::Commit);
    lemma_count_prepend(Action::ReclaimSlot, a3, Action::Commit);
    lemma_count_prepend(Action::InstallAndRunNext, a2, Action::Commit);
    lemma_count_prepend(first, a1, Action::Commit);
    lemma_count_prepend(Action::Halt, a4, Action::Release);
    lemma_count_prepend(Action::ReclaimSlot, a3, Action::Release);
    lemma_count_prepend(Action::InstallAndRunNext, a2, Action::Release);
    lemma_count_prepend(first, a1, Action::Release);
}

} // verus!
