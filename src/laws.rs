use vstd::prelude::*;
use crate::cell::UNSET_PID;
use crate::listener::{
    next_action, next_phase, next_pid, step_write, ActionModel, Event, Phase, Role, WORKER_PID,
};
use crate::reply::reply_line;

verus! {

/// The phase a listener reaches by handling `events` in order.
pub open spec fn run_phase(role: Role, phase: Phase, events: Seq<Event>) -> Phase
    decreases events.len(),
{
    if events.len() == 0 {
        phase
    } else {
        run_phase(role, next_phase(role, phase, events[0]), events.drop_first())
    }
}

/// The shared identifier after a listener has handled `events` in order,
/// starting from `pid`.
pub open spec fn run_pid(role: Role, phase: Phase, pid: i32, events: Seq<Event>) -> i32
    decreases events.len(),
{
    if events.len() == 0 {
        pid
    } else {
        run_pid(
            role,
            next_phase(role, phase, events[0]),
            next_pid(role, phase, pid, events[0]),
            events.drop_first(),
        )
    }
}

/// The identifier written by the last step of `events` that wrote one, or
/// `None` when none did.
pub open spec fn last_write(role: Role, phase: Phase, events: Seq<Event>) -> Option<i32>
    decreases events.len(),
{
    if events.len() == 0 {
        None
    } else {
        match last_write(role, next_phase(role, phase, events[0]), events.drop_first()) {
            Some(later) => Some(later),
            None => step_write(role, phase, events[0]),
        }
    }
}

/// The events of `n` worker connections handled one after another: each is
/// accepted, then its command is launched.
pub open spec fn connections(n: nat) -> Seq<Event>
    decreases n,
{
    if n == 0 {
        Seq::empty()
    } else {
        seq![Event::Accepted, Event::SpawnSucceeded] + connections((n - 1) as nat)
    }
}

/// The cell's value after `writes` were applied in order, starting from
/// `pid`: each write replaces the value.
pub open spec fn after_writes(pid: i32, writes: Seq<i32>) -> i32
    decreases writes.len(),
{
    if writes.len() == 0 {
        pid
    } else {
        after_writes(writes[0], writes.drop_first())
    }
}

/// Last write wins: after any run of events, the shared identifier is the one
/// written by the most recent step that wrote, and the starting one if no step
/// wrote.
pub proof fn lemma_last_write_wins(role: Role, phase: Phase, pid: i32, events: Seq<Event>)
    ensures
        run_pid(role, phase, pid, events) == match last_write(role, phase, events) {
            Some(written) => written,
            None => pid,
        },
    decreases events.len(),
{
    if events.len() > 0 {
        lemma_last_write_wins(
            role,
            next_phase(role, phase, events[0]),
            next_pid(role, phase, pid, events[0]),
            events.drop_first(),
        );
    }
}

/// After `n` worker connections handled one after another by a serving
/// worker, the worker still serves and the shared identifier is the worker's
/// identifier, or unchanged when `n` is zero; a control connection that
/// follows is answered with that identifier.
pub proof fn lemma_connections_then_control(n: nat, pid: i32)
    ensures
        run_phase(Role::Worker, Phase::Serving, connections(n)) == Phase::Serving,
        run_pid(Role::Worker, Phase::Serving, pid, connections(n)) == (if n == 0 {
            pid
        } else {
            WORKER_PID
        }),
        next_action(
            Role::Control,
            Phase::Serving,
            run_pid(Role::Worker, Phase::Serving, pid, connections(n)),
            Event::Accepted,
        ) == ActionModel::Reply(reply_line(if n == 0 { pid as int } else { WORKER_PID as int })),
    decreases n,
{
    if n > 0 {
        lemma_connections_then_control((n - 1) as nat, WORKER_PID);
        let events = connections(n);
        let rest = connections((n - 1) as nat);
        assert(events[0] == Event::Accepted);
        assert(events.drop_first() =~= seq![Event::SpawnSucceeded] + rest);
        let tail = events.drop_first();
        assert(tail[0] == Event::SpawnSucceeded);
        assert(tail.drop_first() =~= rest);
        assert(run_phase(Role::Worker, Phase::Serving, tail) == run_phase(
            Role::Worker,
            Phase::Serving,
            rest,
        ));
        assert(run_pid(Role::Worker, Phase::Serving, pid, tail) == run_pid(
            Role::Worker,
            Phase::Serving,
            WORKER_PID,
            rest,
        ));
    }
}

/// The control endpoint reports the unset identifier exactly when no worker
/// connection has completed its write: for any events handled by a worker
/// from its start, a control connection is answered with the identifier in
/// the cell, and that identifier is the unset one if and only if no write
/// happened.
pub proof fn lemma_unset_until_written(events: Seq<Event>)
    ensures
        next_action(
            Role::Control,
            Phase::Serving,
            run_pid(Role::Worker, Phase::Starting, UNSET_PID, events),
            Event::Accepted,
        ) == ActionModel::Reply(
            reply_line(run_pid(Role::Worker, Phase::Starting, UNSET_PID, events) as int),
        ),
        (run_pid(Role::Worker, Phase::Starting, UNSET_PID, events) == UNSET_PID)
            <==> last_write(Role::Worker, Phase::Starting, events) is None,
{
    lemma_written_is_worker_pid(Role::Worker, Phase::Starting, events);
    lemma_last_write_wins(Role::Worker, Phase::Starting, UNSET_PID, events);
}

/// Every identifier a listener writes is the worker's identifier.
proof fn lemma_written_is_worker_pid(role: Role, phase: Phase, events: Seq<Event>)
    ensures
        last_write(role, phase, events) matches Some(written) ==> written == WORKER_PID,
    decreases events.len(),
{
    if events.len() > 0 {
        lemma_written_is_worker_pid(role, next_phase(role, phase, events[0]), events.drop_first());
    }
}

/// Writes that contend for the cell never mix: whatever order the lock lets
/// them through in, the value left is the last write through, and so one of
/// the values written.
pub proof fn lemma_contended_writes(pid: i32, writes: Seq<i32>, order: Seq<i32>)
    requires
        writes.len() > 0,
        order.to_multiset() == writes.to_multiset(),
    ensures
        after_writes(pid, order) == order.last(),
        writes.contains(after_writes(pid, order)),
{
    lemma_after_writes_is_last(pid, order);
    writes.to_multiset_ensures();
    order.to_multiset_ensures();
    assert(order.len() > 0);
    let last = order.last();
    assert(order[order.len() - 1] == last);
    assert(order.contains(last));
    assert(order.to_multiset().count(last) > 0);
    assert(writes.to_multiset().count(last) > 0);
}

/// A non-empty run of writes leaves its last value.
proof fn lemma_after_writes_is_last(pid: i32, writes: Seq<i32>)
    ensures
        writes.len() > 0 ==> after_writes(pid, writes) == writes.last(),
    decreases writes.len(),
{
    if writes.len() == 1 {
        assert(after_writes(writes[0], writes.drop_first()) == writes[0]);
    } else if writes.len() > 1 {
        lemma_after_writes_is_last(writes[0], writes.drop_first());
        assert(writes.drop_first().last() == writes.last());
    }
}

/// A serving control endpoint stays available whatever happens, a reply that
/// fails because the client went away included, and it never writes the
/// shared identifier.
pub proof fn lemma_control_keeps_serving(events: Seq<Event>)
    ensures
        run_phase(Role::Control, Phase::Serving, events) == Phase::Serving,
        last_write(Role::Control, Phase::Serving, events) is None,
    decreases events.len(),
{
    if events.len() > 0 {
        lemma_control_keeps_serving(events.drop_first());
    }
}

/// A failed listener stays failed, writes nothing and asks for nothing.
pub proof fn lemma_failed_is_final(role: Role, pid: i32, events: Seq<Event>)
    ensures
        run_phase(role, Phase::Failed, events) == Phase::Failed,
        run_pid(role, Phase::Failed, pid, events) == pid,
        forall|i: int|
            0 <= i < events.len() ==> #[trigger] next_action(role, Phase::Failed, pid, events[i])
                == ActionModel::Idle,
    decreases events.len(),
{
    if events.len() > 0 {
        lemma_failed_is_final(role, pid, events.drop_first());
    }
}

} // verus!
