//! What holds of the supervisor over whole runs: however start, stop and
//! shutdown steps follow one another, at most one process is tracked, no
//! handle is lost or replaced, and the status query agrees with the answers
//! given.

use crate::supervisor::{
    already_running_text, command_failure_text, kill_failure_text, not_running_text, sidecar_text,
    spawn_failure_text, start_action, start_slot, started_text, status, stop_action, stop_slot,
    stopped_text, StartActionView, StartEventView, StopActionView, StopEventView,
    GRACE_PERIOD_MILLIS,
};
use vstd::multiset::*;
use vstd::prelude::*;

verus! {

/// One step on the supervisor.
pub enum Call<H> {
    Start(StartEventView<H>),
    Stop(StopEventView),
    Shutdown,
}

/// The slot after one step.
pub open spec fn slot_after_call<H>(held: Option<H>, call: Call<H>) -> Option<H> {
    match call {
        Call::Start(event) => start_slot(held, event),
        Call::Stop(event) => stop_slot(held, event),
        Call::Shutdown => None,
    }
}

/// The slot after a run of steps, first to last.
pub open spec fn slot_after<H>(held: Option<H>, calls: Seq<Call<H>>) -> Option<H>
    decreases calls.len(),
{
    if calls.len() == 0 {
        held
    } else {
        slot_after_call(slot_after(held, calls.drop_last()), calls.last())
    }
}

/// The handles in a slot, as a multiset: one or none.
pub open spec fn holding<H>(held: Option<H>) -> Multiset<H> {
    match held {
        Some(handle) => Multiset::singleton(handle),
        None => Multiset::empty(),
    }
}

/// The handle that a step gives to the supervisor.
pub open spec fn taken_in<H>(call: Call<H>) -> Multiset<H> {
    match call {
        Call::Start(StartEventView::Spawned(handle)) => Multiset::singleton(handle),
        _ => Multiset::empty(),
    }
}

/// The handle that a step gives back to the caller: the one to discard, the
/// one to kill, or the one that a shutdown takes out.
pub open spec fn handed_back<H>(held: Option<H>, call: Call<H>) -> Multiset<H> {
    match call {
        Call::Start(event) => match start_action(held, event) {
            StartActionView::Discard { handle, .. } => Multiset::singleton(handle),
            _ => Multiset::empty(),
        },
        Call::Stop(event) => match stop_action(held, event) {
            StopActionView::Kill(handle) => Multiset::singleton(handle),
            _ => Multiset::empty(),
        },
        Call::Shutdown => holding(held),
    }
}

/// All handles that a run gives to the supervisor.
pub open spec fn all_taken_in<H>(calls: Seq<Call<H>>) -> Multiset<H>
    decreases calls.len(),
{
    if calls.len() == 0 {
        Multiset::empty()
    } else {
        all_taken_in(calls.drop_last()).add(taken_in(calls.last()))
    }
}

/// All handles that a run gives back to the caller.
pub open spec fn all_handed_back<H>(held: Option<H>, calls: Seq<Call<H>>) -> Multiset<H>
    decreases calls.len(),
{
    if calls.len() == 0 {
        Multiset::empty()
    } else {
        all_handed_back(held, calls.drop_last()).add(
            handed_back(slot_after(held, calls.drop_last()), calls.last()),
        )
    }
}

/// Whether `text` ends with `tail`.
pub open spec fn ends_with(text: Seq<char>, tail: Seq<char>) -> bool {
    &&& tail.len() <= text.len()
    &&& text.subrange(text.len() - tail.len(), text.len() as int) == tail
}

/// Whatever steps are taken, and in whatever order, the supervisor tracks
/// no process or one.
pub proof fn lemma_at_most_one_tracked<H>(held: Option<H>, calls: Seq<Call<H>>)
    ensures
        holding(slot_after(held, calls)).len() <= 1,
{
    broadcast use group_multiset_axioms;

}

/// No handle is lost or replaced. Over any run, the handles that the
/// supervisor held at first or was given are exactly those that it gave back
/// for disposal together with the one that it still holds.
pub proof fn lemma_no_handle_lost<H>(held: Option<H>, calls: Seq<Call<H>>)
    ensures
        holding(held).add(all_taken_in(calls)) == all_handed_back(held, calls).add(
            holding(slot_after(held, calls)),
        ),
    decreases calls.len(),
{
    broadcast use group_multiset_axioms;

    if calls.len() == 0 {
        assert(holding(held).add(Multiset::empty()) =~= Multiset::empty().add(holding(held)));
    } else {
        let earlier = calls.drop_last();
        let before = slot_after(held, earlier);
        lemma_no_handle_lost(held, earlier);
        lemma_step_keeps_handles(before, calls.last());
        assert(holding(held).add(all_taken_in(calls)) =~= all_handed_back(held, calls).add(
            holding(slot_after(held, calls)),
        ));
    }
}

/// One step neither loses nor replaces a handle: what was held or given
/// is what is held afterwards or given back.
pub proof fn lemma_step_keeps_handles<H>(held: Option<H>, call: Call<H>)
    ensures
        holding(held).add(taken_in(call)) == handed_back(held, call).add(
            holding(slot_after_call(held, call)),
        ),
{
    broadcast use group_multiset_axioms;

    assert(holding(held).add(taken_in(call)) =~= handed_back(held, call).add(
        holding(slot_after_call(held, call)),
    ));
}

/// A start request while a backend is tracked is answered at once; the slot
/// keeps its handle and no spawn is asked for. A stop request while nothing
/// is tracked is answered at once; no kill is asked for.
pub proof fn lemma_idle_requests_change_nothing<H>(held: Option<H>)
    ensures
        status(held) ==> start_slot(held, StartEventView::Requested) == held && start_action(
            held,
            StartEventView::Requested,
        ) == StartActionView::<H>::Reply(Ok(already_running_text())),
        !status(held) ==> stop_slot(held, StopEventView::Requested) == held && stop_action(
            held,
            StopEventView::Requested,
        ) == StopActionView::<H>::Reply(Ok(not_running_text())),
{
}

/// Whether a start step ends its conversation with a success.
pub open spec fn start_succeeds<H>(action: StartActionView<H>) -> bool {
    match action {
        StartActionView::Reply(answer) => answer is Ok,
        StartActionView::Spawn { .. } => false,
        StartActionView::Watch { .. } => true,
        StartActionView::Discard { .. } => true,
    }
}

/// Right after a start that succeeded, the status query answers true.
pub proof fn lemma_status_after_start<H>(held: Option<H>, event: StartEventView<H>)
    requires
        start_succeeds(start_action(held, event)),
    ensures
        status(start_slot(held, event)),
{
}

/// A start that failed leaves the slot as it found it.
pub proof fn lemma_failed_start_keeps_slot<H>(held: Option<H>, event: StartEventView<H>)
    requires
        start_action(held, event) matches StartActionView::Reply(answer) && answer is Err,
    ensures
        start_slot(held, event) == held,
{
}

/// From the stop request on, through the report of the kill, the status
/// query answers false: the handle leaves the slot before the kill is tried,
/// so the answer does not depend on how the kill went.
pub proof fn lemma_status_after_stop<H>(held: Option<H>, report: StopEventView)
    ensures
        !status(stop_slot(held, StopEventView::Requested)),
        !status(stop_slot(stop_slot(held, StopEventView::Requested), report)),
{
}

/// One full cycle, for any handle. From an empty slot a start asks for the
/// spawn and, once the process runs, tracks it and answers with the started
/// message; a second start is answered with the no-op message; a stop asks
/// for the kill of that same process and, once it is killed, answers with
/// the stopped message; a second stop is answered with the no-op message.
/// The status query answers true exactly between the spawn and the stop.
pub proof fn lemma_start_stop_cycle<H>(handle: H)
    ensures
        start_action(None::<H>, StartEventView::Requested) == (StartActionView::<H>::Spawn {
            executable: sidecar_text(),
        }),
        !status(start_slot(None::<H>, StartEventView::Requested)),
        start_action(None::<H>, StartEventView::Spawned(handle)) == (StartActionView::<H>::Watch {
            grace_millis: GRACE_PERIOD_MILLIS,
            reply: started_text(),
        }),
        start_slot(None::<H>, StartEventView::Spawned(handle)) == Some(handle),
        start_action(Some(handle), StartEventView::Requested) == StartActionView::<H>::Reply(
            Ok(already_running_text()),
        ),
        start_slot(Some(handle), StartEventView::Requested) == Some(handle),
        stop_action(Some(handle), StopEventView::Requested) == StopActionView::Kill(handle),
        stop_slot(Some(handle), StopEventView::Requested) == None::<H>,
        stop_action(None::<H>, StopEventView::Killed) == StopActionView::<H>::Reply(
            Ok(stopped_text()),
        ),
        stop_slot(None::<H>, StopEventView::Killed) == None::<H>,
        stop_action(None::<H>, StopEventView::Requested) == StopActionView::<H>::Reply(
            Ok(not_running_text()),
        ),
{
}

/// A spawn that fails, for any cause. The start is answered with an error
/// that ends with the cause, and the slot stays empty.
pub proof fn lemma_spawn_failure<H>(cause: Seq<char>)
    ensures
        start_action(None::<H>, StartEventView::SpawnFailed(cause)) == StartActionView::<H>::Reply(
            Err(spawn_failure_text(cause)),
        ),
        ends_with(spawn_failure_text(cause), cause),
        !status(start_slot(None::<H>, StartEventView::SpawnFailed(cause))),
{
    lemma_error_texts_end_with_cause(cause);
}

/// Every error text ends with the cause that was reported.
pub proof fn lemma_error_texts_end_with_cause(cause: Seq<char>)
    ensures
        ends_with(command_failure_text(cause), cause),
        ends_with(spawn_failure_text(cause), cause),
        ends_with(kill_failure_text(cause), cause),
{
    lemma_tail_of_concatenation("Failed to create sidecar command: "@, cause);
    lemma_tail_of_concatenation("Failed to spawn backend: "@, cause);
    lemma_tail_of_concatenation("Failed to kill backend: "@, cause);
}

/// A concatenation ends with its second part.
proof fn lemma_tail_of_concatenation(head: Seq<char>, tail: Seq<char>)
    ensures
        ends_with(head + tail, tail),
{
    let text = head + tail;
    assert(text.subrange(text.len() - tail.len(), text.len() as int) =~= tail);
}

} // verus!
