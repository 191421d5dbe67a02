//! What holds of every run of the lifecycle machine, whatever the caller
//! reports and in whatever order.

use crate::error::{ErrorView, TerminationCause};
use crate::lifecycle::{
    initial, ActionView, EventView, HookKind, LifecycleView, Operation, PhaseView,
};
use crate::pid_file::{decoded, encoded, law_round_trip};
use crate::process::{DaemonRole, Platform, Process};
use crate::terminator::PROCESS_TERMINATE;
use vstd::prelude::*;

verus! {

/// A run stays well formed and keeps its operation, its PID file and its
/// own identifier, whatever is reported.
pub proof fn lemma_run_is_stable(start: LifecycleView, events: Seq<EventView>)
    requires
        start.well_formed(),
    ensures
        start.after(events).well_formed(),
        start.after(events).operation == start.operation,
        start.after(events).process == start.process,
        start.after(events).pid_file == start.pid_file,
        start.after(events).directory == start.directory,
    decreases events.len(),
{
    if events.len() > 0 {
        lemma_run_is_stable(start, events.drop_last());
    }
}

/// Reports can be taken in two batches: the state after all of them is
/// the state after the later ones, begun where the earlier ones ended.
pub proof fn lemma_after_in_two(start: LifecycleView, events: Seq<EventView>, k: int)
    requires
        0 <= k <= events.len(),
    ensures
        start.after(events) == start.state_at(events, k).after(events.skip(k)),
    decreases events.len(),
{
    if k == events.len() {
        assert(events.take(k) == events);
        assert(events.skip(k).len() == 0);
    } else {
        lemma_after_in_two(start, events.drop_last(), k);
        assert(events.drop_last().take(k) == events.take(k));
        assert(events.drop_last().skip(k) == events.skip(k).drop_last());
        assert(events.last() == events.skip(k).last());
    }
}

/// A run that begins outside a set of states and ends inside it has
/// entered it with one of the reports.
pub proof fn lemma_entered(
    start: LifecycleView,
    events: Seq<EventView>,
    inside: spec_fn(LifecycleView) -> bool,
) -> (k: int)
    requires
        !inside(start),
        inside(start.after(events)),
    ensures
        0 <= k < events.len(),
        !inside(start.state_at(events, k)),
        inside(start.state_at(events, k).advance(events[k])),
    decreases events.len(),
{
    if events.len() == 0 {
        0
    } else {
        let earlier = events.drop_last();
        assert(events.take(events.len() - 1) == earlier);
        if inside(start.after(earlier)) {
            let k = lemma_entered(start, earlier, inside);
            assert(earlier.take(k) == events.take(k));
            k
        } else {
            events.len() - 1
        }
    }
}

/// A run that is inside a set of states which no report leaves stays
/// inside it.
pub proof fn lemma_stays(
    start: LifecycleView,
    events: Seq<EventView>,
    inside: spec_fn(LifecycleView) -> bool,
)
    requires
        inside(start),
        forall|state: LifecycleView, event: EventView|
            inside(state) ==> inside(#[trigger] state.advance(event)),
    ensures
        inside(start.after(events)),
    decreases events.len(),
{
    if events.len() > 0 {
        lemma_stays(start, events.drop_last(), inside);
    }
}

/// Whether the process `pid` is being terminated in this phase.
pub open spec fn terminating(phase: PhaseView, pid: i32) -> bool {
    ||| phase == (PhaseView::Signalling { pid })
    ||| phase matches PhaseView::Opening { pid: target, access } && target == pid
    ||| phase == (PhaseView::Terminating { pid })
}

/// Whether the machine asks in this state for something that touches the
/// process to be terminated.
pub open spec fn asks_termination(action: ActionView) -> bool {
    action is Signal || action is OpenProcess || action is TerminateProcess
}

/// Whether the machine asks in this state for something that creates or
/// changes the PID file.
pub open spec fn asks_write(action: ActionView) -> bool {
    action is CreateDirectory || action is WriteFile
}

/// Hooks come first: every run begins by asking for the hook that guards
/// its operation, and whenever it asks for anything else, that hook has run
/// to its end before.
pub proof fn law_hook_comes_first(
    operation: Operation,
    process: Process,
    pid_file: Seq<char>,
    directory: Option<Seq<char>>,
    events: Seq<EventView>,
)
    ensures
        ({
            let start = initial(operation, process, pid_file, directory);
            &&& start.action() == (ActionView::RunHook { hook: start.guard() })
            &&& start.after(events).phase !is Hook ==> exists|k: int|
                0 <= k < events.len() && (#[trigger] start.state_at(events, k)).phase is Hook
                    && events[k] is Completed
        }),
{
    let start = initial(operation, process, pid_file, directory);
    if start.after(events).phase !is Hook {
        let inside = |state: LifecycleView| state.phase !is Hook;
        let k = lemma_entered(start, events, inside);
        assert(start.state_at(events, k).phase is Hook);
    }
}

/// The guarding hook runs once: a run that has left it never asks for it
/// again.
pub proof fn law_hook_runs_once(
    operation: Operation,
    process: Process,
    pid_file: Seq<char>,
    directory: Option<Seq<char>>,
    events: Seq<EventView>,
    k: int,
)
    requires
        0 <= k <= events.len(),
        initial(operation, process, pid_file, directory).state_at(events, k).phase !is Hook,
    ensures
        initial(operation, process, pid_file, directory).after(events).phase !is Hook,
{
    let start = initial(operation, process, pid_file, directory);
    let inside = |state: LifecycleView| state.phase !is Hook;
    lemma_after_in_two(start, events, k);
    lemma_stays(start.state_at(events, k), events.skip(k), inside);
}

/// A finished run is finished: no report changes its result.
pub proof fn law_done_is_final(run: LifecycleView, events: Seq<EventView>)
    requires
        run.phase is Done,
    ensures
        run.after(events) == run,
    decreases events.len(),
{
    if events.len() > 0 {
        law_done_is_final(run, events.drop_last());
    }
}

/// A stop touches no process before it has read the PID file: whenever the
/// process `pid` is being terminated, the file was read before and its
/// content named `pid`.
pub proof fn law_stop_reads_before_terminating(
    process: Process,
    pid_file: Seq<char>,
    directory: Option<Seq<char>>,
    events: Seq<EventView>,
    pid: i32,
)
    requires
        terminating(
            initial(Operation::Stop, process, pid_file, directory).after(events).phase,
            pid,
        ),
    ensures
        ({
            let start = initial(Operation::Stop, process, pid_file, directory);
            exists|k: int|
                0 <= k < events.len() && (#[trigger] start.state_at(events, k)).phase
                    is ReadingPidFile && events[k] is Text && decoded(events[k]->text) == Ok::<
                    i32,
                    ErrorView,
                >(pid)
        }),
{
    let start = initial(Operation::Stop, process, pid_file, directory);
    let inside = |state: LifecycleView| terminating(state.phase, pid);
    let k = lemma_entered(start, events, inside);
    lemma_run_is_stable(start, events.take(k));
    assert(start.state_at(events, k).phase is ReadingPidFile);
}

/// A stop without a PID file fails with "not found" and asks for no
/// termination: after its hook it asks to read the file, and when that
/// fails for want of the file it returns the error.
pub proof fn law_stop_without_pid_file(
    process: Process,
    pid_file: Seq<char>,
    directory: Option<Seq<char>>,
    message: Seq<char>,
)
    ensures
        ({
            let start = initial(Operation::Stop, process, pid_file, directory);
            let missing = EventView::Failed { not_found: true, message };
            let reading = start.advance(EventView::Completed);
            &&& start.action() == (ActionView::RunHook { hook: HookKind::Stop })
            &&& reading.action() == (ActionView::ReadFile { path: pid_file })
            &&& reading.advance(missing).action() == (ActionView::Return {
                result: Err(ErrorView::NotFound { message }),
            })
        }),
{
}

/// A stop never asks for a termination unless the PID file was read and
/// named a process: in every run in which no report is a text, no action
/// touches a process.
pub proof fn law_no_termination_without_pid(
    process: Process,
    pid_file: Seq<char>,
    directory: Option<Seq<char>>,
    events: Seq<EventView>,
)
    requires
        forall|k: int| 0 <= k < events.len() ==> !(#[trigger] events[k] is Text),
    ensures
        !asks_termination(
            initial(Operation::Stop, process, pid_file, directory).after(events).action(),
        ),
{
    let start = initial(Operation::Stop, process, pid_file, directory);
    let end = start.after(events);
    if asks_termination(end.action()) {
        let pid = match end.phase {
            PhaseView::Signalling { pid } => pid,
            PhaseView::Opening { pid, access } => pid,
            PhaseView::Terminating { pid } => pid,
            _ => 0,
        };
        assert(terminating(end.phase, pid));
        law_stop_reads_before_terminating(process, pid_file, directory, events, pid);
    }
}

/// A stop succeeds only if the operating system took the termination: the
/// `kill` utility reported success, or the platform terminated the process
/// behind the open handle.
pub proof fn law_stop_succeeds_only_after_termination(
    process: Process,
    pid_file: Seq<char>,
    directory: Option<Seq<char>>,
    events: Seq<EventView>,
)
    requires
        initial(Operation::Stop, process, pid_file, directory).after(events).phase == (
        PhaseView::Done { result: Ok(()) }),
    ensures
        ({
            let start = initial(Operation::Stop, process, pid_file, directory);
            exists|k: int|
                0 <= k < events.len() && {
                    let state = #[trigger] start.state_at(events, k);
                    ||| state.phase is Signalling && events[k] is Exited && events[k]->success
                    ||| state.phase is Terminating && events[k] is Completed
                }
        }),
{
    let start = initial(Operation::Stop, process, pid_file, directory);
    let inside = |state: LifecycleView|
        state.phase == (PhaseView::Done { result: Ok(()) })
            || state.phase == (PhaseView::Closing { result: Ok(()) });
    let k = lemma_entered(start, events, inside);
    lemma_run_is_stable(start, events.take(k));
    let state = start.state_at(events, k);
    assert(state.phase is Signalling || state.phase is Terminating);
}

/// A termination that the operating system rejects is a failure, never a
/// success: once the `kill` utility has reported failure for `pid`, the
/// stop ends with that error, whatever is reported afterwards.
pub proof fn law_rejected_termination_fails(
    process: Process,
    pid_file: Seq<char>,
    directory: Option<Seq<char>>,
    events: Seq<EventView>,
    k: int,
)
    requires
        0 <= k < events.len(),
        initial(Operation::Stop, process, pid_file, directory).state_at(events, k).phase
            is Signalling,
        events[k] is Exited,
        !events[k]->success,
    ensures
        ({
            let start = initial(Operation::Stop, process, pid_file, directory);
            start.after(events).phase == (PhaseView::Done {
                result: Err(
                    ErrorView::Termination {
                        pid: start.state_at(events, k).phase->Signalling_pid,
                        cause: TerminationCause::Rejected { stderr: events[k]->stderr },
                    },
                ),
            })
        }),
{
    let start = initial(Operation::Stop, process, pid_file, directory);
    let state = start.state_at(events, k);
    lemma_after_in_two(start, events, k + 1);
    assert(events.take(k + 1).drop_last() == events.take(k));
    assert(events.take(k + 1).last() == events[k]);
    assert(start.state_at(events, k + 1) == state.advance(events[k]));
    law_done_is_final(start.state_at(events, k + 1), events.skip(k + 1));
}

/// A handle that was opened is released before the stop returns: a run
/// that has held a handle and is over has asked to close it and got an
/// answer.
pub proof fn law_handle_is_released(
    process: Process,
    pid_file: Seq<char>,
    directory: Option<Seq<char>>,
    events: Seq<EventView>,
    j: int,
)
    requires
        0 <= j <= events.len(),
        initial(Operation::Stop, process, pid_file, directory).state_at(events, j).phase
            is Terminating,
        initial(Operation::Stop, process, pid_file, directory).after(events).phase is Done,
    ensures
        ({
            let start = initial(Operation::Stop, process, pid_file, directory);
            exists|k: int|
                j < k < events.len() && {
                    let state = #[trigger] start.state_at(events, k);
                    &&& state.action() == ActionView::CloseHandle
                    &&& events[k] is Completed || events[k] is Refused
                    &&& state.advance(events[k]).phase is Done
                }
        }),
{
    let start = initial(Operation::Stop, process, pid_file, directory);
    let held = start.state_at(events, j);
    let rest = events.skip(j);
    lemma_after_in_two(start, events, j);
    let over = |state: LifecycleView| state.phase is Done;
    let i = lemma_entered(held, rest, over);
    let holding = |state: LifecycleView|
        state.phase is Terminating || state.phase is Closing || state.phase is Done;
    lemma_stays(held, rest.take(i), holding);
    let k = j + i;
    lemma_after_in_two(start, events.take(k), j);
    assert(events.take(k).take(j) == events.take(j));
    assert(events.take(k).skip(j) == rest.take(i));
    assert(start.state_at(events, k) == held.state_at(rest, i));
    assert(events[k] == rest[i]);
    assert(start.state_at(events, k).phase is Closing);
}

/// The launcher of a daemon start writes no PID file: it asks neither for
/// the directory nor for the file, whatever is reported, so a spawn that
/// fails leaves no PID file behind.
pub proof fn law_launcher_never_writes(
    process: Process,
    pid_file: Seq<char>,
    directory: Option<Seq<char>>,
    events: Seq<EventView>,
)
    requires
        process.role == DaemonRole::Launcher,
    ensures
        !asks_write(
            initial(Operation::StartDaemon, process, pid_file, directory).after(events).action(),
        ),
{
    let start = initial(Operation::StartDaemon, process, pid_file, directory);
    lemma_run_is_stable(start, events);
}

/// The PID file holds the identifier of the process that serves: whenever
/// a run asks to write a file, it is the PID file with the decimal text of
/// the own identifier.
pub proof fn law_writes_own_pid(
    operation: Operation,
    process: Process,
    pid_file: Seq<char>,
    directory: Option<Seq<char>>,
    events: Seq<EventView>,
)
    requires
        initial(operation, process, pid_file, directory).after(events).action() is WriteFile,
    ensures
        initial(operation, process, pid_file, directory).after(events).action() == (
        ActionView::WriteFile { path: pid_file, content: encoded(process.pid) }),
{
    let start = initial(operation, process, pid_file, directory);
    lemma_run_is_stable(start, events);
}

/// The server body runs only once the PID file is written: whenever a run
/// asks for the server body, in the foreground or on an event loop of its
/// own, the writing of the PID file was reported as done before.
pub proof fn law_serves_after_recording(
    operation: Operation,
    process: Process,
    pid_file: Seq<char>,
    directory: Option<Seq<char>>,
    events: Seq<EventView>,
)
    requires
        ({
            let end = initial(operation, process, pid_file, directory).after(events);
            end.phase is Serving || end.phase is ServingOnRuntime
        }),
    ensures
        ({
            let start = initial(operation, process, pid_file, directory);
            let write = ActionView::WriteFile { path: pid_file, content: encoded(process.pid) };
            exists|k: int|
                0 <= k < events.len() && (#[trigger] start.state_at(events, k)).action() == write
                    && events[k] is Completed
        }),
{
    let start = initial(operation, process, pid_file, directory);
    let inside = |state: LifecycleView|
        state.phase is Serving || state.phase is ServingOnRuntime;
    let k = lemma_entered(start, events, inside);
    lemma_run_is_stable(start, events.take(k));
    assert(start.state_at(events, k).phase is WritingPidFile);
}

/// A foreground start hands no error back: where it ends, it ends well,
/// also where the PID file could not be written.
pub proof fn law_foreground_start_returns_no_error(
    process: Process,
    pid_file: Seq<char>,
    directory: Option<Seq<char>>,
    events: Seq<EventView>,
)
    requires
        initial(Operation::Start, process, pid_file, directory).after(events).phase is Done,
    ensures
        initial(Operation::Start, process, pid_file, directory).after(events).action() == (
        ActionView::Return { result: Ok(()) }),
{
    let start = initial(Operation::Start, process, pid_file, directory);
    let over = |state: LifecycleView| state.phase is Done;
    let k = lemma_entered(start, events, over);
    lemma_run_is_stable(start, events.take(k));
    let entered = start.state_at(events, k).advance(events[k]);
    lemma_after_in_two(start, events, k + 1);
    assert(events.take(k + 1).drop_last() == events.take(k));
    assert(events.take(k + 1).last() == events[k]);
    assert(start.state_at(events, k + 1) == entered);
    law_done_is_final(entered, events.skip(k + 1));
}

/// A foreground start that cannot write the PID file does not serve: once
/// it prints its diagnostic, it never asks for the server body.
pub proof fn law_failed_start_does_not_serve(
    process: Process,
    pid_file: Seq<char>,
    directory: Option<Seq<char>>,
    events: Seq<EventView>,
    k: int,
)
    requires
        0 <= k <= events.len(),
        initial(Operation::Start, process, pid_file, directory).state_at(events, k).phase
            is Reporting,
    ensures
        initial(Operation::Start, process, pid_file, directory).after(events).action() != (
        ActionView::RunHook { hook: HookKind::Server }),
{
    let start = initial(Operation::Start, process, pid_file, directory);
    let printing = |state: LifecycleView| state.phase is Reporting || state.phase is Done;
    lemma_after_in_two(start, events, k);
    lemma_stays(start.state_at(events, k), events.skip(k), printing);
}

/// The round trip through the PID file: a stop that reads what a start
/// wrote goes on to terminate exactly the process that wrote it, for every
/// identifier that a signed 32-bit integer can hold.
pub proof fn law_stop_targets_recorded_pid(
    writer: Process,
    stopper: Process,
    pid_file: Seq<char>,
    directory: Option<Seq<char>>,
)
    requires
        writer.pid <= i32::MAX,
    ensures
        ({
            let written = initial(Operation::Start, writer, pid_file, directory).after(
                if directory is Some {
                    seq![EventView::Completed, EventView::Completed]
                } else {
                    seq![EventView::Completed]
                },
            ).action();
            let stop = initial(Operation::Stop, stopper, pid_file, None);
            &&& written is WriteFile
            &&& written->WriteFile_path == pid_file
            &&& stop.advance(EventView::Completed).action() == (ActionView::ReadFile {
                path: pid_file,
            })
            &&& stop.advance(EventView::Completed).advance(
                EventView::Text { text: written->content },
            ).phase == match stopper.platform {
                Platform::Posix => PhaseView::Signalling { pid: writer.pid as i32 },
                Platform::Windows => PhaseView::Opening {
                    pid: writer.pid as i32,
                    access: PROCESS_TERMINATE,
                },
            }
        }),
{
    law_round_trip(writer.pid);
    let start = initial(Operation::Start, writer, pid_file, directory);
    let two = seq![EventView::Completed, EventView::Completed];
    let one = seq![EventView::Completed];
    assert(one.drop_last() == Seq::<EventView>::empty());
    assert(two.drop_last() == one);
    assert(start.after(one.drop_last()) == start);
    assert(start.after(one) == start.advance(EventView::Completed));
    assert(start.after(two) == start.advance(EventView::Completed).advance(EventView::Completed));
}

} // verus!
