//! Histories of the control plane: remote commands interleaved with UI ticks,
//! and what holds of every such history.

use crate::rpc::{RemoteCommand, TickOutcome, WindowController, WindowTransition};
use vstd::prelude::*;

verus! {

/// One thing that happens to the control plane.
#[derive(Debug, Clone, Copy, PartialEq, Eq, Structural)]
pub enum ControlEvent {
    /// A handler ran a remote command.
    Command(RemoteCommand),
    /// The UI loop consumed the flags.
    Tick,
}

/// The state after one event.
pub open spec fn step(c: WindowController, e: ControlEvent) -> WindowController {
    match e {
        ControlEvent::Command(cmd) => c.after_command(cmd),
        ControlEvent::Tick => c.after_tick(),
    }
}

/// The transition that one event hands to the windowing layer, if any.
pub open spec fn emitted(c: WindowController, e: ControlEvent) -> Option<WindowTransition> {
    match e {
        ControlEvent::Tick => match c.tick_outcome() {
            TickOutcome::Apply(t) => Some(t),
            _ => None,
        },
        ControlEvent::Command(_) => None,
    }
}

/// The state after a whole history, oldest event first.
pub open spec fn run(c: WindowController, trace: Seq<ControlEvent>) -> WindowController
    decreases trace.len(),
{
    if trace.len() == 0 {
        c
    } else {
        step(run(c, trace.drop_last()), trace.last())
    }
}

/// The transitions that a history hands to the windowing layer, in order.
pub open spec fn applied(c: WindowController, trace: Seq<ControlEvent>) -> Seq<WindowTransition>
    decreases trace.len(),
{
    if trace.len() == 0 {
        Seq::empty()
    } else {
        let before = applied(c, trace.drop_last());
        match emitted(run(c, trace.drop_last()), trace.last()) {
            Some(t) => before.push(t),
            None => before,
        }
    }
}

/// No event of the history asks the process to terminate.
pub open spec fn quit_free(trace: Seq<ControlEvent>) -> bool {
    forall|i: int|
        0 <= i < trace.len() ==> #[trigger] trace[i] != ControlEvent::Command(RemoteCommand::Quit)
}

/// Some event of the history asks for a window transition.
pub open spec fn asks_transition(trace: Seq<ControlEvent>) -> bool {
    exists|i: int|
        0 <= i < trace.len() && (#[trigger] trace[i] matches ControlEvent::Command(cmd)
            && cmd.requests_transition())
}

/// The visibility that the commands of a history set, one after the other,
/// starting from `visible`; ticks play no part in it.
pub open spec fn last_requested(visible: bool, trace: Seq<ControlEvent>) -> bool
    decreases trace.len(),
{
    if trace.len() == 0 {
        visible
    } else {
        let before = last_requested(visible, trace.drop_last());
        match trace.last() {
            ControlEvent::Command(cmd) => cmd.visible_after(before),
            ControlEvent::Tick => before,
        }
    }
}

/// Running a history extended by one event is one step after running the
/// history, and hands out what that step emits on top of what came before.
pub proof fn lemma_run_push(c: WindowController, trace: Seq<ControlEvent>, e: ControlEvent)
    ensures
        run(c, trace.push(e)) == step(run(c, trace), e),
        applied(c, trace.push(e)) == match emitted(run(c, trace), e) {
            Some(t) => applied(c, trace).push(t),
            None => applied(c, trace),
        },
        last_requested(c.visible, trace.push(e)) == match e {
            ControlEvent::Command(cmd) => cmd.visible_after(last_requested(c.visible, trace)),
            ControlEvent::Tick => last_requested(c.visible, trace),
        },
{
    assert(trace.push(e).drop_last() =~= trace);
    assert(trace.push(e).last() == e);
}

/// Without a quit command the quit flag stays clear.
pub proof fn lemma_quit_free_never_quits(c: WindowController, trace: Seq<ControlEvent>)
    requires
        !c.quit_requested,
        quit_free(trace),
    ensures
        !run(c, trace).quit_requested,
    decreases trace.len(),
{
    if trace.len() > 0 {
        let head = trace.drop_last();
        assert forall|i: int| 0 <= i < head.len() implies #[trigger] head[i]
            != ControlEvent::Command(RemoteCommand::Quit) by {
            assert(head[i] == trace[i]);
        }
        lemma_quit_free_never_quits(c, head);
        assert(trace[trace.len() - 1] != ControlEvent::Command(RemoteCommand::Quit));
    }
}

/// The desired visibility is always the one that the commands set last:
/// ticks never change it.
pub proof fn lemma_visible_is_last_requested(c: WindowController, trace: Seq<ControlEvent>)
    ensures
        run(c, trace).visible == last_requested(c.visible, trace),
    decreases trace.len(),
{
    if trace.len() > 0 {
        lemma_visible_is_last_requested(c, trace.drop_last());
    }
}

/// Every tick clears the transition request: after a history that ends in a
/// tick, and holds no quit, nothing is pending.
pub proof fn lemma_tick_clears_request(c: WindowController, trace: Seq<ControlEvent>)
    requires
        !c.quit_requested,
        quit_free(trace),
    ensures
        !run(c, trace.push(ControlEvent::Tick)).toggle_requested,
{
    lemma_quit_free_never_quits(c, trace);
    lemma_run_push(c, trace, ControlEvent::Tick);
}

/// A request is applied exactly once. The first tick after a command that
/// asks for a transition hands out one transition, toward the visibility that
/// the command left; a second tick right after it hands out nothing.
pub proof fn lemma_request_applied_exactly_once(
    c: WindowController,
    trace: Seq<ControlEvent>,
    cmd: RemoteCommand,
)
    requires
        !c.quit_requested,
        quit_free(trace),
        cmd.requests_transition(),
    ensures
        ({
            let asked = trace.push(ControlEvent::Command(cmd));
            let ticked = asked.push(ControlEvent::Tick);
            let again = ticked.push(ControlEvent::Tick);
            &&& run(c, asked).toggle_requested
            &&& applied(c, asked) == applied(c, trace)
            &&& applied(c, ticked) == applied(c, trace).push(
                WindowTransition::toward(cmd.visible_after(run(c, trace).visible)),
            )
            &&& applied(c, again) == applied(c, ticked)
            &&& run(c, again) == run(c, ticked)
        }),
{
    let asked = trace.push(ControlEvent::Command(cmd));
    let ticked = asked.push(ControlEvent::Tick);
    lemma_quit_free_never_quits(c, trace);
    lemma_run_push(c, trace, ControlEvent::Command(cmd));
    lemma_run_push(c, asked, ControlEvent::Tick);
    lemma_run_push(c, ticked, ControlEvent::Tick);
}

/// A tick on a control plane with nothing pending hands out nothing and
/// changes nothing: no transition is applied that nobody asked for.
pub proof fn lemma_idle_tick_is_silent(c: WindowController, trace: Seq<ControlEvent>)
    requires
        !run(c, trace).toggle_requested,
        !run(c, trace).quit_requested,
    ensures
        run(c, trace.push(ControlEvent::Tick)) == run(c, trace),
        applied(c, trace.push(ControlEvent::Tick)) == applied(c, trace),
{
    lemma_run_push(c, trace, ControlEvent::Tick);
}

proof fn lemma_settled_matches_visible(c: WindowController, trace: Seq<ControlEvent>)
    requires
        !c.quit_requested,
        quit_free(trace),
        c.toggle_requested || asks_transition(trace),
        !run(c, trace).toggle_requested,
    ensures
        applied(c, trace).len() > 0,
        applied(c, trace).last() == WindowTransition::toward(run(c, trace).visible),
    decreases trace.len(),
{
    if trace.len() > 0 {
        let head = trace.drop_last();
        let e = trace.last();
        assert forall|i: int| 0 <= i < head.len() implies #[trigger] head[i]
            != ControlEvent::Command(RemoteCommand::Quit) by {
            assert(head[i] == trace[i]);
        }
        lemma_quit_free_never_quits(c, head);
        let before = run(c, head);
        match e {
            ControlEvent::Tick => {
                if !before.toggle_requested {
                    if !c.toggle_requested {
                        let i = choose|i: int|
                            0 <= i < trace.len() && (#[trigger] trace[i] matches ControlEvent::Command(
                                cmd,
                            ) && cmd.requests_transition());
                        assert(i < head.len());
                        assert(head[i] == trace[i]);
                    }
                    lemma_settled_matches_visible(c, head);
                }
            },
            ControlEvent::Command(cmd) => {
                assert(trace[trace.len() - 1] != ControlEvent::Command(RemoteCommand::Quit));
                if !cmd.requests_transition() {
                    if !c.toggle_requested {
                        let i = choose|i: int|
                            0 <= i < trace.len() && (#[trigger] trace[i] matches ControlEvent::Command(
                                cmd,
                            ) && cmd.requests_transition());
                        assert(i < head.len());
                        assert(head[i] == trace[i]);
                    }
                    lemma_settled_matches_visible(c, head);
                }
            },
        }
    }
}

/// The last transition applied is the one that was asked for last. After any
/// history without quit in which a transition was asked for, followed by a
/// tick, the most recent transition handed to the windowing layer goes toward
/// the visibility that the last show, hide or toggle before that tick set.
pub proof fn lemma_last_applied_is_last_requested(c: WindowController, trace: Seq<ControlEvent>)
    requires
        !c.quit_requested,
        quit_free(trace),
        c.toggle_requested || asks_transition(trace),
    ensures
        ({
            let ticked = trace.push(ControlEvent::Tick);
            &&& applied(c, ticked).len() > 0
            &&& applied(c, ticked).last() == WindowTransition::toward(
                last_requested(c.visible, trace),
            )
        }),
{
    let ticked = trace.push(ControlEvent::Tick);
    lemma_tick_clears_request(c, trace);
    lemma_run_push(c, trace, ControlEvent::Tick);
    lemma_visible_is_last_requested(c, trace);
    assert forall|i: int| 0 <= i < ticked.len() implies #[trigger] ticked[i]
        != ControlEvent::Command(RemoteCommand::Quit) by {
        if i < trace.len() {
            assert(ticked[i] == trace[i]);
        }
    }
    if !c.toggle_requested {
        let i = choose|i: int|
            0 <= i < trace.len() && (#[trigger] trace[i] matches ControlEvent::Command(cmd)
                && cmd.requests_transition());
        assert(ticked[i] == trace[i]);
    }
    lemma_settled_matches_visible(c, ticked);
}

/// Toggling replies with the negated visibility, and a state query that
/// follows replies with the same value.
pub proof fn lemma_toggle_then_query(c: WindowController)
    ensures
        c.reply_to(RemoteCommand::ToggleWindow) == (crate::rpc::RemoteReply::WindowState {
            visible: !c.visible,
        }),
        c.after_command(RemoteCommand::ToggleWindow).reply_to(RemoteCommand::GetWindowState)
            == c.reply_to(RemoteCommand::ToggleWindow),
{
}

} // verus!
