use vstd::prelude::*;
use crate::menu::{LogsContextMenuButton, MenuItem, button_command, command_label, is_visibility_toggle, menu_for};

verus! {

/// Whether the process currently owns a visible console.
#[derive(Debug, Clone, Copy, PartialEq, Eq, Structural)]
pub enum ConsoleState {
    Attached,
    Detached,
}

/// One of the console verbs that a visibility change is made of.
#[derive(Debug, Clone, Copy, PartialEq, Eq, Structural)]
pub enum ConsoleStep {
    /// Free the console the process holds, if any.
    Detach,
    /// Allocate a new console window.
    Create,
    /// Attach to the console of the parent process, if there is one.
    AttachParent,
    /// Install the interrupt handler on the console just obtained.
    AttachCtrlCHandler,
    /// Copy the log sink into the new console.
    ReplayLogs,
}

/// A visibility change in progress: which toggle was chosen and the step
/// that is to be performed next.
#[derive(Debug, Clone, Copy, PartialEq, Eq, Structural)]
pub struct ConsoleOp {
    pub command: LogsContextMenuButton,
    pub step: ConsoleStep,
}

/// What follows a performed step.
#[derive(Debug, Clone, Copy, PartialEq, Eq, Structural)]
pub enum Progress {
    /// Perform this operation next.
    Next(ConsoleOp),
    /// The visibility change is complete.
    Done,
    /// The change stopped at this step; the error is to be reported.
    Failed(ConsoleStep),
}

pub open spec fn initial_state(inherited: bool) -> ConsoleState {
    if inherited {
        ConsoleState::Attached
    } else {
        ConsoleState::Detached
    }
}

/// The toggle the menu offers in a state: a visible console can be hidden,
/// a missing one shown.
pub open spec fn button_for(s: ConsoleState) -> LogsContextMenuButton {
    match s {
        ConsoleState::Attached => LogsContextMenuButton::HideLogs,
        ConsoleState::Detached => LogsContextMenuButton::ShowLogs,
    }
}

/// Every visibility change starts by detaching: at most one console can
/// exist per process, and a second creation would be silently ignored.
pub open spec fn first_op(command: LogsContextMenuButton) -> ConsoleOp {
    ConsoleOp { command, step: ConsoleStep::Detach }
}

/// The step after `op` was performed with outcome `ok`, in state `s`.
///
/// Showing: detach (outcome ignored), create, install the interrupt
/// handler, replay the log sink. Hiding: detach (an error only while a
/// console is held), attach to the parent console (its failure just leaves
/// the process without one), install the interrupt handler there.
pub open spec fn progress_after(op: ConsoleOp, ok: bool, s: ConsoleState) -> Progress {
    match op.command {
        LogsContextMenuButton::ShowLogs => match op.step {
            ConsoleStep::Detach => Progress::Next(
                ConsoleOp { command: op.command, step: ConsoleStep::Create },
            ),
            ConsoleStep::Create => if ok {
                Progress::Next(ConsoleOp { command: op.command, step: ConsoleStep::AttachCtrlCHandler })
            } else {
                Progress::Failed(ConsoleStep::Create)
            },
            ConsoleStep::AttachCtrlCHandler => if ok {
                Progress::Next(ConsoleOp { command: op.command, step: ConsoleStep::ReplayLogs })
            } else {
                Progress::Failed(ConsoleStep::AttachCtrlCHandler)
            },
            ConsoleStep::ReplayLogs => if ok {
                Progress::Done
            } else {
                Progress::Failed(ConsoleStep::ReplayLogs)
            },
            ConsoleStep::AttachParent => Progress::Done,
        },
        LogsContextMenuButton::HideLogs => match op.step {
            ConsoleStep::Detach => if ok || s == ConsoleState::Detached {
                Progress::Next(ConsoleOp { command: op.command, step: ConsoleStep::AttachParent })
            } else {
                Progress::Failed(ConsoleStep::Detach)
            },
            ConsoleStep::AttachParent => if ok {
                Progress::Next(ConsoleOp { command: op.command, step: ConsoleStep::AttachCtrlCHandler })
            } else {
                Progress::Done
            },
            ConsoleStep::AttachCtrlCHandler => if ok {
                Progress::Done
            } else {
                Progress::Failed(ConsoleStep::AttachCtrlCHandler)
            },
            _ => Progress::Done,
        },
    }
}

/// The console state after `op` was performed with outcome `ok`: it changes
/// only once the verb that makes the change has succeeded.
pub open spec fn state_after(op: ConsoleOp, ok: bool, s: ConsoleState) -> ConsoleState {
    if ok && op.command == LogsContextMenuButton::ShowLogs && op.step == ConsoleStep::Create {
        ConsoleState::Attached
    } else if ok && op.command == LogsContextMenuButton::HideLogs && op.step == ConsoleStep::Detach {
        ConsoleState::Detached
    } else {
        s
    }
}

/// Runs a visibility change from `op` in state `s`, feeding the outcomes of
/// the performed steps in order; gives the final state and what follows.
pub open spec fn run(op: ConsoleOp, s: ConsoleState, outcomes: Seq<bool>) -> (ConsoleState, Progress)
    decreases outcomes.len(),
{
    if outcomes.len() == 0 {
        (s, Progress::Next(op))
    } else {
        let p = progress_after(op, outcomes[0], s);
        let s2 = state_after(op, outcomes[0], s);
        match p {
            Progress::Next(next) => run(next, s2, outcomes.drop_first()),
            _ => (s2, p),
        }
    }
}

/// Detaching while already detached is never an error and never changes the
/// console state, whichever change it starts and whatever the outcome. A
/// whole "Hide Logs" change made while detached therefore ends without
/// failure and detached, unless the interrupt handler cannot be installed
/// on a parent console that was just attached.
pub proof fn lemma_detach_when_detached(command: LogsContextMenuButton, ok: bool, outcomes: Seq<bool>)
    ensures
        state_after(first_op(command), ok, ConsoleState::Detached) == ConsoleState::Detached,
        !(progress_after(first_op(command), ok, ConsoleState::Detached) is Failed),
        outcomes.len() >= 3 && (outcomes[1] ==> outcomes[2]) ==> run(
            first_op(LogsContextMenuButton::HideLogs),
            ConsoleState::Detached,
            outcomes,
        ) == (ConsoleState::Detached, Progress::Done),
{
    if outcomes.len() >= 3 {
        let hide = LogsContextMenuButton::HideLogs;
        let parent = ConsoleOp { command: hide, step: ConsoleStep::AttachParent };
        let handler = ConsoleOp { command: hide, step: ConsoleStep::AttachCtrlCHandler };
        let rest1 = outcomes.drop_first();
        let rest2 = rest1.drop_first();
        assert(rest1[0] == outcomes[1]);
        assert(rest2[0] == outcomes[2]);
        assert(run(first_op(hide), ConsoleState::Detached, outcomes)
            == run(parent, ConsoleState::Detached, rest1));
        if outcomes[1] {
            assert(run(parent, ConsoleState::Detached, rest1)
                == run(handler, ConsoleState::Detached, rest2));
        }
    }
}

/// Whether a console is held after the steps `steps` were performed, when
/// `held` told whether one was held before: a successful creation obtains
/// one, a successful detach gives it up, nothing else counts.
pub open spec fn console_held(held: bool, steps: Seq<(ConsoleOp, bool)>) -> bool
    decreases steps.len(),
{
    if steps.len() == 0 {
        held
    } else {
        let (op, ok) = steps.last();
        let before = console_held(held, steps.drop_last());
        if ok && op.step == ConsoleStep::Create {
            true
        } else if ok && op.step == ConsoleStep::Detach {
            false
        } else {
            before
        }
    }
}

/// The console state after the steps `steps`, each recorded in turn from `s`.
pub open spec fn state_through(s: ConsoleState, steps: Seq<(ConsoleOp, bool)>) -> ConsoleState
    decreases steps.len(),
{
    if steps.len() == 0 {
        s
    } else {
        let (op, ok) = steps.last();
        state_after(op, ok, state_through(s, steps.drop_last()))
    }
}

/// The operations a visibility change is made of: creation and replay
/// belong to showing, attaching to the parent console to hiding.
pub open spec fn op_in_plan(op: ConsoleOp) -> bool {
    match op.step {
        ConsoleStep::Create | ConsoleStep::ReplayLogs => op.command == LogsContextMenuButton::ShowLogs,
        ConsoleStep::AttachParent => op.command == LogsContextMenuButton::HideLogs,
        _ => true,
    }
}

/// Every step belongs to its change's plan, and every change was started
/// with the toggle that the menu offered in the state of that moment.
pub open spec fn started_from_menu(s: ConsoleState, steps: Seq<(ConsoleOp, bool)>) -> bool {
    forall|i: int|
        0 <= i < steps.len() ==> op_in_plan(#[trigger] steps[i].0) && (steps[i].0.step == ConsoleStep::Detach
            ==> steps[i].0.command == button_for(state_through(s, steps.subrange(0, i))))
}

/// The state always matches reality: after any series of steps of changes
/// chosen from the menu, the state is `Attached` exactly when a console is
/// held, that is when the last successful creation or detach was a
/// creation (or there was none and the console was inherited). So the menu
/// offers the toggle that fits the console at hand.
pub proof fn lemma_state_tracks_console(inherited: bool, steps: Seq<(ConsoleOp, bool)>)
    requires
        started_from_menu(initial_state(inherited), steps),
    ensures
        state_through(initial_state(inherited), steps) == initial_state(console_held(inherited, steps)),
    decreases steps.len(),
{
    if steps.len() > 0 {
        let s0 = initial_state(inherited);
        let prefix = steps.drop_last();
        assert forall|i: int| 0 <= i < prefix.len() implies op_in_plan(#[trigger] prefix[i].0) && (
        prefix[i].0.step == ConsoleStep::Detach ==> prefix[i].0.command == button_for(
            state_through(s0, prefix.subrange(0, i)),
        )) by {
            assert(prefix[i] == steps[i]);
            assert(prefix.subrange(0, i) =~= steps.subrange(0, i));
        }
        lemma_state_tracks_console(inherited, prefix);
        let last = steps.len() - 1;
        assert(steps.subrange(0, last) =~= prefix);
        assert(op_in_plan(steps[last].0));
    }
}

/// When the console creation of a "Show Logs" change fails, the change ends
/// with that failure and the state is the one it started from.
pub proof fn lemma_failed_create_keeps_state(s: ConsoleState, detach_ok: bool, rest: Seq<bool>)
    ensures
        run(first_op(LogsContextMenuButton::ShowLogs), s, seq![detach_ok, false] + rest)
            == (s, Progress::Failed(ConsoleStep::Create)),
{
    let outcomes = seq![detach_ok, false] + rest;
    let op = first_op(LogsContextMenuButton::ShowLogs);
    let next = ConsoleOp { command: LogsContextMenuButton::ShowLogs, step: ConsoleStep::Create };
    assert(outcomes[0] == detach_ok);
    assert(outcomes.drop_first() =~= seq![false] + rest);
    assert((seq![false] + rest)[0] == false);
    assert(run(op, s, outcomes) == run(next, s, seq![false] + rest));
}

/// In every state the menu holds exactly one visibility toggle, in first
/// place: "Hide Logs" while a console is attached, "Show Logs" otherwise.
pub proof fn lemma_menu_matches_state(s: ConsoleState)
    ensures
        menu_for(button_for(s))[0] == MenuItem::Entry(button_command(button_for(s))),
        forall|i: int|
            0 <= i < menu_for(button_for(s)).len() && #[trigger] menu_for(button_for(s))[i] is Entry
                && is_visibility_toggle(menu_for(button_for(s))[i]->Entry_0)
                ==> i == 0,
        command_label(button_command(button_for(s))) == (if s == ConsoleState::Attached {
            "Hide Logs"@
        } else {
            "Show Logs"@
        }),
{
}

impl ConsoleState {
    /// The state at startup: a process launched from a console holds it.
    pub fn initial(inherited: bool) -> (r: ConsoleState)
        ensures
            r == initial_state(inherited),
    {
        if inherited {
            ConsoleState::Attached
        } else {
            ConsoleState::Detached
        }
    }

    /// The visibility toggle the menu offers in this state.
    pub fn menu_button(&self) -> (r: LogsContextMenuButton)
        ensures
            r == button_for(*self),
    {
        match self {
            ConsoleState::Attached => LogsContextMenuButton::HideLogs,
            ConsoleState::Detached => LogsContextMenuButton::ShowLogs,
        }
    }

    /// The context menu for this state, computed afresh on each call.
    pub fn context_menu(&self) -> (r: Vec<MenuItem>)
        ensures
            r@ == menu_for(button_for(*self)),
    {
        self.menu_button().menu()
    }
}

impl ConsoleOp {
    /// The first operation of a visibility change.
    pub fn begin(command: LogsContextMenuButton) -> (r: ConsoleOp)
        ensures
            r == first_op(command),
    {
        ConsoleOp { command, step: ConsoleStep::Detach }
    }

    /// What follows this operation, performed with outcome `ok` in state `s`.
    pub fn progress(&self, ok: bool, s: ConsoleState) -> (r: Progress)
        ensures
            r == progress_after(*self, ok, s),
    {
        let command = self.command;
        match command {
            LogsContextMenuButton::ShowLogs => match self.step {
                ConsoleStep::Detach => Progress::Next(ConsoleOp { command, step: ConsoleStep::Create }),
                ConsoleStep::Create => if ok {
                    Progress::Next(ConsoleOp { command, step: ConsoleStep::AttachCtrlCHandler })
                } else {
                    Progress::Failed(ConsoleStep::Create)
                },
                ConsoleStep::AttachCtrlCHandler => if ok {
                    Progress::Next(ConsoleOp { command, step: ConsoleStep::ReplayLogs })
                } else {
                    Progress::Failed(ConsoleStep::AttachCtrlCHandler)
                },
                ConsoleStep::ReplayLogs => if ok {
                    Progress::Done
                } else {
                    Progress::Failed(ConsoleStep::ReplayLogs)
                },
                ConsoleStep::AttachParent => Progress::Done,
            },
            LogsContextMenuButton::HideLogs => match self.step {
                ConsoleStep::Detach => if ok || s == ConsoleState::Detached {
                    Progress::Next(ConsoleOp { command, step: ConsoleStep::AttachParent })
                } else {
                    Progress::Failed(ConsoleStep::Detach)
                },
                ConsoleStep::AttachParent => if ok {
                    Progress::Next(ConsoleOp { command, step: ConsoleStep::AttachCtrlCHandler })
                } else {
                    Progress::Done
                },
                ConsoleStep::AttachCtrlCHandler => if ok {
                    Progress::Done
                } else {
                    Progress::Failed(ConsoleStep::AttachCtrlCHandler)
                },
                _ => Progress::Done,
            },
        }
    }

    /// The console state once this operation was performed with outcome `ok`
    /// in state `s`.
    pub fn state_after(&self, ok: bool, s: ConsoleState) -> (r: ConsoleState)
        ensures
            r == state_after(*self, ok, s),
    {
        if ok && self.command == LogsContextMenuButton::ShowLogs && self.step == ConsoleStep::Create {
            ConsoleState::Attached
        } else if ok && self.command == LogsContextMenuButton::HideLogs && self.step
            == ConsoleStep::Detach {
            ConsoleState::Detached
        } else {
            s
        }
    }
}

} // verus!
