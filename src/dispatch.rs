use vstd::prelude::*;
use crate::console::{ConsoleOp, ConsoleState, Progress, button_for, first_op, initial_state, progress_after, state_after};
use crate::menu::{ID_LAUNCH_WORKER, LogsContextMenuButton, MenuCommand, MenuItem, command_of_id, menu_for};

verus! {

/// Window message sent when a menu entry is chosen.
pub const WM_COMMAND: u32 = 0x0111;

/// Window message asking the window to close.
pub const WM_CLOSE: u32 = 0x0010;

/// Window message sent while the window is destroyed.
pub const WM_DESTROY: u32 = 0x0002;

/// Tray callback code of a released left mouse button.
pub const WM_LBUTTONUP: u32 = 0x0202;

/// Tray callback code of a released right mouse button.
pub const WM_RBUTTONUP: u32 = 0x0205;

/// Tray callback code of a context-menu request from the keyboard.
pub const WM_CONTEXTMENU: u32 = 0x007B;

/// The flag that starts the executable as a worker.
pub const WORKER_FLAG: &'static str = "--bevy";

/// Largest value the count of launched workers reaches.
pub const MAX_LAUNCHED: u64 = 0xffff_ffff_ffff_ffff;

/// What happened on the tray icon.
#[derive(Debug, Clone, Copy, PartialEq, Eq, Structural)]
pub enum TrayEvent {
    LeftButtonUp,
    RightButtonUp,
    ContextMenu,
    Other(u32),
}

/// One notification delivered to the tray window, in the terms the
/// dispatcher decides on.
#[derive(Debug, Clone, Copy, PartialEq, Eq, Structural)]
pub enum Notification {
    Tray(TrayEvent),
    TaskbarCreated,
    Command(usize),
    Close,
    Destroy,
    Other,
}

/// What the message loop is to do for a notification.
#[derive(Debug, Clone, Copy, PartialEq, Eq, Structural)]
pub enum Reaction {
    /// Spawn a worker process; a failure is logged, nothing more.
    LaunchWorker,
    /// Show the context menu that offers this visibility toggle.
    ShowMenu(LogsContextMenuButton),
    /// Register the tray icon again.
    ReAddTrayIcon,
    /// Start a visibility change with this operation.
    Console(ConsoleOp),
    /// Ask the window to close.
    RequestClose,
    /// Remove the tray icon and destroy the window.
    DestroyWindow,
    /// Remove the tray icon and end the message loop with status 0.
    Quit,
    /// Hand the notification, unchanged, to the platform's default handler.
    PassThrough,
}

pub open spec fn tray_event_of(code: u32) -> TrayEvent {
    if code == WM_LBUTTONUP {
        TrayEvent::LeftButtonUp
    } else if code == WM_RBUTTONUP {
        TrayEvent::RightButtonUp
    } else if code == WM_CONTEXTMENU {
        TrayEvent::ContextMenu
    } else {
        TrayEvent::Other(code)
    }
}

/// The notification behind a raw window message. `tray_callback` and
/// `taskbar_created` are the message numbers registered at run time;
/// `tray_code` is the low word of the message's second parameter.
pub open spec fn notification_of(
    message: u32,
    command_id: usize,
    tray_code: u32,
    tray_callback: u32,
    taskbar_created: u32,
) -> Notification {
    if message == tray_callback {
        Notification::Tray(tray_event_of(tray_code))
    } else if message == taskbar_created {
        Notification::TaskbarCreated
    } else if message == WM_COMMAND {
        Notification::Command(command_id)
    } else if message == WM_CLOSE {
        Notification::Close
    } else if message == WM_DESTROY {
        Notification::Destroy
    } else {
        Notification::Other
    }
}

/// The reaction to `n` while the console is in state `s`.
pub open spec fn reaction_to(s: ConsoleState, n: Notification) -> Reaction {
    match n {
        Notification::Tray(TrayEvent::LeftButtonUp) => Reaction::LaunchWorker,
        Notification::Tray(TrayEvent::RightButtonUp) => Reaction::ShowMenu(button_for(s)),
        Notification::Tray(TrayEvent::ContextMenu) => Reaction::ShowMenu(button_for(s)),
        Notification::Tray(TrayEvent::Other(_)) => Reaction::PassThrough,
        Notification::TaskbarCreated => Reaction::ReAddTrayIcon,
        Notification::Command(id) => match command_of_id(id) {
            Some(MenuCommand::ShowLogs) => Reaction::Console(first_op(LogsContextMenuButton::ShowLogs)),
            Some(MenuCommand::HideLogs) => Reaction::Console(first_op(LogsContextMenuButton::HideLogs)),
            Some(MenuCommand::LaunchWorker) => Reaction::LaunchWorker,
            Some(MenuCommand::Exit) => Reaction::RequestClose,
            None => Reaction::PassThrough,
        },
        Notification::Close => Reaction::DestroyWindow,
        Notification::Destroy => Reaction::Quit,
        Notification::Other => Reaction::PassThrough,
    }
}

/// The dispatcher's view after a worker launch with outcome `ok`: the
/// console state stays, a success is counted.
pub open spec fn after_worker_launch(v: (ConsoleState, nat), ok: bool) -> (ConsoleState, nat) {
    if ok && v.1 < MAX_LAUNCHED {
        (v.0, v.1 + 1)
    } else {
        v
    }
}

/// Worker launches are isolated from the console: asking for one never
/// touches the console state in any state, a failed launch changes nothing,
/// and a launch after a failure fares exactly as if the failure had not
/// happened.
pub proof fn lemma_worker_isolation(v: (ConsoleState, nat), ok: bool)
    ensures
        reaction_to(v.0, Notification::Command(ID_LAUNCH_WORKER)) == Reaction::LaunchWorker,
        reaction_to(v.0, Notification::Tray(TrayEvent::LeftButtonUp)) == Reaction::LaunchWorker,
        after_worker_launch(v, ok).0 == v.0,
        after_worker_launch(v, false) == v,
        after_worker_launch(after_worker_launch(v, false), ok) == after_worker_launch(v, ok),
{
}

/// No notification is swallowed: a window message the dispatcher does not
/// know, a tray callback code it does not know, and a menu command id that
/// no menu entry carries all go to the platform's default handler.
pub proof fn lemma_unknown_messages_pass_through(
    s: ConsoleState,
    message: u32,
    command_id: usize,
    tray_code: u32,
    tray_callback: u32,
    taskbar_created: u32,
)
    ensures
        message != tray_callback && message != taskbar_created && message != WM_COMMAND
            && message != WM_CLOSE && message != WM_DESTROY
            ==> reaction_to(s, notification_of(message, command_id, tray_code, tray_callback, taskbar_created))
                == Reaction::PassThrough,
        message == tray_callback && tray_code != WM_LBUTTONUP && tray_code != WM_RBUTTONUP
            && tray_code != WM_CONTEXTMENU
            ==> reaction_to(s, notification_of(message, command_id, tray_code, tray_callback, taskbar_created))
                == Reaction::PassThrough,
        message != tray_callback && message != taskbar_created && message == WM_COMMAND
            && !(1 <= command_id <= 4)
            ==> reaction_to(s, notification_of(message, command_id, tray_code, tray_callback, taskbar_created))
                == Reaction::PassThrough,
{
}

impl TrayEvent {
    /// Reads a tray callback code.
    pub fn from_code(code: u32) -> (r: TrayEvent)
        ensures
            r == tray_event_of(code),
    {
        if code == WM_LBUTTONUP {
            TrayEvent::LeftButtonUp
        } else if code == WM_RBUTTONUP {
            TrayEvent::RightButtonUp
        } else if code == WM_CONTEXTMENU {
            TrayEvent::ContextMenu
        } else {
            TrayEvent::Other(code)
        }
    }
}

impl Notification {
    /// Translates a raw window message; anything unrecognised becomes
    /// `Other`, to be passed on untouched.
    pub fn from_message(
        message: u32,
        command_id: usize,
        tray_code: u32,
        tray_callback: u32,
        taskbar_created: u32,
    ) -> (r: Notification)
        ensures
            r == notification_of(message, command_id, tray_code, tray_callback, taskbar_created),
    {
        if message == tray_callback {
            Notification::Tray(TrayEvent::from_code(tray_code))
        } else if message == taskbar_created {
            Notification::TaskbarCreated
        } else if message == WM_COMMAND {
            Notification::Command(command_id)
        } else if message == WM_CLOSE {
            Notification::Close
        } else if message == WM_DESTROY {
            Notification::Destroy
        } else {
            Notification::Other
        }
    }
}

/// The single owner of the console state. It decides what each
/// notification calls for and records the outcome of what was performed.
pub struct Dispatcher {
    state: ConsoleState,
    launched: u64,
}

impl View for Dispatcher {
    type V = (ConsoleState, nat);

    /// The console state and the number of workers launched so far.
    closed spec fn view(&self) -> (ConsoleState, nat) {
        (self.state, self.launched as nat)
    }
}

impl Dispatcher {
    /// A dispatcher at startup; `inherited` tells whether the process was
    /// launched from a console it still holds.
    pub fn new(inherited: bool) -> (r: Dispatcher)
        ensures
            r@ == (initial_state(inherited), 0nat),
    {
        Dispatcher { state: ConsoleState::initial(inherited), launched: 0 }
    }

    /// The current console state.
    pub fn state(&self) -> (r: ConsoleState)
        ensures
            r == self@.0,
    {
        self.state
    }

    /// How many workers were launched successfully.
    pub fn workers_launched(&self) -> (r: u64)
        ensures
            r as nat == self@.1,
    {
        self.launched
    }

    /// The context menu as it is to be shown now.
    pub fn context_menu(&self) -> (r: Vec<MenuItem>)
        ensures
            r@ == menu_for(button_for(self@.0)),
    {
        self.state.context_menu()
    }

    /// Decides what `n` calls for. Nothing changes here: state moves only
    /// once an operation has completed.
    pub fn handle(&self, n: Notification) -> (r: Reaction)
        ensures
            r == reaction_to(self@.0, n),
    {
        match n {
            Notification::Tray(TrayEvent::LeftButtonUp) => Reaction::LaunchWorker,
            Notification::Tray(TrayEvent::RightButtonUp) => Reaction::ShowMenu(self.state.menu_button()),
            Notification::Tray(TrayEvent::ContextMenu) => Reaction::ShowMenu(self.state.menu_button()),
            Notification::Tray(TrayEvent::Other(_)) => Reaction::PassThrough,
            Notification::TaskbarCreated => Reaction::ReAddTrayIcon,
            Notification::Command(id) => match MenuCommand::from_id(id) {
                Some(MenuCommand::ShowLogs) => Reaction::Console(ConsoleOp::begin(LogsContextMenuButton::ShowLogs)),
                Some(MenuCommand::HideLogs) => Reaction::Console(ConsoleOp::begin(LogsContextMenuButton::HideLogs)),
                Some(MenuCommand::LaunchWorker) => Reaction::LaunchWorker,
                Some(MenuCommand::Exit) => Reaction::RequestClose,
                None => Reaction::PassThrough,
            },
            Notification::Close => Reaction::DestroyWindow,
            Notification::Destroy => Reaction::Quit,
            Notification::Other => Reaction::PassThrough,
        }
    }

    /// Records that `op` was performed with outcome `ok` and says what
    /// follows.
    pub fn step_finished(&mut self, op: ConsoleOp, ok: bool) -> (r: Progress)
        ensures
            r == progress_after(op, ok, old(self)@.0),
            final(self)@ == (state_after(op, ok, old(self)@.0), old(self)@.1),
    {
        let r = op.progress(ok, self.state);
        self.state = op.state_after(ok, self.state);
        r
    }

    /// Records the outcome of a worker launch. The console state is never
    /// touched; a success is counted.
    pub fn worker_launch_finished(&mut self, ok: bool)
        ensures
            final(self)@ == after_worker_launch(old(self)@, ok),
    {
        if ok && self.launched < MAX_LAUNCHED {
            self.launched = self.launched + 1;
        }
    }
}

} // verus!
