use vstd::prelude::*;

verus! {

/// Command id of the "Show Logs" menu entry.
pub const ID_SHOW_LOGS: usize = 1;

/// Command id of the "Hide Logs" menu entry.
pub const ID_HIDE_LOGS: usize = 2;

/// Command id of the "Launch Worker" menu entry.
pub const ID_LAUNCH_WORKER: usize = 3;

/// Command id of the "Exit" menu entry.
pub const ID_EXIT: usize = 4;

/// The visibility toggle shown as the first entry of the tray menu.
#[derive(Debug, Clone, Copy, PartialEq, Eq, Structural)]
pub enum LogsContextMenuButton {
    ShowLogs,
    HideLogs,
}

/// Everything a menu selection can ask for.
#[derive(Debug, Clone, Copy, PartialEq, Eq, Structural)]
pub enum MenuCommand {
    ShowLogs,
    HideLogs,
    LaunchWorker,
    Exit,
}

/// One line of the tray context menu.
#[derive(Debug, Clone, Copy, PartialEq, Eq, Structural)]
pub enum MenuItem {
    Entry(MenuCommand),
    Separator,
}

pub open spec fn command_id(c: MenuCommand) -> usize {
    match c {
        MenuCommand::ShowLogs => ID_SHOW_LOGS,
        MenuCommand::HideLogs => ID_HIDE_LOGS,
        MenuCommand::LaunchWorker => ID_LAUNCH_WORKER,
        MenuCommand::Exit => ID_EXIT,
    }
}

pub open spec fn command_of_id(id: usize) -> Option<MenuCommand> {
    if id == ID_SHOW_LOGS {
        Some(MenuCommand::ShowLogs)
    } else if id == ID_HIDE_LOGS {
        Some(MenuCommand::HideLogs)
    } else if id == ID_LAUNCH_WORKER {
        Some(MenuCommand::LaunchWorker)
    } else if id == ID_EXIT {
        Some(MenuCommand::Exit)
    } else {
        None
    }
}

pub open spec fn command_label(c: MenuCommand) -> Seq<char> {
    match c {
        MenuCommand::ShowLogs => "Show Logs"@,
        MenuCommand::HideLogs => "Hide Logs"@,
        MenuCommand::LaunchWorker => "Launch Worker"@,
        MenuCommand::Exit => "Exit"@,
    }
}

pub open spec fn button_command(b: LogsContextMenuButton) -> MenuCommand {
    match b {
        LogsContextMenuButton::ShowLogs => MenuCommand::ShowLogs,
        LogsContextMenuButton::HideLogs => MenuCommand::HideLogs,
    }
}

pub open spec fn is_visibility_toggle(c: MenuCommand) -> bool {
    c == MenuCommand::ShowLogs || c == MenuCommand::HideLogs
}

/// The whole tray menu when `b` is the visibility toggle to offer.
pub open spec fn menu_for(b: LogsContextMenuButton) -> Seq<MenuItem> {
    seq![
        MenuItem::Entry(button_command(b)),
        MenuItem::Separator,
        MenuItem::Entry(MenuCommand::LaunchWorker),
        MenuItem::Separator,
        MenuItem::Entry(MenuCommand::Exit),
    ]
}

impl MenuCommand {
    /// The stable command id that the menu entry carries.
    pub fn id(&self) -> (r: usize)
        ensures
            r == command_id(*self),
    {
        match self {
            MenuCommand::ShowLogs => ID_SHOW_LOGS,
            MenuCommand::HideLogs => ID_HIDE_LOGS,
            MenuCommand::LaunchWorker => ID_LAUNCH_WORKER,
            MenuCommand::Exit => ID_EXIT,
        }
    }

    /// Maps a selected command id back to its command; unknown ids give `None`.
    pub fn from_id(id: usize) -> (r: Option<MenuCommand>)
        ensures
            r == command_of_id(id),
    {
        if id == ID_SHOW_LOGS {
            Some(MenuCommand::ShowLogs)
        } else if id == ID_HIDE_LOGS {
            Some(MenuCommand::HideLogs)
        } else if id == ID_LAUNCH_WORKER {
            Some(MenuCommand::LaunchWorker)
        } else if id == ID_EXIT {
            Some(MenuCommand::Exit)
        } else {
            None
        }
    }

    /// The text of the menu entry.
    pub fn label(&self) -> (r: &'static str)
        ensures
            r@ == command_label(*self),
    {
        match self {
            MenuCommand::ShowLogs => "Show Logs",
            MenuCommand::HideLogs => "Hide Logs",
            MenuCommand::LaunchWorker => "Launch Worker",
            MenuCommand::Exit => "Exit",
        }
    }
}

impl LogsContextMenuButton {
    /// The menu command behind this toggle.
    pub fn command(&self) -> (r: MenuCommand)
        ensures
            r == button_command(*self),
    {
        match self {
            LogsContextMenuButton::ShowLogs => MenuCommand::ShowLogs,
            LogsContextMenuButton::HideLogs => MenuCommand::HideLogs,
        }
    }

    /// The full context menu offering this toggle: the toggle, a separator,
    /// "Launch Worker", a separator and "Exit".
    pub fn menu(&self) -> (r: Vec<MenuItem>)
        ensures
            r@ == menu_for(*self),
    {
        let mut v: Vec<MenuItem> = Vec::new();
        v.push(MenuItem::Entry(self.command()));
        v.push(MenuItem::Separator);
        v.push(MenuItem::Entry(MenuCommand::LaunchWorker));
        v.push(MenuItem::Separator);
        v.push(MenuItem::Entry(MenuCommand::Exit));
        assert(v@ =~= menu_for(*self));
        v
    }
}

} // verus!
