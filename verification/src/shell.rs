//! The tray icon and its menu: which window messages the hidden window handles, what a
//! menu choice does, and the icon's tooltip.
use crate::config::Config;
use crate::text::push_str;
use vstd::prelude::*;

verus! {

/// The first message number free for applications (Win32 `WM_APP`).
pub const WM_APP: u32 = 0x8000;

/// The message the tray icon sends to the hidden window.
pub const WM_TRAY: u32 = WM_APP + 1;

/// The message the worker posts when a result is ready.
pub const WM_WORKER_DONE: u32 = WM_APP + 2;

/// The message the gesture hook posts when the gesture fires.
pub const WM_GESTURE_HOTKEY: u32 = WM_APP + 3;

/// The settings window asks for its configuration to be applied.
pub const WM_APPLY_CONFIG: u32 = WM_APP + 20;

/// The settings window closed.
pub const WM_SETTINGS_CLOSED: u32 = WM_APP + 21;

/// The settings window asks for a connection test.
pub const WM_TEST_API: u32 = WM_APP + 22;

/// The window is being destroyed (Win32 `WM_DESTROY`).
pub const WM_DESTROY: u32 = 0x0002;

/// A registered hotkey was pressed (Win32 `WM_HOTKEY`).
pub const WM_HOTKEY: u32 = 0x0312;

/// A timer fired (Win32 `WM_TIMER`).
pub const WM_TIMER: u32 = 0x0113;

/// The right mouse button was released (Win32 `WM_RBUTTONUP`).
pub const WM_RBUTTONUP: u32 = 0x0205;

/// A context menu was asked for, by mouse or keyboard (Win32 `WM_CONTEXTMENU`).
pub const WM_CONTEXTMENU: u32 = 0x007B;

/// The id under which the application registers its hotkey.
pub const HOTKEY_ID: usize = 0x504F;

/// The id of the gesture timer.
pub const GESTURE_TIMER_ID: usize = 2;

/// The menu entries of the tray icon.
pub const MENU_SETTINGS: u32 = 1001;
pub const MENU_RELOAD: u32 = 1002;
pub const MENU_EXIT: u32 = 1003;

/// What the hidden window does with a message.
#[derive(Clone, Copy, Debug, PartialEq, Eq)]
pub enum ShellEvent {
    /// The icon was recreated after Explorer restarted: add the tray icon again.
    TaskbarCreated,
    /// The hotkey or the gesture fired.
    Hotkey,
    /// The gesture timer fired: replay the pending presses.
    GestureTimeout,
    /// Show the tray menu.
    TrayMenu,
    /// A tray notification that needs nothing.
    TrayIgnored,
    /// A worker result is ready.
    WorkerDone,
    /// Apply the configuration the settings window sends.
    ApplyConfig,
    /// Start the connection test the settings window asks for.
    TestApi,
    /// The settings window closed.
    SettingsClosed,
    /// Quit.
    Destroy,
    /// Not one of the application's own messages.
    Other,
}

/// The event of message `message` with parameters `wparam` and `lparam` (the tray
/// icon puts its mouse message in `lparam`); `taskbar_created` is the message number
/// Windows gave to the restart of Explorer.
pub open spec fn shell_event_of(message: u32, wparam: usize, lparam: u32, taskbar_created: u32) -> ShellEvent {
    if message == taskbar_created {
        ShellEvent::TaskbarCreated
    } else if (message == WM_HOTKEY && wparam == HOTKEY_ID) || message == WM_GESTURE_HOTKEY {
        ShellEvent::Hotkey
    } else if message == WM_TIMER && wparam == GESTURE_TIMER_ID {
        ShellEvent::GestureTimeout
    } else if message == WM_TRAY {
        if lparam == WM_RBUTTONUP || lparam == WM_CONTEXTMENU {
            ShellEvent::TrayMenu
        } else {
            ShellEvent::TrayIgnored
        }
    } else if message == WM_WORKER_DONE {
        ShellEvent::WorkerDone
    } else if message == WM_APPLY_CONFIG {
        ShellEvent::ApplyConfig
    } else if message == WM_TEST_API {
        ShellEvent::TestApi
    } else if message == WM_SETTINGS_CLOSED {
        ShellEvent::SettingsClosed
    } else if message == WM_DESTROY {
        ShellEvent::Destroy
    } else {
        ShellEvent::Other
    }
}

/// What the hidden window does with a message.
pub fn shell_event(message: u32, wparam: usize, lparam: u32, taskbar_created: u32) -> (res: ShellEvent)
    ensures
        res == shell_event_of(message, wparam, lparam, taskbar_created),
{
    if message == taskbar_created {
        ShellEvent::TaskbarCreated
    } else if (message == WM_HOTKEY && wparam == HOTKEY_ID) || message == WM_GESTURE_HOTKEY {
        ShellEvent::Hotkey
    } else if message == WM_TIMER && wparam == GESTURE_TIMER_ID {
        ShellEvent::GestureTimeout
    } else if message == WM_TRAY {
        if lparam == WM_RBUTTONUP || lparam == WM_CONTEXTMENU {
            ShellEvent::TrayMenu
        } else {
            ShellEvent::TrayIgnored
        }
    } else if message == WM_WORKER_DONE {
        ShellEvent::WorkerDone
    } else if message == WM_APPLY_CONFIG {
        ShellEvent::ApplyConfig
    } else if message == WM_TEST_API {
        ShellEvent::TestApi
    } else if message == WM_SETTINGS_CLOSED {
        ShellEvent::SettingsClosed
    } else if message == WM_DESTROY {
        ShellEvent::Destroy
    } else {
        ShellEvent::Other
    }
}

/// What a choice in the tray menu does.
#[derive(Clone, Copy, Debug, PartialEq, Eq)]
pub enum TrayCommand {
    OpenSettings,
    Reload,
    Exit,
    Nothing,
}

/// The command of menu entry `id` (0 when the menu was dismissed).
pub fn tray_command(id: u32) -> (res: TrayCommand)
    ensures
        res == (if id == MENU_SETTINGS {
            TrayCommand::OpenSettings
        } else if id == MENU_RELOAD {
            TrayCommand::Reload
        } else if id == MENU_EXIT {
            TrayCommand::Exit
        } else {
            TrayCommand::Nothing
        }),
{
    if id == MENU_SETTINGS {
        TrayCommand::OpenSettings
    } else if id == MENU_RELOAD {
        TrayCommand::Reload
    } else if id == MENU_EXIT {
        TrayCommand::Exit
    } else {
        TrayCommand::Nothing
    }
}

/// The tooltip of the tray icon while idle, naming the hotkey.
pub fn running_tooltip(hotkey: &str) -> (res: String)
    ensures
        res@ == "运行中 | 热键: "@ + hotkey@,
{
    let mut res = "运行中 | 热键: ".to_owned();
    push_str(&mut res, hotkey);
    res
}

/// The settings window's request to apply `config`; the application fills in why it
/// refused, if it did.
#[derive(Debug)]
pub struct ApplyRequest {
    pub config: Config,
    pub error: Option<String>,
}

/// The settings window's request to test the connection with `config`; the
/// application fills in why it could not start the test, if so.
#[derive(Debug)]
pub struct ApiTestRequest {
    pub config: Config,
    pub error: Option<String>,
}

/// Records `outcome` in a request's error slot and gives the message's result: 1 when
/// the request was granted, else 0.
pub fn answer_request(error: &mut Option<String>, outcome: Result<(), String>) -> (res: isize)
    ensures
        match outcome {
            Ok(()) => res == 1 && *final(error) is None,
            Err(e) => res == 0 && (*final(error) matches Some(m) && m@ == e@),
        },
{
    match outcome {
        Ok(()) => {
            *error = None;
            1
        },
        Err(e) => {
            *error = Some(e);
            0
        },
    }
}

impl ApplyRequest {
    /// Answers the request with the outcome of applying its configuration.
    pub fn answer(&mut self, outcome: Result<(), String>) -> (res: isize)
        ensures
            match outcome {
                Ok(()) => res == 1 && final(self).error is None,
                Err(e) => res == 0 && (final(self).error matches Some(m) && m@ == e@),
            },
            final(self).config == old(self).config,
    {
        answer_request(&mut self.error, outcome)
    }
}

impl ApiTestRequest {
    /// Answers the request with whether the test could start.
    pub fn answer(&mut self, outcome: Result<(), String>) -> (res: isize)
        ensures
            match outcome {
                Ok(()) => res == 1 && final(self).error is None,
                Err(e) => res == 0 && (final(self).error matches Some(m) && m@ == e@),
            },
            final(self).config == old(self).config,
    {
        answer_request(&mut self.error, outcome)
    }
}

} // verus!
