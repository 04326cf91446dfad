//! What the manager window and the wallpaper windows do with the messages
//! they receive. The windowing system delivers the messages and performs the
//! actions; the decisions are taken here.
use vstd::prelude::*;

verus! {

/// Visibility of the manager window.
#[derive(Clone, Copy, Debug, PartialEq, Eq, Structural)]
pub struct ManagerVisibility {
    pub is_open: bool,
}

impl ManagerVisibility {
    /// A manager window created visible or hidden.
    pub fn new(visible: bool) -> (r: Self)
        ensures
            r.is_open == visible,
    {
        ManagerVisibility { is_open: visible }
    }

    /// The state after opening, and whether the window must be shown.
    pub open spec fn spec_show(self) -> (ManagerVisibility, bool) {
        (ManagerVisibility { is_open: true }, !self.is_open)
    }

    /// The state after hiding, and whether the window must be hidden.
    pub open spec fn spec_close(self) -> (ManagerVisibility, bool) {
        (ManagerVisibility { is_open: false }, self.is_open)
    }

    /// Opens the manager window. Returns whether the window must be shown
    /// (it is not shown again when already open).
    pub fn show(&mut self) -> (show_window: bool)
        ensures
            (*final(self), show_window) == old(self).spec_show(),
    {
        if !self.is_open {
            self.is_open = true;
            true
        } else {
            false
        }
    }

    /// Closes (hides) the manager window. Returns whether the window must be hidden
    /// (it is not hidden again when already closed).
    pub fn close(&mut self) -> (hide_window: bool)
        ensures
            (*final(self), hide_window) == old(self).spec_close(),
    {
        if self.is_open {
            self.is_open = false;
            true
        } else {
            false
        }
    }
}

/// Mouse events the tray icon reports.
#[derive(Clone, Copy, Debug, PartialEq, Eq, Structural)]
pub enum TrayMouse {
    LeftButtonUp,
    RightButtonUp,
    Other,
}

/// Messages the manager window reacts to.
#[derive(Clone, Copy, Debug, PartialEq, Eq, Structural)]
pub enum ManagerMessage {
    /// A mouse event on the tray icon.
    Tray(TrayMouse),
    /// The engine asks the program to end.
    Terminate,
    /// The user closes the window.
    Close,
    /// The window is being destroyed.
    Destroy,
    /// Any other message.
    Other,
}

/// What the manager window does with a message.
#[derive(Clone, Copy, Debug, PartialEq, Eq, Structural)]
pub enum ManagerAction {
    /// Show the manager window.
    ShowManager,
    /// Open the tray menu.
    ShowTrayMenu,
    /// Hide the manager window.
    HideManager,
    /// Leave the message loop.
    Quit,
    /// Handled; nothing to do.
    Ignore,
    /// Let the system's default window procedure handle it.
    Default,
}

/// The manager window's reaction to a message. `attached` tells whether the
/// engine state is already attached to the window; before that, tray events
/// are ignored and closing falls back to the default handling.
pub fn manager_action(message: ManagerMessage, attached: bool) -> (r: ManagerAction)
    ensures
        r == match message {
            ManagerMessage::Tray(mouse) => if !attached {
                ManagerAction::Ignore
            } else {
                match mouse {
                    TrayMouse::LeftButtonUp => ManagerAction::ShowManager,
                    TrayMouse::RightButtonUp => ManagerAction::ShowTrayMenu,
                    TrayMouse::Other => ManagerAction::Ignore,
                }
            },
            ManagerMessage::Terminate => ManagerAction::Quit,
            ManagerMessage::Close => if attached {
                ManagerAction::HideManager
            } else {
                ManagerAction::Default
            },
            ManagerMessage::Destroy => ManagerAction::Quit,
            ManagerMessage::Other => ManagerAction::Default,
        },
{
    match message {
        ManagerMessage::Tray(mouse) => {
            if !attached {
                ManagerAction::Ignore
            } else {
                match mouse {
                    TrayMouse::LeftButtonUp => ManagerAction::ShowManager,
                    TrayMouse::RightButtonUp => ManagerAction::ShowTrayMenu,
                    TrayMouse::Other => ManagerAction::Ignore,
                }
            }
        },
        ManagerMessage::Terminate => ManagerAction::Quit,
        ManagerMessage::Close => {
            if attached {
                ManagerAction::HideManager
            } else {
                ManagerAction::Default
            }
        },
        ManagerMessage::Destroy => ManagerAction::Quit,
        ManagerMessage::Other => ManagerAction::Default,
    }
}

/// Entries of the tray menu.
#[derive(Clone, Copy, Debug, PartialEq, Eq, Structural)]
pub enum TrayMenuChoice {
    OpenManager,
    Terminate,
    Dismissed,
}

/// Menu command identifier of the "Open Manager" entry.
pub const TRAY_OPEN_MANAGER: i32 = 1;

/// Menu command identifier of the "Terminate" entry.
pub const TRAY_TERMINATE: i32 = 2;

/// The tray-menu entry that the command identifier `command` stands for
/// (zero when the menu was dismissed).
pub fn tray_menu_choice(command: i32) -> (r: TrayMenuChoice)
    ensures
        r == if command == 1 {
            TrayMenuChoice::OpenManager
        } else if command == 2 {
            TrayMenuChoice::Terminate
        } else {
            TrayMenuChoice::Dismissed
        },
{
    if command == TRAY_OPEN_MANAGER {
        TrayMenuChoice::OpenManager
    } else if command == TRAY_TERMINATE {
        TrayMenuChoice::Terminate
    } else {
        TrayMenuChoice::Dismissed
    }
}

/// Messages a wallpaper window reacts to.
#[derive(Clone, Copy, Debug, PartialEq, Eq, Structural)]
pub enum WallpaperMessage {
    Terminate,
    Close,
    Paint,
    Size,
    Destroy,
    Other,
}

/// What a wallpaper window does with a message.
#[derive(Clone, Copy, Debug, PartialEq, Eq, Structural)]
pub enum WallpaperAction {
    /// Destroy the window.
    DestroyWindow,
    /// Paint the window background.
    Paint,
    /// Leave the message loop.
    Quit,
    /// Handled; nothing to do (closing a wallpaper window is refused).
    Ignore,
    /// Let the system's default window procedure handle it.
    Default,
}

/// A wallpaper window's reaction to a message.
pub fn wallpaper_action(message: WallpaperMessage) -> (r: WallpaperAction)
    ensures
        r == match message {
            WallpaperMessage::Terminate => WallpaperAction::DestroyWindow,
            WallpaperMessage::Close => WallpaperAction::Ignore,
            WallpaperMessage::Paint => WallpaperAction::Paint,
            WallpaperMessage::Size => WallpaperAction::Ignore,
            WallpaperMessage::Destroy => WallpaperAction::Quit,
            WallpaperMessage::Other => WallpaperAction::Default,
        },
{
    match message {
        WallpaperMessage::Terminate => WallpaperAction::DestroyWindow,
        WallpaperMessage::Close => WallpaperAction::Ignore,
        WallpaperMessage::Paint => WallpaperAction::Paint,
        WallpaperMessage::Size => WallpaperAction::Ignore,
        WallpaperMessage::Destroy => WallpaperAction::Quit,
        WallpaperMessage::Other => WallpaperAction::Default,
    }
}

/// Law: showing the manager window twice asks the windowing system only
/// once, hiding it twice likewise, and a show followed by a hide (or a hide
/// followed by a show) always reaches the windowing system for the second call.
pub proof fn lemma_visibility_calls(v: ManagerVisibility)
    ensures
        !v.spec_show().0.spec_show().1,
        v.spec_show().0.spec_show().0 == v.spec_show().0,
        !v.spec_close().0.spec_close().1,
        v.spec_close().0.spec_close().0 == v.spec_close().0,
        v.spec_show().0.spec_close().1,
        v.spec_close().0.spec_show().1,
{
}

} // verus!
