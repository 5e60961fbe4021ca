//! A window record: the per-handle metadata the registries own.

use vstd::prelude::*;

verus! {

/// The window-destroyed notification.
pub const WM_DESTROY: u32 = 0x0002;

/// The repaint request.
pub const WM_PAINT: u32 = 0x000F;

/// A character of keyboard input; the parameter carries the character.
pub const WM_CHAR: u32 = 0x0102;

/// The primary mouse button released over the window.
pub const WM_LBUTTONUP: u32 = 0x0202;

/// The secondary mouse button released over the window.
pub const WM_RBUTTONUP: u32 = 0x0205;

/// The base of the range an application may use for its own messages; the
/// tray registers it as its icon's callback message.
pub const WM_USER: u32 = 0x0400;

/// A menu reporting a selection by position.
pub const WM_MENUCOMMAND: u32 = 0x0126;

/// The cancel key's character code.
pub const VK_ESCAPE: u32 = 0x1B;

/// What a top-level window's procedure does with one message. The
/// procedure itself is a stateless trampoline the operating system calls;
/// it carries out the action and nothing else, so that every registry
/// change goes through the notification queue and the pump.
#[derive(Debug, Clone, Copy, PartialEq, Eq, Structural)]
pub enum WindowProcAction {
    /// Enqueue the window's handle on the notification queue and report
    /// the message handled. The procedure frees nothing itself.
    NotifyDestroyed,
    /// Acknowledge the repaint with the mandated begin-fill-end cycle.
    Paint,
    /// Ask the operating system to destroy the window.
    DestroyWindow,
    /// Report the click; informational only, no state changes.
    ReportClick,
    /// Report the message handled, with nothing to do.
    Handled,
    /// Hand the message to the operating system's default handling.
    Default,
}

/// The action for one message, as a function of the message code and its
/// first parameter: destruction is deferred through the queue, a repaint is
/// acknowledged, the cancel key and the secondary button ask for the
/// window's destruction, and everything else is the operating system's.
pub open spec fn window_message_action(msg: u32, w_param: u32) -> WindowProcAction {
    if msg == WM_DESTROY {
        WindowProcAction::NotifyDestroyed
    } else if msg == WM_PAINT {
        WindowProcAction::Paint
    } else if msg == WM_CHAR {
        if w_param == VK_ESCAPE {
            WindowProcAction::DestroyWindow
        } else {
            WindowProcAction::Handled
        }
    } else if msg == WM_LBUTTONUP {
        WindowProcAction::ReportClick
    } else if msg == WM_RBUTTONUP {
        WindowProcAction::DestroyWindow
    } else {
        WindowProcAction::Default
    }
}

/// Decides what a top-level window's procedure does with the message it
/// was called for.
pub fn classify_window_message(msg: u32, w_param: u32) -> (r: WindowProcAction)
    ensures
        r == window_message_action(msg, w_param),
{
    if msg == WM_DESTROY {
        WindowProcAction::NotifyDestroyed
    } else if msg == WM_PAINT {
        WindowProcAction::Paint
    } else if msg == WM_CHAR {
        if w_param == VK_ESCAPE {
            WindowProcAction::DestroyWindow
        } else {
            WindowProcAction::Handled
        }
    } else if msg == WM_LBUTTONUP {
        WindowProcAction::ReportClick
    } else if msg == WM_RBUTTONUP {
        WindowProcAction::DestroyWindow
    } else {
        WindowProcAction::Default
    }
}

/// What the registry keeps for one top-level window: the operating system's
/// handle for it, the handle of its menu if it has one, and the callback to
/// dispatch to, if one was registered. The surrounding program creates the
/// window and hands the handles in as plain values; the record itself never
/// touches the operating system.
pub struct Window<C> {
    /// The handle the operating system assigned to the window. Opaque
    /// identity: never dereferenced, never reused while the record lives.
    pub hwnd: u64,
    /// The handle of the window's menu, when it has one.
    pub hmenu: Option<u64>,
    /// The callback dispatched for this record's key, when one is registered.
    pub callback: Option<C>,
}

impl<C> Window<C> {
    /// Builds the record for a window-creation outcome: the operating
    /// system reports failure with a null handle, so a zero handle is the
    /// creation error and anything else passes through unchanged.
    pub fn new(hwnd: u64, hmenu: Option<u64>, callback: Option<C>) -> (r: Result<
        Window<C>,
        crate::error::Error,
    >)
        ensures
            hwnd == 0 ==> (r matches Err(e) && e matches crate::error::Error::SysError(m) && m@
                == "Error creating window"@),
            hwnd != 0 ==> (r matches Ok(w) && w.hwnd == hwnd && w.hmenu == hmenu && w.callback
                == callback),
    {
        if hwnd == 0 {
            Err(crate::error::Error::SysError("Error creating window".to_owned()))
        } else {
            Ok(Window { hwnd, hmenu, callback })
        }
    }
}

} // verus!
