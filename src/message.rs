//! What the window callback does with each message.

use vstd::prelude::*;

verus! {

/// The message sent when the user asks to close a window.
pub const WM_CLOSE: u32 = 0x0010;

/// The message sent while a window is being destroyed.
pub const WM_DESTROY: u32 = 0x0002;

/// The callback's answer to one message.
#[derive(Clone, Copy, Debug, PartialEq, Eq, Structural)]
pub enum MessageAction {
    /// Destroy the window with this handle; the message counts as handled.
    DestroyWindow(isize),
    /// Post the thread's quit signal; the message counts as handled.
    PostQuit,
    /// Leave the message to the platform's default handling.
    PassToDefault,
}

/// Close requests destroy the window they address, destroy notifications
/// end the message loop, and everything else keeps its default behaviour.
pub open spec fn route_spec(hwnd: isize, message: u32) -> MessageAction {
    if message == WM_CLOSE {
        MessageAction::DestroyWindow(hwnd)
    } else if message == WM_DESTROY {
        MessageAction::PostQuit
    } else {
        MessageAction::PassToDefault
    }
}

/// Decides what the callback does with `message` addressed to `hwnd`.
/// It depends on nothing but its arguments.
pub fn route_message(hwnd: isize, message: u32) -> (r: MessageAction)
    ensures
        r == route_spec(hwnd, message),
{
    if message == WM_CLOSE {
        MessageAction::DestroyWindow(hwnd)
    } else if message == WM_DESTROY {
        MessageAction::PostQuit
    } else {
        MessageAction::PassToDefault
    }
}

} // verus!
