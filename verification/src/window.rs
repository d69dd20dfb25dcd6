//! The set-always-on-top command, stated over an explicit window capability.
//!
//! The authoritative always-on-top attribute lives in the OS window manager.
//! [`WindowState`] is the capability the command receives at call time: what
//! the window manager reports about one window. The command never retains it
//! past the call.

use vstd::prelude::*;

verus! {

/// What the OS window manager reports about one window: whether the handle
/// still refers to a live window, and whether the window is currently marked
/// always-on-top.
///
/// A fresh window starts live with the attribute cleared; see
/// [`WindowState::new`].
#[derive(Clone, Copy, Debug, PartialEq, Eq, Structural)]
pub struct WindowState {
    /// The handle refers to a window that still exists.
    pub live: bool,
    /// The window manager's always-on-top attribute for this window.
    pub always_on_top: bool,
}

/// The failure kinds the command reports to its caller. Every failure is
/// recoverable: the command never terminates the process.
#[derive(Clone, Copy, Debug, PartialEq, Eq, Structural)]
pub enum CommandError {
    /// The handle refers to a window that no longer exists.
    InvalidWindow,
    /// The windowing platform rejected the attribute change.
    PlatformError,
}

/// The window-manager state after the command is invoked with `value`: a live
/// window's attribute becomes `value`, a destroyed window is left untouched.
pub open spec fn set_state_spec(w: WindowState, value: bool) -> WindowState {
    if w.live {
        WindowState { live: true, always_on_top: value }
    } else {
        w
    }
}

/// The result the command reports for that invocation: success on a live
/// window, an invalid-target failure on a destroyed one.
pub open spec fn set_result_spec(w: WindowState, value: bool) -> Result<(), CommandError> {
    if w.live {
        Ok(())
    } else {
        Err(CommandError::InvalidWindow)
    }
}

impl WindowState {
    /// A freshly created window: live, with the always-on-top attribute
    /// defaulting to cleared.
    pub fn new() -> (w: WindowState)
        ensures
            w == (WindowState { live: true, always_on_top: false }),
    {
        WindowState { live: true, always_on_top: false }
    }

    /// Set or clear the always-on-top attribute of this window.
    ///
    /// On a live window the request succeeds and leaves the window manager's
    /// attribute equal to `value`. On a destroyed window nothing changes and
    /// the command reports an invalid target instead of aborting the process.
    pub fn set_always_on_top(&mut self, value: bool) -> (r: Result<(), CommandError>)
        ensures
            *final(self) == set_state_spec(*old(self), value),
            r == set_result_spec(*old(self), value),
            old(self).live ==> final(self).always_on_top == value,
            !old(self).live ==> *final(self) == *old(self),
    {
        if self.live {
            self.always_on_top = value;
            Ok(())
        } else {
            Err(CommandError::InvalidWindow)
        }
    }

}

impl CommandError {
    /// A short description of the failure, for surfacing to the front end.
    pub fn describe(&self) -> (r: &'static str)
        ensures
            self is InvalidWindow ==> r@ == "window no longer exists"@,
            self is PlatformError ==> r@ == "the windowing platform rejected the request"@,
    {
        match self {
            CommandError::InvalidWindow => "window no longer exists",
            CommandError::PlatformError => "the windowing platform rejected the request",
        }
    }
}

/// Classify the windowing platform's reply to an attribute-change request.
/// The layer that talks to the platform hands in whether the platform
/// accepted; the command's caller receives a recoverable result, never a
/// process abort.
pub fn platform_reply_result(accepted: bool) -> (r: Result<(), CommandError>)
    ensures
        accepted <==> r is Ok,
        !accepted ==> r == Err::<(), CommandError>(CommandError::PlatformError),
{
    if accepted {
        Ok(())
    } else {
        Err(CommandError::PlatformError)
    }
}

/// Invoking the command twice in succession with the same `value` produces no
/// observable difference from invoking it once: the window-manager state and
/// the reported result of the second invocation match those of the first.
pub proof fn lemma_set_idempotent(w: WindowState, value: bool)
    ensures
        set_state_spec(set_state_spec(w, value), value) == set_state_spec(w, value),
        set_result_spec(set_state_spec(w, value), value) == set_result_spec(w, value),
{
}

/// Invoking the command with `true` and then with `false` on a window that was
/// not always-on-top restores the original stacking state exactly.
pub proof fn lemma_toggle_restores(w: WindowState)
    requires
        w.live,
        !w.always_on_top,
    ensures
        set_state_spec(set_state_spec(w, true), false) == w,
{
}

} // verus!
