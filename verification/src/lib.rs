//! A minimal desktop-shell core: the logic behind a single window-manager
//! command, "set always-on-top", together with the declarative table of
//! commands that the application bootstrap registers.
//!
//! The command is modelled as a function over an explicit window capability
//! ([`window::WindowState`]) handed in at call time, and it reports failure as
//! a recoverable result instead of aborting the process. The event loop, the
//! real platform windows and the invocation plumbing are owned by the GUI
//! framework and live outside this crate.

pub mod registry;
pub mod window;

pub use registry::{Command, CommandEntry, CommandRegistry};
pub use window::{platform_reply_result, CommandError, WindowState};
