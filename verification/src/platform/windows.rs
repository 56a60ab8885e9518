//! Placing a window in the desktop's window hierarchy on Windows.
//!
//! The windowing system offers no call that hands out the place where desktop
//! content belongs. The procedures here find it by looking up the shell window,
//! asking it to create its worker surface, and searching for the worker that
//! hosts the icon view, with a bounded number of attempts. They never touch the
//! windowing system themselves: a [`Procedure`] names the next [`Request`], the
//! caller performs it and hands the [`Reply`] back.

use vstd::prelude::*;
use vstd::string::*;

pub mod laws;
pub mod procedure;

use crate::platform::windows::procedure::{begin, Goal, Procedure};

verus! {

/// How many attempts the polled worker search makes before it gives up, the
/// first one counted.
pub const MAX_ATTEMPTS: u32 = 10;

/// The pause between two attempts, and before the first search for a
/// wallpaper.
pub const RETRY_DELAY_MS: u64 = 100;

/// The private message that makes the shell create its worker surface.
pub const SPAWN_WORKER_MESSAGE: u32 = 0x052C;

/// First parameter of [`SPAWN_WORKER_MESSAGE`].
pub const SPAWN_WORKER_WPARAM: usize = 0xD;

/// Second parameter of [`SPAWN_WORKER_MESSAGE`].
pub const SPAWN_WORKER_LPARAM: isize = 0x1;

/// Extended style bit: the window is left out of the taskbar and of Alt-Tab.
pub const WS_EX_TOOLWINDOW: u32 = 0x0000_0080;

/// Extended style bit: the window is never activated.
pub const WS_EX_NOACTIVATE: u32 = 0x0800_0000;

/// Pseudo-handle that places a window in the topmost band.
pub const HWND_TOPMOST: isize = -1;

/// Positioning flag: keep the size.
pub const SWP_NOSIZE: u32 = 0x0001;

/// Positioning flag: keep the place.
pub const SWP_NOMOVE: u32 = 0x0002;

/// Positioning flag: do not take the input focus.
pub const SWP_NOACTIVATE: u32 = 0x0010;

/// An opaque identifier of a native window. Zero is the null handle.
#[derive(Debug, Clone, Copy, PartialEq, Eq, Structural)]
pub struct WindowHandle {
    pub raw: usize,
}

impl WindowHandle {
    /// The handle that stands for "no window".
    pub fn null() -> (handle: WindowHandle)
        ensures
            handle.raw == 0,
    {
        WindowHandle { raw: 0 }
    }

    /// Whether this is the null handle.
    pub fn is_null(&self) -> (null: bool)
        ensures
            null == (self.raw == 0),
    {
        self.raw == 0
    }
}

/// The window classes that the search looks for.
#[derive(Debug, Clone, Copy, PartialEq, Eq, Structural)]
pub enum WindowClass {
    /// The desktop shell's own window.
    Shell,
    /// A worker surface of the shell.
    Worker,
    /// The view that draws the desktop icons.
    IconView,
}

impl WindowClass {
    /// The class name under which the windowing system knows the class.
    pub open spec fn name_of(self) -> Seq<char> {
        match self {
            WindowClass::Shell => "Progman"@,
            WindowClass::Worker => "WorkerW"@,
            WindowClass::IconView => "SHELLDLL_DefView"@,
        }
    }

    /// The class name under which the windowing system knows the class.
    pub fn name(&self) -> (name: &'static str)
        ensures
            name@ == self.name_of(),
    {
        match self {
            WindowClass::Shell => "Progman",
            WindowClass::Worker => "WorkerW",
            WindowClass::IconView => "SHELLDLL_DefView",
        }
    }
}

/// One call that a procedure asks its caller to make.
#[derive(Debug, Clone, Copy, PartialEq, Eq, Structural)]
pub enum Request {
    /// Look up a top-level window by class.
    FindTopLevel { class: WindowClass },
    /// Look up the first child of `parent` with the class that follows
    /// `after`; a null `parent` searches the top-level windows, a null
    /// `after` starts at the first child.
    FindChild { parent: WindowHandle, after: WindowHandle, class: WindowClass },
    /// Post a message to a window without waiting for it to be handled.
    PostMessage { target: WindowHandle, message: u32, wparam: usize, lparam: isize },
    /// Wait.
    Sleep { millis: u64 },
    /// Make `parent` the parent of `child`.
    SetParent { child: WindowHandle, parent: WindowHandle },
    /// Read the extended style bits of a window.
    GetExStyle { window: WindowHandle },
    /// Replace the extended style bits of a window.
    SetExStyle { window: WindowHandle, style: u32 },
    /// Change the Z order of a window.
    SetPosition { window: WindowHandle, insert_after: isize, flags: u32 },
}

/// What the windowing system answered.
#[derive(Debug, Clone, Copy, PartialEq, Eq, Structural)]
pub enum Reply {
    /// A window handle: the window found, or the previous parent. Null
    /// reports failure.
    Window(WindowHandle),
    /// The extended style bits that were read.
    Style(u32),
    /// Whether the call was accepted.
    Status(bool),
    /// The call returned nothing of interest.
    Done,
}

impl Reply {
    /// The handle that the reply carries; null where it carries none.
    pub open spec fn window_of(self) -> WindowHandle {
        match self {
            Reply::Window(handle) => handle,
            _ => WindowHandle { raw: 0 },
        }
    }

    /// The style bits that the reply carries; none set where it carries none.
    pub open spec fn style_of(self) -> u32 {
        match self {
            Reply::Style(bits) => bits,
            _ => 0,
        }
    }

    /// Whether the reply says that the call was accepted.
    pub open spec fn accepted_of(self) -> bool {
        self == Reply::Status(true)
    }

    /// The handle that the reply carries; null where it carries none.
    pub fn window(&self) -> (handle: WindowHandle)
        ensures
            handle == self.window_of(),
    {
        match self {
            Reply::Window(handle) => *handle,
            _ => WindowHandle::null(),
        }
    }

    /// The style bits that the reply carries; none set where it carries none.
    pub fn style(&self) -> (bits: u32)
        ensures
            bits == self.style_of(),
    {
        match self {
            Reply::Style(bits) => *bits,
            _ => 0,
        }
    }

    /// Whether the reply says that the call was accepted.
    pub fn accepted(&self) -> (yes: bool)
        ensures
            yes == self.accepted_of(),
    {
        match self {
            Reply::Status(yes) => *yes,
            _ => false,
        }
    }
}

/// Why a procedure could not complete.
#[derive(Debug, Clone, Copy, PartialEq, Eq, Structural)]
pub enum IntegrationError {
    /// The desktop shell has no window.
    ShellNotFound,
    /// No worker appeared within the attempts allowed.
    WorkerNotFound,
    /// The windowing system refused the new parent.
    ReparentRejected,
    /// The windowing system refused the style or the Z order.
    StyleOrPositionRejected,
}

impl IntegrationError {
    /// The reason in words.
    pub open spec fn message_of(self) -> Seq<char> {
        match self {
            IntegrationError::ShellNotFound => "Failed to find Progman window"@,
            IntegrationError::WorkerNotFound => "Failed to find WorkerW window"@,
            IntegrationError::ReparentRejected => "Failed to set window parent"@,
            IntegrationError::StyleOrPositionRejected => "Failed to set window style or position"@,
        }
    }

    /// The reason in words.
    pub fn message(&self) -> (text: String)
        ensures
            text@ == self.message_of(),
    {
        match self {
            IntegrationError::ShellNotFound => String::from_str("Failed to find Progman window"),
            IntegrationError::WorkerNotFound => String::from_str("Failed to find WorkerW window"),
            IntegrationError::ReparentRejected => String::from_str("Failed to set window parent"),
            IntegrationError::StyleOrPositionRejected => String::from_str(
                "Failed to set window style or position",
            ),
        }
    }
}

/// How a procedure ended.
#[derive(Debug, Clone, Copy, PartialEq, Eq, Structural)]
pub enum Outcome {
    /// The desktop host was found; nothing was changed.
    Located,
    /// The window is a child of the desktop host.
    Reparented,
    /// Style and Z order were applied, the parent was left as it was.
    StyleOnly,
    /// The procedure gave up.
    Failed(IntegrationError),
}

impl Outcome {
    /// Whether the procedure ended without an error.
    pub open spec fn is_success(self) -> bool {
        !(self is Failed)
    }

    /// Whether the procedure ended without an error.
    pub fn succeeded(&self) -> (yes: bool)
        ensures
            yes == self.is_success(),
    {
        match self {
            Outcome::Failed(_) => false,
            _ => true,
        }
    }

    /// Success, or the reason of the failure in words.
    pub fn into_result(self) -> (result: Result<(), String>)
        ensures
            self.is_success() <==> result is Ok,
            self matches Outcome::Failed(error) ==> result matches Err(text) && text@
                == error.message_of(),
    {
        match self {
            Outcome::Failed(error) => Err(error.message()),
            _ => Ok(()),
        }
    }
}

/// Starts the search for the desktop host: the shell's worker window that
/// hosts the icon view or, where `MAX_ATTEMPTS` scans have not found it, the
/// first worker under the shell window. Nothing is changed.
pub fn locate_desktop_host() -> (procedure: Procedure)
    ensures
        procedure == begin(Goal::Locate, WindowHandle { raw: 0 }),
{
    Procedure::begin(Goal::Locate, WindowHandle::null())
}

/// Starts pinning `window` to the desktop as a widget: the desktop host
/// becomes its parent if one is found, and whether or not one is found the
/// window gets the style bits that keep it off the taskbar and out of the
/// focus, and is raised to the topmost band.
pub fn set_widget_on_desktop(window: WindowHandle) -> (procedure: Procedure)
    ensures
        procedure == begin(Goal::Widget, window),
{
    Procedure::begin(Goal::Widget, window)
}

/// Starts putting `window` behind the desktop icons: it becomes a child of
/// the worker that hosts the icon view or, failing that, of the first worker
/// that appears under the shell window within `MAX_ATTEMPTS` probes.
pub fn set_wallpaper_behind_desktop_sync(window: WindowHandle) -> (procedure: Procedure)
    ensures
        procedure == begin(Goal::Wallpaper, window),
{
    Procedure::begin(Goal::Wallpaper, window)
}

} // verus!
