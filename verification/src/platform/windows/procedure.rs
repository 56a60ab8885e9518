//! The steps of the desktop procedures.
//!
//! A [`Procedure`] is a plain value. Its stage says which request is pending;
//! [`Procedure::advance`] takes the reply to that request and moves on. The
//! transition is the spec function [`next`], so that what holds of every
//! exchange with the windowing system can be stated and proved over it.

use vstd::prelude::*;
use crate::platform::windows::{
    IntegrationError, Outcome, Reply, Request, WindowClass, WindowHandle, HWND_TOPMOST,
    MAX_ATTEMPTS, RETRY_DELAY_MS, SPAWN_WORKER_LPARAM, SPAWN_WORKER_MESSAGE,
    SPAWN_WORKER_WPARAM, SWP_NOACTIVATE, SWP_NOMOVE, SWP_NOSIZE, WS_EX_NOACTIVATE,
    WS_EX_TOOLWINDOW,
};

verus! {

/// What a procedure is for.
#[derive(Debug, Clone, Copy, PartialEq, Eq, Structural)]
pub enum Goal {
    /// Find the desktop host and change nothing.
    Locate,
    /// Pin a widget to the desktop: above the wallpaper, below other windows.
    Widget,
    /// Put a window behind the desktop icons.
    Wallpaper,
}

/// Where a procedure stands: the request whose reply it is waiting for.
#[derive(Debug, Clone, Copy, PartialEq, Eq, Structural)]
pub enum Stage {
    /// Looking up the shell window.
    ShellLookup,
    /// Asking the shell to create its worker surface.
    WorkerRequest,
    /// Giving the shell time to react before the first search.
    Settle,
    /// Starting a scan of the top-level workers: asking for the first one.
    FirstWorker,
    /// Scanning the top-level workers: asking for the one after the candidate.
    NextWorker,
    /// Scanning the top-level workers: asking whether the candidate hosts the
    /// icon view.
    IconProbe,
    /// Pausing before a retry.
    Backoff,
    /// Asking for the first worker under the shell window.
    ShellProbe,
    /// Making the host the parent of the window.
    Reparent,
    /// Reading the extended style.
    StyleRead,
    /// Writing the extended style.
    StyleWrite,
    /// Raising the window to the topmost band.
    Position,
    /// Nothing is pending any more.
    Finished(Outcome),
}

/// A procedure under way.
#[derive(Debug, Clone, Copy, PartialEq, Eq, Structural)]
pub struct Procedure {
    /// What the procedure is for.
    pub goal: Goal,
    /// The window to integrate; null while only locating.
    pub window: WindowHandle,
    /// The pending request.
    pub stage: Stage,
    /// The shell window, once found.
    pub shell: WindowHandle,
    /// The worker that the scan looks at.
    pub candidate: WindowHandle,
    /// The desktop host, once found.
    pub host: WindowHandle,
    /// Attempts of the polled search made or due so far: each is one scan of
    /// the top-level workers while locating or pinning a widget, one probe
    /// under the shell window for a wallpaper.
    pub attempts: u32,
    /// Whether the windowing system accepted the host as the new parent.
    pub parented: bool,
    /// The extended style as it was read.
    pub style_before: u32,
    /// The extended style as it is written.
    pub style_after: u32,
}

/// What is asked next, or how the procedure ended.
#[derive(Debug, Clone, Copy, PartialEq, Eq, Structural)]
pub enum Step {
    /// Make this call and hand back its reply.
    Perform(Request),
    /// Nothing is left to do.
    Finished(Outcome),
}

/// The flags of the Z-order request: no move, no resize, no activation.
pub open spec fn placement_flags() -> u32 {
    SWP_NOMOVE | SWP_NOSIZE | SWP_NOACTIVATE
}

/// The extended style of a window on the desktop: every bit of `current`, and
/// the two that keep the window out of the taskbar and away from the focus.
pub open spec fn desktop_style(current: u32) -> u32 {
    current | WS_EX_NOACTIVATE | WS_EX_TOOLWINDOW
}

/// A procedure that has asked nothing yet.
pub open spec fn begin(goal: Goal, window: WindowHandle) -> Procedure {
    Procedure {
        goal,
        window,
        stage: Stage::ShellLookup,
        shell: WindowHandle { raw: 0 },
        candidate: WindowHandle { raw: 0 },
        host: WindowHandle { raw: 0 },
        attempts: 0,
        parented: false,
        style_before: 0,
        style_after: 0,
    }
}

/// The request that `p` is waiting on; none once it has finished.
pub open spec fn request_of(p: Procedure) -> Option<Request> {
    let null = WindowHandle { raw: 0 };
    match p.stage {
        Stage::ShellLookup => Some(Request::FindTopLevel { class: WindowClass::Shell }),
        Stage::WorkerRequest => Some(
            Request::PostMessage {
                target: p.shell,
                message: SPAWN_WORKER_MESSAGE,
                wparam: SPAWN_WORKER_WPARAM,
                lparam: SPAWN_WORKER_LPARAM,
            },
        ),
        Stage::Settle => Some(Request::Sleep { millis: RETRY_DELAY_MS }),
        Stage::FirstWorker => Some(
            Request::FindChild { parent: null, after: null, class: WindowClass::Worker },
        ),
        Stage::NextWorker => Some(
            Request::FindChild { parent: null, after: p.candidate, class: WindowClass::Worker },
        ),
        Stage::IconProbe => Some(
            Request::FindChild { parent: p.candidate, after: null, class: WindowClass::IconView },
        ),
        Stage::Backoff => Some(Request::Sleep { millis: RETRY_DELAY_MS }),
        Stage::ShellProbe => Some(
            Request::FindChild { parent: p.shell, after: null, class: WindowClass::Worker },
        ),
        Stage::Reparent => Some(Request::SetParent { child: p.window, parent: p.host }),
        Stage::StyleRead => Some(Request::GetExStyle { window: p.window }),
        Stage::StyleWrite => Some(Request::SetExStyle { window: p.window, style: p.style_after }),
        Stage::Position => Some(
            Request::SetPosition {
                window: p.window,
                insert_after: HWND_TOPMOST,
                flags: placement_flags(),
            },
        ),
        Stage::Finished(_) => None,
    }
}

/// The scan for the worker that hosts the icon view starts at the first
/// top-level worker.
pub open spec fn scan_from_start(p: Procedure) -> Procedure {
    Procedure { stage: Stage::FirstWorker, candidate: WindowHandle { raw: 0 }, ..p }
}

/// The first attempt of the polled search: a scan while locating or pinning a
/// widget, a probe under the shell window for a wallpaper.
pub open spec fn first_attempt(p: Procedure) -> Procedure {
    match p.goal {
        Goal::Wallpaper => Procedure { stage: Stage::ShellProbe, attempts: 1, ..p },
        _ => Procedure { attempts: 1, ..scan_from_start(p) },
    }
}

/// After a pause the polled search is tried again.
pub open spec fn next_attempt(p: Procedure) -> Procedure {
    match p.goal {
        Goal::Wallpaper => Procedure { stage: Stage::ShellProbe, ..p },
        _ => scan_from_start(p),
    }
}

/// One more attempt, after a pause, if fewer than `MAX_ATTEMPTS` were made;
/// else `exhausted`.
pub open spec fn retry_or(p: Procedure, exhausted: Stage) -> Procedure {
    if p.attempts < MAX_ATTEMPTS {
        Procedure { stage: Stage::Backoff, attempts: (p.attempts + 1) as u32, ..p }
    } else {
        Procedure { stage: exhausted, ..p }
    }
}

/// A scan of the top-level workers has come to its end without a worker that
/// hosts the icon view. While locating or pinning a widget the scan is the
/// polled search: it is tried again, and the first worker under the shell
/// window is asked for when the attempts are used up. For a wallpaper the
/// polled search begins: the probes under the shell window.
pub open spec fn scan_exhausted(p: Procedure) -> Procedure {
    match p.goal {
        Goal::Wallpaper => first_attempt(p),
        _ => retry_or(p, Stage::ShellProbe),
    }
}

/// The answer to a request for a top-level worker: the scan looks at the
/// worker, or has come to its end.
pub open spec fn scan_step(p: Procedure, reply: Reply) -> Procedure {
    let worker = reply.window_of();
    if worker.raw != 0 {
        Procedure { stage: Stage::IconProbe, candidate: worker, ..p }
    } else {
        scan_exhausted(p)
    }
}

/// The desktop host is known: locating ends here, the other goals go on to
/// make it the parent.
pub open spec fn host_found(p: Procedure, host: WindowHandle) -> Procedure {
    match p.goal {
        Goal::Locate => Procedure { stage: Stage::Finished(Outcome::Located), host, ..p },
        Goal::Widget => Procedure { stage: Stage::Reparent, host, ..p },
        Goal::Wallpaper => Procedure { stage: Stage::Reparent, host, ..p },
    }
}

/// No desktop host can be had. A widget still gets its style and Z order; the
/// other goals fail with `error`.
pub open spec fn host_missing(p: Procedure, error: IntegrationError) -> Procedure {
    match p.goal {
        Goal::Widget => Procedure { stage: Stage::StyleRead, ..p },
        Goal::Locate => Procedure { stage: Stage::Finished(Outcome::Failed(error)), ..p },
        Goal::Wallpaper => Procedure { stage: Stage::Finished(Outcome::Failed(error)), ..p },
    }
}

/// The procedure after `reply` has answered its pending request.
pub open spec fn next(p: Procedure, reply: Reply) -> Procedure {
    match p.stage {
        Stage::ShellLookup => {
            let shell = reply.window_of();
            if shell.raw != 0 {
                Procedure { stage: Stage::WorkerRequest, shell, ..p }
            } else {
                host_missing(p, IntegrationError::ShellNotFound)
            }
        },
        Stage::WorkerRequest => match p.goal {
            Goal::Wallpaper => Procedure { stage: Stage::Settle, ..p },
            _ => first_attempt(p),
        },
        Stage::Settle => scan_from_start(p),
        Stage::FirstWorker => scan_step(p, reply),
        Stage::NextWorker => scan_step(p, reply),
        Stage::IconProbe => {
            if reply.window_of().raw != 0 {
                host_found(p, p.candidate)
            } else {
                Procedure { stage: Stage::NextWorker, ..p }
            }
        },
        Stage::Backoff => next_attempt(p),
        Stage::ShellProbe => {
            let worker = reply.window_of();
            if worker.raw != 0 {
                host_found(p, worker)
            } else {
                match p.goal {
                    Goal::Wallpaper => retry_or(
                        p,
                        Stage::Finished(Outcome::Failed(IntegrationError::WorkerNotFound)),
                    ),
                    _ => host_missing(p, IntegrationError::WorkerNotFound),
                }
            }
        },
        Stage::Reparent => {
            let accepted = reply.window_of().raw != 0;
            match p.goal {
                Goal::Widget => Procedure { stage: Stage::StyleRead, parented: accepted, ..p },
                _ => if accepted {
                    Procedure { stage: Stage::Finished(Outcome::Reparented), parented: true, ..p }
                } else {
                    Procedure {
                        stage: Stage::Finished(
                            Outcome::Failed(IntegrationError::ReparentRejected),
                        ),
                        ..p
                    }
                },
            }
        },
        Stage::StyleRead => {
            let current = reply.style_of();
            Procedure {
                stage: Stage::StyleWrite,
                style_before: current,
                style_after: desktop_style(current),
                ..p
            }
        },
        Stage::StyleWrite => {
            if reply.accepted_of() {
                Procedure { stage: Stage::Position, ..p }
            } else {
                Procedure {
                    stage: Stage::Finished(
                        Outcome::Failed(IntegrationError::StyleOrPositionRejected),
                    ),
                    ..p
                }
            }
        },
        Stage::Position => {
            if !reply.accepted_of() {
                Procedure {
                    stage: Stage::Finished(
                        Outcome::Failed(IntegrationError::StyleOrPositionRejected),
                    ),
                    ..p
                }
            } else if p.parented {
                Procedure { stage: Stage::Finished(Outcome::Reparented), ..p }
            } else {
                Procedure { stage: Stage::Finished(Outcome::StyleOnly), ..p }
            }
        },
        Stage::Finished(_) => p,
    }
}

/// Starts a scan, as [`scan_from_start`] says.
fn start_scan(p: Procedure) -> (q: Procedure)
    ensures
        q == scan_from_start(p),
{
    Procedure { stage: Stage::FirstWorker, candidate: WindowHandle::null(), ..p }
}

/// Makes the first attempt, as [`first_attempt`] says.
fn attempt_first(p: Procedure) -> (q: Procedure)
    ensures
        q == first_attempt(p),
{
    match p.goal {
        Goal::Wallpaper => Procedure { stage: Stage::ShellProbe, attempts: 1, ..p },
        _ => Procedure {
            stage: Stage::FirstWorker,
            candidate: WindowHandle::null(),
            attempts: 1,
            ..p
        },
    }
}

/// Tries again, as [`next_attempt`] says.
fn attempt_next(p: Procedure) -> (q: Procedure)
    ensures
        q == next_attempt(p),
{
    match p.goal {
        Goal::Wallpaper => Procedure { stage: Stage::ShellProbe, ..p },
        _ => start_scan(p),
    }
}

/// Retries or goes to `exhausted`, as [`retry_or`] says.
fn retry_or_else(p: Procedure, exhausted: Stage) -> (q: Procedure)
    ensures
        q == retry_or(p, exhausted),
{
    if p.attempts < MAX_ATTEMPTS {
        Procedure { stage: Stage::Backoff, attempts: p.attempts + 1, ..p }
    } else {
        Procedure { stage: exhausted, ..p }
    }
}

/// Takes the answer to a request for a top-level worker, as [`scan_step`]
/// says.
fn step_scan(p: Procedure, reply: Reply) -> (q: Procedure)
    ensures
        q == scan_step(p, reply),
{
    let worker = reply.window();
    if !worker.is_null() {
        Procedure { stage: Stage::IconProbe, candidate: worker, ..p }
    } else {
        match p.goal {
            Goal::Wallpaper => attempt_first(p),
            _ => retry_or_else(p, Stage::ShellProbe),
        }
    }
}

/// Goes on with the host, as [`host_found`] says.
fn with_host(p: Procedure, host: WindowHandle) -> (q: Procedure)
    ensures
        q == host_found(p, host),
{
    match p.goal {
        Goal::Locate => Procedure { stage: Stage::Finished(Outcome::Located), host, ..p },
        _ => Procedure { stage: Stage::Reparent, host, ..p },
    }
}

/// Goes on without a host, as [`host_missing`] says.
fn without_host(p: Procedure, error: IntegrationError) -> (q: Procedure)
    ensures
        q == host_missing(p, error),
{
    match p.goal {
        Goal::Widget => Procedure { stage: Stage::StyleRead, ..p },
        _ => Procedure { stage: Stage::Finished(Outcome::Failed(error)), ..p },
    }
}

/// Ends the procedure with `outcome`.
fn finished(p: Procedure, outcome: Outcome) -> (q: Procedure)
    ensures
        q == (Procedure { stage: Stage::Finished(outcome), ..p }),
{
    Procedure { stage: Stage::Finished(outcome), ..p }
}

impl Procedure {
    /// Starts a procedure for `window`. The first request is the lookup of the
    /// shell window.
    pub fn begin(goal: Goal, window: WindowHandle) -> (p: Procedure)
        ensures
            p == begin(goal, window),
    {
        Procedure {
            goal,
            window,
            stage: Stage::ShellLookup,
            shell: WindowHandle::null(),
            candidate: WindowHandle::null(),
            host: WindowHandle::null(),
            attempts: 0,
            parented: false,
            style_before: 0,
            style_after: 0,
        }
    }

    /// The call to make next, or the outcome once nothing is left to do.
    pub fn pending(&self) -> (step: Step)
        ensures
            match step {
                Step::Perform(request) => request_of(*self) == Some(request),
                Step::Finished(outcome) => self.stage == Stage::Finished(outcome),
            },
    {
        let null = WindowHandle::null();
        match self.stage {
            Stage::ShellLookup => Step::Perform(
                Request::FindTopLevel { class: WindowClass::Shell },
            ),
            Stage::WorkerRequest => Step::Perform(
                Request::PostMessage {
                    target: self.shell,
                    message: SPAWN_WORKER_MESSAGE,
                    wparam: SPAWN_WORKER_WPARAM,
                    lparam: SPAWN_WORKER_LPARAM,
                },
            ),
            Stage::Settle | Stage::Backoff => Step::Perform(
                Request::Sleep { millis: RETRY_DELAY_MS },
            ),
            Stage::FirstWorker => Step::Perform(
                Request::FindChild { parent: null, after: null, class: WindowClass::Worker },
            ),
            Stage::NextWorker => Step::Perform(
                Request::FindChild {
                    parent: null,
                    after: self.candidate,
                    class: WindowClass::Worker,
                },
            ),
            Stage::IconProbe => Step::Perform(
                Request::FindChild {
                    parent: self.candidate,
                    after: null,
                    class: WindowClass::IconView,
                },
            ),
            Stage::ShellProbe => Step::Perform(
                Request::FindChild { parent: self.shell, after: null, class: WindowClass::Worker },
            ),
            Stage::Reparent => Step::Perform(
                Request::SetParent { child: self.window, parent: self.host },
            ),
            Stage::StyleRead => Step::Perform(Request::GetExStyle { window: self.window }),
            Stage::StyleWrite => Step::Perform(
                Request::SetExStyle { window: self.window, style: self.style_after },
            ),
            Stage::Position => Step::Perform(
                Request::SetPosition {
                    window: self.window,
                    insert_after: HWND_TOPMOST,
                    flags: SWP_NOMOVE | SWP_NOSIZE | SWP_NOACTIVATE,
                },
            ),
            Stage::Finished(outcome) => Step::Finished(outcome),
        }
    }

    /// Takes the reply to the pending request and moves to the next stage. A
    /// finished procedure stays as it is.
    pub fn advance(self, reply: Reply) -> (p: Procedure)
        ensures
            p == next(self, reply),
    {
        match self.stage {
            Stage::ShellLookup => {
                let shell = reply.window();
                if !shell.is_null() {
                    Procedure { stage: Stage::WorkerRequest, shell, ..self }
                } else {
                    without_host(self, IntegrationError::ShellNotFound)
                }
            },
            Stage::WorkerRequest => match self.goal {
                Goal::Wallpaper => Procedure { stage: Stage::Settle, ..self },
                _ => attempt_first(self),
            },
            Stage::Settle => start_scan(self),
            Stage::FirstWorker => step_scan(self, reply),
            Stage::NextWorker => step_scan(self, reply),
            Stage::IconProbe => {
                if !reply.window().is_null() {
                    with_host(self, self.candidate)
                } else {
                    Procedure { stage: Stage::NextWorker, ..self }
                }
            },
            Stage::Backoff => attempt_next(self),
            Stage::ShellProbe => {
                let worker = reply.window();
                if !worker.is_null() {
                    with_host(self, worker)
                } else {
                    match self.goal {
                        Goal::Wallpaper => retry_or_else(
                            self,
                            Stage::Finished(Outcome::Failed(IntegrationError::WorkerNotFound)),
                        ),
                        _ => without_host(self, IntegrationError::WorkerNotFound),
                    }
                }
            },
            Stage::Reparent => {
                let accepted = !reply.window().is_null();
                match self.goal {
                    Goal::Widget => Procedure {
                        stage: Stage::StyleRead,
                        parented: accepted,
                        ..self
                    },
                    _ => if accepted {
                        Procedure {
                            stage: Stage::Finished(Outcome::Reparented),
                            parented: true,
                            ..self
                        }
                    } else {
                        finished(self, Outcome::Failed(IntegrationError::ReparentRejected))
                    },
                }
            },
            Stage::StyleRead => {
                let current = reply.style();
                Procedure {
                    stage: Stage::StyleWrite,
                    style_before: current,
                    style_after: current | WS_EX_NOACTIVATE | WS_EX_TOOLWINDOW,
                    ..self
                }
            },
            Stage::StyleWrite => {
                if reply.accepted() {
                    Procedure { stage: Stage::Position, ..self }
                } else {
                    finished(self, Outcome::Failed(IntegrationError::StyleOrPositionRejected))
                }
            },
            Stage::Position => {
                if !reply.accepted() {
                    finished(self, Outcome::Failed(IntegrationError::StyleOrPositionRejected))
                } else if self.parented {
                    finished(self, Outcome::Reparented)
                } else {
                    finished(self, Outcome::StyleOnly)
                }
            },
            Stage::Finished(_) => self,
        }
    }

    /// How the procedure ended; `None` while a request is pending.
    pub fn outcome(&self) -> (outcome: Option<Outcome>)
        ensures
            outcome == outcome_of(*self),
    {
        match self.stage {
            Stage::Finished(outcome) => Some(outcome),
            _ => None,
        }
    }

    /// The desktop host that was found; `None` while it is not known.
    pub fn desktop_host(&self) -> (host: Option<WindowHandle>)
        ensures
            host == host_of(*self),
    {
        if self.host.is_null() {
            None
        } else {
            Some(self.host)
        }
    }

    /// The attempts of the polled search made or due so far.
    pub fn attempts(&self) -> (count: u32)
        ensures
            count == self.attempts,
    {
        self.attempts
    }
}

/// How `p` ended; `None` while a request is pending.
pub open spec fn outcome_of(p: Procedure) -> Option<Outcome> {
    match p.stage {
        Stage::Finished(outcome) => Some(outcome),
        _ => None,
    }
}

/// Whether `p` has ended without an error.
pub open spec fn has_succeeded(p: Procedure) -> bool {
    match p.stage {
        Stage::Finished(outcome) => outcome.is_success(),
        _ => false,
    }
}

/// The desktop host that `p` found; `None` while it is not known.
pub open spec fn host_of(p: Procedure) -> Option<WindowHandle> {
    if p.host.raw == 0 {
        None
    } else {
        Some(p.host)
    }
}

} // verus!
