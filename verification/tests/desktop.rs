use wallora::platform::windows::procedure::{Procedure, Stage, Step};
use wallora::platform::windows::{
    locate_desktop_host, set_wallpaper_behind_desktop_sync, set_widget_on_desktop,
    IntegrationError, Outcome, Reply, Request, WindowClass, WindowHandle, HWND_TOPMOST,
    MAX_ATTEMPTS, RETRY_DELAY_MS, SPAWN_WORKER_LPARAM, SPAWN_WORKER_MESSAGE,
    SPAWN_WORKER_WPARAM, SWP_NOACTIVATE, SWP_NOMOVE, SWP_NOSIZE, WS_EX_NOACTIVATE,
    WS_EX_TOOLWINDOW,
};

const SHELL: usize = 0x100;
const ICON_VIEW: usize = 0x777;
const WINDOW: usize = 0x4242;
const DESKTOP: usize = 0x1;

/// A desktop that answers from a script.
struct FakeDesktop {
    shell: usize,
    /// Top-level workers in Z order, each with whether it hosts the icon view.
    workers: Vec<(usize, bool)>,
    /// A worker under the shell window, and the number of probes it misses.
    shell_worker: Option<(usize, u32)>,
    parent: usize,
    style: u32,
    topmost: bool,
    accept_parent: bool,
    accept_style: bool,
    accept_position: bool,
    log: Vec<Request>,
    slept: u64,
    shell_probes: u32,
}

fn desktop() -> FakeDesktop {
    FakeDesktop {
        shell: SHELL,
        workers: Vec::new(),
        shell_worker: None,
        parent: DESKTOP,
        style: 0,
        topmost: false,
        accept_parent: true,
        accept_style: true,
        accept_position: true,
        log: Vec::new(),
        slept: 0,
        shell_probes: 0,
    }
}

fn handle(raw: usize) -> WindowHandle {
    WindowHandle { raw }
}

impl FakeDesktop {
    fn perform(&mut self, request: Request) -> Reply {
        self.log.push(request);
        match request {
            Request::FindTopLevel { class } => {
                assert_eq!(class, WindowClass::Shell);
                Reply::Window(handle(self.shell))
            }
            Request::FindChild { parent, after, class } => {
                if parent.raw == 0 {
                    assert_eq!(class, WindowClass::Worker);
                    let start = if after.raw == 0 {
                        0
                    } else {
                        self.workers.iter().position(|w| w.0 == after.raw).unwrap() + 1
                    };
                    match self.workers.get(start) {
                        Some(worker) => Reply::Window(handle(worker.0)),
                        None => Reply::Window(handle(0)),
                    }
                } else if parent.raw == self.shell {
                    assert_eq!(class, WindowClass::Worker);
                    assert_eq!(after.raw, 0);
                    self.shell_probes += 1;
                    match self.shell_worker {
                        Some((worker, misses)) if self.shell_probes > misses => {
                            Reply::Window(handle(worker))
                        }
                        _ => Reply::Window(handle(0)),
                    }
                } else {
                    assert_eq!(class, WindowClass::IconView);
                    assert_eq!(after.raw, 0);
                    let hosts = self.workers.iter().any(|w| w.0 == parent.raw && w.1);
                    Reply::Window(handle(if hosts { ICON_VIEW } else { 0 }))
                }
            }
            Request::PostMessage { .. } => Reply::Done,
            Request::Sleep { millis } => {
                self.slept += millis;
                Reply::Done
            }
            Request::SetParent { child, parent } => {
                assert_eq!(child.raw, WINDOW);
                if self.accept_parent {
                    let previous = self.parent;
                    self.parent = parent.raw;
                    Reply::Window(handle(previous))
                } else {
                    Reply::Window(handle(0))
                }
            }
            Request::GetExStyle { window } => {
                assert_eq!(window.raw, WINDOW);
                Reply::Style(self.style)
            }
            Request::SetExStyle { window, style } => {
                assert_eq!(window.raw, WINDOW);
                if self.accept_style {
                    self.style = style;
                }
                Reply::Status(self.accept_style)
            }
            Request::SetPosition { window, insert_after, flags } => {
                assert_eq!(window.raw, WINDOW);
                assert_eq!(insert_after, HWND_TOPMOST);
                assert_eq!(flags, SWP_NOMOVE | SWP_NOSIZE | SWP_NOACTIVATE);
                if self.accept_position {
                    self.topmost = true;
                }
                Reply::Status(self.accept_position)
            }
        }
    }

    fn run(&mut self, mut procedure: Procedure) -> (Outcome, Procedure) {
        for _ in 0..10_000 {
            match procedure.pending() {
                Step::Perform(request) => {
                    let reply = self.perform(request);
                    procedure = procedure.advance(reply);
                }
                Step::Finished(outcome) => return (outcome, procedure),
            }
        }
        panic!("the procedure does not end");
    }

    fn count(&self, wanted: fn(&Request) -> bool) -> usize {
        self.log.iter().filter(|r| wanted(r)).count()
    }
}

fn is_sleep(request: &Request) -> bool {
    matches!(request, Request::Sleep { .. })
}

fn is_set_parent(request: &Request) -> bool {
    matches!(request, Request::SetParent { .. })
}

fn is_shell_probe(request: &Request) -> bool {
    matches!(request, Request::FindChild { parent, .. } if parent.raw == SHELL)
}

fn is_scan_start(request: &Request) -> bool {
    matches!(request, Request::FindChild { parent, after, .. } if parent.raw == 0 && after.raw == 0)
}

fn is_set_style(request: &Request) -> bool {
    matches!(request, Request::SetExStyle { .. })
}

#[test]
fn locate_without_a_shell_ends_at_once() {
    let mut desk = desktop();
    desk.shell = 0;
    let (outcome, end) = desk.run(locate_desktop_host());
    assert_eq!(outcome, Outcome::Failed(IntegrationError::ShellNotFound));
    assert_eq!(end.desktop_host(), None);
    assert_eq!(end.attempts(), 0);
    assert_eq!(desk.log, vec![Request::FindTopLevel { class: WindowClass::Shell }]);
    assert_eq!(desk.slept, 0);
}

#[test]
fn wallpaper_without_a_shell_reports_shell_not_found() {
    let mut desk = desktop();
    desk.shell = 0;
    let (outcome, end) = desk.run(set_wallpaper_behind_desktop_sync(handle(WINDOW)));
    assert_eq!(outcome, Outcome::Failed(IntegrationError::ShellNotFound));
    assert_eq!(end.attempts(), 0);
    assert_eq!(desk.log.len(), 1);
    assert_eq!(desk.count(is_set_parent), 0);
    assert_eq!(desk.parent, DESKTOP);
    assert_eq!(outcome.into_result(), Err("Failed to find Progman window".to_string()));
}

#[test]
fn wallpaper_with_icon_worker_on_first_probe_reparents_once() {
    let mut desk = desktop();
    desk.workers = vec![(0x200, true)];
    let (outcome, end) = desk.run(set_wallpaper_behind_desktop_sync(handle(WINDOW)));
    assert_eq!(outcome, Outcome::Reparented);
    assert_eq!(end.attempts(), 0);
    assert_eq!(desk.count(is_set_parent), 1);
    assert_eq!(desk.parent, 0x200);
    assert_eq!(end.desktop_host(), Some(handle(0x200)));
    assert_eq!(desk.slept, RETRY_DELAY_MS);
    assert_eq!(outcome.into_result(), Ok(()));
    assert_eq!(
        desk.log,
        vec![
            Request::FindTopLevel { class: WindowClass::Shell },
            Request::PostMessage {
                target: handle(SHELL),
                message: SPAWN_WORKER_MESSAGE,
                wparam: SPAWN_WORKER_WPARAM,
                lparam: SPAWN_WORKER_LPARAM,
            },
            Request::Sleep { millis: 100 },
            Request::FindChild { parent: handle(0), after: handle(0), class: WindowClass::Worker },
            Request::FindChild {
                parent: handle(0x200),
                after: handle(0),
                class: WindowClass::IconView
            },
            Request::SetParent { child: handle(WINDOW), parent: handle(0x200) },
        ]
    );
}

#[test]
fn wallpaper_without_any_worker_gives_up_after_ten_probes() {
    let mut desk = desktop();
    let (outcome, end) = desk.run(set_wallpaper_behind_desktop_sync(handle(WINDOW)));
    assert_eq!(outcome, Outcome::Failed(IntegrationError::WorkerNotFound));
    assert_eq!(end.attempts(), 10);
    assert_eq!(MAX_ATTEMPTS, 10);
    // One pause to let the shell settle, then ten probes under the shell
    // window with a pause between each two.
    assert_eq!(desk.count(is_shell_probe), 10);
    assert_eq!(desk.count(is_scan_start), 1);
    assert_eq!(desk.count(is_sleep), 10);
    assert_eq!(desk.slept, 1000);
    assert_eq!(desk.count(is_set_parent), 0);
    assert_eq!(desk.parent, DESKTOP);
    assert_eq!(outcome.into_result(), Err("Failed to find WorkerW window".to_string()));
}

#[test]
fn wallpaper_scans_past_workers_without_the_icon_view() {
    let mut desk = desktop();
    desk.workers = vec![(0x200, false), (0x201, false), (0x202, true), (0x203, false)];
    let (outcome, end) = desk.run(set_wallpaper_behind_desktop_sync(handle(WINDOW)));
    assert_eq!(outcome, Outcome::Reparented);
    assert_eq!(desk.parent, 0x202);
    assert_eq!(end.attempts(), 0);
    assert_eq!(desk.count(is_shell_probe), 0);
}

#[test]
fn wallpaper_falls_back_to_the_worker_under_the_shell() {
    let mut desk = desktop();
    desk.workers = vec![(0x200, false)];
    desk.shell_worker = Some((0x300, 0));
    let (outcome, end) = desk.run(set_wallpaper_behind_desktop_sync(handle(WINDOW)));
    assert_eq!(outcome, Outcome::Reparented);
    assert_eq!(desk.parent, 0x300);
    assert_eq!(end.attempts(), 1);
    assert_eq!(desk.count(is_shell_probe), 1);
    assert_eq!(desk.slept, 100);
}

#[test]
fn wallpaper_retries_until_the_worker_appears() {
    let mut desk = desktop();
    desk.shell_worker = Some((0x300, 3));
    let (outcome, end) = desk.run(set_wallpaper_behind_desktop_sync(handle(WINDOW)));
    assert_eq!(outcome, Outcome::Reparented);
    assert_eq!(end.attempts(), 4);
    assert_eq!(desk.count(is_shell_probe), 4);
    assert_eq!(desk.slept, 400);
}

#[test]
fn wallpaper_finds_the_worker_on_the_last_probe() {
    let mut desk = desktop();
    desk.shell_worker = Some((0x300, 9));
    let (outcome, end) = desk.run(set_wallpaper_behind_desktop_sync(handle(WINDOW)));
    assert_eq!(outcome, Outcome::Reparented);
    assert_eq!(end.attempts(), 10);
    assert_eq!(desk.count(is_shell_probe), 10);
    let mut late = desktop();
    late.shell_worker = Some((0x300, 10));
    let (outcome, end) = late.run(set_wallpaper_behind_desktop_sync(handle(WINDOW)));
    assert_eq!(outcome, Outcome::Failed(IntegrationError::WorkerNotFound));
    assert_eq!(end.attempts(), 10);
    assert_eq!(late.count(is_shell_probe), 10);
}

#[test]
fn wallpaper_reports_a_rejected_parent() {
    let mut desk = desktop();
    desk.workers = vec![(0x200, true)];
    desk.accept_parent = false;
    let (outcome, _) = desk.run(set_wallpaper_behind_desktop_sync(handle(WINDOW)));
    assert_eq!(outcome, Outcome::Failed(IntegrationError::ReparentRejected));
    assert_eq!(desk.parent, DESKTOP);
    assert_eq!(desk.count(is_set_parent), 1);
    assert_eq!(outcome.into_result(), Err("Failed to set window parent".to_string()));
}

#[test]
fn wallpaper_success_always_changes_the_parent() {
    for misses in 0..=12u32 {
        for icon in [false, true] {
            for accept in [false, true] {
                let mut desk = desktop();
                desk.workers = vec![(0x200, icon)];
                desk.shell_worker = Some((0x300, misses));
                desk.accept_parent = accept;
                let (outcome, _) = desk.run(set_wallpaper_behind_desktop_sync(handle(WINDOW)));
                if outcome.succeeded() {
                    assert_eq!(outcome, Outcome::Reparented);
                    assert_ne!(desk.parent, DESKTOP);
                    assert_eq!(desk.count(is_set_parent), 1);
                } else {
                    assert_eq!(desk.parent, DESKTOP);
                }
                assert_eq!(desk.style, 0);
                assert!(!desk.topmost);
            }
        }
    }
}

#[test]
fn polling_never_exceeds_its_budget() {
    for misses in 0..=20u32 {
        let mut desk = desktop();
        desk.shell_worker = Some((0x300, misses));
        let (outcome, end) = desk.run(set_wallpaper_behind_desktop_sync(handle(WINDOW)));
        assert!(end.attempts() <= MAX_ATTEMPTS);
        assert_eq!(desk.count(is_shell_probe) as u32, end.attempts());
        assert!(desk.count(is_shell_probe) <= 10);
        // One pause to let the shell settle, one between each two probes.
        assert_eq!(desk.count(is_sleep) as u32, end.attempts());
        assert!(desk.slept <= 1000);
        assert_eq!(outcome == Outcome::Reparented, misses <= 9);
        if outcome == Outcome::Failed(IntegrationError::WorkerNotFound) {
            assert_eq!(end.attempts(), MAX_ATTEMPTS);
        }
        for request in &desk.log {
            if let Request::Sleep { millis } = request {
                assert_eq!(*millis, 100);
            }
        }
    }
}

#[test]
fn locate_finds_the_icon_worker_on_the_first_scan() {
    let mut desk = desktop();
    desk.workers = vec![(0x200, false), (0x201, true)];
    let (outcome, end) = desk.run(locate_desktop_host());
    assert_eq!(outcome, Outcome::Located);
    assert_eq!(end.desktop_host(), Some(handle(0x201)));
    assert_eq!(end.attempts(), 1);
    assert_eq!(desk.count(is_scan_start), 1);
    assert_eq!(desk.slept, 0);
    assert_eq!(desk.count(is_set_parent), 0);
}

#[test]
fn locate_scans_ten_times_then_takes_the_worker_under_the_shell() {
    let mut desk = desktop();
    desk.workers = vec![(0x200, false)];
    desk.shell_worker = Some((0x300, 0));
    let (outcome, end) = desk.run(locate_desktop_host());
    assert_eq!(outcome, Outcome::Located);
    assert_eq!(end.desktop_host(), Some(handle(0x300)));
    assert_eq!(end.attempts(), 10);
    assert_eq!(desk.count(is_scan_start), 10);
    assert_eq!(desk.count(is_sleep), 9);
    assert_eq!(desk.slept, 900);
    assert_eq!(desk.count(is_shell_probe), 1);
}

#[test]
fn locate_without_any_worker_finds_nothing() {
    let mut desk = desktop();
    let (outcome, end) = desk.run(locate_desktop_host());
    assert_eq!(outcome, Outcome::Failed(IntegrationError::WorkerNotFound));
    assert_eq!(end.desktop_host(), None);
    assert_eq!(end.attempts(), 10);
    assert_eq!(desk.count(is_scan_start), 10);
    assert_eq!(desk.count(is_shell_probe), 1);
    assert_eq!(desk.count(is_sleep), 9);
    assert_eq!(desk.slept, 900);
}

#[test]
fn widget_is_reparented_styled_and_raised() {
    let mut desk = desktop();
    desk.workers = vec![(0x200, true)];
    desk.style = 0x0000_0100;
    let (outcome, end) = desk.run(set_widget_on_desktop(handle(WINDOW)));
    assert_eq!(outcome, Outcome::Reparented);
    assert_eq!(desk.parent, 0x200);
    assert_eq!(desk.style, 0x0800_0180);
    assert!(desk.topmost);
    assert_eq!(end.style_before, 0x0000_0100);
    assert_eq!(end.style_after, 0x0800_0180);
    assert_eq!(desk.count(is_set_parent), 1);
    let tail = &desk.log[desk.log.len() - 3..];
    assert_eq!(
        tail,
        &[
            Request::GetExStyle { window: handle(WINDOW) },
            Request::SetExStyle { window: handle(WINDOW), style: 0x0800_0180 },
            Request::SetPosition { window: handle(WINDOW), insert_after: -1, flags: 0x13 },
        ]
    );
}

#[test]
fn widget_without_a_shell_still_gets_style_and_order() {
    let mut desk = desktop();
    desk.shell = 0;
    desk.style = 0x20;
    let (outcome, end) = desk.run(set_widget_on_desktop(handle(WINDOW)));
    assert_eq!(outcome, Outcome::StyleOnly);
    assert_eq!(desk.parent, DESKTOP);
    assert_eq!(desk.style, 0x20 | WS_EX_NOACTIVATE | WS_EX_TOOLWINDOW);
    assert!(desk.topmost);
    assert_eq!(end.attempts(), 0);
    assert_eq!(desk.count(is_set_parent), 0);
    assert_eq!(desk.log.len(), 4);
    assert_eq!(outcome.into_result(), Ok(()));
}

#[test]
fn widget_without_a_worker_still_gets_style_and_order() {
    let mut desk = desktop();
    let (outcome, end) = desk.run(set_widget_on_desktop(handle(WINDOW)));
    assert_eq!(outcome, Outcome::StyleOnly);
    assert_eq!(end.attempts(), 10);
    assert_eq!(desk.count(is_scan_start), 10);
    assert_eq!(desk.count(is_shell_probe), 1);
    assert_eq!(desk.count(is_set_parent), 0);
    assert_eq!(desk.style, WS_EX_NOACTIVATE | WS_EX_TOOLWINDOW);
    assert!(desk.topmost);
}

#[test]
fn widget_tolerates_a_rejected_parent() {
    let mut desk = desktop();
    desk.workers = vec![(0x200, true)];
    desk.accept_parent = false;
    let (outcome, _) = desk.run(set_widget_on_desktop(handle(WINDOW)));
    assert_eq!(outcome, Outcome::StyleOnly);
    assert_eq!(desk.parent, DESKTOP);
    assert_eq!(desk.style, WS_EX_NOACTIVATE | WS_EX_TOOLWINDOW);
}

#[test]
fn widget_fails_when_the_style_is_rejected() {
    let mut desk = desktop();
    desk.workers = vec![(0x200, true)];
    desk.accept_style = false;
    let (outcome, _) = desk.run(set_widget_on_desktop(handle(WINDOW)));
    assert_eq!(outcome, Outcome::Failed(IntegrationError::StyleOrPositionRejected));
    assert!(!desk.topmost);
    assert_eq!(
        outcome.into_result(),
        Err("Failed to set window style or position".to_string())
    );
}

#[test]
fn widget_fails_when_the_position_is_rejected() {
    let mut desk = desktop();
    desk.workers = vec![(0x200, true)];
    desk.accept_position = false;
    let (outcome, _) = desk.run(set_widget_on_desktop(handle(WINDOW)));
    assert_eq!(outcome, Outcome::Failed(IntegrationError::StyleOrPositionRejected));
}

#[test]
fn widget_style_is_a_superset_of_the_old_style() {
    for before in [0u32, 0x80, 0x0800_0000, 0xffff_ffff, 0x1234_5678, 0x0000_0008, 0x8000_0001] {
        let mut desk = desktop();
        desk.workers = vec![(0x200, true)];
        desk.style = before;
        let (outcome, _) = desk.run(set_widget_on_desktop(handle(WINDOW)));
        assert!(outcome.succeeded());
        assert_eq!(desk.style & before, before);
        assert_eq!(desk.style & WS_EX_NOACTIVATE, WS_EX_NOACTIVATE);
        assert_eq!(desk.style & WS_EX_TOOLWINDOW, WS_EX_TOOLWINDOW);
        assert_eq!(desk.style, before | 0x0800_0080);
        assert_eq!(desk.count(is_set_style), 1);
    }
}

#[test]
fn widget_attached_twice_is_as_attached_once() {
    let mut desk = desktop();
    desk.workers = vec![(0x200, true)];
    desk.style = 0x0004_0100;
    let (first, first_end) = desk.run(set_widget_on_desktop(handle(WINDOW)));
    let style = desk.style;
    let parent = desk.parent;
    let (second, second_end) = desk.run(set_widget_on_desktop(handle(WINDOW)));
    assert_eq!(first, Outcome::Reparented);
    assert_eq!(second, Outcome::Reparented);
    assert_eq!(desk.style, style);
    assert_eq!(desk.parent, parent);
    assert!(desk.topmost);
    assert_eq!(second_end.style_before, first_end.style_after);
    assert_eq!(second_end.style_after, first_end.style_after);
}

#[test]
fn finished_procedure_ignores_further_replies() {
    let mut desk = desktop();
    desk.shell = 0;
    let (_, end) = desk.run(locate_desktop_host());
    assert_eq!(end.advance(Reply::Window(handle(5))), end);
    assert_eq!(end.advance(Reply::Done), end);
    assert_eq!(end.outcome(), Some(Outcome::Failed(IntegrationError::ShellNotFound)));
}

#[test]
fn a_reply_of_the_wrong_kind_counts_as_failure() {
    assert_eq!(Reply::Done.window(), handle(0));
    assert_eq!(Reply::Style(7).window(), handle(0));
    assert_eq!(Reply::Window(handle(9)).window(), handle(9));
    assert_eq!(Reply::Window(handle(9)).style(), 0);
    assert_eq!(Reply::Style(7).style(), 7);
    assert!(Reply::Status(true).accepted());
    assert!(!Reply::Status(false).accepted());
    assert!(!Reply::Done.accepted());
    let started = set_wallpaper_behind_desktop_sync(handle(WINDOW));
    let end = started.advance(Reply::Status(true));
    assert_eq!(end.stage, Stage::Finished(Outcome::Failed(IntegrationError::ShellNotFound)));
}

#[test]
fn a_pending_procedure_has_no_outcome() {
    let started = set_widget_on_desktop(handle(WINDOW));
    assert_eq!(started.outcome(), None);
    assert_eq!(started.desktop_host(), None);
    assert_eq!(
        started.pending(),
        Step::Perform(Request::FindTopLevel { class: WindowClass::Shell })
    );
    assert!(WindowHandle::null().is_null());
    assert!(!handle(3).is_null());
}

#[test]
fn window_classes_have_their_native_names() {
    assert_eq!(WindowClass::Shell.name(), "Progman");
    assert_eq!(WindowClass::Worker.name(), "WorkerW");
    assert_eq!(WindowClass::IconView.name(), "SHELLDLL_DefView");
}

#[test]
fn errors_have_messages() {
    assert_eq!(IntegrationError::ShellNotFound.message(), "Failed to find Progman window");
    assert_eq!(IntegrationError::WorkerNotFound.message(), "Failed to find WorkerW window");
    assert_eq!(IntegrationError::ReparentRejected.message(), "Failed to set window parent");
    assert_eq!(
        IntegrationError::StyleOrPositionRejected.message(),
        "Failed to set window style or position"
    );
    assert!(Outcome::Located.succeeded());
    assert!(Outcome::StyleOnly.succeeded());
    assert!(!Outcome::Failed(IntegrationError::ShellNotFound).succeeded());
}
