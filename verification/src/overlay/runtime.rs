//! Decisions of the overlay manager: which overlay runs for the osu! window
//! found, and when the web and injected runtimes are started, retried or
//! given up. Times are milliseconds of a monotonic clock kept by the shell.

use vstd::prelude::*;

use crate::models::OverlaySettings;
use crate::overlay::editor::IngameOverlay;
use crate::overlay::geometry::{sat_add, saturating_add, OsuWindowTarget, Rect};

verus! {

/// How long the web overlay may run without painting before it counts as failed.
pub const WEB_OVERLAY_FAILOVER_MS: u64 = 8_000;
/// How long a failed web overlay waits before it is tried again.
pub const WEB_OVERLAY_RETRY_MS: u64 = 15_000;
/// How long a failed injection waits before it is tried again.
pub const INGAME_INJECT_RETRY_MS: u64 = 750;

pub open spec fn sat_add_u64(a: u64, b: u64) -> u64 {
    if a + b > u64::MAX {
        u64::MAX
    } else {
        (a + b) as u64
    }
}

fn saturating_add_u64(a: u64, b: u64) -> (r: u64)
    ensures
        r == sat_add_u64(a, b),
{
    if a > u64::MAX - b {
        u64::MAX
    } else {
        a + b
    }
}

/// The web overlay runtime (a separate process drawing the HUD) as the
/// manager tracks it. Whether the process reported a failure or has painted
/// comes from its output, read by the shell.
#[derive(Clone, Copy, Debug, PartialEq, Eq, Structural)]
pub struct WebOverlayState {
    pub pid: Option<u32>,
    pub has_child: bool,
    pub editor_active: bool,
    pub started_at_ms: Option<u64>,
    pub failed_until_ms: Option<u64>,
    pub disabled_pid: Option<u32>,
}

/// What the shell does after the first part of a web overlay sync.
#[derive(Clone, Copy, Debug, PartialEq, Eq, Structural)]
pub enum WebSyncStep {
    /// Nothing to send this tick; the process (if any) was stopped when `stop_process`.
    Skip { stop_process: bool },
    /// Stop any old process and start one for the target.
    Spawn,
    /// The process runs for the target: send it the state.
    Send,
}

/// The process-related fields cleared.
pub open spec fn without_process(s: WebOverlayState) -> WebOverlayState {
    WebOverlayState { pid: None, has_child: false, editor_active: false, started_at_ms: None, ..s }
}

/// Whether the runtime counts as failed: it said so, or it has not painted
/// within the failover time.
pub open spec fn spec_web_failed(s: WebOverlayState, now: u64, reported_failure: bool, rendered: bool) -> bool {
    reported_failure || match s.started_at_ms {
        Some(t) => now >= t && now - t > WEB_OVERLAY_FAILOVER_MS && !rendered,
        None => false,
    }
}

pub open spec fn in_cooldown(s: WebOverlayState, now: u64) -> bool {
    match s.failed_until_ms {
        Some(t) => now < t,
        None => false,
    }
}

/// The first part of a sync for the osu! process `pid`: the new state and the step.
pub open spec fn spec_begin_web_sync(
    s: WebOverlayState,
    now: u64,
    pid: u32,
    reported_failure: bool,
    rendered: bool,
    child_exited: bool,
) -> (WebOverlayState, WebSyncStep) {
    if s.disabled_pid == Some(pid) {
        (s, WebSyncStep::Skip { stop_process: false })
    } else {
        let s1 = WebOverlayState { disabled_pid: None, ..s };
        if in_cooldown(s1, now) {
            (s1, WebSyncStep::Skip { stop_process: false })
        } else if spec_web_failed(s1, now, reported_failure, rendered) || child_exited {
            (
                WebOverlayState {
                    failed_until_ms: Some(sat_add_u64(now, WEB_OVERLAY_RETRY_MS)),
                    ..without_process(s1)
                },
                WebSyncStep::Skip { stop_process: true },
            )
        } else if s1.pid != Some(pid) {
            (without_process(s1), WebSyncStep::Spawn)
        } else {
            (s1, WebSyncStep::Send)
        }
    }
}

impl WebOverlayState {
    pub fn new() -> (r: Self)
        ensures
            r == (WebOverlayState {
                pid: None,
                has_child: false,
                editor_active: false,
                started_at_ms: None,
                failed_until_ms: None,
                disabled_pid: None,
            }),
    {
        WebOverlayState {
            pid: None,
            has_child: false,
            editor_active: false,
            started_at_ms: None,
            failed_until_ms: None,
            disabled_pid: None,
        }
    }

    fn reset_process(&mut self)
        ensures
            *final(self) == without_process(*old(self)),
    {
        self.pid = None;
        self.has_child = false;
        self.editor_active = false;
        self.started_at_ms = None;
    }

    /// Stops the runtime and forgets any process it was disabled for.
    pub fn reset(&mut self)
        ensures
            *final(self) == (WebOverlayState { disabled_pid: None, ..without_process(*old(self)) }),
    {
        self.reset_process();
        self.disabled_pid = None;
    }

    /// Whether a runtime process is running.
    pub fn is_running(&self) -> (r: bool)
        ensures
            r == self.has_child,
    {
        self.has_child
    }

    /// Whether the runtime failed.
    pub fn failed(&self, now: u64, reported_failure: bool, rendered: bool) -> (r: bool)
        ensures
            r == spec_web_failed(*self, now, reported_failure, rendered),
    {
        reported_failure || match self.started_at_ms {
            Some(t) => now >= t && now - t > WEB_OVERLAY_FAILOVER_MS && !rendered,
            None => false,
        }
    }

    /// Whether the web overlay cannot serve now: disabled for a process, in
    /// its retry wait, or failed (then the injected overlay takes over).
    pub fn failed_or_in_cooldown(&self, now: u64, reported_failure: bool, rendered: bool) -> (r: bool)
        ensures
            r == (self.disabled_pid is Some || in_cooldown(*self, now) || spec_web_failed(
                *self,
                now,
                reported_failure,
                rendered,
            )),
    {
        if self.disabled_pid.is_some() {
            return true;
        }
        let cooling = match self.failed_until_ms {
            Some(t) => now < t,
            None => false,
        };
        cooling || self.failed(now, reported_failure, rendered)
    }

    /// Starts a sync tick for the osu! process `pid`.
    pub fn begin_sync(
        &mut self,
        now: u64,
        pid: u32,
        reported_failure: bool,
        rendered: bool,
        child_exited: bool,
    ) -> (r: WebSyncStep)
        ensures
            (*final(self), r) == spec_begin_web_sync(
                *old(self),
                now,
                pid,
                reported_failure,
                rendered,
                child_exited,
            ),
    {
        if self.disabled_pid == Some(pid) {
            return WebSyncStep::Skip { stop_process: false };
        }
        if self.disabled_pid.is_some() {
            self.disabled_pid = None;
        }
        let cooling = match self.failed_until_ms {
            Some(t) => now < t,
            None => false,
        };
        if cooling {
            return WebSyncStep::Skip { stop_process: false };
        }
        if self.failed(now, reported_failure, rendered) || child_exited {
            self.failed_until_ms = Some(saturating_add_u64(now, WEB_OVERLAY_RETRY_MS));
            self.reset_process();
            return WebSyncStep::Skip { stop_process: true };
        }
        if self.pid != Some(pid) {
            self.reset_process();
            return WebSyncStep::Spawn;
        }
        WebSyncStep::Send
    }

    /// Records the outcome of starting the runtime for `pid`: on success it
    /// runs from `now`; on failure the web overlay is disabled for that process.
    pub fn spawn_finished(&mut self, pid: u32, ok: bool, now: u64)
        ensures
            ok ==> *final(self) == (WebOverlayState {
                pid: Some(pid),
                has_child: true,
                started_at_ms: Some(now),
                ..*old(self)
            }),
            !ok ==> *final(self) == (WebOverlayState {
                disabled_pid: Some(pid),
                failed_until_ms: None,
                ..without_process(*old(self))
            }),
    {
        if ok {
            self.pid = Some(pid);
            self.has_child = true;
            self.started_at_ms = Some(now);
        } else {
            self.disabled_pid = Some(pid);
            self.failed_until_ms = None;
            self.reset_process();
        }
    }

    /// Switches the web editor on or off; returns the new state to send.
    pub fn toggle_editor(&mut self) -> (r: bool)
        ensures
            r == !old(self).editor_active,
            *final(self) == (WebOverlayState { editor_active: r, ..*old(self) }),
    {
        self.editor_active = !self.editor_active;
        self.editor_active
    }
}

/// Once disabled for a process, the web overlay never starts again for it.
pub proof fn lemma_disabled_process_is_never_spawned(
    s: WebOverlayState,
    now: u64,
    pid: u32,
    reported_failure: bool,
    rendered: bool,
    child_exited: bool,
)
    requires
        s.disabled_pid == Some(pid),
    ensures
        spec_begin_web_sync(s, now, pid, reported_failure, rendered, child_exited) == (
            s,
            WebSyncStep::Skip { stop_process: false },
        ),
{
}

/// A failed runtime is stopped and waits the full retry time: until then no
/// tick starts it again.
pub proof fn lemma_failure_waits_before_retry(
    s: WebOverlayState,
    now: u64,
    pid: u32,
    later: u64,
    rendered: bool,
    child_exited: bool,
)
    requires
        s.disabled_pid != Some(pid),
        !in_cooldown(s, now),
        now <= later,
        later < now + WEB_OVERLAY_RETRY_MS,
        now + WEB_OVERLAY_RETRY_MS <= u64::MAX,
    ensures
        ({
            let (s1, step) = spec_begin_web_sync(s, now, pid, true, rendered, child_exited);
            &&& step == WebSyncStep::Skip { stop_process: true }
            &&& !s1.has_child
            &&& spec_begin_web_sync(s1, later, pid, false, rendered, false).1 == WebSyncStep::Skip {
                stop_process: false,
            }
        }),
{
    let s0 = WebOverlayState { disabled_pid: None, ..s };
    assert(spec_web_failed(s0, now, true, rendered));
    let s1 = WebOverlayState {
        failed_until_ms: Some(sat_add_u64(now, WEB_OVERLAY_RETRY_MS)),
        ..without_process(s0)
    };
    assert(spec_begin_web_sync(s, now, pid, true, rendered, child_exited) == (s1, WebSyncStep::Skip { stop_process: true }));
    assert(in_cooldown(s1, later));
}

/// What the injected overlay does this tick.
#[derive(Clone, Copy, Debug, PartialEq, Eq, Structural)]
pub enum IngameGate {
    /// The overlay is switched off: forget everything.
    Reset,
    /// A failed injection is still waiting for its retry time.
    Wait,
    /// Inject into the process first.
    Attach,
    /// Already attached: draw.
    Ready,
}

/// The injected overlay's gate for a tick on process `pid`.
pub open spec fn spec_ingame_gate(enabled: bool, failed_until: Option<u64>, now: u64, attached_pid: Option<u32>, pid: u32) -> IngameGate {
    if !enabled {
        IngameGate::Reset
    } else if (match failed_until {
        Some(t) => now < t,
        None => false,
    }) {
        IngameGate::Wait
    } else if attached_pid != Some(pid) {
        IngameGate::Attach
    } else {
        IngameGate::Ready
    }
}

pub fn ingame_gate(
    settings: &OverlaySettings,
    failed_until: Option<u64>,
    now: u64,
    overlay: &IngameOverlay,
    pid: u32,
) -> (r: IngameGate)
    ensures
        r == spec_ingame_gate(settings.enabled, failed_until, now, overlay@.pid, pid),
{
    if !settings.enabled {
        return IngameGate::Reset;
    }
    let waiting = match failed_until {
        Some(t) => now < t,
        None => false,
    };
    if waiting {
        return IngameGate::Wait;
    }
    if overlay.needs_attach(pid) {
        IngameGate::Attach
    } else {
        IngameGate::Ready
    }
}

/// When a failed injection may be tried again.
pub fn ingame_retry_at(now: u64) -> (r: u64)
    ensures
        r == sat_add_u64(now, INGAME_INJECT_RETRY_MS),
{
    saturating_add_u64(now, INGAME_INJECT_RETRY_MS)
}

/// What the overlay manager does with the windows this tick.
#[derive(Clone, Copy, Debug, PartialEq, Eq, Structural)]
pub enum WindowPlan {
    /// Hide the overlay window and stop both in-game runtimes.
    StopAll,
    /// As `StopAll`, and bring the settings window up (the hotkey was pressed without osu!).
    StopAllAndOpenSettings,
    /// Hide the overlay window; the overlay files are missing.
    HideOnly,
    /// Use the injected or windowed overlay; stop the web runtime first when `stop_web`.
    Legacy { stop_web: bool },
    /// Use the web runtime.
    Web,
}

/// The manager's choice from what it found this tick.
pub open spec fn spec_plan_overlay_window(
    enabled: bool,
    main_window_in_front: bool,
    target: Option<OsuWindowTarget>,
    hotkey_pressed: bool,
    has_dll_dir: bool,
    has_web_runtime: bool,
) -> WindowPlan {
    if !enabled || main_window_in_front {
        WindowPlan::StopAll
    } else {
        match target {
            None => if hotkey_pressed {
                WindowPlan::StopAllAndOpenSettings
            } else {
                WindowPlan::StopAll
            },
            Some(t) => if t.is_minimized {
                WindowPlan::StopAll
            } else if !has_dll_dir {
                WindowPlan::HideOnly
            } else if t.is_fullscreen_surface {
                WindowPlan::Legacy { stop_web: true }
            } else if !has_web_runtime {
                WindowPlan::Legacy { stop_web: false }
            } else {
                WindowPlan::Web
            },
        }
    }
}

pub fn plan_overlay_window(
    enabled: bool,
    main_window_in_front: bool,
    target: Option<OsuWindowTarget>,
    hotkey_pressed: bool,
    has_dll_dir: bool,
    has_web_runtime: bool,
) -> (r: WindowPlan)
    ensures
        r == spec_plan_overlay_window(
            enabled,
            main_window_in_front,
            target,
            hotkey_pressed,
            has_dll_dir,
            has_web_runtime,
        ),
{
    if !enabled || main_window_in_front {
        return WindowPlan::StopAll;
    }
    match target {
        None => {
            if hotkey_pressed {
                WindowPlan::StopAllAndOpenSettings
            } else {
                WindowPlan::StopAll
            }
        },
        Some(t) => {
            if t.is_minimized {
                WindowPlan::StopAll
            } else if !has_dll_dir {
                WindowPlan::HideOnly
            } else if t.is_fullscreen_surface {
                WindowPlan::Legacy { stop_web: true }
            } else if !has_web_runtime {
                WindowPlan::Legacy { stop_web: false }
            } else {
                WindowPlan::Web
            }
        },
    }
}

/// After a web sync: fall back to the legacy overlay when the web one failed,
/// stop the injected one while the web one runs.
#[derive(Clone, Copy, Debug, PartialEq, Eq, Structural)]
pub enum AfterWebSync {
    Legacy,
    StopIngame,
    Nothing,
}

pub fn after_web_sync(web_failed: bool, web_running: bool) -> (r: AfterWebSync)
    ensures
        r == (if web_failed {
            AfterWebSync::Legacy
        } else if web_running {
            AfterWebSync::StopIngame
        } else {
            AfterWebSync::Nothing
        }),
{
    if web_failed {
        AfterWebSync::Legacy
    } else if web_running {
        AfterWebSync::StopIngame
    } else {
        AfterWebSync::Nothing
    }
}

/// How the legacy path serves the target.
#[derive(Clone, Copy, Debug, PartialEq, Eq, Structural)]
pub enum LegacyPlan {
    /// A fullscreen game in the background: hide and stop the injected overlay.
    HideAndStopIngame,
    /// A fullscreen game in front: draw inside it.
    Ingame,
    /// A windowed game: stop the injected overlay and use an overlay window,
    /// opening the editor window first when `open_editor`.
    Window { open_editor: bool },
}

pub fn plan_legacy(target: &OsuWindowTarget, hotkey_pressed: bool) -> (r: LegacyPlan)
    ensures
        r == (if target.is_fullscreen_surface {
            if !target.is_foreground {
                LegacyPlan::HideAndStopIngame
            } else {
                LegacyPlan::Ingame
            }
        } else {
            LegacyPlan::Window { open_editor: hotkey_pressed }
        }),
{
    if target.is_fullscreen_surface {
        if !target.is_foreground {
            LegacyPlan::HideAndStopIngame
        } else {
            LegacyPlan::Ingame
        }
    } else {
        LegacyPlan::Window { open_editor: hotkey_pressed }
    }
}

/// Where the overlay window goes over a windowed game: the game's top-left
/// corner plus the HUD offset (saturating), at the HUD size.
pub fn capture_window_placement(target: &OsuWindowTarget, settings: &OverlaySettings) -> (r: (
    i32,
    i32,
    u32,
    u32,
))
    ensures
        r == (
            sat_add(target.rect.left, settings.offset_x),
            sat_add(target.rect.top, settings.offset_y),
            settings.width,
            settings.height,
        ),
{
    (
        saturating_add(target.rect.left, settings.offset_x),
        saturating_add(target.rect.top, settings.offset_y),
        settings.width,
        settings.height,
    )
}

/// Placement of the editor window: over the monitor for a fullscreen game
/// (without taking focus), else over the game window; at least 640 x 420.
pub open spec fn spec_editor_window(target: OsuWindowTarget) -> (i32, i32, u32, u32, bool) {
    let no_activate = target.is_fullscreen_surface;
    let r = if no_activate {
        target.monitor_rect
    } else {
        target.rect
    };
    let w = r.right - r.left;
    let h = r.bottom - r.top;
    (r.left, r.top, (if w > 640 { w } else { 640 }) as u32, (if h > 420 { h } else { 420 }) as u32, no_activate)
}

pub fn editor_window_placement(target: &OsuWindowTarget) -> (r: (i32, i32, u32, u32, bool))
    requires
        ({
            let rect = if target.is_fullscreen_surface {
                target.monitor_rect
            } else {
                target.rect
            };
            i32::MIN <= rect.right - rect.left <= i32::MAX && i32::MIN <= rect.bottom - rect.top
                <= i32::MAX
        }),
    ensures
        r == spec_editor_window(*target),
{
    let no_activate = target.is_fullscreen_surface;
    let rect: Rect = if no_activate {
        target.monitor_rect
    } else {
        target.rect
    };
    let w = rect.width();
    let h = rect.height();
    (rect.left, rect.top, if w > 640 { w as u32 } else { 640 }, if h > 420 { h as u32 } else { 420 }, no_activate)
}

/// The virtual key to poll for the editor hotkey: only while the game is
/// found and in front, and only for a known binding.
pub fn hotkey_key_to_poll(target: Option<OsuWindowTarget>, settings: &OverlaySettings) -> (r: Option<i32>)
    ensures
        r == (match target {
            Some(t) => if t.is_foreground {
                crate::overlay::keys::spec_virtual_key(settings.toggle_key@)
            } else {
                None
            },
            None => None,
        }),
{
    match target {
        Some(t) => {
            if !t.is_foreground {
                return None;
            }
            crate::overlay::keys::virtual_key_from_binding(settings.toggle_key.as_str())
        },
        None => None,
    }
}

} // verus!

verus! {

/// A line the web overlay runtime writes on its output, by its `type`.
#[derive(Clone, Copy, Debug, PartialEq, Eq, Structural)]
pub enum RuntimeMessage {
    /// The runtime found the game window.
    Added,
    /// The runtime painted a frame.
    Paint,
    /// The runtime reported an error.
    Error,
    /// The runtime lost its connection to the game.
    Disconnected,
    /// The runtime started.
    Ready,
    /// The editor in the runtime saved settings.
    Settings,
    /// Any other line, or one without a type.
    Other,
}

/// The kind of a runtime message with the given `type` field.
pub open spec fn spec_runtime_message(kind: Option<Seq<char>>) -> RuntimeMessage {
    match kind {
        Some(k) => if k == "added"@ {
            RuntimeMessage::Added
        } else if k == "paint"@ {
            RuntimeMessage::Paint
        } else if k == "error"@ {
            RuntimeMessage::Error
        } else if k == "disconnected"@ {
            RuntimeMessage::Disconnected
        } else if k == "ready"@ {
            RuntimeMessage::Ready
        } else if k == "settings"@ {
            RuntimeMessage::Settings
        } else {
            RuntimeMessage::Other
        },
        None => RuntimeMessage::Other,
    }
}

/// Classifies a line of the runtime's output by its `type` field.
pub fn classify_runtime_message(kind: Option<&str>) -> (r: RuntimeMessage)
    ensures
        r == spec_runtime_message(
            match kind {
                Some(k) => Some(k@),
                None => None,
            },
        ),
{
    match kind {
        Some(k) => {
            if crate::text::str_eq(k, "added") {
                RuntimeMessage::Added
            } else if crate::text::str_eq(k, "paint") {
                RuntimeMessage::Paint
            } else if crate::text::str_eq(k, "error") {
                RuntimeMessage::Error
            } else if crate::text::str_eq(k, "disconnected") {
                RuntimeMessage::Disconnected
            } else if crate::text::str_eq(k, "ready") {
                RuntimeMessage::Ready
            } else if crate::text::str_eq(k, "settings") {
                RuntimeMessage::Settings
            } else {
                RuntimeMessage::Other
            }
        },
        None => RuntimeMessage::Other,
    }
}

impl RuntimeMessage {
    /// Whether the message makes the runtime count as failed.
    pub fn marks_failure(&self) -> (r: bool)
        ensures
            r == (*self == RuntimeMessage::Error || *self == RuntimeMessage::Disconnected),
    {
        match self {
            RuntimeMessage::Error | RuntimeMessage::Disconnected => true,
            _ => false,
        }
    }

    /// Whether the message is written to the log.
    pub fn is_logged(&self) -> (r: bool)
        ensures
            r == (*self == RuntimeMessage::Error || *self == RuntimeMessage::Ready || *self
                == RuntimeMessage::Added || *self == RuntimeMessage::Paint),
    {
        match self {
            RuntimeMessage::Error | RuntimeMessage::Ready | RuntimeMessage::Added
            | RuntimeMessage::Paint => true,
            _ => false,
        }
    }
}

} // verus!

verus! {

/// The string in the `type` field of a line of JSON, as serde_json reads
/// it; `None` where the line is not JSON or has no such string field.
pub uninterp spec fn type_field_of(line: Seq<char>) -> Option<Seq<char>>;

/// Trusted: parses the line with `serde_json::from_str::<serde_json::Value>`
/// and reads its `type` field with `Value::get` and `Value::as_str`. The
/// result depends on the line alone; a line that is not JSON gives `None`.
#[verifier::external_body]
fn json_type_field(line: &str) -> (r: Option<String>)
    ensures
        crate::game::opt_view(r) == type_field_of(line@),
{
    serde_json::from_str::<serde_json::Value>(line)
        .ok()
        .and_then(|value| value.get("type").and_then(|kind| kind.as_str()).map(|kind| kind.to_string()))
}

/// The kind of a line the web overlay runtime writes, by its `type` field.
pub fn runtime_message_of(line: &str) -> (m: RuntimeMessage)
    ensures
        m == spec_runtime_message(type_field_of(line@)),
{
    let kind = json_type_field(line);
    match &kind {
        Some(k) => classify_runtime_message(Some(k.as_str())),
        None => classify_runtime_message(None),
    }
}

} // verus!
