//! The runtime's governor: hibernation of a hidden window, the network policy
//! it implies, frame scheduling, and the state changes of window, keyboard
//! and worker events.
//!
//! Each handler is a step from one `RuntimeCore` to the next, stated by a
//! spec function; the application performs the outside work that a step asks
//! for (dropping or rebuilding the GPU context, scheduling the event loop,
//! printing). Times are nanoseconds on a monotonic clock.
use vstd::prelude::*;
use crate::header::{FpsLimit, EngineHeader, SettingsAttention};
use crate::ui_zone::UiZone;
use crate::frame_delay::{NANOS_PER_SEC, frame_delay_nanos, spec_frame_delay, decay_period};
use crate::names::same_text;

verus! {

/// Seconds a hidden window stays warm before it prepares to go cold.
pub const WARM_TO_PREFLIGHT_SECS: u64 = 10;

/// Whether closing the window hides it to the background instead of exiting.
pub const RUN_IN_BACKGROUND_ON_CLOSE: bool = false;

/// How far the debug key for the pre-flight stage backdates the moment the
/// window was hidden, in seconds.
pub const PREFLIGHT_BACKDATE_SECS: u64 = 25;

/// The hibernation stages of a hidden window.
#[derive(Clone, Copy, PartialEq, Eq, Debug, Structural)]
pub enum HibernationState {
    /// Visible and running.
    Active,
    /// Hidden, with all resources kept.
    Warm,
    /// Hidden long enough to prepare for dropping the GPU context.
    PreFlight,
    /// Hidden, with the GPU context dropped.
    Cold,
}

/// Events that worker threads send to the event loop.
#[derive(Debug)]
pub enum AppEvent {
    WorkerMessage(String),
    UnstoppableTaskStarted(u64),
    UnstoppableTaskFinished(u64),
    IoHandoffComplete(u64),
    NetworkRestored,
}

/// A job handed to the background I/O manager.
pub struct IoJob {
    pub id: u64,
    pub payload_url: String,
}

/// The streams that the runtime asks the server for.
#[derive(Clone, Copy, PartialEq, Eq, Debug, Structural)]
pub enum NetworkPolicy {
    /// Neither video nor audio is wanted: every stream halts.
    HaltAllStreams,
    AudioOnly,
    VideoOnly,
    FullStream,
}

/// The network policy: video is wanted while the window is visible, audio
/// while it plays unmuted.
pub open spec fn spec_network_policy(is_hidden: bool, audio_is_playing: bool, audio_is_muted: bool) -> NetworkPolicy {
    let wants_video = !is_hidden;
    let wants_audio = audio_is_playing && !audio_is_muted;
    if !wants_video && !wants_audio {
        NetworkPolicy::HaltAllStreams
    } else if !wants_video && wants_audio {
        NetworkPolicy::AudioOnly
    } else if wants_video && !wants_audio {
        NetworkPolicy::VideoOnly
    } else {
        NetworkPolicy::FullStream
    }
}

/// Decides which streams the runtime asks for.
pub fn network_policy(is_hidden: bool, audio_is_playing: bool, audio_is_muted: bool) -> (p: NetworkPolicy)
    ensures
        p == spec_network_policy(is_hidden, audio_is_playing, audio_is_muted),
{
    let wants_video = !is_hidden;
    let wants_audio = audio_is_playing && !audio_is_muted;
    if !wants_video && !wants_audio {
        NetworkPolicy::HaltAllStreams
    } else if !wants_video && wants_audio {
        NetworkPolicy::AudioOnly
    } else if wants_video && !wants_audio {
        NetworkPolicy::VideoOnly
    } else {
        NetworkPolicy::FullStream
    }
}

/// A step of the hibernation governor.
#[derive(Clone, Copy, PartialEq, Eq, Debug, Structural)]
pub enum HibernationStep {
    /// Nothing changes.
    Steady,
    /// Audio keeps the hidden window warm.
    LockWarm,
    /// The window has been hidden long enough: prepare to go cold.
    EnterPreFlight,
    /// No task holds the window: drop the GPU context.
    EnterCold,
    /// The user is back: the window is active again; rebuild the GPU context
    /// when it was dropped, and announce the network policy.
    Wake { rebuild_gpu: bool },
}

/// What a governor tick found.
#[derive(Clone, Copy, PartialEq, Eq, Debug, Structural)]
pub struct HibernationTick {
    pub step: HibernationStep,
    /// A monitoring line is due: a whole number of five-second periods has
    /// passed since the window was hidden, and more than a second.
    pub log_monitor: bool,
    /// How long the window has been hidden.
    pub hidden_for: u64,
}

/// When the event loop wakes next.
#[derive(Clone, Copy, PartialEq, Eq, Debug, Structural)]
pub enum ControlPlan {
    /// Wait for the next event.
    Wait,
    /// Wait until the given time.
    WaitUntil(u64),
}

/// The plan for one pass of the event loop.
#[derive(Clone, Copy, PartialEq, Eq, Debug, Structural)]
pub enum FramePlan {
    /// The window is cold: wait for events and do nothing else.
    Sleep,
    /// Go on; the next frame is due at `next_frame_time`.
    Run { next_frame_time: u64 },
}

/// How a pass of the event loop ends.
#[derive(Clone, Copy, PartialEq, Eq, Debug, Structural)]
pub struct FrameEnd {
    pub request_redraw: bool,
    pub control: ControlPlan,
}

/// The counters of the last second, when a statistics line is due.
#[derive(Clone, Copy, PartialEq, Eq, Debug, Structural)]
pub struct TickStats {
    pub state: HibernationState,
    pub events: u32,
    pub logic: u32,
    pub frames: u32,
    pub target_fps: FpsLimit,
}

/// Debug keys of the runtime.
#[derive(Clone, Copy, PartialEq, Eq, Debug, Structural)]
pub enum DebugKey {
    /// `1`: force the active state.
    ForceActive,
    /// `2`: simulate hiding the window.
    ForceWarm,
    /// `3`: jump to the pre-flight stage, as if hidden long ago.
    ForcePreFlight,
    /// `4`: force the cold state and drop the GPU context.
    ForceCold,
    /// `u`: an unstoppable task starts.
    TaskStarted,
    /// `i`: an unstoppable task finishes.
    TaskFinished,
    /// `a`: toggle audio playback.
    ToggleAudio,
    /// Escape: quit.
    Escape,
    Other,
}

/// The key that a typed character string stands for.
pub open spec fn spec_key_of_text(c: Seq<char>) -> DebugKey {
    if c == "1"@ {
        DebugKey::ForceActive
    } else if c == "2"@ {
        DebugKey::ForceWarm
    } else if c == "3"@ {
        DebugKey::ForcePreFlight
    } else if c == "4"@ {
        DebugKey::ForceCold
    } else if c == "u"@ || c == "U"@ {
        DebugKey::TaskStarted
    } else if c == "i"@ || c == "I"@ {
        DebugKey::TaskFinished
    } else if c == "a"@ || c == "A"@ {
        DebugKey::ToggleAudio
    } else {
        DebugKey::Other
    }
}

/// The debug key that a typed character string stands for (letters in
/// either case).
pub fn key_of_text(c: &str) -> (k: DebugKey)
    ensures
        k == spec_key_of_text(c@),
{
    if same_text(c, "1") {
        DebugKey::ForceActive
    } else if same_text(c, "2") {
        DebugKey::ForceWarm
    } else if same_text(c, "3") {
        DebugKey::ForcePreFlight
    } else if same_text(c, "4") {
        DebugKey::ForceCold
    } else if same_text(c, "u") || same_text(c, "U") {
        DebugKey::TaskStarted
    } else if same_text(c, "i") || same_text(c, "I") {
        DebugKey::TaskFinished
    } else if same_text(c, "a") || same_text(c, "A") {
        DebugKey::ToggleAudio
    } else {
        DebugKey::Other
    }
}

/// What the application does after a debug key.
#[derive(Clone, Copy, PartialEq, Eq, Debug, Structural)]
pub struct KeyOutcome {
    pub exit: bool,
    pub drop_gpu: bool,
    /// The network policy changed and is announced.
    pub announce_policy: bool,
}

/// What closing the window does.
#[derive(Clone, Copy, PartialEq, Eq, Debug, Structural)]
pub enum CloseOutcome {
    Exit,
    /// The window hides and keeps running in the background.
    HideToBackground,
}

/// The plain state of the runtime.
#[derive(Clone, Copy, Debug)]
pub struct RuntimeCore {
    pub is_hidden: bool,
    /// When the window was hidden.
    pub hidden_since: Option<u64>,
    pub hibernation_state: HibernationState,
    pub active_unstoppable_tasks: u32,
    pub audio_is_playing: bool,
    pub audio_is_muted: bool,
    pub needs_state_update: bool,
    pub needs_redraw: bool,
    pub mouse_moved: bool,
    pub cursor_in_window: bool,
    pub is_mouse_down: bool,
    pub last_interaction: u64,
    pub last_frame_time: u64,
    pub last_log_time: u64,
    pub target_fps: FpsLimit,
    pub events_count: u32,
    pub logic_count: u32,
    pub frame_count: u32,
}

/// Audio plays and is not muted.
pub open spec fn audible(c: RuntimeCore) -> bool {
    c.audio_is_playing && !c.audio_is_muted
}

/// Time since `since`, or nothing when `since` lies ahead.
pub open spec fn elapsed_since(now: u64, since: u64) -> int {
    if now >= since {
        now - since
    } else {
        0
    }
}

/// The governor's decision for a hidden window: audible audio keeps it warm;
/// a warm window hidden for the warm period (when that is known) prepares to
/// go cold; a window in pre-flight goes cold once no unstoppable task runs.
pub open spec fn hidden_governance(c: RuntimeCore, hidden_for: int, timed: bool) -> (RuntimeCore, HibernationStep) {
    if audible(c) {
        if c.hibernation_state != HibernationState::Warm {
            (RuntimeCore { hibernation_state: HibernationState::Warm, ..c }, HibernationStep::LockWarm)
        } else {
            (c, HibernationStep::Steady)
        }
    } else if timed && hidden_for >= WARM_TO_PREFLIGHT_SECS * NANOS_PER_SEC && c.hibernation_state
        == HibernationState::Warm {
        (RuntimeCore { hibernation_state: HibernationState::PreFlight, ..c }, HibernationStep::EnterPreFlight)
    } else if c.hibernation_state == HibernationState::PreFlight && c.active_unstoppable_tasks == 0 {
        (RuntimeCore { hibernation_state: HibernationState::Cold, ..c }, HibernationStep::EnterCold)
    } else {
        (c, HibernationStep::Steady)
    }
}

/// The user is back: the window becomes active, forgets when it was hidden and
/// needs a redraw.
pub open spec fn wake(c: RuntimeCore, gpu_allocated: bool) -> (RuntimeCore, HibernationStep) {
    (
        RuntimeCore {
            hibernation_state: HibernationState::Active,
            hidden_since: None,
            needs_redraw: true,
            ..c
        },
        HibernationStep::Wake { rebuild_gpu: !gpu_allocated },
    )
}

/// One tick of the governor, at time `now`.
pub open spec fn spec_hibernation_tick(c: RuntimeCore, now: u64, gpu_allocated: bool) -> (RuntimeCore, HibernationTick) {
    if c.is_hidden {
        match c.hidden_since {
            Some(t) => {
                let e = elapsed_since(now, t);
                let (next, step) = hidden_governance(c, e, true);
                (
                    next,
                    HibernationTick {
                        step,
                        log_monitor: (e / (NANOS_PER_SEC as int)) % 5 == 0 && e > NANOS_PER_SEC,
                        hidden_for: e as u64,
                    },
                )
            },
            None => (c, HibernationTick { step: HibernationStep::Steady, log_monitor: false, hidden_for: 0 }),
        }
    } else if c.hibernation_state != HibernationState::Active {
        let (next, step) = wake(c, gpu_allocated);
        (next, HibernationTick { step, log_monitor: false, hidden_for: 0 })
    } else {
        (c, HibernationTick { step: HibernationStep::Steady, log_monitor: false, hidden_for: 0 })
    }
}

/// A state update after a visibility change.
pub open spec fn spec_engine_event(c: RuntimeCore, gpu_allocated: bool) -> (RuntimeCore, HibernationStep) {
    let c0 = RuntimeCore { needs_state_update: false, ..c };
    match c0.hidden_since {
        Some(_) => if c0.is_hidden {
            hidden_governance(c0, 0, false)
        } else {
            (c0, HibernationStep::Steady)
        },
        None => if c0.hibernation_state != HibernationState::Active {
            wake(c0, gpu_allocated)
        } else {
            (c0, HibernationStep::Steady)
        },
    }
}

/// The core after a worker event.
pub open spec fn spec_user_event(c: RuntimeCore, event: AppEvent) -> RuntimeCore {
    match event {
        AppEvent::WorkerMessage(_) => RuntimeCore { needs_redraw: true, ..c },
        AppEvent::UnstoppableTaskStarted(_) => RuntimeCore {
            active_unstoppable_tasks: (c.active_unstoppable_tasks + 1) as u32,
            ..c
        },
        AppEvent::UnstoppableTaskFinished(_) => RuntimeCore {
            active_unstoppable_tasks: if c.active_unstoppable_tasks > 0 {
                (c.active_unstoppable_tasks - 1) as u32
            } else {
                0
            },
            ..c
        },
        _ => c,
    }
}

/// The core and outcome after a debug key pressed at `now`.
pub open spec fn spec_debug_key(c: RuntimeCore, key: DebugKey, now: u64) -> (RuntimeCore, KeyOutcome) {
    let quiet = KeyOutcome { exit: false, drop_gpu: false, announce_policy: false };
    let (next, outcome) = match key {
        DebugKey::ForceActive => (
            RuntimeCore {
                hibernation_state: HibernationState::Active,
                is_hidden: false,
                hidden_since: None,
                ..c
            },
            KeyOutcome { announce_policy: true, ..quiet },
        ),
        DebugKey::ForceWarm => (
            RuntimeCore {
                hibernation_state: HibernationState::Warm,
                is_hidden: true,
                hidden_since: Some(now),
                ..c
            },
            quiet,
        ),
        DebugKey::ForcePreFlight => (
            RuntimeCore {
                hibernation_state: HibernationState::PreFlight,
                hidden_since: Some((now - PREFLIGHT_BACKDATE_SECS * NANOS_PER_SEC) as u64),
                ..c
            },
            quiet,
        ),
        DebugKey::ForceCold => (
            RuntimeCore { hibernation_state: HibernationState::Cold, ..c },
            KeyOutcome { drop_gpu: true, ..quiet },
        ),
        DebugKey::TaskStarted => (
            RuntimeCore { active_unstoppable_tasks: (c.active_unstoppable_tasks + 1) as u32, ..c },
            quiet,
        ),
        DebugKey::TaskFinished => (
            RuntimeCore {
                active_unstoppable_tasks: if c.active_unstoppable_tasks > 0 {
                    (c.active_unstoppable_tasks - 1) as u32
                } else {
                    0
                },
                ..c
            },
            quiet,
        ),
        DebugKey::ToggleAudio => (
            RuntimeCore { audio_is_playing: !c.audio_is_playing, ..c },
            KeyOutcome { announce_policy: true, ..quiet },
        ),
        DebugKey::Escape => (c, KeyOutcome { exit: true, ..quiet }),
        DebugKey::Other => (c, quiet),
    };
    (RuntimeCore { needs_redraw: true, ..next }, outcome)
}

/// The plan of a pass at `now` with the given frame delay: a frame time that
/// lags by more than two delays is moved up to `now`; a cold window sleeps.
pub open spec fn spec_plan_frame(c: RuntimeCore, now: u64, frame_delay: u64) -> (RuntimeCore, FramePlan) {
    let c1 = if elapsed_since(now, c.last_frame_time) > 2 * frame_delay {
        RuntimeCore { last_frame_time: now, ..c }
    } else {
        c
    };
    if c1.hibernation_state == HibernationState::Cold {
        (c1, FramePlan::Sleep)
    } else {
        (c1, FramePlan::Run { next_frame_time: (c1.last_frame_time + frame_delay) as u64 })
    }
}

/// How a pass ends: when it was due and a redraw is needed, the frame time
/// advances, the logic counter counts it, a visible window is redrawn and the
/// loop waits until the next frame; otherwise it waits for events.
pub open spec fn spec_finish_pass(c: RuntimeCore, due: bool, next_frame_time: u64) -> (RuntimeCore, FrameEnd) {
    if due && c.needs_redraw {
        (
            RuntimeCore {
                last_frame_time: next_frame_time,
                logic_count: (c.logic_count + 1) as u32,
                ..c
            },
            FrameEnd { request_redraw: !c.is_hidden, control: ControlPlan::WaitUntil(next_frame_time) },
        )
    } else {
        (c, FrameEnd { request_redraw: false, control: ControlPlan::Wait })
    }
}

/// The counters after a pass at `now`: the pass counts, and once a second
/// has passed since the last line the counters are reported and reset.
pub open spec fn spec_record_pass(c: RuntimeCore, now: u64) -> (RuntimeCore, Option<TickStats>) {
    let counted = RuntimeCore { events_count: (c.events_count + 1) as u32, ..c };
    if elapsed_since(now, c.last_log_time) >= NANOS_PER_SEC {
        (
            RuntimeCore { events_count: 0, logic_count: 0, frame_count: 0, last_log_time: now, ..counted },
            Some(
                TickStats {
                    state: c.hibernation_state,
                    events: counted.events_count,
                    logic: c.logic_count,
                    frames: c.frame_count,
                    target_fps: c.target_fps,
                },
            ),
        )
    } else {
        (counted, None)
    }
}

/// The core after a resize to `width` x `height` at `now`: a window of zero
/// size counts as hidden (minimized); any other size makes it visible and, when
/// a GPU context exists, needs a redraw. Either way the state is re-evaluated.
pub open spec fn spec_resized(c: RuntimeCore, width: u32, height: u32, gpu_allocated: bool, now: u64) -> RuntimeCore {
    if width > 0 && height > 0 {
        RuntimeCore {
            needs_redraw: if gpu_allocated { true } else { c.needs_redraw },
            is_hidden: false,
            needs_state_update: true,
            ..c
        }
    } else {
        RuntimeCore { is_hidden: true, hidden_since: Some(now), needs_state_update: true, ..c }
    }
}

/// The state after the pointer entered the window.
pub open spec fn spec_cursor_entered(c: RuntimeCore) -> RuntimeCore {
    RuntimeCore { cursor_in_window: true, ..c }
}

/// The state after the pointer left the window.
pub open spec fn spec_cursor_left(c: RuntimeCore) -> RuntimeCore {
    RuntimeCore { cursor_in_window: false, ..c }
}

/// The state after the pointer moved at `now`: the motion counts only while
/// the pointer is in the window.
pub open spec fn spec_cursor_moved(c: RuntimeCore, now: u64) -> RuntimeCore {
    if c.cursor_in_window {
        RuntimeCore { mouse_moved: true, last_interaction: now, ..c }
    } else {
        c
    }
}

/// The state after the window gained (`focused`) or lost focus at `now`.
pub open spec fn spec_focus(c: RuntimeCore, focused: bool, now: u64) -> RuntimeCore {
    if focused {
        RuntimeCore { last_interaction: now, ..c }
    } else {
        RuntimeCore { is_mouse_down: false, ..c }
    }
}

/// The state and answer after the window was asked to close at `now`.
pub open spec fn spec_close_requested(c: RuntimeCore, now: u64) -> (RuntimeCore, CloseOutcome) {
    if RUN_IN_BACKGROUND_ON_CLOSE {
        (
            RuntimeCore {
                is_hidden: true,
                hidden_since: Some(now),
                hibernation_state: HibernationState::Warm,
                ..c
            },
            CloseOutcome::HideToBackground,
        )
    } else {
        (c, CloseOutcome::Exit)
    }
}

/// The state and frame limit after the window moved to a monitor of
/// `monitor_hz` while the header showed `header_fps`.
pub open spec fn spec_monitor_changed(c: RuntimeCore, header_fps: FpsLimit, monitor_hz: u32) -> (RuntimeCore, FpsLimit) {
    let fps = header_fps.synced_to_monitor_spec(monitor_hz);
    (RuntimeCore { target_fps: fps, needs_redraw: true, ..c }, fps)
}

/// The state after a mouse button was pressed or released at `now`.
pub open spec fn spec_mouse_button(c: RuntimeCore, pressed: bool, now: u64) -> RuntimeCore {
    RuntimeCore { is_mouse_down: pressed, last_interaction: now, needs_redraw: true, ..c }
}

/// The state after the wheel turned at `now`.
pub open spec fn spec_wheel(c: RuntimeCore, now: u64) -> RuntimeCore {
    RuntimeCore { last_interaction: now, needs_redraw: true, ..c }
}

/// The state after the window was created on a monitor of `monitor_hz`.
pub open spec fn spec_window_created(c: RuntimeCore, monitor_hz: u32) -> RuntimeCore {
    RuntimeCore { target_fps: FpsLimit { value: monitor_hz, is_auto: true }, ..c }
}

/// The state after something asked for a redraw (a scale change, a hover
/// effect, a dragged table).
pub open spec fn spec_redraw_wanted(c: RuntimeCore) -> RuntimeCore {
    RuntimeCore { needs_redraw: true, ..c }
}

/// The state after a requested redraw began, and whether the frame is drawn:
/// not while the window is cold or hidden.
pub open spec fn spec_begin_redraw(c: RuntimeCore) -> (RuntimeCore, bool) {
    (
        RuntimeCore { needs_redraw: false, ..c },
        !(c.hibernation_state == HibernationState::Cold || c.is_hidden),
    )
}

/// The state after a frame was presented.
pub open spec fn spec_frame_presented(c: RuntimeCore) -> RuntimeCore {
    RuntimeCore { frame_count: (c.frame_count + 1) as u32, ..c }
}

impl RuntimeCore {
    /// The state of a new runtime at `now`: active, visible, at a manual
    /// 30 FPS limit, with a state update and a redraw pending.
    pub fn new(now: u64) -> (c: RuntimeCore)
        ensures
            !c.is_hidden,
            c.hidden_since is None,
            c.hibernation_state == HibernationState::Active,
            c.active_unstoppable_tasks == 0,
            !c.audio_is_playing,
            !c.audio_is_muted,
            c.needs_state_update,
            c.needs_redraw,
            !c.mouse_moved,
            !c.cursor_in_window,
            !c.is_mouse_down,
            c.last_interaction == now,
            c.last_frame_time == now,
            c.last_log_time == now,
            c.target_fps == (FpsLimit { value: 30, is_auto: false }),
            c.events_count == 0,
            c.logic_count == 0,
            c.frame_count == 0,
    {
        RuntimeCore {
            is_hidden: false,
            hidden_since: None,
            hibernation_state: HibernationState::Active,
            active_unstoppable_tasks: 0,
            audio_is_playing: false,
            audio_is_muted: false,
            needs_state_update: true,
            needs_redraw: true,
            mouse_moved: false,
            cursor_in_window: false,
            is_mouse_down: false,
            last_interaction: now,
            last_frame_time: now,
            last_log_time: now,
            target_fps: FpsLimit { value: 30, is_auto: false },
            events_count: 0,
            logic_count: 0,
            frame_count: 0,
        }
    }

    /// The network policy for the current state.
    pub fn network_policy(&self) -> (p: NetworkPolicy)
        ensures
            p == spec_network_policy(self.is_hidden, self.audio_is_playing, self.audio_is_muted),
    {
        network_policy(self.is_hidden, self.audio_is_playing, self.audio_is_muted)
    }

    fn hidden_governance(&mut self, hidden_for: u64, timed: bool) -> (step: HibernationStep)
        ensures
            (*final(self), step) == hidden_governance(*old(self), hidden_for as int, timed),
    {
        if self.audio_is_playing && !self.audio_is_muted {
            if self.hibernation_state != HibernationState::Warm {
                self.hibernation_state = HibernationState::Warm;
                HibernationStep::LockWarm
            } else {
                HibernationStep::Steady
            }
        } else if timed && hidden_for >= WARM_TO_PREFLIGHT_SECS * NANOS_PER_SEC
            && self.hibernation_state == HibernationState::Warm {
            self.hibernation_state = HibernationState::PreFlight;
            HibernationStep::EnterPreFlight
        } else if self.hibernation_state == HibernationState::PreFlight
            && self.active_unstoppable_tasks == 0 {
            self.hibernation_state = HibernationState::Cold;
            HibernationStep::EnterCold
        } else {
            HibernationStep::Steady
        }
    }

    fn wake(&mut self, gpu_allocated: bool) -> (step: HibernationStep)
        ensures
            (*final(self), step) == wake(*old(self), gpu_allocated),
    {
        self.hibernation_state = HibernationState::Active;
        self.hidden_since = None;
        self.needs_redraw = true;
        HibernationStep::Wake { rebuild_gpu: !gpu_allocated }
    }

    /// One tick of the hibernation governor at `now`; `gpu_allocated` tells
    /// whether a GPU context exists.
    pub fn hibernation_tick(&mut self, now: u64, gpu_allocated: bool) -> (t: HibernationTick)
        ensures
            (*final(self), t) == spec_hibernation_tick(*old(self), now, gpu_allocated),
    {
        if self.is_hidden {
            match self.hidden_since {
                Some(since) => {
                    let e: u64 = if now >= since {
                        now - since
                    } else {
                        0
                    };
                    let step = self.hidden_governance(e, true);
                    let secs = e / NANOS_PER_SEC;
                    HibernationTick {
                        step,
                        log_monitor: secs % 5 == 0 && e > NANOS_PER_SEC,
                        hidden_for: e,
                    }
                },
                None => HibernationTick { step: HibernationStep::Steady, log_monitor: false, hidden_for: 0 },
            }
        } else if self.hibernation_state != HibernationState::Active {
            let step = self.wake(gpu_allocated);
            HibernationTick { step, log_monitor: false, hidden_for: 0 }
        } else {
            HibernationTick { step: HibernationStep::Steady, log_monitor: false, hidden_for: 0 }
        }
    }

    /// The state update that follows a visibility change.
    pub fn engine_event(&mut self, gpu_allocated: bool) -> (step: HibernationStep)
        ensures
            (*final(self), step) == spec_engine_event(*old(self), gpu_allocated),
    {
        self.needs_state_update = false;
        match self.hidden_since {
            Some(_) => {
                if self.is_hidden {
                    self.hidden_governance(0, false)
                } else {
                    HibernationStep::Steady
                }
            },
            None => {
                if self.hibernation_state != HibernationState::Active {
                    self.wake(gpu_allocated)
                } else {
                    HibernationStep::Steady
                }
            },
        }
    }

    /// The delay until the next frame at `now`.
    pub fn frame_delay(&self, now: u64) -> (d: u64)
        requires
            self.is_hidden || elapsed_since(now, self.last_interaction) >= decay_period()
                || self.target_fps.value > 0,
        ensures
            d == spec_frame_delay(
                self.is_hidden,
                self.target_fps.value,
                elapsed_since(now, self.last_interaction),
            ),
    {
        let idle: u64 = if now >= self.last_interaction {
            now - self.last_interaction
        } else {
            0
        };
        frame_delay_nanos(self.is_hidden, self.target_fps, idle as u128)
    }

    /// Plans a pass of the event loop at `now`.
    pub fn plan_frame(&mut self, now: u64, frame_delay: u64) -> (p: FramePlan)
        requires
            2 * frame_delay <= u64::MAX,
            now + frame_delay <= u64::MAX,
            old(self).last_frame_time + frame_delay <= u64::MAX,
        ensures
            (*final(self), p) == spec_plan_frame(*old(self), now, frame_delay),
    {
        let lag: u64 = if now >= self.last_frame_time {
            now - self.last_frame_time
        } else {
            0
        };
        if lag > frame_delay * 2 {
            self.last_frame_time = now;
        }
        if self.hibernation_state == HibernationState::Cold {
            FramePlan::Sleep
        } else {
            FramePlan::Run { next_frame_time: self.last_frame_time + frame_delay }
        }
    }

    /// Whether a frame is due at `now`: the pointer moved or a redraw is
    /// needed, and the next frame time has come.
    pub fn frame_due(&self, now: u64, next_frame_time: u64) -> (due: bool)
        ensures
            due == ((self.mouse_moved || self.needs_redraw) && now >= next_frame_time),
    {
        (self.mouse_moved || self.needs_redraw) && now >= next_frame_time
    }

    /// Consumes the pointer motion: tells whether the pointer moved since the
    /// last frame, and clears the flag.
    pub fn take_mouse_motion(&mut self) -> (moved: bool)
        ensures
            moved == old(self).mouse_moved,
            *final(self) == (RuntimeCore { mouse_moved: false, ..*old(self) }),
    {
        let moved = self.mouse_moved;
        self.mouse_moved = false;
        moved
    }

    /// Ends a pass of the event loop.
    pub fn finish_pass(&mut self, due: bool, next_frame_time: u64) -> (e: FrameEnd)
        requires
            due && old(self).needs_redraw ==> old(self).logic_count < u32::MAX,
        ensures
            (*final(self), e) == spec_finish_pass(*old(self), due, next_frame_time),
    {
        if due && self.needs_redraw {
            self.last_frame_time = next_frame_time;
            self.logic_count = self.logic_count + 1;
            FrameEnd { request_redraw: !self.is_hidden, control: ControlPlan::WaitUntil(next_frame_time) }
        } else {
            FrameEnd { request_redraw: false, control: ControlPlan::Wait }
        }
    }

    /// Counts a pass of the event loop at `now` and reports the counters once
    /// a second.
    pub fn record_pass(&mut self, now: u64) -> (stats: Option<TickStats>)
        requires
            old(self).events_count < u32::MAX,
        ensures
            (*final(self), stats) == spec_record_pass(*old(self), now),
    {
        self.events_count = self.events_count + 1;
        let since: u64 = if now >= self.last_log_time {
            now - self.last_log_time
        } else {
            0
        };
        if since >= NANOS_PER_SEC {
            let stats = TickStats {
                state: self.hibernation_state,
                events: self.events_count,
                logic: self.logic_count,
                frames: self.frame_count,
                target_fps: self.target_fps,
            };
            self.events_count = 0;
            self.logic_count = 0;
            self.frame_count = 0;
            self.last_log_time = now;
            Some(stats)
        } else {
            None
        }
    }

    /// Applies a worker event.
    pub fn on_user_event(&mut self, event: &AppEvent)
        requires
            event is UnstoppableTaskStarted ==> old(self).active_unstoppable_tasks < u32::MAX,
        ensures
            *final(self) == spec_user_event(*old(self), *event),
    {
        match event {
            AppEvent::WorkerMessage(_) => {
                self.needs_redraw = true;
            },
            AppEvent::UnstoppableTaskStarted(_) => {
                self.active_unstoppable_tasks = self.active_unstoppable_tasks + 1;
            },
            AppEvent::UnstoppableTaskFinished(_) => {
                self.active_unstoppable_tasks = self.active_unstoppable_tasks.saturating_sub(1);
            },
            AppEvent::IoHandoffComplete(_) => {},
            AppEvent::NetworkRestored => {},
        }
    }

    /// Applies a debug key pressed at `now`.
    pub fn on_debug_key(&mut self, key: DebugKey, now: u64) -> (o: KeyOutcome)
        requires
            key == DebugKey::TaskStarted ==> old(self).active_unstoppable_tasks < u32::MAX,
            key == DebugKey::ForcePreFlight ==> now >= PREFLIGHT_BACKDATE_SECS * NANOS_PER_SEC,
        ensures
            (*final(self), o) == spec_debug_key(*old(self), key, now),
    {
        let mut outcome = KeyOutcome { exit: false, drop_gpu: false, announce_policy: false };
        match key {
            DebugKey::ForceActive => {
                self.hibernation_state = HibernationState::Active;
                self.is_hidden = false;
                self.hidden_since = None;
                outcome.announce_policy = true;
            },
            DebugKey::ForceWarm => {
                self.hibernation_state = HibernationState::Warm;
                self.is_hidden = true;
                self.hidden_since = Some(now);
            },
            DebugKey::ForcePreFlight => {
                self.hibernation_state = HibernationState::PreFlight;
                self.hidden_since = Some(now - PREFLIGHT_BACKDATE_SECS * NANOS_PER_SEC);
            },
            DebugKey::ForceCold => {
                self.hibernation_state = HibernationState::Cold;
                outcome.drop_gpu = true;
            },
            DebugKey::TaskStarted => {
                self.active_unstoppable_tasks = self.active_unstoppable_tasks + 1;
            },
            DebugKey::TaskFinished => {
                self.active_unstoppable_tasks = self.active_unstoppable_tasks.saturating_sub(1);
            },
            DebugKey::ToggleAudio => {
                self.audio_is_playing = !self.audio_is_playing;
                outcome.announce_policy = true;
            },
            DebugKey::Escape => {
                outcome.exit = true;
            },
            DebugKey::Other => {},
        }
        self.needs_redraw = true;
        outcome
    }

    /// The pointer entered the window.
    pub fn on_cursor_entered(&mut self)
        ensures
            *final(self) == spec_cursor_entered(*old(self)),
    {
        self.cursor_in_window = true;
    }

    /// The pointer left the window.
    pub fn on_cursor_left(&mut self)
        ensures
            *final(self) == spec_cursor_left(*old(self)),
    {
        self.cursor_in_window = false;
    }

    /// The pointer moved at `now`; the motion counts only while the pointer is
    /// in the window. Tells whether it counted.
    pub fn on_cursor_moved(&mut self, now: u64) -> (counted: bool)
        ensures
            counted == old(self).cursor_in_window,
            *final(self) == spec_cursor_moved(*old(self), now),
    {
        if !self.cursor_in_window {
            return false;
        }
        self.mouse_moved = true;
        self.last_interaction = now;
        true
    }

    /// The window gained or lost focus at `now`: gaining it counts as an
    /// interaction; losing it releases the mouse button.
    pub fn on_focus(&mut self, focused: bool, now: u64)
        ensures
            *final(self) == spec_focus(*old(self), focused, now),
    {
        if focused {
            self.last_interaction = now;
        } else {
            self.is_mouse_down = false;
        }
    }

    /// The window was resized at `now`.
    pub fn on_resized(&mut self, width: u32, height: u32, gpu_allocated: bool, now: u64)
        ensures
            *final(self) == spec_resized(*old(self), width, height, gpu_allocated, now),
    {
        if width > 0 && height > 0 {
            if gpu_allocated {
                self.needs_redraw = true;
            }
            self.is_hidden = false;
            self.needs_state_update = true;
        } else {
            self.is_hidden = true;
            self.hidden_since = Some(now);
            self.needs_state_update = true;
        }
    }

    /// The window was asked to close at `now`: it exits, or hides to the
    /// background when the runtime keeps running there.
    pub fn on_close_requested(&mut self, now: u64) -> (o: CloseOutcome)
        ensures
            (*final(self), o) == spec_close_requested(*old(self), now),
    {
        if RUN_IN_BACKGROUND_ON_CLOSE {
            self.is_hidden = true;
            self.hidden_since = Some(now);
            self.hibernation_state = HibernationState::Warm;
            CloseOutcome::HideToBackground
        } else {
            CloseOutcome::Exit
        }
    }

    /// The window moved to a monitor of `monitor_hz`: the header's frame limit
    /// follows it and becomes the target; a redraw is needed. Returns the new
    /// limit for the header.
    pub fn on_monitor_changed(&mut self, header_fps: FpsLimit, monitor_hz: u32) -> (fps: FpsLimit)
        ensures
            (*final(self), fps) == spec_monitor_changed(*old(self), header_fps, monitor_hz),
    {
        let fps = header_fps.synced_to_monitor(monitor_hz);
        self.target_fps = fps;
        self.needs_redraw = true;
        fps
    }

    /// A mouse button was pressed or released at `now`; it counts as an
    /// interaction and needs a redraw.
    pub fn on_mouse_button(&mut self, pressed: bool, now: u64)
        ensures
            *final(self) == spec_mouse_button(*old(self), pressed, now),
    {
        self.is_mouse_down = pressed;
        self.last_interaction = now;
        self.needs_redraw = true;
    }

    /// The wheel turned at `now`; it counts as an interaction and needs a redraw.
    pub fn on_wheel(&mut self, now: u64)
        ensures
            *final(self) == spec_wheel(*old(self), now),
    {
        self.last_interaction = now;
        self.needs_redraw = true;
    }

    /// The window was created on a monitor of `monitor_hz`: the target frame
    /// limit follows that monitor automatically.
    pub fn on_window_created(&mut self, monitor_hz: u32)
        ensures
            *final(self) == spec_window_created(*old(self), monitor_hz),
    {
        self.target_fps = FpsLimit { value: monitor_hz, is_auto: true };
    }

    /// The window's scale factor changed: everything must be redrawn.
    pub fn on_scale_factor_changed(&mut self)
        ensures
            *final(self) == spec_redraw_wanted(*old(self)),
    {
        self.needs_redraw = true;
    }

    /// Something visible changed (a hover effect, a dragged table): a redraw
    /// is needed.
    pub fn request_redraw(&mut self)
        ensures
            *final(self) == spec_redraw_wanted(*old(self)),
    {
        self.needs_redraw = true;
    }

    /// A redraw was requested: the pending redraw is taken; the frame is drawn
    /// unless the window is cold or hidden.
    pub fn begin_redraw(&mut self) -> (draw: bool)
        ensures
            (*final(self), draw) == spec_begin_redraw(*old(self)),
    {
        self.needs_redraw = false;
        !(self.hibernation_state == HibernationState::Cold || self.is_hidden)
    }

    /// A frame was presented.
    pub fn frame_presented(&mut self)
        requires
            old(self).frame_count < u32::MAX,
        ensures
            *final(self) == spec_frame_presented(*old(self)),
    {
        self.frame_count = self.frame_count + 1;
    }
}

/// The engine's own state: its header and the zone the pointer is in.
pub struct EngineState {
    pub header: EngineHeader,
    pub active_zone: UiZone,
}

impl EngineState {
    /// The engine of the diagram editor: its header titled `DB DIAGRAM PRO`,
    /// with the pointer over the canvas.
    pub fn new() -> (e: EngineState)
        ensures
            e.header.title@ == "DB DIAGRAM PRO"@,
            !e.header.settings_dropdown_open,
            !e.header.fps_selector_open,
            e.header.settings_attention == SettingsAttention::NotNeeded,
            e.header.current_fps == (FpsLimit { value: 144, is_auto: true }),
            !e.header.spec_cache_valid(),
            e.active_zone == UiZone::App,
    {
        EngineState { header: EngineHeader::new(String::from_str("DB DIAGRAM PRO")), active_zone: UiZone::App }
    }
}

/// The kind of a graphics adapter.
#[derive(Clone, Copy, PartialEq, Eq, Debug, Structural)]
pub enum GpuKind {
    DiscreteGpu,
    IntegratedGpu,
    VirtualGpu,
    Cpu,
    OtherGpu,
}

/// What the adapter choice reads of an adapter: its kind and whether it can
/// present to the window's surface.
#[derive(Clone, Copy, PartialEq, Eq, Debug, Structural)]
pub struct AdapterCandidate {
    pub kind: GpuKind,
    pub surface_supported: bool,
}

/// Whether the runtime prefers a discrete GPU.
pub const GPU_USAGE_RECOMMENDED: bool = true;

/// The kind of adapter the runtime looks for first.
pub open spec fn preferred_gpu_kind(user_wants_high_perf: bool) -> GpuKind {
    if GPU_USAGE_RECOMMENDED || user_wants_high_perf {
        GpuKind::DiscreteGpu
    } else {
        GpuKind::IntegratedGpu
    }
}

/// The adapter is of the preferred kind and supports the surface.
pub open spec fn is_preferred_adapter(a: AdapterCandidate, user_wants_high_perf: bool) -> bool {
    a.kind == preferred_gpu_kind(user_wants_high_perf) && a.surface_supported
}

/// No adapter before position `k` is a preferred one.
pub open spec fn no_preferred_before(adapters: Seq<AdapterCandidate>, k: int, user_wants_high_perf: bool) -> bool {
    forall|j: int| 0 <= j < k ==> !is_preferred_adapter(#[trigger] adapters[j], user_wants_high_perf)
}

/// No adapter before position `k` supports the surface.
pub open spec fn no_supported_before(adapters: Seq<AdapterCandidate>, k: int) -> bool {
    forall|j: int| 0 <= j < k ==> !(#[trigger] adapters[j]).surface_supported
}

/// Chooses an adapter: the first of the preferred kind that supports the
/// surface, else the first that supports the surface at all; `None` when no
/// adapter supports it.
pub fn select_adapter_index(adapters: &Vec<AdapterCandidate>, user_wants_high_perf: bool) -> (r: Option<usize>)
    ensures
        match r {
            Some(i) => {
                &&& i < adapters@.len()
                &&& adapters@[i as int].surface_supported
                &&& (is_preferred_adapter(adapters@[i as int], user_wants_high_perf) && no_preferred_before(
                    adapters@,
                    i as int,
                    user_wants_high_perf,
                )) || (no_preferred_before(adapters@, adapters@.len() as int, user_wants_high_perf)
                    && no_supported_before(adapters@, i as int))
            },
            None => no_supported_before(adapters@, adapters@.len() as int),
        },
{
    let target = if GPU_USAGE_RECOMMENDED || user_wants_high_perf {
        GpuKind::DiscreteGpu
    } else {
        GpuKind::IntegratedGpu
    };
    let n = adapters.len();
    let mut i: usize = 0;
    while i < n
        invariant
            n == adapters@.len(),
            i <= n,
            target == preferred_gpu_kind(user_wants_high_perf),
            no_preferred_before(adapters@, i as int, user_wants_high_perf),
        decreases n - i,
    {
        if adapters[i].kind == target && adapters[i].surface_supported {
            return Some(i);
        }
        i = i + 1;
    }
    let mut k: usize = 0;
    while k < n
        invariant
            n == adapters@.len(),
            k <= n,
            no_preferred_before(adapters@, n as int, user_wants_high_perf),
            no_supported_before(adapters@, k as int),
        decreases n - k,
    {
        if adapters[k].surface_supported {
            return Some(k);
        }
        k = k + 1;
    }
    None
}

/// The side of the window icon, in pixels.
pub const ICON_SIDE: usize = 32;

/// Pixel `p` of an RGBA buffer is opaque blue (0, 0, 180, 255).
pub open spec fn icon_pixel(rgba: Seq<u8>, p: int) -> bool {
    rgba[4 * p] == 0 && rgba[4 * p + 1] == 0 && rgba[4 * p + 2] == 180 && rgba[4 * p + 3] == 255
}

/// The RGBA pixels of the window icon: `ICON_SIDE` x `ICON_SIDE` pixels of
/// opaque blue (0, 0, 180, 255).
pub fn test_icon_rgba() -> (rgba: Vec<u8>)
    ensures
        rgba@.len() == 4 * ICON_SIDE * ICON_SIDE,
        forall|p: int| 0 <= p < ICON_SIDE * ICON_SIDE ==> #[trigger] icon_pixel(rgba@, p),
{
    let count = ICON_SIDE * ICON_SIDE;
    let mut rgba: Vec<u8> = Vec::with_capacity(count * 4);
    let mut p: usize = 0;
    while p < count
        invariant
            count == ICON_SIDE * ICON_SIDE,
            p <= count,
            rgba@.len() == 4 * p,
            forall|q: int| 0 <= q < p ==> #[trigger] icon_pixel(rgba@, q),
        decreases count - p,
    {
        let ghost old_rgba = rgba@;
        rgba.push(0);
        rgba.push(0);
        rgba.push(180);
        rgba.push(255);
        assert forall|q: int| 0 <= q <= p implies #[trigger] icon_pixel(rgba@, q) by {
            if q < p {
                assert(icon_pixel(old_rgba, q));
            }
        }
        p = p + 1;
    }
    rgba
}

/// The refresh rate of a monitor, in hertz, from the refresh rate of its first
/// video mode in millihertz: at least 10 Hz, and 60 Hz when no monitor or mode
/// is known.
pub fn refresh_rate_hz(mode_millihertz: Option<u32>) -> (hz: u32)
    ensures
        hz == match mode_millihertz {
            Some(m) => if m / 1000 >= 10 {
                m / 1000
            } else {
                10
            },
            None => 60,
        },
{
    match mode_millihertz {
        Some(m) => {
            let hz = m / 1000;
            if hz >= 10 {
                hz
            } else {
                10
            }
        },
        None => 60,
    }
}

} // verus!
