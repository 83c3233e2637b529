//! Properties that span the runtime's operations.
use vstd::prelude::*;
use crate::runtime::{spec_resized, spec_cursor_entered, spec_cursor_left, spec_cursor_moved, spec_focus, spec_close_requested, spec_monitor_changed, spec_mouse_button, spec_wheel, spec_window_created, spec_redraw_wanted, spec_begin_redraw, spec_frame_presented, KeyOutcome, RuntimeCore, HibernationState, HibernationStep, AppEvent, DebugKey, NetworkPolicy, FramePlan, audible, spec_hibernation_tick, spec_engine_event, spec_user_event, spec_debug_key, spec_network_policy, spec_plan_frame};
use crate::header::{FpsLimit, EngineHeaderAction, menus_after, fps_label};
use crate::ui_zone::hover_needs_redraw;
use crate::blueprint::{actions_from, stream_actions};
use crate::tokens::{Token, group_stream};

verus! {

/// A window goes cold only from the pre-flight stage, while hidden, with no
/// unstoppable task running and no audio playing unmuted; and the GPU context
/// is dropped exactly when it goes cold.
pub proof fn law_cold_only_when_idle(c: RuntimeCore, now: u64, gpu_allocated: bool)
    ensures
        ({
            let (next, tick) = spec_hibernation_tick(c, now, gpu_allocated);
            (tick.step == HibernationStep::EnterCold) == (next.hibernation_state == HibernationState::Cold
                && c.hibernation_state != HibernationState::Cold)
        }),
        ({
            let (next, tick) = spec_hibernation_tick(c, now, gpu_allocated);
            tick.step == HibernationStep::EnterCold ==> c.is_hidden && c.hibernation_state
                == HibernationState::PreFlight && c.active_unstoppable_tasks == 0 && !audible(c)
        }),
        ({
            let (next, step) = spec_engine_event(c, gpu_allocated);
            (step == HibernationStep::EnterCold) == (next.hibernation_state == HibernationState::Cold
                && c.hibernation_state != HibernationState::Cold)
        }),
        ({
            let (next, step) = spec_engine_event(c, gpu_allocated);
            step == HibernationStep::EnterCold ==> c.is_hidden && c.hibernation_state
                == HibernationState::PreFlight && c.active_unstoppable_tasks == 0 && !audible(c)
        }),
{
}

/// A hidden window whose audio plays unmuted is held warm by every tick.
pub proof fn law_audio_keeps_warm(c: RuntimeCore, now: u64, gpu_allocated: bool)
    requires
        c.is_hidden,
        c.hidden_since is Some,
        audible(c),
    ensures
        spec_hibernation_tick(c, now, gpu_allocated).0.hibernation_state == HibernationState::Warm,
        spec_engine_event(c, gpu_allocated).0.hibernation_state == HibernationState::Warm,
{
}

/// A visible window is active after a tick; when it wakes, it forgets when it
/// was hidden, needs a redraw, and rebuilds the GPU context exactly when none
/// exists.
pub proof fn law_visible_wakes(c: RuntimeCore, now: u64, gpu_allocated: bool)
    requires
        !c.is_hidden,
    ensures
        spec_hibernation_tick(c, now, gpu_allocated).0.hibernation_state == HibernationState::Active,
        c.hibernation_state != HibernationState::Active ==> {
            let (next, tick) = spec_hibernation_tick(c, now, gpu_allocated);
            &&& next.hidden_since is None
            &&& next.needs_redraw
            &&& tick.step == (HibernationStep::Wake { rebuild_gpu: !gpu_allocated })
        },
{
}

/// A hidden window is never made active by the governor, and a tick only
/// moves it one stage along: to warm, to pre-flight from warm, or to cold from
/// pre-flight.
pub proof fn law_hidden_stages(c: RuntimeCore, now: u64, gpu_allocated: bool)
    requires
        c.is_hidden,
    ensures
        ({
            let next = spec_hibernation_tick(c, now, gpu_allocated).0;
            ||| next.hibernation_state == c.hibernation_state
            ||| next.hibernation_state == HibernationState::Warm
            ||| (c.hibernation_state == HibernationState::Warm && next.hibernation_state
                == HibernationState::PreFlight)
            ||| (c.hibernation_state == HibernationState::PreFlight && next.hibernation_state
                == HibernationState::Cold)
        }),
        spec_hibernation_tick(c, now, gpu_allocated).0.hibernation_state != HibernationState::Active
            || c.hibernation_state == HibernationState::Active,
{
}

/// An unstoppable task that starts and then finishes leaves the task count as
/// it was; a task that finishes when none runs leaves the count at zero.
pub proof fn law_task_start_finish(c: RuntimeCore, a: u64, b: u64)
    requires
        c.active_unstoppable_tasks < u32::MAX,
    ensures
        spec_user_event(
            spec_user_event(c, AppEvent::UnstoppableTaskStarted(a)),
            AppEvent::UnstoppableTaskFinished(b),
        ).active_unstoppable_tasks == c.active_unstoppable_tasks,
        c.active_unstoppable_tasks == 0 ==> spec_user_event(
            c,
            AppEvent::UnstoppableTaskFinished(b),
        ).active_unstoppable_tasks == 0,
        spec_debug_key(spec_debug_key(c, DebugKey::TaskStarted, a).0, DebugKey::TaskFinished, b).0.active_unstoppable_tasks
            == c.active_unstoppable_tasks,
{
}

/// Every stream halts exactly when the window is hidden and no audio plays
/// unmuted; video streams exactly while the window is visible.
pub proof fn law_network_policy(is_hidden: bool, playing: bool, muted: bool)
    ensures
        (spec_network_policy(is_hidden, playing, muted) == NetworkPolicy::HaltAllStreams) == (is_hidden
            && !(playing && !muted)),
        (spec_network_policy(is_hidden, playing, muted) == NetworkPolicy::VideoOnly
            || spec_network_policy(is_hidden, playing, muted) == NetworkPolicy::FullStream)
            == !is_hidden,
{
}

/// A cold window schedules no frame: the event loop only waits for events.
pub proof fn law_cold_draws_nothing(c: RuntimeCore, now: u64, frame_delay: u64)
    requires
        c.hibernation_state == HibernationState::Cold,
    ensures
        spec_plan_frame(c, now, frame_delay).1 == FramePlan::Sleep,
{
}

/// After a monitor change the frame limit never exceeds the monitor's rate,
/// and syncing again to the same monitor changes nothing.
pub proof fn law_monitor_sync(f: FpsLimit, hz: u32)
    ensures
        f.synced_to_monitor_spec(hz).value <= hz,
        f.synced_to_monitor_spec(hz).synced_to_monitor_spec(hz) == f.synced_to_monitor_spec(hz),
        f.synced_to_monitor_spec(hz).is_auto == f.is_auto,
{
}

/// Choosing a frame limit in the selector closes the selector, and the limit's
/// label then reads the chosen rate.
pub proof fn law_fps_choice_label(settings_open: bool, fps_open: bool, fps: FpsLimit)
    ensures
        !menus_after(settings_open, fps_open, fps, EngineHeaderAction::SetFps30).1,
        fps_label(menus_after(settings_open, fps_open, fps, EngineHeaderAction::SetFps30).2) == "30 FPS"@,
        fps_label(menus_after(settings_open, fps_open, fps, EngineHeaderAction::SetFps60).2) == "60 FPS"@,
        fps_label(menus_after(settings_open, fps_open, fps, EngineHeaderAction::SetFps144).2) == "144 FPS"@,
        fps_label(menus_after(settings_open, fps_open, fps, EngineHeaderAction::SetFps240).2) == "240 FPS"@,
        fps_label(menus_after(settings_open, fps_open, fps, EngineHeaderAction::SetFpsAuto).2)
            == "Auto (Sync)"@,
{
}

/// Toggling the settings twice restores the dropdown; a closed dropdown never
/// leaves the frame-limit selector open.
pub proof fn law_settings_toggle(settings_open: bool, fps_open: bool, fps: FpsLimit)
    ensures
        ({
            let (s1, f1, p1) = menus_after(settings_open, fps_open, fps, EngineHeaderAction::ToggleSettings);
            menus_after(s1, f1, p1, EngineHeaderAction::ToggleSettings).0 == settings_open
        }),
        ({
            let (s1, f1, p1) = menus_after(settings_open, fps_open, fps, EngineHeaderAction::ToggleSettings);
            !s1 ==> !f1
        }),
{
}

/// Hovering the action that is already hovered never asks for a redraw, and
/// moving between regions that show no hover effect never does either.
pub proof fn law_hover_redraw<A>(hovered: Option<A>, was_visual: bool, next: A, wants_visual: bool)
    ensures
        hovered == Some(next) ==> !hover_needs_redraw(hovered, was_visual, next, wants_visual),
        (!was_visual && !wants_visual) ==> !hover_needs_redraw(hovered, was_visual, next, wants_visual),
{
}

/// Whether a GPU context exists after a governor step, given whether one
/// existed before: entering the cold state drops it, waking rebuilds it when
/// it was dropped, every other step keeps it as it was.
pub open spec fn gpu_after_step(gpu_allocated: bool, step: HibernationStep) -> bool {
    match step {
        HibernationStep::EnterCold => false,
        HibernationStep::Wake { rebuild_gpu } => gpu_allocated || rebuild_gpu,
        _ => gpu_allocated,
    }
}

/// Whether a GPU context exists after a debug key: the key for the cold state
/// drops it, every other key keeps it as it was.
pub open spec fn gpu_after_key(gpu_allocated: bool, outcome: KeyOutcome) -> bool {
    gpu_allocated && !outcome.drop_gpu
}

/// A cold state comes with no GPU context.
pub open spec fn cold_without_gpu(state: HibernationState, gpu_allocated: bool) -> bool {
    state == HibernationState::Cold ==> !gpu_allocated
}

/// A cold runtime never keeps a GPU context: if none exists while the state
/// is cold, then after any governor tick, state update, worker event or
/// window event (a debug key, a resize, the pointer entering, leaving or
/// moving, focus, a button, the wheel, a close request, a monitor change,
/// the window's creation, a scale change, a redraw and a presented frame) a
/// cold state again comes with no GPU context. Only the governor may rebuild
/// a context, and only when it wakes; no window event rebuilds one.
pub proof fn law_cold_holds_no_gpu(
    c: RuntimeCore,
    gpu_allocated: bool,
    now: u64,
    key: DebugKey,
    width: u32,
    height: u32,
    event: AppEvent,
    flag: bool,
    header_fps: FpsLimit,
    monitor_hz: u32,
)
    requires
        cold_without_gpu(c.hibernation_state, gpu_allocated),
    ensures
        ({
            let (next, tick) = spec_hibernation_tick(c, now, gpu_allocated);
            cold_without_gpu(next.hibernation_state, gpu_after_step(gpu_allocated, tick.step))
        }),
        ({
            let (next, step) = spec_engine_event(c, gpu_allocated);
            cold_without_gpu(next.hibernation_state, gpu_after_step(gpu_allocated, step))
        }),
        cold_without_gpu(spec_user_event(c, event).hibernation_state, gpu_allocated),
        ({
            let (next, outcome) = spec_debug_key(c, key, now);
            cold_without_gpu(next.hibernation_state, gpu_after_key(gpu_allocated, outcome))
        }),
        cold_without_gpu(spec_resized(c, width, height, gpu_allocated, now).hibernation_state, gpu_allocated),
        cold_without_gpu(spec_cursor_entered(c).hibernation_state, gpu_allocated),
        cold_without_gpu(spec_cursor_left(c).hibernation_state, gpu_allocated),
        cold_without_gpu(spec_cursor_moved(c, now).hibernation_state, gpu_allocated),
        cold_without_gpu(spec_focus(c, flag, now).hibernation_state, gpu_allocated),
        cold_without_gpu(spec_mouse_button(c, flag, now).hibernation_state, gpu_allocated),
        cold_without_gpu(spec_wheel(c, now).hibernation_state, gpu_allocated),
        cold_without_gpu(spec_close_requested(c, now).0.hibernation_state, gpu_allocated),
        cold_without_gpu(spec_monitor_changed(c, header_fps, monitor_hz).0.hibernation_state, gpu_allocated),
        cold_without_gpu(spec_window_created(c, monitor_hz).hibernation_state, gpu_allocated),
        cold_without_gpu(spec_redraw_wanted(c).hibernation_state, gpu_allocated),
        cold_without_gpu(spec_begin_redraw(c).0.hibernation_state, gpu_allocated),
        cold_without_gpu(spec_frame_presented(c).hibernation_state, gpu_allocated),
{
}

/// The actions named from a later token on are among those named from an
/// earlier one.
proof fn lemma_actions_from_grow(ts: Seq<Token>, i: int, j: int)
    requires
        0 <= i <= j,
    ensures
        actions_from(ts, j).subset_of(actions_from(ts, i)),
    decreases j - i,
{
    if i < j {
        lemma_actions_from_grow(ts, i + 1, j);
        if i < ts.len() {
            assert(actions_from(ts, i + 1).subset_of(actions_from(ts, i)));
        }
    }
}

/// The action scan looks into every group, whatever its delimiter (braces,
/// parentheses or the brackets of a `vec![..]`): the actions named inside a
/// group of a stream are among the actions that the stream names.
pub proof fn law_actions_found_in_every_group(ts: Seq<Token>, i: int)
    requires
        0 <= i < ts.len(),
        ts[i] is Group,
    ensures
        stream_actions(group_stream(ts[i])).subset_of(stream_actions(ts)),
{
    lemma_actions_from_grow(ts, 0, i);
    assert(stream_actions(group_stream(ts[i])).subset_of(actions_from(ts, i)));
}

/// Clicking the frame-limit selector flips it, and only it: clicking it twice
/// restores it.
pub proof fn law_fps_menu_toggle(settings_open: bool, fps_open: bool, fps: FpsLimit)
    ensures
        menus_after(settings_open, fps_open, fps, EngineHeaderAction::ToggleFpsMenu).1 == !fps_open,
        menus_after(settings_open, fps_open, fps, EngineHeaderAction::ToggleFpsMenu).0 == settings_open,
        menus_after(settings_open, fps_open, fps, EngineHeaderAction::ToggleFpsMenu).2 == fps,
        ({
            let (s1, f1, p1) = menus_after(settings_open, fps_open, fps, EngineHeaderAction::ToggleFpsMenu);
            menus_after(s1, f1, p1, EngineHeaderAction::ToggleFpsMenu) == (settings_open, fps_open, fps)
        }),
{
}

/// A change of the hovered action into a region with a hover effect, or out
/// of one, always needs a redraw: the old region returns to idle, the new one
/// lights up.
pub proof fn law_hover_change_redraws<A>(hovered: Option<A>, was_visual: bool, next: A, wants_visual: bool)
    ensures
        (hovered != Some(next) && wants_visual) ==> hover_needs_redraw(hovered, was_visual, next, wants_visual),
        (hovered != Some(next) && was_visual) ==> hover_needs_redraw(hovered, was_visual, next, wants_visual),
{
}

/// Audio is requested exactly when it plays unmuted; muted audio is never
/// requested, whether or not the window is visible.
pub proof fn law_audio_only_when_unmuted(is_hidden: bool, playing: bool, muted: bool)
    ensures
        (spec_network_policy(is_hidden, playing, muted) == NetworkPolicy::AudioOnly
            || spec_network_policy(is_hidden, playing, muted) == NetworkPolicy::FullStream)
            == (playing && !muted),
        muted ==> spec_network_policy(is_hidden, playing, muted) != NetworkPolicy::FullStream,
{
}

/// An automatic frame limit follows the new monitor's rate, up or down; a
/// manual one is capped at the monitor's rate and otherwise kept.
pub proof fn law_auto_limit_follows_monitor(f: FpsLimit, hz: u32)
    ensures
        f.is_auto ==> f.synced_to_monitor_spec(hz) == (FpsLimit { value: hz, is_auto: true }),
        !f.is_auto ==> f.synced_to_monitor_spec(hz) == (FpsLimit {
            value: if hz < f.value { hz } else { f.value },
            is_auto: false,
        }),
{
}

} // verus!
