use engine_runtime::frame_delay::{calculate_frame_delay, frame_delay_nanos};
use engine_runtime::header::FpsLimit;
use engine_runtime::runtime::{
    key_of_text, network_policy, refresh_rate_hz, select_adapter_index, test_icon_rgba,
    AdapterCandidate, AppEvent, CloseOutcome, ControlPlan, DebugKey, EngineState, FramePlan,
    GpuKind, HibernationState, HibernationStep, NetworkPolicy, RuntimeCore,
};
use engine_runtime::ui_zone::UiZone;
use std::time::{Duration, Instant};

const SEC: u64 = 1_000_000_000;
const T0: u64 = 3600 * SEC;

fn fps(v: u32) -> FpsLimit {
    FpsLimit { value: v, is_auto: false }
}

#[test]
fn frame_delay_values() {
    assert_eq!(frame_delay_nanos(true, fps(60), 0), SEC);
    assert_eq!(frame_delay_nanos(false, fps(60), 0), 16_666_666);
    assert_eq!(frame_delay_nanos(false, fps(60), 2_500_000_000), 262_499_999);
    assert_eq!(frame_delay_nanos(false, fps(60), 5 * SEC as u128), SEC);
    assert_eq!(frame_delay_nanos(false, fps(0), 6 * SEC as u128), SEC);
    assert_eq!(frame_delay_nanos(false, fps(1), 1), SEC);
}

#[test]
fn frame_delay_grows_with_idle_time() {
    let mut last = 0;
    for k in 0..=50u128 {
        let d = frame_delay_nanos(false, fps(144), k * 100_000_000);
        assert!(d >= last);
        assert!(d >= 1_000_000_000 / 144 && d <= SEC);
        last = d;
    }
}

#[test]
fn calculate_frame_delay_hidden_is_one_second() {
    let d = calculate_frame_delay(true, fps(60), Instant::now());
    assert_eq!(d, Duration::from_secs(1));
    let d = calculate_frame_delay(false, fps(60), Instant::now());
    assert!(d >= Duration::from_nanos(16_666_666) && d < Duration::from_millis(30));
}

fn hidden_core(state: HibernationState, since: u64) -> RuntimeCore {
    let mut c = RuntimeCore::new(T0);
    c.is_hidden = true;
    c.hidden_since = Some(since);
    c.hibernation_state = state;
    c
}

#[test]
fn hibernation_walks_warm_preflight_cold() {
    let mut c = hidden_core(HibernationState::Warm, T0);
    let t = c.hibernation_tick(T0 + 5 * SEC, true);
    assert_eq!(t.step, HibernationStep::Steady);
    assert!(t.log_monitor);
    assert_eq!(t.hidden_for, 5 * SEC);
    let t = c.hibernation_tick(T0 + 10 * SEC, true);
    assert_eq!(t.step, HibernationStep::EnterPreFlight);
    assert_eq!(c.hibernation_state, HibernationState::PreFlight);
    c.active_unstoppable_tasks = 1;
    let t = c.hibernation_tick(T0 + 11 * SEC, true);
    assert_eq!(t.step, HibernationStep::Steady);
    assert!(!t.log_monitor);
    c.active_unstoppable_tasks = 0;
    let t = c.hibernation_tick(T0 + 12 * SEC, true);
    assert_eq!(t.step, HibernationStep::EnterCold);
    assert_eq!(c.hibernation_state, HibernationState::Cold);
}

#[test]
fn audio_keeps_a_hidden_window_warm() {
    let mut c = hidden_core(HibernationState::PreFlight, T0);
    c.audio_is_playing = true;
    let t = c.hibernation_tick(T0 + 60 * SEC, true);
    assert_eq!(t.step, HibernationStep::LockWarm);
    assert_eq!(c.hibernation_state, HibernationState::Warm);
    let t = c.hibernation_tick(T0 + 61 * SEC, true);
    assert_eq!(t.step, HibernationStep::Steady);
    c.audio_is_muted = true;
    let t = c.hibernation_tick(T0 + 62 * SEC, true);
    assert_eq!(t.step, HibernationStep::EnterPreFlight);
}

#[test]
fn visible_window_wakes_and_rebuilds_gpu() {
    let mut c = hidden_core(HibernationState::Cold, T0);
    c.is_hidden = false;
    c.needs_redraw = false;
    let t = c.hibernation_tick(T0 + SEC, false);
    assert_eq!(t.step, HibernationStep::Wake { rebuild_gpu: true });
    assert_eq!(c.hibernation_state, HibernationState::Active);
    assert_eq!(c.hidden_since, None);
    assert!(c.needs_redraw);
    let t = c.hibernation_tick(T0 + 2 * SEC, true);
    assert_eq!(t.step, HibernationStep::Steady);
}

#[test]
fn engine_event_steps() {
    let mut c = hidden_core(HibernationState::PreFlight, T0);
    c.needs_state_update = true;
    assert_eq!(c.engine_event(true), HibernationStep::EnterCold);
    assert!(!c.needs_state_update);
    let mut c = RuntimeCore::new(T0);
    c.hibernation_state = HibernationState::Warm;
    assert_eq!(c.engine_event(true), HibernationStep::Wake { rebuild_gpu: false });
    assert_eq!(c.hibernation_state, HibernationState::Active);
    let mut c = hidden_core(HibernationState::Warm, T0);
    assert_eq!(c.engine_event(true), HibernationStep::Steady);
}

#[test]
fn network_policies() {
    assert_eq!(network_policy(true, false, false), NetworkPolicy::HaltAllStreams);
    assert_eq!(network_policy(true, true, true), NetworkPolicy::HaltAllStreams);
    assert_eq!(network_policy(true, true, false), NetworkPolicy::AudioOnly);
    assert_eq!(network_policy(false, false, false), NetworkPolicy::VideoOnly);
    assert_eq!(network_policy(false, true, false), NetworkPolicy::FullStream);
    let c = RuntimeCore::new(T0);
    assert_eq!(c.network_policy(), NetworkPolicy::VideoOnly);
}

#[test]
fn frame_planning() {
    let mut c = RuntimeCore::new(T0);
    let p = c.plan_frame(T0 + SEC, 16_000_000);
    assert_eq!(c.last_frame_time, T0 + SEC);
    assert_eq!(p, FramePlan::Run { next_frame_time: T0 + SEC + 16_000_000 });
    let p = c.plan_frame(T0 + SEC + 20_000_000, 16_000_000);
    assert_eq!(p, FramePlan::Run { next_frame_time: T0 + SEC + 16_000_000 });
    assert!(c.frame_due(T0 + SEC + 20_000_000, T0 + SEC + 16_000_000));
    assert!(!c.frame_due(T0 + SEC, T0 + SEC + 16_000_000));
    let e = c.finish_pass(true, T0 + SEC + 16_000_000);
    assert!(e.request_redraw);
    assert_eq!(e.control, ControlPlan::WaitUntil(T0 + SEC + 16_000_000));
    assert_eq!(c.logic_count, 1);
    c.needs_redraw = false;
    let e = c.finish_pass(true, T0 + 2 * SEC);
    assert_eq!(e.control, ControlPlan::Wait);
    assert!(!e.request_redraw);
    c.hibernation_state = HibernationState::Cold;
    assert_eq!(c.plan_frame(T0 + 3 * SEC, 16_000_000), FramePlan::Sleep);
}

#[test]
fn statistics_once_a_second() {
    let mut c = RuntimeCore::new(T0);
    assert_eq!(c.record_pass(T0 + 1), None);
    assert_eq!(c.events_count, 1);
    c.logic_count = 3;
    c.frame_count = 2;
    let s = c.record_pass(T0 + SEC).unwrap();
    assert_eq!((s.events, s.logic, s.frames), (2, 3, 2));
    assert_eq!(s.state, HibernationState::Active);
    assert_eq!((c.events_count, c.logic_count, c.frame_count), (0, 0, 0));
    assert_eq!(c.last_log_time, T0 + SEC);
}

#[test]
fn worker_events() {
    let mut c = RuntimeCore::new(T0);
    c.needs_redraw = false;
    c.on_user_event(&AppEvent::WorkerMessage("done".to_string()));
    assert!(c.needs_redraw);
    c.on_user_event(&AppEvent::UnstoppableTaskStarted(1));
    c.on_user_event(&AppEvent::UnstoppableTaskStarted(2));
    assert_eq!(c.active_unstoppable_tasks, 2);
    c.on_user_event(&AppEvent::UnstoppableTaskFinished(1));
    c.on_user_event(&AppEvent::UnstoppableTaskFinished(2));
    c.on_user_event(&AppEvent::UnstoppableTaskFinished(3));
    assert_eq!(c.active_unstoppable_tasks, 0);
    c.on_user_event(&AppEvent::IoHandoffComplete(4));
    c.on_user_event(&AppEvent::NetworkRestored);
    assert_eq!(c.active_unstoppable_tasks, 0);
}

#[test]
fn debug_keys() {
    assert_eq!(key_of_text("1"), DebugKey::ForceActive);
    assert_eq!(key_of_text("2"), DebugKey::ForceWarm);
    assert_eq!(key_of_text("3"), DebugKey::ForcePreFlight);
    assert_eq!(key_of_text("4"), DebugKey::ForceCold);
    assert_eq!(key_of_text("U"), DebugKey::TaskStarted);
    assert_eq!(key_of_text("i"), DebugKey::TaskFinished);
    assert_eq!(key_of_text("A"), DebugKey::ToggleAudio);
    assert_eq!(key_of_text("x"), DebugKey::Other);
    assert_eq!(key_of_text("11"), DebugKey::Other);

    let mut c = RuntimeCore::new(T0);
    c.on_debug_key(DebugKey::ForceWarm, T0 + SEC);
    assert!(c.is_hidden);
    assert_eq!(c.hidden_since, Some(T0 + SEC));
    assert_eq!(c.hibernation_state, HibernationState::Warm);
    c.on_debug_key(DebugKey::ForcePreFlight, T0 + 2 * SEC);
    assert_eq!(c.hidden_since, Some(T0 + 2 * SEC - 25 * SEC));
    let o = c.on_debug_key(DebugKey::ForceCold, T0 + 3 * SEC);
    assert!(o.drop_gpu && !o.exit);
    assert_eq!(c.hibernation_state, HibernationState::Cold);
    let o = c.on_debug_key(DebugKey::ForceActive, T0 + 4 * SEC);
    assert!(o.announce_policy);
    assert!(!c.is_hidden && c.hidden_since.is_none());
    c.on_debug_key(DebugKey::TaskStarted, T0);
    c.on_debug_key(DebugKey::TaskFinished, T0);
    c.on_debug_key(DebugKey::TaskFinished, T0);
    assert_eq!(c.active_unstoppable_tasks, 0);
    let o = c.on_debug_key(DebugKey::ToggleAudio, T0);
    assert!(o.announce_policy && c.audio_is_playing);
    c.needs_redraw = false;
    let o = c.on_debug_key(DebugKey::Escape, T0);
    assert!(o.exit);
    assert!(c.needs_redraw);
}

#[test]
fn window_events() {
    let mut c = RuntimeCore::new(T0);
    c.mouse_moved = false;
    assert!(!c.on_cursor_moved(T0 + 5));
    assert!(!c.mouse_moved);
    c.on_cursor_entered();
    assert!(c.on_cursor_moved(T0 + 5));
    assert!(c.mouse_moved && c.last_interaction == T0 + 5);
    assert!(c.take_mouse_motion());
    assert!(!c.take_mouse_motion());
    c.on_cursor_left();
    assert!(!c.cursor_in_window);

    c.on_mouse_button(true, T0 + 6);
    assert!(c.is_mouse_down);
    c.on_focus(false, T0 + 7);
    assert!(!c.is_mouse_down);
    c.on_focus(true, T0 + 8);
    assert_eq!(c.last_interaction, T0 + 8);
    c.on_wheel(T0 + 9);
    assert_eq!(c.last_interaction, T0 + 9);

    c.on_resized(0, 0, true, T0 + 10);
    assert!(c.is_hidden && c.hidden_since == Some(T0 + 10) && c.needs_state_update);
    c.needs_redraw = false;
    c.on_resized(800, 600, true, T0 + 11);
    assert!(!c.is_hidden && c.needs_redraw);
    c.needs_redraw = false;
    c.on_resized(800, 600, false, T0 + 12);
    assert!(!c.needs_redraw);

    assert_eq!(c.on_close_requested(T0 + 13), CloseOutcome::Exit);

    let f = c.on_monitor_changed(FpsLimit { value: 144, is_auto: false }, 60);
    assert_eq!(f, FpsLimit { value: 60, is_auto: false });
    assert_eq!(c.target_fps, f);

    c.needs_redraw = true;
    assert!(c.begin_redraw());
    assert!(!c.needs_redraw);
    c.hibernation_state = HibernationState::Cold;
    assert!(!c.begin_redraw());
    c.frame_presented();
    assert_eq!(c.frame_count, 1);
}

#[test]
fn runtime_frame_delay_uses_idle_time() {
    let mut c = RuntimeCore::new(T0);
    c.target_fps = fps(60);
    assert_eq!(c.frame_delay(T0), 16_666_666);
    assert_eq!(c.frame_delay(T0 + 10 * SEC), SEC);
    c.is_hidden = true;
    assert_eq!(c.frame_delay(T0), SEC);
}

#[test]
fn refresh_rates() {
    assert_eq!(refresh_rate_hz(Some(59_940)), 59);
    assert_eq!(refresh_rate_hz(Some(144_000)), 144);
    assert_eq!(refresh_rate_hz(Some(5_000)), 10);
    assert_eq!(refresh_rate_hz(None), 60);
}

#[test]
fn adapter_choice() {
    let c = |kind, surface_supported| AdapterCandidate { kind, surface_supported };
    let a = vec![c(GpuKind::IntegratedGpu, true), c(GpuKind::DiscreteGpu, false), c(GpuKind::DiscreteGpu, true)];
    assert_eq!(select_adapter_index(&a, false), Some(2));
    let a = vec![c(GpuKind::Cpu, false), c(GpuKind::IntegratedGpu, true)];
    assert_eq!(select_adapter_index(&a, true), Some(1));
    let a = vec![c(GpuKind::DiscreteGpu, false)];
    assert_eq!(select_adapter_index(&a, true), None);
    assert_eq!(select_adapter_index(&vec![], false), None);
}

#[test]
fn icon_pixels() {
    let rgba = test_icon_rgba();
    assert_eq!(rgba.len(), 32 * 32 * 4);
    for px in rgba.chunks(4) {
        assert_eq!(px, &[0, 0, 180, 255]);
    }
}

#[test]
fn engine_state_starts_on_the_canvas() {
    let e = EngineState::new();
    assert_eq!(e.header.title, "DB DIAGRAM PRO");
    assert_eq!(e.active_zone, UiZone::App);
    assert_eq!(e.header.current_fps, FpsLimit { value: 144, is_auto: true });
}

#[test]
fn window_creation_and_redraw_requests() {
    let mut c = RuntimeCore::new(T0);
    c.on_window_created(144);
    assert_eq!(c.target_fps, FpsLimit { value: 144, is_auto: true });
    c.needs_redraw = false;
    c.on_scale_factor_changed();
    assert!(c.needs_redraw);
    c.needs_redraw = false;
    c.request_redraw();
    assert!(c.needs_redraw);
}

#[test]
fn cold_state_comes_without_gpu() {
    // The debug key for the cold state drops the GPU context.
    let mut c = RuntimeCore::new(T0);
    let o = c.on_debug_key(DebugKey::ForceCold, T0);
    assert_eq!(c.hibernation_state, HibernationState::Cold);
    assert!(o.drop_gpu);
    // A cold, hidden window stays cold and keeps the GPU context dropped.
    let mut c = hidden_core(HibernationState::Cold, T0);
    let t = c.hibernation_tick(T0 + 30 * SEC, false);
    assert_eq!(c.hibernation_state, HibernationState::Cold);
    assert_eq!(t.step, HibernationStep::Steady);
    // Going cold from pre-flight asks to drop it.
    let mut c = hidden_core(HibernationState::PreFlight, T0);
    assert_eq!(c.hibernation_tick(T0 + SEC, true).step, HibernationStep::EnterCold);
}

#[test]
fn window_events_leave_a_cold_runtime_cold() {
    let mut c = hidden_core(HibernationState::Cold, T0);
    c.on_cursor_entered();
    c.on_cursor_moved(T0 + 1);
    c.on_focus(true, T0 + 2);
    c.on_mouse_button(true, T0 + 3);
    c.on_wheel(T0 + 4);
    c.on_window_created(60);
    c.on_scale_factor_changed();
    c.request_redraw();
    assert_eq!(c.on_close_requested(T0 + 5), CloseOutcome::Exit);
    c.on_monitor_changed(FpsLimit { value: 60, is_auto: true }, 75);
    assert!(!c.begin_redraw());
    c.on_cursor_left();
    assert_eq!(c.hibernation_state, HibernationState::Cold);
}
