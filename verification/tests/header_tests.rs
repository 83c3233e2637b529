use engine_runtime::header::{
    EngineHeader, EngineHeaderAction, FpsLimit, SelectorState, SettingsAttention, WindowCommand,
};
use engine_runtime::primitives::UiAction;
use engine_runtime::ui_zone::{RuntimeZone, UiZone};

fn header() -> EngineHeader {
    EngineHeader::new("DB DIAGRAM PRO".to_string())
}

#[test]
fn fps_labels() {
    assert_eq!(FpsLimit { value: 30, is_auto: false }.label(), "30 FPS");
    assert_eq!(FpsLimit { value: 60, is_auto: false }.label(), "60 FPS");
    assert_eq!(FpsLimit { value: 144, is_auto: false }.label(), "144 FPS");
    assert_eq!(FpsLimit { value: 240, is_auto: false }.label(), "240 FPS");
    assert_eq!(FpsLimit { value: 75, is_auto: false }.label(), "?? FPS");
    assert_eq!(FpsLimit { value: 30, is_auto: true }.label(), "Auto (Sync)");
}

#[test]
fn new_header_state() {
    let h = header();
    assert_eq!(h.title, "DB DIAGRAM PRO");
    assert!(!h.settings_dropdown_open);
    assert!(!h.fps_selector_open);
    assert_eq!(h.settings_attention, SettingsAttention::NotNeeded);
    assert_eq!(h.current_fps, FpsLimit { value: 144, is_auto: true });
    assert!(!h.cache_valid);
}

#[test]
fn toggle_settings_twice_closes_the_fps_selector() {
    let mut h = header();
    let r = h.handle_action(EngineHeaderAction::ToggleSettings);
    assert!(r.changed);
    assert_eq!(r.command, WindowCommand::Stay);
    assert!(h.settings_dropdown_open);
    h.handle_action(EngineHeaderAction::ToggleFpsMenu);
    assert!(h.fps_selector_open);
    h.handle_action(EngineHeaderAction::ToggleSettings);
    assert!(!h.settings_dropdown_open);
    assert!(!h.fps_selector_open);
}

#[test]
fn choosing_a_frame_limit() {
    let mut h = header();
    h.handle_action(EngineHeaderAction::ToggleSettings);
    h.handle_action(EngineHeaderAction::ToggleFpsMenu);
    h.handle_action(EngineHeaderAction::SetFps60);
    assert_eq!(h.current_fps, FpsLimit { value: 60, is_auto: false });
    assert!(!h.fps_selector_open);
    assert!(h.settings_dropdown_open);
    assert_eq!(h.current_fps.label(), "60 FPS");
    h.handle_action(EngineHeaderAction::SetFps30);
    assert_eq!(h.current_fps.label(), "30 FPS");
    h.handle_action(EngineHeaderAction::SetFps144);
    assert_eq!(h.current_fps.label(), "144 FPS");
    h.handle_action(EngineHeaderAction::SetFps240);
    assert_eq!(h.current_fps, FpsLimit { value: 240, is_auto: false });
    h.handle_action(EngineHeaderAction::SetFpsAuto);
    assert_eq!(h.current_fps, FpsLimit { value: 240, is_auto: true });
    assert_eq!(h.current_fps.label(), "Auto (Sync)");
}

#[test]
fn window_commands_of_actions() {
    let mut h = header();
    assert_eq!(h.handle_action(EngineHeaderAction::MinimizeWindow).command, WindowCommand::Minimize);
    assert_eq!(h.handle_action(EngineHeaderAction::MaximizeWindow).command, WindowCommand::ToggleMaximize);
    assert_eq!(h.handle_action(EngineHeaderAction::Drag).command, WindowCommand::StartDrag);
    let r = h.handle_action(EngineHeaderAction::CloseWindow);
    assert!(r.changed);
    assert_eq!(r.command, WindowCommand::Stay);
}

#[test]
fn no_action_changes_nothing_and_keeps_the_cache() {
    let mut h = header();
    assert!(h.ensure_cache(800, false));
    assert!(h.cache_valid);
    let r = h.handle_action(EngineHeaderAction::NoAction);
    assert!(!r.changed);
    assert!(h.cache_valid);
    let r = h.handle_action(EngineHeaderAction::ToggleSettings);
    assert!(r.changed);
    assert!(!h.cache_valid);
}

#[test]
fn cache_is_rebuilt_when_width_or_maximize_change() {
    let mut h = header();
    assert!(h.ensure_cache(800, false));
    assert!(!h.ensure_cache(800, false));
    assert!(h.ensure_cache(1024, false));
    assert_eq!(h.cached_window_width, 1024);
    assert!(h.ensure_cache(1024, true));
    assert!(h.cached_is_maximized);
    h.invalidate_cache();
    assert!(h.ensure_cache(1024, true));
}

#[test]
fn clicks_outside_the_dropdown_close_the_menus() {
    let mut h = header();
    h.handle_action(EngineHeaderAction::ToggleSettings);
    h.handle_action(EngineHeaderAction::ToggleFpsMenu);
    h.close_menus_on_click(UiZone::Runtime(RuntimeZone::Dropdown), EngineHeaderAction::SetFps30);
    assert!(h.settings_dropdown_open && h.fps_selector_open);
    h.close_menus_on_click(UiZone::Runtime(RuntimeZone::Header), EngineHeaderAction::ToggleSettings);
    assert!(h.settings_dropdown_open && h.fps_selector_open);
    h.close_menus_on_click(UiZone::App, EngineHeaderAction::NoAction);
    assert!(!h.settings_dropdown_open && !h.fps_selector_open);
}

#[test]
fn monitor_sync() {
    let auto = FpsLimit { value: 144, is_auto: true };
    assert_eq!(auto.synced_to_monitor(60), FpsLimit { value: 60, is_auto: true });
    let manual = FpsLimit { value: 144, is_auto: false };
    assert_eq!(manual.synced_to_monitor(60), FpsLimit { value: 60, is_auto: false });
    assert_eq!(manual.synced_to_monitor(240), manual);
    let once = manual.synced_to_monitor(60);
    assert_eq!(once.synced_to_monitor(60), once);
}

#[test]
fn header_actions_interactivity() {
    assert!(!EngineHeaderAction::NoAction.is_interactive());
    assert!(!EngineHeaderAction::Drag.is_interactive());
    assert!(EngineHeaderAction::CloseWindow.is_interactive());
    assert!(EngineHeaderAction::SetFps30.same_action(&EngineHeaderAction::SetFps30));
    assert!(!EngineHeaderAction::SetFps30.same_action(&EngineHeaderAction::SetFps60));
}

#[test]
fn selectors_open_one_at_a_time() {
    let mut s = SelectorState::new();
    assert!(!s.selector_open("fps"));
    s.toggle_selector("fps");
    assert!(s.selector_open("fps"));
    s.toggle_selector("theme");
    assert!(s.selector_open("theme"));
    assert!(!s.selector_open("fps"));
    s.toggle_selector("theme");
    assert!(!s.selector_open("theme"));
    s.toggle_selector("fps");
    s.close_selector("other");
    assert!(s.selector_open("fps"));
    s.close_selector("fps");
    assert!(!s.selector_open("fps"));
    let mut h = header();
    h.toggle_selector("fps");
    assert!(h.selector_open("fps"));
    h.close_selector("fps");
    assert!(!h.selector_open("fps"));
}

#[test]
fn selectors_leave_the_rest_of_the_header_alone() {
    let mut h = header();
    h.handle_action(EngineHeaderAction::ToggleSettings);
    h.ensure_cache(800, false);
    let before = (h.settings_dropdown_open, h.fps_selector_open, h.current_fps, h.cache_valid, h.cached_window_width);
    h.toggle_selector("fps");
    h.close_selector("fps");
    h.toggle_selector("theme");
    assert_eq!((h.settings_dropdown_open, h.fps_selector_open, h.current_fps, h.cache_valid, h.cached_window_width), before);
    assert_eq!(h.title, "DB DIAGRAM PRO");
    assert_eq!(h.settings_attention, SettingsAttention::NotNeeded);
}
