use engine_runtime::diagram::{drag_after_click, hover_target, over_any_node, topmost_hit, DiagramAction, DragMode, PointerButton};
use engine_runtime::header::EngineHeaderAction;
use engine_runtime::primitives::{ButtonStyle, HoverEffect, UiAction};
use engine_runtime::ui_zone::{
    determine_active_zone, InteractionState, RootAction, RuntimeAction, RuntimeZone, UiZone,
};

type Effect = HoverEffect<u8, u8>;

fn button() -> Effect {
    HoverEffect::Button { bg_idle: 1, bg_hover: 2, bg_pressed: 3, text_idle: 4, text_hover: 5, corner_radius: 6 }
}

#[test]
fn button_backgrounds() {
    let b = button();
    assert_eq!(b.resolve_bg(false, false), Some(1));
    assert_eq!(b.resolve_bg(false, true), Some(1));
    assert_eq!(b.resolve_bg(true, false), Some(2));
    assert_eq!(b.resolve_bg(true, true), Some(3));
    assert_eq!(b.resolve_text(false), Some(4));
    assert_eq!(b.resolve_text(true), Some(5));
}

#[test]
fn highlight_and_plain_backgrounds() {
    let h: Effect = HoverEffect::Highlight { bg_hover: 7, bg_pressed: 8 };
    assert_eq!(h.resolve_bg(false, true), None);
    assert_eq!(h.resolve_bg(true, false), Some(7));
    assert_eq!(h.resolve_bg(true, true), Some(8));
    assert_eq!(h.resolve_text(true), None);
    let n: Effect = HoverEffect::NoEffect;
    assert_eq!(n.resolve_bg(true, true), None);
    assert_eq!(n.resolve_text(true), None);
    assert!(!n.is_visual());
    assert!(h.is_visual());
}

#[test]
fn button_style_hover_effect() {
    let s = ButtonStyle { bg_idle: 1u8, bg_hover: 2, bg_pressed: 3, text_idle: 4, text_hover: 5, text_size: 14u8, border_radius: 6 };
    match s.to_hover_effect() {
        HoverEffect::Button { bg_idle, bg_hover, bg_pressed, text_idle, text_hover, corner_radius } => {
            assert_eq!((bg_idle, bg_hover, bg_pressed, text_idle, text_hover, corner_radius), (1, 2, 3, 4, 5, 6));
        }
        _ => panic!("expected a button effect"),
    }
}

type Root = RootAction<DiagramAction>;

fn header_action(a: EngineHeaderAction) -> Root {
    RootAction::Runtime(RuntimeAction::Header(a))
}

#[test]
fn hovering_a_button_redraws_once() {
    let mut s: InteractionState<Root> = InteractionState::new();
    let close = header_action(EngineHeaderAction::CloseWindow);
    assert!(s.check_hovered(close, Some(button())));
    assert!(s.is_hover_visual);
    assert!(!s.check_hovered(close, Some(button())));
    // Leaving the button for a plain region redraws once more.
    assert!(s.check_hovered(header_action(EngineHeaderAction::Drag), None::<Effect>));
    assert!(!s.is_hover_visual);
    // Moving between plain regions needs no redraw.
    assert!(!s.check_hovered(RootAction::App(DiagramAction::SelectNode(1)), None::<Effect>));
    assert!(!s.check_hovered(RootAction::NoAction, Some(HoverEffect::<u8, u8>::NoEffect)));
    assert_eq!(s.hovered, Some(RootAction::NoAction));
}

#[test]
fn clear_hover_forgets_the_hovered_action() {
    let mut s: InteractionState<Root> = InteractionState::default();
    let close = header_action(EngineHeaderAction::CloseWindow);
    s.check_hovered(close, Some(button()));
    s.clear_hover();
    assert_eq!(s.hovered, None);
    assert!(!s.is_hover_visual);
    assert!(s.check_hovered(close, Some(button())));
}

#[test]
fn zones_from_the_header() {
    assert_eq!(determine_active_zone(None), UiZone::App);
    assert_eq!(determine_active_zone(Some(RuntimeZone::Dropdown)), UiZone::Runtime(RuntimeZone::Dropdown));
    let mut s: InteractionState<Root> = InteractionState::new();
    assert!(s.update_zone(Some(RuntimeZone::Header)));
    assert_eq!(s.zone, UiZone::Runtime(RuntimeZone::Header));
    assert!(!s.update_zone(Some(RuntimeZone::Header)));
    assert!(s.update_zone(Some(RuntimeZone::Dropdown)));
    assert!(s.update_zone(None));
    assert_eq!(s.zone, UiZone::App);
    assert!(!s.update_zone(None));
}

#[test]
fn root_action_interactivity_and_equality() {
    assert!(header_action(EngineHeaderAction::SetFps30).is_interactive());
    assert!(!header_action(EngineHeaderAction::Drag).is_interactive());
    assert!(RootAction::App(DiagramAction::DragCanvas).is_interactive());
    assert!(!RootAction::App(DiagramAction::NoAction).is_interactive());
    assert!(!Root::NoAction.is_interactive());
    assert!(RootAction::App(DiagramAction::SelectNode(2)) == RootAction::App(DiagramAction::SelectNode(2)));
    assert!(RootAction::App(DiagramAction::SelectNode(2)) != RootAction::App(DiagramAction::SelectNode(3)));
    assert!(Root::NoAction != header_action(EngineHeaderAction::Drag));
}

#[test]
fn drag_state_after_clicks() {
    assert_eq!(drag_after_click(None, PointerButton::Left, Some(3)), Some(DragMode::Node(3)));
    assert_eq!(drag_after_click(None, PointerButton::Left, None), None);
    assert_eq!(drag_after_click(Some(DragMode::Canvas), PointerButton::Left, None), Some(DragMode::Canvas));
    assert_eq!(drag_after_click(None, PointerButton::Right, Some(1)), Some(DragMode::Canvas));
    assert_eq!(drag_after_click(Some(DragMode::Node(0)), PointerButton::Middle, None), Some(DragMode::Node(0)));
}

#[test]
fn topmost_node_wins() {
    assert_eq!(topmost_hit(&vec![true, false, true, false]), Some(2));
    assert_eq!(topmost_hit(&vec![false, false]), None);
    assert_eq!(topmost_hit(&vec![]), None);
}

#[test]
fn hover_targets_by_zone() {
    let hit = (EngineHeaderAction::CloseWindow, Some(button()));
    let (a, h) = hover_target(UiZone::Runtime(RuntimeZone::Header), hit, Some(4));
    assert!(a == header_action(EngineHeaderAction::CloseWindow));
    assert!(h.is_some());
    let (a, h) = hover_target(UiZone::App, hit, Some(4));
    assert!(a == RootAction::App(DiagramAction::SelectNode(4)));
    assert!(h.is_none());
    let (a, _) = hover_target(UiZone::App, hit, None);
    assert!(a == RootAction::App(DiagramAction::NoAction));
    let (a, h) = hover_target(UiZone::Runtime(RuntimeZone::Dropdown), hit, Some(4));
    assert!(a == Root::NoAction);
    assert!(h.is_none());
}

#[test]
fn corner_radius_only_for_buttons() {
    assert_eq!(button().corner_radius(), Some(6));
    let h: Effect = HoverEffect::Highlight { bg_hover: 7, bg_pressed: 8 };
    assert_eq!(h.corner_radius(), None);
    let n: Effect = HoverEffect::NoEffect;
    assert_eq!(n.corner_radius(), None);
}

#[test]
fn pointer_over_any_node() {
    assert!(over_any_node(&vec![false, true, false]));
    assert!(!over_any_node(&vec![false, false]));
    assert!(!over_any_node(&vec![]));
}
