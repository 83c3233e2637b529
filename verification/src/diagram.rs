//! The diagram application's actions and its drag state.
use vstd::prelude::*;
use crate::primitives::{UiAction, HoverEffect};
use crate::header::EngineHeaderAction;
use crate::ui_zone::{UiZone, RuntimeZone, RootAction, RuntimeAction};

verus! {

/// What a drag moves.
#[derive(Clone, Copy, PartialEq, Eq, Debug, Structural)]
pub enum DragMode {
    /// The node at this index.
    Node(usize),
    /// The whole canvas.
    Canvas,
}

/// The diagram application's UI actions.
#[derive(Clone, Copy, PartialEq, Eq, Debug, Structural, Default)]
pub enum DiagramAction {
    #[default]
    NoAction,
    SelectNode(usize),
    DragCanvas,
}

impl UiAction for DiagramAction {
    open spec fn spec_is_interactive(&self) -> bool {
        !(*self is NoAction)
    }

    fn is_interactive(&self) -> (r: bool) {
        match self {
            DiagramAction::NoAction => false,
            _ => true,
        }
    }

    fn same_action(&self, other: &Self) -> (r: bool) {
        *self == *other
    }
}

/// A mouse button.
#[derive(Clone, Copy, PartialEq, Eq, Debug, Structural)]
pub enum PointerButton {
    Left,
    Right,
    Middle,
    Back,
    Forward,
    Other(u16),
}

/// The drag after a click: the left button grabs the topmost node under the
/// pointer (and leaves the drag as it was where no node is hit); the right
/// button drags the canvas; other buttons change nothing.
pub open spec fn spec_drag_after_click(current: Option<DragMode>, button: PointerButton, hit: Option<usize>) -> Option<DragMode> {
    match button {
        PointerButton::Left => match hit {
            Some(idx) => Some(DragMode::Node(idx)),
            None => current,
        },
        PointerButton::Right => Some(DragMode::Canvas),
        _ => current,
    }
}

/// The drag after a click with `button`, where `hit` is the index of the
/// topmost node under the pointer.
pub fn drag_after_click(current: Option<DragMode>, button: PointerButton, hit: Option<usize>) -> (r: Option<DragMode>)
    ensures
        r == spec_drag_after_click(current, button, hit),
{
    match button {
        PointerButton::Left => match hit {
            Some(idx) => Some(DragMode::Node(idx)),
            None => current,
        },
        PointerButton::Right => Some(DragMode::Canvas),
        _ => current,
    }
}

/// The index of the topmost (last drawn) node among those that the pointer
/// is over: `over[i]` tells whether it is over node `i`.
pub fn topmost_hit(over: &Vec<bool>) -> (r: Option<usize>)
    ensures
        match r {
            Some(i) => i < over@.len() && over@[i as int] && forall|j: int|
                i < j < over@.len() ==> !over@[j],
            None => forall|j: int| 0 <= j < over@.len() ==> !over@[j],
        },
{
    let mut i = over.len();
    while i > 0
        invariant
            i <= over@.len(),
            forall|j: int| i <= j < over@.len() ==> !over@[j],
        decreases i,
    {
        i = i - 1;
        if over[i] {
            return Some(i);
        }
    }
    None
}

/// Whether the pointer is over any node: `over[i]` tells whether it is over
/// node `i`.
pub fn over_any_node(over: &Vec<bool>) -> (r: bool)
    ensures
        r == over@.contains(true),
{
    let mut i: usize = 0;
    while i < over.len()
        invariant
            i <= over@.len(),
            forall|j: int| 0 <= j < i ==> !over@[j],
        decreases over@.len() - i,
    {
        if over[i] {
            assert(over@[i as int]);
            return true;
        }
        i = i + 1;
    }
    assert(!over@.contains(true));
    false
}

/// What the pointer hovers in a zone: in the header, the header's action
/// under it with that region's hover effect; on the canvas, the topmost node
/// under it (or nothing) without an effect; elsewhere nothing.
pub open spec fn spec_hover_target<C, R>(
    zone: UiZone,
    header_hit: (EngineHeaderAction, Option<HoverEffect<C, R>>),
    node_hit: Option<usize>,
) -> (RootAction<DiagramAction>, Option<HoverEffect<C, R>>) {
    match zone {
        UiZone::Runtime(RuntimeZone::Header) => (
            RootAction::Runtime(RuntimeAction::Header(header_hit.0)),
            header_hit.1,
        ),
        UiZone::App => match node_hit {
            Some(idx) => (RootAction::App(DiagramAction::SelectNode(idx)), None),
            None => (RootAction::App(DiagramAction::NoAction), None),
        },
        _ => (RootAction::NoAction, None),
    }
}

/// The action the pointer hovers and the hover effect of its region.
pub fn hover_target<C: Copy, R: Copy>(
    zone: UiZone,
    header_hit: (EngineHeaderAction, Option<HoverEffect<C, R>>),
    node_hit: Option<usize>,
) -> (r: (RootAction<DiagramAction>, Option<HoverEffect<C, R>>))
    ensures
        r == spec_hover_target(zone, header_hit, node_hit),
{
    match zone {
        UiZone::Runtime(RuntimeZone::Header) => (
            RootAction::Runtime(RuntimeAction::Header(header_hit.0)),
            header_hit.1,
        ),
        UiZone::App => match node_hit {
            Some(idx) => (RootAction::App(DiagramAction::SelectNode(idx)), None),
            None => (RootAction::App(DiagramAction::NoAction), None),
        },
        _ => (RootAction::NoAction, None),
    }
}

} // verus!
