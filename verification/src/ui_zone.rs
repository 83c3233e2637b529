//! UI zones, the root action that the runtime tracks, and the interaction
//! state: which zone the pointer is in and what it hovers.
use vstd::prelude::*;
use crate::primitives::{UiAction, HoverEffect};
use crate::header::EngineHeaderAction;

verus! {

/// The top-level zone that the pointer occupies.
#[derive(PartialEq, Eq, Debug, Clone, Copy, Structural, Default)]
pub enum UiZone {
    /// The engine's own UI.
    Runtime(RuntimeZone),
    /// The application's canvas.
    #[default]
    App,
}

/// A zone of the engine's own UI.
#[derive(PartialEq, Eq, Debug, Clone, Copy, Structural, Default)]
pub enum RuntimeZone {
    #[default]
    Header,
    Dropdown,
}

/// Internal engine UI actions.
#[derive(Clone, Copy, PartialEq, Eq, Debug, Structural)]
pub enum RuntimeAction {
    Header(EngineHeaderAction),
}

/// The top-level action that the interaction state tracks: one of the
/// engine's own, one of the application's, or none.
#[derive(Clone, Copy, Debug)]
pub enum RootAction<T> {
    Runtime(RuntimeAction),
    App(T),
    NoAction,
}

impl<T: UiAction> PartialEq for RootAction<T> {
    fn eq(&self, other: &Self) -> (r: bool) {
        self.same_action(other)
    }
}

impl<T: UiAction> vstd::std_specs::cmp::PartialEqSpecImpl for RootAction<T> {
    open spec fn obeys_eq_spec() -> bool {
        true
    }

    open spec fn eq_spec(&self, other: &Self) -> bool {
        *self == *other
    }
}

impl<T: UiAction> UiAction for RootAction<T> {
    open spec fn spec_is_interactive(&self) -> bool {
        match *self {
            RootAction::Runtime(RuntimeAction::Header(h)) => h.spec_is_interactive(),
            RootAction::App(a) => a.spec_is_interactive(),
            RootAction::NoAction => false,
        }
    }

    fn is_interactive(&self) -> (r: bool) {
        match self {
            RootAction::Runtime(r) => match r {
                RuntimeAction::Header(h) => h.is_interactive(),
            },
            RootAction::App(a) => a.is_interactive(),
            RootAction::NoAction => false,
        }
    }

    fn same_action(&self, other: &Self) -> (r: bool) {
        match (self, other) {
            (RootAction::Runtime(a), RootAction::Runtime(b)) => *a == *b,
            (RootAction::App(a), RootAction::App(b)) => a.same_action(b),
            (RootAction::NoAction, RootAction::NoAction) => true,
            _ => false,
        }
    }
}

/// The zone for what the header reports at the pointer: one of its own zones,
/// or the application's canvas where it reports none.
pub open spec fn zone_of(header_zone: Option<RuntimeZone>) -> UiZone {
    match header_zone {
        Some(z) => UiZone::Runtime(z),
        None => UiZone::App,
    }
}

/// Determines which logical UI zone the pointer occupies, from the zone that
/// the header finds under it.
pub fn determine_active_zone(header_zone: Option<RuntimeZone>) -> (z: UiZone)
    ensures
        z == zone_of(header_zone),
{
    match header_zone {
        Some(zone) => UiZone::Runtime(zone),
        None => UiZone::App,
    }
}

/// Whether a change of the hovered action needs a redraw: the action changed
/// and the region left or the region entered shows a hover effect.
pub open spec fn hover_needs_redraw<A>(hovered: Option<A>, was_visual: bool, next: A, wants_visual: bool) -> bool {
    hovered != Some(next) && (wants_visual || was_visual)
}

/// What the pointer is over and what it hovers.
pub struct InteractionState<A> {
    pub zone: UiZone,
    pub hovered: Option<A>,
    pub active: Vec<A>,
    /// Whether the hovered region shows a hover effect.
    pub is_hover_visual: bool,
}

impl<A: UiAction> InteractionState<A> {
    /// The pointer is over the canvas and hovers nothing.
    pub fn new() -> (s: InteractionState<A>)
        ensures
            s.zone == UiZone::App,
            s.hovered is None,
            s.active@.len() == 0,
            !s.is_hover_visual,
    {
        InteractionState { zone: UiZone::App, hovered: None, active: Vec::new(), is_hover_visual: false }
    }

    /// Updates the zone from what the header finds under the pointer, and
    /// tells whether the zone changed.
    pub fn update_zone(&mut self, header_zone: Option<RuntimeZone>) -> (changed: bool)
        ensures
            final(self).zone == zone_of(header_zone),
            changed == (final(self).zone != old(self).zone),
            final(self).hovered == old(self).hovered,
            final(self).active == old(self).active,
            final(self).is_hover_visual == old(self).is_hover_visual,
    {
        let next = determine_active_zone(header_zone);
        let changed = next != self.zone;
        self.zone = next;
        changed
    }

    /// Records that the pointer now hovers `next_action`, whose region has the
    /// hover effect `hover_data`, and tells whether a redraw is needed: the
    /// hovered action changed and either the new or the old region shows a
    /// hover effect.
    pub fn check_hovered<C: Copy, R: Copy>(
        &mut self,
        next_action: A,
        hover_data: Option<HoverEffect<C, R>>,
    ) -> (needs_redraw: bool)
        ensures
            final(self).hovered == Some(next_action),
            final(self).is_hover_visual == (hover_data matches Some(h) && !(h is NoEffect)),
            needs_redraw == hover_needs_redraw(
                old(self).hovered,
                old(self).is_hover_visual,
                next_action,
                final(self).is_hover_visual,
            ),
            final(self).zone == old(self).zone,
            final(self).active == old(self).active,
    {
        let action_changed = match self.hovered {
            Some(h) => !h.same_action(&next_action),
            None => true,
        };
        let wants_visual = match hover_data {
            Some(h) => h.is_visual(),
            None => false,
        };
        let needs_redraw = action_changed && (wants_visual || self.is_hover_visual);
        self.hovered = Some(next_action);
        self.is_hover_visual = wants_visual;
        needs_redraw
    }

    /// Forgets the hovered action.
    pub fn clear_hover(&mut self)
        ensures
            final(self).hovered is None,
            !final(self).is_hover_visual,
            final(self).zone == old(self).zone,
            final(self).active == old(self).active,
    {
        self.hovered = None;
        self.is_hover_visual = false;
    }
}

impl<A: UiAction> Default for InteractionState<A> {
    fn default() -> (s: InteractionState<A>)
        ensures
            s.zone == UiZone::App,
            s.hovered is None,
            s.active@.len() == 0,
            !s.is_hover_visual,
    {
        InteractionState::new()
    }
}

} // verus!
