//! UI actions and the hover effects of interactive regions.
//!
//! A hover effect only chooses between colors that its style holds; it never
//! computes with them. The types are therefore generic over the color and
//! radius types (the application uses RGBA float arrays and float radii).
use vstd::prelude::*;

verus! {

/// An action that a UI element triggers.
pub trait UiAction: Copy + PartialEq + Sized {
    /// Whether the action belongs to an interactive element, one that should
    /// trigger hover effects and redraws.
    spec fn spec_is_interactive(&self) -> bool;

    /// Returns true if this action represents an interactive element (like a
    /// button) and should trigger hover effects and redraws.
    fn is_interactive(&self) -> (r: bool)
        ensures
            r == self.spec_is_interactive(),
    ;

    /// Whether two actions are the same action.
    fn same_action(&self, other: &Self) -> (r: bool)
        ensures
            r == (*self == *other),
    ;
}

/// How a region reacts to the pointer.
#[derive(Clone, Copy, Debug)]
pub enum HoverEffect<C, R> {
    /// No reaction.
    NoEffect,
    /// A button: a background for each state and a text color for idle and hover.
    Button { bg_idle: C, bg_hover: C, bg_pressed: C, text_idle: C, text_hover: C, corner_radius: R },
    /// A highlight that only shows while the region is hovered.
    Highlight { bg_hover: C, bg_pressed: C },
}

/// The background a hover effect shows, if it shows one.
pub open spec fn spec_resolve_bg<C, R>(e: HoverEffect<C, R>, is_hovered: bool, is_pressed: bool) -> Option<C> {
    match e {
        HoverEffect::NoEffect => None,
        HoverEffect::Button { bg_idle, bg_hover, bg_pressed, .. } => Some(
            if is_hovered && is_pressed {
                bg_pressed
            } else if is_hovered {
                bg_hover
            } else {
                bg_idle
            },
        ),
        HoverEffect::Highlight { bg_hover, bg_pressed } => if is_hovered && is_pressed {
            Some(bg_pressed)
        } else if is_hovered {
            Some(bg_hover)
        } else {
            None
        },
    }
}

/// The text color a hover effect imposes, if it imposes one.
pub open spec fn spec_resolve_text<C, R>(e: HoverEffect<C, R>, is_hovered: bool) -> Option<C> {
    match e {
        HoverEffect::Button { text_idle, text_hover, .. } => Some(
            if is_hovered {
                text_hover
            } else {
                text_idle
            },
        ),
        _ => None,
    }
}

impl<C: Copy, R: Copy> HoverEffect<C, R> {
    /// The background to draw for the region, given whether the pointer is
    /// over it and whether the button is held.
    pub fn resolve_bg(&self, is_hovered: bool, is_pressed: bool) -> (r: Option<C>)
        ensures
            r == spec_resolve_bg(*self, is_hovered, is_pressed),
    {
        match self {
            HoverEffect::NoEffect => None,
            HoverEffect::Button { bg_idle, bg_hover, bg_pressed, .. } => {
                Some(
                    if is_hovered && is_pressed {
                        *bg_pressed
                    } else if is_hovered {
                        *bg_hover
                    } else {
                        *bg_idle
                    },
                )
            },
            HoverEffect::Highlight { bg_hover, bg_pressed } => {
                if is_hovered && is_pressed {
                    Some(*bg_pressed)
                } else if is_hovered {
                    Some(*bg_hover)
                } else {
                    None
                }
            },
        }
    }

    /// The text color to draw for the region, given whether the pointer is over it.
    pub fn resolve_text(&self, is_hovered: bool) -> (r: Option<C>)
        ensures
            r == spec_resolve_text(*self, is_hovered),
    {
        match self {
            HoverEffect::Button { text_idle, text_hover, .. } => {
                Some(
                    if is_hovered {
                        *text_hover
                    } else {
                        *text_idle
                    },
                )
            },
            _ => None,
        }
    }

    /// The corner radius of the region's shape: a button's own radius;
    /// `None` for the other effects, which draw square corners.
    pub fn corner_radius(&self) -> (r: Option<R>)
        ensures
            r == (match *self {
                HoverEffect::Button { corner_radius, .. } => Some(corner_radius),
                _ => None,
            }),
    {
        match self {
            HoverEffect::Button { corner_radius, .. } => Some(*corner_radius),
            _ => None,
        }
    }

    /// Whether the effect shows anything at all.
    pub fn is_visual(&self) -> (r: bool)
        ensures
            r == !(*self is NoEffect),
    {
        !matches!(self, HoverEffect::NoEffect)
    }
}

/// The colors and sizes of a button.
#[derive(Clone, Copy, Debug)]
pub struct ButtonStyle<C, R> {
    pub bg_idle: C,
    pub bg_hover: C,
    pub bg_pressed: C,
    pub text_idle: C,
    pub text_hover: C,
    pub text_size: R,
    pub border_radius: R,
}

impl<C: Copy, R: Copy> ButtonStyle<C, R> {
    /// The hover effect of a button drawn in this style.
    pub fn to_hover_effect(&self) -> (e: HoverEffect<C, R>)
        ensures
            e == (HoverEffect::Button {
                bg_idle: self.bg_idle,
                bg_hover: self.bg_hover,
                bg_pressed: self.bg_pressed,
                text_idle: self.text_idle,
                text_hover: self.text_hover,
                corner_radius: self.border_radius,
            }),
    {
        HoverEffect::Button {
            bg_idle: self.bg_idle,
            bg_hover: self.bg_hover,
            bg_pressed: self.bg_pressed,
            text_idle: self.text_idle,
            text_hover: self.text_hover,
            corner_radius: self.border_radius,
        }
    }
}

/// An option of a selector widget.
#[derive(Clone)]
pub struct SelectorOption<A> {
    pub label: String,
    pub selected: bool,
    pub action: A,
}

} // verus!
