//! The style of the history's entries.

use vstd::prelude::*;

use super::{
    background, background_spec, border, border_spec, default_enabled_spec, dimmed_spec,
    BorderStyle, DefaultStyle, Style, RADIUS,
};

verus! {

/// Entries: rounded, near white; under the pointer a green border of two
/// and a half pixels.
#[derive(Debug, Clone, Copy, Default)]
pub struct CustomStyleSheet;

impl CustomStyleSheet {
    pub fn enabled(&self) -> (r: Style)
        ensures
            r == (Style {
                background: Some(background_spec()),
                border_radius: RADIUS,
                ..default_enabled_spec()
            }),
    {
        let style = DefaultStyle.enabled();
        Style { background: Some(background()), border_radius: RADIUS, ..style }
    }

    pub fn hovered(&self) -> (r: Style)
        ensures
            r == (Style {
                background: Some(background_spec()),
                border: Some(BorderStyle { width: 250, color: border_spec() }),
                border_radius: RADIUS,
            }),
    {
        let style = DefaultStyle.hovered();
        Style {
            background: Some(background()),
            border: Some(BorderStyle { width: 250, color: border() }),
            border_radius: RADIUS,
            ..style
        }
    }

    pub fn pressed(&self) -> (r: Style)
        ensures
            r == (Style {
                background: Some(background_spec()),
                border_radius: RADIUS,
                ..default_enabled_spec()
            }),
    {
        let style = DefaultStyle.pressed();
        Style { background: Some(background()), border_radius: RADIUS, ..style }
    }

    pub fn disabled(&self) -> (r: Style)
        ensures
            r == (Style {
                background: Some(background_spec()),
                border_radius: RADIUS,
                ..dimmed_spec(default_enabled_spec())
            }),
    {
        let style = DefaultStyle.disabled();
        Style { background: Some(background()), border_radius: RADIUS, ..style }
    }
}

/// A pointer event that a button reacts to.
#[derive(Debug, Clone, Copy, PartialEq, Eq, Structural)]
pub enum Pointer {
    Down,
    Up,
    Other,
}

/// What a button does on a pointer event: whether it is pressed afterwards,
/// and whether it must be drawn again.
#[derive(Debug, Clone, Copy, PartialEq, Eq, Structural)]
pub struct Reaction {
    pub active: bool,
    pub repaint: bool,
}

/// A button that is not disabled becomes pressed when the pointer goes down
/// on it; releasing the pointer always ends the press, and redraws a button
/// that was pressed and is not disabled.
pub fn react(pointer: Pointer, disabled: bool, active: bool) -> (r: Reaction)
    ensures
        r == (match pointer {
            Pointer::Down => if disabled {
                Reaction { active, repaint: false }
            } else {
                Reaction { active: true, repaint: true }
            },
            Pointer::Up => Reaction { active: false, repaint: active && !disabled },
            Pointer::Other => Reaction { active, repaint: false },
        }),
{
    match pointer {
        Pointer::Down => {
            if disabled {
                Reaction { active, repaint: false }
            } else {
                Reaction { active: true, repaint: true }
            }
        },
        Pointer::Up => Reaction { active: false, repaint: active && !disabled },
        Pointer::Other => Reaction { active, repaint: false },
    }
}

} // verus!
