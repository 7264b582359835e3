//! The style of the buttons that choose which kind of content is shown.

use vstd::prelude::*;

use super::{
    background, background_spec, border, border_spec, default_enabled_spec, dimmed_spec,
    BorderStyle, DefaultStyle, Style, RADIUS,
};

verus! {

/// Filter buttons: rounded, near white; under the pointer, and while
/// chosen, a green border of two and a half pixels.
#[derive(Debug, Clone, Copy, Default)]
pub struct CustomStyleSheet;

impl CustomStyleSheet {
    pub fn enabled(&self) -> (r: Style)
        ensures
            r == (Style {
                background: Some(background_spec()),
                border_radius: RADIUS,
                ..default_enabled_spec()
            }),
    {
        let style = DefaultStyle.enabled();
        Style { background: Some(background()), border_radius: RADIUS, ..style }
    }

    pub fn hovered(&self) -> (r: Style)
        ensures
            r == (Style {
                background: Some(background_spec()),
                border: Some(BorderStyle { width: 250, color: border_spec() }),
                border_radius: RADIUS,
            }),
    {
        let style = DefaultStyle.hovered();
        Style {
            background: Some(background()),
            border: Some(BorderStyle { width: 250, color: border() }),
            border_radius: RADIUS,
            ..style
        }
    }

    /// A pressed filter button looks as it does at rest.
    pub fn pressed(&self) -> (r: Style)
        ensures
            r == (Style {
                background: Some(background_spec()),
                border_radius: RADIUS,
                ..default_enabled_spec()
            }),
    {
        self.enabled()
    }

    /// The chosen filter button looks as it does under the pointer.
    pub fn chosen(&self) -> (r: Style)
        ensures
            r == (Style {
                background: Some(background_spec()),
                border: Some(BorderStyle { width: 250, color: border_spec() }),
                border_radius: RADIUS,
            }),
    {
        self.hovered()
    }

    pub fn disabled(&self) -> (r: Style)
        ensures
            r == (Style {
                background: Some(background_spec()),
                border_radius: RADIUS,
                ..dimmed_spec(default_enabled_spec())
            }),
    {
        let style = DefaultStyle.disabled();
        Style { background: Some(background()), border_radius: RADIUS, ..style }
    }
}

} // verus!
