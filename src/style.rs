//! Styling rules of the history's buttons, in plain values: colours as RGBA
//! bytes, lengths in hundredths of a pixel.

use vstd::prelude::*;

pub mod button;
pub mod radio;

verus! {

/// A colour: red, green, blue and opacity, one byte each.
#[derive(Debug, Clone, Copy, PartialEq, Eq, Structural)]
pub struct Rgba {
    pub r: u8,
    pub g: u8,
    pub b: u8,
    pub a: u8,
}

/// A border: its width in hundredths of a pixel, and its colour.
#[derive(Debug, Clone, Copy, PartialEq, Eq, Structural)]
pub struct BorderStyle {
    pub width: u32,
    pub color: Rgba,
}

/// How a button is drawn: its background, its border and the radius of its
/// corners in hundredths of a pixel.
#[derive(Debug, Clone, Copy, PartialEq, Eq, Structural)]
pub struct Style {
    pub background: Option<Rgba>,
    pub border: Option<BorderStyle>,
    pub border_radius: u32,
}

/// The state of a button that picks its style.
#[derive(Debug, Clone, Copy, PartialEq, Eq, Structural)]
pub enum Interaction {
    Disabled,
    Pressed,
    Hovered,
    Enabled,
}

/// A disabled button is drawn as disabled; else a pressed one as pressed,
/// else one under the pointer as hovered.
pub fn interaction(disabled: bool, active: bool, hot: bool) -> (r: Interaction)
    ensures
        r == (if disabled {
            Interaction::Disabled
        } else if active {
            Interaction::Pressed
        } else if hot {
            Interaction::Hovered
        } else {
            Interaction::Enabled
        }),
{
    if disabled {
        Interaction::Disabled
    } else if active {
        Interaction::Pressed
    } else if hot {
        Interaction::Hovered
    } else {
        Interaction::Enabled
    }
}

/// A colour at half its opacity, rounded half up.
pub open spec fn faded_spec(c: Rgba) -> Rgba {
    Rgba { a: ((c.a as nat + 1) / 2) as u8, ..c }
}

/// A colour at half its opacity, rounded half up.
pub fn faded(c: Rgba) -> (r: Rgba)
    ensures
        r == faded_spec(c),
{
    let a: u8 = ((c.a as u16 + 1) / 2) as u8;
    Rgba { a, ..c }
}

/// The disabled look of a style: its background at half opacity.
pub open spec fn dimmed_spec(s: Style) -> Style {
    Style {
        background: match s.background {
            Some(c) => Some(faded_spec(c)),
            None => None,
        },
        ..s
    }
}

pub open spec fn default_enabled_spec() -> Style {
    Style {
        background: Some(Rgba { r: 222, g: 222, b: 222, a: 255 }),
        border: Some(BorderStyle { width: 100, color: Rgba { r: 178, g: 178, b: 178, a: 255 } }),
        border_radius: 200,
    }
}

/// Corner radius of the history's buttons, in hundredths of a pixel.
pub const RADIUS: u32 = 1000;

/// The near-white background of the history's buttons.
pub open spec fn background_spec() -> Rgba {
    Rgba { r: 251, g: 251, b: 251, a: 255 }
}

/// The green of a button's border under the pointer.
pub open spec fn border_spec() -> Rgba {
    Rgba { r: 46, g: 179, b: 152, a: 255 }
}

pub(crate) fn background() -> (r: Rgba)
    ensures
        r == background_spec(),
{
    Rgba { r: 251, g: 251, b: 251, a: 255 }
}

pub(crate) fn border() -> (r: Rgba)
    ensures
        r == border_spec(),
{
    Rgba { r: 46, g: 179, b: 152, a: 255 }
}

/// The plain style: light grey with a grey border and slightly rounded
/// corners, the same when hovered or pressed, dimmed when disabled.
#[derive(Debug, Clone, Copy, Default)]
pub struct DefaultStyle;

impl DefaultStyle {
    pub fn enabled(&self) -> (r: Style)
        ensures
            r == default_enabled_spec(),
    {
        Style {
            background: Some(Rgba { r: 222, g: 222, b: 222, a: 255 }),
            border: Some(BorderStyle { width: 100, color: Rgba { r: 178, g: 178, b: 178, a: 255 } }),
            border_radius: 200,
        }
    }

    pub fn hovered(&self) -> (r: Style)
        ensures
            r == default_enabled_spec(),
    {
        self.enabled()
    }

    pub fn pressed(&self) -> (r: Style)
        ensures
            r == default_enabled_spec(),
    {
        self.enabled()
    }

    pub fn disabled(&self) -> (r: Style)
        ensures
            r == dimmed_spec(default_enabled_spec()),
    {
        let style = self.enabled();
        let background = match style.background {
            Some(c) => Some(faded(c)),
            None => None,
        };
        Style { background, ..style }
    }
}

} // verus!
