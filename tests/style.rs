use history_clipboard::style::button::{react, Pointer, Reaction};
use history_clipboard::style::{
    button, faded, interaction, radio, BorderStyle, DefaultStyle, Interaction, Rgba, Style,
};

const PANEL: Rgba = Rgba { r: 251, g: 251, b: 251, a: 255 };
const GREEN: Rgba = Rgba { r: 46, g: 179, b: 152, a: 255 };
const GREY_BORDER: BorderStyle =
    BorderStyle { width: 100, color: Rgba { r: 178, g: 178, b: 178, a: 255 } };

#[test]
fn interaction_order() {
    assert_eq!(interaction(true, true, true), Interaction::Disabled);
    assert_eq!(interaction(false, true, true), Interaction::Pressed);
    assert_eq!(interaction(false, false, true), Interaction::Hovered);
    assert_eq!(interaction(false, false, false), Interaction::Enabled);
}

#[test]
fn faded_halves_opacity() {
    assert_eq!(faded(Rgba { r: 1, g: 2, b: 3, a: 255 }), Rgba { r: 1, g: 2, b: 3, a: 128 });
    assert_eq!(faded(Rgba { r: 1, g: 2, b: 3, a: 100 }).a, 50);
    assert_eq!(faded(Rgba { r: 1, g: 2, b: 3, a: 0 }).a, 0);
}

#[test]
fn default_style_values() {
    let enabled = Style {
        background: Some(Rgba { r: 222, g: 222, b: 222, a: 255 }),
        border: Some(GREY_BORDER),
        border_radius: 200,
    };
    assert_eq!(DefaultStyle.enabled(), enabled);
    assert_eq!(DefaultStyle.hovered(), enabled);
    assert_eq!(DefaultStyle.pressed(), enabled);
    assert_eq!(
        DefaultStyle.disabled(),
        Style { background: Some(Rgba { r: 222, g: 222, b: 222, a: 128 }), ..enabled }
    );
}

#[test]
fn button_style_values() {
    let s = button::CustomStyleSheet;
    let rest = Style { background: Some(PANEL), border: Some(GREY_BORDER), border_radius: 1000 };
    assert_eq!(s.enabled(), rest);
    assert_eq!(s.pressed(), rest);
    assert_eq!(s.disabled(), rest);
    assert_eq!(
        s.hovered(),
        Style {
            background: Some(PANEL),
            border: Some(BorderStyle { width: 250, color: GREEN }),
            border_radius: 1000
        }
    );
}

#[test]
fn radio_style_values() {
    let s = radio::CustomStyleSheet;
    let rest = Style { background: Some(PANEL), border: Some(GREY_BORDER), border_radius: 1000 };
    assert_eq!(s.enabled(), rest);
    assert_eq!(s.pressed(), rest);
    assert_eq!(s.chosen(), s.hovered());
    assert_eq!(s.hovered().border, Some(BorderStyle { width: 250, color: GREEN }));
}

#[test]
fn button_reacts_to_pointer() {
    assert_eq!(react(Pointer::Down, false, false), Reaction { active: true, repaint: true });
    assert_eq!(react(Pointer::Down, true, false), Reaction { active: false, repaint: false });
    assert_eq!(react(Pointer::Up, false, true), Reaction { active: false, repaint: true });
    assert_eq!(react(Pointer::Up, true, true), Reaction { active: false, repaint: false });
    assert_eq!(react(Pointer::Up, false, false), Reaction { active: false, repaint: false });
    assert_eq!(react(Pointer::Other, false, true), Reaction { active: true, repaint: false });
}
