use emoji_selector::button::{
    active, appearance, color_button_appearance, hovered, pressed, selection_background, Activity,
    Appearance, Button, Component, Paint, Radius,
};
use emoji_selector::scrollable::events::{Event, ScrollDelta, Status};
use emoji_selector::scrollable::geometry::{Direction, Point, Properties, Rectangle};
use emoji_selector::scrollable::offset::Offset;
use emoji_selector::scrollable::state::{State, Translation};
use emoji_selector::scrollable::widget::{Length, Scrollable, Size};

fn plain() -> Appearance {
    Appearance {
        background: None,
        overlay: None,
        text_color: None,
        icon_color: None,
        border_radius: Radius::ExtraLarge,
        border_width: 0,
        border_color: Paint::Transparent,
        outline_width: 0,
        outline_color: Paint::Transparent,
    }
}

#[test]
fn standard_button() {
    assert_eq!(Button::default(), Button::Standard);
    assert_eq!(
        active(false, false, Button::Standard),
        Appearance { background: Some(Paint::Base(Component::Button)), ..plain() }
    );
    assert_eq!(
        hovered(false, true, Button::Standard),
        Appearance { background: Some(Paint::Hover(Component::Button)), ..plain() }
    );
    assert_eq!(
        pressed(true, false, Button::Standard),
        Appearance {
            background: Some(Paint::Pressed(Component::Button)),
            outline_width: 1,
            outline_color: Paint::AccentBase,
            border_width: 2,
            ..plain()
        }
    );
}

#[test]
fn transparent_button_of_the_emoji() {
    assert_eq!(
        active(false, false, Button::Transparent),
        Appearance {
            background: Some(Paint::Base(Component::Transparent)),
            text_color: Some(Paint::On(Component::Transparent)),
            icon_color: Some(Paint::On(Component::Transparent)),
            ..plain()
        }
    );
}

#[test]
fn icon_buttons() {
    assert_eq!(
        active(false, true, Button::IconVertical),
        Appearance {
            background: Some(Paint::Base(Component::IconButton)),
            overlay: Some(Paint::SelectedState),
            text_color: Some(Paint::AccentBase),
            icon_color: Some(Paint::AccentBase),
            border_radius: Radius::Medium,
            ..plain()
        }
    );
    assert_eq!(
        active(false, false, Button::Icon),
        Appearance { background: Some(Paint::Base(Component::IconButton)), ..plain() }
    );
    assert_eq!(active(false, true, Button::HeaderBar).overlay, None);
    assert_eq!(active(false, true, Button::HeaderBar).icon_color, Some(Paint::AccentBase));
}

#[test]
fn image_button_shows_focus_by_its_border() {
    let looks = appearance(true, false, Button::Image, Activity::Active);
    assert_eq!(
        looks,
        Appearance {
            text_color: Some(Paint::AccentBase),
            icon_color: Some(Paint::AccentBase),
            border_radius: Radius::Small,
            border_width: 2,
            border_color: Paint::AccentBase,
            ..plain()
        }
    );
    assert_eq!(active(false, false, Button::Image).border_width, 0);
}

#[test]
fn other_styles() {
    assert_eq!(active(false, false, Button::Custom), plain());
    assert_eq!(active(false, false, Button::MenuRoot), plain());
    assert_eq!(active(false, false, Button::Link).border_radius, Radius::Square);
    assert_eq!(active(false, false, Button::Link).background, None);
    assert_eq!(active(false, false, Button::AppletMenu).border_radius, Radius::Square);
    assert_eq!(active(false, false, Button::AppletIcon).border_radius, Radius::ExtraLarge);
    assert_eq!(active(false, false, Button::AppletIcon).background, Some(Paint::Base(Component::TextButton)));
    assert_eq!(active(false, false, Button::MenuItem).background, Some(Paint::Base(Component::Background)));
    assert_eq!(active(false, false, Button::MenuItem).text_color, Some(Paint::OnBackground));
    assert_eq!(active(false, false, Button::Suggested).background, Some(Paint::Base(Component::AccentButton)));
    assert_eq!(active(false, false, Button::Destructive).text_color, Some(Paint::On(Component::DestructiveButton)));
    assert_eq!(active(false, false, Button::Text).background, Some(Paint::Base(Component::TextButton)));
    assert_eq!(selection_background(), Paint::PrimaryBase);
}

#[test]
fn skin_tone_buttons() {
    let on = color_button_appearance(0xf7deceff, Some(true));
    assert_eq!((on.background, on.border_width, on.accent_border), (0xf7deceff, 2, true));
    assert_eq!(on.border_radius, Radius::Small);
    let off = color_button_appearance(0xf7deceff, Some(false));
    assert_eq!((off.border_width, off.accent_border), (0, false));
    let disabled = color_button_appearance(1, None);
    assert_eq!((disabled.background, disabled.border_width), (1, 0));
}

#[test]
fn settings_of_a_region() {
    let scrollable = Scrollable::new();
    assert_eq!(scrollable.size(), Size { width: Length::Shrink, height: Length::Shrink });
    assert_eq!(scrollable.direction, Direction::default());
    assert!(!scrollable.listening);
    let both = Direction::Both { vertical: Properties::new(), horizontal: Properties::new() };
    let scrollable = scrollable.width(Length::Fill).height(Length::Fixed(500)).direction(both).on_scroll();
    assert_eq!(scrollable.size(), Size { width: Length::Fill, height: Length::Fixed(500) });
    assert!(scrollable.listening);
    let limits = scrollable.layout(0, 0, 300, 400);
    assert_eq!((limits.max_width, limits.max_height), (None, None));
}

#[test]
fn region_with_its_settings() {
    let scrollable = Scrollable::new().on_scroll();
    let bounds = Rectangle { x: 0, y: 0, width: 100, height: 200 };
    let content = Rectangle { x: 0, y: 0, width: 100, height: 800 };
    let cursor = Some(Point { x: 10, y: 10 });
    let mut state = State::new();
    let wheel = Event::WheelScrolled { delta: ScrollDelta::Pixels { x: 0, y: -25 } };
    let outcome = scrollable.on_event(&mut state, wheel, Status::Ignored, cursor, bounds, content);
    assert_eq!(outcome.status, Status::Captured);
    assert!(outcome.notification.is_some());
    assert_eq!(state.offset_y, Offset::Absolute(25));
    assert_eq!(scrollable.translation(&state, bounds, content), Translation { x: 0, y: 25 });
    let (seen, visible) = scrollable.content_input(&state, cursor, bounds, content);
    assert_eq!(seen.map(|p| (p.x, p.y)), Some((10, 35)));
    assert_eq!((visible.x, visible.y, visible.width, visible.height), (0, 25, 100, 200));
    assert!(scrollable.draw(&state, cursor, bounds, content).clipped);
    let silent = Scrollable::new();
    let outcome = silent.on_event(&mut state, wheel, Status::Ignored, cursor, bounds, content);
    assert_eq!(outcome.notification, None);
    assert_eq!(state.offset_y, Offset::Absolute(50));
}
