//! The looks of buttons: which colours of the theme a button of a given
//! style takes in a given state.

use vstd::prelude::*;

verus! {

/// The style of a button.
#[derive(Clone, Copy, Debug, PartialEq, Eq, Structural)]
pub enum Button {
    AppletIcon,
    /// A button whose looks its owner decides.
    Custom,
    AppletMenu,
    Destructive,
    HeaderBar,
    Icon,
    IconVertical,
    Image,
    Link,
    MenuItem,
    MenuRoot,
    Standard,
    Suggested,
    Text,
    Transparent,
}

impl Default for Button {
    fn default() -> (style: Button)
        ensures
            style == Button::Standard,
    {
        Button::Standard
    }
}

/// What a button is doing.
#[derive(Clone, Copy, Debug, PartialEq, Eq, Structural)]
pub enum Activity {
    Active,
    Hovered,
    Pressed,
}

/// A set of colours of the theme.
#[derive(Clone, Copy, Debug, PartialEq, Eq, Structural)]
pub enum Component {
    Button,
    TextButton,
    AccentButton,
    DestructiveButton,
    IconButton,
    Background,
    /// The component without colour.
    Transparent,
}

/// A colour, by its place in the theme.
#[derive(Clone, Copy, Debug, PartialEq, Eq, Structural)]
pub enum Paint {
    /// The colour of a component at rest.
    Base(Component),
    /// The colour of a component under the pointer.
    Hover(Component),
    /// The colour of a component that is pressed.
    Pressed(Component),
    /// The colour of what stands on a component.
    On(Component),
    /// The colour that marks a selected icon button.
    SelectedState,
    /// The base colour of the accent.
    AccentBase,
    /// The colour of what stands on the background.
    OnBackground,
    /// The base colour of the primary container.
    PrimaryBase,
    Transparent,
}

/// The roundness of a button's corners, by its name in the theme.
#[derive(Clone, Copy, Debug, PartialEq, Eq, Structural)]
pub enum Radius {
    Square,
    Small,
    Medium,
    ExtraLarge,
}

/// The looks of a button.
#[derive(Clone, Copy, Debug, PartialEq, Eq, Structural)]
pub struct Appearance {
    pub background: Option<Paint>,
    pub overlay: Option<Paint>,
    pub text_color: Option<Paint>,
    pub icon_color: Option<Paint>,
    pub border_radius: Radius,
    pub border_width: u8,
    pub border_color: Paint,
    pub outline_width: u8,
    pub outline_color: Paint,
}

/// The colour of a component for what a button is doing.
pub open spec fn shade(component: Component, activity: Activity) -> Paint {
    match activity {
        Activity::Active => Paint::Base(component),
        Activity::Hovered => Paint::Hover(component),
        Activity::Pressed => Paint::Pressed(component),
    }
}

/// The component from which a plain style takes its colours.
pub open spec fn component_of(style: Button) -> Option<Component> {
    match style {
        Button::Standard => Some(Component::Button),
        Button::Text => Some(Component::TextButton),
        Button::Suggested => Some(Component::AccentButton),
        Button::Destructive => Some(Component::DestructiveButton),
        Button::Transparent => Some(Component::Transparent),
        _ => None,
    }
}

/// The looks of a button that nothing has touched.
pub open spec fn plain() -> Appearance {
    Appearance {
        background: None,
        overlay: None,
        text_color: None,
        icon_color: None,
        border_radius: Radius::ExtraLarge,
        border_width: 0,
        border_color: Paint::Transparent,
        outline_width: 0,
        outline_color: Paint::Transparent,
    }
}

/// The looks that the style gives, before the focus is drawn.
pub open spec fn styled(selected: bool, focused: bool, style: Button, activity: Activity) -> Appearance {
    match style {
        Button::Standard => Appearance {
            background: Some(shade(Component::Button, activity)),
            ..plain()
        },
        Button::Text | Button::Suggested | Button::Destructive | Button::Transparent => {
            let component = component_of(style).unwrap();
            Appearance {
                background: Some(shade(component, activity)),
                text_color: Some(Paint::On(component)),
                icon_color: Some(Paint::On(component)),
                ..plain()
            }
        },
        Button::Icon | Button::IconVertical | Button::HeaderBar => Appearance {
            background: Some(shade(Component::IconButton, activity)),
            overlay: if style is IconVertical && selected {
                Some(Paint::SelectedState)
            } else {
                None
            },
            text_color: if focused || selected {
                Some(Paint::AccentBase)
            } else {
                None
            },
            icon_color: if focused || selected {
                Some(Paint::AccentBase)
            } else {
                None
            },
            border_radius: if style is IconVertical {
                Radius::Medium
            } else {
                Radius::ExtraLarge
            },
            ..plain()
        },
        Button::Image => Appearance {
            text_color: Some(Paint::AccentBase),
            icon_color: Some(Paint::AccentBase),
            border_radius: Radius::Small,
            border_width: if focused || selected {
                2
            } else {
                0
            },
            border_color: if focused || selected {
                Paint::AccentBase
            } else {
                Paint::Transparent
            },
            ..plain()
        },
        Button::Link => Appearance {
            text_color: Some(Paint::AccentBase),
            icon_color: Some(Paint::AccentBase),
            border_radius: Radius::Square,
            ..plain()
        },
        Button::Custom => plain(),
        Button::AppletMenu => Appearance {
            background: Some(shade(Component::TextButton, activity)),
            text_color: Some(Paint::OnBackground),
            icon_color: Some(Paint::OnBackground),
            border_radius: Radius::Square,
            ..plain()
        },
        Button::AppletIcon => Appearance {
            background: Some(shade(Component::TextButton, activity)),
            text_color: Some(Paint::OnBackground),
            icon_color: Some(Paint::OnBackground),
            ..plain()
        },
        Button::MenuRoot => plain(),
        Button::MenuItem => Appearance {
            background: Some(shade(Component::Background, activity)),
            text_color: Some(Paint::OnBackground),
            icon_color: Some(Paint::OnBackground),
            border_radius: Radius::Small,
            ..plain()
        },
    }
}

/// The looks of a button: those of its style, and on a focused button an
/// outline in the accent colour around a clear border. An image button
/// shows the focus by its border alone.
pub open spec fn appearance_of(
    focused: bool,
    selected: bool,
    style: Button,
    activity: Activity,
) -> Appearance {
    let looks = styled(selected, focused, style, activity);
    if focused && !(style is Image) {
        Appearance {
            outline_width: 1,
            outline_color: Paint::AccentBase,
            border_width: 2,
            border_color: Paint::Transparent,
            ..looks
        }
    } else {
        looks
    }
}

fn shade_of(component: Component, activity: Activity) -> (paint: Paint)
    ensures
        paint == shade(component, activity),
{
    match activity {
        Activity::Active => Paint::Base(component),
        Activity::Hovered => Paint::Hover(component),
        Activity::Pressed => Paint::Pressed(component),
    }
}

/// The looks of a button of a style that is focused or selected or
/// neither, for what the button is doing.
pub fn appearance(focused: bool, selected: bool, style: Button, activity: Activity) -> (looks:
    Appearance)
    ensures
        looks == appearance_of(focused, selected, style, activity),
{
    let mut looks = Appearance {
        background: None,
        overlay: None,
        text_color: None,
        icon_color: None,
        border_radius: Radius::ExtraLarge,
        border_width: 0,
        border_color: Paint::Transparent,
        outline_width: 0,
        outline_color: Paint::Transparent,
    };
    match style {
        Button::Standard | Button::Text | Button::Suggested | Button::Destructive
        | Button::Transparent => {
            let component = match style {
                Button::Standard => Component::Button,
                Button::Text => Component::TextButton,
                Button::Suggested => Component::AccentButton,
                Button::Destructive => Component::DestructiveButton,
                _ => Component::Transparent,
            };
            looks.background = Some(shade_of(component, activity));
            if !matches!(style, Button::Standard) {
                looks.text_color = Some(Paint::On(component));
                looks.icon_color = Some(Paint::On(component));
            }
        },
        Button::Icon | Button::IconVertical | Button::HeaderBar => {
            if matches!(style, Button::IconVertical) {
                looks.border_radius = Radius::Medium;
                if selected {
                    looks.overlay = Some(Paint::SelectedState);
                }
            }
            if focused || selected {
                looks.icon_color = Some(Paint::AccentBase);
                looks.text_color = Some(Paint::AccentBase);
            }
            looks.background = Some(shade_of(Component::IconButton, activity));
        },
        Button::Image => {
            looks.text_color = Some(Paint::AccentBase);
            looks.icon_color = Some(Paint::AccentBase);
            looks.border_radius = Radius::Small;
            if focused || selected {
                looks.border_width = 2;
                looks.border_color = Paint::AccentBase;
            }
            return looks;
        },
        Button::Link => {
            looks.icon_color = Some(Paint::AccentBase);
            looks.text_color = Some(Paint::AccentBase);
            looks.border_radius = Radius::Square;
        },
        Button::Custom => {},
        Button::AppletMenu => {
            looks.background = Some(shade_of(Component::TextButton, activity));
            looks.icon_color = Some(Paint::OnBackground);
            looks.text_color = Some(Paint::OnBackground);
            looks.border_radius = Radius::Square;
        },
        Button::AppletIcon => {
            looks.background = Some(shade_of(Component::TextButton, activity));
            looks.icon_color = Some(Paint::OnBackground);
            looks.text_color = Some(Paint::OnBackground);
        },
        Button::MenuRoot => {},
        Button::MenuItem => {
            looks.background = Some(shade_of(Component::Background, activity));
            looks.icon_color = Some(Paint::OnBackground);
            looks.text_color = Some(Paint::OnBackground);
            looks.border_radius = Radius::Small;
        },
    }
    if focused {
        looks.outline_width = 1;
        looks.outline_color = Paint::AccentBase;
        looks.border_width = 2;
        looks.border_color = Paint::Transparent;
    }
    looks
}

/// The looks of a button at rest.
pub fn active(focused: bool, selected: bool, style: Button) -> (looks: Appearance)
    ensures
        looks == appearance_of(focused, selected, style, Activity::Active),
{
    appearance(focused, selected, style, Activity::Active)
}

/// The looks of a button under the pointer.
pub fn hovered(focused: bool, selected: bool, style: Button) -> (looks: Appearance)
    ensures
        looks == appearance_of(focused, selected, style, Activity::Hovered),
{
    appearance(focused, selected, style, Activity::Hovered)
}

/// The looks of a button that is pressed.
pub fn pressed(focused: bool, selected: bool, style: Button) -> (looks: Appearance)
    ensures
        looks == appearance_of(focused, selected, style, Activity::Pressed),
{
    appearance(focused, selected, style, Activity::Pressed)
}

/// The colour behind a selection.
pub fn selection_background() -> (paint: Paint)
    ensures
        paint == Paint::PrimaryBase,
{
    Paint::PrimaryBase
}

/// The looks of a skin-tone button: the button's own colour, and a border
/// of two pixels in the accent colour around a button that is on.
#[derive(Clone, Copy, Debug, PartialEq, Eq, Structural)]
pub struct ColorButtonAppearance {
    /// Red, green, blue and opacity, one byte each from the highest byte
    /// down.
    pub background: u32,
    pub border_radius: Radius,
    pub border_width: u8,
    /// Whether the border has the colour of the accent's border.
    pub accent_border: bool,
}

/// The looks of a skin-tone button; `selected` is `None` for a button that
/// cannot be clicked.
pub fn color_button_appearance(color: u32, selected: Option<bool>) -> (looks: ColorButtonAppearance)
    ensures
        looks == (ColorButtonAppearance {
            background: color,
            border_radius: Radius::Small,
            border_width: if selected == Some(true) {
                2
            } else {
                0
            },
            accent_border: selected == Some(true),
        }),
{
    let is_selected: bool = match selected {
        Some(on) => on,
        None => false,
    };
    ColorButtonAppearance {
        background: color,
        border_radius: Radius::Small,
        border_width: if is_selected {
            2
        } else {
            0
        },
        accent_border: is_selected,
    }
}

/// What a button is doing changes nothing but the shade of its background:
/// a button at rest and a pressed one differ in nothing else.
pub proof fn lemma_activity_only_shades(
    focused: bool,
    selected: bool,
    style: Button,
    one: Activity,
    other: Activity,
)
    ensures
        appearance_of(focused, selected, style, one) == (Appearance {
            background: appearance_of(focused, selected, style, one).background,
            ..appearance_of(focused, selected, style, other)
        }),
        appearance_of(focused, selected, style, one).background is Some == appearance_of(
            focused,
            selected,
            style,
            other,
        ).background is Some,
{
}

/// A focused button has an outline, unless it is an image button, and a
/// button without focus has none.
pub proof fn lemma_focus_outline(focused: bool, selected: bool, style: Button, activity: Activity)
    ensures
        appearance_of(focused, selected, style, activity).outline_width == if focused && !(style
            is Image) {
            1int
        } else {
            0int
        },
{
}

} // verus!
