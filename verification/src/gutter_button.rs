//! The buttons drawn in the gutter of the code editor.
//!
//! Colours come from the theme; what the library decides is which shade a
//! button takes, which text colour scheme it uses, and its tooltip.

use vstd::prelude::*;

verus! {

/// The neutral shade of the theme a gutter button is filled with.
#[derive(Clone, Copy, Debug, PartialEq, Eq, Structural)]
pub enum GutterBackground {
    /// The lighter shade, for a hovered enabled button.
    Neutral3,
    /// The base shade.
    Neutral1,
}

/// The colour scheme of a gutter button's icon.
#[derive(Clone, Copy, Debug, PartialEq, Eq, Structural)]
pub enum GutterIconTheme {
    Secondary,
    DisabledSecondary,
}

/// The icon of a gutter button.
#[derive(Clone, Copy, Debug, PartialEq, Eq, Structural)]
pub enum GutterIcon {
    ReverseLeft,
}

/// A button rendered within the gutter of the editor.
pub trait GutterButton {
    /// Whether the button is enabled; a disabled button is drawn as such.
    fn is_enabled(&self) -> bool;

    /// The text shown when the button is hovered.
    fn tooltip_text(&self) -> Option<&'static str>;

    /// The icon of the button.
    fn icon(&self) -> GutterIcon;
}

/// The shade of a button: the lighter one when it is enabled and hovered.
pub fn background_shade(is_enabled: bool, is_hovered: bool) -> (r: GutterBackground)
    ensures
        r == (if is_enabled && is_hovered {
            GutterBackground::Neutral3
        } else {
            GutterBackground::Neutral1
        }),
{
    if is_enabled {
        if is_hovered {
            GutterBackground::Neutral3
        } else {
            GutterBackground::Neutral1
        }
    } else {
        GutterBackground::Neutral1
    }
}

/// The colour scheme of a button's icon.
pub fn icon_theme(is_enabled: bool) -> (r: GutterIconTheme)
    ensures
        r == (if is_enabled {
            GutterIconTheme::Secondary
        } else {
            GutterIconTheme::DisabledSecondary
        }),
{
    if is_enabled {
        GutterIconTheme::Secondary
    } else {
        GutterIconTheme::DisabledSecondary
    }
}

/// The button that reverts a diff hunk.
#[derive(Clone, Copy, Debug, Default)]
pub struct RevertHunkButton {
    is_enabled: bool,
}

impl RevertHunkButton {
    /// Whether the button is enabled.
    pub closed spec fn spec_is_enabled(&self) -> bool {
        self.is_enabled
    }

    pub fn new(is_enabled: bool) -> (r: Self)
        ensures
            r.spec_is_enabled() == is_enabled,
    {
        RevertHunkButton { is_enabled }
    }
}

impl GutterButton for RevertHunkButton {
    fn is_enabled(&self) -> (r: bool)
        ensures
            r == self.spec_is_enabled(),
    {
        self.is_enabled
    }

    /// "Revert diff hunk" when enabled; otherwise the changes must be saved
    /// first.
    fn tooltip_text(&self) -> (r: Option<&'static str>)
        ensures
            r matches Some(t) && t@ == (if self.spec_is_enabled() {
                "Revert diff hunk"@
            } else {
                "Save changes to revert"@
            }),
    {
        if self.is_enabled {
            Some("Revert diff hunk")
        } else {
            Some("Save changes to revert")
        }
    }

    fn icon(&self) -> (r: GutterIcon)
        ensures
            r == GutterIcon::ReverseLeft,
    {
        GutterIcon::ReverseLeft
    }
}

} // verus!
