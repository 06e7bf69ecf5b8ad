//! The theme data model.
//!
//! Colors are plain `0xRRGGBBAA` words and the block style measures are
//! whole pixels, so that every theme computation is a function over plain
//! values.

use vstd::prelude::*;

verus! {

/// The named colors of a theme, as `0xRRGGBBAA` words.
#[derive(Clone, Copy, Debug, PartialEq, Eq, Structural)]
pub struct ThemeColors {
    pub base: u32,
    pub crust: u32,
    pub mantle: u32,
    pub surface: u32,
    pub surface_lighten: u32,
    pub surface_darken: u32,
    pub overlay: u32,
    pub overlay_lighten: u32,
    pub overlay_darken: u32,
    pub text: u32,
    pub text_darken: u32,
    pub text_dark: u32,
    pub text_inverse: u32,
    pub text_primary: u32,
    pub primary: u32,
    pub secondary: u32,
    pub tertiary: u32,
    pub error: u32,
    pub success: u32,
    pub warn: u32,
    pub info: u32,
}

/// The stock palette.
pub open spec fn spec_default_colors() -> ThemeColors {
    ThemeColors {
        base: 0x1e1e2eff,
        crust: 0x181825ff,
        mantle: 0x11111bff,
        surface: 0x45475aff,
        surface_lighten: 0x585b70ff,
        surface_darken: 0x313244ff,
        overlay: 0x7f849cff,
        overlay_lighten: 0x9399b2ff,
        overlay_darken: 0x6c7086ff,
        text: 0xcdd6f4ff,
        text_darken: 0xbac2deff,
        text_dark: 0xa6adc8ff,
        text_inverse: 0xcba6f7ff,
        text_primary: 0x585b70ff,
        primary: 0xcba6f7ff,
        secondary: 0xeba0acff,
        tertiary: 0x89dcebff,
        error: 0xf38ba8ff,
        success: 0xa6e3a1ff,
        warn: 0xf9e2afff,
        info: 0x89b4faff,
    }
}

impl Default for ThemeColors {
    fn default() -> (c: ThemeColors)
        ensures
            c == spec_default_colors(),
    {
        ThemeColors {
            base: 0x1e1e2eff,
            crust: 0x181825ff,
            mantle: 0x11111bff,
            surface: 0x45475aff,
            surface_lighten: 0x585b70ff,
            surface_darken: 0x313244ff,
            overlay: 0x7f849cff,
            overlay_lighten: 0x9399b2ff,
            overlay_darken: 0x6c7086ff,
            text: 0xcdd6f4ff,
            text_darken: 0xbac2deff,
            text_dark: 0xa6adc8ff,
            text_inverse: 0xcba6f7ff,
            text_primary: 0x585b70ff,
            primary: 0xcba6f7ff,
            secondary: 0xeba0acff,
            tertiary: 0x89dcebff,
            error: 0xf38ba8ff,
            success: 0xa6e3a1ff,
            warn: 0xf9e2afff,
            info: 0x89b4faff,
        }
    }
}

/// Styling of block widgets, in whole pixels.
#[derive(Clone, Copy, Debug, PartialEq, Eq, Structural)]
pub struct BlockStyles {
    pub rounding: u32,
    pub border: u32,
}

impl Default for BlockStyles {
    fn default() -> (s: BlockStyles)
        ensures
            s.rounding == 0,
            s.border == 0,
    {
        BlockStyles { rounding: 0, border: 0 }
    }
}

/// Per-widget styling of a theme.
#[derive(Clone, Copy, Debug, PartialEq, Eq, Structural)]
pub struct ThemeStyles {
    pub block: BlockStyles,
}

impl Default for ThemeStyles {
    fn default() -> (s: ThemeStyles)
        ensures
            s.block.rounding == 0,
            s.block.border == 0,
    {
        ThemeStyles { block: BlockStyles { rounding: 0, border: 0 } }
    }
}

/// A complete theme: its palette and its widget styling.
#[derive(Clone, Copy, Debug, PartialEq, Eq, Structural)]
pub struct Theme {
    pub colors: ThemeColors,
    pub styles: ThemeStyles,
}

/// The stock theme.
pub open spec fn spec_default_theme() -> Theme {
    Theme {
        colors: spec_default_colors(),
        styles: ThemeStyles { block: BlockStyles { rounding: 0, border: 0 } },
    }
}

impl Default for Theme {
    fn default() -> (t: Theme)
        ensures
            t == spec_default_theme(),
    {
        Theme {
            colors: ThemeColors::default(),
            styles: ThemeStyles { block: BlockStyles { rounding: 0, border: 0 } },
        }
    }
}

/// The named role a themed widget can ask a color for.
#[derive(Clone, Copy, Debug, PartialEq, Eq, Structural)]
pub enum ThemeColor {
    Crust,
    Base,
    Mantle,
    Primary,
    Secondary,
    Tertiary,
}

/// Which palette entry a color role denotes.
pub open spec fn spec_get_color(color: ThemeColor, t: Theme) -> u32 {
    match color {
        ThemeColor::Crust => t.colors.crust,
        ThemeColor::Base => t.colors.base,
        ThemeColor::Mantle => t.colors.mantle,
        ThemeColor::Primary => t.colors.primary,
        ThemeColor::Secondary => t.colors.secondary,
        ThemeColor::Tertiary => t.colors.tertiary,
    }
}

impl Theme {
    /// Resolves a color role against a theme's palette.
    pub fn get_color(color: ThemeColor, theme: &Theme) -> (r: u32)
        ensures
            r == spec_get_color(color, *theme),
    {
        match color {
            ThemeColor::Crust => theme.colors.crust,
            ThemeColor::Base => theme.colors.base,
            ThemeColor::Mantle => theme.colors.mantle,
            ThemeColor::Primary => theme.colors.primary,
            ThemeColor::Secondary => theme.colors.secondary,
            ThemeColor::Tertiary => theme.colors.tertiary,
        }
    }
}

/// A border specification a block widget can carry.
#[derive(Clone, Copy, Debug, PartialEq, Eq, Structural)]
pub enum ThemeBorder {
    Bare,
    Colored(ThemeColor),
    Sized(ThemeColor, u32),
}

/// The styling a stylizer has resolved so far. The runtime applies it to
/// the element being built; resolving it is pure computation and happens
/// here.
#[derive(Clone, Copy, Debug, PartialEq, Eq, Structural)]
pub struct AppliedStyle {
    /// Background color, as `0xRRGGBBAA`.
    pub bg: Option<u32>,
    /// Border width, in whole pixels.
    pub border_width: Option<u32>,
    /// Border color, as `0xRRGGBBAA`.
    pub border_color: Option<u32>,
}

/// Resolves theme color roles and border specifications into concrete
/// style values for one element.
#[derive(Clone, Copy, Debug, PartialEq, Eq, Structural)]
pub struct Stylizer {
    pub theme: Theme,
    pub style: AppliedStyle,
}

/// The width a border specification resolves to: an explicit size wins,
/// else the caller's fallback, else one pixel.
pub open spec fn spec_border_size(border: ThemeBorder, fallback: Option<u32>) -> u32 {
    match border {
        ThemeBorder::Sized(c, s) => s,
        _ => match fallback {
            Some(s) => s,
            None => 1,
        },
    }
}

impl Theme {
    /// Begins styling one element against a theme.
    pub fn stylize(theme: &Theme) -> (s: Stylizer)
        ensures
            s.theme == *theme,
            s.style == (AppliedStyle { bg: None, border_width: None, border_color: None }),
    {
        Stylizer {
            theme: *theme,
            style: AppliedStyle { bg: None, border_width: None, border_color: None },
        }
    }
}

impl Stylizer {
    /// Resolves the background color role.
    pub fn bg(self, bg: ThemeColor) -> (r: Stylizer)
        ensures
            r.theme == self.theme,
            r.style.bg == Some(spec_get_color(bg, self.theme)),
            r.style.border_width == self.style.border_width,
            r.style.border_color == self.style.border_color,
    {
        let color = Theme::get_color(bg, &self.theme);
        Stylizer { style: AppliedStyle { bg: Some(color), ..self.style }, ..self }
    }

    /// Resolves a border specification: a bare border leaves the style
    /// alone; a colored or sized border fixes both the width and the color.
    pub fn border(self, border: ThemeBorder, size: Option<u32>) -> (r: Stylizer)
        ensures
            r.theme == self.theme,
            r.style.bg == self.style.bg,
            border is Bare ==> r.style == self.style,
            (border matches ThemeBorder::Colored(c) ==> r.style.border_width == Some(
                spec_border_size(border, size),
            ) && r.style.border_color == Some(spec_get_color(c, self.theme))),
            (border matches ThemeBorder::Sized(c, s) ==> r.style.border_width == Some(s)
                && r.style.border_color == Some(spec_get_color(c, self.theme))),
    {
        let width: u32 = match border {
            ThemeBorder::Sized(_, s) => s,
            _ => match size {
                Some(s) => s,
                None => 1,
            },
        };
        match border {
            ThemeBorder::Bare => self,
            ThemeBorder::Colored(color) | ThemeBorder::Sized(color, _) => {
                let resolved = Theme::get_color(color, &self.theme);
                Stylizer {
                    style: AppliedStyle {
                        border_width: Some(width),
                        border_color: Some(resolved),
                        ..self.style
                    },
                    ..self
                }
            },
        }
    }

    /// Hands the resolved style back for the runtime to apply.
    pub fn into(self) -> (r: AppliedStyle)
        ensures
            r == self.style,
    {
        self.style
    }
}

/// The process-wide theme value, as installed into the runtime's shared
/// state.
#[derive(Clone, Copy, Debug, PartialEq, Eq, Structural)]
pub struct ThemeState {
    pub inner: Theme,
}

impl ThemeState {
    /// The stock theme state.
    pub fn new() -> (s: ThemeState)
        ensures
            s.inner == spec_default_theme(),
    {
        ThemeState { inner: Theme::default() }
    }

    /// Wraps an existing theme.
    pub fn with(theme: Theme) -> (s: ThemeState)
        ensures
            s.inner == theme,
    {
        ThemeState { inner: theme }
    }
}

} // verus!
