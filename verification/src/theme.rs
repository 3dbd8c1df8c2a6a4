//! Colour themes: four named palettes and the order in which `T` cycles them.

use vstd::prelude::*;

verus! {

/// A 24-bit colour.
#[derive(Debug, Clone, Copy, PartialEq, Eq, Structural)]
pub struct Rgb {
    pub r: u8,
    pub g: u8,
    pub b: u8,
}

pub open spec fn rgb(r: u8, g: u8, b: u8) -> Rgb {
    Rgb { r, g, b }
}

/// Semantic colour palette: every UI element maps to one of these.
#[derive(Debug, Clone, Copy, PartialEq, Eq, Structural)]
pub struct Theme {
    /// terminal background fill
    pub bg: Rgb,
    /// title bar / slightly elevated surface
    pub overlay: Rgb,
    /// selection row background, status bar background
    pub surface: Rgb,
    /// primary foreground text
    pub fg: Rgb,
    /// column headers, dimmed labels
    pub muted: Rgb,
    /// tabs, key hints, hostnames, primary highlights
    pub accent: Rgb,
    /// namespace, ports, secondary info
    pub secondary: Rgb,
    /// running pods, ready deployments
    pub success: Rgb,
    /// pending, warning events
    pub warning: Rgb,
    /// failed, error, prod context, quit key
    pub danger: Rgb,
    /// succeeded pods, informational
    pub info: Rgb,
    /// TSH cluster, terminating pods
    pub special: Rgb,
}

#[derive(Debug, Clone, Copy, PartialEq, Eq, Structural)]
pub enum ThemeVariant {
    Default,
    Dracula,
    Nord,
    TokyoNight,
}

/// The position of a variant in the cycle Default, Dracula, Nord, Tokyo Night.
pub open spec fn variant_index(t: ThemeVariant) -> int {
    match t {
        ThemeVariant::Default => 0,
        ThemeVariant::Dracula => 1,
        ThemeVariant::Nord => 2,
        ThemeVariant::TokyoNight => 3,
    }
}

pub open spec fn variant_at(i: int) -> ThemeVariant {
    if i == 0 {
        ThemeVariant::Default
    } else if i == 1 {
        ThemeVariant::Dracula
    } else if i == 2 {
        ThemeVariant::Nord
    } else {
        ThemeVariant::TokyoNight
    }
}

pub open spec fn theme_name(t: ThemeVariant) -> Seq<char> {
    match t {
        ThemeVariant::Default => "Default"@,
        ThemeVariant::Dracula => "Dracula"@,
        ThemeVariant::Nord => "Nord"@,
        ThemeVariant::TokyoNight => "Tokyo Night"@,
    }
}

pub open spec fn theme_colors(t: ThemeVariant) -> Theme {
    match t {
        ThemeVariant::Default => Theme {
            bg: rgb(13, 13, 17),
            overlay: rgb(22, 22, 28),
            surface: rgb(40, 42, 54),
            fg: rgb(220, 220, 230),
            muted: rgb(90, 92, 110),
            accent: rgb(80, 200, 220),
            secondary: rgb(250, 200, 70),
            success: rgb(80, 200, 120),
            warning: rgb(250, 180, 50),
            danger: rgb(230, 80, 80),
            info: rgb(100, 150, 230),
            special: rgb(200, 120, 230),
        },
        ThemeVariant::Dracula => Theme {
            bg: rgb(40, 42, 54),
            overlay: rgb(33, 34, 44),
            surface: rgb(68, 71, 90),
            fg: rgb(248, 248, 242),
            muted: rgb(98, 114, 164),
            accent: rgb(255, 121, 198),
            secondary: rgb(241, 250, 140),
            success: rgb(80, 250, 123),
            warning: rgb(255, 184, 108),
            danger: rgb(255, 85, 85),
            info: rgb(139, 233, 253),
            special: rgb(189, 147, 249),
        },
        ThemeVariant::Nord => Theme {
            bg: rgb(46, 52, 64),
            overlay: rgb(40, 45, 56),
            surface: rgb(67, 76, 94),
            fg: rgb(236, 239, 244),
            muted: rgb(76, 86, 106),
            accent: rgb(136, 192, 208),
            secondary: rgb(129, 161, 193),
            success: rgb(163, 190, 140),
            warning: rgb(235, 203, 139),
            danger: rgb(191, 97, 106),
            info: rgb(94, 129, 172),
            special: rgb(180, 142, 173),
        },
        ThemeVariant::TokyoNight => Theme {
            bg: rgb(26, 27, 38),
            overlay: rgb(20, 22, 30),
            surface: rgb(41, 46, 66),
            fg: rgb(169, 177, 214),
            muted: rgb(86, 95, 137),
            accent: rgb(122, 162, 247),
            secondary: rgb(224, 175, 104),
            success: rgb(158, 206, 106),
            warning: rgb(224, 175, 104),
            danger: rgb(247, 118, 142),
            info: rgb(125, 207, 255),
            special: rgb(187, 154, 247),
        },
    }
}

fn c(r: u8, g: u8, b: u8) -> (x: Rgb)
    ensures
        x == rgb(r, g, b),
{
    Rgb { r, g, b }
}

impl ThemeVariant {
    /// The display name of the theme.
    pub fn name(self) -> (r: &'static str)
        ensures
            r@ == theme_name(self),
    {
        match self {
            ThemeVariant::Default => "Default",
            ThemeVariant::Dracula => "Dracula",
            ThemeVariant::Nord => "Nord",
            ThemeVariant::TokyoNight => "Tokyo Night",
        }
    }

    /// The theme after this one in the cycle, wrapping to the first.
    pub fn next(self) -> (r: ThemeVariant)
        ensures
            r == variant_at((variant_index(self) + 1) % 4),
    {
        match self {
            ThemeVariant::Default => ThemeVariant::Dracula,
            ThemeVariant::Dracula => ThemeVariant::Nord,
            ThemeVariant::Nord => ThemeVariant::TokyoNight,
            ThemeVariant::TokyoNight => ThemeVariant::Default,
        }
    }

    /// The palette of the theme.
    pub fn colors(self) -> (r: Theme)
        ensures
            r == theme_colors(self),
    {
        match self {
            ThemeVariant::Default => Theme {
                bg: c(13, 13, 17),
                overlay: c(22, 22, 28),
                surface: c(40, 42, 54),
                fg: c(220, 220, 230),
                muted: c(90, 92, 110),
                accent: c(80, 200, 220),
                secondary: c(250, 200, 70),
                success: c(80, 200, 120),
                warning: c(250, 180, 50),
                danger: c(230, 80, 80),
                info: c(100, 150, 230),
                special: c(200, 120, 230),
            },
            ThemeVariant::Dracula => Theme {
                bg: c(40, 42, 54),
                overlay: c(33, 34, 44),
                surface: c(68, 71, 90),
                fg: c(248, 248, 242),
                muted: c(98, 114, 164),
                accent: c(255, 121, 198),
                secondary: c(241, 250, 140),
                success: c(80, 250, 123),
                warning: c(255, 184, 108),
                danger: c(255, 85, 85),
                info: c(139, 233, 253),
                special: c(189, 147, 249),
            },
            ThemeVariant::Nord => Theme {
                bg: c(46, 52, 64),
                overlay: c(40, 45, 56),
                surface: c(67, 76, 94),
                fg: c(236, 239, 244),
                muted: c(76, 86, 106),
                accent: c(136, 192, 208),
                secondary: c(129, 161, 193),
                success: c(163, 190, 140),
                warning: c(235, 203, 139),
                danger: c(191, 97, 106),
                info: c(94, 129, 172),
                special: c(180, 142, 173),
            },
            ThemeVariant::TokyoNight => Theme {
                bg: c(26, 27, 38),
                overlay: c(20, 22, 30),
                surface: c(41, 46, 66),
                fg: c(169, 177, 214),
                muted: c(86, 95, 137),
                accent: c(122, 162, 247),
                secondary: c(224, 175, 104),
                success: c(158, 206, 106),
                warning: c(224, 175, 104),
                danger: c(247, 118, 142),
                info: c(125, 207, 255),
                special: c(187, 154, 247),
            },
        }
    }
}

/// The cycle of themes: the fourth successor of a theme is the theme itself.
pub proof fn law_theme_cycle(t: ThemeVariant)
    ensures
        variant_at((variant_index(variant_at((variant_index(variant_at((variant_index(
            variant_at((variant_index(t) + 1) % 4),
        ) + 1) % 4)) + 1) % 4)) + 1) % 4) == t,
{
}

/// Cycling visits every theme: each theme is the successor of exactly one theme.
pub proof fn law_theme_next_bijective(a: ThemeVariant, b: ThemeVariant)
    ensures
        variant_at((variant_index(a) + 1) % 4) == variant_at((variant_index(b) + 1) % 4) ==> a
            == b,
        exists|p: ThemeVariant| variant_at((variant_index(p) + 1) % 4) == b,
{
    let p = variant_at((variant_index(b) + 3) % 4);
    assert(variant_at((variant_index(p) + 1) % 4) == b);
}

} // verus!
