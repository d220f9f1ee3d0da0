//! Light and dark colour schemes, chosen by the system appearance. Colours
//! are `0xRRGGBB` values.

use vstd::prelude::*;

verus! {

/// The colours of the user interface.
#[derive(Clone, Copy, Debug, PartialEq, Eq, Structural)]
pub struct Theme {
    /// Main window background.
    pub bg: u32,
    /// Card/container background.
    pub bg_card: u32,
    /// Card background on hover.
    pub bg_card_hover: u32,
    /// Primary text.
    pub text: u32,
    /// Secondary text.
    pub text_muted: u32,
    pub border: u32,
    /// Highlights and drop targets.
    pub accent: u32,
    /// Action buttons (green).
    pub success: u32,
    pub success_hover: u32,
    /// Removal and errors (red).
    pub danger: u32,
    /// Folders queued for conversion.
    pub bg_queued: u32,
    pub bg_queued_hover: u32,
    /// The conversion progress line.
    pub progress_line: u32,
}

/// The appearance the system asks for.
#[derive(Clone, Copy, Debug, PartialEq, Eq, Structural)]
pub enum Appearance {
    Light,
    VibrantLight,
    Dark,
    VibrantDark,
}

/// The dark colour scheme.
pub open spec fn dark_theme() -> Theme {
    Theme {
        bg: 0x1e1e1e,
        bg_card: 0x2d2d2d,
        bg_card_hover: 0x3d3d3d,
        text: 0xffffff,
        text_muted: 0x9ca3af,
        border: 0x404040,
        accent: 0x3b82f6,
        success: 0x22c55e,
        success_hover: 0x16a34a,
        danger: 0xef4444,
        bg_queued: 0x3a2525,
        bg_queued_hover: 0x452a2a,
        progress_line: 0x6b3a3a,
    }
}

/// The light colour scheme.
pub open spec fn light_theme() -> Theme {
    Theme {
        bg: 0xf5f5f5,
        bg_card: 0xffffff,
        bg_card_hover: 0xf8fafc,
        text: 0x1e293b,
        text_muted: 0x64748b,
        border: 0xe2e8f0,
        accent: 0x3b82f6,
        success: 0x22c55e,
        success_hover: 0x16a34a,
        danger: 0xef4444,
        bg_queued: 0xfce8e8,
        bg_queued_hover: 0xf8d4d4,
        progress_line: 0xe57373,
    }
}

impl Theme {
    /// The dark colour scheme.
    pub fn dark() -> (t: Self)
        ensures
            t == dark_theme(),
    {
        Theme {
            bg: 0x1e1e1e,
            bg_card: 0x2d2d2d,
            bg_card_hover: 0x3d3d3d,
            text: 0xffffff,
            text_muted: 0x9ca3af,
            border: 0x404040,
            accent: 0x3b82f6,
            success: 0x22c55e,
            success_hover: 0x16a34a,
            danger: 0xef4444,
            bg_queued: 0x3a2525,
            bg_queued_hover: 0x452a2a,
            progress_line: 0x6b3a3a,
        }
    }

    /// The light colour scheme.
    pub fn light() -> (t: Self)
        ensures
            t == light_theme(),
    {
        Theme {
            bg: 0xf5f5f5,
            bg_card: 0xffffff,
            bg_card_hover: 0xf8fafc,
            text: 0x1e293b,
            text_muted: 0x64748b,
            border: 0xe2e8f0,
            accent: 0x3b82f6,
            success: 0x22c55e,
            success_hover: 0x16a34a,
            danger: 0xef4444,
            bg_queued: 0xfce8e8,
            bg_queued_hover: 0xf8d4d4,
            progress_line: 0xe57373,
        }
    }

    /// The scheme for the system appearance: dark for the dark appearances,
    /// light for the light ones.
    pub fn from_appearance(appearance: Appearance) -> (t: Self)
        ensures
            t == (match appearance {
                Appearance::Dark | Appearance::VibrantDark => dark_theme(),
                Appearance::Light | Appearance::VibrantLight => light_theme(),
            }),
    {
        match appearance {
            Appearance::Dark | Appearance::VibrantDark => Self::dark(),
            Appearance::Light | Appearance::VibrantLight => Self::light(),
        }
    }
}

} // verus!
