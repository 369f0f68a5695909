//! The theme bridge: a theme label chosen in the webview selects the native
//! window's background colour.

use vstd::prelude::*;

verus! {

/// An RGBA colour, one byte per channel.
#[derive(Clone, Copy, Debug, PartialEq, Eq, Structural)]
pub struct Rgba {
    pub red: u8,
    pub green: u8,
    pub blue: u8,
    pub alpha: u8,
}

/// The two themes of the window chrome.
#[derive(Clone, Copy, Debug, PartialEq, Eq, Structural)]
pub enum Theme {
    Dark,
    Light,
}

/// Opaque black.
pub open spec fn black() -> Rgba {
    Rgba { red: 0, green: 0, blue: 0, alpha: 255 }
}

/// Opaque white.
pub open spec fn white() -> Rgba {
    Rgba { red: 255, green: 255, blue: 255, alpha: 255 }
}

/// The label that selects the dark theme; every other label selects the light one.
pub open spec fn dark_label() -> Seq<char> {
    "dark"@
}

/// The theme that a label selects.
pub open spec fn theme_of(label: Seq<char>) -> Theme {
    if label == dark_label() {
        Theme::Dark
    } else {
        Theme::Light
    }
}

/// The background colour of a theme.
pub open spec fn background_of(theme: Theme) -> Rgba {
    match theme {
        Theme::Dark => black(),
        Theme::Light => white(),
    }
}

impl Theme {
    /// Reads a theme label: exactly `"dark"` is the dark theme, anything else is light.
    pub fn from_label(label: &str) -> (t: Theme)
        ensures
            t == theme_of(label@),
    {
        proof {
            reveal_strlit("dark");
        }
        let n = label.unicode_len();
        if n != 4 {
            return Theme::Light;
        }
        let a = label.get_char(0);
        let b = label.get_char(1);
        let c = label.get_char(2);
        let d = label.get_char(3);
        if a == 'd' && b == 'a' && c == 'r' && d == 'k' {
            assert(label@ =~= dark_label());
            Theme::Dark
        } else {
            assert(label@[0] != dark_label()[0] || label@[1] != dark_label()[1]
                || label@[2] != dark_label()[2] || label@[3] != dark_label()[3]);
            Theme::Light
        }
    }

    /// The window background colour of this theme.
    pub fn background(self) -> (c: Rgba)
        ensures
            c == background_of(self),
    {
        match self {
            Theme::Dark => Rgba { red: 0, green: 0, blue: 0, alpha: 255 },
            Theme::Light => Rgba { red: 255, green: 255, blue: 255, alpha: 255 },
        }
    }
}

/// The background colour that the window takes when the webview reports the
/// theme label `label`: black for `"dark"`, white for every other label.
pub fn theme_background(label: &str) -> (c: Rgba)
    ensures
        c == background_of(theme_of(label@)),
        label@ == dark_label() ==> c == black(),
        label@ != dark_label() ==> c == white(),
{
    Theme::from_label(label).background()
}

} // verus!
