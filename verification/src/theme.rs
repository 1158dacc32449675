//! Colour-scheme selection.
//!
//! The host page carries a theme attribute that the theme button toggles and
//! that follows the platform's colour-scheme preference. The host reads and
//! writes the attribute; this module holds the decisions.

use vstd::prelude::*;

verus! {

#[derive(Clone, Copy, Debug, PartialEq, Eq, Structural)]
pub enum Theme {
    Light,
    Dark,
}

impl Theme {
    /// The theme the toggle button switches to: dark becomes light, and
    /// anything else (including an unset attribute) becomes dark.
    pub fn toggle(self) -> (r: Theme)
        ensures
            r == (if self is Dark {
                Theme::Light
            } else {
                Theme::Dark
            }),
    {
        match self {
            Theme::Dark => Theme::Light,
            Theme::Light => Theme::Dark,
        }
    }

    /// The theme selected by a "prefers dark colours" media query result.
    pub fn from_media_query(matches_dark: bool) -> (r: Theme)
        ensures
            r == (if matches_dark {
                Theme::Dark
            } else {
                Theme::Light
            }),
    {
        if matches_dark {
            Theme::Dark
        } else {
            Theme::Light
        }
    }
}

} // verus!
