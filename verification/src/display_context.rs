//! What adaptive views know of the display.

use vstd::prelude::*;

use crate::float_bits::{is_at_least_f64, is_zero_f64};
#[allow(unused_imports)]
use crate::float_bits::{f64_at_least, f64_is_zero};

verus! {

/// The bits of 860.0: the width in layout points from which a display counts as a
/// desktop.
pub const DEFAULT_MIN_DESKTOP_WIDTH: u64 = 0x408a_e000_0000_0000;

/// How the icons and texts of the system bars are tinted.
#[derive(Clone, Copy, PartialEq, Eq, Structural, Debug)]
pub enum SystemBarAppearance {
    /// By the luminance of the window's background.
    Auto,
    DarkIcons,
    LightIcons,
}

impl Default for SystemBarAppearance {
    fn default() -> (appearance: SystemBarAppearance)
        ensures
            appearance == SystemBarAppearance::Auto,
    {
        SystemBarAppearance::Auto
    }
}

/// A point or a size, by the bits of its double-precision coordinates.
#[derive(Clone, Copy, PartialEq, Eq, Structural, Debug)]
pub struct Vec2d {
    pub x: u64,
    pub y: u64,
}

/// How far the system covers each edge, by the bits of double-precision numbers.
#[derive(Clone, Copy, PartialEq, Eq, Structural, Debug)]
pub struct SafeAreaInsets {
    pub top: u64,
    pub right: u64,
    pub bottom: u64,
    pub left: u64,
}

/// What is known of the display.
#[derive(Clone, Copy, PartialEq, Eq, Structural, Debug)]
pub struct DisplayContext {
    /// The event that last changed this.
    pub updated_on_event_id: u64,
    pub screen_size: Vec2d,
    /// In layout points.
    pub safe_area_insets: SafeAreaInsets,
    pub system_bar_appearance: SystemBarAppearance,
}

impl Default for DisplayContext {
    fn default() -> (context: DisplayContext)
        ensures
            context == (DisplayContext {
                updated_on_event_id: 0,
                screen_size: Vec2d { x: 0, y: 0 },
                safe_area_insets: SafeAreaInsets { top: 0, right: 0, bottom: 0, left: 0 },
                system_bar_appearance: SystemBarAppearance::Auto,
            }),
    {
        DisplayContext {
            updated_on_event_id: 0,
            screen_size: Vec2d { x: 0, y: 0 },
            safe_area_insets: SafeAreaInsets { top: 0, right: 0, bottom: 0, left: 0 },
            system_bar_appearance: SystemBarAppearance::Auto,
        }
    }
}

impl DisplayContext {
    /// Whether the display is wide enough for a desktop.
    pub fn is_desktop(&self) -> (desktop: bool)
        ensures
            desktop == f64_at_least(self.screen_size.x, DEFAULT_MIN_DESKTOP_WIDTH),
    {
        is_at_least_f64(self.screen_size.x, DEFAULT_MIN_DESKTOP_WIDTH)
    }

    /// Whether the size of the screen is known: neither side is zero.
    pub fn is_screen_size_known(&self) -> (known: bool)
        ensures
            known == (!f64_is_zero(self.screen_size.x) && !f64_is_zero(self.screen_size.y)),
    {
        !is_zero_f64(self.screen_size.x) && !is_zero_f64(self.screen_size.y)
    }
}

/// A display that counts as a desktop has a width that is known.
pub proof fn law_desktop_width_is_known(context: DisplayContext)
    requires
        f64_at_least(context.screen_size.x, DEFAULT_MIN_DESKTOP_WIDTH),
    ensures
        !f64_is_zero(context.screen_size.x),
{
}

/// A display is one of a desktop from a width of 860 points on, and the size of its screen
/// is known unless a side is zero, of either sign.
pub proof fn law_wide_displays_are_desktops(context: DisplayContext)
    ensures
        context.screen_size.x <= 0x7ff0_0000_0000_0000 ==> (f64_at_least(
            context.screen_size.x,
            DEFAULT_MIN_DESKTOP_WIDTH,
        ) <==> context.screen_size.x >= 0x408a_e000_0000_0000),
        context.screen_size.x > 0x7ff0_0000_0000_0000 ==> !f64_at_least(
            context.screen_size.x,
            DEFAULT_MIN_DESKTOP_WIDTH,
        ),
        f64_is_zero(context.screen_size.y) <==> context.screen_size.y == 0
            || context.screen_size.y == 0x8000_0000_0000_0000,
{
}

} // verus!
