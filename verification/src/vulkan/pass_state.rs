//! What a pass keeps between frames, and what beginning to draw it changes.

use vstd::prelude::*;

use crate::float_bits::is_below_half_f64;
#[allow(unused_imports)]
use crate::float_bits::f64_below_half;

verus! {

/// The bits of the double-precision number one.
pub const ONE: u64 = 0x3ff0_0000_0000_0000;

/// The rectangle of a pass in layout points, by the bits of its numbers.
#[derive(Clone, Copy, PartialEq, Eq, Structural, Debug)]
pub struct PassRect {
    pub x: u64,
    pub y: u64,
    pub width: u64,
    pub height: u64,
}

/// What a pass keeps. Numbers are given by their bits.
#[derive(Clone, Copy, PartialEq, Eq, Debug)]
pub struct PassState {
    /// The pass has to be painted.
    pub paint_dirty: bool,
    /// The pass has a matrix of its own, which stays.
    pub keep_camera_matrix: bool,
    /// The scale that the pass asks for, if any.
    pub dpi_factor: Option<u64>,
    /// The rectangle that the pass's orthographic matrix shows, where it was given one.
    pub matrix_rect: Option<PassRect>,
    /// The scale that the pass's uniforms hold.
    pub scale: u64,
}

/// The scale that a pass is drawn with: the one it asks for, else one.
pub open spec fn drawn_scale(pass: PassState) -> u64 {
    match pass.dpi_factor {
        Some(factor) => factor,
        None => ONE,
    }
}

/// A pass once its drawing began: it need not be painted any more, its matrix shows the
/// rectangle unless it keeps its own, and its uniforms hold its scale.
pub open spec fn painted(pass: PassState, rect: PassRect) -> PassState {
    PassState {
        paint_dirty: false,
        matrix_rect: if pass.keep_camera_matrix {
            pass.matrix_rect
        } else {
            Some(rect)
        },
        scale: drawn_scale(pass),
        ..pass
    }
}

/// Whether a pass is drawn at all: it has a draw list and a rectangle that is not below
/// half a point either way.
pub open spec fn pass_is_drawn(has_draw_list: bool, rect: Option<PassRect>) -> bool {
    has_draw_list && (rect matches Some(rect) && !f64_below_half(rect.width) && !f64_below_half(
        rect.height,
    ))
}

impl PassState {
    /// Begins to draw the pass, if it is drawn at all. A pass that is not drawn stays as
    /// it is.
    pub fn begin(&mut self, has_draw_list: bool, rect: Option<PassRect>) -> (drawn: bool)
        ensures
            drawn == pass_is_drawn(has_draw_list, rect),
            *final(self) == (if drawn {
                painted(*old(self), rect->0)
            } else {
                *old(self)
            }),
    {
        match rect {
            None => false,
            Some(rect) => {
                if !has_draw_list || is_below_half_f64(rect.width) || is_below_half_f64(
                    rect.height,
                ) {
                    return false;
                }
                self.paint_dirty = false;
                if !self.keep_camera_matrix {
                    self.matrix_rect = Some(rect);
                }
                self.scale = match self.dpi_factor {
                    Some(factor) => factor,
                    None => ONE,
                };
                true
            },
        }
    }
}

/// A pass is painted once: beginning it again with the same rectangle changes nothing
/// more, and it stays unmarked until something marks it.
pub proof fn law_painted_pass_is_unmarked(pass: PassState, rect: PassRect)
    ensures
        !painted(pass, rect).paint_dirty,
        painted(painted(pass, rect), rect) == painted(pass, rect),
{
}

/// A pass that is drawn shows its rectangle unless it keeps its camera, in the scale that it
/// asks for or in no other than one to one, and nothing else of it changes.
pub proof fn law_drawn_pass_shows_its_rectangle(pass: PassState, rect: PassRect)
    ensures
        pass.keep_camera_matrix ==> painted(pass, rect).matrix_rect == pass.matrix_rect,
        !pass.keep_camera_matrix ==> painted(pass, rect).matrix_rect == Some(rect),
        pass.dpi_factor is Some ==> painted(pass, rect).scale == pass.dpi_factor->0,
        pass.dpi_factor is None ==> painted(pass, rect).scale == 0x3ff0_0000_0000_0000,
        painted(pass, rect).keep_camera_matrix == pass.keep_camera_matrix,
        painted(pass, rect).dpi_factor == pass.dpi_factor,
{
}

/// A pass is drawn exactly where it has a draw list and both sides of its rectangle are half
/// a point or more, or no number at all.
pub proof fn law_small_passes_are_not_drawn(has_draw_list: bool, rect: PassRect)
    ensures
        !pass_is_drawn(false, Some(rect)),
        !pass_is_drawn(has_draw_list, None),
        f64_below_half(rect.width) || f64_below_half(rect.height) ==> !pass_is_drawn(
            has_draw_list,
            Some(rect),
        ),
        !f64_below_half(rect.width) && !f64_below_half(rect.height) ==> pass_is_drawn(
            true,
            Some(rect),
        ),
{
}

} // verus!
