//! The drawing surface: its physical size and its device pixel ratio.

use crate::circle::ControlCircle;
use crate::fixed::{in_range, physical_extent, physical_size, scale, scaled, Point, HALF_UNIT};
use vstd::prelude::*;

verus! {

/// Largest magnitude of a logical pointer coordinate: whatever the ratio, its
/// physical counterpart is then a coordinate that the scene can store.
pub const CSS_LIMIT: i64 = 0x4000_0000_0000;

/// Whether both coordinates of a logical point are within `CSS_LIMIT`.
pub open spec fn css_point(p: Point) -> bool {
    &&& -(CSS_LIMIT as int) <= p.x <= CSS_LIMIT as int
    &&& -(CSS_LIMIT as int) <= p.y <= CSS_LIMIT as int
}

/// Tests whether both coordinates of a logical point are within `CSS_LIMIT`.
pub fn is_css_point(p: Point) -> (ok: bool)
    ensures
        ok == css_point(p),
{
    -CSS_LIMIT <= p.x && p.x <= CSS_LIMIT && -CSS_LIMIT <= p.y && p.y <= CSS_LIMIT
}

/// What a viewport is: a size in physical pixels and a fixed-point device
/// pixel ratio, which is positive.
pub struct ViewportModel {
    pub width: int,
    pub height: int,
    pub ratio: int,
}

impl ViewportModel {
    /// The size fits a `u32` each way and the ratio is positive and fits one
    /// too. Every `Viewport` is such a viewport.
    pub open spec fn wf(self) -> bool {
        &&& 0 <= self.width <= u32::MAX
        &&& 0 <= self.height <= u32::MAX
        &&& 0 < self.ratio <= u32::MAX
    }

    /// The centre of the surface, in coordinate units.
    pub open spec fn center(self) -> Point {
        Point { x: (self.width * HALF_UNIT) as i64, y: (self.height * HALF_UNIT) as i64 }
    }

    /// The physical position of a logical point.
    pub open spec fn physical(self, css: Point) -> Point {
        Point {
            x: scaled(css.x as int, self.ratio) as i64,
            y: scaled(css.y as int, self.ratio) as i64,
        }
    }

    /// The viewport of a surface of the given logical size at the given
    /// ratio: each side is the product of the two, rounded to whole pixels.
    pub open spec fn of(css_width: int, css_height: int, ratio: int) -> ViewportModel {
        ViewportModel {
            width: physical_extent(css_width, ratio),
            height: physical_extent(css_height, ratio),
            ratio,
        }
    }

    /// The viewport after the surface took a new logical size and ratio:
    /// nothing of the old one remains.
    pub open spec fn resize(self, css_width: int, css_height: int, ratio: int) -> ViewportModel {
        ViewportModel::of(css_width, css_height, ratio)
    }

    /// Whether a resize to `next` changes the size of the surface.
    pub open spec fn differs(self, next: ViewportModel) -> bool {
        self.width != next.width || self.height != next.height
    }
}

/// The outcome of a resize: the physical size now in force, and whether the
/// surface has to be resized to it.
#[derive(Clone, Copy, Debug, PartialEq, Eq, Structural)]
pub struct Resized {
    pub width: u32,
    pub height: u32,
    pub changed: bool,
}

/// The drawing surface as the scene sees it.
#[derive(Clone, Copy, Debug)]
pub struct Viewport {
    width: u32,
    height: u32,
    ratio: u32,
}

impl View for Viewport {
    type V = ViewportModel;

    closed spec fn view(&self) -> ViewportModel {
        ViewportModel { width: self.width as int, height: self.height as int, ratio: self.ratio as int }
    }
}

impl Viewport {
    #[verifier::type_invariant]
    spec fn positive_ratio(self) -> bool {
        self.ratio > 0
    }

    /// A viewport of the given logical size at the given ratio.
    pub fn new(css_width: i32, css_height: i32, ratio: u32) -> (v: Viewport)
        requires
            ratio > 0,
        ensures
            v@ == ViewportModel::of(css_width as int, css_height as int, ratio as int),
    {
        Viewport {
            width: physical_size(css_width, ratio),
            height: physical_size(css_height, ratio),
            ratio,
        }
    }

    /// Width in physical pixels.
    pub fn width(&self) -> (r: u32)
        ensures
            r == self@.width,
    {
        self.width
    }

    /// Height in physical pixels.
    pub fn height(&self) -> (r: u32)
        ensures
            r == self@.height,
    {
        self.height
    }

    /// The device pixel ratio, in fixed point.
    pub fn ratio(&self) -> (r: u32)
        ensures
            r == self@.ratio,
            self@.wf(),
    {
        proof {
            use_type_invariant(self);
        }
        self.ratio
    }

    /// The centre of the surface, in coordinate units.
    pub fn center(&self) -> (c: Point)
        ensures
            c == self@.center(),
            c.x == self@.width * HALF_UNIT,
            c.y == self@.height * HALF_UNIT,
            in_range(c.x as int),
            in_range(c.y as int),
    {
        Point { x: (self.width as i64) * HALF_UNIT, y: (self.height as i64) * HALF_UNIT }
    }

    /// Maps a pointer position from logical to physical coordinates: each
    /// coordinate is multiplied by the device pixel ratio.
    pub fn to_physical(&self, css: Point) -> (p: Point)
        requires
            css_point(css),
        ensures
            p == self@.physical(css),
            p.x == scaled(css.x as int, self@.ratio),
            p.y == scaled(css.y as int, self@.ratio),
            in_range(p.x as int),
            in_range(p.y as int),
    {
        proof {
            lemma_scaled_bound(css.x as int, self.ratio as int);
            lemma_scaled_bound(css.y as int, self.ratio as int);
        }
        let x: i128 = scale(css.x, self.ratio);
        let y: i128 = scale(css.y, self.ratio);
        Point { x: x as i64, y: y as i64 }
    }

    /// Takes a new logical size and ratio. The physical size is their product,
    /// rounded; the surface has to be resized only if that size differs from
    /// the current one. The control circle moves to the new centre.
    pub fn resize(
        &mut self,
        circle: &mut ControlCircle,
        css_width: i32,
        css_height: i32,
        ratio: u32,
    ) -> (r: Resized)
        requires
            ratio > 0,
        ensures
            final(self)@ == old(self)@.resize(css_width as int, css_height as int, ratio as int),
            r.width == final(self)@.width,
            r.height == final(self)@.height,
            r.changed == old(self)@.differs(final(self)@),
            final(circle)@ == old(circle)@.recenter(final(self)@),
    {
        let width = physical_size(css_width, ratio);
        let height = physical_size(css_height, ratio);
        let changed = self.width != width || self.height != height;
        *self = Viewport { width, height, ratio };
        circle.recenter(self);
        Resized { width, height, changed }
    }
}

/// A resize that repeats the one before it changes nothing: the physical
/// size is the same, so the surface is not resized again.
pub proof fn lemma_resize_idempotent(
    viewport: ViewportModel,
    css_width: int,
    css_height: int,
    ratio: int,
)
    ensures
        ({
            let once = viewport.resize(css_width, css_height, ratio);
            let twice = once.resize(css_width, css_height, ratio);
            twice == once && !once.differs(twice)
        }),
{
}

/// A logical coordinate within `CSS_LIMIT` stays within the coordinate range
/// at every ratio.
pub proof fn lemma_scaled_bound(css: int, ratio: int)
    requires
        -(CSS_LIMIT as int) <= css <= CSS_LIMIT as int,
        0 <= ratio <= u32::MAX,
    ensures
        in_range(scaled(css, ratio)),
{
    let m = if css >= 0 { css } else { -css };
    assert(0 <= m * ratio <= 0x4000_0000_0000 * 0xffff_ffff) by (nonlinear_arith)
        requires
            0 <= m <= 0x4000_0000_0000,
            0 <= ratio <= 0xffff_ffff,
    ;
    assert(css * ratio == if css >= 0 { m * ratio } else { -(m * ratio) }) by (nonlinear_arith)
        requires
            m == if css >= 0 { css } else { -css },
    ;
}

} // verus!
