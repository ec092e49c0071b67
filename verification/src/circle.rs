//! The control circle: a disk in physical coordinates that the pointer can
//! pick up.

use crate::fixed::{in_range, lerp, lerp_at, Point, COORD_LIMIT, UNIT};
use crate::viewport::{Viewport, ViewportModel};
use vstd::prelude::*;

verus! {

/// Radius of the control circle: fifty physical pixels.
pub const RADIUS: i64 = 3276800;

/// The square of the length of the offset `(dx, dy)`.
pub open spec fn length_squared(dx: int, dy: int) -> int {
    dx * dx + dy * dy
}

/// The square of the distance between two points.
pub open spec fn distance_squared(p: Point, q: Point) -> int {
    length_squared(p.x - q.x, p.y - q.y)
}

/// Whether `p` lies in the closed disk around `center`: its distance from the
/// centre is at most `radius`, the rim included. Distances are compared by
/// their squares, which is exact.
pub open spec fn inside_disk(p: Point, center: Point, radius: int) -> bool {
    distance_squared(p, center) <= radius * radius
}

/// What a control circle is: a centre and a radius, in coordinate units.
pub struct CircleModel {
    pub center: Point,
    pub radius: int,
}

impl CircleModel {
    /// The centre is within the coordinate range, and the radius is not
    /// negative and within it too. Every `ControlCircle` is such a circle.
    pub open spec fn wf(self) -> bool {
        &&& in_range(self.center.x as int)
        &&& in_range(self.center.y as int)
        &&& 0 <= self.radius <= COORD_LIMIT
    }

    /// Whether `p` is on the circle or inside it.
    pub open spec fn contains(self, p: Point) -> bool {
        inside_disk(p, self.center, self.radius)
    }

    /// The circle moved to the centre of `viewport`.
    pub open spec fn recenter(self, viewport: ViewportModel) -> CircleModel {
        CircleModel { center: viewport.center(), radius: self.radius }
    }

    /// The circle moved the fraction `t` of the way towards `target`.
    pub open spec fn follow(self, target: Point, t: int) -> CircleModel {
        CircleModel {
            center: Point {
                x: lerp_at(self.center.x as int, target.x as int, t) as i64,
                y: lerp_at(self.center.y as int, target.y as int, t) as i64,
            },
            radius: self.radius,
        }
    }
}

/// The draggable handle: a disk in physical coordinates.
#[derive(Clone, Copy, Debug)]
pub struct ControlCircle {
    center: Point,
    radius: i64,
}

impl View for ControlCircle {
    type V = CircleModel;

    closed spec fn view(&self) -> CircleModel {
        CircleModel { center: self.center, radius: self.radius as int }
    }
}

impl ControlCircle {
    #[verifier::type_invariant]
    spec fn bounded(self) -> bool {
        self@.wf()
    }

    /// A circle around `center`, or nothing if the centre is outside the
    /// coordinate range or the radius is negative or beyond it.
    pub fn new(center: Point, radius: i64) -> (c: Option<ControlCircle>)
        ensures
            c is Some <==> (CircleModel { center, radius: radius as int }).wf(),
            c is Some ==> c->0@ == (CircleModel { center, radius: radius as int }),
    {
        if -COORD_LIMIT <= center.x && center.x <= COORD_LIMIT && -COORD_LIMIT <= center.y
            && center.y <= COORD_LIMIT && 0 <= radius && radius <= COORD_LIMIT {
            Some(ControlCircle { center, radius })
        } else {
            None
        }
    }

    /// The circle of the standard radius at the centre of `viewport`.
    pub fn centered(viewport: &Viewport) -> (c: ControlCircle)
        ensures
            c@ == (CircleModel { center: viewport@.center(), radius: RADIUS as int }),
    {
        ControlCircle { center: viewport.center(), radius: RADIUS }
    }

    /// The centre, in coordinate units.
    pub fn center(&self) -> (c: Point)
        ensures
            c == self@.center,
            self@.wf(),
    {
        proof {
            use_type_invariant(self);
        }
        self.center
    }

    /// The radius, in coordinate units.
    pub fn radius(&self) -> (r: i64)
        ensures
            r == self@.radius,
    {
        self.radius
    }

    /// The hit test: whether `p` is at most a radius away from the centre.
    pub fn contains(&self, p: Point) -> (hit: bool)
        ensures
            hit == self@.contains(p),
    {
        proof {
            use_type_invariant(self);
        }
        let dx: i128 = (p.x as i128) - (self.center.x as i128);
        let dy: i128 = (p.y as i128) - (self.center.y as i128);
        let r: i128 = self.radius as i128;
        if dx > r || dx < -r || dy > r || dy < -r {
            proof {
                lemma_outside_square(dx as int, dy as int, r as int);
            }
            return false;
        }
        proof {
            lemma_square_bound(dx as int, r as int);
            lemma_square_bound(dy as int, r as int);
            lemma_square_bound(r as int, r as int);
        }
        dx * dx + dy * dy <= r * r
    }

    /// Moves the circle to the centre of `viewport`.
    pub fn recenter(&mut self, viewport: &Viewport)
        ensures
            final(self)@ == old(self)@.recenter(viewport@),
    {
        proof {
            use_type_invariant(&*self);
        }
        *self = ControlCircle { center: viewport.center(), radius: self.radius };
    }

    /// Moves the circle the fraction `t` of the way towards `target`; at `t`
    /// one the circle is centred on the target.
    pub fn follow(&mut self, target: Point, t: u32)
        requires
            in_range(target.x as int),
            in_range(target.y as int),
            t <= UNIT,
        ensures
            final(self)@ == old(self)@.follow(target, t as int),
    {
        proof {
            use_type_invariant(&*self);
        }
        let x: i128 = lerp(self.center.x, target.x, t);
        let y: i128 = lerp(self.center.y, target.y, t);
        *self = ControlCircle { center: Point { x: x as i64, y: y as i64 }, radius: self.radius };
    }
}

/// The rim belongs to the disk: a point at a distance of exactly the radius
/// is inside, and a point any further is not.
pub proof fn lemma_rim_is_inside(circle: CircleModel, p: Point)
    ensures
        distance_squared(p, circle.center) == circle.radius * circle.radius ==> circle.contains(p),
        distance_squared(p, circle.center) > circle.radius * circle.radius ==> !circle.contains(p),
{
}

/// Along an axis, an offset of the radius is exactly the radius long, and an
/// offset that exceeds the radius by anything at all is longer.
pub proof fn lemma_rim_on_axis(radius: int, excess: int)
    requires
        radius >= 0,
        excess > 0,
    ensures
        length_squared(radius, 0) == radius * radius,
        length_squared(0, -radius) == radius * radius,
        length_squared(radius + excess, 0) > radius * radius,
        length_squared(0, -radius - excess) > radius * radius,
{
    assert((radius + excess) * (radius + excess) > radius * radius) by (nonlinear_arith)
        requires
            radius >= 0,
            excess > 0,
    ;
    assert((-radius - excess) * (-radius - excess) > radius * radius) by (nonlinear_arith)
        requires
            radius >= 0,
            excess > 0,
    ;
    assert((-radius) * (-radius) == radius * radius) by (nonlinear_arith);
}

/// A point further than `r` from the centre along one axis is outside the disk.
proof fn lemma_outside_square(dx: int, dy: int, r: int)
    requires
        r >= 0,
        dx > r || dx < -r || dy > r || dy < -r,
    ensures
        length_squared(dx, dy) > r * r,
{
    assert(dx * dx >= 0 && dy * dy >= 0) by (nonlinear_arith);
    assert((dx > r || dx < -r) ==> dx * dx > r * r) by (nonlinear_arith)
        requires
            r >= 0,
    ;
    assert((dy > r || dy < -r) ==> dy * dy > r * r) by (nonlinear_arith)
        requires
            r >= 0,
    ;
}

/// The square of a value within `[-r, r]` is at most the square of the
/// largest radius.
proof fn lemma_square_bound(d: int, r: int)
    requires
        0 <= r <= COORD_LIMIT,
        -r <= d <= r,
    ensures
        0 <= d * d <= 0x4000_0000_0000_0000 * 0x4000_0000_0000_0000,
{
    assert(0 <= d * d <= 0x4000_0000_0000_0000 * 0x4000_0000_0000_0000) by (nonlinear_arith)
        requires
            -0x4000_0000_0000_0000 <= d <= 0x4000_0000_0000_0000,
    ;
}

} // verus!
