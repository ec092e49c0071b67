//! The drag gesture: a press on the control circle picks it up, moves set
//! its target, a release lets it go.

use crate::circle::{distance_squared, CircleModel, ControlCircle};
use crate::fixed::{in_range, Point, UNIT};
use crate::viewport::{css_point, Viewport};
use vstd::prelude::*;

verus! {

/// The two states of a drag gesture. `Idle` is where a gesture starts and
/// where it ends.
#[derive(Clone, Copy, Debug, PartialEq, Eq, Structural)]
pub enum DragState {
    Idle,
    Dragging,
}

/// What a drag controller is: the state of the gesture, the last pointer
/// position observed while dragging, if any, and the fraction of the way to
/// it that the circle covers in one tick.
pub struct DragModel {
    pub state: DragState,
    pub target: Option<Point>,
    pub smoothing: int,
}

impl DragModel {
    /// The target, if there is one, is within the coordinate range, and the
    /// smoothing fraction is at most one. Every `DragController` is such a
    /// controller.
    pub open spec fn wf(self) -> bool {
        &&& self.target matches Some(t) ==> in_range(t.x as int) && in_range(t.y as int)
        &&& 0 <= self.smoothing <= UNIT
    }

    /// The controller before any gesture.
    pub open spec fn idle(smoothing: int) -> DragModel {
        DragModel { state: DragState::Idle, target: None, smoothing }
    }

    /// After a pointer press: a press that hits the circle starts a drag, any
    /// other changes nothing.
    pub open spec fn press(self, hit: bool) -> DragModel {
        if hit {
            DragModel { state: DragState::Dragging, ..self }
        } else {
            self
        }
    }

    /// After a pointer move to `p`: while dragging, `p` becomes the target;
    /// while idle nothing changes.
    pub open spec fn drag(self, p: Point) -> DragModel {
        if self.state == DragState::Dragging {
            DragModel { target: Some(p), ..self }
        } else {
            self
        }
    }

    /// After a pointer release: the gesture is over, wherever the pointer is.
    pub open spec fn release(self) -> DragModel {
        DragModel { state: DragState::Idle, ..self }
    }

    /// After a run of pointer moves, in order.
    pub open spec fn drag_all(self, moves: Seq<Point>) -> DragModel
        decreases moves.len(),
    {
        if moves.len() == 0 {
            self
        } else {
            self.drag_all(moves.drop_last()).drag(moves.last())
        }
    }

    /// Where the circle is after a tick: while dragging towards a target it
    /// has moved the smoothing fraction of the way to it, otherwise it has
    /// not moved.
    pub open spec fn settle(self, circle: CircleModel) -> CircleModel {
        match self.target {
            Some(target) if self.state == DragState::Dragging => circle.follow(
                target,
                self.smoothing,
            ),
            _ => circle,
        }
    }
}

/// The drag state machine. It owns the state of the gesture.
#[derive(Clone, Copy, Debug)]
pub struct DragController {
    state: DragState,
    target: Option<Point>,
    smoothing: u32,
}

impl View for DragController {
    type V = DragModel;

    closed spec fn view(&self) -> DragModel {
        DragModel { state: self.state, target: self.target, smoothing: self.smoothing as int }
    }
}

impl DragController {
    #[verifier::type_invariant]
    spec fn bounded(self) -> bool {
        self@.wf()
    }

    /// A controller in `Idle` with no target and no smoothing: at each tick
    /// of a drag the circle is centred on the target.
    pub fn new() -> (c: DragController)
        ensures
            c@ == DragModel::idle(UNIT as int),
    {
        DragController { state: DragState::Idle, target: None, smoothing: 65536 }
    }

    /// A controller in `Idle` with no target, under which the circle covers
    /// the fraction `smoothing` of the way to the target at each tick. A
    /// fraction above one counts as one.
    pub fn with_smoothing(smoothing: u32) -> (c: DragController)
        ensures
            c@ == DragModel::idle(if smoothing <= UNIT { smoothing as int } else { UNIT as int }),
    {
        let smoothing: u32 = if smoothing <= 65536 { smoothing } else { 65536 };
        DragController { state: DragState::Idle, target: None, smoothing }
    }

    /// Sets the fraction of the way to the target that the circle covers at
    /// each tick. A fraction above one counts as one. The gesture is not touched.
    pub fn set_smoothing(&mut self, smoothing: u32)
        ensures
            final(self)@ == (DragModel {
                smoothing: if smoothing <= UNIT {
                    smoothing as int
                } else {
                    UNIT as int
                },
                ..old(self)@
            }),
    {
        proof {
            use_type_invariant(&*self);
        }
        let smoothing: u32 = if smoothing <= 65536 { smoothing } else { 65536 };
        *self = DragController { smoothing, ..*self };
    }

    /// The fraction of the way to the target that the circle covers in a tick.
    pub fn smoothing(&self) -> (t: u32)
        ensures
            t == self@.smoothing,
            self@.wf(),
    {
        proof {
            use_type_invariant(self);
        }
        self.smoothing
    }

    /// The state of the gesture.
    pub fn state(&self) -> (s: DragState)
        ensures
            s == self@.state,
    {
        self.state
    }

    /// Whether a drag is under way.
    pub fn is_dragging(&self) -> (d: bool)
        ensures
            d == (self@.state == DragState::Dragging),
    {
        match self.state {
            DragState::Dragging => true,
            DragState::Idle => false,
        }
    }

    /// The last pointer position recorded while dragging, in physical coordinates.
    pub fn target(&self) -> (t: Option<Point>)
        ensures
            t == self@.target,
            self@.wf(),
    {
        proof {
            use_type_invariant(self);
        }
        self.target
    }

    /// A pointer press at the logical position `css`. The position is taken
    /// to physical coordinates and tested against the circle: a hit starts a
    /// drag. Returns whether it hit.
    pub fn press(&mut self, circle: &ControlCircle, viewport: &Viewport, css: Point) -> (hit: bool)
        requires
            css_point(css),
        ensures
            hit == circle@.contains(viewport@.physical(css)),
            final(self)@ == old(self)@.press(hit),
    {
        proof {
            use_type_invariant(&*self);
        }
        let p = viewport.to_physical(css);
        let hit = circle.contains(p);
        if hit {
            *self = DragController { state: DragState::Dragging, ..*self };
        }
        hit
    }

    /// A pointer move to the logical position `css`. While dragging, its
    /// physical position becomes the target; while idle nothing happens.
    pub fn moved(&mut self, viewport: &Viewport, css: Point)
        requires
            css_point(css),
        ensures
            final(self)@ == old(self)@.drag(viewport@.physical(css)),
    {
        proof {
            use_type_invariant(&*self);
        }
        if self.is_dragging() {
            let p = viewport.to_physical(css);
            *self = DragController { target: Some(p), ..*self };
        }
    }

    /// A pointer release: the controller returns to `Idle` and keeps its target.
    pub fn release(&mut self)
        ensures
            final(self)@ == old(self)@.release(),
            final(self)@.state == DragState::Idle,
    {
        proof {
            use_type_invariant(&*self);
        }
        *self = DragController { state: DragState::Idle, ..*self };
    }

    /// Lets the circle follow the target for one tick: while dragging, it
    /// moves the smoothing fraction of the way to the target; without
    /// smoothing it is centred on it.
    pub fn settle(&self, circle: &mut ControlCircle)
        ensures
            final(circle)@ == self@.settle(old(circle)@),
    {
        proof {
            use_type_invariant(self);
        }
        if self.is_dragging() {
            match self.target {
                Some(target) => {
                    circle.follow(target, self.smoothing);
                },
                None => {},
            }
        }
    }
}

/// The hit test includes the rim: a press at a distance of exactly the
/// radius starts a drag, and a press any further away leaves the controller
/// as it was.
pub proof fn lemma_press_on_rim(drag: DragModel, circle: CircleModel, p: Point)
    ensures
        distance_squared(p, circle.center) == circle.radius * circle.radius ==> drag.press(
            circle.contains(p),
        ).state == DragState::Dragging,
        distance_squared(p, circle.center) > circle.radius * circle.radius ==> drag.press(
            circle.contains(p),
        ) == drag,
{
}

/// A gesture always ends in `Idle`: whatever the state before it, whether
/// the press hit or not, and wherever the pointer moved before the release.
/// If the press hit and the pointer moved, the target is the last position
/// it moved to.
pub proof fn lemma_gesture_ends_idle(start: DragModel, hit: bool, moves: Seq<Point>)
    ensures
        start.press(hit).drag_all(moves).release().state == DragState::Idle,
        hit && moves.len() > 0 ==> start.press(hit).drag_all(moves).release().target == Some(
            moves.last(),
        ),
        moves.len() == 0 ==> start.press(hit).drag_all(moves).release().target == start.target,
{
    lemma_moves_keep_state(start.press(hit), moves);
}

/// Pointer moves never change the state of the gesture, and while idle they
/// change nothing at all.
pub proof fn lemma_moves_keep_state(start: DragModel, moves: Seq<Point>)
    ensures
        start.drag_all(moves).state == start.state,
        start.drag_all(moves).smoothing == start.smoothing,
        start.state == DragState::Idle ==> start.drag_all(moves) == start,
        start.state == DragState::Dragging && moves.len() > 0 ==> start.drag_all(moves).target
            == Some(moves.last()),
    decreases moves.len(),
{
    if moves.len() > 0 {
        lemma_moves_keep_state(start, moves.drop_last());
    }
}

} // verus!
