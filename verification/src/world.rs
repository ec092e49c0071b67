//! The world: everything the scene owns, and what each event of the host
//! does to it.

use crate::circle::{CircleModel, ControlCircle, RADIUS};
use crate::drag::{DragController, DragModel};
use crate::error::ErrorKind;
use crate::fixed::{Point, UNIT};
use crate::frame_loop::{FrameLoop, LoopState};
use crate::particles::{generate_particles, seeded, stepped, ParticleField, ParticleModel};
use crate::programs::PairModel;
use crate::renderer::{plan_of, Command, CommandModel, DrawPass, Renderer, RendererModel};
use crate::viewport::{css_point, is_css_point, Resized, Viewport, ViewportModel};
use vstd::prelude::*;

verus! {

/// What the host knows of its surface at start: the logical size and the
/// device pixel ratio, in fixed point.
#[derive(Clone, Copy, Debug, PartialEq, Eq, Structural)]
pub struct Surface {
    pub css_width: i32,
    pub css_height: i32,
    pub ratio: u32,
}

/// What the host reports of the pointer and of the surface. Events arrive
/// one at a time and in order; pointer positions are logical, relative to the
/// top left corner of the surface.
#[derive(Clone, Copy, Debug, PartialEq, Eq, Structural)]
pub enum Event {
    PointerPressed(Point),
    PointerMoved(Point),
    PointerReleased,
    ViewportResized(Surface),
}

impl Event {
    /// A pointer position is within what the scene can take to physical
    /// coordinates, and a device pixel ratio is positive.
    pub open spec fn wf(self) -> bool {
        match self {
            Event::PointerPressed(css) => css_point(css),
            Event::PointerMoved(css) => css_point(css),
            Event::PointerReleased => true,
            Event::ViewportResized(surface) => surface.ratio > 0,
        }
    }

    /// Tests whether the scene can handle the event.
    pub fn is_valid(&self) -> (ok: bool)
        ensures
            ok == self.wf(),
    {
        match *self {
            Event::PointerPressed(css) => is_css_point(css),
            Event::PointerMoved(css) => is_css_point(css),
            Event::PointerReleased => true,
            Event::ViewportResized(surface) => surface.ratio > 0,
        }
    }
}

/// What a world is.
pub struct WorldModel {
    pub viewport: ViewportModel,
    pub field: Seq<ParticleModel>,
    pub circle: CircleModel,
    pub drag: DragModel,
    pub renderer: RendererModel,
    pub state: LoopState,
}

impl WorldModel {
    /// The world at start: the viewport of the surface, a field seeded from
    /// `samples` within it, the circle at its centre, no gesture, nothing
    /// drawn yet and the loop not started.
    pub open spec fn launch(surface: Surface, samples: Seq<u32>) -> WorldModel {
        let viewport = ViewportModel::of(
            surface.css_width as int,
            surface.css_height as int,
            surface.ratio as int,
        );
        WorldModel {
            viewport,
            field: seeded(samples, viewport.width * UNIT, viewport.height * UNIT),
            circle: CircleModel { center: viewport.center(), radius: RADIUS as int },
            drag: DragModel::idle(UNIT as int),
            renderer: RendererModel {
                cache: Seq::<PairModel>::empty(),
                capacity: 0,
                pass: DrawPass::Particles,
            },
            state: LoopState::Idle,
        }
    }

    /// Whether a press at the logical position `css` hits the circle.
    pub open spec fn hits(self, css: Point) -> bool {
        self.circle.contains(self.viewport.physical(css))
    }

    /// After a pointer press at the logical position `css`.
    pub open spec fn press(self, css: Point) -> WorldModel {
        WorldModel { drag: self.drag.press(self.hits(css)), ..self }
    }

    /// After a pointer move to the logical position `css`.
    pub open spec fn moved(self, css: Point) -> WorldModel {
        WorldModel { drag: self.drag.drag(self.viewport.physical(css)), ..self }
    }

    /// After a pointer release.
    pub open spec fn release(self) -> WorldModel {
        WorldModel { drag: self.drag.release(), ..self }
    }

    /// After the surface took a new logical size and ratio: the viewport
    /// follows, and the circle is at its centre.
    pub open spec fn resize(self, css_width: int, css_height: int, ratio: int) -> WorldModel {
        let viewport = self.viewport.resize(css_width, css_height, ratio);
        WorldModel { viewport, circle: self.circle.recenter(viewport), ..self }
    }

    /// After an event.
    pub open spec fn after(self, event: Event) -> WorldModel {
        match event {
            Event::PointerPressed(css) => self.press(css),
            Event::PointerMoved(css) => self.moved(css),
            Event::PointerReleased => self.release(),
            Event::ViewportResized(surface) => self.resize(
                surface.css_width as int,
                surface.css_height as int,
                surface.ratio as int,
            ),
        }
    }

    /// After a run of events, in order.
    pub open spec fn after_all(self, events: Seq<Event>) -> WorldModel
        decreases events.len(),
    {
        if events.len() == 0 {
            self
        } else {
            self.after_all(events.drop_last()).after(events.last())
        }
    }

    /// The field as a tick leaves it.
    pub open spec fn next_field(self) -> Seq<ParticleModel> {
        stepped(self.field, self.viewport.width * UNIT, self.viewport.height * UNIT)
    }

    /// The commands of a tick: the frame is planned from the field and the
    /// circle as the tick leaves them, never from a field half stepped.
    pub open spec fn frame(self) -> Seq<CommandModel> {
        self.renderer.frame(self.next_field(), self.viewport, self.drag.settle(self.circle))
    }

    /// After a tick: every particle has stepped, the circle has followed the
    /// drag, the frame is planned and the loop waits for it to be carried out.
    pub open spec fn tick(self) -> WorldModel {
        WorldModel {
            field: self.next_field(),
            circle: self.drag.settle(self.circle),
            renderer: self.renderer.after_frame(self.next_field()),
            state: LoopState::Ticking,
            ..self
        }
    }

    /// After a refresh signal: an armed world ticks, any other is as it was.
    pub open spec fn refresh(self) -> WorldModel {
        if self.state == LoopState::Armed {
            self.tick()
        } else {
            self
        }
    }
}

/// The one owner of the state of the scene. Event handlers and the frame
/// tick reach it by reference.
#[derive(Debug)]
pub struct World {
    viewport: Viewport,
    field: ParticleField,
    circle: ControlCircle,
    drag: DragController,
    renderer: Renderer,
    frame_loop: FrameLoop,
}

impl View for World {
    type V = WorldModel;

    closed spec fn view(&self) -> WorldModel {
        WorldModel {
            viewport: self.viewport@,
            field: self.field@,
            circle: self.circle@,
            drag: self.drag@,
            renderer: self.renderer@,
            state: self.frame_loop@,
        }
    }
}

impl World {
    /// Builds the world, or says why the scene cannot start. Without a
    /// surface the scene fails with `SurfaceUnavailable`; with a surface but
    /// no GPU context, with `ContextCreationFailed`; in both cases there is
    /// no world, so no handler can be wired to one and no loop started.
    pub fn launch(surface: Option<Surface>, context: bool, samples: &Vec<u32>) -> (r: Result<
        World,
        ErrorKind,
    >)
        requires
            surface matches Some(s) ==> s.ratio > 0,
        ensures
            r is Ok <==> surface is Some && context,
            surface is None ==> r is Err && r->Err_0 == ErrorKind::SurfaceUnavailable,
            surface is Some && !context ==> r is Err && r->Err_0
                == ErrorKind::ContextCreationFailed,
            surface is Some && context ==> r is Ok && r->Ok_0@ == WorldModel::launch(
                surface->0,
                samples@,
            ),
    {
        match surface {
            None => Err(ErrorKind::SurfaceUnavailable),
            Some(s) => {
                if !context {
                    return Err(ErrorKind::ContextCreationFailed);
                }
                let viewport = Viewport::new(s.css_width, s.css_height, s.ratio);
                let field = generate_particles(viewport.width(), viewport.height(), samples);
                let circle = ControlCircle::centered(&viewport);
                Ok(
                    World {
                        viewport,
                        field,
                        circle,
                        drag: DragController::new(),
                        renderer: Renderer::new(),
                        frame_loop: FrameLoop::new(),
                    },
                )
            },
        }
    }

    /// The viewport.
    pub fn viewport(&self) -> (v: &Viewport)
        ensures
            v@ == self@.viewport,
    {
        &self.viewport
    }

    /// The particle field.
    pub fn field(&self) -> (f: &ParticleField)
        ensures
            f@ == self@.field,
    {
        &self.field
    }

    /// The control circle.
    pub fn circle(&self) -> (c: &ControlCircle)
        ensures
            c@ == self@.circle,
    {
        &self.circle
    }

    /// The drag controller.
    pub fn drag(&self) -> (d: &DragController)
        ensures
            d@ == self@.drag,
    {
        &self.drag
    }

    /// The renderer.
    pub fn renderer(&self) -> (r: &Renderer)
        ensures
            r@ == self@.renderer,
    {
        &self.renderer
    }

    /// Where the frame loop stands.
    pub fn state(&self) -> (s: LoopState)
        ensures
            s == self@.state,
    {
        self.frame_loop.state()
    }

    /// A pointer press at the logical position `css`: it starts a drag if it
    /// hits the circle. Returns whether it hit.
    pub fn pointer_pressed(&mut self, css: Point) -> (hit: bool)
        requires
            css_point(css),
        ensures
            hit == old(self)@.hits(css),
            final(self)@ == old(self)@.press(css),
    {
        self.drag.press(&self.circle, &self.viewport, css)
    }

    /// A pointer move to the logical position `css`: while dragging it sets
    /// the target, while idle it does nothing.
    pub fn pointer_moved(&mut self, css: Point)
        requires
            css_point(css),
        ensures
            final(self)@ == old(self)@.moved(css),
    {
        self.drag.moved(&self.viewport, css);
    }

    /// A pointer release: the gesture ends.
    pub fn pointer_released(&mut self)
        ensures
            final(self)@ == old(self)@.release(),
    {
        self.drag.release();
    }

    /// The surface took a new logical size and ratio. Returns the physical
    /// size now in force and whether the host has to resize the surface to it.
    pub fn resized(&mut self, css_width: i32, css_height: i32, ratio: u32) -> (r: Resized)
        requires
            ratio > 0,
        ensures
            final(self)@ == old(self)@.resize(css_width as int, css_height as int, ratio as int),
            r.width == final(self)@.viewport.width,
            r.height == final(self)@.viewport.height,
            r.changed == old(self)@.viewport.differs(final(self)@.viewport),
    {
        self.viewport.resize(&mut self.circle, css_width, css_height, ratio)
    }

    /// Handles one event of the host. A resize returns the physical size now
    /// in force and whether the host has to resize the surface to it; the
    /// pointer events return nothing.
    pub fn handle(&mut self, event: Event) -> (resized: Option<Resized>)
        requires
            event.wf(),
        ensures
            final(self)@ == old(self)@.after(event),
            resized is Some <==> event is ViewportResized,
            resized is Some ==> {
                &&& resized->0.width == final(self)@.viewport.width
                &&& resized->0.height == final(self)@.viewport.height
                &&& resized->0.changed == old(self)@.viewport.differs(final(self)@.viewport)
            },
    {
        match event {
            Event::PointerPressed(css) => {
                self.pointer_pressed(css);
                None
            },
            Event::PointerMoved(css) => {
                self.pointer_moved(css);
                None
            },
            Event::PointerReleased => {
                self.pointer_released();
                None
            },
            Event::ViewportResized(surface) => Some(
                self.resized(surface.css_width, surface.css_height, surface.ratio),
            ),
        }
    }

    /// Sets the fraction of the way to the target that the circle covers at
    /// each tick of a drag. A fraction above one counts as one.
    pub fn set_smoothing(&mut self, smoothing: u32)
        ensures
            final(self)@ == (WorldModel {
                drag: DragModel {
                    smoothing: if smoothing <= UNIT {
                        smoothing as int
                    } else {
                        UNIT as int
                    },
                    ..old(self)@.drag
                },
                ..old(self)@
            }),
    {
        self.drag.set_smoothing(smoothing);
    }

    /// Selects the pass that the following frames draw.
    pub fn select_pass(&mut self, pass: DrawPass)
        ensures
            final(self)@ == (WorldModel {
                renderer: RendererModel { pass, ..old(self)@.renderer },
                ..old(self)@
            }),
    {
        self.renderer.select(pass);
    }

    /// Starts the frame loop. Returns whether the host has to register for
    /// the first refresh signal.
    pub fn start(&mut self) -> (arm: bool)
        ensures
            final(self)@ == (WorldModel { state: old(self)@.state.start(), ..old(self)@ }),
            arm == (old(self)@.state == LoopState::Idle),
    {
        self.frame_loop.start()
    }

    /// A refresh signal came. If the loop was armed this is a tick: every
    /// particle steps, the circle follows the drag, and then the frame is
    /// planned; the commands are returned for the host to carry out. If the
    /// loop was not armed nothing happens and nothing is returned.
    pub fn refresh(&mut self) -> (commands: Option<Vec<Command>>)
        ensures
            final(self)@ == old(self)@.refresh(),
            commands is Some <==> old(self)@.state == LoopState::Armed,
            commands is Some ==> plan_of(commands->0@) == old(self)@.frame(),
    {
        if !self.frame_loop.refresh() {
            return None;
        }
        self.field.step(self.viewport.width(), self.viewport.height());
        self.drag.settle(&mut self.circle);
        let commands = self.renderer.draw(&self.field, &self.viewport, &self.circle);
        Some(commands)
    }

    /// The commands of the tick were carried out, with the given outcome.
    /// Returns whether the host has to register for the next refresh signal.
    /// A failure halts the loop for good.
    pub fn finish(&mut self, outcome: Result<(), ErrorKind>) -> (arm: bool)
        ensures
            final(self)@ == (WorldModel { state: old(self)@.state.finish(outcome), ..old(self)@ }),
            arm == (old(self)@.state == LoopState::Ticking && outcome is Ok),
    {
        self.frame_loop.finish(outcome)
    }

    /// Stops the frame loop: no tick follows, and the host may release what
    /// it registered.
    pub fn stop(&mut self)
        ensures
            final(self)@ == (WorldModel { state: old(self)@.state.stop(), ..old(self)@ }),
            !final(self)@.state.live(),
    {
        self.frame_loop.stop();
    }
}

/// Events of the pointer and of the surface never step the simulation: after
/// any run of them the field, the renderer and the frame loop are as they
/// were. Only a tick moves particles or plans a frame.
pub proof fn lemma_events_leave_the_simulation(world: WorldModel, events: Seq<Event>)
    ensures
        world.after_all(events).field == world.field,
        world.after_all(events).renderer == world.renderer,
        world.after_all(events).state == world.state,
        world.after_all(events).circle.radius == world.circle.radius,
    decreases events.len(),
{
    if events.len() > 0 {
        lemma_events_leave_the_simulation(world, events.drop_last());
    }
}

/// The population is constant: a tick steps every particle and adds or
/// removes none, and keeps the radius of the circle.
pub proof fn lemma_tick_keeps_population(world: WorldModel)
    ensures
        world.refresh().field.len() == world.field.len(),
        world.refresh().viewport == world.viewport,
        world.refresh().drag == world.drag,
        world.refresh().circle.radius == world.circle.radius,
{
}

/// A resize puts the circle at the centre of the new viewport, whatever went
/// before, and a second resize to the same size changes nothing more.
pub proof fn lemma_resize_recenters(world: WorldModel, surface: Surface)
    ensures
        ({
            let once = world.after(Event::ViewportResized(surface));
            let twice = once.after(Event::ViewportResized(surface));
            &&& once.circle.center == once.viewport.center()
            &&& twice == once
            &&& !once.viewport.differs(twice.viewport)
        }),
{
}

} // verus!
