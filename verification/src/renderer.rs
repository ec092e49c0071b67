//! The frame planner: what the GPU has to be told, in order, to draw one
//! frame of the scene. The host carries the commands out.

use crate::circle::{CircleModel, ControlCircle};
use crate::fixed::Point;
use crate::particles::{interleaved, ParticleField, ParticleModel};
use crate::programs::{
    slot, with_pair, PairModel, ProgramCache, ShaderPair, CIRCLE_FRAGMENT_SHADER,
    CIRCLE_VERTEX_SHADER, POINT_FRAGMENT_SHADER, POINT_VERTEX_SHADER,
};
use crate::viewport::{Viewport, ViewportModel};
use vstd::prelude::*;

verus! {

/// Number of segments that approximate the rim of the control circle.
pub const CIRCLE_SEGMENTS: usize = 100;

/// Number of vertices of the circle's triangle fan: the centre, and one for
/// each end of each segment along the rim.
pub const CIRCLE_VERTICES: usize = 102;

/// What a frame shows.
#[derive(Clone, Copy, Debug, PartialEq, Eq, Structural)]
pub enum DrawPass {
    /// Every particle as a point of fixed size.
    Particles,
    /// The control circle as a filled polygon.
    Circle,
}

/// How the GPU assembles the vertices of a draw call.
#[derive(Clone, Copy, Debug, PartialEq, Eq, Structural)]
pub enum Primitive {
    Points,
    TriangleFan,
}

/// A colour, eight bits to a channel.
#[derive(Clone, Copy, Debug, PartialEq, Eq, Structural)]
pub struct Color {
    pub red: u8,
    pub green: u8,
    pub blue: u8,
    pub alpha: u8,
}

/// The colour that the target is cleared to before `pass` is drawn: a light
/// grey behind the particles, white behind the circle.
pub open spec fn pass_background(pass: DrawPass) -> Color {
    match pass {
        DrawPass::Particles => Color { red: 230, green: 230, blue: 230, alpha: 255 },
        DrawPass::Circle => Color { red: 255, green: 255, blue: 255, alpha: 255 },
    }
}

/// The source of the program that draws `pass`.
pub open spec fn pass_pair(pass: DrawPass) -> PairModel {
    match pass {
        DrawPass::Particles => (POINT_VERTEX_SHADER@, POINT_FRAGMENT_SHADER@),
        DrawPass::Circle => (CIRCLE_VERTEX_SHADER@, CIRCLE_FRAGMENT_SHADER@),
    }
}

/// The primitive that `pass` is drawn with.
pub open spec fn pass_primitive(pass: DrawPass) -> Primitive {
    match pass {
        DrawPass::Particles => Primitive::Points,
        DrawPass::Circle => Primitive::TriangleFan,
    }
}

impl DrawPass {
    /// The source of the program that draws this pass.
    pub fn shaders(self) -> (pair: ShaderPair)
        ensures
            pair@ == pass_pair(self),
    {
        match self {
            DrawPass::Particles => ShaderPair::new(POINT_VERTEX_SHADER, POINT_FRAGMENT_SHADER),
            DrawPass::Circle => ShaderPair::new(CIRCLE_VERTEX_SHADER, CIRCLE_FRAGMENT_SHADER),
        }
    }

    /// The colour that the target is cleared to before this pass is drawn.
    pub fn background(self) -> (c: Color)
        ensures
            c == pass_background(self),
    {
        match self {
            DrawPass::Particles => Color { red: 230, green: 230, blue: 230, alpha: 255 },
            DrawPass::Circle => Color { red: 255, green: 255, blue: 255, alpha: 255 },
        }
    }

    /// The primitive that this pass is drawn with.
    pub fn primitive(self) -> (p: Primitive)
        ensures
            p == pass_primitive(self),
    {
        match self {
            DrawPass::Particles => Primitive::Points,
            DrawPass::Circle => Primitive::TriangleFan,
        }
    }
}

/// One instruction to the GPU backend.
#[derive(Debug, PartialEq, Eq)]
pub enum Command {
    /// Grow the vertex buffer so that it holds `vertices` vertices.
    Reserve { vertices: usize },
    /// Fill the vertex buffer with particle positions, `x` and `y` in turn.
    UploadPoints { data: Vec<i64> },
    /// Fill the vertex buffer with a triangle fan for the disk around
    /// `center`: the centre first, then the rim in `segments` equal steps,
    /// its first vertex repeated at the end.
    UploadFan { center: Point, radius: i64, segments: usize },
    /// Compile and link `pair` and keep the program under `handle`.
    Compile { handle: usize, pair: ShaderPair },
    /// Bind the program kept under `handle`.
    UseProgram { handle: usize },
    /// Set the resolution uniform to the physical size of the viewport.
    SetResolution { width: u32, height: u32 },
    /// Clear the colour target to `color`.
    Clear { color: Color },
    /// Draw the first `count` vertices of the buffer.
    Draw { primitive: Primitive, count: usize },
}

/// What a command says, over plain values.
pub enum CommandModel {
    Reserve { vertices: int },
    UploadPoints { data: Seq<i64> },
    UploadFan { center: Point, radius: int, segments: int },
    Compile { handle: int, pair: PairModel },
    UseProgram { handle: int },
    SetResolution { width: int, height: int },
    Clear { color: Color },
    Draw { primitive: Primitive, count: int },
}

impl View for Command {
    type V = CommandModel;

    open spec fn view(&self) -> CommandModel {
        match *self {
            Command::Reserve { vertices } => CommandModel::Reserve { vertices: vertices as int },
            Command::UploadPoints { data } => CommandModel::UploadPoints { data: data@ },
            Command::UploadFan { center, radius, segments } => CommandModel::UploadFan {
                center,
                radius: radius as int,
                segments: segments as int,
            },
            Command::Compile { handle, pair } => CommandModel::Compile {
                handle: handle as int,
                pair: pair@,
            },
            Command::UseProgram { handle } => CommandModel::UseProgram { handle: handle as int },
            Command::SetResolution { width, height } => CommandModel::SetResolution {
                width: width as int,
                height: height as int,
            },
            Command::Clear { color } => CommandModel::Clear { color },
            Command::Draw { primitive, count } => CommandModel::Draw {
                primitive,
                count: count as int,
            },
        }
    }
}

/// What each command of a list says, in order.
pub open spec fn plan_of(commands: Seq<Command>) -> Seq<CommandModel> {
    Seq::new(commands.len(), |i: int| commands[i]@)
}

/// What a renderer is: the programs built so far, the number of vertices
/// that the GPU-side buffer holds, and the pass that it draws.
pub struct RendererModel {
    pub cache: Seq<PairModel>,
    pub capacity: int,
    pub pass: DrawPass,
}

impl RendererModel {
    /// Number of vertices that a frame draws.
    pub open spec fn vertices(self, field: Seq<ParticleModel>) -> int {
        match self.pass {
            DrawPass::Particles => field.len() as int,
            DrawPass::Circle => CIRCLE_VERTICES as int,
        }
    }

    /// First step: the buffer grows only if the frame needs more vertices
    /// than it holds.
    pub open spec fn reserve(self, field: Seq<ParticleModel>) -> Seq<CommandModel> {
        if self.vertices(field) > self.capacity {
            seq![CommandModel::Reserve { vertices: self.vertices(field) }]
        } else {
            seq![]
        }
    }

    /// Second step: the vertices of the frame.
    pub open spec fn upload(self, field: Seq<ParticleModel>, circle: CircleModel) -> CommandModel {
        match self.pass {
            DrawPass::Particles => CommandModel::UploadPoints { data: interleaved(field) },
            DrawPass::Circle => CommandModel::UploadFan {
                center: circle.center,
                radius: circle.radius,
                segments: CIRCLE_SEGMENTS as int,
            },
        }
    }

    /// Third step: the program of the pass is bound; it is built first if and
    /// only if the cache does not hold it.
    pub open spec fn bind(self) -> Seq<CommandModel> {
        let pair = pass_pair(self.pass);
        let handle = slot(self.cache, pair);
        if self.cache.contains(pair) {
            seq![CommandModel::UseProgram { handle }]
        } else {
            seq![CommandModel::Compile { handle, pair }, CommandModel::UseProgram { handle }]
        }
    }

    /// Last steps: the resolution uniform, the clear and the one draw call.
    pub open spec fn finish(self, field: Seq<ParticleModel>, viewport: ViewportModel) -> Seq<
        CommandModel,
    > {
        seq![
            CommandModel::SetResolution { width: viewport.width, height: viewport.height },
            CommandModel::Clear { color: pass_background(self.pass) },
            CommandModel::Draw { primitive: pass_primitive(self.pass), count: self.vertices(field) },
        ]
    }

    /// The commands of one frame, in order.
    pub open spec fn frame(
        self,
        field: Seq<ParticleModel>,
        viewport: ViewportModel,
        circle: CircleModel,
    ) -> Seq<CommandModel> {
        self.reserve(field).push(self.upload(field, circle)) + self.bind() + self.finish(
            field,
            viewport,
        )
    }

    /// The renderer after it planned a frame: the buffer holds the frame's
    /// vertices and the cache holds the program of the pass.
    pub open spec fn after_frame(self, field: Seq<ParticleModel>) -> RendererModel {
        RendererModel {
            cache: with_pair(self.cache, pass_pair(self.pass)),
            capacity: if self.vertices(field) > self.capacity {
                self.vertices(field)
            } else {
                self.capacity
            },
            pass: self.pass,
        }
    }
}

/// The renderer: it owns the program cache and knows the size of the
/// GPU-side vertex buffer.
#[derive(Debug)]
pub struct Renderer {
    cache: ProgramCache,
    capacity: usize,
    pass: DrawPass,
}

impl View for Renderer {
    type V = RendererModel;

    closed spec fn view(&self) -> RendererModel {
        RendererModel { cache: self.cache@, capacity: self.capacity as int, pass: self.pass }
    }
}

impl Renderer {
    /// A renderer with no program built and no buffer allocated, set to draw
    /// the particles.
    pub fn new() -> (r: Renderer)
        ensures
            r@ == (RendererModel {
                cache: Seq::<PairModel>::empty(),
                capacity: 0,
                pass: DrawPass::Particles,
            }),
    {
        Renderer { cache: ProgramCache::new(), capacity: 0, pass: DrawPass::Particles }
    }

    /// The pass that the next frame draws.
    pub fn pass(&self) -> (p: DrawPass)
        ensures
            p == self@.pass,
    {
        self.pass
    }

    /// Number of vertices that the GPU-side buffer holds.
    pub fn capacity(&self) -> (n: usize)
        ensures
            n == self@.capacity,
    {
        self.capacity
    }

    /// Number of programs built so far.
    pub fn programs(&self) -> (n: usize)
        ensures
            n == self@.cache.len(),
    {
        self.cache.len()
    }

    /// Selects the pass that the following frames draw. Nothing else changes.
    pub fn select(&mut self, pass: DrawPass)
        ensures
            final(self)@ == (RendererModel { pass, ..old(self)@ }),
    {
        self.pass = pass;
    }

    /// Plans one frame. The commands, in order: grow the vertex buffer if
    /// the frame needs more than it holds; upload the vertices; build the
    /// program of the pass if the cache does not hold it, and bind it; set
    /// the resolution uniform; clear to the background of the pass; draw
    /// every vertex in one call.
    pub fn draw(&mut self, field: &ParticleField, viewport: &Viewport, circle: &ControlCircle) -> (commands:
        Vec<Command>)
        ensures
            plan_of(commands@) == old(self)@.frame(field@, viewport@, circle@),
            final(self)@ == old(self)@.after_frame(field@),
    {
        let mut commands: Vec<Command> = Vec::new();
        let vertices = match self.pass {
            DrawPass::Particles => field.len(),
            DrawPass::Circle => CIRCLE_VERTICES,
        };
        if vertices > self.capacity {
            commands.push(Command::Reserve { vertices });
            self.capacity = vertices;
        }
        match self.pass {
            DrawPass::Particles => {
                commands.push(Command::UploadPoints { data: field.positions() });
            },
            DrawPass::Circle => {
                commands.push(
                    Command::UploadFan {
                        center: circle.center(),
                        radius: circle.radius(),
                        segments: CIRCLE_SEGMENTS,
                    },
                );
            },
        }
        assert(plan_of(commands@) =~= old(self)@.reserve(field@).push(
            old(self)@.upload(field@, circle@),
        ));
        let program = self.cache.request(self.pass.shaders());
        if program.fresh {
            commands.push(Command::Compile { handle: program.handle, pair: self.pass.shaders() });
        }
        commands.push(Command::UseProgram { handle: program.handle });
        assert(plan_of(commands@) =~= old(self)@.reserve(field@).push(
            old(self)@.upload(field@, circle@),
        ) + old(self)@.bind());
        commands.push(Command::SetResolution { width: viewport.width(), height: viewport.height() });
        commands.push(Command::Clear { color: self.pass.background() });
        commands.push(Command::Draw { primitive: self.pass.primitive(), count: vertices });
        assert(plan_of(commands@) =~= old(self)@.frame(field@, viewport@, circle@));
        commands
    }
}

/// A frame that follows a frame of the same pass with no more vertices
/// neither grows the vertex buffer nor builds a program: it binds the program
/// under the handle that the first frame gave it, and leaves the renderer as
/// it is.
pub proof fn lemma_steady_frame(
    renderer: RendererModel,
    first: Seq<ParticleModel>,
    second: Seq<ParticleModel>,
)
    requires
        second.len() <= first.len(),
    ensures
        renderer.after_frame(first).reserve(second) == Seq::<CommandModel>::empty(),
        renderer.after_frame(first).bind() == seq![
            CommandModel::UseProgram { handle: slot(renderer.cache, pass_pair(renderer.pass)) },
        ],
        renderer.after_frame(first).after_frame(second) == renderer.after_frame(first),
{
    let pair = pass_pair(renderer.pass);
    let cache = with_pair(renderer.cache, pair);
    if !renderer.cache.contains(pair) {
        assert(cache[renderer.cache.len() as int] == pair);
        assert(cache[cache.index_of(pair)] == pair);
    }
    assert(cache.contains(pair));
    assert(slot(cache, pair) == slot(renderer.cache, pair));
}

} // verus!
