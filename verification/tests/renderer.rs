use particle_scene::circle::ControlCircle;
use particle_scene::fixed::Point;
use particle_scene::particles::{Particle, ParticleField};
use particle_scene::programs::{
    ShaderPair, CIRCLE_FRAGMENT_SHADER, CIRCLE_VERTEX_SHADER, POINT_FRAGMENT_SHADER,
    POINT_VERTEX_SHADER,
};
use particle_scene::renderer::{
    Color, Command, DrawPass, Primitive, Renderer, CIRCLE_SEGMENTS, CIRCLE_VERTICES,
};
use particle_scene::viewport::Viewport;

fn field(n: i64) -> ParticleField {
    ParticleField::new((0..n).map(|i| Particle::new(10 * i, 10 * i + 1, 1, -1).unwrap()).collect())
}

fn setup() -> (Renderer, Viewport, ControlCircle) {
    let v = Viewport::new(800, 600, 65536);
    let c = ControlCircle::centered(&v);
    (Renderer::new(), v, c)
}

const GREY: Color = Color { red: 230, green: 230, blue: 230, alpha: 255 };

fn point_pair() -> ShaderPair {
    ShaderPair::new(POINT_VERTEX_SHADER, POINT_FRAGMENT_SHADER)
}

fn circle_pair() -> ShaderPair {
    ShaderPair::new(CIRCLE_VERTEX_SHADER, CIRCLE_FRAGMENT_SHADER)
}

#[test]
fn circle_fan_has_a_centre_and_a_closed_rim() {
    assert_eq!(CIRCLE_SEGMENTS, 100);
    assert_eq!(CIRCLE_VERTICES, CIRCLE_SEGMENTS + 2);
}

#[test]
fn passes_have_their_shaders_and_primitives() {
    assert_eq!(DrawPass::Particles.shaders(), point_pair());
    assert_eq!(DrawPass::Circle.shaders(), circle_pair());
    assert_eq!(DrawPass::Particles.primitive(), Primitive::Points);
    assert_eq!(DrawPass::Circle.primitive(), Primitive::TriangleFan);
}

#[test]
fn passes_have_their_backgrounds() {
    assert_eq!(DrawPass::Particles.background(), GREY);
    assert_eq!(
        DrawPass::Circle.background(),
        Color { red: 255, green: 255, blue: 255, alpha: 255 }
    );
}

#[test]
fn new_renderer_has_nothing() {
    let r = Renderer::new();
    assert_eq!(r.pass(), DrawPass::Particles);
    assert_eq!(r.capacity(), 0);
    assert_eq!(r.programs(), 0);
}

#[test]
fn first_frame_reserves_uploads_builds_binds_and_draws() {
    let (mut r, v, c) = setup();
    let commands = r.draw(&field(3), &v, &c);
    assert_eq!(
        commands,
        vec![
            Command::Reserve { vertices: 3 },
            Command::UploadPoints { data: vec![0, 1, 10, 11, 20, 21] },
            Command::Compile { handle: 0, pair: point_pair() },
            Command::UseProgram { handle: 0 },
            Command::SetResolution { width: 800, height: 600 },
            Command::Clear { color: GREY },
            Command::Draw { primitive: Primitive::Points, count: 3 },
        ]
    );
    assert_eq!(r.capacity(), 3);
    assert_eq!(r.programs(), 1);
}

#[test]
fn later_frames_neither_reserve_nor_build() {
    let (mut r, v, c) = setup();
    let f = field(3);
    r.draw(&f, &v, &c);
    for _ in 0..5 {
        let commands = r.draw(&f, &v, &c);
        assert_eq!(
            commands,
            vec![
                Command::UploadPoints { data: vec![0, 1, 10, 11, 20, 21] },
                Command::UseProgram { handle: 0 },
                Command::SetResolution { width: 800, height: 600 },
                Command::Clear { color: GREY },
                Command::Draw { primitive: Primitive::Points, count: 3 },
            ]
        );
    }
    assert_eq!(r.capacity(), 3);
    assert_eq!(r.programs(), 1);
}

#[test]
fn buffer_grows_only_when_the_frame_needs_more() {
    let (mut r, v, c) = setup();
    r.draw(&field(5), &v, &c);
    assert_eq!(r.capacity(), 5);
    let commands = r.draw(&field(2), &v, &c);
    assert!(!commands.iter().any(|c| matches!(c, Command::Reserve { .. })));
    assert_eq!(r.capacity(), 5);
    let commands = r.draw(&field(5), &v, &c);
    assert!(!commands.iter().any(|c| matches!(c, Command::Reserve { .. })));
    let commands = r.draw(&field(6), &v, &c);
    assert_eq!(commands[0], Command::Reserve { vertices: 6 });
    assert_eq!(r.capacity(), 6);
}

#[test]
fn empty_field_draws_nothing_but_still_clears() {
    let (mut r, v, c) = setup();
    let commands = r.draw(&field(0), &v, &c);
    assert_eq!(
        commands,
        vec![
            Command::UploadPoints { data: vec![] },
            Command::Compile { handle: 0, pair: point_pair() },
            Command::UseProgram { handle: 0 },
            Command::SetResolution { width: 800, height: 600 },
            Command::Clear { color: GREY },
            Command::Draw { primitive: Primitive::Points, count: 0 },
        ]
    );
}

#[test]
fn resolution_follows_the_viewport() {
    let (mut r, mut v, mut c) = setup();
    let f = field(1);
    r.draw(&f, &v, &c);
    v.resize(&mut c, 1000, 500, 98304);
    let commands = r.draw(&f, &v, &c);
    assert!(commands.contains(&Command::SetResolution { width: 1500, height: 750 }));
}

#[test]
fn circle_pass_draws_a_fan() {
    let (mut r, v, _) = setup();
    let c = ControlCircle::new(Point { x: 123, y: 456 }, 789).unwrap();
    r.select(DrawPass::Circle);
    assert_eq!(r.pass(), DrawPass::Circle);
    let commands = r.draw(&field(3), &v, &c);
    assert_eq!(
        commands,
        vec![
            Command::Reserve { vertices: 102 },
            Command::UploadFan { center: Point { x: 123, y: 456 }, radius: 789, segments: 100 },
            Command::Compile { handle: 0, pair: circle_pair() },
            Command::UseProgram { handle: 0 },
            Command::SetResolution { width: 800, height: 600 },
            Command::Clear { color: Color { red: 255, green: 255, blue: 255, alpha: 255 } },
            Command::Draw { primitive: Primitive::TriangleFan, count: 102 },
        ]
    );
}

#[test]
fn each_pass_is_built_once_under_its_own_handle() {
    let (mut r, v, c) = setup();
    let f = field(3);
    let mut builds = Vec::new();
    let mut binds = Vec::new();
    for round in 0..6 {
        r.select(if round % 2 == 0 { DrawPass::Particles } else { DrawPass::Circle });
        for command in r.draw(&f, &v, &c) {
            match command {
                Command::Compile { handle, pair } => builds.push((handle, pair)),
                Command::UseProgram { handle } => binds.push(handle),
                _ => {}
            }
        }
    }
    assert_eq!(builds, vec![(0, point_pair()), (1, circle_pair())]);
    assert_eq!(binds, vec![0, 1, 0, 1, 0, 1]);
    assert_eq!(r.programs(), 2);
    assert_eq!(r.capacity(), 102);
}

#[test]
fn select_changes_the_pass_only() {
    let (mut r, v, c) = setup();
    r.draw(&field(7), &v, &c);
    r.select(DrawPass::Circle);
    assert_eq!((r.pass(), r.capacity(), r.programs()), (DrawPass::Circle, 7, 1));
    r.select(DrawPass::Particles);
    assert_eq!((r.pass(), r.capacity(), r.programs()), (DrawPass::Particles, 7, 1));
}
