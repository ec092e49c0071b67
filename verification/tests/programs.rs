use particle_scene::error::ErrorKind;
use particle_scene::programs::{
    program_outcome, shader_outcome, ProgramCache, ShaderPair, CIRCLE_FRAGMENT_SHADER,
    CIRCLE_VERTEX_SHADER, POINT_FRAGMENT_SHADER, POINT_VERTEX_SHADER,
};

#[test]
fn shader_sources_map_pixels_to_clip_space() {
    for source in [POINT_VERTEX_SHADER, CIRCLE_VERTEX_SHADER] {
        assert!(source.starts_with("#version 300 es"));
        assert!(source.contains("vec2 zeroToOne = position / u_resolution;"));
        assert!(source.contains("vec2 clipSpace = zeroToOne * 2.0 - 1.0;"));
        assert!(source.contains("gl_Position = vec4(clipSpace * vec2(1, -1), 0.0, 1.0);"));
    }
    assert!(POINT_VERTEX_SHADER.contains("gl_PointSize = 4.0;"));
    assert!(POINT_FRAGMENT_SHADER.contains("outColor = vec4(0, 0, 1, 1);"));
    assert!(CIRCLE_FRAGMENT_SHADER.starts_with("#version 300 es"));
}

#[test]
fn pair_keeps_its_stages() {
    let p = ShaderPair::new("v", "f");
    assert_eq!(p.vertex, "v");
    assert_eq!(p.fragment, "f");
}

#[test]
fn pairs_are_the_same_when_both_stages_are() {
    let p = ShaderPair::new("v", "f");
    assert!(p.same(&ShaderPair::new("v", "f")));
    assert!(!p.same(&ShaderPair::new("v", "g")));
    assert!(!p.same(&ShaderPair::new("w", "f")));
    assert!(!p.same(&ShaderPair::new("f", "v")));
}

#[test]
fn empty_cache() {
    let cache = ProgramCache::new();
    assert_eq!(cache.len(), 0);
    assert_eq!(cache.find(&ShaderPair::new("v", "f")), None);
}

#[test]
fn same_pair_twice_gives_the_same_handle_and_one_build() {
    let mut cache = ProgramCache::new();
    let first = cache.request(ShaderPair::new("v", "f"));
    assert!(first.fresh);
    let second = cache.request(ShaderPair::new("v", "f"));
    assert!(!second.fresh);
    assert_eq!(first.handle, second.handle);
    assert_eq!(cache.len(), 1);
}

#[test]
fn different_pairs_give_different_handles() {
    let mut cache = ProgramCache::new();
    let a = cache.request(ShaderPair::new("v", "f"));
    let b = cache.request(ShaderPair::new("v", "g"));
    let c = cache.request(ShaderPair::new("w", "f"));
    assert!(a.fresh && b.fresh && c.fresh);
    assert_ne!(a.handle, b.handle);
    assert_ne!(a.handle, c.handle);
    assert_ne!(b.handle, c.handle);
    assert_eq!(cache.len(), 3);
}

#[test]
fn handles_are_places_in_order_of_first_request() {
    let mut cache = ProgramCache::new();
    assert_eq!(cache.request(ShaderPair::new("a", "b")).handle, 0);
    assert_eq!(cache.request(ShaderPair::new("c", "d")).handle, 1);
    assert_eq!(cache.request(ShaderPair::new("a", "b")).handle, 0);
    assert_eq!(cache.request(ShaderPair::new("e", "f")).handle, 2);
    assert_eq!(cache.request(ShaderPair::new("c", "d")).handle, 1);
    assert_eq!(cache.len(), 3);
    assert_eq!(cache.find(&ShaderPair::new("e", "f")), Some(2));
    assert_eq!(cache.find(&ShaderPair::new("f", "e")), None);
}

#[test]
fn many_requests_build_each_pair_once() {
    let mut cache = ProgramCache::new();
    let mut builds = 0;
    for round in 0..20 {
        for k in 0..5 {
            let p = cache.request(ShaderPair::new(&format!("v{}", k), "f"));
            assert_eq!(p.handle, k);
            assert_eq!(p.fresh, round == 0);
            if p.fresh {
                builds += 1;
            }
        }
    }
    assert_eq!(builds, 5);
    assert_eq!(cache.len(), 5);
}

#[test]
fn shader_passes_only_with_a_good_status() {
    assert!(shader_outcome(true, Some(true), None).is_ok());
    assert!(shader_outcome(true, Some(true), Some(String::from("warning"))).is_ok());
    assert!(shader_outcome(true, Some(false), None).is_err());
    assert!(shader_outcome(true, None, None).is_err());
    assert!(shader_outcome(false, Some(true), None).is_err());
}

#[test]
fn shader_failure_messages() {
    let e = shader_outcome(false, None, None).unwrap_err();
    assert_eq!(e.kind, ErrorKind::ShaderCompileFailed);
    assert_eq!(e.message, "Unable to create shader object");
    let e = shader_outcome(false, Some(true), Some(String::from("log"))).unwrap_err();
    assert_eq!(e.message, "Unable to create shader object");
    let e = shader_outcome(true, Some(false), Some(String::from("0:3: syntax error"))).unwrap_err();
    assert_eq!(e.kind, ErrorKind::ShaderCompileFailed);
    assert_eq!(e.message, "0:3: syntax error");
    let e = shader_outcome(true, Some(false), None).unwrap_err();
    assert_eq!(e.message, "Unknown error");
    let e = shader_outcome(true, None, Some(String::new())).unwrap_err();
    assert_eq!(e.message, "");
}

#[test]
fn program_passes_only_with_a_good_status() {
    assert!(program_outcome(true, Some(true), None).is_ok());
    assert!(program_outcome(true, Some(false), None).is_err());
    assert!(program_outcome(true, None, None).is_err());
    assert!(program_outcome(false, Some(true), None).is_err());
}

#[test]
fn program_failure_messages() {
    let e = program_outcome(false, None, None).unwrap_err();
    assert_eq!(e.kind, ErrorKind::ProgramLinkFailed);
    assert_eq!(e.message, "Unable to create program");
    let e = program_outcome(true, Some(false), Some(String::from("varying mismatch"))).unwrap_err();
    assert_eq!(e.kind, ErrorKind::ProgramLinkFailed);
    assert_eq!(e.message, "varying mismatch");
    let e = program_outcome(true, None, None).unwrap_err();
    assert_eq!(e.message, "Unknown error linking program");
}
