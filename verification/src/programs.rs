//! Shader programs: the source of each pair of stages, the verdict on what
//! the GPU backend made of it, and the cache that has each pair built once.

use crate::error::{ErrorKind, Failure};
use vstd::prelude::*;

verus! {

/// Vertex stage of the point pass: maps pixel coordinates to clip space with
/// the vertical axis turned over, and draws each vertex four pixels wide.
pub const POINT_VERTEX_SHADER: &'static str = "#version 300 es
precision mediump float;
in vec2 position;
uniform vec2 u_resolution;

void main() {
    vec2 zeroToOne = position / u_resolution;
    vec2 clipSpace = zeroToOne * 2.0 - 1.0;
    gl_Position = vec4(clipSpace * vec2(1, -1), 0.0, 1.0);
    gl_PointSize = 4.0;
}";

/// Fragment stage of the point pass: one solid colour.
pub const POINT_FRAGMENT_SHADER: &'static str = "#version 300 es
precision mediump float;
out vec4 outColor;

void main() {
    outColor = vec4(0, 0, 1, 1);
}";

/// Vertex stage of the circle pass: the same mapping to clip space.
pub const CIRCLE_VERTEX_SHADER: &'static str = "#version 300 es
precision highp float;

in vec2 position;
uniform vec2 u_resolution;

void main() {
    vec2 zeroToOne = position / u_resolution;
    vec2 clipSpace = zeroToOne * 2.0 - 1.0;
    gl_Position = vec4(clipSpace * vec2(1, -1), 0.0, 1.0);
}";

/// Fragment stage of the circle pass: coloured by the velocity texture.
pub const CIRCLE_FRAGMENT_SHADER: &'static str = "#version 300 es

precision highp float;

uniform sampler2D u_particles;
out vec4 outColor;

void main() {
    ivec2 coord = ivec2(gl_FragCoord.xy);
    vec4 particle = texelFetch(u_particles, coord, 0);

    outColor = vec4(0.5 + particle.z * 0.05, 0.5 + particle.w * 0.05, 1.0, 1.0);
}";

/// The identity of a program: the text of its two stages.
pub type PairModel = (Seq<char>, Seq<char>);

/// The source of a program: a vertex stage and a fragment stage.
#[derive(Debug, PartialEq, Eq)]
pub struct ShaderPair {
    pub vertex: String,
    pub fragment: String,
}

impl View for ShaderPair {
    type V = PairModel;

    open spec fn view(&self) -> PairModel {
        (self.vertex@, self.fragment@)
    }
}

impl ShaderPair {
    /// The pair with the given stages.
    pub fn new(vertex: &str, fragment: &str) -> (pair: ShaderPair)
        ensures
            pair@ == (vertex@, fragment@),
    {
        ShaderPair { vertex: vertex.to_owned(), fragment: fragment.to_owned() }
    }

    /// Whether two pairs have the same text in both stages.
    pub fn same(&self, other: &ShaderPair) -> (eq: bool)
        ensures
            eq == (self@ == other@),
    {
        self.vertex == other.vertex && self.fragment == other.fragment
    }
}

/// The handle under which `pair` is or will be cached: its place in the
/// cache, or the next free place.
pub open spec fn slot(cache: Seq<PairModel>, pair: PairModel) -> int {
    if cache.contains(pair) {
        cache.index_of(pair)
    } else {
        cache.len() as int
    }
}

/// The cache after a request for `pair`: unchanged if it holds the pair,
/// else with the pair in the next free place.
pub open spec fn with_pair(cache: Seq<PairModel>, pair: PairModel) -> Seq<PairModel> {
    if cache.contains(pair) {
        cache
    } else {
        cache.push(pair)
    }
}

/// The answer to a request: the handle of the program, and whether the
/// program has yet to be compiled and linked under that handle.
#[derive(Clone, Copy, Debug, PartialEq, Eq, Structural)]
pub struct Program {
    pub handle: usize,
    pub fresh: bool,
}

/// The programs that were requested so far, each under its own handle. No
/// pair of stages is in it twice, so none is built twice.
#[derive(Debug)]
pub struct ProgramCache {
    entries: Vec<ShaderPair>,
}

impl View for ProgramCache {
    type V = Seq<PairModel>;

    closed spec fn view(&self) -> Seq<PairModel> {
        Seq::new(self.entries@.len(), |i: int| self.entries@[i]@)
    }
}

impl ProgramCache {
    #[verifier::type_invariant]
    spec fn distinct(self) -> bool {
        self@.no_duplicates()
    }

    /// An empty cache.
    pub fn new() -> (cache: ProgramCache)
        ensures
            cache@ == Seq::<PairModel>::empty(),
    {
        let cache = ProgramCache { entries: Vec::new() };
        assert(cache@ =~= Seq::<PairModel>::empty());
        cache
    }

    /// Number of programs in the cache, which is the number of programs that
    /// were ever built.
    pub fn len(&self) -> (n: usize)
        ensures
            n == self@.len(),
            self@.no_duplicates(),
    {
        proof {
            use_type_invariant(self);
        }
        self.entries.len()
    }

    /// The handle of `pair`, if the cache holds it.
    pub fn find(&self, pair: &ShaderPair) -> (found: Option<usize>)
        ensures
            found is Some <==> self@.contains(pair@),
            found is Some ==> found->0 == slot(self@, pair@),
    {
        proof {
            use_type_invariant(self);
        }
        let n = self.entries.len();
        let mut i: usize = 0;
        while i < n
            invariant
                i <= n,
                n == self.entries@.len(),
                self@.no_duplicates(),
                forall|j: int| 0 <= j < i ==> self.entries@[j]@ != pair@,
            decreases n - i,
        {
            if self.entries[i].same(pair) {
                assert(self@[i as int] == pair@);
                assert(self@[self@.index_of(pair@)] == pair@);
                return Some(i);
            }
            i += 1;
        }
        assert(!self@.contains(pair@)) by {
            if self@.contains(pair@) {
                let k = self@.index_of(pair@);
                assert(self.entries@[k]@ == pair@);
            }
        }
        None
    }

    /// Requests the program of `pair`. A pair that the cache holds keeps its
    /// handle and the cache does not change; a new pair takes the next free
    /// handle and is reported as fresh, to be built once.
    pub fn request(&mut self, pair: ShaderPair) -> (program: Program)
        ensures
            program.handle == slot(old(self)@, pair@),
            program.fresh == !old(self)@.contains(pair@),
            final(self)@ == with_pair(old(self)@, pair@),
            final(self)@[program.handle as int] == pair@,
    {
        proof {
            use_type_invariant(&*self);
        }
        match self.find(&pair) {
            Some(handle) => Program { handle, fresh: false },
            None => {
                let handle = self.entries.len();
                let ghost before = self@;
                let mut entries: Vec<ShaderPair> = Vec::new();
                std::mem::swap(&mut entries, &mut self.entries);
                entries.push(pair);
                proof {
                    let after = Seq::new(entries@.len(), |i: int| entries@[i]@);
                    assert(after =~= before.push(pair@));
                    assert(after.no_duplicates());
                }
                self.entries = entries;
                assert(self@ =~= before.push(pair@));
                Program { handle, fresh: true }
            },
        }
    }
}

/// A pair that is requested again keeps its handle and is not built again:
/// after the first request the cache holds it, and a second request leaves
/// the cache as it is.
pub proof fn lemma_same_pair_same_handle(cache: Seq<PairModel>, pair: PairModel)
    requires
        cache.no_duplicates(),
    ensures
        with_pair(cache, pair).contains(pair),
        with_pair(cache, pair).no_duplicates(),
        slot(with_pair(cache, pair), pair) == slot(cache, pair),
        with_pair(with_pair(cache, pair), pair) == with_pair(cache, pair),
        with_pair(cache, pair).len() == cache.len() + (if cache.contains(pair) { 0int } else { 1int }),
{
    let next = with_pair(cache, pair);
    if cache.contains(pair) {
    } else {
        assert(next[cache.len() as int] == pair);
        assert(next[next.index_of(pair)] == pair);
    }
}

/// Two different pairs get two different handles, whichever is requested first.
pub proof fn lemma_distinct_pairs_distinct_handles(
    cache: Seq<PairModel>,
    first: PairModel,
    second: PairModel,
)
    requires
        first != second,
    ensures
        slot(cache, first) != slot(with_pair(cache, first), second),
        slot(with_pair(with_pair(cache, first), second), first) != slot(
            with_pair(with_pair(cache, first), second),
            second,
        ),
{
    let one = with_pair(cache, first);
    let two = with_pair(one, second);
    assert(one.contains(first) && one[slot(cache, first)] == first) by {
        if cache.contains(first) {
        } else {
            assert(one[cache.len() as int] == first);
        }
    }
    assert(two.contains(second) && two[slot(one, second)] == second) by {
        if one.contains(second) {
        } else {
            assert(two[one.len() as int] == second);
        }
    }
    assert(two.contains(first)) by {
        assert(two[slot(cache, first)] == first);
    }
    assert(two[two.index_of(first)] == first);
    assert(two[two.index_of(second)] == second);
}

/// The verdict on one shader stage, from what the GPU backend reported:
/// whether it made a shader object at all, the compile status it gave (if it
/// gave one), and its log (if it kept one). A stage passes only with a status
/// that says so.
pub fn shader_outcome(created: bool, status: Option<bool>, log: Option<String>) -> (r: Result<
    (),
    Failure,
>)
    ensures
        r is Ok <==> created && status == Some(true),
        r is Err ==> r->Err_0.kind == ErrorKind::ShaderCompileFailed,
        r is Err && !created ==> r->Err_0.message@ == "Unable to create shader object"@,
        r is Err && created ==> r->Err_0.message@ == (match log {
            Some(text) => text@,
            None => "Unknown error"@,
        }),
{
    if !created {
        return Err(
            Failure {
                kind: ErrorKind::ShaderCompileFailed,
                message: "Unable to create shader object".to_owned(),
            },
        );
    }
    match status {
        Some(true) => Ok(()),
        _ => {
            let message = match log {
                Some(text) => text,
                None => "Unknown error".to_owned(),
            };
            Err(Failure { kind: ErrorKind::ShaderCompileFailed, message })
        },
    }
}

/// The verdict on a linked program, from what the GPU backend reported:
/// whether it made a program object at all, the link status it gave (if it
/// gave one), and its log (if it kept one).
pub fn program_outcome(created: bool, status: Option<bool>, log: Option<String>) -> (r: Result<
    (),
    Failure,
>)
    ensures
        r is Ok <==> created && status == Some(true),
        r is Err ==> r->Err_0.kind == ErrorKind::ProgramLinkFailed,
        r is Err && !created ==> r->Err_0.message@ == "Unable to create program"@,
        r is Err && created ==> r->Err_0.message@ == (match log {
            Some(text) => text@,
            None => "Unknown error linking program"@,
        }),
{
    if !created {
        return Err(
            Failure {
                kind: ErrorKind::ProgramLinkFailed,
                message: "Unable to create program".to_owned(),
            },
        );
    }
    match status {
        Some(true) => Ok(()),
        _ => {
            let message = match log {
                Some(text) => text,
                None => "Unknown error linking program".to_owned(),
            };
            Err(Failure { kind: ErrorKind::ProgramLinkFailed, message })
        },
    }
}

} // verus!
