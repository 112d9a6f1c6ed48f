//! The shader program: the stages that were compiled, linked into one
//! pipeline.
//!
//! A program is built in three steps, each of which waits for the driver:
//! the vertex stage is compiled, then the fragment stage, then the two are
//! linked. [`ProgramBuild`] says where the construction stands,
//! [`ProgramBuild::request`] what the driver is to do next, and
//! [`create_program`] what its answer leads to.

use vstd::prelude::*;
use crate::command::CommandView;
use crate::context::{
    Context,
    ContextView,
    lemma_after_all_appends,
    lemma_after_all_push,
    lemma_after_all_short,
};
use crate::error::Error;
use crate::shader::{
    DriverReply,
    Shader,
    ShaderKind,
    ShaderSource,
    create_frag_shader,
    create_vert_shader,
    frag_shader_source,
    vert_shader_source,
};

verus! {

/// A shader program that the driver has linked.
#[derive(Debug, PartialEq, Eq)]
pub struct Program {
    /// The driver's name for the program.
    pub handle: u32,
}

/// Whether a stage of kind `kind` is among `shaders`.
pub open spec fn has_stage(shaders: Seq<Shader>, kind: ShaderKind) -> bool {
    exists|i: int| 0 <= i < shaders.len() && (#[trigger] shaders[i]).kind == kind
}

/// The calls that give up each of `shaders`, in their order.
pub open spec fn releases(shaders: Seq<Shader>) -> Seq<CommandView> {
    shaders.map_values(|shader: Shader| CommandView::ReleaseShader { shader: shader.handle })
}

impl Program {
    /// What the linker's answer makes of a set of stages: the program where
    /// the linker accepted them, and a `LinkError` with its diagnostic where
    /// it did not.
    pub open spec fn linked(reply: DriverReply) -> Result<Program, Error> {
        match reply {
            DriverReply::Accepted { handle } => Ok(Program { handle }),
            DriverReply::Rejected { log, .. } => Err(Error::LinkError(log)),
        }
    }

    /// Takes in the linker's answer for the stages `shaders`. Whatever the
    /// answer, the stages have served and are given up, in their order.
    pub fn from_shaders(ctx: &mut Context, shaders: Vec<Shader>, reply: DriverReply) -> (result:
        Result<Program, Error>)
        ensures
            result == Program::linked(reply),
            final(ctx)@ == old(ctx)@.after_all(releases(shaders@)),
            final(ctx)@.pending == old(ctx)@.pending + releases(shaders@),
    {
        proof {
            lemma_after_all_appends(ctx@, releases(shaders@));
        }
        let mut i: usize = 0;
        while i < shaders.len()
            invariant
                i <= shaders.len(),
                ctx@ == old(ctx)@.after_all(releases(shaders@.take(i as int))),
            decreases shaders.len() - i,
        {
            proof {
                let done = releases(shaders@.take(i as int));
                let release = CommandView::ReleaseShader { shader: shaders@[i as int].handle };
                lemma_after_all_push(old(ctx)@, done, release);
                assert(releases(shaders@.take(i + 1)) == done.push(release));
            }
            ctx.record(crate::command::Command::ReleaseShader { shader: shaders[i].handle });
            i += 1;
        }
        assert(shaders@.take(shaders@.len() as int) == shaders@);
        match reply {
            DriverReply::Accepted { handle } => Ok(Program { handle }),
            DriverReply::Rejected { handle, log } => Err(Error::LinkError(log)),
        }
    }
}

/// What the driver is to do next for the program, and answer.
#[derive(Debug, PartialEq, Eq)]
pub enum Request {
    /// Compile this source.
    Compile(ShaderSource),
    /// Link the two compiled stages into a program.
    Link { vertex: u32, fragment: u32 },
}

/// Where the construction of the shader program stands.
#[derive(Debug, PartialEq, Eq)]
pub enum ProgramBuild {
    /// The vertex stage is with the compiler.
    CompilingVertex,
    /// The vertex stage is compiled; the fragment stage is with the
    /// compiler.
    CompilingFragment { vertex: Shader },
    /// Both stages are compiled and with the linker.
    Linking { vertex: Shader, fragment: Shader },
    /// The program is linked.
    Done { program: Program },
    /// The driver turned a stage or the program down. Nothing more is asked
    /// of it.
    Failed { error: Error },
}

impl ProgramBuild {
    /// Whether each stage that the construction holds is of the kind that
    /// its place says.
    pub open spec fn well_formed(self) -> bool {
        match self {
            ProgramBuild::CompilingFragment { vertex } => vertex.kind == ShaderKind::Vertex,
            ProgramBuild::Linking { vertex, fragment } => {
                &&& vertex.kind == ShaderKind::Vertex
                &&& fragment.kind == ShaderKind::Fragment
            },
            _ => true,
        }
    }

    /// Whether the construction has ended, in a program or in an error.
    pub open spec fn ended(self) -> bool {
        self is Done || self is Failed
    }

    /// Where the driver's answer to the pending request leads. The first
    /// answer that turns a request down ends the construction: a stage
    /// that was turned down gives a `CompileError`, the program a
    /// `LinkError`, each with the driver's diagnostic. A construction that
    /// has ended stays as it is.
    pub open spec fn advance(self, reply: DriverReply) -> ProgramBuild {
        match (self, reply) {
            (ProgramBuild::CompilingVertex, DriverReply::Accepted { handle }) => {
                ProgramBuild::CompilingFragment {
                    vertex: Shader { handle, kind: ShaderKind::Vertex },
                }
            },
            (ProgramBuild::CompilingFragment { vertex }, DriverReply::Accepted { handle }) => {
                ProgramBuild::Linking {
                    vertex,
                    fragment: Shader { handle, kind: ShaderKind::Fragment },
                }
            },
            (ProgramBuild::Linking { .. }, DriverReply::Accepted { handle }) => {
                ProgramBuild::Done { program: Program { handle } }
            },
            (ProgramBuild::CompilingVertex, DriverReply::Rejected { log, .. }) => {
                ProgramBuild::Failed { error: Error::CompileError(log) }
            },
            (ProgramBuild::CompilingFragment { .. }, DriverReply::Rejected { log, .. }) => {
                ProgramBuild::Failed { error: Error::CompileError(log) }
            },
            (ProgramBuild::Linking { .. }, DriverReply::Rejected { log, .. }) => {
                ProgramBuild::Failed { error: Error::LinkError(log) }
            },
            (ProgramBuild::Done { program }, _) => ProgramBuild::Done { program },
            (ProgramBuild::Failed { error }, _) => ProgramBuild::Failed { error },
        }
    }

    /// The stages that the driver's answer lets go of, in the order in
    /// which they are given up: a stage that was turned down, then any
    /// stage compiled before it; both stages once the linker has answered.
    pub open spec fn released(self, reply: DriverReply) -> Seq<CommandView> {
        match (self, reply) {
            (ProgramBuild::CompilingVertex, DriverReply::Rejected { handle, .. }) => seq![
                CommandView::ReleaseShader { shader: handle },
            ],
            (ProgramBuild::CompilingFragment { vertex }, DriverReply::Rejected { handle, .. }) => seq![
                CommandView::ReleaseShader { shader: handle },
                CommandView::ReleaseShader { shader: vertex.handle },
            ],
            (ProgramBuild::Linking { vertex, fragment }, _) => seq![
                CommandView::ReleaseShader { shader: vertex.handle },
                CommandView::ReleaseShader { shader: fragment.handle },
            ],
            _ => Seq::empty(),
        }
    }

    /// What is to be asked of the driver at this point, if anything.
    pub open spec fn pending(self) -> Option<Request> {
        match self {
            ProgramBuild::CompilingVertex => Some(
                Request::Compile(
                    ShaderSource {
                        kind: ShaderKind::Vertex,
                        text: crate::shader::VERTEX_SHADER_SOURCE,
                    },
                ),
            ),
            ProgramBuild::CompilingFragment { .. } => Some(
                Request::Compile(
                    ShaderSource {
                        kind: ShaderKind::Fragment,
                        text: crate::shader::FRAGMENT_SHADER_SOURCE,
                    },
                ),
            ),
            ProgramBuild::Linking { vertex, fragment } => Some(
                Request::Link { vertex: vertex.handle, fragment: fragment.handle },
            ),
            _ => None,
        }
    }

    /// The construction before anything is compiled.
    pub fn start() -> (build: ProgramBuild)
        ensures
            build == ProgramBuild::CompilingVertex,
    {
        ProgramBuild::CompilingVertex
    }

    /// What is to be asked of the driver at this point: to compile the
    /// vertex stage, to compile the fragment stage, or to link the two.
    /// `None` once the construction has ended.
    pub fn request(&self) -> (request: Option<Request>)
        ensures
            request == self.pending(),
            request is None <==> self.ended(),
    {
        match self {
            ProgramBuild::CompilingVertex => Some(Request::Compile(vert_shader_source())),
            ProgramBuild::CompilingFragment { .. } => Some(Request::Compile(frag_shader_source())),
            ProgramBuild::Linking { vertex, fragment } => Some(
                Request::Link { vertex: vertex.handle, fragment: fragment.handle },
            ),
            _ => None,
        }
    }

    /// The outcome of a construction that has ended; `None` while it has
    /// not.
    pub fn finish(self) -> (outcome: Option<Result<Program, Error>>)
        ensures
            outcome == match self {
                ProgramBuild::Done { program } => Some(Ok::<Program, Error>(program)),
                ProgramBuild::Failed { error } => Some(Err::<Program, Error>(error)),
                _ => None,
            },
    {
        match self {
            ProgramBuild::Done { program } => Some(Ok(program)),
            ProgramBuild::Failed { error } => Some(Err(error)),
            _ => None,
        }
    }
}

/// What recording the released stages comes to, call by call.
proof fn lemma_released_one_by_one(context: ContextView, build: ProgramBuild, reply: DriverReply)
    ensures
        context.after_all(build.released(reply)) == match (build, reply) {
            (ProgramBuild::CompilingVertex, DriverReply::Rejected { handle, .. }) => context.after(
                CommandView::ReleaseShader { shader: handle },
            ),
            (
                ProgramBuild::CompilingFragment { vertex },
                DriverReply::Rejected { handle, .. },
            ) => context.after(CommandView::ReleaseShader { shader: handle }).after(
                CommandView::ReleaseShader { shader: vertex.handle },
            ),
            (ProgramBuild::Linking { vertex, fragment }, _) => context.after_all(
                releases(seq![vertex, fragment]),
            ),
            _ => context,
        },
{
    match (build, reply) {
        (ProgramBuild::CompilingVertex, DriverReply::Rejected { handle, .. }) => {
            let failed = CommandView::ReleaseShader { shader: handle };
            lemma_after_all_short(context, failed, failed);
        },
        (ProgramBuild::CompilingFragment { vertex }, DriverReply::Rejected { handle, .. }) => {
            lemma_after_all_short(
                context,
                CommandView::ReleaseShader { shader: handle },
                CommandView::ReleaseShader { shader: vertex.handle },
            );
        },
        (ProgramBuild::Linking { vertex, fragment }, _) => {
            assert(releases(seq![vertex, fragment]) == build.released(reply));
        },
        _ => {},
    }
}

/// Takes the construction of the shader program one step on, by the
/// driver's answer to the request that was pending, and gives up the stages
/// that are done with.
pub fn create_program(ctx: &mut Context, build: ProgramBuild, reply: DriverReply) -> (next:
    ProgramBuild)
    ensures
        next == build.advance(reply),
        final(ctx)@ == old(ctx)@.after_all(build.released(reply)),
        final(ctx)@.pending == old(ctx)@.pending + build.released(reply),
{
    proof {
        lemma_after_all_appends(ctx@, build.released(reply));
        lemma_released_one_by_one(ctx@, build, reply);
    }
    match build {
        ProgramBuild::CompilingVertex => match create_vert_shader(ctx, reply) {
            Ok(vertex) => ProgramBuild::CompilingFragment { vertex },
            Err(error) => ProgramBuild::Failed { error },
        },
        ProgramBuild::CompilingFragment { vertex } => match create_frag_shader(ctx, reply) {
            Ok(fragment) => ProgramBuild::Linking { vertex, fragment },
            Err(error) => {
                vertex.release(ctx);
                ProgramBuild::Failed { error }
            },
        },
        ProgramBuild::Linking { vertex, fragment } => {
            let shaders = vec![vertex, fragment];
            match Program::from_shaders(ctx, shaders, reply) {
                Ok(program) => ProgramBuild::Done { program },
                Err(error) => ProgramBuild::Failed { error },
            }
        },
        ProgramBuild::Done { program } => ProgramBuild::Done { program },
        ProgramBuild::Failed { error } => ProgramBuild::Failed { error },
    }
}

impl ProgramBuild {
    /// Where a run of answers leads, each taken in when its turn comes.
    pub open spec fn advance_all(self, replies: Seq<DriverReply>) -> ProgramBuild
        decreases replies.len(),
    {
        if replies.len() == 0 {
            self
        } else {
            self.advance_all(replies.drop_last()).advance(replies.last())
        }
    }
}

/// A construction that has ended asks nothing of the driver, and no answer
/// moves it or lets go of anything.
pub proof fn lemma_ended_stays(build: ProgramBuild, reply: DriverReply)
    requires
        build.ended(),
    ensures
        build.pending() is None,
        build.advance(reply) == build,
        build.released(reply) == Seq::<CommandView>::empty(),
{
}

/// A construction that has ended stays as it is, whatever answers follow.
pub proof fn lemma_ended_stays_for_good(build: ProgramBuild, replies: Seq<DriverReply>)
    requires
        build.ended(),
    ensures
        build.advance_all(replies) == build,
    decreases replies.len(),
{
    if replies.len() > 0 {
        lemma_ended_stays_for_good(build, replies.drop_last());
    }
}

/// Every step keeps each stage in the place of its kind, and a link is
/// asked for only of one vertex stage and one fragment stage.
pub proof fn lemma_stages_in_place(build: ProgramBuild, reply: DriverReply)
    requires
        build.well_formed(),
    ensures
        build.advance(reply).well_formed(),
        build matches ProgramBuild::Linking { vertex, fragment } ==> {
            &&& build.pending() == Some(
                Request::Link { vertex: vertex.handle, fragment: fragment.handle },
            )
            &&& has_stage(seq![vertex, fragment], ShaderKind::Vertex)
            &&& has_stage(seq![vertex, fragment], ShaderKind::Fragment)
        },
{
    if let ProgramBuild::Linking { vertex, fragment } = build {
        assert(seq![vertex, fragment][0].kind == ShaderKind::Vertex);
        assert(seq![vertex, fragment][1].kind == ShaderKind::Fragment);
    }
}

/// The first answer that turns a request down decides the outcome, whatever
/// answers follow it: if it is one of the first two, a stage failed to
/// compile, the construction ends with a `CompileError` that carries the
/// compiler's diagnostic, and no link is ever asked for; if it is the
/// third, the construction ends with a `LinkError` that carries the
/// linker's diagnostic.
pub proof fn lemma_first_rejection_decides(replies: Seq<DriverReply>, i: int)
    requires
        0 <= i < replies.len(),
        i < 3,
        replies[i] is Rejected,
        forall|j: int| 0 <= j < i ==> replies[j] is Accepted,
    ensures
        i < 2 ==> ProgramBuild::CompilingVertex.advance_all(replies) == (ProgramBuild::Failed {
            error: Error::CompileError(replies[i]->log),
        }),
        i == 2 ==> ProgramBuild::CompilingVertex.advance_all(replies) == (ProgramBuild::Failed {
            error: Error::LinkError(replies[i]->log),
        }),
        forall|n: int|
            0 <= n <= replies.len() && i < 2 ==> !(ProgramBuild::CompilingVertex.advance_all(
                #[trigger] replies.take(n),
            ) is Linking),
{
    let start = ProgramBuild::CompilingVertex;
    let decided = if i < 2 {
        ProgramBuild::Failed { error: Error::CompileError(replies[i]->log) }
    } else {
        ProgramBuild::Failed { error: Error::LinkError(replies[i]->log) }
    };
    assert forall|n: int| 0 <= n <= replies.len() implies {
        let at = start.advance_all(#[trigger] replies.take(n));
        if n > i {
            at == decided
        } else if n == 0 {
            at == start
        } else if n == 1 {
            at is CompilingFragment
        } else {
            at is Linking
        }
    } by {
        lemma_run_before_rejection(replies, i, n, decided);
    }
    assert(replies.take(replies.len() as int) == replies);
}

/// Where the construction stands after the first `n` answers of a run whose
/// first rejection is answer `i`.
proof fn lemma_run_before_rejection(
    replies: Seq<DriverReply>,
    i: int,
    n: int,
    decided: ProgramBuild,
)
    requires
        0 <= i < replies.len(),
        i < 3,
        replies[i] is Rejected,
        forall|j: int| 0 <= j < i ==> replies[j] is Accepted,
        0 <= n <= replies.len(),
        decided == if i < 2 {
            ProgramBuild::Failed { error: Error::CompileError(replies[i]->log) }
        } else {
            ProgramBuild::Failed { error: Error::LinkError(replies[i]->log) }
        },
    ensures
        ({
            let at = ProgramBuild::CompilingVertex.advance_all(replies.take(n));
            if n > i {
                at == decided
            } else if n == 0 {
                at == ProgramBuild::CompilingVertex
            } else if n == 1 {
                at is CompilingFragment
            } else {
                at is Linking
            }
        }),
    decreases n,
{
    if n > 0 {
        lemma_run_before_rejection(replies, i, n - 1, decided);
        assert(replies.take(n).drop_last() == replies.take(n - 1));
        assert(replies.take(n).last() == replies[n - 1]);
    }
}

/// Where the driver accepts both stages and the program, the construction
/// ends with the program that the linker named.
pub proof fn lemma_accepted_build_is_done(vertex: u32, fragment: u32, program: u32)
    ensures
        ProgramBuild::CompilingVertex.advance_all(
            seq![
                DriverReply::Accepted { handle: vertex },
                DriverReply::Accepted { handle: fragment },
                DriverReply::Accepted { handle: program },
            ],
        ) == (ProgramBuild::Done { program: Program { handle: program } }),
{
    let replies = seq![
        DriverReply::Accepted { handle: vertex },
        DriverReply::Accepted { handle: fragment },
        DriverReply::Accepted { handle: program },
    ];
    let start = ProgramBuild::CompilingVertex;
    assert(replies.drop_last() == seq![replies[0], replies[1]]);
    assert(replies.drop_last().drop_last() == seq![replies[0]]);
    assert(replies.drop_last().drop_last().drop_last() == Seq::<DriverReply>::empty());
    assert(start.advance_all(Seq::empty()) == start);
    assert(start.advance_all(seq![replies[0]]) == start.advance(replies[0]));
    assert(start.advance_all(seq![replies[0], replies[1]]) == start.advance(replies[0]).advance(
        replies[1],
    ));
}

} // verus!
