//! The mesh: a vertex array, the shader program that draws it, and the
//! number of vertices to draw.

use vstd::prelude::*;
use crate::command::{Command, CommandView, ElementType};
use crate::context::{Context, ContextState, lemma_after_all_appends, lemma_after_all_push};
use crate::error::Error;
use crate::program::{Program, ProgramBuild, Request, create_program};
use crate::shader::DriverReply;
use crate::vao::{Vao, VaoView};
use crate::vbo::{Attribute, Vbo, VboView, lemma_whole_vertices};

verus! {

/// The bit pattern of the float 0.0.
pub const ZERO: u32 = 0x0000_0000;

/// The bit pattern of the float 0.5.
pub const HALF: u32 = 0x3F00_0000;

/// The bit pattern of the float -0.5.
pub const MINUS_HALF: u32 = 0xBF00_0000;

/// The bit pattern of the float 1.0.
pub const ONE: u32 = 0x3F80_0000;

/// How many vertices the triangle has.
pub const TRIANGLE_VERTICES: i32 = 3;

/// How many floats give the position of a vertex, and how many its colour.
pub const COMPONENTS: i32 = 3;

/// The input of the vertex stage that takes the positions.
pub const POSITION_SLOT: u32 = 0;

/// The input of the vertex stage that takes the colours.
pub const COLOR_SLOT: u32 = 1;

/// The positions of the triangle's corners, x, y and z of each: bottom
/// left, bottom right, top.
pub open spec fn triangle_positions() -> Seq<u32> {
    seq![MINUS_HALF, MINUS_HALF, ZERO, HALF, MINUS_HALF, ZERO, ZERO, HALF, ZERO]
}

/// The colours of the triangle's corners, red, green and blue of each: a
/// red, a green and a blue corner.
pub open spec fn triangle_colors() -> Seq<u32> {
    seq![ONE, ZERO, ZERO, ZERO, ONE, ZERO, ZERO, ZERO, ONE]
}

/// The calls that fill one vertex buffer of the triangle and describe it as
/// the attribute `slot`.
pub open spec fn buffer_setup(buffer: u32, data: Seq<u32>, slot: u32) -> Seq<CommandView> {
    seq![
        CommandView::BindBuffer { buffer },
        CommandView::UploadData { data, byte_len: (data.len() * 4) as usize },
        CommandView::VertexAttrib { slot, components: COMPONENTS, element: ElementType::Float },
        CommandView::UnbindBuffer,
    ]
}

/// The calls that set the triangle up: the vertex array is bound, the
/// buffer of positions and then the buffer of colours are filled and
/// described, and the vertex array is let go.
pub open spec fn mesh_setup(vertex_array: u32, positions: u32, colors: u32) -> Seq<CommandView> {
    seq![CommandView::BindVertexArray { array: vertex_array }] + buffer_setup(
        positions,
        triangle_positions(),
        POSITION_SLOT,
    ) + buffer_setup(colors, triangle_colors(), COLOR_SLOT) + seq![CommandView::UnbindVertexArray]
}

/// What a vertex buffer of the triangle is once it is set up.
pub open spec fn triangle_buffer(buffer: u32, slot: u32, vertex_array: u32) -> VboView {
    VboView {
        handle: buffer,
        len: 9,
        attribute: Some(
            Attribute { slot, components: COMPONENTS, element: ElementType::Float, vertex_array },
        ),
    }
}

/// A vertex array, the program that draws it, and the number of vertices
/// to draw.
#[derive(Debug)]
pub struct Mesh {
    vao: Vao,
    program: Program,
    vertex_count: i32,
}

/// The state of a [`Mesh`].
pub struct MeshView {
    pub vao: VaoView,
    pub program: Program,
    pub vertex_count: i32,
}

impl MeshView {
    /// The calls that draw the mesh: the program is made the active one,
    /// the vertex array is bound, and the vertices are drawn.
    pub open spec fn draw_calls(self) -> Seq<CommandView> {
        seq![
            CommandView::UseProgram { program: self.program.handle },
            CommandView::BindVertexArray { array: self.vao.handle },
            CommandView::DrawTriangles { count: self.vertex_count },
        ]
    }

    /// Whether the draw call finds every vertex that it asks for in every
    /// buffer of the vertex array.
    pub open spec fn ready(self) -> bool {
        self.vao.ready_for(self.vertex_count)
    }
}

impl View for Mesh {
    type V = MeshView;

    closed spec fn view(&self) -> MeshView {
        MeshView { vao: self.vao@, program: self.program, vertex_count: self.vertex_count }
    }
}

impl Mesh {
    /// Puts a vertex array and a program together, to draw `vertex_count`
    /// vertices.
    pub fn new(vao: Vao, program: Program, vertex_count: i32) -> (mesh: Mesh)
        ensures
            mesh@ == (MeshView { vao: vao@, program, vertex_count }),
    {
        Mesh { vao, program, vertex_count }
    }

    /// The vertex array of the mesh.
    pub fn vao(&self) -> (vao: &Vao)
        ensures
            vao@ == self@.vao,
    {
        &self.vao
    }

    /// The program that draws the mesh.
    pub fn program(&self) -> (program: &Program)
        ensures
            *program == self@.program,
    {
        &self.program
    }

    /// The number of vertices to draw.
    pub fn vertex_count(&self) -> (count: i32)
        ensures
            count == self@.vertex_count,
    {
        self.vertex_count
    }

    /// Whether the draw call finds every vertex that it asks for in every
    /// buffer of the vertex array.
    pub fn ready(&self) -> (ready: bool)
        ensures
            ready == self@.ready(),
    {
        self.vao.ready_for(self.vertex_count)
    }

    /// Draws the mesh: makes its program the active one, binds its vertex
    /// array and draws its vertices as triangles.
    pub fn draw(&self, ctx: &mut Context)
        ensures
            final(ctx)@ == old(ctx)@.after_all(self@.draw_calls()),
            final(ctx)@.pending == old(ctx)@.pending + self@.draw_calls(),
            final(ctx)@.state == (ContextState {
                program: Some(self@.program.handle),
                vertex_array: Some(self@.vao.handle),
                ..old(ctx)@.state
            }),
    {
        let ghost start = ctx@;
        let ghost calls = self@.draw_calls();
        proof {
            lemma_after_all_appends(start, calls);
            lemma_after_all_push(start, calls.take(0), calls[0]);
            lemma_after_all_push(start, calls.take(1), calls[1]);
            lemma_after_all_push(start, calls.take(2), calls[2]);
            assert(calls.take(0).push(calls[0]) == calls.take(1));
            assert(calls.take(1).push(calls[1]) == calls.take(2));
            assert(calls.take(2).push(calls[2]) == calls);
        }
        ctx.record(Command::UseProgram { program: self.program.handle });
        self.vao.bind(ctx);
        ctx.record(Command::DrawTriangles { count: self.vertex_count });
    }
}

/// The positions of the triangle's corners, as they are uploaded.
pub fn triangle_position_data() -> (data: Vec<u32>)
    ensures
        data@ == triangle_positions(),
{
    vec![MINUS_HALF, MINUS_HALF, ZERO, HALF, MINUS_HALF, ZERO, ZERO, HALF, ZERO]
}

/// The colours of the triangle's corners, as they are uploaded.
pub fn triangle_color_data() -> (data: Vec<u32>)
    ensures
        data@ == triangle_colors(),
{
    vec![ONE, ZERO, ZERO, ZERO, ONE, ZERO, ZERO, ZERO, ONE]
}

/// The vertex array of the triangle once it is set up.
pub open spec fn triangle_vao(vertex_array: u32, positions: u32, colors: u32) -> VaoView {
    VaoView {
        handle: vertex_array,
        buffers: seq![
            triangle_buffer(positions, POSITION_SLOT, vertex_array),
            triangle_buffer(colors, COLOR_SLOT, vertex_array),
        ],
    }
}

/// The triangle's buffers hold the three vertices that its mesh draws.
pub proof fn lemma_triangle_ready(vertex_array: u32, positions: u32, colors: u32)
    ensures
        triangle_vao(vertex_array, positions, colors).ready_for(TRIANGLE_VERTICES),
        triangle_vao(vertex_array, positions, colors).configured(),
{
    lemma_whole_vertices(triangle_buffer(positions, POSITION_SLOT, vertex_array), 3);
    lemma_whole_vertices(triangle_buffer(colors, COLOR_SLOT, vertex_array), 3);
}

/// Whatever answers the driver gives, the making of the triangle's mesh
/// ends, if it ends well, in a mesh whose draw call finds its three
/// vertices in both buffers.
pub proof fn lemma_built_mesh_ready(
    build: MeshBuildView,
    vertex_array: u32,
    positions: u32,
    colors: u32,
)
    requires
        build.vao == triangle_vao(vertex_array, positions, colors),
    ensures
        build.outcome() matches Some(Ok(mesh)) ==> mesh.ready(),
{
    lemma_triangle_ready(vertex_array, positions, colors);
}

/// A mesh in the making: its vertex array is set up, its program is under
/// construction.
#[derive(Debug)]
pub struct MeshBuild {
    vao: Vao,
    program: ProgramBuild,
}

/// The state of a [`MeshBuild`].
pub struct MeshBuildView {
    /// The vertex array of the mesh.
    pub vao: VaoView,
    /// Where the construction of the program stands.
    pub program: ProgramBuild,
}

impl MeshBuildView {
    /// What the making of the mesh has come to: the mesh of three vertices
    /// once the program is linked, the error once the driver has turned a
    /// stage or the program down, and nothing before that.
    pub open spec fn outcome(self) -> Option<Result<MeshView, Error>> {
        match self.program {
            ProgramBuild::Done { program } => Some(
                Ok(MeshView { vao: self.vao, program, vertex_count: TRIANGLE_VERTICES }),
            ),
            ProgramBuild::Failed { error } => Some(Err(error)),
            _ => None,
        }
    }
}

/// An outcome with the mesh seen by its view.
pub open spec fn outcome_view(outcome: Option<Result<Mesh, Error>>) -> Option<
    Result<MeshView, Error>,
> {
    match outcome {
        Some(Ok(mesh)) => Some(Ok(mesh@)),
        Some(Err(error)) => Some(Err(error)),
        None => None,
    }
}

impl View for MeshBuild {
    type V = MeshBuildView;

    closed spec fn view(&self) -> MeshBuildView {
        MeshBuildView { vao: self.vao@, program: self.program }
    }
}

impl MeshBuild {
    /// What is to be asked of the driver at this point: the next step of
    /// the program's construction. `None` once the construction has ended.
    pub fn request(&self) -> (request: Option<Request>)
        ensures
            request == self@.program.pending(),
            request is None <==> self@.program.ended(),
    {
        self.program.request()
    }

    /// Takes in the driver's answer to the pending request: the program's
    /// construction goes one step on, and the vertex array stays as it is.
    pub fn reply(self, ctx: &mut Context, reply: DriverReply) -> (next: MeshBuild)
        ensures
            next@ == (MeshBuildView { vao: self@.vao, program: self@.program.advance(reply) }),
            final(ctx)@ == old(ctx)@.after_all(self@.program.released(reply)),
            final(ctx)@.pending == old(ctx)@.pending + self@.program.released(reply),
    {
        let program = create_program(ctx, self.program, reply);
        MeshBuild { vao: self.vao, program }
    }

    /// What the making of the mesh has come to.
    pub fn finish(self) -> (outcome: Option<Result<Mesh, Error>>)
        ensures
            outcome_view(outcome) == self@.outcome(),
    {
        match self.program.finish() {
            Some(Ok(program)) => Some(Ok(Mesh::new(self.vao, program, TRIANGLE_VERTICES))),
            Some(Err(error)) => Some(Err(error)),
            None => None,
        }
    }
}

/// Sets the triangle up and begins the construction of its program.
///
/// The driver has made a vertex array under the name `vertex_array` and two
/// vertex buffers under the names `positions` and `colors`. With the vertex
/// array bound, each buffer in turn is bound, filled with the nine floats
/// of its attribute, described as three floats for each vertex, let go and
/// handed to the vertex array: the positions for input 0, the colours for
/// input 1. What is left to do for the mesh is its program.
pub fn create_mesh(ctx: &mut Context, vertex_array: u32, positions: u32, colors: u32) -> (build:
    MeshBuild)
    ensures
        final(ctx)@ == old(ctx)@.after_all(mesh_setup(vertex_array, positions, colors)),
        final(ctx)@.pending == old(ctx)@.pending + mesh_setup(vertex_array, positions, colors),
        final(ctx)@.state == (ContextState {
            vertex_array: None,
            array_buffer: None,
            ..old(ctx)@.state
        }),
        build@ == (MeshBuildView {
            vao: triangle_vao(vertex_array, positions, colors),
            program: ProgramBuild::CompilingVertex,
        }),
{
    let ghost start = ctx@;
    let ghost calls = mesh_setup(vertex_array, positions, colors);
    proof {
        lemma_after_all_appends(start, calls);
        assert(calls.len() == 10);
        assert forall|i: int| 0 <= i < 10 implies start.after_all(calls.take(i + 1))
            == start.after_all(calls.take(i)).after(calls[i]) by {
            lemma_after_all_push(start, calls.take(i), calls[i]);
            assert(calls.take(i).push(calls[i]) == calls.take(i + 1));
        }
        assert(calls.take(10) == calls);
    }

    let mut vao = Vao::create(vertex_array);
    vao.bind(ctx);
    assert(ctx@ == start.after_all(calls.take(1)));

    {
        let mut vbo = Vbo::create(positions);
        vbo.bind(ctx);
        assert(ctx@ == start.after_all(calls.take(2)));
        let vertices = triangle_position_data();
        vbo.upload_data(ctx, vertices);
        assert(ctx@ == start.after_all(calls.take(3)));
        vbo.vertex_attrib(ctx, POSITION_SLOT, COMPONENTS, ElementType::Float);
        assert(ctx@ == start.after_all(calls.take(4)));
        vbo.unbind(ctx);
        assert(ctx@ == start.after_all(calls.take(5)));
        vao.add_vbo(vbo);
    }

    {
        let mut vbo = Vbo::create(colors);
        vbo.bind(ctx);
        assert(ctx@ == start.after_all(calls.take(6)));
        let vertices = triangle_color_data();
        vbo.upload_data(ctx, vertices);
        assert(ctx@ == start.after_all(calls.take(7)));
        vbo.vertex_attrib(ctx, COLOR_SLOT, COMPONENTS, ElementType::Float);
        assert(ctx@ == start.after_all(calls.take(8)));
        vbo.unbind(ctx);
        assert(ctx@ == start.after_all(calls.take(9)));
        vao.add_vbo(vbo);
    }

    vao.unbind(ctx);

    assert(vao@.buffers =~= triangle_vao(vertex_array, positions, colors).buffers);
    MeshBuild { vao, program: ProgramBuild::start() }
}

} // verus!
