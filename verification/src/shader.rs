//! Shader stages: what is handed to the driver's compiler, and what is made
//! of its answer.

use vstd::prelude::*;
use crate::command::{Command, CommandView};
use crate::context::{Context, ContextView};
use crate::error::Error;

verus! {

/// The stage of the pipeline that a shader runs in.
#[derive(Debug, Clone, Copy, PartialEq, Eq)]
pub enum ShaderKind {
    /// Runs once for each vertex.
    Vertex,
    /// Runs once for each fragment.
    Fragment,
}

/// The source text of one shader stage, as the compiler is to get it.
#[derive(Debug, Clone, Copy, PartialEq, Eq)]
pub struct ShaderSource {
    pub kind: ShaderKind,
    pub text: &'static str,
}

/// The driver's answer to a request to compile a stage or to link a
/// program.
#[derive(Debug, PartialEq, Eq)]
pub enum DriverReply {
    /// The driver made the object and named it `handle`.
    Accepted { handle: u32 },
    /// The driver turned the request down. `log` is its diagnostic text,
    /// `handle` the name of the object that it had set aside.
    Rejected { handle: u32, log: String },
}

/// A shader stage that the driver has compiled.
#[derive(Debug, PartialEq, Eq)]
pub struct Shader {
    /// The driver's name for the compiled stage.
    pub handle: u32,
    /// The stage that it runs in.
    pub kind: ShaderKind,
}

/// The source of the vertex stage: it passes the position of each vertex
/// on unchanged and hands its colour to the fragment stage.
pub const VERTEX_SHADER_SOURCE: &'static str = r#"#version 330 core
        layout (location = 0) in vec3 vpos;
        layout (location = 1) in vec3 vcol;

        out vec4 vertexColor;
        void main() {
            gl_Position = vec4(vpos, 1.0);
            vertexColor = vec4(vcol, 1.0);
        }"#;

/// The source of the fragment stage: it gives each fragment the colour that
/// the vertex stage handed on.
pub const FRAGMENT_SHADER_SOURCE: &'static str = r#"#version 330 core
        in vec4 vertexColor;
        out vec4 FragColor;
        void main() {
           FragColor = vertexColor;
        }"#;

impl Shader {
    /// What the compiler's answer makes of a stage of kind `kind`: the
    /// compiled stage where the compiler accepted the source, and a
    /// `CompileError` with its diagnostic where it did not.
    pub open spec fn compiled(kind: ShaderKind, reply: DriverReply) -> Result<Shader, Error> {
        match reply {
            DriverReply::Accepted { handle } => Ok(Shader { handle, kind }),
            DriverReply::Rejected { log, .. } => Err(Error::CompileError(log)),
        }
    }

    /// The context after the compiler's answer is taken in: the object that
    /// the compiler had set aside for a stage that it turned down is given
    /// up.
    pub open spec fn answered(context: ContextView, reply: DriverReply) -> ContextView {
        match reply {
            DriverReply::Accepted { .. } => context,
            DriverReply::Rejected { handle, .. } => context.after(
                CommandView::ReleaseShader { shader: handle },
            ),
        }
    }

    /// Takes in the compiler's answer for a stage of kind `kind`.
    pub fn from_reply(ctx: &mut Context, kind: ShaderKind, reply: DriverReply) -> (result: Result<
        Shader,
        Error,
    >)
        ensures
            result == Shader::compiled(kind, reply),
            final(ctx)@ == Shader::answered(old(ctx)@, reply),
    {
        match reply {
            DriverReply::Accepted { handle } => Ok(Shader { handle, kind }),
            DriverReply::Rejected { handle, log } => {
                ctx.record(Command::ReleaseShader { shader: handle });
                Err(Error::CompileError(log))
            },
        }
    }

    /// Gives the compiled stage up.
    pub fn release(self, ctx: &mut Context)
        ensures
            final(ctx)@ == old(ctx)@.after(CommandView::ReleaseShader { shader: self.handle }),
    {
        ctx.record(Command::ReleaseShader { shader: self.handle });
    }
}

/// What the compiler is to get for the vertex stage.
pub fn vert_shader_source() -> (source: ShaderSource)
    ensures
        source == (ShaderSource { kind: ShaderKind::Vertex, text: VERTEX_SHADER_SOURCE }),
{
    ShaderSource { kind: ShaderKind::Vertex, text: VERTEX_SHADER_SOURCE }
}

/// What the compiler is to get for the fragment stage.
pub fn frag_shader_source() -> (source: ShaderSource)
    ensures
        source == (ShaderSource { kind: ShaderKind::Fragment, text: FRAGMENT_SHADER_SOURCE }),
{
    ShaderSource { kind: ShaderKind::Fragment, text: FRAGMENT_SHADER_SOURCE }
}

/// The vertex stage, from the compiler's answer to `vert_shader_source`.
pub fn create_vert_shader(ctx: &mut Context, reply: DriverReply) -> (result: Result<Shader, Error>)
    ensures
        result == Shader::compiled(ShaderKind::Vertex, reply),
        final(ctx)@ == Shader::answered(old(ctx)@, reply),
{
    Shader::from_reply(ctx, ShaderKind::Vertex, reply)
}

/// The fragment stage, from the compiler's answer to `frag_shader_source`.
pub fn create_frag_shader(ctx: &mut Context, reply: DriverReply) -> (result: Result<Shader, Error>)
    ensures
        result == Shader::compiled(ShaderKind::Fragment, reply),
        final(ctx)@ == Shader::answered(old(ctx)@, reply),
{
    Shader::from_reply(ctx, ShaderKind::Fragment, reply)
}

} // verus!
