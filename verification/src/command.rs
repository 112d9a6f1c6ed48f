//! The calls that the renderer asks for.
//!
//! A [`Command`] names one call into the graphics driver or the window
//! system, with every argument already worked out. Commands are recorded in
//! the order in which they are to be made.

use vstd::prelude::*;

verus! {

/// The type of one component of a vertex attribute. Buffers hold 32-bit
/// floats and nothing else.
#[derive(Debug, Clone, Copy, PartialEq, Eq)]
pub enum ElementType {
    /// A 32-bit IEEE 754 float.
    Float,
}

/// The rectangle of the framebuffer that is drawn into.
#[derive(Debug, Clone, Copy, PartialEq, Eq)]
pub struct Viewport {
    pub x: i32,
    pub y: i32,
    pub width: i32,
    pub height: i32,
}

/// One call to be made on the graphics context or on the window.
///
/// Floats travel as their IEEE 754 bit patterns.
#[derive(Debug, PartialEq, Eq)]
pub enum Command {
    /// Make `array` the bound vertex array.
    BindVertexArray { array: u32 },
    /// Leave no vertex array bound.
    UnbindVertexArray,
    /// Make `buffer` the bound vertex buffer.
    BindBuffer { buffer: u32 },
    /// Leave no vertex buffer bound.
    UnbindBuffer,
    /// Replace the whole contents of the bound vertex buffer by `data`,
    /// which takes `byte_len` bytes.
    UploadData { data: Vec<u32>, byte_len: usize },
    /// Enable attribute `slot` of the bound vertex array and let it read
    /// `components` tightly packed elements per vertex from the bound
    /// vertex buffer.
    VertexAttrib { slot: u32, components: i32, element: ElementType },
    /// Give up a shader stage, compiled or turned down.
    ReleaseShader { shader: u32 },
    /// Make `program` the active shader program.
    UseProgram { program: u32 },
    /// Draw `count` vertices of the bound vertex array as triangles,
    /// starting at the first.
    DrawTriangles { count: i32 },
    /// Draw into the given rectangle of the framebuffer from now on.
    SetViewport { viewport: Viewport },
    /// Clear the colour of the framebuffer.
    Clear,
    /// Set the colour that `Clear` fills the framebuffer with.
    ClearColor { red: u32, green: u32, blue: u32, alpha: u32 },
    /// Present the frame that was drawn.
    SwapBuffers,
    /// Collect the events that the window system holds for the window.
    PollEvents,
    /// Set the window's flag that asks the frame loop to end.
    SetShouldClose { value: bool },
}

/// What a [`Command`] says, with the uploaded data as a sequence.
pub enum CommandView {
    BindVertexArray { array: u32 },
    UnbindVertexArray,
    BindBuffer { buffer: u32 },
    UnbindBuffer,
    UploadData { data: Seq<u32>, byte_len: usize },
    VertexAttrib { slot: u32, components: i32, element: ElementType },
    ReleaseShader { shader: u32 },
    UseProgram { program: u32 },
    DrawTriangles { count: i32 },
    SetViewport { viewport: Viewport },
    Clear,
    ClearColor { red: u32, green: u32, blue: u32, alpha: u32 },
    SwapBuffers,
    PollEvents,
    SetShouldClose { value: bool },
}

impl View for Command {
    type V = CommandView;

    open spec fn view(&self) -> CommandView {
        match *self {
            Command::BindVertexArray { array } => CommandView::BindVertexArray { array },
            Command::UnbindVertexArray => CommandView::UnbindVertexArray,
            Command::BindBuffer { buffer } => CommandView::BindBuffer { buffer },
            Command::UnbindBuffer => CommandView::UnbindBuffer,
            Command::UploadData { data, byte_len } => CommandView::UploadData {
                data: data@,
                byte_len,
            },
            Command::VertexAttrib { slot, components, element } => CommandView::VertexAttrib {
                slot,
                components,
                element,
            },
            Command::ReleaseShader { shader } => CommandView::ReleaseShader { shader },
            Command::UseProgram { program } => CommandView::UseProgram { program },
            Command::DrawTriangles { count } => CommandView::DrawTriangles { count },
            Command::SetViewport { viewport } => CommandView::SetViewport { viewport },
            Command::Clear => CommandView::Clear,
            Command::ClearColor { red, green, blue, alpha } => CommandView::ClearColor {
                red,
                green,
                blue,
                alpha,
            },
            Command::SwapBuffers => CommandView::SwapBuffers,
            Command::PollEvents => CommandView::PollEvents,
            Command::SetShouldClose { value } => CommandView::SetShouldClose { value },
        }
    }
}

/// The views of a list of commands, in the same order.
pub open spec fn command_views(commands: Seq<Command>) -> Seq<CommandView> {
    commands.map_values(|command: Command| command@)
}

} // verus!
