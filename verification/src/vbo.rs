//! Vertex buffers: memory of the graphics device that holds one attribute
//! of every vertex as a flat run of floats.

use vstd::prelude::*;
use crate::command::{Command, CommandView, ElementType};
use crate::context::Context;

verus! {

/// How the contents of a vertex buffer feed one input of the vertex stage.
#[derive(Debug, Clone, Copy, PartialEq, Eq)]
pub struct Attribute {
    /// The number of the shader input.
    pub slot: u32,
    /// How many elements make up the attribute of one vertex.
    pub components: i32,
    /// The type of each element.
    pub element: ElementType,
    /// The vertex array that was bound, and so took the description down.
    pub vertex_array: u32,
}

/// A vertex buffer, together with what the renderer has put into it.
#[derive(Debug)]
pub struct Vbo {
    handle: u32,
    len: usize,
    attribute: Option<Attribute>,
}

/// The state of a [`Vbo`].
pub struct VboView {
    /// The driver's name for the buffer.
    pub handle: u32,
    /// How many floats were uploaded last; none before the first upload.
    pub len: nat,
    /// How the contents were last described, if they were.
    pub attribute: Option<Attribute>,
}

impl VboView {
    /// How many whole vertices the buffer holds under its description:
    /// its length divided by the components of one vertex, where that
    /// leaves no rest. `None` while the contents are not described, and
    /// where the description does not fit what was uploaded.
    pub open spec fn vertices(self) -> Option<nat> {
        match self.attribute {
            Some(attribute) => if attribute.components > 0 && self.len % (
            attribute.components as nat) == 0 {
                Some(self.len / (attribute.components as nat))
            } else {
                None
            },
            None => None,
        }
    }

    /// Whether a draw call of `count` vertices finds every vertex in the
    /// buffer.
    pub open spec fn ready_for(self, count: i32) -> bool {
        self.vertices() matches Some(vertices) && 0 <= count <= vertices
    }
}

/// A buffer holds `vertices` whole vertices exactly when it is described
/// with at least one component to a vertex and its length is `vertices`
/// times that number of components.
pub proof fn lemma_whole_vertices(buffer: VboView, vertices: nat)
    ensures
        buffer.vertices() == Some(vertices) <==> (buffer.attribute matches Some(attribute)
            && attribute.components > 0 && buffer.len == vertices * attribute.components),
{
    if let Some(attribute) = buffer.attribute {
        if attribute.components > 0 {
            let components: nat = attribute.components as nat;
            let len: nat = buffer.len;
            assert(len == vertices * components ==> len % components == 0 && len / components
                == vertices) by (nonlinear_arith)
                requires
                    components > 0,
            ;
            assert(len % components == 0 && len / components == vertices ==> len == vertices
                * components) by (nonlinear_arith)
                requires
                    components > 0,
            ;
        }
    }
}

impl View for Vbo {
    type V = VboView;

    closed spec fn view(&self) -> VboView {
        VboView { handle: self.handle, len: self.len as nat, attribute: self.attribute }
    }
}

impl Vbo {
    /// Takes charge of the buffer that the driver made under the name
    /// `handle`. Nothing is uploaded or described yet.
    pub fn create(handle: u32) -> (vbo: Vbo)
        ensures
            vbo@ == (VboView { handle, len: 0, attribute: None }),
    {
        Vbo { handle, len: 0, attribute: None }
    }

    /// The driver's name for the buffer.
    pub fn handle(&self) -> (handle: u32)
        ensures
            handle == self@.handle,
    {
        self.handle
    }

    /// How many floats were uploaded last.
    pub fn len(&self) -> (len: usize)
        ensures
            len == self@.len,
    {
        self.len
    }

    /// How the contents were last described, if they were.
    pub fn attribute(&self) -> (attribute: Option<Attribute>)
        ensures
            attribute == self@.attribute,
    {
        self.attribute
    }

    /// Makes this the bound vertex buffer.
    pub fn bind(&self, ctx: &mut Context)
        ensures
            final(ctx)@ == old(ctx)@.after(CommandView::BindBuffer { buffer: self@.handle }),
    {
        ctx.record(Command::BindBuffer { buffer: self.handle });
    }

    /// Leaves no vertex buffer bound.
    pub fn unbind(&self, ctx: &mut Context)
        ensures
            final(ctx)@ == old(ctx)@.after(CommandView::UnbindBuffer),
    {
        ctx.record(Command::UnbindBuffer);
    }

    /// Replaces the whole contents of the buffer by `data`, a run of floats
    /// given as their bit patterns. The buffer has to be the bound one.
    pub fn upload_data(&mut self, ctx: &mut Context, data: Vec<u32>)
        requires
            old(ctx)@.state.array_buffer == Some(old(self)@.handle),
            data@.len() * 4 <= isize::MAX,
        ensures
            final(self)@ == (VboView { len: data@.len(), ..old(self)@ }),
            final(ctx)@ == old(ctx)@.after(
                CommandView::UploadData { data: data@, byte_len: (data@.len() * 4) as usize },
            ),
    {
        let len: usize = data.len();
        let byte_len: usize = len * 4;
        self.len = len;
        ctx.record(Command::UploadData { data, byte_len });
    }

    /// Describes the contents as attribute `slot` of the vertices: each
    /// vertex takes `components` elements of type `element`, one vertex
    /// after the other. The buffer has to be the bound one, and a vertex
    /// array has to be bound to take the description down.
    pub fn vertex_attrib(
        &mut self,
        ctx: &mut Context,
        slot: u32,
        components: i32,
        element: ElementType,
    )
        requires
            old(ctx)@.state.array_buffer == Some(old(self)@.handle),
            old(ctx)@.state.vertex_array is Some,
        ensures
            final(self)@ == (VboView {
                attribute: Some(
                    Attribute {
                        slot,
                        components,
                        element,
                        vertex_array: old(ctx)@.state.vertex_array->0,
                    },
                ),
                ..old(self)@
            }),
            final(ctx)@ == old(ctx)@.after(CommandView::VertexAttrib { slot, components, element }),
    {
        let vertex_array: u32 = ctx.state().vertex_array.unwrap();
        self.attribute = Some(Attribute { slot, components, element, vertex_array });
        ctx.record(Command::VertexAttrib { slot, components, element });
    }

    /// How many whole vertices the buffer holds under its description.
    pub fn vertex_count(&self) -> (count: Option<usize>)
        ensures
            match count {
                Some(count) => self@.vertices() == Some(count as nat),
                None => self@.vertices() is None,
            },
    {
        match self.attribute {
            Some(attribute) => {
                if attribute.components > 0 {
                    let components: usize = attribute.components as usize;
                    if self.len % components == 0 {
                        Some(self.len / components)
                    } else {
                        None
                    }
                } else {
                    None
                }
            },
            None => None,
        }
    }

    /// Whether a draw call of `count` vertices finds every vertex in the
    /// buffer.
    pub fn ready_for(&self, count: i32) -> (ready: bool)
        ensures
            ready == self@.ready_for(count),
    {
        match self.vertex_count() {
            Some(vertices) => 0 <= count && count as usize <= vertices,
            None => false,
        }
    }
}

} // verus!
