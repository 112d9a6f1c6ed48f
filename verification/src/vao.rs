//! Vertex arrays: the record, kept by the graphics device, of which vertex
//! buffers feed which inputs of the vertex stage.

use vstd::prelude::*;
use crate::command::{Command, CommandView};
use crate::context::Context;
use crate::vbo::{Vbo, VboView};

verus! {

/// A vertex array and the vertex buffers that belong to it.
#[derive(Debug)]
pub struct Vao {
    handle: u32,
    buffers: Vec<Vbo>,
}

/// The state of a [`Vao`].
pub struct VaoView {
    /// The driver's name for the vertex array.
    pub handle: u32,
    /// The buffers that belong to the vertex array, in the order in which
    /// they were added.
    pub buffers: Seq<VboView>,
}

impl VaoView {
    /// Whether a buffer may join this vertex array: its contents were
    /// described, and this vertex array was the bound one at that time.
    pub open spec fn accepts(self, buffer: VboView) -> bool {
        buffer.attribute matches Some(attribute) && attribute.vertex_array == self.handle
    }

    /// Whether every buffer of the vertex array was described while the
    /// vertex array was bound.
    pub open spec fn configured(self) -> bool {
        forall|i: int| 0 <= i < self.buffers.len() ==> self.accepts(#[trigger] self.buffers[i])
    }

    /// Whether a draw call of `count` vertices finds every vertex in every
    /// buffer.
    pub open spec fn ready_for(self, count: i32) -> bool {
        forall|i: int|
            0 <= i < self.buffers.len() ==> (#[trigger] self.buffers[i]).ready_for(count)
    }
}

/// The views of a list of buffers, in the same order.
pub open spec fn buffer_views(buffers: Seq<Vbo>) -> Seq<VboView> {
    buffers.map_values(|buffer: Vbo| buffer@)
}

impl View for Vao {
    type V = VaoView;

    closed spec fn view(&self) -> VaoView {
        VaoView { handle: self.handle, buffers: buffer_views(self.buffers@) }
    }
}

impl Vao {
    #[verifier::type_invariant]
    spec fn configured(self) -> bool {
        self@.configured()
    }

    /// Takes charge of the vertex array that the driver made under the name
    /// `handle`. No buffer belongs to it yet.
    pub fn create(handle: u32) -> (vao: Vao)
        ensures
            vao@ == (VaoView { handle, buffers: Seq::empty() }),
    {
        let buffers: Vec<Vbo> = Vec::new();
        assert(buffer_views(buffers@) =~= Seq::empty());
        Vao { handle, buffers }
    }

    /// The driver's name for the vertex array.
    pub fn handle(&self) -> (handle: u32)
        ensures
            handle == self@.handle,
    {
        self.handle
    }

    /// The buffers that belong to the vertex array, in the order in which
    /// they were added. Each was described while the vertex array was bound.
    pub fn buffers(&self) -> (buffers: &Vec<Vbo>)
        ensures
            buffer_views(buffers@) == self@.buffers,
            self@.configured(),
    {
        proof {
            use_type_invariant(self);
        }
        &self.buffers
    }

    /// Makes this the bound vertex array.
    pub fn bind(&self, ctx: &mut Context)
        ensures
            final(ctx)@ == old(ctx)@.after(CommandView::BindVertexArray { array: self@.handle }),
    {
        ctx.record(Command::BindVertexArray { array: self.handle });
    }

    /// Leaves no vertex array bound.
    pub fn unbind(&self, ctx: &mut Context)
        ensures
            final(ctx)@ == old(ctx)@.after(CommandView::UnbindVertexArray),
    {
        ctx.record(Command::UnbindVertexArray);
    }

    /// Hands the buffer over to the vertex array, which keeps it from now
    /// on. Nothing is bound or unbound by this. The buffer has to have been
    /// described while this vertex array was bound.
    pub fn add_vbo(&mut self, vbo: Vbo)
        requires
            old(self)@.accepts(vbo@),
        ensures
            final(self)@ == (VaoView { buffers: old(self)@.buffers.push(vbo@), ..old(self)@ }),
    {
        proof {
            use_type_invariant(&*self);
            assert(buffer_views(self.buffers@.push(vbo)) =~= buffer_views(self.buffers@).push(
                vbo@,
            ));
            assert(buffer_views(Seq::<Vbo>::empty()) =~= Seq::empty());
        }
        let mut buffers: Vec<Vbo> = Vec::new();
        std::mem::swap(&mut self.buffers, &mut buffers);
        buffers.push(vbo);
        self.buffers = buffers;
    }

    /// Whether a draw call of `count` vertices finds every vertex in every
    /// buffer of the vertex array.
    pub fn ready_for(&self, count: i32) -> (ready: bool)
        ensures
            ready == self@.ready_for(count),
    {
        let mut i: usize = 0;
        while i < self.buffers.len()
            invariant
                i <= self.buffers.len(),
                forall|j: int| 0 <= j < i ==> (#[trigger] self@.buffers[j]).ready_for(count),
            decreases self.buffers.len() - i,
        {
            if !self.buffers[i].ready_for(count) {
                assert(!self@.buffers[i as int].ready_for(count));
                return false;
            }
            i += 1;
        }
        true
    }
}

} // verus!
