//! The resource binder: the vertex buffer and the bind group that the pass
//! binds, prepared when the resources behind them change and read by the pass
//! from a shared slot.

use vstd::prelude::*;
use crate::cache::PipelineId;
use crate::vertex::{coordinate_words, is_memory_image, triangle, triangle_vertices, vertex_bytes, Vertex};

verus! {

/// What a buffer is used for on the device.
#[derive(Clone, Copy, Debug, PartialEq, Eq, Structural)]
pub enum BufferUsage {
    Vertex,
    Index,
    Uniform,
}

/// A buffer to be created on the device with its contents.
#[derive(Clone, Debug, PartialEq, Eq)]
pub struct VertexBuffer {
    pub contents: Vec<u8>,
    pub usage: BufferUsage,
    /// Number of vertices that the contents hold.
    pub vertex_count: u32,
}

impl VertexBuffer {
    /// The buffer is a vertex buffer whose contents are the memory image of
    /// the coordinates of `vertices`.
    pub open spec fn holds(&self, vertices: Seq<Vertex>) -> bool {
        &&& self.usage == BufferUsage::Vertex
        &&& self.vertex_count == vertices.len()
        &&& is_memory_image(self.contents@, coordinate_words(vertices))
    }
}

/// The resources that a bind group binds, by count. The pass binds none.
#[derive(Clone, Copy, Debug, PartialEq, Eq, Structural)]
pub struct BindGroupLayout {
    pub entry_count: u32,
}

/// A bind group: resources bound against a layout, for one pipeline.
#[derive(Clone, Copy, Debug, PartialEq, Eq, Structural)]
pub struct BindGroup {
    pub layout: BindGroupLayout,
    pub pipeline: PipelineId,
}

/// What the pass binds each frame.
#[derive(Clone, Debug, PartialEq, Eq)]
pub struct Bindings {
    pub vertex_buffer: VertexBuffer,
    pub bind_group: BindGroup,
}

impl Bindings {
    /// The bindings of the triangle for the given pipeline: the vertex buffer
    /// holds the triangle, and the bind group binds nothing.
    pub open spec fn for_triangle(&self, pipeline: PipelineId) -> bool {
        &&& self.vertex_buffer.holds(triangle())
        &&& self.bind_group == BindGroup { layout: empty_layout(), pipeline }
    }
}

/// The layout without entries.
pub open spec fn empty_layout() -> BindGroupLayout {
    BindGroupLayout { entry_count: 0 }
}

/// The layout of the pass's bind group, which has no entries.
pub fn empty_bind_group_layout() -> (layout: BindGroupLayout)
    ensures
        layout == empty_layout(),
{
    BindGroupLayout { entry_count: 0 }
}

/// The vertex buffer of the triangle: three vertices of eight bytes each.
pub fn triangle_vertex_buffer() -> (buffer: VertexBuffer)
    ensures
        buffer.holds(triangle()),
        buffer.vertex_count == 3,
        buffer.contents@.len() == 24,
{
    let vertices = triangle_vertices();
    let contents = vertex_bytes(&vertices);
    VertexBuffer { contents, usage: BufferUsage::Vertex, vertex_count: 3 }
}

/// The slot through which the pass reads its bindings.
pub struct ResourceBinder {
    slot: Option<Bindings>,
}

impl ResourceBinder {
    /// What the slot holds.
    pub closed spec fn slot(&self) -> Option<Bindings> {
        self.slot
    }

    /// A binder whose slot is empty.
    pub fn new() -> (binder: ResourceBinder)
        ensures
            binder.slot() is None,
    {
        ResourceBinder { slot: None }
    }

    /// Prepares the bindings if they are missing or the resources behind them
    /// have changed, and leaves the slot alone otherwise. Returns whether new
    /// bindings were prepared, which then have to be created on the device.
    pub fn prepare(&mut self, pipeline: PipelineId, changed: bool) -> (prepared: bool)
        ensures
            prepared == (changed || old(self).slot() is None),
            !prepared ==> final(self).slot() == old(self).slot(),
            prepared ==> final(self).slot() is Some && final(self).slot()->0.for_triangle(
                pipeline,
            ),
    {
        if changed || self.slot.is_none() {
            let vertex_buffer = triangle_vertex_buffer();
            let bind_group = BindGroup { layout: empty_bind_group_layout(), pipeline };
            self.slot = Some(Bindings { vertex_buffer, bind_group });
            true
        } else {
            false
        }
    }

    /// The bindings in the slot, if they were prepared.
    pub fn bindings(&self) -> (bindings: Option<&Bindings>)
        ensures
            match bindings {
                Some(b) => self.slot() == Some(*b),
                None => self.slot() is None,
            },
    {
        self.slot.as_ref()
    }
}

} // verus!
