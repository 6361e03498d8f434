//! The commands of the render pass that draws the vertex buffer.
//!
//! Each frame the pass is opened on the frame's colour target, which is cleared
//! to opaque black and stored; the vertex buffer, the bind group and the
//! pipeline are bound; one non-indexed draw is issued; the pass is closed.

use vstd::prelude::*;
use crate::bits::{ONE_BITS, ZERO_BITS};

verus! {

/// Label under which the pass is opened.
pub const PASS_LABEL: &'static str = "my_render_pass";

/// Slot that the vertex buffer is bound to.
pub const VERTEX_BUFFER_SLOT: u32 = 0;

/// Index that the bind group is bound at.
pub const BIND_GROUP_INDEX: u32 = 0;

/// Number of instances that the pass draws.
pub const INSTANCE_COUNT: u32 = 1;

/// A colour of four channels, each the binary32 encoding of its value.
#[derive(Clone, Copy, Debug, PartialEq, Eq, Structural)]
pub struct Color {
    pub r: u32,
    pub g: u32,
    pub b: u32,
    pub a: u32,
}

/// Opaque black: no red, green or blue, full alpha.
pub open spec fn opaque_black() -> Color {
    Color { r: ZERO_BITS, g: ZERO_BITS, b: ZERO_BITS, a: ONE_BITS }
}

/// What happens to the colour target when the pass opens.
#[derive(Clone, Copy, Debug, PartialEq, Eq, Structural)]
pub enum LoadOp {
    /// The target is filled with the colour.
    Clear(Color),
    /// The target keeps what it holds.
    Load,
}

/// One command of a render pass.
#[derive(Clone, Copy, Debug, PartialEq, Eq, Structural)]
pub enum PassCommand {
    /// Opens the pass on the frame's colour target.
    Begin { load: LoadOp, store: bool },
    /// Binds the whole vertex buffer to a slot.
    SetVertexBuffer { slot: u32 },
    /// Binds the bind group, without dynamic offsets.
    SetBindGroup { index: u32 },
    /// Binds the pipeline.
    SetPipeline,
    /// Draws `vertex_count` vertices from `first_vertex` on, for
    /// `instance_count` instances from `first_instance` on, without an index
    /// buffer.
    Draw { first_vertex: u32, vertex_count: u32, first_instance: u32, instance_count: u32 },
    /// Closes the pass.
    End,
}

/// The command that opens the pass: clear to opaque black, keep the result.
pub open spec fn begin_command() -> PassCommand {
    PassCommand::Begin { load: LoadOp::Clear(opaque_black()), store: true }
}

/// The one draw of the pass: every vertex of the buffer, one instance.
pub open spec fn draw_command(vertex_count: u32) -> PassCommand {
    PassCommand::Draw {
        first_vertex: 0,
        vertex_count,
        first_instance: 0,
        instance_count: INSTANCE_COUNT,
    }
}

/// The commands of the pass for a vertex buffer of `vertex_count` vertices,
/// in the order in which they are recorded.
pub open spec fn pass_commands(vertex_count: u32) -> Seq<PassCommand> {
    seq![
        begin_command(),
        PassCommand::SetVertexBuffer { slot: VERTEX_BUFFER_SLOT },
        PassCommand::SetBindGroup { index: BIND_GROUP_INDEX },
        PassCommand::SetPipeline,
        draw_command(vertex_count),
        PassCommand::End,
    ]
}

/// Records the pass for a vertex buffer of `vertex_count` vertices.
pub fn record_pass(vertex_count: u32) -> (commands: Vec<PassCommand>)
    ensures
        commands@ == pass_commands(vertex_count),
{
    let black = Color { r: ZERO_BITS, g: ZERO_BITS, b: ZERO_BITS, a: ONE_BITS };
    let mut commands: Vec<PassCommand> = Vec::new();
    commands.push(PassCommand::Begin { load: LoadOp::Clear(black), store: true });
    commands.push(PassCommand::SetVertexBuffer { slot: VERTEX_BUFFER_SLOT });
    commands.push(PassCommand::SetBindGroup { index: BIND_GROUP_INDEX });
    commands.push(PassCommand::SetPipeline);
    commands.push(
        PassCommand::Draw {
            first_vertex: 0,
            vertex_count,
            first_instance: 0,
            instance_count: INSTANCE_COUNT,
        },
    );
    commands.push(PassCommand::End);
    commands
}

/// The pass issues exactly one draw, and for a buffer of three vertices that
/// draw asks for three vertices and one instance, both counted from zero.
pub proof fn lemma_single_draw(vertex_count: u32)
    ensures
        forall|i: int|
            0 <= i < pass_commands(vertex_count).len() ==> ((#[trigger] pass_commands(
                vertex_count,
            )[i]) is Draw <==> i == 4),
        pass_commands(vertex_count)[4] == draw_command(vertex_count),
        vertex_count == 3 ==> pass_commands(vertex_count)[4] == (PassCommand::Draw {
            first_vertex: 0,
            vertex_count: 3,
            first_instance: 0,
            instance_count: 1,
        }),
{
}

/// The pass opens exactly once, as its first command, and always clears the
/// target to opaque black and stores what is drawn.
pub proof fn lemma_clears_to_opaque_black(vertex_count: u32)
    ensures
        forall|i: int|
            0 <= i < pass_commands(vertex_count).len() ==> ((#[trigger] pass_commands(
                vertex_count,
            )[i]) is Begin <==> i == 0),
        pass_commands(vertex_count)[0] == (PassCommand::Begin {
            load: LoadOp::Clear(Color { r: 0, g: 0, b: 0, a: 0x3F80_0000 }),
            store: true,
        }),
{
}

/// Everything the pass binds is bound before the draw, and the pass is closed
/// by its last command.
pub proof fn lemma_pass_is_bracketed(vertex_count: u32)
    ensures
        pass_commands(vertex_count).len() == 6,
        pass_commands(vertex_count).first() is Begin,
        pass_commands(vertex_count).last() is End,
        forall|i: int|
            0 < i < 5 ==> !((#[trigger] pass_commands(vertex_count)[i]) is Begin) && !(
            pass_commands(vertex_count)[i] is End),
{
}

} // verus!
