//! The frame graph node of the pass: what it does each frame, and when.
//!
//! The node starts uninitialized, becomes ready with its first update, and
//! then goes from ready to executing and back once per frame. A frame that
//! cannot run is aborted with an error and leaves the node as it was.

use vstd::prelude::*;
use crate::binder::Bindings;
use crate::cache::PipelineId;
use crate::pass::{pass_commands, record_pass, PassCommand};
use crate::pipeline::PipelineDescriptor;

verus! {

/// Label under which the node is registered in the frame graph.
pub const NODE_LABEL: &'static str = "my_render";

/// Where the node is in its life.
#[derive(Clone, Copy, Debug, PartialEq, Eq, Structural)]
pub enum NodeState {
    /// Created, and not updated yet.
    Uninitialized,
    /// Between frames.
    Ready,
    /// Its pass is recorded and not closed yet.
    Executing,
}

/// Why a frame was aborted.
#[derive(Clone, Copy, Debug, PartialEq, Eq, Structural)]
pub enum FrameError {
    /// The node is uninitialized, or its previous pass is still open.
    NodeNotReady,
    /// The vertex buffer and the bind group were not prepared.
    MissingBindings,
    /// The frame has no colour target.
    NoViewTarget,
    /// The frame has more than one colour target.
    AmbiguousViewTarget,
    /// The pipeline has not been compiled yet.
    PipelineNotReady,
}

/// The state after an update: an uninitialized node becomes ready, any other
/// stays where it is.
pub open spec fn after_update(state: NodeState) -> NodeState {
    match state {
        NodeState::Uninitialized => NodeState::Ready,
        s => s,
    }
}

/// The state after the pass was closed: an executing node becomes ready, any
/// other stays where it is.
pub open spec fn after_end(state: NodeState) -> NodeState {
    match state {
        NodeState::Executing => NodeState::Ready,
        s => s,
    }
}

/// Why a frame cannot run, if it cannot. The conditions are tested in this
/// order, and the first that fails is reported.
pub open spec fn frame_error(
    state: NodeState,
    view_targets: nat,
    has_bindings: bool,
    pipeline_ready: bool,
) -> Option<FrameError> {
    if state != NodeState::Ready {
        Some(FrameError::NodeNotReady)
    } else if !has_bindings {
        Some(FrameError::MissingBindings)
    } else if view_targets == 0 {
        Some(FrameError::NoViewTarget)
    } else if view_targets > 1 {
        Some(FrameError::AmbiguousViewTarget)
    } else if !pipeline_ready {
        Some(FrameError::PipelineNotReady)
    } else {
        None
    }
}

/// The node of the pass in the frame graph.
#[derive(Clone, Copy, Debug)]
pub struct RenderNode {
    state: NodeState,
    view_targets: usize,
}

impl RenderNode {
    /// Where the node is in its life.
    pub closed spec fn spec_state(&self) -> NodeState {
        self.state
    }

    /// Number of colour targets that the last update found.
    pub closed spec fn spec_view_targets(&self) -> usize {
        self.view_targets
    }

    /// A node that was not updated yet.
    pub fn new() -> (node: RenderNode)
        ensures
            node.spec_state() == NodeState::Uninitialized,
            node.spec_view_targets() == 0,
    {
        RenderNode { state: NodeState::Uninitialized, view_targets: 0 }
    }

    /// Where the node is in its life.
    #[verifier::when_used_as_spec(spec_state)]
    pub fn state(&self) -> (state: NodeState)
        ensures
            state == self.spec_state(),
    {
        self.state
    }

    /// Number of colour targets that the last update found.
    #[verifier::when_used_as_spec(spec_view_targets)]
    pub fn view_targets(&self) -> (n: usize)
        ensures
            n == self.spec_view_targets(),
    {
        self.view_targets
    }

    /// Tells the node how many colour targets the coming frame has. The first
    /// update makes the node ready.
    pub fn update(&mut self, view_targets: usize)
        ensures
            final(self).state() == after_update(old(self).state()),
            final(self).view_targets() == view_targets,
    {
        self.view_targets = view_targets;
        if self.state == NodeState::Uninitialized {
            self.state = NodeState::Ready;
        }
    }

    /// Runs the node for one frame. `bindings` is what the binder's slot
    /// holds, `pipeline` what the pipeline's handle resolves to.
    ///
    /// If the frame can run, the node starts executing and the commands of
    /// the pass are returned, with one draw over every vertex of the bound
    /// buffer. If it cannot, the frame is aborted with the reason and the
    /// node stays as it was.
    pub fn begin_frame(
        &mut self,
        bindings: Option<&Bindings>,
        pipeline: Option<&PipelineDescriptor>,
    ) -> (result: Result<Vec<PassCommand>, FrameError>)
        ensures
            final(self).view_targets() == old(self).view_targets(),
            match frame_error(
                old(self).state(),
                old(self).view_targets() as nat,
                bindings is Some,
                pipeline is Some,
            ) {
                Some(e) => result == Err::<Vec<PassCommand>, FrameError>(e) && final(self).state()
                    == old(self).state(),
                None => result is Ok && result->Ok_0@ == pass_commands(
                    bindings->0.vertex_buffer.vertex_count,
                ) && final(self).state() == NodeState::Executing,
            },
    {
        if self.state != NodeState::Ready {
            return Err(FrameError::NodeNotReady);
        }
        let bound = match bindings {
            Some(b) => b,
            None => {
                return Err(FrameError::MissingBindings);
            },
        };
        if self.view_targets == 0 {
            return Err(FrameError::NoViewTarget);
        }
        if self.view_targets > 1 {
            return Err(FrameError::AmbiguousViewTarget);
        }
        if pipeline.is_none() {
            return Err(FrameError::PipelineNotReady);
        }
        self.state = NodeState::Executing;
        Ok(record_pass(bound.vertex_buffer.vertex_count))
    }

    /// Tells the node that its pass was closed. Returns whether a pass was
    /// open.
    pub fn end_frame(&mut self) -> (was_executing: bool)
        ensures
            was_executing == (old(self).state() == NodeState::Executing),
            final(self).state() == after_end(old(self).state()),
            final(self).view_targets() == old(self).view_targets(),
    {
        if self.state == NodeState::Executing {
            self.state = NodeState::Ready;
            true
        } else {
            false
        }
    }
}

/// A frame runs exactly when the node is ready, the bindings are prepared,
/// the frame has one colour target and the pipeline is compiled.
pub proof fn lemma_frame_runs_iff(
    state: NodeState,
    view_targets: nat,
    has_bindings: bool,
    pipeline_ready: bool,
)
    ensures
        frame_error(state, view_targets, has_bindings, pipeline_ready) is None <==> (state
            == NodeState::Ready && has_bindings && view_targets == 1 && pipeline_ready),
{
}

/// Whenever the slot holds the bindings of the triangle, the one draw of the
/// frame asks for exactly three vertices and one instance.
pub proof fn lemma_triangle_frame_draw(bindings: Bindings, pipeline: PipelineId)
    requires
        bindings.for_triangle(pipeline),
    ensures
        pass_commands(bindings.vertex_buffer.vertex_count)[4] == (PassCommand::Draw {
            first_vertex: 0,
            vertex_count: 3,
            first_instance: 0,
            instance_count: 1,
        }),
        forall|i: int|
            0 <= i < 6 && i != 4 ==> !((#[trigger] pass_commands(
                bindings.vertex_buffer.vertex_count,
            )[i]) is Draw),
{
}

/// The life of the node: the first update takes it from uninitialized to
/// ready, later updates change nothing, closing the pass takes it from
/// executing back to ready, and no update or close ever makes it
/// uninitialized or executing.
pub proof fn lemma_node_cycle(state: NodeState)
    ensures
        after_update(NodeState::Uninitialized) == NodeState::Ready,
        after_update(after_update(state)) == after_update(state),
        after_end(NodeState::Executing) == NodeState::Ready,
        after_update(state) != NodeState::Uninitialized,
        after_end(state) != NodeState::Executing,
        after_update(state) == NodeState::Executing ==> state == NodeState::Executing,
        after_end(state) == NodeState::Uninitialized ==> state == NodeState::Uninitialized,
{
}

} // verus!
