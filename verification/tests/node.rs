use triangle_pass::binder::{Bindings, ResourceBinder};
use triangle_pass::cache::PipelineCache;
use triangle_pass::node::{FrameError, NodeState, RenderNode};
use triangle_pass::pass::{record_pass, PassCommand};
use triangle_pass::pipeline::{triangle_pipeline, PipelineDescriptor, TextureFormat};

fn bindings() -> Bindings {
    let mut cache = PipelineCache::new();
    let id = cache.queue(pipeline());
    let mut binder = ResourceBinder::new();
    binder.prepare(id, false);
    binder.bindings().unwrap().clone()
}

fn pipeline() -> PipelineDescriptor {
    triangle_pipeline(TextureFormat::Rgba8UnormSrgb)
}

fn ready_node(view_targets: usize) -> RenderNode {
    let mut node = RenderNode::new();
    node.update(view_targets);
    node
}

#[test]
fn new_node_is_uninitialized() {
    let node = RenderNode::new();
    assert_eq!(node.state(), NodeState::Uninitialized);
    assert_eq!(node.view_targets(), 0);
}

#[test]
fn first_update_makes_the_node_ready() {
    let mut node = RenderNode::new();
    node.update(1);
    assert_eq!(node.state(), NodeState::Ready);
    assert_eq!(node.view_targets(), 1);
    node.update(2);
    assert_eq!(node.state(), NodeState::Ready);
    assert_eq!(node.view_targets(), 2);
}

#[test]
fn frame_goes_from_ready_to_executing_and_back() {
    let mut node = ready_node(1);
    let commands = node.begin_frame(Some(&bindings()), Some(&pipeline()));
    assert_eq!(commands, Ok(record_pass(3)));
    assert_eq!(node.state(), NodeState::Executing);
    assert!(node.end_frame());
    assert_eq!(node.state(), NodeState::Ready);
    assert_eq!(node.view_targets(), 1);
}

#[test]
fn every_frame_records_the_same_pass() {
    let mut node = ready_node(1);
    let b = bindings();
    let p = pipeline();
    for _ in 0..5 {
        node.update(1);
        let commands = node.begin_frame(Some(&b), Some(&p)).unwrap();
        assert_eq!(
            commands[4],
            PassCommand::Draw {
                first_vertex: 0,
                vertex_count: 3,
                first_instance: 0,
                instance_count: 1,
            }
        );
        assert_eq!(commands, record_pass(3));
        assert!(node.end_frame());
    }
    assert_eq!(node.state(), NodeState::Ready);
}

#[test]
fn draw_follows_the_vertex_count_of_the_bound_buffer() {
    let mut b = bindings();
    b.vertex_buffer.vertex_count = 6;
    let mut node = ready_node(1);
    assert_eq!(node.begin_frame(Some(&b), Some(&pipeline())), Ok(record_pass(6)));
}

#[test]
fn uninitialized_node_aborts_the_frame() {
    let mut node = RenderNode::new();
    assert_eq!(
        node.begin_frame(Some(&bindings()), Some(&pipeline())),
        Err(FrameError::NodeNotReady)
    );
    assert_eq!(node.state(), NodeState::Uninitialized);
}

#[test]
fn executing_node_aborts_a_second_frame() {
    let mut node = ready_node(1);
    assert!(node.begin_frame(Some(&bindings()), Some(&pipeline())).is_ok());
    assert_eq!(
        node.begin_frame(Some(&bindings()), Some(&pipeline())),
        Err(FrameError::NodeNotReady)
    );
    assert_eq!(node.state(), NodeState::Executing);
}

#[test]
fn missing_bindings_abort_the_frame() {
    let mut node = ready_node(1);
    assert_eq!(node.begin_frame(None, Some(&pipeline())), Err(FrameError::MissingBindings));
    assert_eq!(node.state(), NodeState::Ready);
}

#[test]
fn frame_without_a_colour_target_is_aborted() {
    let mut node = ready_node(0);
    assert_eq!(
        node.begin_frame(Some(&bindings()), Some(&pipeline())),
        Err(FrameError::NoViewTarget)
    );
    assert_eq!(node.state(), NodeState::Ready);
}

#[test]
fn frame_with_two_colour_targets_is_aborted() {
    let mut node = ready_node(2);
    assert_eq!(
        node.begin_frame(Some(&bindings()), Some(&pipeline())),
        Err(FrameError::AmbiguousViewTarget)
    );
    let mut many = ready_node(usize::MAX);
    assert_eq!(
        many.begin_frame(Some(&bindings()), Some(&pipeline())),
        Err(FrameError::AmbiguousViewTarget)
    );
}

#[test]
fn unresolved_pipeline_aborts_the_frame() {
    let mut node = ready_node(1);
    assert_eq!(node.begin_frame(Some(&bindings()), None), Err(FrameError::PipelineNotReady));
    assert_eq!(node.state(), NodeState::Ready);
    assert_eq!(node.begin_frame(Some(&bindings()), Some(&pipeline())), Ok(record_pass(3)));
}

#[test]
fn first_failing_condition_is_reported() {
    let mut fresh = RenderNode::new();
    assert_eq!(fresh.begin_frame(None, None), Err(FrameError::NodeNotReady));
    let mut none = ready_node(0);
    assert_eq!(none.begin_frame(None, None), Err(FrameError::MissingBindings));
    assert_eq!(none.begin_frame(Some(&bindings()), None), Err(FrameError::NoViewTarget));
    let mut two = ready_node(2);
    assert_eq!(two.begin_frame(Some(&bindings()), None), Err(FrameError::AmbiguousViewTarget));
}

#[test]
fn end_frame_without_an_open_pass_changes_nothing() {
    let mut fresh = RenderNode::new();
    assert!(!fresh.end_frame());
    assert_eq!(fresh.state(), NodeState::Uninitialized);
    let mut node = ready_node(1);
    assert!(!node.end_frame());
    assert_eq!(node.state(), NodeState::Ready);
}

#[test]
fn update_during_a_frame_keeps_the_node_executing() {
    let mut node = ready_node(1);
    assert!(node.begin_frame(Some(&bindings()), Some(&pipeline())).is_ok());
    node.update(3);
    assert_eq!(node.state(), NodeState::Executing);
    assert_eq!(node.view_targets(), 3);
    assert!(node.end_frame());
    assert_eq!(node.state(), NodeState::Ready);
}
