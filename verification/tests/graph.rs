use triangle_pass::graph::{FrameGraph, GraphError, PassEntry};

fn names(labels: &[&str]) -> Vec<String> {
    labels.iter().map(|l| l.to_string()).collect()
}

fn pass(label: &str, after: &[&str], before: &[&str]) -> PassEntry {
    PassEntry { label: label.to_string(), after: names(after), before: names(before) }
}

#[test]
fn new_graph_is_empty() {
    let graph = FrameGraph::new();
    assert_eq!(graph.len(), 0);
    assert_eq!(graph.order(), Vec::<String>::new());
    assert_eq!(graph.position(&"my_render".to_string()), None);
}

#[test]
fn single_pass_is_registered_at_the_front() {
    let mut graph = FrameGraph::new();
    assert_eq!(graph.add_pass(pass("my_render", &[], &[])), Ok(0));
    assert_eq!(graph.len(), 1);
    assert_eq!(graph.order(), names(&["my_render"]));
    assert_eq!(graph.position(&"my_render".to_string()), Some(0));
    assert_eq!(graph.position(&"other".to_string()), None);
}

#[test]
fn passes_without_edges_run_in_the_order_of_registration() {
    let mut graph = FrameGraph::new();
    assert_eq!(graph.add_pass(pass("a", &[], &[])), Ok(0));
    assert_eq!(graph.add_pass(pass("b", &[], &[])), Ok(1));
    assert_eq!(graph.add_pass(pass("c", &[], &[])), Ok(2));
    assert_eq!(graph.order(), names(&["a", "b", "c"]));
}

#[test]
fn pass_that_runs_after_others_goes_to_the_end() {
    let mut graph = FrameGraph::new();
    graph.add_pass(pass("shadow", &[], &[])).unwrap();
    graph.add_pass(pass("main", &["shadow"], &[])).unwrap();
    assert_eq!(graph.add_pass(pass("my_render", &["main", "shadow"], &[])), Ok(2));
    assert_eq!(graph.order(), names(&["shadow", "main", "my_render"]));
}

#[test]
fn pass_that_runs_before_another_goes_directly_before_it() {
    let mut graph = FrameGraph::new();
    graph.add_pass(pass("a", &[], &[])).unwrap();
    graph.add_pass(pass("b", &[], &[])).unwrap();
    graph.add_pass(pass("c", &[], &[])).unwrap();
    assert_eq!(graph.add_pass(pass("my_render", &[], &["b"])), Ok(1));
    assert_eq!(graph.order(), names(&["a", "my_render", "b", "c"]));
    assert_eq!(graph.position(&"b".to_string()), Some(2));
    assert_eq!(graph.add_pass(pass("first", &[], &["c", "a"])), Ok(0));
    assert_eq!(graph.order(), names(&["first", "a", "my_render", "b", "c"]));
}

#[test]
fn pass_between_two_others() {
    let mut graph = FrameGraph::new();
    graph.add_pass(pass("a", &[], &[])).unwrap();
    graph.add_pass(pass("b", &[], &[])).unwrap();
    graph.add_pass(pass("c", &[], &[])).unwrap();
    assert_eq!(graph.add_pass(pass("my_render", &["a"], &["c"])), Ok(2));
    assert_eq!(graph.order(), names(&["a", "b", "my_render", "c"]));
    assert_eq!(graph.add_pass(pass("tight", &["a"], &["b"])), Ok(1));
    assert_eq!(graph.order(), names(&["a", "tight", "b", "my_render", "c"]));
}

#[test]
fn label_cannot_be_registered_twice() {
    let mut graph = FrameGraph::new();
    graph.add_pass(pass("my_render", &[], &[])).unwrap();
    assert_eq!(graph.add_pass(pass("my_render", &[], &[])), Err(GraphError::DuplicateLabel));
    assert_eq!(
        graph.add_pass(pass("my_render", &["missing"], &[])),
        Err(GraphError::DuplicateLabel)
    );
    assert_eq!(graph.order(), names(&["my_render"]));
}

#[test]
fn edge_to_an_unregistered_pass_is_refused() {
    let mut graph = FrameGraph::new();
    graph.add_pass(pass("a", &[], &[])).unwrap();
    assert_eq!(graph.add_pass(pass("b", &["missing"], &[])), Err(GraphError::UnknownPass));
    assert_eq!(graph.add_pass(pass("b", &[], &["missing"])), Err(GraphError::UnknownPass));
    assert_eq!(graph.add_pass(pass("b", &["a", "missing"], &["a"])), Err(GraphError::UnknownPass));
    assert_eq!(graph.add_pass(pass("b", &["b"], &[])), Err(GraphError::UnknownPass));
    assert_eq!(graph.order(), names(&["a"]));
}

#[test]
fn edges_that_contradict_the_order_are_refused() {
    let mut graph = FrameGraph::new();
    graph.add_pass(pass("a", &[], &[])).unwrap();
    graph.add_pass(pass("b", &["a"], &[])).unwrap();
    assert_eq!(graph.add_pass(pass("c", &["b"], &["a"])), Err(GraphError::Cycle));
    assert_eq!(graph.add_pass(pass("c", &["a"], &["a"])), Err(GraphError::Cycle));
    assert_eq!(graph.add_pass(pass("c", &["b"], &["b"])), Err(GraphError::Cycle));
    assert_eq!(graph.order(), names(&["a", "b"]));
    assert_eq!(graph.add_pass(pass("c", &["a"], &["b"])), Ok(1));
    assert_eq!(graph.order(), names(&["a", "c", "b"]));
}

#[test]
fn every_edge_is_honoured_by_the_order() {
    let mut graph = FrameGraph::new();
    let passes = vec![
        pass("prepass", &[], &[]),
        pass("main", &["prepass"], &[]),
        pass("post", &["main"], &[]),
        pass("shadow", &[], &["main"]),
        pass("my_render", &["shadow", "prepass"], &["post"]),
        pass("ui", &["post", "my_render"], &[]),
        pass("early", &[], &["prepass", "shadow"]),
    ];
    for p in &passes {
        assert!(graph.add_pass(p.clone()).is_ok());
    }
    let order = graph.order();
    assert_eq!(order.len(), passes.len());
    let place = |label: &String| order.iter().position(|l| l == label).unwrap();
    for p in &passes {
        assert_eq!(graph.position(&p.label), Some(place(&p.label)));
        for a in &p.after {
            assert!(place(a) < place(&p.label));
        }
        for b in &p.before {
            assert!(place(&p.label) < place(b));
        }
    }
}

#[test]
fn name_repeated_in_an_edge_list_counts_once() {
    let mut graph = FrameGraph::new();
    graph.add_pass(pass("a", &[], &[])).unwrap();
    graph.add_pass(pass("b", &[], &[])).unwrap();
    assert_eq!(graph.add_pass(pass("c", &["a", "a"], &["b", "b"])), Ok(1));
    assert_eq!(graph.order(), names(&["a", "c", "b"]));
}
