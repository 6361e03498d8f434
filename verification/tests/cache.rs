use triangle_pass::cache::{PipelineCache, PipelineId};
use triangle_pass::pipeline::{triangle_pipeline, TextureFormat};

fn handles(n: usize) -> Vec<PipelineId> {
    let mut cache = PipelineCache::new();
    (0..n).map(|_| cache.queue(triangle_pipeline(TextureFormat::Rgba8Unorm))).collect()
}

#[test]
fn new_cache_is_empty() {
    let cache = PipelineCache::new();
    assert_eq!(cache.len(), 0);
    assert_eq!(cache.get(handles(1)[0]), None);
}

#[test]
fn handles_count_up_from_zero() {
    let mut cache = PipelineCache::new();
    assert_eq!(cache.queue(triangle_pipeline(TextureFormat::Rgba8UnormSrgb)).index(), 0);
    assert_eq!(cache.queue(triangle_pipeline(TextureFormat::Bgra8UnormSrgb)).index(), 1);
    assert_eq!(cache.queue(triangle_pipeline(TextureFormat::Rgba8UnormSrgb)).index(), 2);
    assert_eq!(cache.len(), 3);
    let other = handles(3);
    assert_eq!(other[2].index(), 2);
    assert_eq!(cache.queue(triangle_pipeline(TextureFormat::Rgba8Unorm)), handles(4)[3]);
}

#[test]
fn queued_pipeline_is_not_ready_yet() {
    let mut cache = PipelineCache::new();
    let id = cache.queue(triangle_pipeline(TextureFormat::Rgba8UnormSrgb));
    assert_eq!(cache.get(id), None);
}

#[test]
fn compiled_pipeline_resolves_to_its_description() {
    let mut cache = PipelineCache::new();
    let id = cache.queue(triangle_pipeline(TextureFormat::Bgra8Unorm));
    assert!(cache.mark_compiled(id));
    assert_eq!(cache.get(id), Some(&triangle_pipeline(TextureFormat::Bgra8Unorm)));
    assert!(cache.mark_compiled(id));
    assert_eq!(cache.get(id), Some(&triangle_pipeline(TextureFormat::Bgra8Unorm)));
    assert_eq!(cache.len(), 1);
}

#[test]
fn compiling_one_pipeline_leaves_the_others() {
    let mut cache = PipelineCache::new();
    let first = cache.queue(triangle_pipeline(TextureFormat::Rgba8Unorm));
    let second = cache.queue(triangle_pipeline(TextureFormat::Bgra8Unorm));
    assert!(cache.mark_compiled(second));
    assert_eq!(cache.get(first), None);
    assert_eq!(cache.get(second).map(|d| d.target.format), Some(TextureFormat::Bgra8Unorm));
    let third = cache.queue(triangle_pipeline(TextureFormat::Rgba8UnormSrgb));
    assert_eq!(cache.get(third), None);
    assert_eq!(cache.get(second).map(|d| d.target.format), Some(TextureFormat::Bgra8Unorm));
}

#[test]
fn unknown_handle_is_not_compiled_and_resolves_to_nothing() {
    let mut cache = PipelineCache::new();
    let id = cache.queue(triangle_pipeline(TextureFormat::Rgba8UnormSrgb));
    let strangers = handles(10);
    for stranger in &strangers[1..] {
        assert!(!cache.mark_compiled(*stranger));
        assert_eq!(cache.get(*stranger), None);
    }
    assert_eq!(cache.get(id), None);
    assert_eq!(cache.len(), 1);
    assert!(cache.mark_compiled(strangers[0]));
    assert!(cache.get(id).is_some());
}

#[test]
fn same_description_queued_twice_gives_equivalent_pipelines() {
    let mut cache = PipelineCache::new();
    let first = cache.queue(triangle_pipeline(TextureFormat::Rgba8UnormSrgb));
    let second = cache.queue(triangle_pipeline(TextureFormat::Rgba8UnormSrgb));
    assert_ne!(first, second);
    assert!(cache.mark_compiled(first));
    assert!(cache.mark_compiled(second));
    let a = cache.get(first).unwrap();
    let b = cache.get(second).unwrap();
    assert!(a.equivalent(b));
    assert_eq!(a.vertex_layout, b.vertex_layout);
    assert_eq!(a.topology, b.topology);
    assert_eq!(a.target.format, b.target.format);
}
