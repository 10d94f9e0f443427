use deferred_renderer::gpu::DeviceLimits;
use deferred_renderer::schedule::{
    acquire_response, draw_capacity, resize_step, AcquireResponse, FrameError, LayerAction,
    LayerTracker, ResizeStep, OBJECT_STRIDE,
};
use deferred_renderer::LAYERS;

fn limits() -> DeviceLimits {
    DeviceLimits {
        max_texture_dimension_2d: 8192,
        max_texture_array_layers: 256,
        max_storage_buffer_binding_size: 134_217_728,
        max_buffer_size: 268_435_456,
    }
}

#[test]
fn new_tracker_has_no_content() {
    let t = LayerTracker::new(LAYERS);
    assert_eq!(t.layers(), 4);
    for i in 0..4 {
        assert!(!t.has_content(i));
    }
}

#[test]
fn plan_draws_non_empty_layers_with_their_object_count() {
    let mut t = LayerTracker::new(4);
    let objects: Vec<Vec<u8>> = vec![vec![1], vec![2, 3], vec![], vec![4]];
    let actions = t.plan(&objects, 1000).unwrap();
    assert_eq!(
        actions,
        vec![
            LayerAction::Draw { instances: 1 },
            LayerAction::Draw { instances: 2 },
            LayerAction::Skip,
            LayerAction::Draw { instances: 1 },
        ]
    );
    assert!(t.has_content(0));
    assert!(t.has_content(1));
    assert!(!t.has_content(2));
    assert!(t.has_content(3));
}

#[test]
fn empty_layer_makes_no_draw_call() {
    let mut t = LayerTracker::new(4);
    let objects: Vec<Vec<u8>> = vec![vec![], vec![], vec![], vec![]];
    let actions = t.plan(&objects, 1000).unwrap();
    assert_eq!(actions, vec![LayerAction::Skip; 4]);
}

#[test]
fn layer_populated_later_is_drawn() {
    let mut t = LayerTracker::new(4);
    let first: Vec<Vec<u32>> = vec![vec![7], vec![]];
    let a = t.plan(&first, 1000).unwrap();
    assert_eq!(a[1], LayerAction::Skip);
    let second: Vec<Vec<u32>> = vec![vec![7], vec![8, 9, 10]];
    let b = t.plan(&second, 1000).unwrap();
    assert_eq!(b[1], LayerAction::Draw { instances: 3 });
    assert!(t.has_content(1));
}

#[test]
fn layer_emptied_later_is_cleared_once() {
    let mut t = LayerTracker::new(4);
    let full: Vec<Vec<u8>> = vec![vec![1], vec![2]];
    t.plan(&full, 1000).unwrap();
    let empty: Vec<Vec<u8>> = vec![vec![1]];
    let a = t.plan(&empty, 1000).unwrap();
    assert_eq!(a[0], LayerAction::Draw { instances: 1 });
    assert_eq!(a[1], LayerAction::Clear);
    assert!(!t.has_content(1));
    let b = t.plan(&empty, 1000).unwrap();
    assert_eq!(b[1], LayerAction::Skip);
}

#[test]
fn lists_past_the_layer_count_are_ignored() {
    let mut t = LayerTracker::new(2);
    let objects: Vec<Vec<u8>> = vec![vec![], vec![1], vec![1, 2, 3]];
    let a = t.plan(&objects, 1).unwrap();
    assert_eq!(a, vec![LayerAction::Skip, LayerAction::Draw { instances: 1 }]);
}

#[test]
fn oversized_layer_is_refused_and_changes_nothing() {
    let mut t = LayerTracker::new(4);
    let first: Vec<Vec<u8>> = vec![vec![1]];
    t.plan(&first, 2).unwrap();
    let objects: Vec<Vec<u8>> = vec![vec![], vec![1, 2], vec![1, 2, 3], vec![1, 2, 3, 4]];
    assert_eq!(t.plan(&objects, 2), Err(FrameError::LayerTooLarge { layer: 2 }));
    assert!(t.has_content(0));
    assert!(!t.has_content(1));
}

#[test]
fn reset_marks_all_slices_transparent() {
    let mut t = LayerTracker::new(3);
    let objects: Vec<Vec<u8>> = vec![vec![1], vec![1], vec![1]];
    t.plan(&objects, 10).unwrap();
    t.reset();
    assert_eq!(t.layers(), 3);
    for i in 0..3 {
        assert!(!t.has_content(i));
    }
}

#[test]
fn resize_with_zero_side_is_ignored() {
    assert_eq!(resize_step(&limits(), 0, 600, LAYERS), ResizeStep::Ignore);
    assert_eq!(resize_step(&limits(), 800, 0, LAYERS), ResizeStep::Ignore);
    assert_eq!(resize_step(&limits(), 0, 0, LAYERS), ResizeStep::Ignore);
}

#[test]
fn resize_within_limits_recreates() {
    assert_eq!(resize_step(&limits(), 800, 600, LAYERS), ResizeStep::Recreate);
    assert_eq!(resize_step(&limits(), 8192, 8192, LAYERS), ResizeStep::Recreate);
    assert_eq!(resize_step(&limits(), 1, 1, LAYERS), ResizeStep::Recreate);
}

#[test]
fn resize_over_limits_is_rejected() {
    assert_eq!(resize_step(&limits(), 8193, 600, LAYERS), ResizeStep::Reject);
    assert_eq!(resize_step(&limits(), 800, 8193, LAYERS), ResizeStep::Reject);
    assert_eq!(resize_step(&limits(), 800, 600, 257), ResizeStep::Reject);
}

#[test]
fn draw_capacity_uses_the_smaller_buffer_limit() {
    assert_eq!(OBJECT_STRIDE, 48);
    assert_eq!(draw_capacity(&limits()), 134_217_728 / 48);
    let mut l = limits();
    l.max_buffer_size = 4800;
    assert_eq!(draw_capacity(&l), 100);
    l.max_buffer_size = 4847;
    assert_eq!(draw_capacity(&l), 100);
}

#[test]
fn transient_acquire_failures_skip_the_frame() {
    assert_eq!(acquire_response(&wgpu::SurfaceError::Timeout), AcquireResponse::SkipFrame);
    assert_eq!(acquire_response(&wgpu::SurfaceError::Outdated), AcquireResponse::SkipFrame);
    assert_eq!(acquire_response(&wgpu::SurfaceError::Lost), AcquireResponse::SkipFrame);
}

#[test]
fn other_acquire_failures_are_fatal() {
    assert_eq!(acquire_response(&wgpu::SurfaceError::OutOfMemory), AcquireResponse::Fatal);
    assert_eq!(acquire_response(&wgpu::SurfaceError::Other), AcquireResponse::Fatal);
}
