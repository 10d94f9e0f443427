use deferred_renderer::gbuffer::{check_extent, layer_view_range, whole_array_range, GBufferError};
use deferred_renderer::gpu::{
    DeviceLimits, ViewDimension, ViewRange, USAGE_RENDER_ATTACHMENT, USAGE_TEXTURE_BINDING,
};

fn limits() -> DeviceLimits {
    DeviceLimits {
        max_texture_dimension_2d: 2048,
        max_texture_array_layers: 256,
        max_storage_buffer_binding_size: 134_217_728,
        max_buffer_size: 268_435_456,
    }
}

#[test]
fn extent_within_limits_is_accepted() {
    assert_eq!(check_extent(&limits(), 800, 600, 4), Ok(()));
    assert_eq!(check_extent(&limits(), 2048, 2048, 256), Ok(()));
}

#[test]
fn zero_extent_is_refused() {
    assert_eq!(check_extent(&limits(), 0, 600, 4), Err(GBufferError::ZeroExtent));
    assert_eq!(check_extent(&limits(), 800, 0, 4), Err(GBufferError::ZeroExtent));
    assert_eq!(check_extent(&limits(), 800, 600, 0), Err(GBufferError::ZeroExtent));
    assert_eq!(check_extent(&limits(), 9000, 600, 0), Err(GBufferError::ZeroExtent));
}

#[test]
fn extent_over_limits_is_refused() {
    assert_eq!(check_extent(&limits(), 2049, 600, 4), Err(GBufferError::ExceedsDeviceLimits));
    assert_eq!(check_extent(&limits(), 800, 2049, 4), Err(GBufferError::ExceedsDeviceLimits));
    assert_eq!(check_extent(&limits(), 800, 600, 257), Err(GBufferError::ExceedsDeviceLimits));
}

#[test]
fn layer_views_cover_one_slice() {
    assert_eq!(
        layer_view_range(2),
        ViewRange { dimension: ViewDimension::D2, base_layer: 2, layer_count: 1 }
    );
}

#[test]
fn whole_array_view_covers_all_slices() {
    assert_eq!(
        whole_array_range(4),
        ViewRange { dimension: ViewDimension::D2Array, base_layer: 0, layer_count: 4 }
    );
}

#[test]
fn usage_bits_match_wgpu() {
    assert_eq!(USAGE_RENDER_ATTACHMENT, wgpu::TextureUsages::RENDER_ATTACHMENT.bits());
    assert_eq!(USAGE_TEXTURE_BINDING, wgpu::TextureUsages::TEXTURE_BINDING.bits());
}
