use vstd::prelude::*;

verus! {

#[verifier::external_type_specification]
#[verifier::external_body]
pub struct ExDevice(wgpu::Device);

#[verifier::external_type_specification]
#[verifier::external_body]
pub struct ExTexture(wgpu::Texture);

#[verifier::external_type_specification]
#[verifier::external_body]
pub struct ExTextureView(wgpu::TextureView);

/// Bit of wgpu's texture usage flags: the texture can be a render-pass attachment.
pub const USAGE_RENDER_ATTACHMENT: u32 = 16;

/// Bit of wgpu's texture usage flags: the texture can be bound for sampling.
pub const USAGE_TEXTURE_BINDING: u32 = 4;

/// Pixel formats of the GBuffer's targets.
#[derive(Debug, Clone, Copy, PartialEq, Eq)]
pub enum PixelFormat {
    /// Linear unsigned-normalized 8-bit RGBA.
    Rgba8Unorm,
    /// 24-bit depth.
    Depth24Plus,
}

/// The shape of a texture view.
#[derive(Debug, Clone, Copy, PartialEq, Eq)]
pub enum ViewDimension {
    /// A single 2D slice.
    D2,
    /// Several slices, indexed in the shader.
    D2Array,
}

/// Which array slices of a layered texture a view covers, and how.
#[derive(Debug, Clone, Copy, PartialEq, Eq)]
pub struct ViewRange {
    pub dimension: ViewDimension,
    pub base_layer: u32,
    pub layer_count: u32,
}

/// The limits of a device that decide whether a resource can be made.
#[derive(Debug, Clone, Copy, PartialEq, Eq)]
pub struct DeviceLimits {
    pub max_texture_dimension_2d: u32,
    pub max_texture_array_layers: u32,
    pub max_storage_buffer_binding_size: u32,
    pub max_buffer_size: u64,
}

/// A 2D array texture as it was made: extent, mip and sample counts, format
/// and usage flags.
#[derive(Debug, Clone, Copy, PartialEq, Eq)]
pub struct TextureDesc {
    pub width: u32,
    pub height: u32,
    pub layers: u32,
    pub mip_level_count: u32,
    pub sample_count: u32,
    pub format: PixelFormat,
    pub usage: u32,
}

/// A view as it was made: the texture it shows and the slices it covers.
#[derive(Debug, Clone, Copy, PartialEq, Eq)]
pub struct ViewDesc {
    pub texture: TextureDesc,
    pub range: ViewRange,
}

/// Whether a `layers`-deep array texture of `width` x `height` fits the limits.
pub open spec fn extent_fits(limits: DeviceLimits, width: u32, height: u32, layers: u32) -> bool {
    &&& 0 < width <= limits.max_texture_dimension_2d
    &&& 0 < height <= limits.max_texture_dimension_2d
    &&& 0 < layers <= limits.max_texture_array_layers
}

/// A device together with the limits that it validates resources against.
/// Only `open_device` makes one, so the two always belong together.
pub struct GpuDevice {
    device: wgpu::Device,
    limits: DeviceLimits,
}

/// A 2D array texture together with its description. Only
/// `create_array_texture` makes one, so the two always belong together.
pub struct ArrayTexture {
    texture: wgpu::Texture,
    desc: TextureDesc,
}

/// A view of a 2D array texture together with its description. Only
/// `create_array_view` makes one, so the two always belong together.
pub struct SliceView {
    view: wgpu::TextureView,
    desc: ViewDesc,
}

impl View for ArrayTexture {
    type V = TextureDesc;

    closed spec fn view(&self) -> TextureDesc {
        self.desc
    }
}

impl View for SliceView {
    type V = ViewDesc;

    closed spec fn view(&self) -> ViewDesc {
        self.desc
    }
}

/// Relies on wgpu::Device::limits: the limits that this device validates
/// every resource it makes against.
#[verifier::external_body]
fn open_device(device: wgpu::Device) -> (r: GpuDevice) {
    let l = device.limits();
    GpuDevice {
        limits: DeviceLimits {
            max_texture_dimension_2d: l.max_texture_dimension_2d,
            max_texture_array_layers: l.max_texture_array_layers,
            max_storage_buffer_binding_size: l.max_storage_buffer_binding_size,
            max_buffer_size: l.max_buffer_size,
        },
        device,
    }
}

/// Relies on wgpu::Device's Clone: another handle to the same device.
#[verifier::external_body]
fn device_handle(device: &wgpu::Device) -> (r: wgpu::Device) {
    device.clone()
}

/// Relies on wgpu::Device::create_texture: a 2D array texture as `desc`
/// describes it, which wgpu validates without error (and so without panic)
/// when each side and the layer count are non-zero and within the device's
/// limits, with one mip level, one sample and usage flags that both formats
/// allow. A lost device or exhausted device memory is reported through
/// wgpu's error handler, which nothing here rules out.
#[verifier::external_body]
pub(crate) fn create_array_texture(device: &GpuDevice, desc: &TextureDesc) -> (t: ArrayTexture)
    requires
        extent_fits(device.limits(), desc.width, desc.height, desc.layers),
        desc.mip_level_count == 1,
        desc.sample_count == 1,
        desc.usage == USAGE_RENDER_ATTACHMENT | USAGE_TEXTURE_BINDING,
    ensures
        t@ == *desc,
{
    let size = wgpu::Extent3d { width: desc.width, height: desc.height, depth_or_array_layers: desc.layers };
    let format = match desc.format {
        PixelFormat::Rgba8Unorm => wgpu::TextureFormat::Rgba8Unorm,
        PixelFormat::Depth24Plus => wgpu::TextureFormat::Depth24Plus,
    };
    let usage = wgpu::TextureUsages::from_bits_truncate(desc.usage);
    let texture = device.device.create_texture(&wgpu::TextureDescriptor {
        label: None, size, mip_level_count: desc.mip_level_count, sample_count: desc.sample_count,
        dimension: wgpu::TextureDimension::D2, format, usage, view_formats: &[],
    });
    ArrayTexture { texture, desc: *desc }
}

/// Relies on wgpu::Texture::create_view: a view of the slices in `range`,
/// which wgpu accepts when they lie within the texture's slices and a 2D
/// view covers exactly one slice.
#[verifier::external_body]
pub(crate) fn create_array_view(texture: &ArrayTexture, range: ViewRange) -> (v: SliceView)
    requires
        range.layer_count >= 1,
        range.base_layer + range.layer_count <= texture@.layers,
        range.dimension == ViewDimension::D2 ==> range.layer_count == 1,
    ensures
        v@ == (ViewDesc { texture: texture@, range }),
{
    let view = texture.texture.create_view(&wgpu::TextureViewDescriptor {
        dimension: Some(
            match range.dimension {
                ViewDimension::D2 => wgpu::TextureViewDimension::D2,
                ViewDimension::D2Array => wgpu::TextureViewDimension::D2Array,
            },
        ),
        base_array_layer: range.base_layer,
        array_layer_count: Some(range.layer_count),
        ..Default::default()
    });
    SliceView { view, desc: ViewDesc { texture: texture.desc, range } }
}

impl GpuDevice {
    /// The limits of the device.
    pub closed spec fn limits(&self) -> DeviceLimits {
        self.limits
    }

    /// Takes a handle to `device` and reads its limits.
    pub fn new(device: &wgpu::Device) -> (r: GpuDevice) {
        open_device(device_handle(device))
    }

    /// The limits of the device.
    pub fn device_limits(&self) -> (r: DeviceLimits)
        ensures
            r == self.limits(),
    {
        self.limits
    }
}

impl SliceView {
    /// The wgpu view, for binding or attaching in a render pass.
    pub fn texture_view(&self) -> (r: &wgpu::TextureView) {
        &self.view
    }
}

} // verus!
