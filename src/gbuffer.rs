use vstd::prelude::*;

use crate::gpu::{
    create_array_texture, create_array_view, extent_fits, ArrayTexture, DeviceLimits, GpuDevice,
    PixelFormat, SliceView, TextureDesc, ViewDesc, ViewDimension, ViewRange,
    USAGE_RENDER_ATTACHMENT, USAGE_TEXTURE_BINDING,
};

verus! {

/// The extent of the GBuffer as handed to shader stages.
#[derive(Debug, Clone, Copy, PartialEq, Eq)]
pub struct Frame {
    pub size: [u32; 2],
}

/// Why a GBuffer could not be made.
#[derive(Debug, Clone, Copy, PartialEq, Eq)]
pub enum GBufferError {
    /// The width, the height or the layer count is zero.
    ZeroExtent,
    /// The width, the height or the layer count is over the device's limits.
    ExceedsDeviceLimits,
}

/// What a GBuffer is, apart from its device resources: size, layers and formats.
#[derive(Debug, Clone, Copy, PartialEq, Eq)]
pub struct GBufferDesc {
    pub width: u32,
    pub height: u32,
    pub layers: u32,
    pub format: PixelFormat,
    pub depth_format: PixelFormat,
}

impl GBufferDesc {
    /// The description of a GBuffer of the given size and layer count.
    pub open spec fn sized(width: u32, height: u32, layers: u32) -> GBufferDesc {
        GBufferDesc {
            width,
            height,
            layers,
            format: PixelFormat::Rgba8Unorm,
            depth_format: PixelFormat::Depth24Plus,
        }
    }

    /// The texture that holds the color slices: one mip level, one sample,
    /// usable as attachment and for sampling.
    pub open spec fn color_texture(self) -> TextureDesc {
        TextureDesc {
            width: self.width,
            height: self.height,
            layers: self.layers,
            mip_level_count: 1,
            sample_count: 1,
            format: self.format,
            usage: USAGE_RENDER_ATTACHMENT | USAGE_TEXTURE_BINDING,
        }
    }

    /// The texture that holds the depth slices: as the color texture, in the
    /// depth format.
    pub open spec fn depth_texture(self) -> TextureDesc {
        TextureDesc { format: self.depth_format, ..self.color_texture() }
    }

    fn color_texture_exec(&self) -> (r: TextureDesc)
        ensures
            r == self.color_texture(),
    {
        TextureDesc {
            width: self.width,
            height: self.height,
            layers: self.layers,
            mip_level_count: 1,
            sample_count: 1,
            format: self.format,
            usage: USAGE_RENDER_ATTACHMENT | USAGE_TEXTURE_BINDING,
        }
    }

    fn depth_texture_exec(&self) -> (r: TextureDesc)
        ensures
            r == self.depth_texture(),
    {
        TextureDesc { format: self.depth_format, ..self.color_texture_exec() }
    }
}

/// Checks that a GBuffer of the given extent can be made on a device with `limits`.
pub fn check_extent(limits: &DeviceLimits, width: u32, height: u32, layers: u32) -> (r: Result<
    (),
    GBufferError,
>)
    ensures
        r is Ok <==> extent_fits(*limits, width, height, layers),
        r == Err::<(), _>(GBufferError::ZeroExtent) <==> (width == 0 || height == 0 || layers
            == 0),
{
    if width == 0 || height == 0 || layers == 0 {
        Err(GBufferError::ZeroExtent)
    } else if width > limits.max_texture_dimension_2d || height > limits.max_texture_dimension_2d
        || layers > limits.max_texture_array_layers {
        Err(GBufferError::ExceedsDeviceLimits)
    } else {
        Ok(())
    }
}

/// The view range of one slice of a layered target, for both color and depth.
pub open spec fn layer_view_range_spec(layer: u32) -> ViewRange {
    ViewRange { dimension: ViewDimension::D2, base_layer: layer, layer_count: 1 }
}

/// The view range that spans all `layers` slices of a layered target.
pub open spec fn whole_array_range_spec(layers: u32) -> ViewRange {
    ViewRange { dimension: ViewDimension::D2Array, base_layer: 0, layer_count: layers }
}

/// The view of one slice of a layered target, as used for both color and depth.
pub fn layer_view_range(layer: u32) -> (r: ViewRange)
    ensures
        r == layer_view_range_spec(layer),
{
    ViewRange { dimension: ViewDimension::D2, base_layer: layer, layer_count: 1 }
}

/// The view that spans all `layers` slices of a layered target.
pub fn whole_array_range(layers: u32) -> (r: ViewRange)
    ensures
        r == whole_array_range_spec(layers),
{
    ViewRange { dimension: ViewDimension::D2Array, base_layer: 0, layer_count: layers }
}

/// The layered offscreen targets: a color array texture, shader-readable as a
/// whole, and a depth array texture with the same extent and layer count.
pub struct GBuffer {
    color_texture: ArrayTexture,
    color_view: SliceView,
    depth_texture: ArrayTexture,
    desc: GBufferDesc,
}

impl View for GBuffer {
    type V = GBufferDesc;

    closed spec fn view(&self) -> GBufferDesc {
        self.desc
    }
}

impl GBuffer {
    /// The targets are as their description says: both formats fixed, both
    /// textures of the description's extent and layer count, and the held
    /// view spanning every color slice.
    pub closed spec fn wf(&self) -> bool {
        &&& self.desc == GBufferDesc::sized(self.desc.width, self.desc.height, self.desc.layers)
        &&& self.desc.width > 0
        &&& self.desc.height > 0
        &&& self.desc.layers > 0
        &&& self.color_texture@ == self.desc.color_texture()
        &&& self.depth_texture@ == self.desc.depth_texture()
        &&& self.color_view@ == (ViewDesc {
            texture: self.desc.color_texture(),
            range: whole_array_range_spec(self.desc.layers),
        })
    }

    /// The color array texture as made.
    pub closed spec fn color_texture_desc(&self) -> TextureDesc {
        self.color_texture@
    }

    /// The depth array texture as made.
    pub closed spec fn depth_texture_desc(&self) -> TextureDesc {
        self.depth_texture@
    }

    /// Allocates the targets on `device`: `layers` slices of `width` x `height`.
    /// Fails where a side or the layer count is zero or over the device's limits.
    pub fn new(device: &GpuDevice, width: u32, height: u32, layers: u32) -> (r: Result<
        GBuffer,
        GBufferError,
    >)
        ensures
            r is Ok <==> extent_fits(device.limits(), width, height, layers),
            r matches Ok(g) ==> {
                &&& g.wf()
                &&& g@ == GBufferDesc::sized(width, height, layers)
                &&& g.color_texture_desc() == g@.color_texture()
                &&& g.depth_texture_desc() == g@.depth_texture()
            },
            r == Err::<GBuffer, _>(GBufferError::ZeroExtent) <==> (width == 0 || height == 0
                || layers == 0),
    {
        let limits = device.device_limits();
        match check_extent(&limits, width, height, layers) {
            Err(e) => Err(e),
            Ok(()) => Ok(GBuffer::new_within(device, width, height, layers)),
        }
    }

    /// Allocates the targets, where the extent fits the device's limits.
    pub(crate) fn new_within(device: &GpuDevice, width: u32, height: u32, layers: u32) -> (g:
        GBuffer)
        requires
            extent_fits(device.limits(), width, height, layers),
        ensures
            g.wf(),
            g@ == GBufferDesc::sized(width, height, layers),
    {
        let desc = GBufferDesc {
            width,
            height,
            layers,
            format: PixelFormat::Rgba8Unorm,
            depth_format: PixelFormat::Depth24Plus,
        };
        let color_texture = create_array_texture(device, &desc.color_texture_exec());
        let color_view = create_array_view(&color_texture, whole_array_range(layers));
        let depth_texture = create_array_texture(device, &desc.depth_texture_exec());
        GBuffer { color_texture, color_view, depth_texture, desc }
    }

    /// Size, layer count and formats of the targets.
    pub fn desc(&self) -> (r: GBufferDesc)
        ensures
            r == self@,
    {
        self.desc
    }

    /// The extent record that shader stages read.
    pub fn frame(&self) -> (f: Frame)
        ensures
            f.size[0] == self@.width,
            f.size[1] == self@.height,
    {
        Frame { size: [self.desc.width, self.desc.height] }
    }

    /// A view of color slice `layer`, usable as a render-pass attachment.
    pub fn color_layer_view(&self, layer: u32) -> (v: SliceView)
        requires
            self.wf(),
            layer < self@.layers,
        ensures
            v@ == (ViewDesc { texture: self@.color_texture(), range: layer_view_range_spec(layer) }),
    {
        create_array_view(&self.color_texture, layer_view_range(layer))
    }

    /// A view of depth slice `layer`: the same slice range, over a texture of
    /// the same extent, as the color view of that layer, so the two address
    /// the same pixels.
    pub fn depth_layer_view(&self, layer: u32) -> (v: SliceView)
        requires
            self.wf(),
            layer < self@.layers,
        ensures
            v@ == (ViewDesc { texture: self@.depth_texture(), range: layer_view_range_spec(layer) }),
    {
        create_array_view(&self.depth_texture, layer_view_range(layer))
    }

    /// The view of all color slices, which the composite pass samples by layer index.
    pub fn whole_array_view(&self) -> (v: &SliceView)
        requires
            self.wf(),
        ensures
            v@ == (ViewDesc {
                texture: self@.color_texture(),
                range: whole_array_range_spec(self@.layers),
            }),
    {
        &self.color_view
    }
}

/// The color and depth textures of a GBuffer have the same extent and layer
/// count, and the color and depth views of one layer cover the same slice:
/// the two address the same pixels.
pub proof fn lemma_layer_views_colocated(d: GBufferDesc, layer: u32)
    ensures
        d.color_texture().width == d.depth_texture().width,
        d.color_texture().height == d.depth_texture().height,
        d.color_texture().layers == d.depth_texture().layers,
        (ViewDesc { texture: d.color_texture(), range: layer_view_range_spec(layer) }).range
            == (ViewDesc { texture: d.depth_texture(), range: layer_view_range_spec(layer) }).range,
{
}

} // verus!
