use vstd::prelude::*;

use crate::composite::{composite_params, grid_rows, is_grid_cols, CompositeMode, CompositeParams};
use crate::gbuffer::{check_extent, Frame, GBuffer, GBufferDesc, GBufferError};
use crate::gpu::{extent_fits, DeviceLimits, GpuDevice};
use crate::schedule::{
    action_for, draw_capacity, draw_capacity_spec, layer_len, oversized, resize_step,
    resize_step_spec, FrameError, LayerAction, LayerTracker, ResizeStep,
};
use crate::LAYERS;

verus! {

/// What a frame records: the extent it renders at, each layer's geometry
/// action in layer order, then one composite with these parameters.
pub struct FramePlan {
    pub frame: Frame,
    pub layers: Vec<LayerAction>,
    pub composite: CompositeParams,
}

/// The state of the render targets: the GBuffer's description, and for each
/// layer whether its slice holds content.
pub struct TargetsView {
    pub gbuffer: GBufferDesc,
    pub content: Seq<bool>,
}

/// The targets as made anew at `width` x `height`: every slice transparent.
pub open spec fn fresh_targets(width: u32, height: u32) -> TargetsView {
    TargetsView {
        gbuffer: GBufferDesc::sized(width, height, LAYERS),
        content: Seq::new(LAYERS as nat, |i: int| false),
    }
}

/// The targets after a resize request that the device's limits accept, or
/// unchanged where the request is ignored or refused.
pub open spec fn resized(
    t: TargetsView,
    limits: DeviceLimits,
    width: u32,
    height: u32,
) -> TargetsView {
    if resize_step_spec(limits, width, height, LAYERS) == ResizeStep::Recreate {
        fresh_targets(width, height)
    } else {
        t
    }
}

/// The render targets that the orchestrator owns: the GBuffer, sized to the
/// surface and made anew on each resize, and which of its slices hold content.
pub struct RenderTargets {
    device: GpuDevice,
    gbuffer: GBuffer,
    tracker: LayerTracker,
}

impl View for RenderTargets {
    type V = TargetsView;

    closed spec fn view(&self) -> TargetsView {
        TargetsView { gbuffer: self.gbuffer@, content: self.tracker@ }
    }
}

impl RenderTargets {
    /// The GBuffer has `LAYERS` slices within the device's limits, and one
    /// content flag per slice.
    pub closed spec fn wf(&self) -> bool {
        &&& self.gbuffer.wf()
        &&& self.gbuffer@.layers == LAYERS
        &&& self.tracker@.len() == LAYERS
        &&& extent_fits(self.device.limits(), self.gbuffer@.width, self.gbuffer@.height, LAYERS)
    }

    /// The limits of the device that the targets live on.
    pub closed spec fn limits(&self) -> DeviceLimits {
        self.device.limits()
    }

    /// Makes the targets on `device` at `width` x `height`.
    pub fn new(device: GpuDevice, width: u32, height: u32) -> (r: Result<
        RenderTargets,
        GBufferError,
    >)
        ensures
            r is Ok <==> extent_fits(device.limits(), width, height, LAYERS),
            r matches Ok(t) ==> t.wf() && t@ == fresh_targets(width, height) && t.limits()
                == device.limits(),
            r == Err::<RenderTargets, _>(GBufferError::ZeroExtent) <==> (width == 0 || height
                == 0),
    {
        let limits = device.device_limits();
        match check_extent(&limits, width, height, LAYERS) {
            Err(e) => Err(e),
            Ok(()) => {
                let gbuffer = GBuffer::new_within(&device, width, height, LAYERS);
                let tracker = LayerTracker::new(LAYERS);
                Ok(RenderTargets { device, gbuffer, tracker })
            },
        }
    }

    /// Handles a resize of the surface to `width` x `height`: a zero side is
    /// ignored (`Ok(false)`), a size over the device's limits is refused, and
    /// otherwise the GBuffer is made anew at that size (`Ok(true)`), after
    /// which the surface is to be reconfigured and the passes rebuilt.
    pub fn resize(&mut self, width: u32, height: u32) -> (r: Result<bool, GBufferError>)
        requires
            old(self).wf(),
        ensures
            final(self).wf(),
            final(self).limits() == old(self).limits(),
            final(self)@ == resized(old(self)@, old(self).limits(), width, height),
            r == match resize_step_spec(old(self).limits(), width, height, LAYERS) {
                ResizeStep::Ignore => Ok::<bool, GBufferError>(false),
                ResizeStep::Recreate => Ok(true),
                ResizeStep::Reject => Err(GBufferError::ExceedsDeviceLimits),
            },
    {
        match self.resize_step(width, height) {
            ResizeStep::Ignore => Ok(false),
            ResizeStep::Reject => Err(GBufferError::ExceedsDeviceLimits),
            ResizeStep::Recreate => {
                self.gbuffer = GBuffer::new_within(&self.device, width, height, LAYERS);
                self.tracker.reset();
                Ok(true)
            },
        }
    }

    /// What a resize to `width` x `height` would lead to, decided before any
    /// resource changes (so the surface can be reconfigured first).
    pub fn resize_step(&self, width: u32, height: u32) -> (r: ResizeStep)
        ensures
            r == resize_step_spec(self.limits(), width, height, LAYERS),
    {
        let limits = self.device.device_limits();
        resize_step(&limits, width, height, LAYERS)
    }

    /// The GBuffer that the passes of a frame read and write.
    pub fn gbuffer(&self) -> (g: &GBuffer)
        ensures
            g@ == self@.gbuffer,
            self.wf() ==> g.wf(),
    {
        &self.gbuffer
    }

    /// The largest number of objects that one layer can draw in a frame.
    pub fn draw_capacity(&self) -> (r: u64)
        ensures
            r == draw_capacity_spec(self.limits()),
    {
        let limits = self.device.device_limits();
        draw_capacity(&limits)
    }

    /// Plans a frame of the given per-layer object lists, presented in `mode`:
    /// each layer with objects is drawn, each empty one is cleared if it still
    /// holds content and skipped otherwise; lists past `LAYERS` are ignored.
    /// Fails, changing nothing, where a layer has more objects than one draw
    /// can take.
    pub fn plan_frame<T>(&mut self, objects: &Vec<Vec<T>>, mode: CompositeMode) -> (r: Result<
        FramePlan,
        FrameError,
    >)
        requires
            old(self).wf(),
        ensures
            final(self).wf(),
            final(self).limits() == old(self).limits(),
            final(self)@.gbuffer == old(self)@.gbuffer,
            r is Ok <==> forall|i: int|
                0 <= i < LAYERS ==> !oversized(
                    objects@,
                    draw_capacity_spec(old(self).limits()),
                    i,
                ),
            r matches Ok(p) ==> {
                &&& p.frame.size[0] == old(self)@.gbuffer.width
                &&& p.frame.size[1] == old(self)@.gbuffer.height
                &&& p.layers@.len() == LAYERS
                &&& forall|i: int|
                    0 <= i < LAYERS ==> p.layers@[i] == action_for(
                        old(self)@.content[i],
                        layer_len(objects@, i),
                    )
                &&& final(self)@.content == Seq::new(
                    LAYERS as nat,
                    |i: int| layer_len(objects@, i) > 0,
                )
                &&& p.composite.mode == mode.code_spec()
                &&& p.composite.layers == LAYERS
                &&& is_grid_cols(p.composite.grid[0] as int, LAYERS as int)
                &&& p.composite.grid[1] == grid_rows(LAYERS as int, p.composite.grid[0] as int)
            },
            r matches Err(FrameError::LayerTooLarge { layer }) ==> {
                &&& layer < LAYERS
                &&& oversized(objects@, draw_capacity_spec(old(self).limits()), layer as int)
                &&& forall|j: int|
                    0 <= j < layer ==> !oversized(
                        objects@,
                        draw_capacity_spec(old(self).limits()),
                        j,
                    )
                &&& final(self)@ == old(self)@
            },
    {
        let capacity = self.draw_capacity();
        match self.tracker.plan(objects, capacity) {
            Err(e) => Err(e),
            Ok(layers) => Ok(
                FramePlan {
                    frame: self.gbuffer.frame(),
                    layers,
                    composite: composite_params(mode, LAYERS),
                },
            ),
        }
    }
}

/// After a resize to a non-zero size that the device accepts, the GBuffer has
/// exactly that size, and so does every frame planned until the next resize.
pub proof fn lemma_resize_sets_extent(t: TargetsView, limits: DeviceLimits, width: u32, height: u32)
    requires
        width > 0,
        height > 0,
        extent_fits(limits, width, height, LAYERS),
    ensures
        resized(t, limits, width, height).gbuffer.width == width,
        resized(t, limits, width, height).gbuffer.height == height,
        resized(t, limits, width, height).gbuffer.layers == LAYERS,
{
}

/// Resizing to one size, then to another, then back to the first leaves the
/// targets as they are when made from scratch at the first size: the same
/// size, layer count and formats, and every slice transparent.
pub proof fn lemma_resize_round_trip(
    t: TargetsView,
    limits: DeviceLimits,
    w1: u32,
    h1: u32,
    w2: u32,
    h2: u32,
)
    requires
        w1 > 0,
        h1 > 0,
        extent_fits(limits, w1, h1, LAYERS),
    ensures
        resized(resized(resized(t, limits, w1, h1), limits, w2, h2), limits, w1, h1)
            == fresh_targets(w1, h1),
{
}

} // verus!
