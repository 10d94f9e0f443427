use vstd::prelude::*;

use crate::gpu::{extent_fits, DeviceLimits};

verus! {

/// Bytes of one object record in the geometry pass's storage buffer.
pub const OBJECT_STRIDE: u64 = 48;

/// Vertices of the quad that each object instance expands to.
pub const QUAD_VERTICES: u32 = 6;

/// What the geometry pass does with one GBuffer layer in a frame.
#[derive(Debug, Clone, Copy, PartialEq, Eq)]
pub enum LayerAction {
    /// Nothing: the slice holds no content and the layer has no objects.
    Skip,
    /// Clear the slice to transparent without drawing: the layer has no
    /// objects, but the slice still holds what an earlier frame drew.
    Clear,
    /// Upload the layer's objects and draw them in one instanced draw.
    Draw { instances: u32 },
}

/// Why a frame could not be planned.
#[derive(Debug, Clone, Copy, PartialEq, Eq)]
pub enum FrameError {
    /// The objects of `layer` do not fit in one storage buffer binding.
    LayerTooLarge { layer: u32 },
}

/// What a resize request leads to.
#[derive(Debug, Clone, Copy, PartialEq, Eq)]
pub enum ResizeStep {
    /// A zero width or height: nothing changes.
    Ignore,
    /// Reconfigure the surface and make the targets anew at the new size.
    Recreate,
    /// The size is over the device's limits.
    Reject,
}

#[verifier::external_type_specification]
pub struct ExSurfaceError(wgpu::SurfaceError);

/// What a frame does when the surface image cannot be acquired.
#[derive(Debug, Clone, Copy, PartialEq, Eq)]
pub enum AcquireResponse {
    /// The failure is transient (the surface is outdated or lost, or no image
    /// came in time): record nothing and wait for the next resize or frame.
    SkipFrame,
    /// The failure cannot be recovered from.
    Fatal,
}

/// Decides what a frame does when acquiring the surface image fails with `e`.
pub fn acquire_response(e: &wgpu::SurfaceError) -> (r: AcquireResponse)
    ensures
        r == AcquireResponse::Fatal <==> (*e is OutOfMemory || *e is Other),
{
    match e {
        wgpu::SurfaceError::Timeout => AcquireResponse::SkipFrame,
        wgpu::SurfaceError::Outdated => AcquireResponse::SkipFrame,
        wgpu::SurfaceError::Lost => AcquireResponse::SkipFrame,
        wgpu::SurfaceError::OutOfMemory => AcquireResponse::Fatal,
        wgpu::SurfaceError::Other => AcquireResponse::Fatal,
    }
}

/// The number of objects in layer `i` of a frame's object lists (none past the end).
pub open spec fn layer_len<T>(objects: Seq<Vec<T>>, i: int) -> nat {
    if 0 <= i < objects.len() {
        objects[i]@.len()
    } else {
        0
    }
}

/// The action for a layer with `n` objects whose slice holds content or not.
pub open spec fn action_for(had_content: bool, n: nat) -> LayerAction {
    if n > 0 {
        LayerAction::Draw { instances: n as u32 }
    } else if had_content {
        LayerAction::Clear
    } else {
        LayerAction::Skip
    }
}

/// Whether a slice holds content after `action`, given whether it did before.
pub open spec fn content_after(had_content: bool, action: LayerAction) -> bool {
    match action {
        LayerAction::Skip => had_content,
        LayerAction::Clear => false,
        LayerAction::Draw { .. } => true,
    }
}

/// Whether the draw calls of `action` number zero.
pub open spec fn draws_nothing(action: LayerAction) -> bool {
    !(action is Draw)
}

/// Whether layer `i` has more objects than one draw can take.
pub open spec fn oversized<T>(objects: Seq<Vec<T>>, capacity: nat, i: int) -> bool {
    layer_len(objects, i) > capacity
}

/// The resize step for a request of `width` x `height` on `layers` layers.
pub open spec fn resize_step_spec(limits: DeviceLimits, width: u32, height: u32, layers: u32)
    -> ResizeStep {
    if width == 0 || height == 0 {
        ResizeStep::Ignore
    } else if extent_fits(limits, width, height, layers) {
        ResizeStep::Recreate
    } else {
        ResizeStep::Reject
    }
}

/// The largest number of objects that one layer's storage buffer can hold.
pub open spec fn draw_capacity_spec(limits: DeviceLimits) -> nat {
    let binding = limits.max_storage_buffer_binding_size as nat;
    let buffer = limits.max_buffer_size as nat;
    (if binding <= buffer {
        binding
    } else {
        buffer
    }) / (OBJECT_STRIDE as nat)
}

/// Decides what a resize request leads to.
pub fn resize_step(limits: &DeviceLimits, width: u32, height: u32, layers: u32) -> (r:
    ResizeStep)
    ensures
        r == resize_step_spec(*limits, width, height, layers),
{
    if width == 0 || height == 0 {
        ResizeStep::Ignore
    } else if layers > 0 && width <= limits.max_texture_dimension_2d && height
        <= limits.max_texture_dimension_2d && layers <= limits.max_texture_array_layers {
        ResizeStep::Recreate
    } else {
        ResizeStep::Reject
    }
}

/// The largest number of objects that one layer's draw can upload.
pub fn draw_capacity(limits: &DeviceLimits) -> (r: u64)
    ensures
        r == draw_capacity_spec(*limits),
        r <= u32::MAX,
{
    let binding = limits.max_storage_buffer_binding_size as u64;
    let bytes = if binding <= limits.max_buffer_size {
        binding
    } else {
        limits.max_buffer_size
    };
    bytes / OBJECT_STRIDE
}

/// Per-layer record of which GBuffer slices hold content drawn in an earlier
/// frame, from which each frame's layer actions are decided.
pub struct LayerTracker {
    drawn: Vec<bool>,
}

impl View for LayerTracker {
    type V = Seq<bool>;

    closed spec fn view(&self) -> Seq<bool> {
        self.drawn@
    }
}

impl LayerTracker {
    /// A tracker for `layers` freshly made (fully transparent) slices.
    pub fn new(layers: u32) -> (r: LayerTracker)
        ensures
            r@ == Seq::new(layers as nat, |i: int| false),
    {
        let mut drawn: Vec<bool> = Vec::new();
        let mut i: u32 = 0;
        while i < layers
            invariant
                i <= layers,
                drawn@ == Seq::new(i as nat, |j: int| false),
            decreases layers - i,
        {
            drawn.push(false);
            i = i + 1;
            assert(drawn@ =~= Seq::new(i as nat, |j: int| false));
        }
        LayerTracker { drawn }
    }

    /// The number of layers tracked.
    pub fn layers(&self) -> (r: usize)
        ensures
            r == self@.len(),
    {
        self.drawn.len()
    }

    /// Whether slice `layer` holds content.
    pub fn has_content(&self, layer: usize) -> (r: bool)
        requires
            layer < self@.len(),
        ensures
            r == self@[layer as int],
    {
        self.drawn[layer]
    }

    /// Marks every slice transparent, as after the slices were made anew.
    pub fn reset(&mut self)
        ensures
            final(self)@ == Seq::new(old(self)@.len(), |i: int| false),
    {
        let n = self.drawn.len();
        let mut i: usize = 0;
        while i < n
            invariant
                0 <= i <= n,
                n == self.drawn@.len(),
                forall|j: int| 0 <= j < i ==> !self.drawn@[j],
            decreases n - i,
        {
            self.drawn.set(i, false);
            i = i + 1;
        }
        assert(self.drawn@ =~= Seq::new(n as nat, |i: int| false));
    }

    /// Decides each layer's action for a frame with the given per-layer object
    /// lists, where one draw can take at most `capacity` objects. Lists past
    /// the tracked layers are ignored. On success the tracker records which
    /// slices hold content once the actions have run; on failure it is unchanged.
    pub fn plan<T>(&mut self, objects: &Vec<Vec<T>>, capacity: u64) -> (r: Result<
        Vec<LayerAction>,
        FrameError,
    >)
        requires
            capacity <= u32::MAX,
            old(self)@.len() <= u32::MAX,
        ensures
            r is Ok <==> forall|i: int|
                0 <= i < old(self)@.len() ==> !oversized(objects@, capacity as nat, i),
            r matches Ok(actions) ==> {
                &&& actions@.len() == old(self)@.len()
                &&& forall|i: int|
                    0 <= i < actions@.len() ==> actions@[i] == action_for(
                        old(self)@[i],
                        layer_len(objects@, i),
                    )
                &&& final(self)@ == Seq::new(
                    old(self)@.len(),
                    |i: int| layer_len(objects@, i) > 0,
                )
            },
            r matches Err(FrameError::LayerTooLarge { layer }) ==> {
                &&& layer < old(self)@.len()
                &&& oversized(objects@, capacity as nat, layer as int)
                &&& forall|j: int| 0 <= j < layer ==> !oversized(objects@, capacity as nat, j)
                &&& final(self)@ == old(self)@
            },
    {
        let n = self.drawn.len();
        let mut i: usize = 0;
        while i < n
            invariant
                0 <= i <= n,
                n == self.drawn@.len(),
                n <= u32::MAX,
                forall|j: int| 0 <= j < i ==> !oversized(objects@, capacity as nat, j),
            decreases n - i,
        {
            let len = if i < objects.len() {
                objects[i].len()
            } else {
                0
            };
            assert(len == layer_len(objects@, i as int));
            if len as u64 > capacity {
                assert(oversized(objects@, capacity as nat, i as int));
                return Err(FrameError::LayerTooLarge { layer: i as u32 });
            }
            i = i + 1;
        }
        let ghost before = self.drawn@;
        let mut actions: Vec<LayerAction> = Vec::new();
        let mut k: usize = 0;
        while k < n
            invariant
                0 <= k <= n,
                n == self.drawn@.len(),
                before.len() == n,
                capacity <= u32::MAX,
                forall|j: int| 0 <= j < n ==> !oversized(objects@, capacity as nat, j),
                actions@.len() == k,
                forall|j: int|
                    0 <= j < k ==> actions@[j] == action_for(before[j], layer_len(objects@, j)),
                forall|j: int| 0 <= j < k ==> self.drawn@[j] == (layer_len(objects@, j) > 0),
                forall|j: int| k <= j < n ==> self.drawn@[j] == before[j],
            decreases n - k,
        {
            let len = if k < objects.len() {
                objects[k].len()
            } else {
                0
            };
            assert(len == layer_len(objects@, k as int));
            assert(!oversized(objects@, capacity as nat, k as int));
            let action = if len > 0 {
                LayerAction::Draw { instances: len as u32 }
            } else if self.drawn[k] {
                LayerAction::Clear
            } else {
                LayerAction::Skip
            };
            actions.push(action);
            self.drawn.set(k, len > 0);
            k = k + 1;
        }
        assert(self.drawn@ =~= Seq::new(n as nat, |i: int| layer_len(objects@, i) > 0));
        Ok(actions)
    }
}

/// A layer whose list holds objects is drawn, all of them in one instanced
/// draw, whatever its slice held before (an empty list in earlier frames
/// included); a layer whose list is empty makes no draw call, and its slice
/// is fully transparent once the frame's actions have run.
pub proof fn lemma_layer_action(had_content: bool, n: nat)
    requires
        n <= u32::MAX,
    ensures
        n > 0 ==> action_for(had_content, n) == (LayerAction::Draw { instances: n as u32 }),
        n == 0 ==> draws_nothing(action_for(had_content, n)),
        n == 0 ==> !content_after(had_content, action_for(had_content, n)),
        content_after(had_content, action_for(had_content, n)) == (n > 0),
{
}

} // verus!
