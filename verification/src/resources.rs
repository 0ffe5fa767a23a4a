//! Plain descriptions of the device objects a frame slot is made of, and the
//! raw handles under which the device knows them.
use vstd::prelude::*;

verus! {

/// Buffer usage bit: the buffer backs uniform blocks.
pub const BUFFER_USAGE_UNIFORM_BUFFER: u32 = 0x10;

/// Memory property bit: memory local to the device.
pub const MEMORY_PROPERTY_DEVICE_LOCAL: u32 = 0x1;

/// Memory property bit: the host can map the memory.
pub const MEMORY_PROPERTY_HOST_VISIBLE: u32 = 0x2;

/// Memory property bit: host writes are visible to the device without a flush.
pub const MEMORY_PROPERTY_HOST_COHERENT: u32 = 0x4;

/// Image usage bit: source of transfers.
pub const IMAGE_USAGE_TRANSFER_SRC: u32 = 0x1;

/// Image usage bit: destination of transfers.
pub const IMAGE_USAGE_TRANSFER_DST: u32 = 0x2;

/// Image usage bit: sampled by shaders.
pub const IMAGE_USAGE_SAMPLED: u32 = 0x4;

/// Image usage bit: storage image.
pub const IMAGE_USAGE_STORAGE: u32 = 0x8;

/// Image usage bit: colour attachment.
pub const IMAGE_USAGE_COLOR_ATTACHMENT: u32 = 0x10;

/// Image usage bit: depth/stencil attachment.
pub const IMAGE_USAGE_DEPTH_STENCIL_ATTACHMENT: u32 = 0x20;

/// Edge length of a slot's shadow map, whatever the render target measures.
pub const SHADOW_MAP_SIZE: u32 = 2048;

/// Width and height of a render target, in pixels.
#[derive(Clone, Copy, Debug, PartialEq, Eq, Structural)]
pub struct Extent2D {
    pub width: u32,
    pub height: u32,
}

/// The texel formats the slot images use.
#[derive(Clone, Copy, Debug, PartialEq, Eq, Structural)]
pub enum Format {
    /// Four 16-bit floating-point channels.
    R16G16B16A16Sfloat,
    /// Four 16-bit signed normalized channels.
    R16G16B16A16Snorm,
    /// One 32-bit floating-point depth channel.
    D32Sfloat,
}

/// Which aspect of an image its view exposes.
#[derive(Clone, Copy, Debug, PartialEq, Eq, Structural)]
pub enum ImageAspect {
    Color,
    Depth,
}

/// How the texels of an image are laid out in memory.
#[derive(Clone, Copy, Debug, PartialEq, Eq, Structural)]
pub enum ImageTiling {
    Optimal,
    Linear,
}

/// Everything needed to create one two-dimensional image with its view.
#[derive(Clone, Copy, Debug, PartialEq, Eq, Structural)]
pub struct ImageDescription {
    pub width: u32,
    pub height: u32,
    pub format: Format,
    pub aspect: ImageAspect,
    pub tiling: ImageTiling,
    /// Union of `IMAGE_USAGE_*` bits.
    pub usage: u32,
    /// Union of `MEMORY_PROPERTY_*` bits.
    pub memory_properties: u32,
}

/// The five images of a slot.
#[derive(Clone, Copy, Debug, PartialEq, Eq, Structural)]
pub struct SlotImages {
    pub albedo: ImageDescription,
    pub normal: ImageDescription,
    pub depth: ImageDescription,
    pub shadow_map: ImageDescription,
    /// The general draw target.
    pub draw: ImageDescription,
}

/// Everything needed to create one buffer.
#[derive(Clone, Copy, Debug, PartialEq, Eq, Structural)]
pub struct BufferDescription {
    /// Size in bytes.
    pub size: u64,
    /// Union of `BUFFER_USAGE_*` bits.
    pub usage: u32,
    /// Union of `MEMORY_PROPERTY_*` bits.
    pub memory_properties: u32,
}

/// The synchronisation objects of one slot: how many semaphores, and whether
/// the fence starts out signaled.
#[derive(Clone, Copy, Debug, PartialEq, Eq, Structural)]
pub struct SyncDescription {
    pub semaphore_count: u32,
    pub fence_signaled: bool,
}

/// A request for command buffers from the shared pool.
#[derive(Clone, Copy, Debug, PartialEq, Eq, Structural)]
pub struct CommandBufferRequest {
    /// Primary buffers, as opposed to secondary ones.
    pub primary: bool,
    pub count: u32,
}

/// A created buffer: the buffer and the memory bound to it.
#[derive(Clone, Copy, Debug, PartialEq, Eq, Structural)]
pub struct BufferHandles {
    pub buffer: u64,
    pub memory: u64,
}

/// A created image: the image, the memory bound to it and its view.
#[derive(Clone, Copy, Debug, PartialEq, Eq, Structural)]
pub struct AllocatedImage {
    pub image: u64,
    pub memory: u64,
    pub image_view: u64,
}

/// The device objects of one frame slot, by raw handle.
#[derive(Clone, Copy, Debug, PartialEq, Eq, Structural)]
pub struct FrameHandles {
    pub render_semaphore: u64,
    pub swapchain_semaphore: u64,
    pub render_fence: u64,
    pub command_buffer: u64,
    pub camera_mvp_buffer: BufferHandles,
    pub model_dynamic_buffer: BufferHandles,
    pub lighting_buffer: BufferHandles,
    pub descriptor_gbuffer_set: u64,
    pub descriptor_lighting_set: u64,
    pub albedo_image: AllocatedImage,
    pub albedo_sampler: u64,
    pub normal_image: AllocatedImage,
    pub normal_sampler: u64,
    pub depth_image: AllocatedImage,
    pub depth_sampler: u64,
    pub shadow_map_image: AllocatedImage,
    pub shadow_map_sampler: u64,
    pub draw_image: AllocatedImage,
}

/// The two kinds of resource that a slot owns exclusively.
#[derive(Clone, Copy, Debug, PartialEq, Eq, Structural)]
pub enum ResourceKind {
    Buffer,
    Image,
}

/// A buffer or image handle together with its kind. Handles of different
/// kinds may coincide as numbers and still name different objects.
#[derive(Clone, Copy, Debug, PartialEq, Eq, Structural)]
pub struct ResourceHandle {
    pub kind: ResourceKind,
    pub raw: u64,
}

/// Number of exclusively owned resources per slot: three buffers, five images.
pub const RESOURCES_PER_SLOT: usize = 8;

impl FrameHandles {
    /// The slot's three buffers and five images, in the order camera, model,
    /// lighting, albedo, normal, depth, shadow map, draw.
    pub open spec fn resources(self) -> Seq<ResourceHandle> {
        seq![
            ResourceHandle { kind: ResourceKind::Buffer, raw: self.camera_mvp_buffer.buffer },
            ResourceHandle { kind: ResourceKind::Buffer, raw: self.model_dynamic_buffer.buffer },
            ResourceHandle { kind: ResourceKind::Buffer, raw: self.lighting_buffer.buffer },
            ResourceHandle { kind: ResourceKind::Image, raw: self.albedo_image.image },
            ResourceHandle { kind: ResourceKind::Image, raw: self.normal_image.image },
            ResourceHandle { kind: ResourceKind::Image, raw: self.depth_image.image },
            ResourceHandle { kind: ResourceKind::Image, raw: self.shadow_map_image.image },
            ResourceHandle { kind: ResourceKind::Image, raw: self.draw_image.image },
        ]
    }

    /// The handles of `resources`, for the caller to walk.
    pub fn resource_handles(&self) -> (r: Vec<ResourceHandle>)
        ensures
            r@ == self.resources(),
            r@.len() == RESOURCES_PER_SLOT,
    {
        let mut r: Vec<ResourceHandle> = Vec::with_capacity(RESOURCES_PER_SLOT);
        r.push(ResourceHandle { kind: ResourceKind::Buffer, raw: self.camera_mvp_buffer.buffer });
        r.push(ResourceHandle { kind: ResourceKind::Buffer, raw: self.model_dynamic_buffer.buffer });
        r.push(ResourceHandle { kind: ResourceKind::Buffer, raw: self.lighting_buffer.buffer });
        r.push(ResourceHandle { kind: ResourceKind::Image, raw: self.albedo_image.image });
        r.push(ResourceHandle { kind: ResourceKind::Image, raw: self.normal_image.image });
        r.push(ResourceHandle { kind: ResourceKind::Image, raw: self.depth_image.image });
        r.push(ResourceHandle { kind: ResourceKind::Image, raw: self.shadow_map_image.image });
        r.push(ResourceHandle { kind: ResourceKind::Image, raw: self.draw_image.image });
        assert(r@ =~= self.resources());
        r
    }
}

} // verus!
