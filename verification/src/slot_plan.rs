//! What one frame slot is created with: its buffers, its images, its
//! synchronisation objects and its command buffer.
use vstd::prelude::*;
use crate::error::FrameError;
use crate::resources::{
    CommandBufferRequest, Format, ImageAspect, ImageDescription, ImageTiling, SlotImages,
    SyncDescription, BUFFER_USAGE_UNIFORM_BUFFER, IMAGE_USAGE_COLOR_ATTACHMENT,
    IMAGE_USAGE_DEPTH_STENCIL_ATTACHMENT, IMAGE_USAGE_SAMPLED, IMAGE_USAGE_STORAGE,
    IMAGE_USAGE_TRANSFER_DST, IMAGE_USAGE_TRANSFER_SRC, MEMORY_PROPERTY_DEVICE_LOCAL,
    MEMORY_PROPERTY_HOST_COHERENT, MEMORY_PROPERTY_HOST_VISIBLE, SHADOW_MAP_SIZE,
};
use crate::uniform_buffer::{
    layout_result, lemma_packed_single, zeroed, UniformBuffer, UniformBufferView,
};

verus! {

/// What each of the five images of a slot is for.
#[derive(Clone, Copy, Debug, PartialEq, Eq, Structural)]
pub enum ImageRole {
    Albedo,
    Normal,
    Depth,
    ShadowMap,
    Draw,
}

/// Usage of an image of the given role.
pub open spec fn image_usage(role: ImageRole) -> u32 {
    match role {
        ImageRole::Albedo => IMAGE_USAGE_TRANSFER_DST | IMAGE_USAGE_TRANSFER_SRC
            | IMAGE_USAGE_STORAGE | IMAGE_USAGE_COLOR_ATTACHMENT | IMAGE_USAGE_SAMPLED,
        ImageRole::Normal => IMAGE_USAGE_TRANSFER_DST | IMAGE_USAGE_TRANSFER_SRC
            | IMAGE_USAGE_COLOR_ATTACHMENT | IMAGE_USAGE_SAMPLED,
        ImageRole::Depth => IMAGE_USAGE_TRANSFER_DST | IMAGE_USAGE_TRANSFER_SRC
            | IMAGE_USAGE_DEPTH_STENCIL_ATTACHMENT | IMAGE_USAGE_SAMPLED,
        ImageRole::ShadowMap => IMAGE_USAGE_TRANSFER_DST | IMAGE_USAGE_TRANSFER_SRC
            | IMAGE_USAGE_STORAGE | IMAGE_USAGE_DEPTH_STENCIL_ATTACHMENT,
        ImageRole::Draw => IMAGE_USAGE_TRANSFER_DST | IMAGE_USAGE_TRANSFER_SRC
            | IMAGE_USAGE_STORAGE | IMAGE_USAGE_COLOR_ATTACHMENT,
    }
}

/// The usage of each image as a number.
pub proof fn lemma_image_usage_bits()
    ensures
        image_usage(ImageRole::Albedo) == 0x1f,
        image_usage(ImageRole::Normal) == 0x17,
        image_usage(ImageRole::Depth) == 0x27,
        image_usage(ImageRole::ShadowMap) == 0x2b,
        image_usage(ImageRole::Draw) == 0x1b,
        coherent_host_memory() == 0x6,
{
    assert(0x2u32 | 0x1u32 | 0x8u32 | 0x10u32 | 0x4u32 == 0x1f) by (bit_vector);
    assert(0x2u32 | 0x1u32 | 0x10u32 | 0x4u32 == 0x17) by (bit_vector);
    assert(0x2u32 | 0x1u32 | 0x20u32 | 0x4u32 == 0x27) by (bit_vector);
    assert(0x2u32 | 0x1u32 | 0x8u32 | 0x20u32 == 0x2b) by (bit_vector);
    assert(0x2u32 | 0x1u32 | 0x8u32 | 0x10u32 == 0x1b) by (bit_vector);
    assert(0x2u32 | 0x4u32 == 0x6) by (bit_vector);
}

/// The image of the given role in a slot that renders to a target of
/// `image_width` by `image_height`. The shadow map has its own fixed size;
/// every other image measures what the target measures.
pub open spec fn image_description(
    role: ImageRole,
    image_width: u32,
    image_height: u32,
) -> ImageDescription {
    ImageDescription {
        width: if role == ImageRole::ShadowMap {
            SHADOW_MAP_SIZE
        } else {
            image_width
        },
        height: if role == ImageRole::ShadowMap {
            SHADOW_MAP_SIZE
        } else {
            image_height
        },
        format: match role {
            ImageRole::Albedo | ImageRole::Draw => Format::R16G16B16A16Sfloat,
            ImageRole::Normal => Format::R16G16B16A16Snorm,
            ImageRole::Depth | ImageRole::ShadowMap => Format::D32Sfloat,
        },
        aspect: match role {
            ImageRole::Albedo | ImageRole::Normal | ImageRole::Draw => ImageAspect::Color,
            ImageRole::Depth | ImageRole::ShadowMap => ImageAspect::Depth,
        },
        tiling: ImageTiling::Optimal,
        usage: image_usage(role),
        memory_properties: MEMORY_PROPERTY_DEVICE_LOCAL,
    }
}

/// The five images of a slot that renders to a target of `image_width` by
/// `image_height`.
pub open spec fn slot_images(image_width: u32, image_height: u32) -> SlotImages {
    SlotImages {
        albedo: image_description(ImageRole::Albedo, image_width, image_height),
        normal: image_description(ImageRole::Normal, image_width, image_height),
        depth: image_description(ImageRole::Depth, image_width, image_height),
        shadow_map: image_description(ImageRole::ShadowMap, image_width, image_height),
        draw: image_description(ImageRole::Draw, image_width, image_height),
    }
}

/// The five images of a slot: albedo, normal, depth, shadow map and the
/// general draw target.
pub fn create_images(image_width: u32, image_height: u32) -> (r: SlotImages)
    ensures
        r == slot_images(image_width, image_height),
{
    let albedo_image = ImageDescription {
        width: image_width,
        height: image_height,
        format: Format::R16G16B16A16Sfloat,
        aspect: ImageAspect::Color,
        tiling: ImageTiling::Optimal,
        usage: IMAGE_USAGE_TRANSFER_DST | IMAGE_USAGE_TRANSFER_SRC | IMAGE_USAGE_STORAGE
            | IMAGE_USAGE_COLOR_ATTACHMENT | IMAGE_USAGE_SAMPLED,
        memory_properties: MEMORY_PROPERTY_DEVICE_LOCAL,
    };

    let normal_image = ImageDescription {
        width: image_width,
        height: image_height,
        format: Format::R16G16B16A16Snorm,
        aspect: ImageAspect::Color,
        tiling: ImageTiling::Optimal,
        usage: IMAGE_USAGE_TRANSFER_DST | IMAGE_USAGE_TRANSFER_SRC
            | IMAGE_USAGE_COLOR_ATTACHMENT | IMAGE_USAGE_SAMPLED,
        memory_properties: MEMORY_PROPERTY_DEVICE_LOCAL,
    };

    let depth_image = ImageDescription {
        width: image_width,
        height: image_height,
        format: Format::D32Sfloat,
        aspect: ImageAspect::Depth,
        tiling: ImageTiling::Optimal,
        usage: IMAGE_USAGE_TRANSFER_DST | IMAGE_USAGE_TRANSFER_SRC
            | IMAGE_USAGE_DEPTH_STENCIL_ATTACHMENT | IMAGE_USAGE_SAMPLED,
        memory_properties: MEMORY_PROPERTY_DEVICE_LOCAL,
    };

    let shadow_map_image = ImageDescription {
        width: SHADOW_MAP_SIZE,
        height: SHADOW_MAP_SIZE,
        format: Format::D32Sfloat,
        aspect: ImageAspect::Depth,
        tiling: ImageTiling::Optimal,
        usage: IMAGE_USAGE_TRANSFER_DST | IMAGE_USAGE_TRANSFER_SRC | IMAGE_USAGE_STORAGE
            | IMAGE_USAGE_DEPTH_STENCIL_ATTACHMENT,
        memory_properties: MEMORY_PROPERTY_DEVICE_LOCAL,
    };

    let draw_image = ImageDescription {
        width: image_width,
        height: image_height,
        format: Format::R16G16B16A16Sfloat,
        aspect: ImageAspect::Color,
        tiling: ImageTiling::Optimal,
        usage: IMAGE_USAGE_TRANSFER_DST | IMAGE_USAGE_TRANSFER_SRC | IMAGE_USAGE_STORAGE
            | IMAGE_USAGE_COLOR_ATTACHMENT,
        memory_properties: MEMORY_PROPERTY_DEVICE_LOCAL,
    };

    SlotImages {
        albedo: albedo_image,
        normal: normal_image,
        depth: depth_image,
        shadow_map: shadow_map_image,
        draw: draw_image,
    }
}

/// Memory of the buffers the host rewrites every frame without flushing.
pub open spec fn coherent_host_memory() -> u32 {
    MEMORY_PROPERTY_HOST_VISIBLE | MEMORY_PROPERTY_HOST_COHERENT
}

/// The camera buffer before its first write: one record, all zero.
pub open spec fn camera_mvp_buffer(record_size: usize) -> UniformBufferView {
    zeroed(record_size, record_size, 1, BUFFER_USAGE_UNIFORM_BUFFER, coherent_host_memory())
}

/// The lighting buffer as it is created: one record, seeded with `lighting`.
pub open spec fn lighting_buffer(record_size: usize, lighting: Seq<u8>) -> UniformBufferView {
    UniformBufferView {
        contents: lighting,
        ..zeroed(record_size, record_size, 1, BUFFER_USAGE_UNIFORM_BUFFER, coherent_host_memory())
    }
}

/// The per-instance buffer before its first write: `mesh_count` records, one
/// every `dynamic_alignment` bytes, all zero.
pub open spec fn model_dynamic_buffer(
    record_size: usize,
    mesh_count: usize,
    dynamic_alignment: u64,
) -> UniformBufferView {
    zeroed(
        record_size,
        dynamic_alignment as usize,
        mesh_count,
        BUFFER_USAGE_UNIFORM_BUFFER,
        MEMORY_PROPERTY_HOST_VISIBLE,
    )
}

/// Whether the per-instance buffer can be laid out, and if not, why.
pub open spec fn model_dynamic_layout(
    record_size: usize,
    mesh_count: usize,
    dynamic_alignment: u64,
) -> Result<(), FrameError> {
    if dynamic_alignment > usize::MAX {
        Err(FrameError::SizeOverflow)
    } else {
        layout_result(record_size, dynamic_alignment as usize, mesh_count)
    }
}

/// Whether a buffer of one record can be laid out, and if not, why.
pub open spec fn single_record_layout(record_size: usize) -> Result<(), FrameError> {
    layout_result(record_size, record_size, 1)
}

/// Whether the lighting buffer can be made and seeded, and if not, why.
pub open spec fn lighting_layout(record_size: usize, lighting: Seq<u8>) -> Result<(), FrameError> {
    if single_record_layout(record_size) is Err {
        single_record_layout(record_size)
    } else if lighting.len() != record_size {
        Err(FrameError::RecordSize)
    } else {
        Ok(())
    }
}

/// The buffer that holds the one camera record of a slot.
pub fn create_camera_mvp_buffer(record_size: usize) -> (r: Result<UniformBuffer, FrameError>)
    ensures
        match r {
            Ok(buffer) => {
                &&& single_record_layout(record_size) is Ok
                &&& buffer.wf()
                &&& buffer@ == camera_mvp_buffer(record_size)
            },
            Err(e) => single_record_layout(record_size) == Err::<(), FrameError>(e),
        },
{
    UniformBuffer::new(
        record_size,
        record_size,
        1,
        BUFFER_USAGE_UNIFORM_BUFFER,
        MEMORY_PROPERTY_HOST_VISIBLE | MEMORY_PROPERTY_HOST_COHERENT,
    )
}

/// The buffer that holds the one lighting record of a slot, seeded with the
/// default light `lighting`.
pub fn create_lighting_buffer(record_size: usize, lighting: &Vec<u8>) -> (r: Result<
    UniformBuffer,
    FrameError,
>)
    ensures
        match r {
            Ok(buffer) => {
                &&& lighting_layout(record_size, lighting@) is Ok
                &&& buffer.wf()
                &&& buffer@ == lighting_buffer(record_size, lighting@)
            },
            Err(e) => lighting_layout(record_size, lighting@) == Err::<(), FrameError>(e),
        },
{
    let mut buffer = UniformBuffer::new(
        record_size,
        record_size,
        1,
        BUFFER_USAGE_UNIFORM_BUFFER,
        MEMORY_PROPERTY_HOST_VISIBLE | MEMORY_PROPERTY_HOST_COHERENT,
    )?;
    if lighting.len() != record_size {
        return Err(FrameError::RecordSize);
    }
    proof {
        lemma_packed_single(buffer@.contents, lighting@);
        vstd::arithmetic::div_mod::lemma_fundamental_div_mod_converse(
            record_size as int,
            record_size as int,
            1,
            0,
        );
    }
    buffer.update_buffer(lighting)?;
    Ok(buffer)
}

/// The buffer that holds one record per drawable instance, `dynamic_alignment`
/// bytes apart.
pub fn create_model_dynamic_uniform_buffer(
    record_size: usize,
    mesh_count: usize,
    dynamic_alignment: u64,
) -> (r: Result<UniformBuffer, FrameError>)
    ensures
        match r {
            Ok(buffer) => {
                &&& model_dynamic_layout(record_size, mesh_count, dynamic_alignment) is Ok
                &&& buffer.wf()
                &&& buffer@ == model_dynamic_buffer(record_size, mesh_count, dynamic_alignment)
            },
            Err(e) => model_dynamic_layout(record_size, mesh_count, dynamic_alignment) == Err::<
                (),
                FrameError,
            >(e),
        },
{
    if dynamic_alignment > usize::MAX as u64 {
        return Err(FrameError::SizeOverflow);
    }
    UniformBuffer::new(
        record_size,
        dynamic_alignment as usize,
        mesh_count,
        BUFFER_USAGE_UNIFORM_BUFFER,
        MEMORY_PROPERTY_HOST_VISIBLE,
    )
}

/// The synchronisation objects of a slot: two semaphores, and a fence that
/// starts out signaled, so that the first wait on a fresh slot returns at once.
pub fn create_sync_objects() -> (r: SyncDescription)
    ensures
        r == (SyncDescription { semaphore_count: 2, fence_signaled: true }),
{
    SyncDescription { semaphore_count: 2, fence_signaled: true }
}

/// The request for the command buffers of a ring of `max_frames` slots: one
/// primary buffer per slot.
pub fn create_command_buffers(max_frames: usize) -> (r: Result<CommandBufferRequest, FrameError>)
    ensures
        max_frames <= u32::MAX ==> r == Ok::<CommandBufferRequest, FrameError>(
            CommandBufferRequest { primary: true, count: max_frames as u32 },
        ),
        max_frames > u32::MAX ==> r == Err::<CommandBufferRequest, FrameError>(
            FrameError::SizeOverflow,
        ),
{
    if max_frames > u32::MAX as usize {
        return Err(FrameError::SizeOverflow);
    }
    Ok(CommandBufferRequest { primary: true, count: max_frames as u32 })
}

} // verus!
