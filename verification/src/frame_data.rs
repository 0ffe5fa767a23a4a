//! One slot of the frame ring: its device objects, the host's copy of its
//! uniform buffers, and whether the device may still be reading them.
use vstd::prelude::*;
use crate::error::FrameError;
use crate::resources::{FrameHandles, SlotImages, SyncDescription};
use crate::uniform_buffer::{
    lemma_full_update_accepted, lemma_packed_single, lemma_update_reads_back, UniformBuffer,
    UniformBufferView,
};

verus! {

/// Whether the host may write a slot.
#[derive(Clone, Copy, Debug, PartialEq, Eq, Structural)]
pub enum SlotState {
    /// The slot's fence has signaled: the device is done with the slot.
    Ready,
    /// Work that uses the slot was submitted and has not been waited for.
    InFlight,
}

/// What a descriptor binding points at.
#[derive(Clone, Copy, Debug, PartialEq, Eq, Structural)]
pub enum DescriptorResource {
    /// `range` bytes of a uniform buffer, from its start.
    UniformBuffer { buffer: u64, range: u64 },
    /// `range` bytes of a uniform buffer, from an offset given per draw.
    DynamicUniformBuffer { buffer: u64, range: u64 },
    /// An image view read through a sampler.
    ImageSampler { image_view: u64, sampler: u64 },
}

/// One binding to write into a descriptor set.
#[derive(Clone, Copy, Debug, PartialEq, Eq, Structural)]
pub struct DescriptorWrite {
    pub set: u64,
    pub binding: u32,
    pub resource: DescriptorResource,
}

impl DescriptorWrite {
    /// The buffer that the write binds, if it binds one.
    pub open spec fn bound_buffer(self) -> Option<u64> {
        match self.resource {
            DescriptorResource::UniformBuffer { buffer, .. } => Some(buffer),
            DescriptorResource::DynamicUniformBuffer { buffer, .. } => Some(buffer),
            DescriptorResource::ImageSampler { .. } => None,
        }
    }

    /// The image view that the write binds, if it binds one.
    pub open spec fn bound_image_view(self) -> Option<u64> {
        match self.resource {
            DescriptorResource::ImageSampler { image_view, .. } => Some(image_view),
            _ => None,
        }
    }
}

/// What a slot is: its handles, what its images were created as, its three
/// uniform buffers and its state.
pub struct FrameView {
    pub handles: FrameHandles,
    pub images: SlotImages,
    pub camera_mvp: UniformBufferView,
    pub model_dynamic: UniformBufferView,
    pub lighting: UniformBufferView,
    pub state: SlotState,
}

impl FrameView {
    /// The three buffers are well laid out; the camera and the lighting buffer
    /// hold exactly one record each.
    pub open spec fn wf(self) -> bool {
        &&& self.camera_mvp.wf()
        &&& self.camera_mvp.capacity == 1
        &&& self.camera_mvp.stride == self.camera_mvp.record_size
        &&& self.model_dynamic.wf()
        &&& self.lighting.wf()
        &&& self.lighting.capacity == 1
        &&& self.lighting.stride == self.lighting.record_size
    }

    /// Whether `record` may replace the one record of `buffer` now.
    pub open spec fn single_record_result(
        self,
        buffer: UniformBufferView,
        record: Seq<u8>,
    ) -> Result<(), FrameError> {
        if self.state == SlotState::InFlight {
            Err(FrameError::InFlight)
        } else if record.len() != buffer.record_size {
            Err(FrameError::RecordSize)
        } else {
            Ok(())
        }
    }

    /// Whether `records` may be written to the per-instance buffer now.
    pub open spec fn instance_records_result(self, records: Seq<u8>) -> Result<(), FrameError> {
        if self.state == SlotState::InFlight {
            Err(FrameError::InFlight)
        } else {
            self.model_dynamic.update_result(records)
        }
    }

    /// The slot after the host tried to write the camera record `mvp`.
    pub open spec fn with_camera(self, mvp: Seq<u8>) -> FrameView {
        if self.single_record_result(self.camera_mvp, mvp) is Ok {
            FrameView {
                camera_mvp: UniformBufferView { contents: mvp, ..self.camera_mvp },
                ..self
            }
        } else {
            self
        }
    }

    /// The slot after the host tried to write the instance records `records`.
    pub open spec fn with_instances(self, records: Seq<u8>) -> FrameView {
        if self.instance_records_result(records) is Ok {
            FrameView { model_dynamic: self.model_dynamic.updated(records), ..self }
        } else {
            self
        }
    }

    /// The slot after the host tried to write the lighting record `light`.
    pub open spec fn with_lighting(self, light: Seq<u8>) -> FrameView {
        if self.single_record_result(self.lighting, light) is Ok {
            FrameView { lighting: UniformBufferView { contents: light, ..self.lighting }, ..self }
        } else {
            self
        }
    }

    /// Whether work that uses the slot may be submitted now.
    pub open spec fn submit_result(self) -> Result<(), FrameError> {
        if self.state == SlotState::InFlight {
            Err(FrameError::InFlight)
        } else {
            Ok(())
        }
    }

    /// The slot after work that uses it was submitted.
    pub open spec fn submitted(self) -> FrameView {
        FrameView { state: SlotState::InFlight, ..self }
    }

    /// The slot after its fence has signaled.
    pub open spec fn completed(self) -> FrameView {
        FrameView { state: SlotState::Ready, ..self }
    }

    /// The bindings of the slot's geometry-pass set: its own camera buffer,
    /// its own per-instance buffer, and the texture all slots share.
    pub open spec fn gbuffer_writes(self, texture_image_view: u64, texture_sampler: u64) -> Seq<
        DescriptorWrite,
    > {
        seq![
            DescriptorWrite {
                set: self.handles.descriptor_gbuffer_set,
                binding: 0,
                resource: DescriptorResource::UniformBuffer {
                    buffer: self.handles.camera_mvp_buffer.buffer,
                    range: self.camera_mvp.description.size,
                },
            },
            DescriptorWrite {
                set: self.handles.descriptor_gbuffer_set,
                binding: 1,
                resource: DescriptorResource::DynamicUniformBuffer {
                    buffer: self.handles.model_dynamic_buffer.buffer,
                    range: self.model_dynamic.stride as u64,
                },
            },
            DescriptorWrite {
                set: self.handles.descriptor_gbuffer_set,
                binding: 2,
                resource: DescriptorResource::ImageSampler {
                    image_view: texture_image_view,
                    sampler: texture_sampler,
                },
            },
        ]
    }

    /// All bindings of the slot, those of the geometry-pass set first.
    pub open spec fn descriptor_writes(self, texture_image_view: u64, texture_sampler: u64) -> Seq<
        DescriptorWrite,
    > {
        self.gbuffer_writes(texture_image_view, texture_sampler) + self.lighting_writes()
    }

    /// The bindings of the slot's lighting-pass set: its own lighting buffer
    /// and its own albedo, normal and depth images.
    pub open spec fn lighting_writes(self) -> Seq<DescriptorWrite> {
        seq![
            DescriptorWrite {
                set: self.handles.descriptor_lighting_set,
                binding: 0,
                resource: DescriptorResource::UniformBuffer {
                    buffer: self.handles.lighting_buffer.buffer,
                    range: self.lighting.description.size,
                },
            },
            DescriptorWrite {
                set: self.handles.descriptor_lighting_set,
                binding: 1,
                resource: DescriptorResource::ImageSampler {
                    image_view: self.handles.albedo_image.image_view,
                    sampler: self.handles.albedo_sampler,
                },
            },
            DescriptorWrite {
                set: self.handles.descriptor_lighting_set,
                binding: 2,
                resource: DescriptorResource::ImageSampler {
                    image_view: self.handles.normal_image.image_view,
                    sampler: self.handles.normal_sampler,
                },
            },
            DescriptorWrite {
                set: self.handles.descriptor_lighting_set,
                binding: 3,
                resource: DescriptorResource::ImageSampler {
                    image_view: self.handles.depth_image.image_view,
                    sampler: self.handles.depth_sampler,
                },
            },
        ]
    }
}

/// The state of a slot whose fence was created as `sync` says.
pub open spec fn initial_state(sync: SyncDescription) -> SlotState {
    if sync.fence_signaled {
        SlotState::Ready
    } else {
        SlotState::InFlight
    }
}

/// One slot of the frame ring.
#[derive(Debug)]
pub struct FrameData {
    handles: FrameHandles,
    images: SlotImages,
    camera_mvp_buffer: UniformBuffer,
    model_dynamic_buffer: UniformBuffer,
    lighting_buffer: UniformBuffer,
    state: SlotState,
}

impl View for FrameData {
    type V = FrameView;

    closed spec fn view(&self) -> FrameView {
        FrameView {
            handles: self.handles,
            images: self.images,
            camera_mvp: self.camera_mvp_buffer@,
            model_dynamic: self.model_dynamic_buffer@,
            lighting: self.lighting_buffer@,
            state: self.state,
        }
    }
}

impl FrameData {
    /// The slot's buffers are well laid out.
    pub open spec fn wf(&self) -> bool {
        self@.wf()
    }

    /// A slot over the given device objects and buffers, writable at once if
    /// its fence was created signaled.
    pub(crate) fn new(
        handles: FrameHandles,
        images: SlotImages,
        camera_mvp_buffer: UniformBuffer,
        model_dynamic_buffer: UniformBuffer,
        lighting_buffer: UniformBuffer,
        sync: SyncDescription,
    ) -> (r: FrameData)
        ensures
            r@ == (FrameView {
                handles,
                images,
                camera_mvp: camera_mvp_buffer@,
                model_dynamic: model_dynamic_buffer@,
                lighting: lighting_buffer@,
                state: initial_state(sync),
            }),
    {
        FrameData {
            handles,
            images,
            camera_mvp_buffer,
            model_dynamic_buffer,
            lighting_buffer,
            state: if sync.fence_signaled {
                SlotState::Ready
            } else {
                SlotState::InFlight
            },
        }
    }

    /// Overwrites the camera buffer with exactly one record. Refused while the
    /// slot is in flight.
    pub fn update_camera_mvp_buffer(&mut self, mvp: Vec<u8>) -> (r: Result<(), FrameError>)
        requires
            old(self).wf(),
        ensures
            final(self).wf(),
            r == old(self)@.single_record_result(old(self)@.camera_mvp, mvp@),
            final(self)@ == old(self)@.with_camera(mvp@),
    {
        if self.state == SlotState::InFlight {
            return Err(FrameError::InFlight);
        }
        if mvp.len() != self.camera_mvp_buffer.record_size() {
            return Err(FrameError::RecordSize);
        }
        proof {
            lemma_single_record(self.camera_mvp_buffer@, mvp@);
        }
        self.camera_mvp_buffer.update_buffer(&mvp)
    }

    /// Overwrites the per-instance buffer with one record per drawable
    /// instance, each at its stride offset; `mvp` holds the records back to
    /// back. Refused while the slot is in flight, and when there are more
    /// records than the buffer was reserved for.
    pub fn update_model_dynamic_buffer(&mut self, mvp: Vec<u8>) -> (r: Result<(), FrameError>)
        requires
            old(self).wf(),
        ensures
            final(self).wf(),
            r == old(self)@.instance_records_result(mvp@),
            final(self)@ == old(self)@.with_instances(mvp@),
    {
        if self.state == SlotState::InFlight {
            return Err(FrameError::InFlight);
        }
        self.model_dynamic_buffer.update_buffer(&mvp)
    }

    /// Overwrites the lighting buffer with exactly one record. Refused while
    /// the slot is in flight.
    pub fn update_lighting_buffer(&mut self, mvp: Vec<u8>) -> (r: Result<(), FrameError>)
        requires
            old(self).wf(),
        ensures
            final(self).wf(),
            r == old(self)@.single_record_result(old(self)@.lighting, mvp@),
            final(self)@ == old(self)@.with_lighting(mvp@),
    {
        if self.state == SlotState::InFlight {
            return Err(FrameError::InFlight);
        }
        if mvp.len() != self.lighting_buffer.record_size() {
            return Err(FrameError::RecordSize);
        }
        proof {
            lemma_single_record(self.lighting_buffer@, mvp@);
        }
        self.lighting_buffer.update_buffer(&mvp)
    }

    /// Records that work using this slot was submitted: from now on the
    /// device may read the slot, until `mark_completed`. Refused if the slot
    /// is in flight already.
    pub fn mark_submitted(&mut self) -> (r: Result<(), FrameError>)
        ensures
            r == old(self)@.submit_result(),
            final(self)@ == old(self)@.submitted(),
    {
        if self.state == SlotState::InFlight {
            return Err(FrameError::InFlight);
        }
        self.state = SlotState::InFlight;
        Ok(())
    }

    /// Records that the slot's fence has signaled: the host may write the
    /// slot again.
    pub fn mark_completed(&mut self)
        ensures
            final(self)@ == old(self)@.completed(),
    {
        self.state = SlotState::Ready;
    }

    /// The bindings to write into the slot's geometry-pass descriptor set.
    pub fn gbuffer_descriptor_writes(&self, texture_image_view: u64, texture_sampler: u64) -> (r:
        Vec<DescriptorWrite>)
        ensures
            r@ == self@.gbuffer_writes(texture_image_view, texture_sampler),
    {
        let mut writes: Vec<DescriptorWrite> = Vec::with_capacity(3);
        writes.push(
            DescriptorWrite {
                set: self.handles.descriptor_gbuffer_set,
                binding: 0,
                resource: DescriptorResource::UniformBuffer {
                    buffer: self.handles.camera_mvp_buffer.buffer,
                    range: self.camera_mvp_buffer.description().size,
                },
            },
        );
        writes.push(
            DescriptorWrite {
                set: self.handles.descriptor_gbuffer_set,
                binding: 1,
                resource: DescriptorResource::DynamicUniformBuffer {
                    buffer: self.handles.model_dynamic_buffer.buffer,
                    range: self.model_dynamic_buffer.stride() as u64,
                },
            },
        );
        writes.push(
            DescriptorWrite {
                set: self.handles.descriptor_gbuffer_set,
                binding: 2,
                resource: DescriptorResource::ImageSampler {
                    image_view: texture_image_view,
                    sampler: texture_sampler,
                },
            },
        );
        assert(writes@ =~= self@.gbuffer_writes(texture_image_view, texture_sampler));
        writes
    }

    /// The bindings to write into the slot's lighting-pass descriptor set.
    pub fn lighting_descriptor_writes(&self) -> (r: Vec<DescriptorWrite>)
        ensures
            r@ == self@.lighting_writes(),
    {
        let mut writes: Vec<DescriptorWrite> = Vec::with_capacity(4);
        writes.push(
            DescriptorWrite {
                set: self.handles.descriptor_lighting_set,
                binding: 0,
                resource: DescriptorResource::UniformBuffer {
                    buffer: self.handles.lighting_buffer.buffer,
                    range: self.lighting_buffer.description().size,
                },
            },
        );
        writes.push(
            DescriptorWrite {
                set: self.handles.descriptor_lighting_set,
                binding: 1,
                resource: DescriptorResource::ImageSampler {
                    image_view: self.handles.albedo_image.image_view,
                    sampler: self.handles.albedo_sampler,
                },
            },
        );
        writes.push(
            DescriptorWrite {
                set: self.handles.descriptor_lighting_set,
                binding: 2,
                resource: DescriptorResource::ImageSampler {
                    image_view: self.handles.normal_image.image_view,
                    sampler: self.handles.normal_sampler,
                },
            },
        );
        writes.push(
            DescriptorWrite {
                set: self.handles.descriptor_lighting_set,
                binding: 3,
                resource: DescriptorResource::ImageSampler {
                    image_view: self.handles.depth_image.image_view,
                    sampler: self.handles.depth_sampler,
                },
            },
        );
        assert(writes@ =~= self@.lighting_writes());
        writes
    }

    /// The slot's device objects.
    pub fn handles(&self) -> (r: &FrameHandles)
        ensures
            *r == self@.handles,
    {
        &self.handles
    }

    /// What the slot's images were created as.
    pub fn images(&self) -> (r: &SlotImages)
        ensures
            *r == self@.images,
    {
        &self.images
    }

    /// The host's copy of the camera buffer.
    pub fn camera_mvp_buffer(&self) -> (r: &UniformBuffer)
        ensures
            r@ == self@.camera_mvp,
    {
        &self.camera_mvp_buffer
    }

    /// The host's copy of the per-instance buffer.
    pub fn model_dynamic_buffer(&self) -> (r: &UniformBuffer)
        ensures
            r@ == self@.model_dynamic,
    {
        &self.model_dynamic_buffer
    }

    /// The host's copy of the lighting buffer.
    pub fn lighting_buffer(&self) -> (r: &UniformBuffer)
        ensures
            r@ == self@.lighting,
    {
        &self.lighting_buffer
    }

    /// Whether the host may write the slot.
    pub fn state(&self) -> (r: SlotState)
        ensures
            r == self@.state,
    {
        self.state
    }
}

/// A slot that is free to be written accepts exactly as many instance records
/// as it was reserved for, and each of them then reads back unchanged at its
/// stride offset.
pub proof fn lemma_instance_records_read_back(slot: FrameView, records: Seq<u8>, index: int)
    requires
        slot.wf(),
        slot.state == SlotState::Ready,
        records.len() == slot.model_dynamic.capacity * slot.model_dynamic.record_size,
        0 <= index < slot.model_dynamic.capacity,
    ensures
        slot.instance_records_result(records) is Ok,
        slot.with_instances(records).model_dynamic.record(index) == records.subrange(
            index * slot.model_dynamic.record_size,
            index * slot.model_dynamic.record_size + slot.model_dynamic.record_size,
        ),
{
    lemma_full_update_accepted(slot.model_dynamic, records);
    lemma_update_reads_back(slot.model_dynamic, records, index);
}

/// Each binding of a slot goes into one of the slot's own two sets; the
/// buffer it binds is one of the slot's own three buffers, and the image view
/// it binds is the view of one of the slot's own images or the shared texture.
pub proof fn lemma_sets_bind_own_resources(
    slot: FrameView,
    texture_image_view: u64,
    texture_sampler: u64,
    index: int,
)
    requires
        0 <= index < slot.descriptor_writes(texture_image_view, texture_sampler).len(),
    ensures
        ({
            let write = slot.descriptor_writes(texture_image_view, texture_sampler)[index];
            &&& write.set == slot.handles.descriptor_gbuffer_set || write.set
                == slot.handles.descriptor_lighting_set
            &&& write.bound_buffer() matches Some(buffer) ==> {
                ||| buffer == slot.handles.camera_mvp_buffer.buffer
                ||| buffer == slot.handles.model_dynamic_buffer.buffer
                ||| buffer == slot.handles.lighting_buffer.buffer
            }
            &&& write.bound_image_view() matches Some(view) ==> {
                ||| view == texture_image_view
                ||| view == slot.handles.albedo_image.image_view
                ||| view == slot.handles.normal_image.image_view
                ||| view == slot.handles.depth_image.image_view
            }
        }),
{
}

/// Nothing but a write of the lighting record changes what the lighting
/// buffer holds: a slot keeps the light it was seeded with until then.
pub proof fn lemma_light_stays(slot: FrameView, bytes: Seq<u8>)
    ensures
        slot.with_camera(bytes).lighting == slot.lighting,
        slot.with_instances(bytes).lighting == slot.lighting,
        slot.submitted().lighting == slot.lighting,
        slot.completed().lighting == slot.lighting,
{
}

/// No write and no change of state gives a slot other device objects or
/// other images.
pub proof fn lemma_slot_keeps_resources(slot: FrameView, bytes: Seq<u8>)
    ensures
        slot.with_camera(bytes).handles == slot.handles,
        slot.with_instances(bytes).handles == slot.handles,
        slot.with_lighting(bytes).handles == slot.handles,
        slot.submitted().handles == slot.handles,
        slot.completed().handles == slot.handles,
        slot.with_camera(bytes).images == slot.images,
        slot.with_instances(bytes).images == slot.images,
        slot.with_lighting(bytes).images == slot.images,
        slot.submitted().images == slot.images,
        slot.completed().images == slot.images,
{
}

/// While a slot is in flight the host changes none of its buffers: every
/// write is refused and leaves the slot as it was.
pub proof fn lemma_in_flight_refuses_writes(slot: FrameView, bytes: Seq<u8>)
    requires
        slot.state == SlotState::InFlight,
    ensures
        slot.single_record_result(slot.camera_mvp, bytes) == Err::<(), FrameError>(
            FrameError::InFlight,
        ),
        slot.instance_records_result(bytes) == Err::<(), FrameError>(FrameError::InFlight),
        slot.single_record_result(slot.lighting, bytes) == Err::<(), FrameError>(
            FrameError::InFlight,
        ),
        slot.with_camera(bytes) == slot,
        slot.with_instances(bytes) == slot,
        slot.with_lighting(bytes) == slot,
{
}

/// Writing one record into a well-formed buffer of one record is accepted and
/// leaves exactly that record.
proof fn lemma_single_record(buffer: UniformBufferView, record: Seq<u8>)
    requires
        buffer.wf(),
        buffer.capacity == 1,
        buffer.stride == buffer.record_size,
        record.len() == buffer.record_size,
    ensures
        buffer.update_result(record) is Ok,
        buffer.updated(record) == (UniformBufferView { contents: record, ..buffer }),
{
    let n = record.len() as int;
    assert(buffer.stride * buffer.capacity == buffer.stride) by (nonlinear_arith)
        requires
            buffer.capacity == 1,
    ;
    vstd::arithmetic::div_mod::lemma_fundamental_div_mod_converse(n, n, 1, 0);
    lemma_packed_single(buffer.contents, record);
}

} // verus!
