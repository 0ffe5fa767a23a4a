//! The frame ring: a fixed number of slots and a cursor that walks them in
//! order, so that the host prepares one slot while the device still works on
//! the others.
use vstd::prelude::*;
use vstd::arithmetic::div_mod::{lemma_mod_add_multiples_vanish, lemma_small_mod};
use crate::alignment::{get_buffer_alignment, stride_result};
use crate::error::FrameError;
use crate::frame_data::{FrameData, FrameView, SlotState};
use crate::graphics_pipeline::PipelineInfo;
use crate::resources::{Extent2D, FrameHandles, ResourceHandle, RESOURCES_PER_SLOT};
use crate::slot_plan::{
    camera_mvp_buffer, create_camera_mvp_buffer, create_images, create_lighting_buffer,
    create_model_dynamic_uniform_buffer, create_sync_objects, lighting_buffer, lighting_layout,
    model_dynamic_buffer, model_dynamic_layout, single_record_layout, slot_images,
};

verus! {

/// What the ring needs to know of the device.
#[derive(Clone, Copy, Debug, PartialEq, Eq, Structural)]
pub struct DeviceInfo {
    /// The device's minimum alignment of uniform buffer offsets, in bytes.
    pub min_uniform_buffer_offset_alignment: u64,
}

/// Sizes in bytes of the three uniform records.
#[derive(Clone, Copy, Debug, PartialEq, Eq, Structural)]
pub struct UniformLayout {
    pub camera_mvp_size: usize,
    pub model_dynamic_size: usize,
    pub lighting_size: usize,
}

/// The slot that follows slot `current` in a ring of `frame_count` slots.
pub open spec fn next_index(current: nat, frame_count: nat) -> nat {
    (current + 1) % frame_count
}

/// The slot the cursor stands on after `advances` steps from slot `start`.
pub open spec fn index_after(start: nat, advances: nat, frame_count: nat) -> nat
    decreases advances,
{
    if advances == 0 {
        start
    } else {
        next_index(index_after(start, (advances - 1) as nat, frame_count), frame_count)
    }
}

/// The buffers and images of all slots, slot after slot.
pub open spec fn all_resources(slots: Seq<FrameHandles>) -> Seq<ResourceHandle> {
    Seq::new(
        slots.len() * RESOURCES_PER_SLOT as nat,
        |k: int| slots[k / RESOURCES_PER_SLOT as int].resources()[k % RESOURCES_PER_SLOT as int],
    )
}

/// A slot as the ring is built with it: nothing written but the default
/// light, and free to be written.
pub open spec fn fresh_slot(
    handles: FrameHandles,
    layout: UniformLayout,
    extent2d: Extent2D,
    mesh_count: usize,
    model_ubo_alignment: u64,
    lighting: Seq<u8>,
) -> FrameView {
    FrameView {
        handles,
        images: slot_images(extent2d.width, extent2d.height),
        camera_mvp: camera_mvp_buffer(layout.camera_mvp_size),
        model_dynamic: model_dynamic_buffer(
            layout.model_dynamic_size,
            mesh_count,
            model_ubo_alignment,
        ),
        lighting: lighting_buffer(layout.lighting_size, lighting),
        state: SlotState::Ready,
    }
}

/// Whether a ring can be built from the given parts, and if not, why: the
/// first of the checks that fails decides.
pub open spec fn construction_result(
    device_info: DeviceInfo,
    layout: UniformLayout,
    max_frames: usize,
    mesh_count: usize,
    slots: Seq<FrameHandles>,
    lighting: Seq<u8>,
) -> Result<(), FrameError> {
    let stride = stride_result(
        layout.model_dynamic_size as u64,
        device_info.min_uniform_buffer_offset_alignment,
    );
    if max_frames == 0 {
        Err(FrameError::NoFrames)
    } else if slots.len() != max_frames {
        Err(FrameError::SlotCountMismatch)
    } else if stride is Err {
        Err(stride->Err_0)
    } else if !all_resources(slots).no_duplicates() {
        Err(FrameError::SharedResource)
    } else if single_record_layout(layout.camera_mvp_size) is Err {
        single_record_layout(layout.camera_mvp_size)
    } else if model_dynamic_layout(layout.model_dynamic_size, mesh_count, stride->Ok_0) is Err {
        model_dynamic_layout(layout.model_dynamic_size, mesh_count, stride->Ok_0)
    } else {
        lighting_layout(layout.lighting_size, lighting)
    }
}

/// What a ring is: its slots, the cursor, and what all slots share.
pub struct FrameManagerView {
    pub frames: Seq<FrameData>,
    pub current_frame: nat,
    pub frame_count: nat,
    pub gbuffer_pipeline: PipelineInfo,
    pub lighting_pipeline: PipelineInfo,
    pub model_ubo_alignment: u64,
}

impl FrameManagerView {
    /// There is at least one slot, there are exactly `frame_count` of them,
    /// the cursor stands on one of them, and each is well formed.
    pub open spec fn wf(self) -> bool {
        &&& self.frame_count >= 1
        &&& self.frames.len() == self.frame_count
        &&& self.current_frame < self.frame_count
        &&& forall|i: int| 0 <= i < self.frames.len() ==> (#[trigger] self.frames[i]).wf()
    }

    /// The slot under the cursor.
    pub open spec fn current(self) -> FrameData {
        self.frames[self.current_frame as int]
    }

    /// The device objects of every slot.
    pub open spec fn handles(self) -> Seq<FrameHandles> {
        Seq::new(self.frames.len(), |i: int| self.frames[i]@.handles)
    }

    /// The buffers and images of all slots, slot after slot.
    pub open spec fn resources(self) -> Seq<ResourceHandle> {
        all_resources(self.handles())
    }

    /// No buffer and no image belongs to two slots, or twice to one.
    pub open spec fn exclusive(self) -> bool {
        self.resources().no_duplicates()
    }
}

/// Advancing `advances` times from slot 0 of a ring of `frame_count` slots
/// leads to slot `advances % frame_count`: the cursor visits the slots in
/// order and is back at slot 0 after every `frame_count` steps.
pub proof fn lemma_advance_cycles(advances: nat, frame_count: nat)
    requires
        frame_count >= 1,
    ensures
        index_after(0, advances, frame_count) == advances % frame_count,
        index_after(0, advances, frame_count) < frame_count,
        advances < frame_count ==> index_after(0, advances, frame_count) == advances,
        index_after(0, advances + frame_count, frame_count) == index_after(
            0,
            advances,
            frame_count,
        ),
        index_after(0, advances, frame_count) == 0 <==> advances % frame_count == 0,
{
    lemma_index_after(0, advances, frame_count);
    lemma_index_after(0, advances + frame_count, frame_count);
    lemma_mod_add_multiples_vanish(advances as int, frame_count as int);
    if advances < frame_count {
        lemma_small_mod(advances, frame_count);
    }
}

/// Advancing `advances` times from any slot `start` leads to slot
/// `(start + advances) % frame_count`.
pub proof fn lemma_index_after(start: nat, advances: nat, frame_count: nat)
    requires
        frame_count >= 1,
        start < frame_count,
    ensures
        index_after(start, advances, frame_count) == (start + advances) % frame_count,
    decreases advances,
{
    if advances == 0 {
        lemma_small_mod(start, frame_count);
    } else {
        let before = (advances - 1) as nat;
        lemma_index_after(start, before, frame_count);
        vstd::arithmetic::div_mod::lemma_add_mod_noop(
            (start + before) as int,
            1,
            frame_count as int,
        );
        vstd::arithmetic::div_mod::lemma_mod_twice((start + before) as int, frame_count as int);
        if frame_count == 1 {
        } else {
            lemma_small_mod(1, frame_count);
        }
        let m = ((start + before) % frame_count) as int;
        vstd::arithmetic::div_mod::lemma_add_mod_noop(m, 1, frame_count as int);
    }
}

/// Where no handle occurs twice, two different places never hold the same
/// buffer or image: no slot shares a resource with another.
pub proof fn lemma_no_shared_handles(slots: Seq<FrameHandles>, a: int, p: int, b: int, q: int)
    requires
        all_resources(slots).no_duplicates(),
        0 <= a < slots.len(),
        0 <= b < slots.len(),
        0 <= p < RESOURCES_PER_SLOT,
        0 <= q < RESOURCES_PER_SLOT,
        a != b || p != q,
    ensures
        slots[a].resources()[p] != slots[b].resources()[q],
{
    let all = all_resources(slots);
    let i = a * 8 + p;
    let j = b * 8 + q;
    assert(all[i] == slots[a].resources()[p]);
    assert(all[j] == slots[b].resources()[q]);
}

/// Where no handle occurs twice, the descriptor sets of two different slots
/// bind no buffer in common: what the device reads for one slot is never what
/// the host writes for another.
pub proof fn lemma_slots_bind_apart(
    ring: FrameManagerView,
    a: int,
    b: int,
    texture_image_view: u64,
    texture_sampler: u64,
    i: int,
    j: int,
)
    requires
        ring.exclusive(),
        0 <= a < ring.frames.len(),
        0 <= b < ring.frames.len(),
        a != b,
        0 <= i < ring.frames[a]@.descriptor_writes(texture_image_view, texture_sampler).len(),
        0 <= j < ring.frames[b]@.descriptor_writes(texture_image_view, texture_sampler).len(),
        ring.frames[a]@.descriptor_writes(texture_image_view, texture_sampler)[i].bound_buffer()
            is Some,
    ensures
        ring.frames[a]@.descriptor_writes(texture_image_view, texture_sampler)[i].bound_buffer()
            != ring.frames[b]@.descriptor_writes(
            texture_image_view,
            texture_sampler,
        )[j].bound_buffer(),
{
    let slots = ring.handles();
    lemma_no_shared_handles(slots, a, 0, b, 0);
    lemma_no_shared_handles(slots, a, 0, b, 1);
    lemma_no_shared_handles(slots, a, 0, b, 2);
    lemma_no_shared_handles(slots, a, 1, b, 0);
    lemma_no_shared_handles(slots, a, 1, b, 1);
    lemma_no_shared_handles(slots, a, 1, b, 2);
    lemma_no_shared_handles(slots, a, 2, b, 0);
    lemma_no_shared_handles(slots, a, 2, b, 1);
    lemma_no_shared_handles(slots, a, 2, b, 2);
}

/// A ring whose current slot was written through `get_mut_current_frame` is
/// still well formed and exclusive, provided the slot was left well formed
/// and over the same device objects.
pub proof fn lemma_slot_write_keeps_ring(before: FrameManagerView, slot: FrameData)
    requires
        before.wf(),
        slot.wf(),
        slot@.handles == before.current()@.handles,
    ensures
        (FrameManagerView {
            frames: before.frames.update(before.current_frame as int, slot),
            ..before
        }).wf(),
        (FrameManagerView {
            frames: before.frames.update(before.current_frame as int, slot),
            ..before
        }).resources() == before.resources(),
{
    let after = FrameManagerView {
        frames: before.frames.update(before.current_frame as int, slot),
        ..before
    };
    assert(after.handles() =~= before.handles());
}

/// Whether no handle occurs twice in `handles`.
pub fn all_distinct(handles: &Vec<ResourceHandle>) -> (r: bool)
    ensures
        r == handles@.no_duplicates(),
{
    let n: usize = handles.len();
    let mut i: usize = 0;
    while i < n
        invariant
            i <= n,
            n == handles@.len(),
            forall|a: int, b: int| 0 <= a < i && 0 <= b < n && a != b ==> handles@[a] != handles@[b],
        decreases n - i,
    {
        let mut j: usize = i + 1;
        while j < n
            invariant
                i < n,
                i < j <= n,
                n == handles@.len(),
                forall|b: int| i < b < j ==> handles@[i as int] != handles@[b],
            decreases n - j,
        {
            if handles[i] == handles[j] {
                return false;
            }
            j += 1;
        }
        i += 1;
    }
    true
}

/// The buffers and images of all of `slots`, slot after slot.
pub fn collect_resources(slots: &Vec<FrameHandles>) -> (r: Vec<ResourceHandle>)
    ensures
        r@ == all_resources(slots@),
{
    let n: usize = slots.len();
    let mut all: Vec<ResourceHandle> = Vec::new();
    let mut i: usize = 0;
    while i < n
        invariant
            i <= n,
            n == slots@.len(),
            all@.len() == i * 8,
            forall|k: int| 0 <= k < all@.len() ==> all@[k] == slots@[k / 8].resources()[k % 8],
        decreases n - i,
    {
        let mut own: Vec<ResourceHandle> = slots[i].resource_handles();
        all.append(&mut own);
        i += 1;
    }
    assert(all@ =~= all_resources(slots@));
    all
}

/// The frame ring.
#[derive(Debug)]
pub struct FrameManager {
    frames: Vec<FrameData>,
    current_frame: usize,
    frame_count: usize,
    gbuffer_pipeline: PipelineInfo,
    lighting_pipeline: PipelineInfo,
    model_ubo_alignment: u64,
}

impl View for FrameManager {
    type V = FrameManagerView;

    closed spec fn view(&self) -> FrameManagerView {
        FrameManagerView {
            frames: self.frames@,
            current_frame: self.current_frame as nat,
            frame_count: self.frame_count as nat,
            gbuffer_pipeline: self.gbuffer_pipeline,
            lighting_pipeline: self.lighting_pipeline,
            model_ubo_alignment: self.model_ubo_alignment,
        }
    }
}

impl FrameManager {
    /// The ring is well formed.
    pub open spec fn wf(&self) -> bool {
        self@.wf()
    }

    /// Builds the ring of `max_frames` slots over the device objects in
    /// `slots`, one entry per slot. Every slot gets a camera buffer of one
    /// record, a per-instance buffer of `mesh_count` records at the stride
    /// the device's alignment asks for, and a lighting buffer seeded with
    /// `lighting`; its images are those of a target of `extent2d`. The cursor
    /// starts on slot 0 and every slot starts free to be written.
    pub fn new(
        device_info: &DeviceInfo,
        layout: &UniformLayout,
        max_frames: usize,
        extent2d: Extent2D,
        mesh_count: usize,
        slots: Vec<FrameHandles>,
        lighting: &Vec<u8>,
        gbuffer_pipeline: PipelineInfo,
        lighting_pipeline: PipelineInfo,
    ) -> (r: Result<FrameManager, FrameError>)
        ensures
            match r {
                Ok(manager) => {
                    &&& construction_result(
                        *device_info,
                        *layout,
                        max_frames,
                        mesh_count,
                        slots@,
                        lighting@,
                    ) is Ok
                    &&& manager.wf()
                    &&& manager@.exclusive()
                    &&& manager@.resources() == all_resources(slots@)
                    &&& manager@.resources().len() == max_frames * RESOURCES_PER_SLOT
                    &&& manager@.frame_count == max_frames
                    &&& manager@.current_frame == 0
                    &&& manager@.gbuffer_pipeline == gbuffer_pipeline
                    &&& manager@.lighting_pipeline == lighting_pipeline
                    &&& stride_result(
                        layout.model_dynamic_size as u64,
                        device_info.min_uniform_buffer_offset_alignment,
                    ) == Ok::<u64, FrameError>(manager@.model_ubo_alignment)
                    &&& manager@.frames.len() == max_frames
                    &&& forall|i: int|
                        0 <= i < max_frames ==> (#[trigger] manager@.frames[i])@ == fresh_slot(
                            slots@[i],
                            *layout,
                            extent2d,
                            mesh_count,
                            manager@.model_ubo_alignment,
                            lighting@,
                        )
                },
                Err(e) => construction_result(
                    *device_info,
                    *layout,
                    max_frames,
                    mesh_count,
                    slots@,
                    lighting@,
                ) == Err::<(), FrameError>(e),
            },
    {
        if max_frames == 0 {
            return Err(FrameError::NoFrames);
        }
        if slots.len() != max_frames {
            return Err(FrameError::SlotCountMismatch);
        }
        let model_ubo_alignment: u64 = get_buffer_alignment(
            layout.model_dynamic_size as u64,
            device_info.min_uniform_buffer_offset_alignment,
        )?;
        let resources = collect_resources(&slots);
        if !all_distinct(&resources) {
            return Err(FrameError::SharedResource);
        }
        let mut frame_data: Vec<FrameData> = Vec::new();
        let mut frame: usize = 0;
        while frame < max_frames
            invariant
                frame <= max_frames,
                max_frames >= 1,
                slots@.len() == max_frames,
                stride_result(
                    layout.model_dynamic_size as u64,
                    device_info.min_uniform_buffer_offset_alignment,
                ) == Ok::<u64, FrameError>(model_ubo_alignment),
                all_resources(slots@).no_duplicates(),
                frame_data@.len() == frame,
                frame > 0 ==> single_record_layout(layout.camera_mvp_size) is Ok
                    && model_dynamic_layout(
                    layout.model_dynamic_size,
                    mesh_count,
                    model_ubo_alignment,
                ) is Ok && lighting_layout(layout.lighting_size, lighting@) is Ok,
                forall|i: int| 0 <= i < frame ==> (#[trigger] frame_data@[i]).wf(),
                forall|i: int|
                    0 <= i < frame ==> (#[trigger] frame_data@[i])@ == fresh_slot(
                        slots@[i],
                        *layout,
                        extent2d,
                        mesh_count,
                        model_ubo_alignment,
                        lighting@,
                    ),
            decreases max_frames - frame,
        {
            let camera_mvp_buffer = create_camera_mvp_buffer(layout.camera_mvp_size)?;
            let model_dynamic_buffer = create_model_dynamic_uniform_buffer(
                layout.model_dynamic_size,
                mesh_count,
                model_ubo_alignment,
            )?;
            let lighting_buffer = create_lighting_buffer(layout.lighting_size, lighting)?;
            let images = create_images(extent2d.width, extent2d.height);
            let sync = create_sync_objects();
            let slot = FrameData::new(
                slots[frame],
                images,
                camera_mvp_buffer,
                model_dynamic_buffer,
                lighting_buffer,
                sync,
            );
            frame_data.push(slot);
            frame += 1;
        }
        let manager = FrameManager {
            frames: frame_data,
            current_frame: 0,
            frame_count: max_frames,
            gbuffer_pipeline,
            lighting_pipeline,
            model_ubo_alignment,
        };
        assert(manager@.handles() =~= slots@);
        Ok(manager)
    }

    /// Moves the cursor to the next slot, and from the last slot back to the
    /// first. Nothing is waited for and no slot is touched.
    pub fn advance_frame(&mut self)
        requires
            old(self).wf(),
        ensures
            final(self).wf(),
            final(self)@ == (FrameManagerView {
                current_frame: next_index(old(self)@.current_frame, old(self)@.frame_count),
                ..old(self)@
            }),
    {
        self.current_frame = (self.current_frame + 1) % self.frame_count;
    }

    /// The slot under the cursor, to read.
    pub fn get_current_frame(&self) -> (r: &FrameData)
        requires
            self.wf(),
        ensures
            *r == self@.current(),
            r.wf(),
    {
        &self.frames[self.current_frame]
    }

    /// The slot under the cursor, to write. The ring afterwards is the ring
    /// before with that slot as the caller left it.
    pub fn get_mut_current_frame(&mut self) -> (r: &mut FrameData)
        requires
            old(self).wf(),
        ensures
            *r == old(self)@.current(),
            r.wf(),
            final(self)@ == (FrameManagerView {
                frames: old(self)@.frames.update(old(self)@.current_frame as int, *final(r)),
                ..old(self)@
            }),
    {
        &mut self.frames[self.current_frame]
    }

    /// The buffers and images of all slots, slot after slot.
    pub fn resource_handles(&self) -> (r: Vec<ResourceHandle>)
        ensures
            r@ == self@.resources(),
    {
        let n: usize = self.frames.len();
        let mut handles: Vec<FrameHandles> = Vec::new();
        let mut i: usize = 0;
        while i < n
            invariant
                i <= n,
                n == self.frames@.len(),
                handles@.len() == i,
                forall|k: int| 0 <= k < i ==> handles@[k] == self.frames@[k]@.handles,
            decreases n - i,
        {
            handles.push(*self.frames[i].handles());
            i += 1;
        }
        assert(handles@ =~= self@.handles());
        collect_resources(&handles)
    }

    /// All slots, in ring order.
    pub fn frames(&self) -> (r: &Vec<FrameData>)
        ensures
            r@ == self@.frames,
    {
        &self.frames
    }

    /// The index of the slot under the cursor.
    pub fn current_index(&self) -> (r: usize)
        ensures
            r == self@.current_frame,
    {
        self.current_frame
    }

    /// The number of slots.
    pub fn frame_count(&self) -> (r: usize)
        ensures
            r == self@.frame_count,
    {
        self.frame_count
    }

    /// The stride of the per-instance buffers.
    pub fn model_ubo_alignment(&self) -> (r: u64)
        ensures
            r == self@.model_ubo_alignment,
    {
        self.model_ubo_alignment
    }

    /// The pipeline of the geometry pass.
    pub fn gbuffer_pipeline(&self) -> (r: &PipelineInfo)
        ensures
            *r == self@.gbuffer_pipeline,
    {
        &self.gbuffer_pipeline
    }

    /// The pipeline of the lighting pass.
    pub fn lighting_pipeline(&self) -> (r: &PipelineInfo)
        ensures
            *r == self@.lighting_pipeline,
    {
        &self.lighting_pipeline
    }
}

} // verus!
