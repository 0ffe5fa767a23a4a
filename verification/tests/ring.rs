use frame_ring::error::FrameError;
use frame_ring::frame_data::SlotState;
use frame_ring::frame_manager::{all_distinct, collect_resources, DeviceInfo, FrameManager, UniformLayout};
use frame_ring::graphics_pipeline::PipelineInfo;
use frame_ring::resources::{
    AllocatedImage, BufferHandles, Extent2D, FrameHandles, ResourceHandle, ResourceKind,
};

const CAMERA_SIZE: usize = 128;
const MODEL_SIZE: usize = 64;
const LIGHTING_SIZE: usize = 48;

fn ring_image(base: u64) -> AllocatedImage {
    AllocatedImage { image: base, memory: base + 1, image_view: base + 2 }
}

fn ring_handles(slot: u64) -> FrameHandles {
    let base = 1000 * (slot + 1);
    FrameHandles {
        render_semaphore: base + 1,
        swapchain_semaphore: base + 2,
        render_fence: base + 3,
        command_buffer: base + 4,
        camera_mvp_buffer: BufferHandles { buffer: base + 10, memory: base + 11 },
        model_dynamic_buffer: BufferHandles { buffer: base + 12, memory: base + 13 },
        lighting_buffer: BufferHandles { buffer: base + 14, memory: base + 15 },
        descriptor_gbuffer_set: base + 20,
        descriptor_lighting_set: base + 21,
        albedo_image: ring_image(base + 30),
        albedo_sampler: base + 40,
        normal_image: ring_image(base + 50),
        normal_sampler: base + 60,
        depth_image: ring_image(base + 70),
        depth_sampler: base + 80,
        shadow_map_image: ring_image(base + 90),
        shadow_map_sampler: base + 100,
        draw_image: ring_image(base + 110),
    }
}

fn ring_slots(count: usize) -> Vec<FrameHandles> {
    (0..count as u64).map(ring_handles).collect()
}

fn ring_layout() -> UniformLayout {
    UniformLayout {
        camera_mvp_size: CAMERA_SIZE,
        model_dynamic_size: MODEL_SIZE,
        lighting_size: LIGHTING_SIZE,
    }
}

fn ring_build(
    alignment: u64,
    layout: UniformLayout,
    max_frames: usize,
    mesh_count: usize,
    slots: Vec<FrameHandles>,
    lighting: Vec<u8>,
) -> Result<FrameManager, FrameError> {
    FrameManager::new(
        &DeviceInfo { min_uniform_buffer_offset_alignment: alignment },
        &layout,
        max_frames,
        Extent2D { width: 1280, height: 720 },
        mesh_count,
        slots,
        &lighting,
        PipelineInfo::new(vec![7001], 7002),
        PipelineInfo::new(vec![7003], 7004),
    )
}

fn ring_of(max_frames: usize, mesh_count: usize) -> FrameManager {
    ring_build(
        256,
        ring_layout(),
        max_frames,
        mesh_count,
        ring_slots(max_frames),
        vec![9u8; LIGHTING_SIZE],
    )
    .unwrap()
}

fn ring_error(result: Result<FrameManager, FrameError>) -> FrameError {
    match result {
        Ok(_) => panic!("the ring was built"),
        Err(e) => e,
    }
}

#[test]
fn advance_cycles_through_three_slots() {
    let mut ring = ring_of(3, 4);
    assert_eq!(ring.current_index(), 0);
    let mut seen = Vec::new();
    for _ in 0..6 {
        ring.advance_frame();
        seen.push(ring.current_index());
    }
    assert_eq!(seen, vec![1, 2, 0, 1, 2, 0]);
}

#[test]
fn advance_returns_to_zero_every_frame_count_calls() {
    for frame_count in 1..=5usize {
        let mut ring = ring_of(frame_count, 1);
        for step in 1..=(3 * frame_count) {
            ring.advance_frame();
            assert_eq!(ring.current_index(), step % frame_count);
            assert!(ring.current_index() < ring.frame_count());
        }
        assert_eq!(ring.current_index(), 0);
    }
}

#[test]
fn single_slot_ring_stays_on_slot_zero() {
    let mut ring = ring_of(1, 1);
    ring.advance_frame();
    assert_eq!(ring.current_index(), 0);
    ring.advance_frame();
    assert_eq!(ring.current_index(), 0);
}

#[test]
fn minimal_ring_wraps_around() {
    let mut ring = ring_of(2, 5);
    assert_eq!(*ring.get_current_frame().handles(), ring_handles(0));
    ring.advance_frame();
    assert_eq!(*ring.get_current_frame().handles(), ring_handles(1));
    ring.advance_frame();
    assert_eq!(*ring.get_current_frame().handles(), ring_handles(0));
}

#[test]
fn advance_touches_no_slot() {
    let mut ring = ring_of(2, 5);
    ring.get_mut_current_frame().update_camera_mvp_buffer(vec![5u8; CAMERA_SIZE]).unwrap();
    ring.advance_frame();
    assert_eq!(ring.frames()[0].camera_mvp_buffer().contents(), &vec![5u8; CAMERA_SIZE]);
    assert_eq!(ring.frames()[1].camera_mvp_buffer().contents(), &vec![0u8; CAMERA_SIZE]);
    assert_eq!(ring.frames().len(), 2);
}

#[test]
fn construction_builds_fresh_slots() {
    let ring = ring_of(3, 5);
    assert_eq!(ring.frame_count(), 3);
    assert_eq!(ring.frames().len(), 3);
    assert_eq!(ring.current_index(), 0);
    assert_eq!(ring.model_ubo_alignment(), 256);
    assert_eq!(ring.gbuffer_pipeline().graphics_pipelines, vec![7001]);
    assert_eq!(ring.gbuffer_pipeline().pipeline_layout, 7002);
    assert_eq!(ring.lighting_pipeline().graphics_pipelines, vec![7003]);
    assert_eq!(ring.lighting_pipeline().pipeline_layout, 7004);
    for (i, frame) in ring.frames().iter().enumerate() {
        assert_eq!(*frame.handles(), ring_handles(i as u64));
        assert_eq!(frame.state(), SlotState::Ready);
        assert_eq!(frame.camera_mvp_buffer().contents(), &vec![0u8; CAMERA_SIZE]);
        assert_eq!(frame.camera_mvp_buffer().capacity(), 1);
        assert_eq!(frame.model_dynamic_buffer().contents(), &vec![0u8; 256 * 5]);
        assert_eq!(frame.model_dynamic_buffer().stride(), 256);
        assert_eq!(frame.model_dynamic_buffer().record_size(), MODEL_SIZE);
        assert_eq!(frame.model_dynamic_buffer().capacity(), 5);
        assert_eq!(frame.model_dynamic_buffer().description().size, 1280);
        assert_eq!(frame.lighting_buffer().contents(), &vec![9u8; LIGHTING_SIZE]);
        assert_eq!(frame.images().albedo.width, 1280);
        assert_eq!(frame.images().albedo.height, 720);
        assert_eq!(frame.images().shadow_map.width, 2048);
        assert_eq!(frame.images().shadow_map.height, 2048);
    }
}

#[test]
fn four_slots_own_thirty_two_distinct_resources() {
    let ring = ring_of(4, 2);
    let resources = ring.resource_handles();
    assert_eq!(resources.len(), 4 * (3 + 5));
    for a in 0..resources.len() {
        for b in (a + 1)..resources.len() {
            assert_ne!(resources[a], resources[b]);
        }
    }
    assert!(all_distinct(&resources));
    for slot in 0..4 {
        let own = ring.frames()[slot].handles().resource_handles();
        assert_eq!(own.len(), 8);
        assert_eq!(&resources[slot * 8..slot * 8 + 8], &own[..]);
        for other in 0..4 {
            if other != slot {
                let theirs = ring.frames()[other].handles().resource_handles();
                assert!(own.iter().all(|h| !theirs.contains(h)));
            }
        }
    }
}

#[test]
fn resources_of_a_slot_come_in_order() {
    let handles = ring_handles(0);
    let own = handles.resource_handles();
    let buffer = |raw| ResourceHandle { kind: ResourceKind::Buffer, raw };
    let image = |raw| ResourceHandle { kind: ResourceKind::Image, raw };
    assert_eq!(
        own,
        vec![
            buffer(1010),
            buffer(1012),
            buffer(1014),
            image(1030),
            image(1050),
            image(1070),
            image(1090),
            image(1110),
        ]
    );
    assert_eq!(collect_resources(&vec![handles, ring_handles(1)]).len(), 16);
}

#[test]
fn a_buffer_shared_by_two_slots_is_refused() {
    let mut slots = ring_slots(3);
    slots[2].lighting_buffer.buffer = slots[0].camera_mvp_buffer.buffer;
    let result = ring_build(256, ring_layout(), 3, 2, slots, vec![0u8; LIGHTING_SIZE]);
    assert_eq!(ring_error(result), FrameError::SharedResource);
}

#[test]
fn an_image_used_twice_in_one_slot_is_refused() {
    let mut slots = ring_slots(1);
    slots[0].draw_image.image = slots[0].albedo_image.image;
    let result = ring_build(256, ring_layout(), 1, 2, slots, vec![0u8; LIGHTING_SIZE]);
    assert_eq!(ring_error(result), FrameError::SharedResource);
}

#[test]
fn a_buffer_and_an_image_may_have_the_same_number() {
    let mut slots = ring_slots(2);
    slots[1].draw_image.image = slots[0].camera_mvp_buffer.buffer;
    let ring = ring_build(256, ring_layout(), 2, 2, slots, vec![0u8; LIGHTING_SIZE]).unwrap();
    assert!(all_distinct(&ring.resource_handles()));
}

#[test]
fn all_distinct_finds_a_repeat() {
    let h = |raw| ResourceHandle { kind: ResourceKind::Image, raw };
    assert!(all_distinct(&vec![]));
    assert!(all_distinct(&vec![h(1)]));
    assert!(all_distinct(&vec![h(1), h(2), h(3)]));
    assert!(!all_distinct(&vec![h(1), h(2), h(1)]));
    assert!(!all_distinct(&vec![h(1), h(2), h(3), h(3)]));
    assert!(all_distinct(&vec![h(1), ResourceHandle { kind: ResourceKind::Buffer, raw: 1 }]));
}

#[test]
fn a_ring_without_slots_is_refused() {
    let result = ring_build(256, ring_layout(), 0, 2, vec![], vec![0u8; LIGHTING_SIZE]);
    assert_eq!(ring_error(result), FrameError::NoFrames);
}

#[test]
fn a_wrong_number_of_slots_is_refused() {
    let result = ring_build(256, ring_layout(), 3, 2, ring_slots(2), vec![0u8; LIGHTING_SIZE]);
    assert_eq!(ring_error(result), FrameError::SlotCountMismatch);
}

#[test]
fn an_alignment_of_zero_is_refused() {
    let result = ring_build(0, ring_layout(), 2, 2, ring_slots(2), vec![0u8; LIGHTING_SIZE]);
    assert_eq!(ring_error(result), FrameError::ZeroAlignment);
}

#[test]
fn an_empty_record_is_refused() {
    for which in 0..3 {
        let mut layout = ring_layout();
        let mut lighting = vec![0u8; LIGHTING_SIZE];
        match which {
            0 => layout.camera_mvp_size = 0,
            1 => layout.model_dynamic_size = 0,
            _ => {
                layout.lighting_size = 0;
                lighting = vec![];
            }
        }
        let result = ring_build(256, layout, 2, 2, ring_slots(2), lighting);
        assert_eq!(ring_error(result), FrameError::EmptyRecord);
    }
}

#[test]
fn a_lighting_record_of_the_wrong_length_is_refused() {
    let result = ring_build(256, ring_layout(), 2, 2, ring_slots(2), vec![0u8; LIGHTING_SIZE - 1]);
    assert_eq!(ring_error(result), FrameError::RecordSize);
}

#[test]
fn an_instance_buffer_beyond_the_address_space_is_refused() {
    let result =
        ring_build(256, ring_layout(), 1, usize::MAX, ring_slots(1), vec![0u8; LIGHTING_SIZE]);
    assert_eq!(ring_error(result), FrameError::SizeOverflow);
}

#[test]
fn the_first_failing_check_decides() {
    let mut slots = ring_slots(2);
    slots[1].camera_mvp_buffer.buffer = slots[0].camera_mvp_buffer.buffer;
    let result = ring_build(0, ring_layout(), 2, 2, slots.clone(), vec![]);
    assert_eq!(ring_error(result), FrameError::ZeroAlignment);
    let result = ring_build(256, ring_layout(), 2, 2, slots.clone(), vec![]);
    assert_eq!(ring_error(result), FrameError::SharedResource);
    let result = ring_build(256, ring_layout(), 3, 2, slots, vec![]);
    assert_eq!(ring_error(result), FrameError::SlotCountMismatch);
}

#[test]
fn a_slot_in_flight_refuses_writes_until_completed() {
    let mut ring = ring_of(2, 2);
    let frame = ring.get_mut_current_frame();
    assert_eq!(frame.state(), SlotState::Ready);
    assert_eq!(frame.mark_submitted(), Ok(()));
    assert_eq!(frame.state(), SlotState::InFlight);
    assert_eq!(frame.mark_submitted(), Err(FrameError::InFlight));
    assert_eq!(frame.update_camera_mvp_buffer(vec![1u8; CAMERA_SIZE]), Err(FrameError::InFlight));
    assert_eq!(
        frame.update_model_dynamic_buffer(vec![1u8; MODEL_SIZE]),
        Err(FrameError::InFlight)
    );
    assert_eq!(
        frame.update_lighting_buffer(vec![1u8; LIGHTING_SIZE]),
        Err(FrameError::InFlight)
    );
    assert_eq!(frame.update_camera_mvp_buffer(vec![1u8; 3]), Err(FrameError::InFlight));
    assert_eq!(frame.camera_mvp_buffer().contents(), &vec![0u8; CAMERA_SIZE]);
    assert_eq!(frame.model_dynamic_buffer().contents(), &vec![0u8; 512]);
    assert_eq!(frame.lighting_buffer().contents(), &vec![9u8; LIGHTING_SIZE]);
    frame.mark_completed();
    assert_eq!(frame.state(), SlotState::Ready);
    assert_eq!(frame.update_camera_mvp_buffer(vec![1u8; CAMERA_SIZE]), Ok(()));
    assert_eq!(frame.camera_mvp_buffer().contents(), &vec![1u8; CAMERA_SIZE]);
    frame.mark_completed();
    assert_eq!(frame.state(), SlotState::Ready);
}

#[test]
fn the_host_prepares_the_next_slot_while_one_is_in_flight() {
    let mut ring = ring_of(2, 1);
    ring.get_mut_current_frame().update_camera_mvp_buffer(vec![1u8; CAMERA_SIZE]).unwrap();
    ring.get_mut_current_frame().mark_submitted().unwrap();
    ring.advance_frame();
    assert_eq!(ring.get_current_frame().state(), SlotState::Ready);
    ring.get_mut_current_frame().update_camera_mvp_buffer(vec![2u8; CAMERA_SIZE]).unwrap();
    ring.get_mut_current_frame().mark_submitted().unwrap();
    ring.advance_frame();
    assert_eq!(ring.get_current_frame().state(), SlotState::InFlight);
    assert_eq!(
        ring.get_mut_current_frame().update_camera_mvp_buffer(vec![3u8; CAMERA_SIZE]),
        Err(FrameError::InFlight)
    );
    ring.get_mut_current_frame().mark_completed();
    assert_eq!(
        ring.get_mut_current_frame().update_camera_mvp_buffer(vec![3u8; CAMERA_SIZE]),
        Ok(())
    );
    assert_eq!(ring.frames()[0].camera_mvp_buffer().contents(), &vec![3u8; CAMERA_SIZE]);
    assert_eq!(ring.frames()[1].camera_mvp_buffer().contents(), &vec![2u8; CAMERA_SIZE]);
}

#[test]
fn writes_keep_the_slots_apart() {
    let mut ring = ring_of(3, 2);
    let before = ring.resource_handles();
    ring.advance_frame();
    let frame = ring.get_mut_current_frame();
    frame.update_camera_mvp_buffer(vec![4u8; CAMERA_SIZE]).unwrap();
    frame.update_lighting_buffer(vec![6u8; LIGHTING_SIZE]).unwrap();
    frame.update_model_dynamic_buffer(vec![8u8; MODEL_SIZE]).unwrap();
    assert_eq!(ring.resource_handles(), before);
    assert_eq!(ring.frames()[0].lighting_buffer().contents(), &vec![9u8; LIGHTING_SIZE]);
    assert_eq!(ring.frames()[1].lighting_buffer().contents(), &vec![6u8; LIGHTING_SIZE]);
    assert_eq!(ring.frames()[2].lighting_buffer().contents(), &vec![9u8; LIGHTING_SIZE]);
    assert_eq!(*ring.frames()[1].handles(), ring_handles(1));
}
