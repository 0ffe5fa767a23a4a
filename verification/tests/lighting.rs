use frame_ring::frame_manager::{DeviceInfo, FrameManager, UniformLayout};
use frame_ring::graphics_pipeline::PipelineInfo;
use frame_ring::resources::{AllocatedImage, BufferHandles, Extent2D, FrameHandles};
use nalgebra_glm::{normalize, vec3, vec3_to_vec4, vec4, Vec4};

fn lighting_handles(slot: u64) -> FrameHandles {
    let base = 500 * (slot + 1);
    let image = |at: u64| AllocatedImage { image: at, memory: at + 1, image_view: at + 2 };
    FrameHandles {
        render_semaphore: base + 1,
        swapchain_semaphore: base + 2,
        render_fence: base + 3,
        command_buffer: base + 4,
        camera_mvp_buffer: BufferHandles { buffer: base + 10, memory: base + 11 },
        model_dynamic_buffer: BufferHandles { buffer: base + 12, memory: base + 13 },
        lighting_buffer: BufferHandles { buffer: base + 14, memory: base + 15 },
        descriptor_gbuffer_set: base + 20,
        descriptor_lighting_set: base + 21,
        albedo_image: image(base + 30),
        albedo_sampler: base + 40,
        normal_image: image(base + 50),
        normal_sampler: base + 60,
        depth_image: image(base + 70),
        depth_sampler: base + 80,
        shadow_map_image: image(base + 90),
        shadow_map_sampler: base + 100,
        draw_image: image(base + 110),
    }
}

fn light_bytes(vectors: &[Vec4]) -> Vec<u8> {
    let mut bytes = Vec::new();
    for v in vectors {
        for c in v.iter() {
            bytes.extend_from_slice(&c.to_ne_bytes());
        }
    }
    bytes
}

fn light_floats(bytes: &[u8]) -> Vec<f32> {
    bytes.chunks(4).map(|c| f32::from_ne_bytes([c[0], c[1], c[2], c[3]])).collect()
}

fn default_light() -> Vec<u8> {
    let light_dir = normalize(&vec3(-1.0f32, -1.0, -1.0));
    light_bytes(&[
        vec3_to_vec4(&light_dir),
        vec4(1.0, 1.0, 0.0, 2.0),
        vec4(0.1, 0.1, 0.1, 0.2),
    ])
}

fn lit_ring(max_frames: usize) -> FrameManager {
    FrameManager::new(
        &DeviceInfo { min_uniform_buffer_offset_alignment: 64 },
        &UniformLayout { camera_mvp_size: 128, model_dynamic_size: 64, lighting_size: 48 },
        max_frames,
        Extent2D { width: 640, height: 480 },
        3,
        (0..max_frames as u64).map(lighting_handles).collect(),
        &default_light(),
        PipelineInfo::new(vec![1], 2),
        PipelineInfo::new(vec![3], 4),
    )
    .unwrap()
}

#[test]
fn every_slot_starts_with_the_default_light() {
    let ring = lit_ring(3);
    for frame in ring.frames() {
        let light = light_floats(frame.lighting_buffer().contents());
        assert_eq!(light.len(), 12);
        let magnitude = (light[0] * light[0] + light[1] * light[1] + light[2] * light[2]).sqrt();
        assert!((magnitude - 1.0).abs() < 1e-6);
        for c in &light[0..3] {
            assert!(*c < 0.0);
            assert!((c + 1.0 / 3.0f32.sqrt()).abs() < 1e-6);
        }
        assert_eq!(light[3], 0.0);
        assert_eq!(&light[4..8], &[1.0, 1.0, 0.0, 2.0]);
        assert_eq!(&light[8..12], &[0.1, 0.1, 0.1, 0.2]);
    }
}

#[test]
fn the_default_light_stays_until_lighting_is_set() {
    let mut ring = lit_ring(2);
    let frame = ring.get_mut_current_frame();
    frame.update_camera_mvp_buffer(vec![1u8; 128]).unwrap();
    frame.update_model_dynamic_buffer(vec![2u8; 64 * 3]).unwrap();
    frame.mark_submitted().unwrap();
    frame.mark_completed();
    assert_eq!(frame.lighting_buffer().contents(), &default_light());
    ring.advance_frame();
    assert_eq!(ring.get_current_frame().lighting_buffer().contents(), &default_light());
    ring.advance_frame();
    let dimmed = light_bytes(&[
        vec4(0.0, -1.0, 0.0, 0.0),
        vec4(1.0, 1.0, 1.0, 0.5),
        vec4(0.0, 0.0, 0.0, 0.0),
    ]);
    ring.get_mut_current_frame().update_lighting_buffer(dimmed.clone()).unwrap();
    assert_eq!(ring.frames()[0].lighting_buffer().contents(), &dimmed);
    assert_eq!(ring.frames()[1].lighting_buffer().contents(), &default_light());
}
