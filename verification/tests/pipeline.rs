use frame_ring::graphics_pipeline::{
    BlendFactor, BlendOp, CullMode, FixedFunctionState, FrontFace, LogicOp, PipelineInfo,
    PolygonMode, PrimitiveTopology, ShaderError, COLOR_COMPONENT_RGBA, FRAGMENT_SHADER,
    SHADER_ENTRY_POINT, SHADER_EXTENSION, SHADER_PATH, VERTEX_SHADER,
};

#[test]
fn shared_pipelines_draw_culled_triangle_lists_without_blending() {
    let state = PipelineInfo::fixed_function_state();
    assert_eq!(state.topology, PrimitiveTopology::TriangleList);
    assert_eq!(state.cull_mode, CullMode::Back);
    assert_eq!(state.front_face, FrontFace::Clockwise);
    assert!(!state.blend);
    assert_eq!((state.viewport_count, state.scissor_count), (1, 1));
    assert!(state.dynamic_viewport && state.dynamic_scissor);
    assert_eq!(state.subpass, 0);
    assert_eq!(
        state,
        FixedFunctionState {
            topology: PrimitiveTopology::TriangleList,
            primitive_restart: true,
            viewport_count: 1,
            scissor_count: 1,
            dynamic_viewport: true,
            dynamic_scissor: true,
            depth_clamp: false,
            depth_bias: false,
            rasterizer_discard: false,
            polygon_mode: PolygonMode::Fill,
            cull_mode: CullMode::Back,
            front_face: FrontFace::Clockwise,
            rasterization_samples: 1,
            sample_shading: false,
            alpha_to_coverage: false,
            alpha_to_one: false,
            blend: false,
            color_write_mask: COLOR_COMPONENT_RGBA,
            src_color_blend_factor: BlendFactor::One,
            dst_color_blend_factor: BlendFactor::Zero,
            color_blend_op: BlendOp::Add,
            src_alpha_blend_factor: BlendFactor::One,
            dst_alpha_blend_factor: BlendFactor::Zero,
            alpha_blend_op: BlendOp::Add,
            logic_op: Some(LogicOp::Copy),
            subpass: 0,
        }
    );
    assert_eq!(COLOR_COMPONENT_RGBA, 0xf);
}

#[test]
fn shader_files_are_named_by_logical_name_and_extension() {
    assert_eq!(PipelineInfo::shader_file_name(VERTEX_SHADER), "vert.spv");
    assert_eq!(PipelineInfo::shader_file_name(FRAGMENT_SHADER), "frag.spv");
    assert_eq!(PipelineInfo::shader_file_name("gbuffer.vert"), "gbuffer.vert.spv");
    assert_eq!(PipelineInfo::shader_file_name(""), ".spv");
    assert_eq!(SHADER_EXTENSION, ".spv");
    assert_eq!(SHADER_PATH, ".\\src\\shaders");
    assert_eq!(SHADER_ENTRY_POINT, "main");
}

#[test]
fn shader_code_is_read_four_bytes_to_a_word() {
    let code = vec![0x03, 0x02, 0x23, 0x07, 0x00, 0x00, 0x01, 0x00, 0xff, 0xff, 0xff, 0xff];
    assert_eq!(
        PipelineInfo::create_shader_module(&code),
        Ok(vec![0x0723_0203, 0x0001_0000, 0xffff_ffff])
    );
    assert_eq!(PipelineInfo::create_shader_module(&vec![1, 0, 0, 0]), Ok(vec![1]));
    assert_eq!(PipelineInfo::create_shader_module(&vec![0, 0, 0, 0x80]), Ok(vec![0x8000_0000]));
    let words = PipelineInfo::create_shader_module(&code).unwrap();
    let back: Vec<u8> = words.iter().flat_map(|w| w.to_le_bytes()).collect();
    assert_eq!(back, code);
}

#[test]
fn shader_code_must_be_whole_words() {
    assert_eq!(PipelineInfo::create_shader_module(&vec![]), Err(ShaderError::Empty));
    assert_eq!(PipelineInfo::create_shader_module(&vec![1]), Err(ShaderError::Unaligned));
    assert_eq!(PipelineInfo::create_shader_module(&vec![1, 2, 3]), Err(ShaderError::Unaligned));
    assert_eq!(
        PipelineInfo::create_shader_module(&vec![1, 2, 3, 4, 5]),
        Err(ShaderError::Unaligned)
    );
    assert_eq!(PipelineInfo::create_shader_module(&vec![0; 7]), Err(ShaderError::Unaligned));
}

#[test]
fn a_pipeline_keeps_its_handles() {
    let pipeline = PipelineInfo::new(vec![11, 12], 13);
    assert_eq!(pipeline.graphics_pipelines, vec![11, 12]);
    assert_eq!(pipeline.pipeline_layout, 13);
    let empty = PipelineInfo::new(vec![], 0);
    assert!(empty.graphics_pipelines.is_empty());
}
