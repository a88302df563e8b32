use ash_runner::driver::{handle_event, panic as abort_action, FatalFailure, LoopAction, Options, WindowEvent};
use ash_runner::frame::{frame_commands, FrameOp, TRIANGLE_VERTICES};
use ash_runner::pipeline::{
    BlendFactor, BlendOp, CompareOp, DynamicState, FragmentShaderEntryPoint, LogicOp, StencilOp,
    COLOR_COMPONENTS_ALL, PipelineDescriptor, PipelineManager, PipelineStages,
    PolygonMode, ShaderConstants, Topology, VertexShaderEntryPoint, PUSH_CONSTANT_SIZE,
};
use ash_runner::registry::ShaderModuleRegistry;
use ash_runner::reload::HotReload;
use ash_runner::swapchain::{
    build_plan, choose_present_mode, desired_image_count, pre_transform, recreate_plan, surface_resolution,
    swapchain_settings, ChainCommand, ChainResources, Extent2D, PresentMode, SurfaceCapabilities,
    EXTENT_FROM_WINDOW, TRANSFORM_IDENTITY,
};

fn pair(vs: &str, vs_entry: &str, fs: &str, fs_entry: &str) -> (VertexShaderEntryPoint, FragmentShaderEntryPoint) {
    (
        VertexShaderEntryPoint { module: vs.to_string(), entry_point: vs_entry.to_string() },
        FragmentShaderEntryPoint { module: fs.to_string(), entry_point: fs_entry.to_string() },
    )
}

fn caps(min: u32, max: u32, width: u32, height: u32) -> SurfaceCapabilities {
    SurfaceCapabilities {
        min_image_count: min,
        max_image_count: max,
        current_extent: Extent2D { width, height },
        supported_transforms: TRANSFORM_IDENTITY | 2,
        current_transform: 2,
    }
}

#[test]
fn registry_replaces_and_returns_old_handle() {
    let mut reg = ShaderModuleRegistry::new();
    assert_eq!(reg.insert("sky_shader".to_string(), 10), None);
    assert_eq!(reg.insert("other".to_string(), 11), None);
    assert_eq!(reg.insert("sky_shader".to_string(), 12), Some(10));
    assert_eq!(reg.get(&"sky_shader".to_string()), Some(12));
    assert_eq!(reg.get(&"other".to_string()), Some(11));
    assert_eq!(reg.get(&"missing".to_string()), None);
    assert_eq!(reg.entries.len(), 2);
}

#[test]
fn two_pairs_build_two_pipelines() {
    let mut reg = ShaderModuleRegistry::new();
    reg.insert("sky_vertex".to_string(), 1);
    reg.insert("sky_fragment".to_string(), 2);
    let mut manager = PipelineManager::new();
    manager.set_shader_set(vec![
        pair("sky_vertex", "main_vs", "sky_fragment", "main_fs"),
        pair("sky_vertex", "main_vs", "sky_fragment", "main_fs"),
    ]);
    let descs = manager.plan_rebuild(&reg).unwrap();
    assert_eq!(descs.len(), 2);
    let old = manager.install(descs, &vec![100, 101], 7);
    assert!(old.is_empty());
    assert_eq!(manager.len(), 2);
    for (i, p) in manager.pipelines.iter().enumerate() {
        assert_eq!(p.pipeline, 100 + i as u64);
        assert_eq!(p.pipeline_layout, 7);
        assert_eq!(p.descriptor.stages.vertex_module, 1);
        assert_eq!(p.descriptor.stages.fragment_module, 2);
        assert_eq!(p.descriptor.stages.vertex_entry, "main_vs");
        assert_eq!(p.descriptor.stages.fragment_entry, "main_fs");
    }
}

#[test]
fn rebuild_after_reload_uses_newest_modules() {
    let mut reg = ShaderModuleRegistry::new();
    reg.insert("sky_shader".to_string(), 1);
    let mut manager = PipelineManager::new();
    manager.set_shader_set(vec![pair("sky_shader", "main_vs", "sky_shader", "main_fs")]);
    let descs = manager.plan_rebuild(&reg).unwrap();
    manager.install(descs, &vec![50], 3);
    assert_eq!(reg.insert("sky_shader".to_string(), 2), Some(1));
    let descs = manager.plan_rebuild(&reg).unwrap();
    let old = manager.install(descs, &vec![51], 4);
    assert_eq!(old.len(), 1);
    assert_eq!(old[0].pipeline, 50);
    assert_eq!(manager.pipelines[0].descriptor.stages.vertex_module, 2);
    assert_eq!(manager.pipelines[0].descriptor.stages.fragment_module, 2);
}

#[test]
fn unresolved_module_keeps_pipelines() {
    let mut reg = ShaderModuleRegistry::new();
    reg.insert("sky_shader".to_string(), 1);
    let mut manager = PipelineManager::new();
    manager.set_shader_set(vec![pair("sky_shader", "main_vs", "sky_shader", "main_fs")]);
    let descs = manager.plan_rebuild(&reg).unwrap();
    manager.install(descs, &vec![50], 3);
    manager.set_shader_set(vec![pair("sky_shader", "main_vs", "missing", "main_fs")]);
    let err = manager.plan_rebuild(&reg).unwrap_err();
    assert_eq!(err.module, "missing");
    assert_eq!(manager.len(), 1);
    assert_eq!(manager.pipelines[0].pipeline, 50);
}

#[test]
fn descriptor_fixed_state() {
    let d = PipelineDescriptor::new(PipelineStages {
        vertex_module: 1,
        vertex_entry: "main_vs".to_string(),
        fragment_module: 2,
        fragment_entry: "main_fs".to_string(),
    });
    assert_eq!(d.topology, Topology::TriangleList);
    assert_eq!(d.polygon_mode, PolygonMode::Fill);
    assert_eq!(d.sample_count, 1);
    assert!(!d.depth_test && !d.depth_write);
    assert_eq!(d.depth_compare_op, CompareOp::Always);
    for s in [d.stencil_front, d.stencil_back] {
        assert_eq!(s.fail_op, StencilOp::Keep);
        assert_eq!(s.pass_op, StencilOp::Keep);
        assert_eq!(s.depth_fail_op, StencilOp::Keep);
        assert_eq!(s.compare_op, CompareOp::Always);
    }
    assert_eq!(d.color_blend_attachments.len(), 1);
    let a = d.color_blend_attachments[0];
    assert!(!a.blend_enable);
    assert_eq!(a.src_color_blend_factor, BlendFactor::SrcColor);
    assert_eq!(a.dst_color_blend_factor, BlendFactor::OneMinusDstColor);
    assert_eq!(a.src_alpha_blend_factor, BlendFactor::Zero);
    assert_eq!(a.dst_alpha_blend_factor, BlendFactor::Zero);
    assert_eq!(a.color_blend_op, BlendOp::Add);
    assert_eq!(a.alpha_blend_op, BlendOp::Add);
    assert_eq!(a.color_write_mask, COLOR_COMPONENTS_ALL);
    assert_eq!(d.logic_op, LogicOp::Clear);
    assert_eq!(d.dynamic_state, vec![DynamicState::Viewport, DynamicState::Scissor]);
    assert_eq!(d.push_constant_size, PUSH_CONSTANT_SIZE);
    assert_eq!(PUSH_CONSTANT_SIZE as usize, std::mem::size_of::<ShaderConstants>());
}

#[test]
fn image_count_is_min_plus_one_clamped() {
    assert_eq!(desired_image_count(&caps(2, 8, 1, 1)), 3);
    assert_eq!(desired_image_count(&caps(2, 2, 1, 1)), 2);
    assert_eq!(desired_image_count(&caps(2, 0, 1, 1)), 3);
}

#[test]
fn transform_prefers_identity() {
    assert_eq!(pre_transform(&caps(1, 0, 1, 1)), TRANSFORM_IDENTITY);
    let mut c = caps(1, 0, 1, 1);
    c.supported_transforms = 2 | 4;
    c.current_transform = 4;
    assert_eq!(pre_transform(&c), 4);
}

#[test]
fn present_mode_prefers_mailbox() {
    assert_eq!(
        choose_present_mode(&vec![PresentMode::Fifo, PresentMode::Mailbox]),
        PresentMode::Mailbox
    );
    assert_eq!(
        choose_present_mode(&vec![PresentMode::Immediate, PresentMode::Fifo]),
        PresentMode::Fifo
    );
    assert_eq!(choose_present_mode(&vec![]), PresentMode::Fifo);
}

#[test]
fn resolution_follows_surface_or_window() {
    let window = Extent2D { width: 1280, height: 720 };
    assert_eq!(surface_resolution(&caps(1, 0, 800, 600), window), Extent2D { width: 800, height: 600 });
    assert_eq!(surface_resolution(&caps(1, 0, EXTENT_FROM_WINDOW, EXTENT_FROM_WINDOW), window), window);
}

fn generation(base: u64, extent: Extent2D) -> ChainResources {
    ChainResources {
        swapchain: base,
        image_views: vec![base + 1, base + 2, base + 3],
        render_pass: base + 4,
        framebuffers: vec![base + 5, base + 6, base + 7],
        draw_command_buffer: base + 8,
        setup_command_buffer: base + 9,
        extent,
    }
}

fn rank(c: &ChainCommand) -> u32 {
    match c {
        ChainCommand::WaitIdle => 0,
        ChainCommand::DestroyFramebuffer(_) => 1,
        ChainCommand::FreeCommandBuffers(_, _) => 2,
        ChainCommand::DestroyRenderPass(_) => 3,
        ChainCommand::DestroyImageView(_) => 4,
        ChainCommand::DestroySwapchain(_) => 5,
        _ => 6,
    }
}

#[test]
fn recreate_destroys_in_order_before_creating() {
    let c = caps(2, 0, EXTENT_FROM_WINDOW, EXTENT_FROM_WINDOW);
    let modes = vec![PresentMode::Fifo];
    let mut current = generation(0, Extent2D { width: 1280, height: 720 });
    for step in 1..=50u32 {
        let window = Extent2D { width: 100 + step * 7 % 300, height: 50 + step * 13 % 200 };
        let settings = swapchain_settings(&c, &modes, window);
        assert_eq!(settings.extent, window);
        let plan = recreate_plan(&current, settings);
        assert_eq!(plan[0], ChainCommand::WaitIdle);
        assert!(plan.windows(2).all(|w| rank(&w[0]) <= rank(&w[1])));
        let first_create = plan.iter().position(|c| rank(c) == 6).unwrap();
        for f in &current.framebuffers {
            let at = plan.iter().position(|c| *c == ChainCommand::DestroyFramebuffer(*f)).unwrap();
            assert!(at < first_create);
            assert_eq!(plan.iter().filter(|c| **c == ChainCommand::DestroyFramebuffer(*f)).count(), 1);
        }
        for v in &current.image_views {
            let at = plan.iter().position(|c| *c == ChainCommand::DestroyImageView(*v)).unwrap();
            assert!(at < first_create);
            assert_eq!(plan.iter().filter(|c| **c == ChainCommand::DestroyImageView(*v)).count(), 1);
        }
        assert_eq!(
            &plan[first_create..],
            &[
                ChainCommand::CreateSwapchain(settings),
                ChainCommand::CreateImageViews,
                ChainCommand::CreateRenderPass,
                ChainCommand::AllocateCommandBuffers,
                ChainCommand::CreateFramebuffers(window),
            ]
        );
        assert_eq!(plan.len(), 1 + 3 + 2 + 3 + 1 + 5);
        current = generation(step as u64 * 100, settings.extent);
    }
}

#[test]
fn resize_recreates_chain_and_keeps_pipelines() {
    let mut reg = ShaderModuleRegistry::new();
    reg.insert("sky_shader".to_string(), 1);
    let mut manager = PipelineManager::new();
    manager.set_shader_set(vec![pair("sky_shader", "main_vs", "sky_shader", "main_fs")]);
    let descs = manager.plan_rebuild(&reg).unwrap();
    manager.install(descs, &vec![50], 3);

    let mut state = HotReload::new();
    let size = Extent2D { width: 1024, height: 768 };
    match handle_event(&mut state, WindowEvent::Resized(size)) {
        LoopAction::RecreateSwapchain(s) => {
            let c = caps(2, 3, EXTENT_FROM_WINDOW, EXTENT_FROM_WINDOW);
            let settings = swapchain_settings(&c, &vec![PresentMode::Mailbox], s);
            assert_eq!(settings.extent, size);
            assert_eq!(settings.image_count, 3);
            assert_eq!(settings.present_mode, PresentMode::Mailbox);
        }
        other => panic!("expected a recreation, got {:?}", other),
    }
    assert!(!state.compiling && !state.rebuild_pending);
    assert_eq!(manager.len(), 1);
    assert_eq!(manager.pipelines[0].pipeline, 50);
    assert_eq!(manager.pipelines[0].descriptor.stages.vertex_module, 1);
}

#[test]
fn frames_wait_on_fence_before_recording() {
    let mut reg = ShaderModuleRegistry::new();
    reg.insert("s".to_string(), 1);
    let mut manager = PipelineManager::new();
    manager.set_shader_set(vec![pair("s", "main_vs", "s", "main_fs"), pair("s", "main_vs", "s", "main_fs")]);
    let descs = manager.plan_rebuild(&reg).unwrap();
    manager.install(descs, &vec![40, 41], 9);
    let extent = Extent2D { width: 640, height: 480 };
    let chain = generation(0, extent);
    let mut all = Vec::new();
    for frame in 0..5u32 {
        let ops = frame_commands(&chain, &manager.pipelines, frame % 3).unwrap();
        assert_eq!(ops.len(), 2 * 13 + 1);
        assert_eq!(*ops.last().unwrap(), FrameOp::Present(frame % 3));
        all.extend(ops);
    }
    let mut waited = false;
    let mut reset = false;
    let mut begins = 0;
    for op in &all {
        match op {
            FrameOp::WaitDrawFence => waited = true,
            FrameOp::ResetDrawFence => {
                assert!(waited);
                reset = true;
            }
            FrameOp::BeginCommandBuffer => {
                assert!(waited && reset);
                begins += 1;
            }
            FrameOp::Submit => {
                waited = false;
                reset = false;
            }
            FrameOp::PushConstants { layout, constants } => {
                assert_eq!(*layout, 9);
                assert_eq!(*constants, ShaderConstants { width: 640, height: 480 });
            }
            FrameOp::Draw { vertex_count, instance_count } => {
                assert_eq!(*vertex_count, TRIANGLE_VERTICES);
                assert_eq!(*instance_count, 1);
            }
            _ => {}
        }
    }
    assert_eq!(begins, 10);
    assert!(frame_commands(&chain, &manager.pipelines, 3).is_none());
}

#[test]
fn fatal_failure_aborts() {
    assert!(matches!(abort_action(FatalFailure::AcquirePresent), LoopAction::Abort(FatalFailure::AcquirePresent)));
    assert!(matches!(abort_action(FatalFailure::DeviceResource), LoopAction::Abort(FatalFailure::DeviceResource)));
    let o = Options { debug_layer: true };
    assert!(o.debug_layer);
}

#[test]
fn first_generation_is_built_in_dependency_order() {
    let settings = swapchain_settings(
        &caps(1, 0, 800, 600),
        &vec![PresentMode::Immediate],
        Extent2D { width: 1, height: 1 },
    );
    assert_eq!(settings.image_count, 2);
    assert_eq!(settings.present_mode, PresentMode::Fifo);
    assert_eq!(settings.pre_transform, TRANSFORM_IDENTITY);
    assert_eq!(
        build_plan(settings),
        vec![
            ChainCommand::CreateSwapchain(settings),
            ChainCommand::CreateImageViews,
            ChainCommand::CreateRenderPass,
            ChainCommand::AllocateCommandBuffers,
            ChainCommand::CreateFramebuffers(Extent2D { width: 800, height: 600 }),
        ]
    );
}
