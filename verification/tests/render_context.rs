use rasmalai_ui::render::action::{Action, FatalError};
use rasmalai_ui::render::compositor::{BindGroup, Compositor};
use rasmalai_ui::render::compositor::{BLIT_INSTANCES, BLIT_VERTICES, SAMPLER_BINDING, TEXTURE_BINDING};
use rasmalai_ui::render::context::FrameStage;
use rasmalai_ui::render::scene::{Antialiasing, RenderOutcome, RenderParams, Rgb8, SceneRenderers};
use rasmalai_ui::render::surface::{AcquireOutcome, Acquisition};
use rasmalai_ui::render::surface::{PhysicalSize, PresentMode, Surface, SurfaceFormat};
use rasmalai_ui::render::target::{IntermediateTarget, Target};
use rasmalai_ui::render::RenderContext;

fn surface_on(width: u32, height: u32, dev_id: usize) -> Surface {
    Surface::new(
        PhysicalSize::new(width, height),
        SurfaceFormat::Rgba8Unorm,
        PresentMode::AutoVsync,
        dev_id,
    )
}

fn presented_once(width: u32, height: u32) -> RenderContext {
    let mut context = RenderContext::new(surface_on(width, height, 0), false);
    context.render();
    context.frame_rendered(RenderOutcome::Completed).unwrap();
    context.frame_acquired(AcquireOutcome::Acquired).unwrap();
    context
}

#[test]
fn physical_size_without_area() {
    assert!(PhysicalSize::new(0, 0).is_empty());
    assert!(PhysicalSize::new(0, 5).is_empty());
    assert!(PhysicalSize::new(5, 0).is_empty());
    assert!(!PhysicalSize::new(1, 1).is_empty());
    assert_eq!(PhysicalSize::new(3, 4), PhysicalSize { width: 3, height: 4 });
}

#[test]
fn surface_resize_rejects_zero_sides() {
    let mut surface = surface_on(800, 600, 2);
    assert!(!surface.resize(0, 300));
    assert_eq!(surface, surface_on(800, 600, 2));
    assert!(!surface.resize(400, 0));
    assert_eq!(surface, surface_on(800, 600, 2));
    assert!(!surface.resize(0, 0));
    assert_eq!(surface, surface_on(800, 600, 2));
    assert!(surface.is_live());
}

#[test]
fn surface_resize_replaces_size_only() {
    let mut surface = surface_on(800, 600, 2);
    assert!(surface.resize(400, 300));
    assert_eq!(surface, surface_on(400, 300, 2));
    assert_eq!(surface.size(), PhysicalSize::new(400, 300));
    // The same size again is applied again.
    assert!(surface.resize(400, 300));
    assert_eq!(surface, surface_on(400, 300, 2));
}

#[test]
fn surface_without_area_is_not_live() {
    assert!(!surface_on(0, 600, 0).is_live());
    assert!(!surface_on(800, 0, 0).is_live());
    assert!(surface_on(1, 1, 0).is_live());
}

#[test]
fn acquisition_classes() {
    assert_eq!(AcquireOutcome::Acquired.classify(), Acquisition::Frame);
    assert_eq!(AcquireOutcome::Timeout.classify(), Acquisition::Retryable);
    assert_eq!(AcquireOutcome::Outdated.classify(), Acquisition::Retryable);
    assert_eq!(AcquireOutcome::Lost.classify(), Acquisition::Retryable);
    assert_eq!(AcquireOutcome::OutOfMemory.classify(), Acquisition::Fatal);
    assert_eq!(AcquireOutcome::Other.classify(), Acquisition::Fatal);
}

#[test]
fn target_ensure_creates_once_per_size() {
    let mut slot = IntermediateTarget::new();
    assert_eq!(slot, IntermediateTarget { current: None, created: 0 });
    assert!(slot.ensure(800, 600));
    assert_eq!(slot.current, Some(Target { width: 800, height: 600, generation: 1 }));
    assert!(!slot.ensure(800, 600));
    assert_eq!(slot.current, Some(Target { width: 800, height: 600, generation: 1 }));
    assert!(slot.ensure(800, 601));
    assert_eq!(slot.current, Some(Target { width: 800, height: 601, generation: 2 }));
    assert!(slot.ensure(799, 601));
    assert_eq!(slot.current, Some(Target { width: 799, height: 601, generation: 3 }));
    slot.invalidate();
    assert_eq!(slot, IntermediateTarget { current: None, created: 3 });
    assert!(slot.ensure(799, 601));
    assert_eq!(slot.current, Some(Target { width: 799, height: 601, generation: 4 }));
}

#[test]
fn target_generation_wraps() {
    let mut slot = IntermediateTarget {
        current: Some(Target { width: 1, height: 1, generation: u64::MAX }),
        created: u64::MAX,
    };
    assert!(slot.ensure(2, 2));
    assert_eq!(slot.current, Some(Target { width: 2, height: 2, generation: 0 }));
    assert_eq!(slot.created, 0);
}

#[test]
fn compositor_rebuilds_for_another_target() {
    let first = Target { width: 8, height: 8, generation: 1 };
    let second = Target { width: 8, height: 8, generation: 2 };
    let mut compositor = Compositor::new();
    assert_eq!(compositor.bind_group, None);
    assert!(compositor.bind_group(first));
    assert_eq!(compositor.bind_group, Some(BindGroup { target_generation: 1 }));
    assert!(!compositor.bind_group(first));
    assert!(compositor.bind_group(second));
    assert_eq!(compositor.bind_group, Some(BindGroup { target_generation: 2 }));
    compositor.invalidate();
    assert_eq!(compositor, Compositor { bind_group: None });
}

#[test]
fn blit_layout_is_fixed() {
    assert_eq!(BLIT_VERTICES, 3);
    assert_eq!(BLIT_INSTANCES, 1);
    assert_eq!(TEXTURE_BINDING, 0);
    assert_eq!(SAMPLER_BINDING, 1);
}

#[test]
fn renderers_are_created_lazily_and_kept() {
    let mut renderers = SceneRenderers::new();
    assert!(!renderers.has(0));
    assert!(!renderers.has(3));
    assert!(renderers.ensure(3));
    assert!(renderers.has(3));
    assert!(!renderers.has(0));
    assert!(!renderers.has(2));
    assert!(!renderers.has(4));
    assert!(!renderers.ensure(3));
    assert!(renderers.ensure(1));
    assert!(renderers.has(1));
    assert!(renderers.has(3));
    assert!(renderers.ensure(5));
    assert!(renderers.has(1));
    assert!(renderers.has(3));
    assert!(renderers.has(5));
    assert!(!renderers.has(4));
}

#[test]
fn frame_params_are_dark_grey_area() {
    assert_eq!(
        RenderParams::for_frame(640, 480),
        RenderParams {
            base_color: Rgb8 { r: 20, g: 20, b: 20 },
            width: 640,
            height: 480,
            antialiasing: Antialiasing::Area,
        }
    );
}

#[test]
fn new_context_has_renderer_of_its_device_only() {
    let context = RenderContext::new(surface_on(800, 600, 2), true);
    assert!(context.has_renderer(2));
    assert!(!context.has_renderer(0));
    assert!(!context.has_renderer(1));
    assert!(!context.has_renderer(3));
    assert!(context.use_cpu());
    assert_eq!(context.surface(), surface_on(800, 600, 2));
    assert_eq!(context.window_size(), PhysicalSize::new(800, 600));
    assert_eq!(context.target(), IntermediateTarget { current: None, created: 0 });
    assert_eq!(context.compositor(), Compositor { bind_group: None });
    assert_eq!(context.stage(), FrameStage::Idle);
    assert_eq!(
        context.setup(),
        vec![
            Action::CreateRenderer { dev_id: 2, use_cpu: true },
            Action::CreateCompositor { format: SurfaceFormat::Rgba8Unorm },
        ]
    );
}

#[test]
fn resize_without_area_changes_nothing_but_window_size() {
    for size in [PhysicalSize::new(0, 0), PhysicalSize::new(0, 300), PhysicalSize::new(400, 0)] {
        let mut context = presented_once(800, 600);
        let surface = context.surface();
        let target = context.target();
        let compositor = context.compositor();
        assert!(target.current.is_some());
        assert!(compositor.bind_group.is_some());
        assert_eq!(context.resize(size), Vec::<Action>::new());
        assert_eq!(context.surface(), surface);
        assert_eq!(context.target(), target);
        assert_eq!(context.compositor(), compositor);
        assert_eq!(context.window_size(), size);
        assert_eq!(context.render(), Vec::<Action>::new());
        assert_eq!(context.stage(), FrameStage::Idle);
    }
}

#[test]
fn resize_with_area_invalidates_until_next_tick() {
    let mut context = presented_once(800, 600);
    assert_eq!(
        context.resize(PhysicalSize::new(400, 300)),
        vec![Action::ReconfigureSurface { width: 400, height: 300 }, Action::DropTarget]
    );
    assert_eq!(context.surface().size(), PhysicalSize::new(400, 300));
    assert_eq!(context.target(), IntermediateTarget { current: None, created: 1 });
    assert_eq!(context.compositor(), Compositor { bind_group: None });
    // Outcomes that nothing waits for leave both absent.
    assert_eq!(context.frame_rendered(RenderOutcome::Completed), Ok(vec![]));
    assert_eq!(context.frame_acquired(AcquireOutcome::Acquired), Ok(vec![]));
    assert_eq!(context.target().current, None);
    assert_eq!(context.compositor().bind_group, None);

    let actions = context.render();
    assert_eq!(actions[0], Action::CreateTarget { width: 400, height: 300 });
    assert_eq!(actions[1], Action::CreateBindGroup);
    assert_eq!(actions.len(), 4);
    assert_eq!(
        context.target().current,
        Some(Target { width: 400, height: 300, generation: 2 })
    );
    assert_eq!(context.compositor().bind_group, Some(BindGroup { target_generation: 2 }));
}

#[test]
fn resize_to_same_size_invalidates_too() {
    let mut context = presented_once(800, 600);
    assert_eq!(
        context.resize(PhysicalSize::new(800, 600)),
        vec![Action::ReconfigureSurface { width: 800, height: 600 }, Action::DropTarget]
    );
    assert_eq!(context.target().current, None);
}

#[test]
fn resize_abandons_frame_in_flight() {
    let mut context = RenderContext::new(surface_on(800, 600, 0), false);
    context.render();
    context.frame_rendered(RenderOutcome::Completed).unwrap();
    assert_eq!(context.stage(), FrameStage::Acquiring);
    context.resize(PhysicalSize::new(400, 300));
    assert_eq!(context.stage(), FrameStage::Idle);
    assert_eq!(context.frame_acquired(AcquireOutcome::Acquired), Ok(vec![]));
}

#[test]
fn context_created_without_area_waits_for_a_size() {
    let mut context = RenderContext::new(surface_on(0, 0, 0), false);
    assert_eq!(context.render(), Vec::<Action>::new());
    assert_eq!(context.stage(), FrameStage::Idle);
    assert_eq!(context.target().current, None);
    context.resize(PhysicalSize::new(320, 200));
    let actions = context.render();
    assert_eq!(actions[0], Action::CreateTarget { width: 320, height: 200 });
    assert_eq!(context.stage(), FrameStage::Rasterizing);
}

#[test]
fn failed_rasterisation_skips_presenting() {
    let mut context = RenderContext::new(surface_on(800, 600, 0), false);
    context.render();
    assert_eq!(context.frame_rendered(RenderOutcome::Failed), Ok(vec![]));
    assert_eq!(context.stage(), FrameStage::Idle);
    assert_eq!(context.frame_acquired(AcquireOutcome::Acquired), Ok(vec![]));
    // The next tick starts over and keeps what was created.
    let actions = context.render();
    assert_eq!(actions.len(), 2);
    assert_eq!(actions[0], Action::BuildScene { width: 800, height: 600 });
}

#[test]
fn lost_device_is_fatal() {
    let mut context = RenderContext::new(surface_on(800, 600, 0), false);
    context.render();
    assert_eq!(context.frame_rendered(RenderOutcome::DeviceLost), Err(FatalError::DeviceLost));
    assert_eq!(context.stage(), FrameStage::Idle);
}

#[test]
fn acquisition_out_of_memory_is_fatal() {
    let mut context = RenderContext::new(surface_on(800, 600, 0), false);
    context.render();
    context.frame_rendered(RenderOutcome::Completed).unwrap();
    assert_eq!(
        context.frame_acquired(AcquireOutcome::OutOfMemory),
        Err(FatalError::SurfaceOutOfMemory)
    );
    assert_eq!(context.stage(), FrameStage::Idle);
}

#[test]
fn acquisition_other_failure_is_fatal() {
    let mut context = RenderContext::new(surface_on(800, 600, 0), false);
    context.render();
    context.frame_rendered(RenderOutcome::Completed).unwrap();
    assert_eq!(context.frame_acquired(AcquireOutcome::Other), Err(FatalError::SurfaceFailed));
}

#[test]
fn retryable_acquisitions_warn_and_keep_resources() {
    for outcome in [AcquireOutcome::Timeout, AcquireOutcome::Outdated, AcquireOutcome::Lost] {
        let mut context = RenderContext::new(surface_on(800, 600, 0), false);
        context.render();
        context.frame_rendered(RenderOutcome::Completed).unwrap();
        let target = context.target();
        let compositor = context.compositor();
        assert_eq!(context.frame_acquired(outcome), Ok(vec![Action::Warn { outcome }]));
        assert_eq!(context.stage(), FrameStage::Idle);
        assert_eq!(context.target(), target);
        assert_eq!(context.compositor(), compositor);
        let next = context.render();
        assert_eq!(
            next,
            vec![
                Action::BuildScene { width: 800, height: 600 },
                Action::Rasterize { dev_id: 0, params: RenderParams::for_frame(800, 600) },
            ]
        );
        assert_eq!(context.frame_rendered(RenderOutcome::Completed), Ok(vec![Action::AcquireFrame]));
    }
}

#[test]
fn outcomes_out_of_turn_are_ignored() {
    let mut context = RenderContext::new(surface_on(800, 600, 0), false);
    assert_eq!(context.frame_rendered(RenderOutcome::DeviceLost), Ok(vec![]));
    assert_eq!(context.frame_acquired(AcquireOutcome::Other), Ok(vec![]));
    context.render();
    assert_eq!(context.frame_acquired(AcquireOutcome::Acquired), Ok(vec![]));
    assert_eq!(context.stage(), FrameStage::Rasterizing);
    context.frame_rendered(RenderOutcome::Completed).unwrap();
    assert_eq!(context.frame_rendered(RenderOutcome::DeviceLost), Ok(vec![]));
    assert_eq!(context.stage(), FrameStage::Acquiring);
}

#[test]
fn tick_restarts_a_frame_in_flight() {
    let mut context = RenderContext::new(surface_on(800, 600, 0), false);
    context.render();
    context.frame_rendered(RenderOutcome::Completed).unwrap();
    let actions = context.render();
    assert_eq!(actions.len(), 2);
    assert_eq!(context.stage(), FrameStage::Rasterizing);
    assert_eq!(context.frame_acquired(AcquireOutcome::Acquired), Ok(vec![]));
}
