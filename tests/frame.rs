use frame_engine::{
    clamp_dimension, flat_grid, image_grid, shade_pixel, Command, DispatchStage, FramePhase,
    LoadOp, PassKind, PresentMode, RenderTargetSet, Renderer, TextureFormat, BACKGROUND_RGBA,
};

fn run_frame(r: &mut Renderer) -> Vec<Command> {
    let commands = r.render(true).expect("frame recorded");
    assert_eq!(r.phase(), FramePhase::Submitting);
    r.present();
    assert_eq!(r.phase(), FramePhase::Presented);
    commands
}

fn assert_all_bound_to(r: &Renderer, width: u32, height: u32) {
    let t = r.targets();
    for target in [t.color, t.storage, t.depth] {
        assert_eq!((target.width, target.height), (width, height));
    }
    for i in 0..r.pass_count() {
        if let Some(b) = r.pass(i).binding {
            assert_eq!(b.generation, t.generation);
            assert_eq!((b.width, b.height), (width, height));
        }
    }
}

fn generation_of(c: &Command) -> u64 {
    match *c {
        Command::Raster { generation, .. } => generation,
        Command::Dispatch { generation, .. } => generation,
        Command::Blit { generation, .. } => generation,
    }
}

#[test]
fn new_renderer_is_idle_and_bound() {
    let r = Renderer::new(1024, 768);
    assert_eq!(r.phase(), FramePhase::Idle);
    assert_eq!((r.width(), r.height()), (1024, 768));
    assert_eq!(r.config().present_mode, PresentMode::Fifo);
    assert_eq!(r.generation(), 0);
    assert_eq!(r.pass_count(), 6);
    assert_all_bound_to(&r, 1024, 768);
}

#[test]
fn new_clamps_degenerate_size() {
    let r = Renderer::new(0, 2);
    assert_eq!((r.width(), r.height()), (4, 4));
    assert_all_bound_to(&r, 4, 4);
}

#[test]
fn resize_to_zero_clamps_to_four() {
    let mut r = Renderer::new(1024, 768);
    assert!(r.resize(0, 0));
    assert_eq!((r.width(), r.height()), (4, 4));
    assert_all_bound_to(&r, 4, 4);
}

#[test]
fn resize_sets_sizes_and_rebinds() {
    let mut r = Renderer::new(1024, 768);
    let pipelines: Vec<usize> = (0..r.pass_count()).map(|i| r.pass(i).pipeline).collect();
    assert!(r.resize(800, 600));
    assert_eq!(r.generation(), 1);
    assert_all_bound_to(&r, 800, 600);
    let after: Vec<usize> = (0..r.pass_count()).map(|i| r.pass(i).pipeline).collect();
    assert_eq!(pipelines, after);
}

#[test]
fn resize_twice_same_size_keeps_targets() {
    let mut r = Renderer::new(1024, 768);
    assert!(r.resize(640, 480));
    let targets = r.targets();
    assert!(!r.resize(640, 480));
    assert_eq!(r.targets(), targets);
    assert_eq!(r.generation(), 1);
}

#[test]
fn resize_to_current_size_is_noop() {
    let mut r = Renderer::new(1024, 768);
    assert!(!r.resize(1024, 768));
    assert_eq!(r.generation(), 0);
}

#[test]
fn frame_then_resize_end_to_end() {
    let mut r = Renderer::new(1024, 768);
    let first = run_frame(&mut r);
    assert!(first.iter().all(|c| generation_of(c) == 0));
    assert!(r.resize(512, 384));
    let second = run_frame(&mut r);
    assert_all_bound_to(&r, 512, 384);
    assert!(second.iter().all(|c| generation_of(c) == 1));
    assert_eq!(
        second[3],
        Command::Dispatch { pass: 3, stage: DispatchStage::Image, x: 64, y: 48, z: 1, generation: 1 }
    );
}

#[test]
fn frame_command_order() {
    let mut r = Renderer::new(1024, 768);
    let c = run_frame(&mut r);
    assert_eq!(c.len(), 7);
    assert_eq!(
        c[0],
        Command::Raster { pass: 0, color: LoadOp::Clear, depth: None, camera: None, generation: 0 }
    );
    assert_eq!(
        c[1],
        Command::Raster { pass: 1, color: LoadOp::Load, depth: None, camera: None, generation: 0 }
    );
    match c[2] {
        Command::Raster { pass: 2, color: LoadOp::Load, depth: Some(LoadOp::Clear), camera: Some(_), .. } => {}
        other => panic!("unexpected {:?}", other),
    }
    assert_eq!(
        c[3],
        Command::Dispatch { pass: 3, stage: DispatchStage::Image, x: 128, y: 96, z: 1, generation: 0 }
    );
    assert_eq!(
        c[4],
        Command::Dispatch { pass: 4, stage: DispatchStage::Reset, x: 1, y: 1, z: 1, generation: 0 }
    );
    assert_eq!(
        c[5],
        Command::Dispatch { pass: 4, stage: DispatchStage::Scatter, x: 12288, y: 1, z: 1, generation: 0 }
    );
    assert_eq!(c[6], Command::Blit { pass: 5, generation: 0 });
}

#[test]
fn reset_dispatch_comes_right_before_scatter() {
    let mut r = Renderer::new(33, 17);
    let c = run_frame(&mut r);
    let scatter = c
        .iter()
        .position(|c| matches!(c, Command::Dispatch { stage: DispatchStage::Scatter, .. }))
        .expect("scatter dispatch");
    assert!(matches!(c[scatter - 1], Command::Dispatch { stage: DispatchStage::Reset, pass: 4, .. }));
    assert_eq!(
        c[scatter],
        Command::Dispatch { pass: 4, stage: DispatchStage::Scatter, x: 9, y: 1, z: 1, generation: 0 }
    );
}

#[test]
fn first_raster_clears_later_ones_load() {
    let mut r = Renderer::new(64, 64);
    let c = run_frame(&mut r);
    let loads: Vec<LoadOp> = c
        .iter()
        .filter_map(|c| match c {
            Command::Raster { color, .. } => Some(*color),
            _ => None,
        })
        .collect();
    assert_eq!(loads, vec![LoadOp::Clear, LoadOp::Load, LoadOp::Load]);
    let previous = 0x1234_5678u32;
    // Untouched by every pass: the background, not the previous frame.
    let mut px = previous;
    for l in &loads {
        px = shade_pixel(*l, px, None);
    }
    assert_eq!(px, BACKGROUND_RGBA);
    // Drawn by the first pass only: still visible after the later passes.
    let red = 0xff00_00ffu32;
    let mut px = shade_pixel(loads[0], previous, Some(red));
    px = shade_pixel(loads[1], px, None);
    px = shade_pixel(loads[2], px, None);
    assert_eq!(px, red);
}

#[test]
fn camera_matrix_bound_byte_for_byte() {
    let mut r = Renderer::new(1024, 768);
    let stale: [u32; 16] = [7; 16];
    r.update(stale);
    run_frame(&mut r);
    let m: [u32; 16] = core::array::from_fn(|i| (2.5f32 * i as f32 - 1.0).to_bits());
    r.update(m);
    let c = run_frame(&mut r);
    let bound: Vec<[u32; 16]> = c
        .iter()
        .filter_map(|c| match c {
            Command::Raster { camera: Some(u), .. } => Some(u.view_proj),
            _ => None,
        })
        .collect();
    assert_eq!(bound, vec![m]);
}

#[test]
fn identity_camera_initially() {
    let r = Renderer::new(8, 8);
    let one = 1.0f32.to_bits();
    for (i, b) in r.camera().view_proj.iter().enumerate() {
        assert_eq!(*b, if i % 5 == 0 { one } else { 0 });
    }
}

#[test]
fn failed_acquire_skips_frame() {
    let mut r = Renderer::new(1024, 768);
    assert!(r.render(false).is_none());
    assert_eq!(r.phase(), FramePhase::Idle);
    run_frame(&mut r);
}

#[test]
fn step_by_step_phases() {
    let mut r = Renderer::new(100, 100);
    r.begin_frame();
    assert_eq!(r.phase(), FramePhase::Acquiring);
    r.finish_acquire(true);
    assert_eq!(r.phase(), FramePhase::Recording);
    let c = r.record();
    assert_eq!(c.len(), 7);
    assert_eq!(r.phase(), FramePhase::Submitting);
    r.present();
    assert_eq!(r.phase(), FramePhase::Presented);
}

#[test]
fn target_set_formats_and_usages() {
    let t = RenderTargetSet::create(3, 10, 20);
    assert_eq!(t.generation, 3);
    assert_eq!(t.color.format, TextureFormat::Rgba8UnormSrgb);
    assert!(t.color.usage.render_attachment && t.color.usage.sampled && !t.color.usage.storage);
    assert_eq!(t.storage.format, TextureFormat::Rgba8Unorm);
    assert!(t.storage.usage.sampled && t.storage.usage.storage);
    assert_eq!(t.depth.format, TextureFormat::Depth32Float);
    assert!(t.depth.usage.render_attachment && t.depth.usage.sampled);
    assert_eq!((t.depth.width, t.depth.height), (10, 20));
}

#[test]
fn grids_cover_every_pixel() {
    assert_eq!(image_grid(1024, 768), (128, 96));
    assert_eq!(image_grid(9, 1), (2, 1));
    assert_eq!(image_grid(u32::MAX, 8), (536_870_912, 1));
    assert_eq!(flat_grid(1024, 768), 12288);
    assert_eq!(flat_grid(5, 5), 1);
    assert_eq!(flat_grid(8, 8), 1);
    assert_eq!(flat_grid(65, 1), 2);
    assert_eq!(flat_grid(u32::MAX, u32::MAX), 288_230_376_017_494_017);
}

#[test]
fn clamp_dimension_values() {
    assert_eq!(clamp_dimension(0), 4);
    assert_eq!(clamp_dimension(3), 4);
    assert_eq!(clamp_dimension(4), 4);
    assert_eq!(clamp_dimension(1920), 1920);
}

#[test]
fn pass_kinds_in_registration_order() {
    let r = Renderer::new(16, 16);
    let kinds: Vec<PassKind> = (0..r.pass_count()).map(|i| r.pass(i).kind).collect();
    assert_eq!(
        kinds,
        vec![
            PassKind::Raster { depth: false, camera: false },
            PassKind::Raster { depth: false, camera: false },
            PassKind::Raster { depth: true, camera: true },
            PassKind::ImageCompute,
            PassKind::FlatCompute,
            PassKind::Blit,
        ]
    );
}

#[test]
fn camera_uniform_bytes_are_little_endian_words() {
    let m: [u32; 16] = core::array::from_fn(|i| 0x0102_0304u32.wrapping_mul(i as u32 + 1));
    let mut r = Renderer::new(32, 32);
    r.update(m);
    let bytes = r.camera().to_bytes();
    assert_eq!(bytes.len(), 64);
    assert_eq!(&bytes[0..4], &[0x04, 0x03, 0x02, 0x01]);
    for i in 0..16 {
        let w = u32::from_le_bytes([bytes[4 * i], bytes[4 * i + 1], bytes[4 * i + 2], bytes[4 * i + 3]]);
        assert_eq!(w, m[i]);
    }
}

#[test]
fn resize_below_minimum_twice_rebuilds_again() {
    // The request is compared with the configuration before clamping:
    // (0, 0) never equals the clamped (4, 4), so each call builds a new set.
    let mut r = Renderer::new(1024, 768);
    assert!(r.resize(0, 0));
    assert!(r.resize(0, 0));
    assert_eq!(r.generation(), 2);
    assert_all_bound_to(&r, 4, 4);
    assert!(!r.resize(4, 4));
}
