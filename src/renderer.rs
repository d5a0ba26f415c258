use vstd::prelude::*;

use crate::passes::{
    binding_for, binding_of, pass_commands, CameraUniform, Command, Pass, PassKind,
};
use crate::surface::{clamped, SurfaceConfig};
use crate::targets::{target_set, RenderTargetSet};

verus! {

/// Where the current frame stands.
#[derive(Clone, Copy, Debug, PartialEq, Eq, Structural)]
pub enum FramePhase {
    Idle,
    Acquiring,
    Recording,
    Submitting,
    Presented,
}

impl FramePhase {
    /// No frame is under way: resize and camera updates may run.
    pub open spec fn between_frames(self) -> bool {
        self is Idle || self is Presented
    }
}

/// The passes of a frame, in registration order: two plain rasterization
/// passes, a camera-aware one with depth, an image-space and a
/// buffer-indexed compute pass, and the blit to the presentation image.
pub open spec fn standard_kinds() -> Seq<PassKind> {
    seq![
        PassKind::Raster { depth: false, camera: false },
        PassKind::Raster { depth: false, camera: false },
        PassKind::Raster { depth: true, camera: true },
        PassKind::ImageCompute,
        PassKind::FlatCompute,
        PassKind::Blit,
    ]
}

/// Whether one of the first `n` passes is a rasterization pass.
pub open spec fn raster_before(passes: Seq<Pass>, n: int) -> bool
    decreases n,
{
    if n <= 0 {
        false
    } else {
        raster_before(passes, n - 1) || passes[n - 1].kind.is_raster()
    }
}

/// Whether one of the first `n` passes attaches the depth target.
pub open spec fn depth_before(passes: Seq<Pass>, n: int) -> bool
    decreases n,
{
    if n <= 0 {
        false
    } else {
        depth_before(passes, n - 1) || passes[n - 1].kind.has_depth()
    }
}

/// The commands the first `n` passes record, in registration order.
pub open spec fn commands_upto(
    passes: Seq<Pass>,
    n: int,
    set: RenderTargetSet,
    camera: CameraUniform,
) -> Seq<Command>
    decreases n,
{
    if n <= 0 {
        seq![]
    } else {
        commands_upto(passes, n - 1, set, camera) + pass_commands(
            passes[n - 1],
            (n - 1) as usize,
            raster_before(passes, n - 1),
            depth_before(passes, n - 1),
            set,
            camera,
        )
    }
}

/// The abstract state of a renderer.
pub struct RendererView {
    pub config: SurfaceConfig,
    pub targets: RenderTargetSet,
    pub passes: Seq<Pass>,
    pub camera: CameraUniform,
    pub phase: FramePhase,
}

impl RendererView {
    pub open spec fn wf(self) -> bool {
        &&& self.config.wf()
        &&& self.targets.wf()
        &&& self.targets.width() == self.config.width
        &&& self.targets.height() == self.config.height
        &&& self.passes.len() == standard_kinds().len()
        &&& forall|i: int|
            0 <= i < self.passes.len() ==> {
                &&& (#[trigger] self.passes[i]).kind == standard_kinds()[i]
                &&& self.passes[i].pipeline == i
                &&& self.passes[i].binding == binding_for(self.passes[i].kind, self.targets)
            }
    }

    /// The commands one frame records.
    pub open spec fn frame_commands(self) -> Seq<Command> {
        commands_upto(self.passes, self.passes.len() as int, self.targets, self.camera)
    }

    /// `after` is `self` with `phase` changed.
    pub open spec fn moved_to(self, after: RendererView, phase: FramePhase) -> bool {
        after == RendererView { phase, ..self }
    }

    /// `after` is `self` once `resize(width, height)` has run.
    pub open spec fn resized(self, after: RendererView, width: u32, height: u32) -> bool {
        if width == self.config.width && height == self.config.height {
            after == self
        } else {
            &&& after.config.width == clamped(width)
            &&& after.config.height == clamped(height)
            &&& after.config.present_mode == self.config.present_mode
            &&& after.targets == target_set(
                (self.targets.generation + 1) as u64,
                clamped(width),
                clamped(height),
            )
            &&& after.passes.len() == self.passes.len()
            &&& forall|i: int|
                0 <= i < self.passes.len() ==> {
                    &&& (#[trigger] after.passes[i]).kind == self.passes[i].kind
                    &&& after.passes[i].pipeline == self.passes[i].pipeline
                    &&& after.passes[i].binding == binding_for(after.passes[i].kind, after.targets)
                }
            &&& after.camera == self.camera
            &&& after.phase == self.phase
        }
    }
}

/// Owns the surface configuration, the current target set, the passes and
/// the camera uniform, and drives each frame from acquisition to
/// presentation.
pub struct Renderer {
    config: SurfaceConfig,
    targets: RenderTargetSet,
    passes: Vec<Pass>,
    camera: CameraUniform,
    phase: FramePhase,
}

impl View for Renderer {
    type V = RendererView;

    closed spec fn view(&self) -> RendererView {
        RendererView {
            config: self.config,
            targets: self.targets,
            passes: self.passes@,
            camera: self.camera,
            phase: self.phase,
        }
    }
}

impl Renderer {
    /// A renderer for a surface of the given size (clamped to the minimum),
    /// with the first target set, every pass bound to it, the identity
    /// camera, and no frame under way.
    pub fn new(width: u32, height: u32) -> (r: Self)
        ensures
            r@.wf(),
            r@.config.width == clamped(width),
            r@.config.height == clamped(height),
            r@.targets == target_set(0, clamped(width), clamped(height)),
            r@.camera.is_identity(),
            r@.phase == FramePhase::Idle,
    {
        let config = SurfaceConfig::new(width, height);
        let targets = RenderTargetSet::create(0, config.width, config.height);
        let mut passes: Vec<Pass> = Vec::new();
        passes.push(Pass::new(PassKind::Raster { depth: false, camera: false }, 0, &targets));
        passes.push(Pass::new(PassKind::Raster { depth: false, camera: false }, 1, &targets));
        passes.push(Pass::new(PassKind::Raster { depth: true, camera: true }, 2, &targets));
        passes.push(Pass::new(PassKind::ImageCompute, 3, &targets));
        passes.push(Pass::new(PassKind::FlatCompute, 4, &targets));
        passes.push(Pass::new(PassKind::Blit, 5, &targets));
        let r = Renderer {
            config,
            targets,
            passes,
            camera: CameraUniform::new(),
            phase: FramePhase::Idle,
        };
        assert(r@.passes =~= r.passes@);
        r
    }

    /// Resizes the surface. A size equal to the current configuration is a
    /// no-op. Otherwise the size is clamped to the minimum, a new target set
    /// of the next generation is built, every resolution-dependent pass is
    /// rebound to it with its pipeline kept, and the new set replaces the
    /// old one. Returns whether a new set was built.
    pub fn resize(&mut self, width: u32, height: u32) -> (reallocated: bool)
        requires
            old(self)@.wf(),
            old(self)@.phase.between_frames(),
            old(self)@.targets.generation < u64::MAX,
        ensures
            final(self)@.wf(),
            old(self)@.resized(final(self)@, width, height),
            reallocated == !(width == old(self)@.config.width && height == old(self)@.config.height),
    {
        if width == self.config.width && height == self.config.height {
            return false;
        }
        let config = SurfaceConfig::new(width, height);
        let targets = RenderTargetSet::create(self.targets.generation + 1, config.width, config.height);
        let ghost before = self.passes@;
        let ghost camera = self.camera;
        let ghost phase = self.phase;
        let mut i: usize = 0;
        while i < self.passes.len()
            invariant
                0 <= i <= self.passes.len(),
                self.passes.len() == before.len(),
                self.camera == camera,
                self.phase == phase,
                targets.wf(),
                forall|j: int|
                    0 <= j < before.len() ==> {
                        &&& (#[trigger] self.passes@[j]).kind == before[j].kind
                        &&& self.passes@[j].pipeline == before[j].pipeline
                        &&& self.passes@[j].wf()
                        &&& j < i ==> self.passes@[j].binding == binding_for(self.passes@[j].kind, targets)
                    },
            decreases self.passes.len() - i,
        {
            let mut p = self.passes[i];
            if p.is_resolution_dependent() {
                p.rebind(&targets);
                self.passes.set(i, p);
            }
            i = i + 1;
        }
        self.config = config;
        self.targets = targets;
        assert forall|j: int| 0 <= j < before.len() implies (#[trigger] self@.passes[j]).binding
            == binding_for(self@.passes[j].kind, self@.targets) by {
            assert(self@.passes[j] == self.passes@[j]);
        }
        true
    }

    /// Stores the view-projection matrix that the camera-aware pass binds in
    /// the next recorded frame.
    pub fn update(&mut self, view_proj: [u32; 16])
        requires
            !(old(self)@.phase is Recording),
        ensures
            final(self)@ == (RendererView { camera: CameraUniform { view_proj }, ..old(self)@ }),
    {
        self.camera.update_view_proj(view_proj);
    }

    /// Idle or Presented -> Acquiring: the host now requests the next
    /// presentable image.
    pub fn begin_frame(&mut self)
        requires
            old(self)@.phase.between_frames(),
        ensures
            old(self)@.moved_to(final(self)@, FramePhase::Acquiring),
    {
        self.phase = FramePhase::Acquiring;
    }

    /// Acquiring -> Recording when an image was acquired; otherwise the
    /// frame is skipped and the renderer goes back to Idle, to try again on
    /// the next tick.
    pub fn finish_acquire(&mut self, acquired: bool)
        requires
            old(self)@.phase is Acquiring,
        ensures
            old(self)@.moved_to(
                final(self)@,
                if acquired { FramePhase::Recording } else { FramePhase::Idle },
            ),
    {
        self.phase = if acquired { FramePhase::Recording } else { FramePhase::Idle };
    }

    /// Recording -> Submitting: records every pass in registration order
    /// against the current target set and camera uniform, and returns the
    /// commands for the host to submit.
    pub fn record(&mut self) -> (commands: Vec<Command>)
        requires
            old(self)@.wf(),
            old(self)@.phase is Recording,
        ensures
            old(self)@.moved_to(final(self)@, FramePhase::Submitting),
            commands@ == old(self)@.frame_commands(),
    {
        let mut commands: Vec<Command> = Vec::new();
        let mut raster_seen = false;
        let mut depth_seen = false;
        let mut i: usize = 0;
        while i < self.passes.len()
            invariant
                self@.wf(),
                0 <= i <= self.passes.len(),
                raster_seen == raster_before(self.passes@, i as int),
                depth_seen == depth_before(self.passes@, i as int),
                commands@ == commands_upto(self.passes@, i as int, self.targets, self.camera),
            decreases self.passes.len() - i,
        {
            let p = self.passes[i];
            assert(self@.passes[i as int] == p);
            p.record(&mut commands, i, raster_seen, depth_seen, &self.targets, &self.camera);
            match p.kind {
                PassKind::Raster { depth, .. } => {
                    raster_seen = true;
                    if depth {
                        depth_seen = true;
                    }
                },
                _ => {},
            }
            i = i + 1;
        }
        self.phase = FramePhase::Submitting;
        commands
    }

    /// Submitting -> Presented: the host has submitted the recorded commands
    /// and now presents the acquired image.
    pub fn present(&mut self)
        requires
            old(self)@.phase is Submitting,
        ensures
            old(self)@.moved_to(final(self)@, FramePhase::Presented),
    {
        self.phase = FramePhase::Presented;
    }

    /// Runs a frame up to submission, given whether the host acquired a
    /// presentable image: the recorded commands, or `None` when the frame is
    /// skipped.
    pub fn render(&mut self, acquired: bool) -> (commands: Option<Vec<Command>>)
        requires
            old(self)@.wf(),
            old(self)@.phase.between_frames(),
        ensures
            acquired ==> old(self)@.moved_to(final(self)@, FramePhase::Submitting),
            acquired ==> commands is Some && commands.unwrap()@ == old(self)@.frame_commands(),
            !acquired ==> old(self)@.moved_to(final(self)@, FramePhase::Idle),
            !acquired ==> commands is None,
    {
        self.begin_frame();
        self.finish_acquire(acquired);
        if acquired {
            Some(self.record())
        } else {
            None
        }
    }

    /// Configured surface width.
    pub fn width(&self) -> (r: u32)
        ensures
            r == self@.config.width,
    {
        self.config.width
    }

    /// Configured surface height.
    pub fn height(&self) -> (r: u32)
        ensures
            r == self@.config.height,
    {
        self.config.height
    }

    pub fn config(&self) -> (r: SurfaceConfig)
        ensures
            r == self@.config,
    {
        self.config
    }

    /// The target set every pass is bound to.
    pub fn targets(&self) -> (r: RenderTargetSet)
        ensures
            r == self@.targets,
    {
        self.targets
    }

    /// Generation of the current target set.
    pub fn generation(&self) -> (r: u64)
        ensures
            r == self@.targets.generation,
    {
        self.targets.generation
    }

    pub fn pass_count(&self) -> (r: usize)
        ensures
            r == self@.passes.len(),
    {
        self.passes.len()
    }

    /// The pass registered at `index`.
    pub fn pass(&self, index: usize) -> (r: Pass)
        requires
            index < self@.passes.len(),
        ensures
            r == self@.passes[index as int],
    {
        self.passes[index]
    }

    pub fn camera(&self) -> (r: CameraUniform)
        ensures
            r == self@.camera,
    {
        self.camera
    }

    pub fn phase(&self) -> (r: FramePhase)
        ensures
            r == self@.phase,
    {
        self.phase
    }
}

} // verus!
