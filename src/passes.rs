use vstd::prelude::*;

use crate::targets::RenderTargetSet;

verus! {

/// Side of the square workgroup of an image-space compute pass.
pub const IMAGE_WORKGROUP_SIDE: u32 = 8;

/// Number of invocations in one workgroup of a buffer-indexed compute pass.
pub const FLAT_WORKGROUP_SIZE: u64 = 64;

/// Bit pattern of the 32-bit float 1.0.
pub const ONE_BITS: u32 = 0x3f80_0000;

pub open spec fn ceil_div(a: int, b: int) -> int {
    (a + b - 1) / b
}

/// Workgroup grid (x, y) that covers every pixel of a width x height image.
pub fn image_grid(width: u32, height: u32) -> (r: (u64, u64))
    ensures
        r.0 == ceil_div(width as int, IMAGE_WORKGROUP_SIDE as int),
        r.1 == ceil_div(height as int, IMAGE_WORKGROUP_SIDE as int),
{
    let side = IMAGE_WORKGROUP_SIDE as u64;
    ((width as u64 + side - 1) / side, (height as u64 + side - 1) / side)
}

/// Number of workgroups that cover every pixel of a width x height image
/// indexed as one flat buffer.
pub fn flat_grid(width: u32, height: u32) -> (r: u64)
    ensures
        r == ceil_div(width as int * height as int, FLAT_WORKGROUP_SIZE as int),
{
    let w = width as u64;
    let h = height as u64;
    assert(w * h <= 0xffff_ffffu64 * 0xffff_ffffu64) by (nonlinear_arith)
        requires w <= 0xffff_ffffu64, h <= 0xffff_ffffu64;
    (w * h + (FLAT_WORKGROUP_SIZE - 1)) / FLAT_WORKGROUP_SIZE
}

/// The per-frame view-projection matrix, as the bit patterns of its sixteen
/// column-major 32-bit floats.
#[derive(Clone, Copy, Debug, PartialEq, Eq)]
pub struct CameraUniform {
    pub view_proj: [u32; 16],
}

pub open spec fn identity_bits(i: int) -> u32 {
    if i % 5 == 0 { ONE_BITS } else { 0 }
}

impl CameraUniform {
    pub open spec fn is_identity(self) -> bool {
        forall|i: int| 0 <= i < 16 ==> self.view_proj@[i] == identity_bits(i)
    }

    /// The identity matrix.
    pub fn new() -> (r: Self)
        ensures
            r.is_identity(),
    {
        let mut m: [u32; 16] = [0u32; 16];
        let mut i: usize = 0;
        while i < 16
            invariant
                0 <= i <= 16,
                forall|j: int| 0 <= j < i ==> m@[j] == identity_bits(j),
            decreases 16 - i,
        {
            if i % 5 == 0 {
                m[i] = ONE_BITS;
            } else {
                m[i] = 0;
            }
            i = i + 1;
        }
        CameraUniform { view_proj: m }
    }

    /// Byte `j` of the uniform buffer: byte `j % 4` (least significant
    /// first) of word `j / 4`.
    pub open spec fn byte_at(self, j: int) -> u8 {
        ((self.view_proj@[j / 4] >> ((8 * (j % 4)) as u32)) & 0xff) as u8
    }

    /// The sixty-four bytes written into the GPU uniform buffer, each word
    /// little-endian.
    pub fn to_bytes(&self) -> (r: Vec<u8>)
        ensures
            r@.len() == 64,
            forall|j: int| 0 <= j < 64 ==> #[trigger] r@[j] == self.byte_at(j),
    {
        let mut out: Vec<u8> = Vec::new();
        let mut j: usize = 0;
        while j < 64
            invariant
                0 <= j <= 64,
                out@.len() == j,
                forall|i: int| 0 <= i < j ==> #[trigger] out@[i] == self.byte_at(i),
            decreases 64 - j,
        {
            let word = self.view_proj[j / 4];
            let shift = (8 * (j % 4)) as u32;
            out.push(((word >> shift) & 0xff) as u8);
            j = j + 1;
        }
        out
    }

    pub fn update_view_proj(&mut self, view_proj: [u32; 16])
        ensures
            final(self).view_proj == view_proj,
    {
        self.view_proj = view_proj;
    }
}

/// What a pass does with a target's earlier contents when it starts.
#[derive(Clone, Copy, Debug, PartialEq, Eq, Structural)]
pub enum LoadOp {
    /// Overwrite with the target's fixed clear value.
    Clear,
    /// Keep what is there.
    Load,
}

/// Background the color target is cleared to: opaque green, packed as
/// 0xRRGGBBAA.
pub const BACKGROUND_RGBA: u32 = 0x00ff_00ff;

/// A color-target pixel after a rasterization pass that starts with `load`,
/// given its earlier value and what the pass drew there, if anything.
pub open spec fn pixel_after(load: LoadOp, prev: u32, drawn: Option<u32>) -> u32 {
    match drawn {
        Some(c) => c,
        None => match load {
            LoadOp::Clear => BACKGROUND_RGBA,
            LoadOp::Load => prev,
        },
    }
}

/// Applies a rasterization pass's load operation and draw to one pixel.
pub fn shade_pixel(load: LoadOp, prev: u32, drawn: Option<u32>) -> (r: u32)
    ensures
        r == pixel_after(load, prev, drawn),
{
    match drawn {
        Some(c) => c,
        None => match load {
            LoadOp::Clear => BACKGROUND_RGBA,
            LoadOp::Load => prev,
        },
    }
}

/// Which compute pipeline a dispatch runs.
#[derive(Clone, Copy, Debug, PartialEq, Eq, Structural)]
pub enum DispatchStage {
    /// Reads the color target and writes the storage target.
    Image,
    /// Zeroes the shared counter buffer.
    Reset,
    /// Scatters indexed writes, counting through the shared counter.
    Scatter,
}

/// One recorded step of a frame, in submission order.
#[derive(Clone, Copy, Debug, PartialEq, Eq)]
pub enum Command {
    /// A rasterization pass into the color target, with the depth target
    /// attached when `depth` is set, and the camera uniform bound when
    /// `camera` is set.
    Raster {
        pass: usize,
        color: LoadOp,
        depth: Option<LoadOp>,
        camera: Option<CameraUniform>,
        generation: u64,
    },
    /// A compute dispatch of `x * y * z` workgroups.
    Dispatch { pass: usize, stage: DispatchStage, x: u64, y: u64, z: u64, generation: u64 },
    /// Full-screen copy of the storage target into the acquired image,
    /// cleared to black first.
    Blit { pass: usize, generation: u64 },
}

/// The kinds of pass a frame is made of.
#[derive(Clone, Copy, Debug, PartialEq, Eq, Structural)]
pub enum PassKind {
    /// Draws triangles into the color target; `depth`: also into the depth
    /// target; `camera`: reads the view-projection uniform.
    Raster { depth: bool, camera: bool },
    /// Image-space compute: reads the color target, writes the storage target.
    ImageCompute,
    /// Buffer-indexed compute: a reset dispatch, then a scatter dispatch.
    FlatCompute,
    /// Terminal copy of the storage target to the presentation image.
    Blit,
}

impl Command {
    /// The generation of the target set the command refers to.
    pub open spec fn generation(self) -> u64 {
        match self {
            Command::Raster { generation, .. } => generation,
            Command::Dispatch { generation, .. } => generation,
            Command::Blit { generation, .. } => generation,
        }
    }

    pub open spec fn is_dispatch(self, stage: DispatchStage) -> bool {
        match self {
            Command::Dispatch { stage: s, .. } => s == stage,
            _ => false,
        }
    }

    /// The view-projection matrix the command binds, if any.
    pub open spec fn camera_matrix(self) -> Option<[u32; 16]> {
        match self {
            Command::Raster { camera: Some(c), .. } => Some(c.view_proj),
            _ => None,
        }
    }

    pub open spec fn pass_index(self) -> usize {
        match self {
            Command::Raster { pass, .. } => pass,
            Command::Dispatch { pass, .. } => pass,
            Command::Blit { pass, .. } => pass,
        }
    }
}

impl PassKind {
    pub open spec fn is_raster(self) -> bool {
        self is Raster
    }

    pub open spec fn is_compute(self) -> bool {
        self is ImageCompute || self is FlatCompute
    }

    pub open spec fn has_depth(self) -> bool {
        match self {
            PassKind::Raster { depth, .. } => depth,
            _ => false,
        }
    }

    /// Whether the pass's binding set refers to targets whose size follows
    /// the surface.
    pub open spec fn resolution_dependent(self) -> bool {
        self is ImageCompute || self is FlatCompute || self is Blit
    }
}

/// Which target set a binding set was built against, and its size.
#[derive(Clone, Copy, Debug, PartialEq, Eq, Structural)]
pub struct Binding {
    pub generation: u64,
    pub width: u32,
    pub height: u32,
}

pub open spec fn binding_of(set: RenderTargetSet) -> Binding {
    Binding { generation: set.generation, width: set.width(), height: set.height() }
}

/// A unit of GPU work: its kind, the pipeline it was built with (fixed for
/// its lifetime) and, for a resolution-dependent pass, its binding set.
#[derive(Clone, Copy, Debug, PartialEq, Eq, Structural)]
pub struct Pass {
    pub kind: PassKind,
    pub pipeline: usize,
    pub binding: Option<Binding>,
}

/// The binding set a pass of `kind` holds when built against `set`.
pub open spec fn binding_for(kind: PassKind, set: RenderTargetSet) -> Option<Binding> {
    if kind.resolution_dependent() {
        Some(binding_of(set))
    } else {
        None
    }
}

/// The commands a pass records, given its index in the frame, whether a
/// rasterization pass (resp. a pass with depth) came before it in the same
/// frame, the current target set and the camera uniform.
pub open spec fn pass_commands(
    p: Pass,
    index: usize,
    raster_before: bool,
    depth_before: bool,
    set: RenderTargetSet,
    camera: CameraUniform,
) -> Seq<Command> {
    match p.kind {
        PassKind::Raster { depth, camera: uses_camera } => seq![
            Command::Raster {
                pass: index,
                color: if raster_before { LoadOp::Load } else { LoadOp::Clear },
                depth: if depth {
                    Some(if depth_before { LoadOp::Load } else { LoadOp::Clear })
                } else {
                    None
                },
                camera: if uses_camera { Some(camera) } else { None },
                generation: set.generation,
            },
        ],
        PassKind::ImageCompute => seq![
            Command::Dispatch {
                pass: index,
                stage: DispatchStage::Image,
                x: ceil_div(p.binding.unwrap().width as int, IMAGE_WORKGROUP_SIDE as int) as u64,
                y: ceil_div(p.binding.unwrap().height as int, IMAGE_WORKGROUP_SIDE as int) as u64,
                z: 1,
                generation: p.binding.unwrap().generation,
            },
        ],
        PassKind::FlatCompute => seq![
            Command::Dispatch {
                pass: index,
                stage: DispatchStage::Reset,
                x: 1,
                y: 1,
                z: 1,
                generation: p.binding.unwrap().generation,
            },
            Command::Dispatch {
                pass: index,
                stage: DispatchStage::Scatter,
                x: ceil_div(
                    p.binding.unwrap().width as int * p.binding.unwrap().height as int,
                    FLAT_WORKGROUP_SIZE as int,
                ) as u64,
                y: 1,
                z: 1,
                generation: p.binding.unwrap().generation,
            },
        ],
        PassKind::Blit => seq![Command::Blit { pass: index, generation: p.binding.unwrap().generation }],
    }
}

impl Pass {
    /// A pass holds a binding set exactly when it is resolution-dependent.
    pub open spec fn wf(self) -> bool {
        self.binding is Some <==> self.kind.resolution_dependent()
    }

    /// A pass of the given kind built with `pipeline`, bound to `set`.
    pub fn new(kind: PassKind, pipeline: usize, set: &RenderTargetSet) -> (r: Self)
        ensures
            r.kind == kind,
            r.pipeline == pipeline,
            r.binding == binding_for(kind, *set),
            r.wf(),
    {
        let binding = match kind {
            PassKind::Raster { .. } => None,
            _ => Some(
                Binding {
                    generation: set.generation,
                    width: set.color.width,
                    height: set.color.height,
                },
            ),
        };
        Pass { kind, pipeline, binding }
    }

    pub fn is_resolution_dependent(&self) -> (r: bool)
        ensures
            r == self.kind.resolution_dependent(),
    {
        match self.kind {
            PassKind::Raster { .. } => false,
            _ => true,
        }
    }

    /// Rebuilds the binding set against `set`, keeping the pipeline.
    pub fn rebind(&mut self, set: &RenderTargetSet)
        requires
            old(self).wf(),
            old(self).kind.resolution_dependent(),
        ensures
            final(self).kind == old(self).kind,
            final(self).pipeline == old(self).pipeline,
            final(self).binding == Some(binding_of(*set)),
            final(self).wf(),
    {
        self.binding = Some(
            Binding { generation: set.generation, width: set.color.width, height: set.color.height },
        );
    }

    /// Appends this pass's commands for the current frame.
    pub fn record(
        &self,
        commands: &mut Vec<Command>,
        index: usize,
        raster_before: bool,
        depth_before: bool,
        set: &RenderTargetSet,
        camera: &CameraUniform,
    )
        requires
            self.wf(),
        ensures
            final(commands)@ == old(commands)@ + pass_commands(
                *self,
                index,
                raster_before,
                depth_before,
                *set,
                *camera,
            ),
    {
        match self.kind {
            PassKind::Raster { depth, camera: uses_camera } => {
                let color = if raster_before { LoadOp::Load } else { LoadOp::Clear };
                let depth_op = if depth {
                    Some(if depth_before { LoadOp::Load } else { LoadOp::Clear })
                } else {
                    None
                };
                let bound_camera = if uses_camera { Some(*camera) } else { None };
                commands.push(Command::Raster {
                    pass: index,
                    color,
                    depth: depth_op,
                    camera: bound_camera,
                    generation: set.generation,
                });
            }
            PassKind::ImageCompute => {
                let b = self.binding.unwrap();
                let (x, y) = image_grid(b.width, b.height);
                commands.push(Command::Dispatch {
                    pass: index,
                    stage: DispatchStage::Image,
                    x,
                    y,
                    z: 1,
                    generation: b.generation,
                });
            }
            PassKind::FlatCompute => {
                let b = self.binding.unwrap();
                commands.push(Command::Dispatch {
                    pass: index,
                    stage: DispatchStage::Reset,
                    x: 1,
                    y: 1,
                    z: 1,
                    generation: b.generation,
                });
                let n = flat_grid(b.width, b.height);
                commands.push(Command::Dispatch {
                    pass: index,
                    stage: DispatchStage::Scatter,
                    x: n,
                    y: 1,
                    z: 1,
                    generation: b.generation,
                });
            }
            PassKind::Blit => {
                let b = self.binding.unwrap();
                commands.push(Command::Blit { pass: index, generation: b.generation });
            }
        }
    }
}

} // verus!
