use vstd::prelude::*;

verus! {

/// Smallest width or height a surface is ever configured with.
pub const MIN_SURFACE_DIM: u32 = 4;

/// A size in physical pixels.
pub struct PhysicalSize<P> {
    pub width: P,
    pub height: P,
}

impl<P> PhysicalSize<P> {
    pub fn new(width: P, height: P) -> (r: Self)
        ensures
            r.width == width,
            r.height == height,
    {
        PhysicalSize { width, height }
    }
}

/// How presented images are paced.
#[derive(Clone, Copy, Debug, PartialEq, Eq, Structural)]
pub enum PresentMode {
    /// Block until vertical sync: no tearing, bounded latency.
    Fifo,
}

/// The presentation surface's configuration, as far as the frame logic reads it.
#[derive(Clone, Copy, Debug, PartialEq, Eq, Structural)]
pub struct SurfaceConfig {
    pub width: u32,
    pub height: u32,
    pub present_mode: PresentMode,
}

pub open spec fn clamped(d: u32) -> u32 {
    if d < MIN_SURFACE_DIM { MIN_SURFACE_DIM } else { d }
}

/// Raises a requested dimension to the minimum surface size.
pub fn clamp_dimension(d: u32) -> (r: u32)
    ensures
        r == clamped(d),
        r >= MIN_SURFACE_DIM,
{
    if d < MIN_SURFACE_DIM { MIN_SURFACE_DIM } else { d }
}

impl SurfaceConfig {
    pub open spec fn wf(self) -> bool {
        self.width >= MIN_SURFACE_DIM && self.height >= MIN_SURFACE_DIM
    }

    /// A configuration for the requested size, clamped to the minimum and
    /// presented with vertical sync.
    pub fn new(width: u32, height: u32) -> (r: Self)
        ensures
            r.width == clamped(width),
            r.height == clamped(height),
            r.present_mode == PresentMode::Fifo,
            r.wf(),
    {
        SurfaceConfig {
            width: clamp_dimension(width),
            height: clamp_dimension(height),
            present_mode: PresentMode::Fifo,
        }
    }
}

} // verus!
