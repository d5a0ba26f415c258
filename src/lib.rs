//! Render-target lifecycle and multi-pass frame orchestration.
//!
//! The library decides what a GPU frame consists of: which intermediate
//! targets exist and how large they are, which passes run in which order,
//! with which load operations and dispatch sizes, and how the frame moves
//! from acquisition to presentation. A host executes the recorded commands
//! on a real device.

pub mod guarantees;
pub mod input;
pub mod mesh;
pub mod passes;
pub mod renderer;
pub mod surface;
pub mod targets;

pub use surface::{clamp_dimension, PhysicalSize, PresentMode, SurfaceConfig, MIN_SURFACE_DIM};
pub use targets::{RenderTarget, RenderTargetSet, TextureFormat, TextureUsages};
pub use passes::{
    flat_grid, image_grid, shade_pixel, Binding, CameraUniform, Command, DispatchStage, LoadOp, Pass, PassKind,
    BACKGROUND_RGBA, FLAT_WORKGROUP_SIZE, IMAGE_WORKGROUP_SIDE,
};
pub use renderer::{FramePhase, Renderer, RendererView};
pub use input::{Input, KeyRecord, KeyState, KEY_COUNT};
pub use mesh::{MeshData, MeshLoader, MeshModelLocation, CUBE_INDEX_COUNT, CUBE_VERTEX_COUNT};
