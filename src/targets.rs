use vstd::prelude::*;

verus! {

/// Pixel formats of the intermediate targets.
#[derive(Clone, Copy, Debug, PartialEq, Eq, Structural)]
pub enum TextureFormat {
    /// Color target that rasterization passes draw into.
    Rgba8UnormSrgb,
    /// Storage-capable target written by compute passes.
    Rgba8Unorm,
    /// Depth target.
    Depth32Float,
}

/// Whether a format allows storage (shader-writable) access.
pub open spec fn supports_storage(f: TextureFormat) -> bool {
    f == TextureFormat::Rgba8Unorm
}

/// How a target may be used by the passes that bind it.
#[derive(Clone, Copy, Debug, PartialEq, Eq, Structural)]
pub struct TextureUsages {
    pub render_attachment: bool,
    pub sampled: bool,
    pub storage: bool,
}

/// One resolution-dependent target.
#[derive(Clone, Copy, Debug, PartialEq, Eq, Structural)]
pub struct RenderTarget {
    pub format: TextureFormat,
    pub usage: TextureUsages,
    pub width: u32,
    pub height: u32,
}

impl RenderTarget {
    pub open spec fn wf(self) -> bool {
        &&& self.width >= 1
        &&& self.height >= 1
        &&& self.usage.storage ==> supports_storage(self.format)
    }

    pub open spec fn has_size(self, width: u32, height: u32) -> bool {
        self.width == width && self.height == height
    }
}

/// The intermediate targets shared by the passes of a frame, tagged with the
/// generation that tells successive sets apart.
#[derive(Clone, Copy, Debug, PartialEq, Eq, Structural)]
pub struct RenderTargetSet {
    pub generation: u64,
    pub color: RenderTarget,
    pub storage: RenderTarget,
    pub depth: RenderTarget,
}

/// The target set of the given generation for a surface of the given size:
/// a color target that passes draw into and sample, a storage-capable target
/// that compute passes write and the blit samples, and a depth target.
pub open spec fn target_set(generation: u64, width: u32, height: u32) -> RenderTargetSet {
    RenderTargetSet {
        generation,
        color: RenderTarget {
            format: TextureFormat::Rgba8UnormSrgb,
            usage: TextureUsages { render_attachment: true, sampled: true, storage: false },
            width,
            height,
        },
        storage: RenderTarget {
            format: TextureFormat::Rgba8Unorm,
            usage: TextureUsages { render_attachment: false, sampled: true, storage: true },
            width,
            height,
        },
        depth: RenderTarget {
            format: TextureFormat::Depth32Float,
            usage: TextureUsages { render_attachment: true, sampled: true, storage: false },
            width,
            height,
        },
    }
}

impl RenderTargetSet {
    pub open spec fn wf(self) -> bool {
        &&& self.color.wf()
        &&& self.storage.wf()
        &&& self.depth.wf()
        &&& self.storage.width == self.color.width && self.storage.height == self.color.height
        &&& self.depth.width == self.color.width && self.depth.height == self.color.height
        &&& self.color.format == TextureFormat::Rgba8UnormSrgb
        &&& self.color.usage.render_attachment && self.color.usage.sampled
        &&& self.storage.format == TextureFormat::Rgba8Unorm
        &&& self.storage.usage.sampled && self.storage.usage.storage
        &&& self.depth.format == TextureFormat::Depth32Float
        &&& self.depth.usage.render_attachment && self.depth.usage.sampled
    }

    pub open spec fn width(self) -> u32 {
        self.color.width
    }

    pub open spec fn height(self) -> u32 {
        self.color.height
    }

    /// The complete set of targets for a surface of the given size.
    pub fn create(generation: u64, width: u32, height: u32) -> (r: Self)
        requires
            width >= 1,
            height >= 1,
        ensures
            r == target_set(generation, width, height),
            r.wf(),
    {
        let color = RenderTarget {
            format: TextureFormat::Rgba8UnormSrgb,
            usage: TextureUsages { render_attachment: true, sampled: true, storage: false },
            width,
            height,
        };
        let storage = RenderTarget {
            format: TextureFormat::Rgba8Unorm,
            usage: TextureUsages { render_attachment: false, sampled: true, storage: true },
            width,
            height,
        };
        let depth = RenderTarget {
            format: TextureFormat::Depth32Float,
            usage: TextureUsages { render_attachment: true, sampled: true, storage: false },
            width,
            height,
        };
        RenderTargetSet { generation, color, storage, depth }
    }
}

} // verus!
