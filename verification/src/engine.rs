//! Geometry of one compute pass: binding slots, workgroup grid, and the
//! sizes of the image and of the host-visible output buffer.
//!
//! The GPU program itself is a black box to the host; what the host owes it
//! is exact: the binding-slot numbering, a dispatch grid that covers the
//! whole image, and an output buffer of exactly `width * height * 4` bytes.
//! Those obligations are what this module states and proves; recording and
//! submitting the command sequence is the shell's work.

use vstd::prelude::*;
use crate::vec3::Vec3;

verus! {

/// Width of the rendered image, in pixels.
pub const RESULT_IMG_WIDTH: u32 = 512;

/// Height of the rendered image, in pixels.
pub const RESULT_IMG_HEIGHT: u32 = 512;

/// Side length of one compute workgroup, in pixels.
pub const WORKGROUP_SIZE: u32 = 8;

/// Bytes per pixel of the rendered image (RGBA, one byte per channel).
pub const BYTES_PER_PIXEL: u32 = 4;

/// Binding slot of the scene-description buffer.
pub const SCENE_BINDING: u32 = 0;

/// Binding slot of the target image.
pub const IMAGE_BINDING: u32 = 1;

/// Binding slot of the debug-telemetry buffer.
pub const DEBUG_BINDING: u32 = 2;

/// Largest image side length the engine accepts.
pub const MAX_IMG_DIM: u32 = 16384;

/// The verified model of the compute pipeline: the dimensions it renders at.
/// The dispatch grid and the buffer sizes are functions of these dimensions
/// alone.
pub struct VkComputePipeline {
    pub width: u32,
    pub height: u32,
}

impl VkComputePipeline {
    /// The dimensions are non-zero and small enough that every byte count
    /// fits the machine's sizes.
    pub open spec fn wf(self) -> bool {
        &&& 1 <= self.width <= MAX_IMG_DIM
        &&& 1 <= self.height <= MAX_IMG_DIM
    }

    /// Model a pipeline rendering at `width` by `height` pixels. Returns
    /// `None` exactly when a dimension is zero or beyond `MAX_IMG_DIM`.
    pub fn new(width: u32, height: u32) -> (r: Option<VkComputePipeline>)
        ensures
            r is Some <==> 1 <= width <= MAX_IMG_DIM && 1 <= height <= MAX_IMG_DIM,
            r matches Some(p) ==> p.width == width && p.height == height && p.wf(),
    {
        if 1 <= width && width <= MAX_IMG_DIM && 1 <= height && height <= MAX_IMG_DIM {
            Some(VkComputePipeline { width, height })
        } else {
            None
        }
    }

    /// The workgroup grid of one dispatch: the least grid of 8-by-8 groups
    /// that covers the whole image, one layer deep.
    pub fn dispatch_grid(&self) -> (g: (u32, u32, u32))
        requires
            self.wf(),
        ensures
            g.0 == (self.width + WORKGROUP_SIZE - 1) / (WORKGROUP_SIZE as int),
            g.1 == (self.height + WORKGROUP_SIZE - 1) / (WORKGROUP_SIZE as int),
            g.2 == 1,
            g.0 * WORKGROUP_SIZE >= self.width,
            (g.0 - 1) * WORKGROUP_SIZE < self.width,
            g.1 * WORKGROUP_SIZE >= self.height,
            (g.1 - 1) * WORKGROUP_SIZE < self.height,
    {
        let gx: u32 = (self.width + WORKGROUP_SIZE - 1) / WORKGROUP_SIZE;
        let gy: u32 = (self.height + WORKGROUP_SIZE - 1) / WORKGROUP_SIZE;
        (gx, gy, 1)
    }

    /// Number of bytes of the host-visible output buffer: four per pixel.
    pub fn output_len(&self) -> (n: usize)
        requires
            self.wf(),
        ensures
            n == self.width * self.height * BYTES_PER_PIXEL,
    {
        proof {
            assert(self.width * self.height <= 0x10000000) by (nonlinear_arith)
                requires
                    self.width <= 16384,
                    self.height <= 16384,
            ;
        }
        (self.width as usize) * (self.height as usize) * (BYTES_PER_PIXEL as usize)
    }
}

/// The host-visible pixel buffer one `render` call fills: row-major RGBA,
/// one byte per channel, exactly `width * height * 4` bytes.
pub struct OutputPixelBuffer {
    pub width: u32,
    pub height: u32,
    pub pixels: Vec<u8>,
}

impl OutputPixelBuffer {
    /// The buffer holds exactly four bytes per pixel of its dimensions.
    pub open spec fn wf(self) -> bool {
        &&& 1 <= self.width <= MAX_IMG_DIM
        &&& 1 <= self.height <= MAX_IMG_DIM
        &&& self.pixels@.len() == self.width * self.height * BYTES_PER_PIXEL
    }

    /// Number of bytes held.
    pub fn len(&self) -> (n: usize)
        ensures
            n == self.pixels@.len(),
    {
        self.pixels.len()
    }

    /// Wrap the bytes read back from the device as the frame for `pipeline`'s
    /// dimensions. Returns `None` exactly when the byte count is not
    /// `width * height * 4` — a caller can never observe a partial frame.
    pub fn from_bytes(pipeline: &VkComputePipeline, bytes: Vec<u8>) -> (r: Option<
        OutputPixelBuffer,
    >)
        requires
            pipeline.wf(),
        ensures
            r is Some <==> bytes@.len() == pipeline.width * pipeline.height * BYTES_PER_PIXEL,
            r matches Some(b) ==> b.wf() && b.pixels@ == bytes@ && b.width == pipeline.width
                && b.height == pipeline.height,
    {
        let expected: usize = pipeline.output_len();
        if bytes.len() == expected {
            Some(OutputPixelBuffer { width: pipeline.width, height: pipeline.height, pixels: bytes })
        } else {
            None
        }
    }
}

/// The last primary-ray sample the GPU program wrote for the probe pixel:
/// a diagnostic the shell may print on shutdown, never part of the rendering
/// contract.
#[derive(Clone, Copy, Debug, PartialEq, Eq, Structural)]
pub struct DebugTelemetry {
    pub ray_origin: Vec3,
    pub ray_direction: Vec3,
}

impl DebugTelemetry {
    /// The zeroed telemetry record the buffer starts with.
    pub fn new() -> (r: DebugTelemetry)
        ensures
            r.ray_origin@.is_zero(),
            r.ray_direction@.is_zero(),
    {
        DebugTelemetry {
            ray_origin: Vec3 { x: 0, y: 0, z: 0 },
            ray_direction: Vec3 { x: 0, y: 0, z: 0 },
        }
    }
}

} // verus!
