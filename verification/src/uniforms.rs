use vstd::prelude::*;

verus! {

/// Fixed-point scale: the integer that stands for 1.0 of normalized
/// window space. A cursor coordinate of `SCALE` means the far edge of
/// the window; `-SCALE` is the sentinel written when the pointer is
/// outside the window.
pub const SCALE: i64 = 1_000_000;

/// Per-frame scalar values, recomputed every frame and handed to the
/// GPU-facing embedder. Normalized quantities are held in fixed point
/// (millionths), time in whole milliseconds since startup.
#[derive(Clone, Copy, PartialEq, Eq, Structural, Debug)]
pub struct FrameUniforms {
    /// Viewport width over height, in millionths.
    pub aspect: i64,
    /// Milliseconds elapsed since startup, as supplied by the driver.
    pub time_ms: u64,
    /// Normalized cursor x in `[0, SCALE]`, or `-SCALE` outside the window.
    pub cursor_x: i64,
    /// Normalized cursor y, measured from the bottom edge, or `-SCALE`.
    pub cursor_y: i64,
}

/// A pixel coordinate scaled into millionths of the window extent;
/// zero when the extent is zero.
pub open spec fn norm_coord(px: u32, extent: u32) -> int {
    if extent == 0 {
        0
    } else {
        (px * SCALE) / (extent as int)
    }
}

/// Scale a pixel coordinate by the window extent into millionths.
pub fn normalize_coord(px: u32, extent: u32) -> (r: i64)
    ensures
        r == norm_coord(px, extent),
        0 <= r <= px * SCALE,
{
    if extent == 0 {
        0
    } else {
        let num: u64 = (px as u64) * 1_000_000;
        let q: u64 = num / (extent as u64);
        assert(q <= num);
        q as i64
    }
}

impl FrameUniforms {
    /// The uniforms a freshly started playground uploads: everything zero.
    pub fn startup() -> (r: FrameUniforms)
        ensures
            r == (FrameUniforms { aspect: 0, time_ms: 0, cursor_x: 0, cursor_y: 0 }),
    {
        FrameUniforms { aspect: 0, time_ms: 0, cursor_x: 0, cursor_y: 0 }
    }
}

} // verus!
