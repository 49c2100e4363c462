//! Fixed topology of the installation: how universes map onto the strip.

use vstd::prelude::*;

verus! {

/// One strip pixel as the hardware stores it: three colour channels and a
/// fourth channel that this driver never lights.
pub type Pixel = [u8; 4];

/// Bytes that one pixel occupies in a universe payload.
pub const BYTES_PER_PIXEL: usize = 3;

/// Pixels that one universe addresses.
pub const PIXELS_PER_UNIVERSE: usize = 170;

/// Universes that the strip listens to, numbered from 1.
pub const UNIVERSE_COUNT: u16 = 3;

/// The universe whose full-length payload also carries the brightness.
pub const PRIMARY_UNIVERSE: u16 = 1;

/// Length of a full universe payload.
pub const FULL_PAYLOAD_LEN: usize = 512;

/// Colour of a pixel that no universe has addressed yet.
pub const EMPTY_PIXEL: Pixel = [0, 0, 0, 0];

/// Whether `universe` is one of the universes mapped onto the strip.
pub open spec fn spec_universe_in_range(universe: u16) -> bool {
    1 <= universe <= UNIVERSE_COUNT
}

/// Index of the first frame pixel that `universe` addresses. Meaningful for
/// universes in range only.
pub open spec fn spec_pixel_offset(universe: u16) -> int {
    (universe - 1) * PIXELS_PER_UNIVERSE
}

/// Pixels on the whole strip.
pub open spec fn spec_strip_pixel_count() -> int {
    PIXELS_PER_UNIVERSE * UNIVERSE_COUNT
}

/// Whether `universe` is one of the universes mapped onto the strip.
#[verifier::when_used_as_spec(spec_universe_in_range)]
pub fn universe_in_range(universe: u16) -> (in_range: bool)
    ensures
        in_range == spec_universe_in_range(universe),
{
    1 <= universe && universe <= UNIVERSE_COUNT
}

/// The frame index at which `universe` starts, or `None` for a universe that
/// is not mapped onto the strip.
pub fn pixel_offset(universe: u16) -> (offset: Option<usize>)
    ensures
        offset is Some <==> spec_universe_in_range(universe),
        offset is Some ==> offset.unwrap() == spec_pixel_offset(universe),
        offset is Some ==> offset.unwrap() + PIXELS_PER_UNIVERSE <= spec_strip_pixel_count(),
{
    if universe_in_range(universe) {
        let index: usize = (universe - 1) as usize;
        Some(index * PIXELS_PER_UNIVERSE)
    } else {
        None
    }
}

/// Number of pixels the strip is configured with.
pub fn strip_pixel_count() -> (count: usize)
    ensures
        count == spec_strip_pixel_count(),
        count == 510,
{
    PIXELS_PER_UNIVERSE * (UNIVERSE_COUNT as usize)
}

} // verus!
