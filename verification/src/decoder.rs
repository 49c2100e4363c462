//! Frame decoder: turns the payload of one universe into pixels and an
//! optional brightness.

use vstd::prelude::*;
use crate::layout::{
    universe_in_range, spec_universe_in_range, Pixel, BYTES_PER_PIXEL, FULL_PAYLOAD_LEN,
    PIXELS_PER_UNIVERSE, PRIMARY_UNIVERSE,
};

verus! {

/// What a universe segment holds, as mathematical values.
pub struct SegmentView {
    /// The decoded pixels, first slot first.
    pub pixels: Seq<Pixel>,
    /// The brightness that the payload carried, if it carried one.
    pub brightness: Option<u8>,
}

/// The decoded content of one universe payload: at most
/// `PIXELS_PER_UNIVERSE` pixels and an optional brightness.
#[derive(Debug)]
pub struct UniverseSegment {
    pixels: Vec<Pixel>,
    brightness: Option<u8>,
}

impl View for UniverseSegment {
    type V = SegmentView;

    closed spec fn view(&self) -> SegmentView {
        SegmentView { pixels: self.pixels@, brightness: self.brightness }
    }
}

/// Number of pixels that a payload of `payload_len` bytes fills: one for
/// every complete triplet, and never more than a universe addresses.
pub open spec fn decoded_pixel_count(payload_len: nat) -> nat {
    if payload_len / (BYTES_PER_PIXEL as nat) < PIXELS_PER_UNIVERSE {
        payload_len / (BYTES_PER_PIXEL as nat)
    } else {
        PIXELS_PER_UNIVERSE as nat
    }
}

/// The pixel that slot `slot` of a payload describes: red, green and blue
/// in payload order, with the fourth channel dark.
pub open spec fn decoded_pixel(payload: Seq<u8>, slot: int) -> Pixel {
    [
        payload[slot * BYTES_PER_PIXEL],
        payload[slot * BYTES_PER_PIXEL + 1],
        payload[slot * BYTES_PER_PIXEL + 2],
        0u8,
    ]
}

/// All pixels that a payload describes.
pub open spec fn decoded_pixels(payload: Seq<u8>) -> Seq<Pixel> {
    Seq::new(decoded_pixel_count(payload.len()), |slot: int| decoded_pixel(payload, slot))
}

/// The brightness that a payload carries: the last byte of a full-length
/// payload on the primary universe, nothing otherwise.
pub open spec fn decoded_brightness(universe: u16, payload: Seq<u8>) -> Option<u8> {
    if universe == PRIMARY_UNIVERSE && payload.len() == FULL_PAYLOAD_LEN {
        Some(payload[FULL_PAYLOAD_LEN - 1])
    } else {
        None
    }
}

/// The segment that a payload received on `universe` decodes to.
pub open spec fn decoded_segment(universe: u16, payload: Seq<u8>) -> SegmentView {
    SegmentView {
        pixels: decoded_pixels(payload),
        brightness: decoded_brightness(universe, payload),
    }
}

impl UniverseSegment {
    #[verifier::type_invariant]
    spec fn fits_universe(self) -> bool {
        self.pixels@.len() <= PIXELS_PER_UNIVERSE
    }

    /// Builds a segment from pixels that are already decoded. Refuses more
    /// pixels than a universe addresses.
    pub fn new(pixels: Vec<Pixel>, brightness: Option<u8>) -> (segment: Option<UniverseSegment>)
        ensures
            segment is Some <==> pixels@.len() <= PIXELS_PER_UNIVERSE,
            segment is Some ==> segment.unwrap()@ == (SegmentView { pixels: pixels@, brightness }),
    {
        if pixels.len() <= PIXELS_PER_UNIVERSE {
            Some(UniverseSegment { pixels, brightness })
        } else {
            None
        }
    }

    /// The decoded pixels, first slot first.
    pub fn pixels(&self) -> (pixels: &Vec<Pixel>)
        ensures
            pixels@ == self@.pixels,
            pixels@.len() <= PIXELS_PER_UNIVERSE,
    {
        proof {
            use_type_invariant(self);
        }
        &self.pixels
    }

    /// The brightness override, if the payload carried one.
    pub fn brightness(&self) -> (brightness: Option<u8>)
        ensures
            brightness == self@.brightness,
    {
        self.brightness
    }
}

/// Decodes the payload of an output command.
///
/// A universe that is not mapped onto the strip yields nothing. Otherwise
/// every complete triplet of the payload, up to `PIXELS_PER_UNIVERSE` of
/// them, becomes one pixel; decoding stops at the first slot whose three
/// bytes do not all lie inside the payload.
pub fn decode_universe(universe: u16, payload: &[u8]) -> (segment: Option<UniverseSegment>)
    ensures
        segment is Some <==> spec_universe_in_range(universe),
        segment is Some ==> segment.unwrap()@ == decoded_segment(universe, payload@),
{
    if !universe_in_range(universe) {
        return None;
    }
    let brightness = if universe == PRIMARY_UNIVERSE && payload.len() == FULL_PAYLOAD_LEN {
        Some(payload[FULL_PAYLOAD_LEN - 1])
    } else {
        None
    };
    let mut pixels: Vec<Pixel> = Vec::new();
    let mut slot: usize = 0;
    while slot < PIXELS_PER_UNIVERSE
        invariant_except_break
            slot <= PIXELS_PER_UNIVERSE,
            slot <= decoded_pixel_count(payload@.len()),
            pixels@.len() == slot,
            forall|i: int| 0 <= i < slot ==> pixels@[i] == decoded_pixel(payload@, i),
        ensures
            pixels@ == decoded_pixels(payload@),
        decreases PIXELS_PER_UNIVERSE - slot,
    {
        let start: usize = slot * BYTES_PER_PIXEL;
        if payload.len() < start + BYTES_PER_PIXEL {
            break;
        }
        pixels.push([payload[start], payload[start + 1], payload[start + 2], 0]);
        slot += 1;
    }
    Some(UniverseSegment { pixels, brightness })
}

} // verus!
