//! The shared frame store: the single current frame, its brightness and the
//! marker that tells the renderer whether anything changed.
//!
//! Exclusive access is expressed by `&mut self`. A caller that shares the
//! frame between workers keeps it behind a lock and holds the lock only for
//! the duration of one `merge` or one `take_if_dirty`.

use vstd::prelude::*;
use crate::decoder::{decoded_pixel_count, decoded_segment, SegmentView, UniverseSegment};
use crate::layout::{
    pixel_offset, spec_pixel_offset, spec_universe_in_range, Pixel, EMPTY_PIXEL,
    FULL_PAYLOAD_LEN, PIXELS_PER_UNIVERSE, PRIMARY_UNIVERSE,
};

verus! {

/// What a frame holds, as mathematical values.
pub struct FrameView {
    /// Colours by global pixel position.
    pub pixels: Seq<Pixel>,
    /// Global brightness.
    pub brightness: u8,
    /// Whether the frame has changes that no snapshot has seen.
    pub dirty: bool,
}

impl FrameView {
    /// The frame before any universe arrived: no pixels, dark, and dirty so
    /// that the first hardware pass takes place.
    pub open spec fn initial() -> FrameView {
        FrameView { pixels: Seq::empty(), brightness: 0, dirty: true }
    }

    /// Length of the frame once `universe` has been merged: long enough for
    /// the whole universe, and never shorter than before.
    pub open spec fn merged_len(self, universe: u16) -> nat {
        let needed = spec_pixel_offset(universe) + PIXELS_PER_UNIVERSE;
        if self.pixels.len() < needed {
            needed as nat
        } else {
            self.pixels.len()
        }
    }

    /// Colour at position `index` once `segment` has been merged at
    /// `universe`: the segment's colour inside the window it fills, the
    /// prior colour elsewhere, and the empty colour in new slots.
    pub open spec fn merged_pixel(self, universe: u16, segment: SegmentView, index: int) -> Pixel {
        let offset = spec_pixel_offset(universe);
        if offset <= index < offset + segment.pixels.len() {
            segment.pixels[index - offset]
        } else if index < self.pixels.len() {
            self.pixels[index]
        } else {
            EMPTY_PIXEL
        }
    }

    /// The frame after `segment` has been merged at `universe`. A universe
    /// that is not mapped onto the strip leaves the frame as it is.
    pub open spec fn merged(self, universe: u16, segment: SegmentView) -> FrameView {
        if spec_universe_in_range(universe) {
            FrameView {
                pixels: Seq::new(
                    self.merged_len(universe),
                    |index: int| self.merged_pixel(universe, segment, index),
                ),
                brightness: match segment.brightness {
                    Some(brightness) => brightness,
                    None => self.brightness,
                },
                dirty: true,
            }
        } else {
            self
        }
    }

    /// What a renderer gets when it asks for the frame: a copy if the frame
    /// is dirty, nothing otherwise.
    pub open spec fn snapshot(self) -> Option<FrameView> {
        if self.dirty {
            Some(self)
        } else {
            None
        }
    }

    /// The frame after the renderer has asked for it: the same content,
    /// marked clean.
    pub open spec fn after_take(self) -> FrameView {
        FrameView { dirty: false, ..self }
    }
}

/// The current frame: pixel colours by global position, a brightness and a
/// dirty marker.
#[derive(Debug)]
pub struct PixelFrame {
    dirty: bool,
    brightness: u8,
    pixels: Vec<Pixel>,
}

impl View for PixelFrame {
    type V = FrameView;

    closed spec fn view(&self) -> FrameView {
        FrameView { pixels: self.pixels@, brightness: self.brightness, dirty: self.dirty }
    }
}

impl PixelFrame {
    /// The frame at startup: empty, dark and dirty.
    pub fn new() -> (frame: PixelFrame)
        ensures
            frame@ == FrameView::initial(),
    {
        PixelFrame { dirty: true, brightness: 0, pixels: Vec::new() }
    }

    /// Merges one decoded segment into the frame at the offset of
    /// `universe`.
    ///
    /// The frame grows with empty pixels until it covers the whole universe,
    /// the segment's pixels land in their absolute slots, a brightness
    /// override replaces the stored brightness, and the frame becomes dirty.
    /// Slots of the universe that the segment does not reach keep their
    /// colour. A universe that is not mapped onto the strip changes nothing.
    pub fn merge(&mut self, universe: u16, segment: &UniverseSegment)
        ensures
            final(self)@ == old(self)@.merged(universe, segment@),
            !spec_universe_in_range(universe) ==> final(self)@ == old(self)@,
            final(self)@.pixels.len() >= old(self)@.pixels.len(),
    {
        let offset: usize = match pixel_offset(universe) {
            Some(offset) => offset,
            None => {
                return ;
            },
        };
        let needed: usize = offset + PIXELS_PER_UNIVERSE;
        while self.pixels.len() < needed
            invariant
                self.dirty == old(self).dirty,
                self.brightness == old(self).brightness,
                needed == spec_pixel_offset(universe) + PIXELS_PER_UNIVERSE,
                old(self)@.pixels.len() <= self.pixels@.len() <= old(self)@.merged_len(universe),
                forall|i: int|
                    0 <= i < old(self)@.pixels.len() ==> self.pixels@[i] == old(self)@.pixels[i],
                forall|i: int|
                    old(self)@.pixels.len() <= i < self.pixels@.len() ==> self.pixels@[i]
                        == EMPTY_PIXEL,
            decreases needed - self.pixels@.len(),
        {
            self.pixels.push(EMPTY_PIXEL);
        }
        let decoded = segment.pixels();
        let count: usize = decoded.len();
        let mut slot: usize = 0;
        while slot < count
            invariant
                slot <= count,
                count == decoded@.len(),
                count <= PIXELS_PER_UNIVERSE,
                offset == spec_pixel_offset(universe),
                self.dirty == old(self).dirty,
                self.brightness == old(self).brightness,
                self.pixels@.len() == old(self)@.merged_len(universe),
                forall|i: int|
                    offset <= i < offset + slot ==> self.pixels@[i] == decoded@[i - offset],
                forall|i: int|
                    0 <= i < self.pixels@.len() && !(offset <= i < offset + slot)
                        ==> self.pixels@[i] == if i < old(self)@.pixels.len() {
                        old(self)@.pixels[i]
                    } else {
                        EMPTY_PIXEL
                    },
            decreases count - slot,
        {
            self.pixels[offset + slot] = decoded[slot];
            slot += 1;
        }
        match segment.brightness() {
            Some(brightness) => {
                self.brightness = brightness;
            },
            None => {},
        }
        self.dirty = true;
        assert(self.pixels@ =~= old(self)@.merged(universe, segment@).pixels);
    }

    /// Hands the frame to the renderer if it changed since the last call.
    ///
    /// A dirty frame is copied as it stands and then marked clean; a clean
    /// frame yields nothing and stays as it is.
    pub fn take_if_dirty(&mut self) -> (snapshot: Option<PixelFrame>)
        ensures
            snapshot is Some <==> old(self)@.snapshot() is Some,
            snapshot is Some ==> snapshot.unwrap()@ == old(self)@.snapshot().unwrap(),
            final(self)@ == old(self)@.after_take(),
    {
        if self.dirty {
            let copy = self.clone();
            self.dirty = false;
            Some(copy)
        } else {
            None
        }
    }

    /// Colours by global pixel position.
    pub fn pixels(&self) -> (pixels: &Vec<Pixel>)
        ensures
            pixels@ == self@.pixels,
    {
        &self.pixels
    }

    /// Number of pixels that the frame holds.
    pub fn len(&self) -> (len: usize)
        ensures
            len == self@.pixels.len(),
    {
        self.pixels.len()
    }

    /// Global brightness.
    pub fn brightness(&self) -> (brightness: u8)
        ensures
            brightness == self@.brightness,
    {
        self.brightness
    }

    /// Whether the frame has changes that no snapshot has seen.
    pub fn is_dirty(&self) -> (dirty: bool)
        ensures
            dirty == self@.dirty,
    {
        self.dirty
    }
}

impl Clone for PixelFrame {
    /// An independent copy of the frame, dirty marker included.
    fn clone(&self) -> (copy: PixelFrame)
        ensures
            copy@ == self@,
    {
        let mut pixels: Vec<Pixel> = Vec::new();
        let mut index: usize = 0;
        while index < self.pixels.len()
            invariant
                index <= self.pixels@.len(),
                pixels@ == self.pixels@.take(index as int),
            decreases self.pixels@.len() - index,
        {
            pixels.push(self.pixels[index]);
            index += 1;
        }
        assert(pixels@ =~= self.pixels@);
        PixelFrame { dirty: self.dirty, brightness: self.brightness, pixels }
    }
}

impl Default for PixelFrame {
    fn default() -> (frame: PixelFrame)
        ensures
            frame@ == FrameView::initial(),
    {
        PixelFrame::new()
    }
}

/// A universe that is not mapped onto the strip never changes the frame,
/// whatever the segment holds.
pub proof fn lemma_unmapped_universe_changes_nothing(
    frame: FrameView,
    universe: u16,
    segment: SegmentView,
)
    requires
        !spec_universe_in_range(universe),
    ensures
        frame.merged(universe, segment) == frame,
{
}

/// A merge never shortens the frame, and afterwards the frame covers the
/// whole merged universe.
pub proof fn lemma_merge_only_grows(frame: FrameView, universe: u16, segment: SegmentView)
    ensures
        frame.merged(universe, segment).pixels.len() >= frame.pixels.len(),
        spec_universe_in_range(universe) ==> frame.merged(universe, segment).pixels.len()
            >= spec_pixel_offset(universe) + PIXELS_PER_UNIVERSE,
{
}

/// Merging a decoded payload keeps every prior pixel that the payload does
/// not reach: pixels of other universes, and the tail of the same universe
/// when the payload is too short to fill it.
pub proof fn lemma_unreached_pixels_survive(
    frame: FrameView,
    universe: u16,
    payload: Seq<u8>,
    index: int,
)
    requires
        0 <= index < frame.pixels.len(),
        !(spec_pixel_offset(universe) <= index < spec_pixel_offset(universe) + decoded_pixel_count(
            payload.len(),
        )),
    ensures
        frame.merged(universe, decoded_segment(universe, payload)).pixels[index]
            == frame.pixels[index],
{
}

/// Only a full-length payload on the primary universe touches the
/// brightness: any other universe, and any other payload length, leaves it
/// as it was.
pub proof fn lemma_brightness_needs_full_primary_payload(
    frame: FrameView,
    universe: u16,
    payload: Seq<u8>,
)
    requires
        universe != PRIMARY_UNIVERSE || payload.len() != FULL_PAYLOAD_LEN,
    ensures
        frame.merged(universe, decoded_segment(universe, payload)).brightness == frame.brightness,
{
}

/// After a merge at a mapped universe the renderer gets the merged frame
/// exactly once: the first request yields it, and a second request that
/// follows without another merge yields nothing.
pub proof fn lemma_merged_frame_is_taken_once(
    frame: FrameView,
    universe: u16,
    segment: SegmentView,
)
    requires
        spec_universe_in_range(universe),
    ensures
        frame.merged(universe, segment).snapshot() == Some(frame.merged(universe, segment)),
        frame.merged(universe, segment).after_take().snapshot() is None,
{
}

} // verus!
