//! Renderer: decides what the hardware worker does next and copies a frame
//! into the strip's colour buffer.

use vstd::prelude::*;
use crate::frame::PixelFrame;
use crate::layout::{strip_pixel_count, spec_strip_pixel_count, Pixel};

verus! {

/// How long the renderer rests when the frame has not changed.
pub const IDLE_INTERVAL_MS: u64 = 20;

/// GPIO pin that drives the strip.
pub const STRIP_PIN: i32 = 12;

/// Signalling frequency of the strip.
pub const STRIP_FREQUENCY_HZ: u32 = 800_000;

/// DMA channel used for transmission.
pub const STRIP_DMA_CHANNEL: i32 = 10;

/// Brightness that the channel is created with.
pub const STRIP_INITIAL_BRIGHTNESS: u8 = 255;

/// Order in which the strip expects the colour channels.
#[derive(Clone, Copy, Debug, PartialEq, Eq, Structural)]
pub enum ColorOrder {
    /// Red first.
    Rgb,
    /// Blue first.
    Bgr,
}

/// Settings of the single hardware channel.
#[derive(Clone, Copy, Debug)]
pub struct StripConfig {
    /// GPIO pin that drives the strip.
    pub pin: i32,
    /// Signalling frequency.
    pub frequency_hz: u32,
    /// DMA channel used for transmission.
    pub dma_channel: i32,
    /// Number of pixels on the strip.
    pub pixel_count: i32,
    /// Brightness that the channel starts with.
    pub brightness: u8,
    /// Order of the colour channels.
    pub order: ColorOrder,
}

/// The channel settings for a strip with the given colour order: one pixel
/// for every slot of every universe, on the fixed pin, frequency and DMA
/// channel.
pub fn strip_config(order: ColorOrder) -> (config: StripConfig)
    ensures
        config.pin == STRIP_PIN,
        config.frequency_hz == STRIP_FREQUENCY_HZ,
        config.dma_channel == STRIP_DMA_CHANNEL,
        config.pixel_count == spec_strip_pixel_count(),
        config.brightness == STRIP_INITIAL_BRIGHTNESS,
        config.order == order,
{
    StripConfig {
        pin: STRIP_PIN,
        frequency_hz: STRIP_FREQUENCY_HZ,
        dma_channel: STRIP_DMA_CHANNEL,
        pixel_count: strip_pixel_count() as i32,
        brightness: STRIP_INITIAL_BRIGHTNESS,
        order,
    }
}

/// What the renderer does in one iteration.
#[derive(Debug)]
pub enum RenderAction {
    /// Nothing changed: rest for `millis` milliseconds and ask again.
    Sleep { millis: u64 },
    /// Push this frame to the hardware.
    Present { frame: PixelFrame },
}

/// Takes the frame if it is dirty and says what the renderer does next.
///
/// A dirty frame is handed out for presentation and marked clean; a clean
/// frame stays as it is and the renderer rests for `IDLE_INTERVAL_MS`.
pub fn next_render_action(store: &mut PixelFrame) -> (action: RenderAction)
    ensures
        final(store)@ == old(store)@.after_take(),
        match action {
            RenderAction::Present { frame } => old(store)@.snapshot() == Some(frame@),
            RenderAction::Sleep { millis } => old(store)@.snapshot() is None && millis
                == IDLE_INTERVAL_MS,
        },
{
    match store.take_if_dirty() {
        Some(frame) => RenderAction::Present { frame },
        None => RenderAction::Sleep { millis: IDLE_INTERVAL_MS },
    }
}

/// Number of pixels that a frame of `frame_len` pixels puts on a strip of
/// `hardware_len` pixels: the smaller of the two.
pub open spec fn copied_count(hardware_len: nat, frame_len: nat) -> nat {
    if hardware_len <= frame_len {
        hardware_len
    } else {
        frame_len
    }
}

/// The hardware buffer after a frame has been copied into it: the frame's
/// colours as far as the frame reaches, the previous colours beyond.
pub open spec fn painted(leds: Seq<Pixel>, pixels: Seq<Pixel>) -> Seq<Pixel> {
    Seq::new(
        leds.len(),
        |index: int|
            if index < pixels.len() {
                pixels[index]
            } else {
                leds[index]
            },
    )
}

/// Copies a frame into the hardware colour buffer and returns how many
/// pixels were copied.
///
/// Hardware pixels beyond the frame keep what was rendered before; frame
/// pixels beyond the hardware are dropped.
pub fn paint(leds: &mut [Pixel], frame: &PixelFrame) -> (copied: usize)
    ensures
        copied == copied_count(old(leds)@.len(), frame@.pixels.len()),
        final(leds)@ == painted(old(leds)@, frame@.pixels),
{
    let pixels = frame.pixels();
    let count: usize = if leds.len() <= pixels.len() {
        leds.len()
    } else {
        pixels.len()
    };
    let mut index: usize = 0;
    while index < count
        invariant
            index <= count,
            count == copied_count(old(leds)@.len(), pixels@.len()),
            leds@.len() == old(leds)@.len(),
            forall|i: int| 0 <= i < index ==> leds@[i] == pixels@[i],
            forall|i: int| index <= i < leds@.len() ==> leds@[i] == old(leds)@[i],
        decreases count - index,
    {
        leds[index] = pixels[index];
        index += 1;
    }
    assert(leds@ =~= painted(old(leds)@, pixels@));
    count
}

} // verus!
