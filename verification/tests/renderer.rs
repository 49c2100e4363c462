use pixie_driver::decoder::decode_universe;
use pixie_driver::frame::PixelFrame;
use pixie_driver::renderer::{
    next_render_action, paint, strip_config, ColorOrder, RenderAction, IDLE_INTERVAL_MS,
};

fn frame_of(universes: u16, value: u8) -> PixelFrame {
    let mut frame = PixelFrame::new();
    for universe in 1..=universes {
        frame.merge(universe, &decode_universe(universe, &vec![value; 512]).unwrap());
    }
    frame
}

#[test]
fn paint_shorter_frame_leaves_the_rest_of_the_strip() {
    let frame = frame_of(1, 9);
    let mut leds = vec![[1u8, 2, 3, 4]; 510];
    assert_eq!(paint(&mut leds, &frame), 170);
    assert_eq!(leds.len(), 510);
    for index in 0..170 {
        assert_eq!(leds[index], [9, 9, 9, 0]);
    }
    for index in 170..510 {
        assert_eq!(leds[index], [1, 2, 3, 4]);
    }
}

#[test]
fn paint_longer_frame_drops_what_does_not_fit() {
    let frame = frame_of(3, 6);
    let mut leds = vec![[0u8; 4]; 100];
    assert_eq!(paint(&mut leds, &frame), 100);
    assert_eq!(leds.len(), 100);
    for pixel in &leds {
        assert_eq!(*pixel, [6, 6, 6, 0]);
    }
}

#[test]
fn paint_frame_of_strip_length_fills_the_strip() {
    let frame = frame_of(3, 2);
    let mut leds = vec![[8u8; 4]; 510];
    assert_eq!(paint(&mut leds, &frame), 510);
    for pixel in &leds {
        assert_eq!(*pixel, [2, 2, 2, 0]);
    }
}

#[test]
fn paint_empty_frame_copies_nothing() {
    let frame = PixelFrame::new();
    let mut leds = vec![[8u8; 4]; 510];
    assert_eq!(paint(&mut leds, &frame), 0);
    for pixel in &leds {
        assert_eq!(*pixel, [8, 8, 8, 8]);
    }
}

#[test]
fn paint_onto_empty_strip_copies_nothing() {
    let frame = frame_of(2, 1);
    let mut leds: Vec<[u8; 4]> = Vec::new();
    assert_eq!(paint(&mut leds, &frame), 0);
    assert!(leds.is_empty());
}

#[test]
fn paint_copies_the_smaller_of_both_lengths() {
    for (strip, universes, copied) in
        [(0usize, 0u16, 0usize), (1, 1, 1), (169, 1, 169), (170, 1, 170), (171, 1, 170), (340, 3, 340), (511, 3, 510)]
    {
        let frame = frame_of(universes, 3);
        let mut leds = vec![[0u8; 4]; strip];
        assert_eq!(paint(&mut leds, &frame), copied);
    }
}

#[test]
fn renderer_sleeps_while_the_frame_is_clean() {
    let mut store = PixelFrame::new();
    assert!(store.take_if_dirty().is_some());
    match next_render_action(&mut store) {
        RenderAction::Sleep { millis } => assert_eq!(millis, 20),
        RenderAction::Present { .. } => panic!("a clean frame is not presented"),
    }
    assert_eq!(IDLE_INTERVAL_MS, 20);
    assert!(!store.is_dirty());
}

#[test]
fn renderer_presents_a_dirty_frame_once() {
    let mut store = frame_of(1, 4);
    match next_render_action(&mut store) {
        RenderAction::Present { frame } => {
            assert_eq!(frame.len(), 170);
            assert_eq!(frame.brightness(), 4);
            assert_eq!(frame.pixels()[0], [4, 4, 4, 0]);
        }
        RenderAction::Sleep { .. } => panic!("a dirty frame is presented"),
    }
    assert!(!store.is_dirty());
    assert_eq!(store.len(), 170);
    assert!(matches!(next_render_action(&mut store), RenderAction::Sleep { millis: 20 }));
}

#[test]
fn renderer_presents_the_initial_frame() {
    let mut store = PixelFrame::new();
    assert!(matches!(next_render_action(&mut store), RenderAction::Present { .. }));
    assert!(matches!(next_render_action(&mut store), RenderAction::Sleep { .. }));
}

#[test]
fn strip_config_has_the_fixed_channel_settings() {
    let config = strip_config(ColorOrder::Bgr);
    assert_eq!(config.pin, 12);
    assert_eq!(config.frequency_hz, 800_000);
    assert_eq!(config.dma_channel, 10);
    assert_eq!(config.pixel_count, 510);
    assert_eq!(config.brightness, 255);
    assert_eq!(config.order, ColorOrder::Bgr);
    assert_eq!(strip_config(ColorOrder::Rgb).order, ColorOrder::Rgb);
    assert_eq!(strip_config(ColorOrder::Rgb).pixel_count, 510);
}
