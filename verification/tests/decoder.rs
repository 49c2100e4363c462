use pixie_driver::decoder::{decode_universe, UniverseSegment};

fn ramp(len: usize) -> Vec<u8> {
    (0..len).map(|i| (i % 251) as u8).collect()
}

#[test]
fn decode_ignores_unmapped_universe() {
    assert!(decode_universe(0, &[1, 2, 3]).is_none());
    assert!(decode_universe(4, &[1, 2, 3]).is_none());
    assert!(decode_universe(u16::MAX, &ramp(512)).is_none());
}

#[test]
fn decode_full_primary_payload() {
    let mut payload = vec![0u8; 512];
    payload[0] = 255;
    payload[511] = 128;
    let segment = decode_universe(1, &payload).unwrap();
    assert_eq!(segment.pixels().len(), 170);
    assert_eq!(segment.pixels()[0], [255, 0, 0, 0]);
    assert_eq!(segment.brightness(), Some(128));
}

#[test]
fn decode_maps_each_triplet_to_one_pixel() {
    let payload = ramp(512);
    let segment = decode_universe(1, &payload).unwrap();
    assert_eq!(segment.pixels().len(), 170);
    for slot in 0..170 {
        let start = slot * 3;
        assert_eq!(
            segment.pixels()[slot],
            [payload[start], payload[start + 1], payload[start + 2], 0]
        );
    }
    assert_eq!(segment.brightness(), Some(payload[511]));
}

#[test]
fn decode_stops_at_the_last_complete_triplet() {
    let payload = ramp(300);
    let segment = decode_universe(2, &payload).unwrap();
    assert_eq!(segment.pixels().len(), 100);
    assert_eq!(segment.pixels()[99], [payload[297], payload[298], payload[299], 0]);
    assert_eq!(segment.brightness(), None);
}

#[test]
fn decode_counts_complete_triplets_only() {
    let expected = [
        (0usize, 0usize),
        (1, 0),
        (2, 0),
        (3, 1),
        (4, 1),
        (5, 1),
        (6, 2),
        (299, 99),
        (300, 100),
        (301, 100),
        (509, 169),
        (510, 170),
        (511, 170),
        (512, 170),
        (513, 170),
        (1006, 170),
    ];
    for (len, pixels) in expected {
        let segment = decode_universe(3, &ramp(len)).unwrap();
        assert_eq!(segment.pixels().len(), pixels, "payload of {} bytes", len);
    }
}

#[test]
fn decode_empty_payload_yields_empty_segment() {
    let segment = decode_universe(1, &[]).unwrap();
    assert!(segment.pixels().is_empty());
    assert_eq!(segment.brightness(), None);
}

#[test]
fn decode_fourth_channel_is_always_dark() {
    let payload = vec![255u8; 512];
    let segment = decode_universe(2, &payload).unwrap();
    for pixel in segment.pixels() {
        assert_eq!(*pixel, [255, 255, 255, 0]);
    }
}

#[test]
fn brightness_needs_the_primary_universe() {
    let payload = ramp(512);
    assert_eq!(decode_universe(1, &payload).unwrap().brightness(), Some(payload[511]));
    assert_eq!(decode_universe(2, &payload).unwrap().brightness(), None);
    assert_eq!(decode_universe(3, &payload).unwrap().brightness(), None);
}

#[test]
fn brightness_needs_the_full_length() {
    for len in [0usize, 1, 3, 510, 511, 513, 1006] {
        assert_eq!(
            decode_universe(1, &ramp(len)).unwrap().brightness(),
            None,
            "payload of {} bytes",
            len
        );
    }
    assert!(decode_universe(1, &ramp(512)).unwrap().brightness().is_some());
}

#[test]
fn brightness_byte_is_not_a_colour() {
    let mut payload = vec![0u8; 512];
    payload[510] = 7;
    payload[511] = 9;
    let segment = decode_universe(1, &payload).unwrap();
    assert_eq!(segment.pixels()[169], [0, 0, 0, 0]);
    assert_eq!(segment.brightness(), Some(9));
}

#[test]
fn segment_accepts_up_to_a_universe_of_pixels() {
    let segment = UniverseSegment::new(vec![[1, 2, 3, 0]; 170], Some(5)).unwrap();
    assert_eq!(segment.pixels().len(), 170);
    assert_eq!(segment.pixels()[169], [1, 2, 3, 0]);
    assert_eq!(segment.brightness(), Some(5));
    let empty = UniverseSegment::new(Vec::new(), None).unwrap();
    assert!(empty.pixels().is_empty());
    assert_eq!(empty.brightness(), None);
}

#[test]
fn segment_refuses_more_than_a_universe_of_pixels() {
    assert!(UniverseSegment::new(vec![[0, 0, 0, 0]; 171], None).is_none());
    assert!(UniverseSegment::new(vec![[0, 0, 0, 0]; 1000], Some(1)).is_none());
}
