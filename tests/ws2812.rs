use sprocket_tasks::ws2812::{flush, write_byte, write_frame, Rgb, RESET_BYTES};

#[test]
fn byte_becomes_four_bus_bytes() {
    let mut out = Vec::new();
    write_byte(&mut out, 0b1110_0100);
    assert_eq!(out, vec![0xcc, 0xc8, 0x8c, 0x88]);
    write_byte(&mut out, 0);
    assert_eq!(out[4..], [0x88, 0x88, 0x88, 0x88]);
}

#[test]
fn flush_appends_reset_zeros() {
    let mut out = vec![1u8];
    flush(&mut out);
    assert_eq!(out.len(), 1 + RESET_BYTES);
    assert_eq!(RESET_BYTES, 140);
    assert!(out[1..].iter().all(|b| *b == 0));
}

#[test]
fn frame_sends_green_red_blue() {
    let frame = write_frame(&vec![Rgb { r: 0xff, g: 0x00, b: 0x0f }]);
    assert_eq!(frame.len(), 1 + 12 + 140);
    assert_eq!(frame[0], 0);
    assert_eq!(frame[1..5], [0x88, 0x88, 0x88, 0x88]);
    assert_eq!(frame[5..9], [0xcc, 0xcc, 0xcc, 0xcc]);
    assert_eq!(frame[9..13], [0x88, 0x88, 0xcc, 0xcc]);
    assert!(frame[13..].iter().all(|b| *b == 0));
}

#[test]
fn empty_strip_frame() {
    let frame = write_frame(&Vec::new());
    assert_eq!(frame.len(), 141);
    assert!(frame.iter().all(|b| *b == 0));
}
