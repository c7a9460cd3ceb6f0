use ws1in5::Error;
use ws1in5::FontMetrics;
use ws1in5::GrayRaster;
use ws1in5::Glyph;
use ws1in5::TransportOp;
use ws1in5::WS1in5;

const STEP: u64 = 100;

fn raster(width: usize, height: usize, pixels: Vec<u8>) -> GrayRaster {
    assert_eq!(pixels.len(), width * height);
    GrayRaster { width, height, pixels }
}

fn commands_in(ops: &[TransportOp]) -> Vec<u8> {
    ops.iter()
        .filter_map(|op| match op {
            TransportOp::Command(c) => Some(*c),
            _ => None,
        })
        .collect()
}

fn data_in(ops: &[TransportOp]) -> Vec<u8> {
    ops.iter()
        .filter_map(|op| match op {
            TransportOp::Data(d) => Some(*d),
            _ => None,
        })
        .collect()
}

#[test]
fn new_records_reset_and_init_transcript() {
    let mut s = WS1in5::new();
    assert!(s.has_cleared());
    let ops = s.take_ops();

    // Construction parks the reset line low, then pulses it high-low-high
    // with settle delays.
    assert_eq!(ops[0], TransportOp::Reset(false));
    assert_eq!(ops[1], TransportOp::Reset(true));
    assert_eq!(ops[2], TransportOp::DelayMs(STEP));
    assert_eq!(ops[3], TransportOp::Reset(false));
    assert_eq!(ops[4], TransportOp::DelayMs(STEP));
    assert_eq!(ops[5], TransportOp::Reset(true));
    assert_eq!(ops[6], TransportOp::DelayMs(STEP));

    // Display-off opens the register configuration.
    assert_eq!(ops[7], TransportOp::Command(0xae));

    // A settle delay, then display-on, closes it.
    assert_eq!(ops[ops.len() - 2], TransportOp::DelayMs(STEP));
    assert_eq!(ops[ops.len() - 1], TransportOp::Command(0xaf));

    // 1 park + 6 pulse steps + 34 configuration bytes + delay + display-on.
    assert_eq!(ops.len(), 43);

    let cmds = commands_in(&ops);
    assert_eq!(
        cmds,
        vec![
            0xae, 0x15, 0x00, 0x7f, 0x75, 0x00, 0x7f, 0x81, 0x80, 0xa0, 0x51, 0xa1, 0x00, 0xa2,
            0x00, 0xa4, 0xa8, 0x7f, 0xb1, 0xf1, 0xb3, 0x00, 0xab, 0x01, 0xb6, 0x0f, 0xbe, 0x0f,
            0xbc, 0x08, 0xd5, 0x62, 0xfd, 0x12, 0xaf,
        ]
    );

    // The queue was drained.
    assert!(s.take_ops().is_empty());
}

#[test]
fn reset_records_pulse_and_sets_cleared() {
    let mut s = WS1in5::new();
    s.take_ops();
    let zeros = vec![0u8; 4];
    s.show_image(zeros, 0, 0, 4, 2).unwrap();
    assert!(!s.has_cleared());
    s.take_ops();

    s.reset();
    assert!(s.has_cleared());
    let ops = s.take_ops();
    assert_eq!(
        ops,
        vec![
            TransportOp::Reset(true),
            TransportOp::DelayMs(STEP),
            TransportOp::Reset(false),
            TransportOp::DelayMs(STEP),
            TransportOp::Reset(true),
            TransportOp::DelayMs(STEP),
        ]
    );
}

#[test]
fn set_windows_in_range_records_addressing() {
    let mut s = WS1in5::new();
    s.take_ops();
    s.set_windows(2, 3, 10, 20).unwrap();
    let ops = s.take_ops();
    assert_eq!(
        ops,
        vec![
            TransportOp::Command(0x15),
            TransportOp::Command(1),
            TransportOp::Command(4),
            TransportOp::Command(0x75),
            TransportOp::Command(3),
            TransportOp::Command(19),
        ]
    );
}

#[test]
fn set_windows_out_of_bounds_is_silent_noop() {
    let mut s = WS1in5::new();
    s.take_ops();
    assert!(s.set_windows(0, 0, 130, 128).is_ok());
    assert!(s.take_ops().is_empty());
    assert!(s.set_windows(129, 0, 2, 1).is_ok());
    assert!(s.take_ops().is_empty());
    assert!(s.set_windows(0, 129, 2, 1).is_ok());
    assert!(s.take_ops().is_empty());
    assert!(s.set_windows(0, 0, 2, 200).is_ok());
    assert!(s.take_ops().is_empty());
}

#[test]
fn get_buffer_packs_nibbles_by_column_parity() {
    let s = WS1in5::new();
    // A 4x2 raster: the byte for pixels (0,0) and (1,0) must carry their
    // 4-bit values in high and low nibble; values above 15 are truncated.
    let pixels = vec![
        (0usize, 0usize, 0x12u8),
        (1, 0, 0x34),
        (2, 0, 5),
        (3, 0, 6),
        (0, 1, 7),
        (1, 1, 8),
        (2, 1, 9),
        (3, 1, 15),
    ];
    let buf = s.get_buffer(&pixels, 4, 2).unwrap();
    assert_eq!(buf.len(), (4 / 2) * 2);
    assert_eq!(buf[0], 0x24); // 0x12 % 16 = 2 high, 0x34 % 16 = 4 low
    assert_eq!(buf[1], 0x56);
    assert_eq!(buf[2], 0x78);
    assert_eq!(buf[3], 0x9f);
}

#[test]
fn get_buffer_leaves_unwritten_bytes_at_full_intensity() {
    let s = WS1in5::new();
    // Triples arrive in arbitrary order; every nibble still lands in the
    // byte `x/2 + y*(width/2)`.
    let pixels = vec![
        (3usize, 1usize, 1u8),
        (2, 1, 2),
        (1, 0, 3),
        (0, 0, 4),
        (3, 0, 5),
        (2, 0, 6),
        (0, 1, 7),
        (1, 1, 8),
    ];
    let buf = s.get_buffer(&pixels, 4, 2).unwrap();
    assert_eq!(buf, vec![0x43, 0x65, 0x78, 0x21]);
}

#[test]
fn get_buffer_rejects_wrong_pixel_count() {
    let s = WS1in5::new();
    let pixels = vec![(0usize, 0usize, 1u8), (1, 0, 2)];
    let r = s.get_buffer(&pixels, 4, 2);
    assert!(matches!(r, Err(Error::OutOfBounds)));
    let r = s.get_buffer(&Vec::new(), 4, 2);
    assert!(matches!(r, Err(Error::OutOfBounds)));
}

#[test]
fn size_to_pow_2_rounds_each_dimension_up_to_even() {
    assert_eq!(WS1in5::size_to_pow_2((3, 4)), (4, 4));
    assert_eq!(WS1in5::size_to_pow_2((4, 5)), (4, 6));
    assert_eq!(WS1in5::size_to_pow_2((4, 4)), (4, 4));
    assert_eq!(WS1in5::size_to_pow_2((0, 0)), (0, 0));
    assert_eq!(WS1in5::size_to_pow_2((1, 1)), (2, 2));
    assert_eq!(WS1in5::size_to_pow_2((-3, -4)), (-2, -4));
}

#[test]
fn get_text_size_uses_monospaced_cells() {
    let s = WS1in5::new();
    let metrics = FontMetrics { glyph_width: 7, line_height: 9 };
    assert_eq!(s.get_text_size_full("abc", &metrics), (24, 10, 8));
    assert_eq!(s.get_text_size("abc", &metrics), (24, 10));
    assert_eq!(s.get_text_size("", &metrics), (0, 10));
    // Newlines are ordinary characters for measurement.
    assert_eq!(s.get_text_size("a\nb", &metrics), (24, 10));
}

#[test]
fn create_text_turns_canvas_to_panel_orientation() {
    let s = WS1in5::new();
    let canvas = raster(2, 2, vec![1, 2, 3, 4]);
    let (image, w, h) = s.create_text(&canvas);
    assert_eq!((w, h), (2, 2));
    assert_eq!(image.width, 2);
    assert_eq!(image.height, 2);
    assert_eq!(image.pixels, vec![4, 3, 2, 1]);
}

#[test]
fn rotate_180_reverses_row_major_bytes() {
    let r = raster(4, 1, vec![10, 11, 12, 13]).rotate_180();
    assert_eq!(r.pixels, vec![13, 12, 11, 10]);
}

#[test]
fn pixel_triples_enumerates_row_major() {
    let r = raster(2, 2, vec![9, 8, 7, 6]);
    let triples = r.pixel_triples();
    assert_eq!(triples, vec![(0, 0, 9), (1, 0, 8), (0, 1, 7), (1, 1, 6)]);
}

#[test]
fn show_image_streams_buffer_row_major() {
    let mut s = WS1in5::new();
    s.take_ops();
    let buffer = vec![1u8, 2, 3, 4];
    s.show_image(buffer, 2, 4, 4, 2).unwrap();
    assert!(!s.has_cleared());
    let ops = s.take_ops();
    assert_eq!(commands_in(&ops), vec![0x15, 1, 2, 0x75, 4, 5]);
    assert_eq!(data_in(&ops), vec![1, 2, 3, 4]);
    // Addressing comes first, data afterwards.
    assert_eq!(ops[0], TransportOp::Command(0x15));
    assert_eq!(ops[6], TransportOp::Data(1));
}

#[test]
fn show_image_with_short_buffer_fails_and_keeps_cleared_flag() {
    let mut s = WS1in5::new();
    s.take_ops();
    assert!(s.has_cleared());
    let buffer = vec![1u8, 2, 3];
    let r = s.show_image(buffer, 0, 0, 4, 2);
    assert!(matches!(r, Err(Error::OutOfBounds)));
    // The failure happens after addressing but the panel still counts as
    // cleared: the flag only flips on successful streaming.
    assert!(s.has_cleared());
    let ops = s.take_ops();
    assert_eq!(data_in(&ops), Vec::<u8>::new());
}

#[test]
fn show_image_still_streams_when_window_was_out_of_range() {
    let mut s = WS1in5::new();
    s.take_ops();
    let buffer = vec![5u8, 6];
    // y + height exceeds the panel: addressing is skipped, data still flows.
    s.show_image(buffer, 0, 128, 4, 1).unwrap();
    assert!(!s.has_cleared());
    let ops = s.take_ops();
    assert_eq!(commands_in(&ops), Vec::<u8>::new());
    assert_eq!(data_in(&ops), vec![5, 6]);
}

#[test]
fn clear_writes_zeros_and_sets_cleared() {
    let mut s = WS1in5::new();
    s.take_ops();
    let buffer = vec![9u8, 9, 9, 9];
    s.show_image(buffer, 0, 0, 4, 2).unwrap();
    assert!(!s.has_cleared());
    s.take_ops();

    s.clear(0, 0, 4, 2).unwrap();
    assert!(s.has_cleared());
    let ops = s.take_ops();
    assert_eq!(commands_in(&ops), vec![0x15, 0, 1, 0x75, 0, 1]);
    assert_eq!(data_in(&ops), vec![0, 0, 0, 0]);
}

#[test]
fn clear_all_covers_the_whole_panel() {
    let mut s = WS1in5::new();
    s.take_ops();
    s.clear_all().unwrap();
    assert!(s.has_cleared());
    let ops = s.take_ops();
    assert_eq!(commands_in(&ops), vec![0x15, 0, 63, 0x75, 0, 127]);
    assert_eq!(data_in(&ops).len(), (128 / 2) * 128);
    assert!(data_in(&ops).iter().all(|b| *b == 0));
}

#[test]
fn draw_text_places_content_at_given_origin() {
    let mut s = WS1in5::new();
    s.take_ops();
    let content = raster(4, 2, vec![1, 2, 3, 4, 5, 6, 7, 8]);
    let cursor = s.draw_text(0, 0, &content, false).unwrap();
    assert_eq!(cursor, (4, 2));
    assert!(!s.has_cleared());
    let ops = s.take_ops();
    assert_eq!(commands_in(&ops), vec![0x15, 0, 1, 0x75, 0, 1]);
    assert_eq!(data_in(&ops), vec![0x12, 0x34, 0x56, 0x78]);
}

#[test]
fn draw_text_flipped_mirrors_placement_about_both_axes() {
    let mut s = WS1in5::new();
    s.take_ops();
    let content = raster(4, 2, vec![0; 8]);
    let cursor = s.draw_text(0, 0, &content, true).unwrap();
    assert_eq!(cursor, (4, 2));
    let ops = s.take_ops();
    // Placed at (128 - 4 - 0, 128 - 2 - 0) = (124, 126).
    assert_eq!(commands_in(&ops), vec![0x15, 62, 63, 0x75, 126, 127]);
}

#[test]
fn draw_centered_text_offsets_from_panel_center() {
    let mut s = WS1in5::new();
    s.take_ops();
    let content = raster(4, 2, vec![0; 8]);
    let cursor = s.draw_centered_text(0, 0, &content, false).unwrap();
    assert_eq!(cursor, (4, 2));
    let ops = s.take_ops();
    // Placed at (64 - 2 - 0, 64 - 1 - 0) = (62, 63).
    assert_eq!(commands_in(&ops), vec![0x15, 31, 32, 0x75, 63, 64]);
}

#[test]
fn draw_paragraph_at_advances_one_cell_per_glyph() {
    let mut s = WS1in5::new();
    s.take_ops();
    let glyphs = vec![
        Glyph { raster: raster(10, 10, vec![1; 100]), whitespace: false },
        Glyph { raster: raster(10, 10, vec![2; 100]), whitespace: false },
    ];
    let cursor = s.draw_paragraph_at(0, 0, &glyphs, false).unwrap();
    // (0,0) -> after the first cell (10,0) -> after the second (20,0); no
    // wrap, since 10 + 10 fits the panel width.
    assert_eq!(cursor, (20, 0));
    assert!(!s.has_cleared());
}

#[test]
fn draw_paragraph_skips_whitespace_but_advances() {
    let mut s = WS1in5::new();
    s.take_ops();
    let glyphs = vec![
        Glyph { raster: raster(10, 10, vec![1; 100]), whitespace: true },
        Glyph { raster: raster(10, 10, vec![2; 100]), whitespace: false },
    ];
    let cursor = s.draw_paragraph(&glyphs, false).unwrap();
    assert_eq!(cursor, (20, 0));
    let ops = s.take_ops();
    // Only the second glyph was streamed: one window, one cell of data.
    assert_eq!(commands_in(&ops), vec![0x15, 5, 9, 0x75, 0, 9]);
    assert_eq!(data_in(&ops).len(), (10 / 2) * 10);
}

#[test]
fn draw_paragraph_wraps_one_cell_ahead() {
    let mut s = WS1in5::new();
    s.take_ops();
    let glyphs = vec![
        Glyph { raster: raster(64, 10, vec![0; 640]), whitespace: false },
        Glyph { raster: raster(64, 10, vec![0; 640]), whitespace: false },
    ];
    let cursor = s.draw_paragraph_at(0, 0, &glyphs, false).unwrap();
    // After the first cell the cursor sits at 64; 64 + 64 is not beyond the
    // panel, so no wrap.  After the second it sits at 128, and another cell
    // of the same width would overrun, so the cursor wraps.
    assert_eq!(cursor, (0, 10));
}

#[test]
fn whitespace_only_paragraph_keeps_cleared_flag() {
    let mut s = WS1in5::new();
    s.take_ops();
    assert!(s.has_cleared());
    let glyphs = vec![Glyph { raster: raster(10, 10, vec![0; 100]), whitespace: true }];
    s.draw_paragraph(&glyphs, false).unwrap();
    assert!(s.has_cleared());
    assert!(s.take_ops().is_empty());
}

#[test]
fn cleared_flag_tracks_writes_and_clears() {
    let mut s = WS1in5::new();
    assert!(s.has_cleared());

    let content = raster(4, 2, vec![0; 8]);
    s.draw_text(0, 0, &content, false).unwrap();
    assert!(!s.has_cleared());

    s.clear(0, 0, 4, 2).unwrap();
    assert!(s.has_cleared());

    s.draw_centered_text(0, 0, &content, false).unwrap();
    assert!(!s.has_cleared());

    s.clear_all().unwrap();
    assert!(s.has_cleared());

    let buffer = vec![0u8; 4];
    s.show_image(buffer, 0, 0, 4, 2).unwrap();
    assert!(!s.has_cleared());

    s.reset();
    assert!(s.has_cleared());
}

#[test]
fn draw_centered_text_flipped_mirrors_the_centered_position() {
    let mut s = WS1in5::new();
    s.take_ops();
    let content = raster(4, 2, vec![0; 8]);
    let cursor = s.draw_centered_text(1, 0, &content, true).unwrap();
    assert_eq!(cursor, (5, 2));
    let ops = s.take_ops();
    // Base position (64 - 2 - 1, 64 - 1 - 0) = (61, 63), mirrored to
    // (128 - 4 - 61, 128 - 2 - 63) = (63, 63).
    assert_eq!(commands_in(&ops), vec![0x15, 31, 32, 0x75, 63, 64]);
}

#[test]
fn draw_paragraph_flipped_mirrors_each_cell() {
    let mut s = WS1in5::new();
    s.take_ops();
    let glyphs = vec![Glyph { raster: raster(10, 10, vec![3; 100]), whitespace: false }];
    let cursor = s.draw_paragraph(&glyphs, true).unwrap();
    assert_eq!(cursor, (10, 0));
    let ops = s.take_ops();
    // The cell lands at (128 - 10, 128 - 10) = (118, 118).
    assert_eq!(commands_in(&ops), vec![0x15, 59, 63, 0x75, 118, 127]);
}

#[test]
fn draw_paragraph_at_starts_from_the_given_cursor() {
    let mut s = WS1in5::new();
    s.take_ops();
    let glyphs = vec![Glyph { raster: raster(10, 10, vec![1; 100]), whitespace: false }];
    let cursor = s.draw_paragraph_at(30, 40, &glyphs, false).unwrap();
    assert_eq!(cursor, (40, 40));
    let ops = s.take_ops();
    assert_eq!(commands_in(&ops), vec![0x15, 15, 19, 0x75, 40, 49]);
}

#[test]
fn take_ops_drains_the_queue_and_keeps_the_flag() {
    let mut s = WS1in5::new();
    assert!(s.has_cleared());
    let first = s.take_ops();
    assert!(!first.is_empty());
    assert!(s.take_ops().is_empty());
    assert!(s.has_cleared());
}
