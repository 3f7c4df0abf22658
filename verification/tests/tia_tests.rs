use atari2600::clocks::Clock;
use atari2600::display::Colour;
use atari2600::palette::load_palette_text;
use atari2600::palette::parse_palette_line;
use atari2600::stella::CollisionState;
use atari2600::stella::Colours;
use atari2600::stella::MissileState;
use atari2600::stella::PlayfieldState;
use atari2600::stella::Stella;
use atari2600::stella::nusize;
use atari2600::tiasound::TiaSound;

fn fresh_stella() -> Stella {
    Stella::new(false, Colours::new())
}

#[test]
fn test_nusize_table() {
    assert_eq!(nusize(0), (1, 1, 0));
    assert_eq!(nusize(1), (2, 1, 2));
    assert_eq!(nusize(2), (2, 1, 4));
    assert_eq!(nusize(3), (3, 1, 2));
    assert_eq!(nusize(4), (2, 1, 8));
    assert_eq!(nusize(5), (1, 2, 0));
    assert_eq!(nusize(6), (3, 1, 4));
    assert_eq!(nusize(7), (1, 4, 0));
}

#[test]
fn test_playfield_scan_repeat_and_mirror() {
    let mut pf = PlayfieldState::new();
    // PF0 upper nibble bit 4 set: the leftmost four pixels.
    pf.update_pf0(0x10);
    assert!(pf.pf_lookup[0] && pf.pf_lookup[3]);
    assert!(!pf.pf_lookup[4]);
    // Repeat mode: the right half restarts at x = 80.
    assert!(pf.pf_lookup[80] && pf.pf_lookup[83]);
    // Mirror mode: the right half ends with the pattern start at x = 159.
    pf.update_ctrlpf(0x01);
    assert!(!pf.pf_lookup[80]);
    assert!(pf.pf_lookup[156] && pf.pf_lookup[159]);
}

#[test]
fn test_missile_scan_positions() {
    let mut m = MissileState::new();
    m.update_resm(100);
    m.update_enam(0x02);
    // One copy, one pixel wide, at beam column 100 - 68 = 32.
    assert!(m.scan_line[32]);
    assert!(!m.scan_line[33]);
    m.update_enam(0x00);
    assert!(!m.scan_line[32]);
}

#[test]
fn test_collision_latches_exact_bits() {
    let mut c = CollisionState::new();
    c.update_collisions(true, true, false, false, false, false);
    assert_eq!(c.get_cxppmm() & 0x80, 0x80);
    assert_eq!(c.get_cxppmm() & 0x40, 0x00);
    c.update_collisions(false, false, true, true, false, false);
    // The earlier pair stays latched: sticky until cleared.
    assert_eq!(c.get_cxppmm() & 0x80, 0x80);
    assert_eq!(c.get_cxppmm() & 0x40, 0x40);
    c.clear();
    assert_eq!(c.get_cxppmm(), 0);
    assert_eq!(c.get_cxmp_0(), 0);
    assert_eq!(c.get_cxpfb_0(), 0);
    assert_eq!(c.get_cxmfb_1(), 0);
    assert_eq!(c.get_cxblpf(), 0);
}

// After CXCLR every pair reads 0; a later colocation latches its pair
// again and it stays set.
#[test]
fn test_cxclr_then_colocation() {
    let mut stella = fresh_stella();
    let mut clock = Clock::new();
    stella.write(&mut clock, 0x2C, 0);
    let v = stella.read(&clock, 0x07);
    assert_eq!(v, 0);
    stella.collision_state.update_collisions(true, true, false, false, false, false);
    assert_eq!(stella.read(&clock, 0x07) & 0x80, 0x80);
    stella.collision_state.update_collisions(false, false, false, false, true, true);
    assert_eq!(stella.read(&clock, 0x07) & 0x80, 0x80);
    stella.write(&mut clock, 0x2C, 0);
    assert_eq!(stella.read(&clock, 0x07), 0);
}

// WSYNC alignment: from an aligned screen start, a write lands the clock
// back on a line boundary.
#[test]
fn test_wsync_aligns_clock() {
    let mut stella = fresh_stella();
    let mut clock = Clock::new();
    clock.increment(12);
    stella.write(&mut clock, 0x02, 0);
    assert_eq!((clock.ticks - stella.screen_start_clock) % 228, 0);
    assert_eq!(clock.ticks, 228);
    // Within the three-tick fudge nothing moves.
    let mut clock2 = Clock::new();
    clock2.increment(2);
    stella.write(&mut clock2, 0x02, 0);
    assert_eq!(clock2.ticks, 2);
}

// HMOVE: +7 in HMP0 moves player 0 seven pixels earlier, -7 in HMP1 moves
// player 1 seven later.
#[test]
fn test_hmove_shifts_positions() {
    let mut stella = fresh_stella();
    let mut clock = Clock::new();
    stella.p0_state.update_resp(100);
    stella.p1_state.update_resp(100);
    stella.write(&mut clock, 0x20, 0x70);
    stella.write(&mut clock, 0x21, 0x90);
    stella.write(&mut clock, 0x2A, 0);
    assert_eq!(stella.p0_state.resp, 93);
    assert_eq!(stella.p1_state.resp, 107);
    // HMCLR zeroes the nibbles: a further HMOVE moves nothing.
    stella.write(&mut clock, 0x2B, 0);
    stella.write(&mut clock, 0x2A, 0);
    assert_eq!(stella.p0_state.resp, 93);
    assert_eq!(stella.p1_state.resp, 107);
}

// Collision through the rasteriser: both players over pixel 80, beam swept
// past it, CXPPMM bit 7 reads set.
#[test]
fn test_player_collision_at_pixel_80() {
    let mut stella = fresh_stella();
    let mut clock = Clock::new();
    clock.increment(143);
    stella.write(&mut clock, 0x10, 0);
    stella.write(&mut clock, 0x11, 0);
    stella.write(&mut clock, 0x1B, 0xFF);
    stella.write(&mut clock, 0x1C, 0xFF);
    assert_eq!(stella.p0_state.pos_start, 80);
    assert_eq!(stella.p1_state.pos_start, 80);
    assert!(stella.p0_state.scan_line[80]);
    assert!(stella.p1_state.scan_line[80]);
    // Unblank and sweep the beam over the row, then trigger the catch-up.
    stella.write(&mut clock, 0x01, 0x00);
    clock.increment(300);
    stella.write(&mut clock, 0x09, 0x00);
    assert_eq!(stella.read(&clock, 0x07) & 0x80, 0x80);
}

// Catch-up rendering: pixels the beam crossed before a background-colour
// write keep the old colour; pixels after it take the new one.
#[test]
fn test_catch_up_preserves_pre_write_colours() {
    let mut colours = Colours::new();
    colours.set_colour(0x10, Colour::new(10, 20, 30));
    colours.set_colour(0x20, Colour::new(40, 50, 60));
    let mut stella = Stella::new(false, colours);
    let mut clock = Clock::new();
    // Background A (colour byte 0x20 -> entry 0x10), beam still at line
    // start; unblank.
    stella.write(&mut clock, 0x09, 0x20);
    stella.write(&mut clock, 0x01, 0x00);
    // Advance 50 visible pixels into the first line, then switch to B.
    clock.increment(68 + 50);
    stella.write(&mut clock, 0x09, 0x40);
    // Sweep past the end of the line and latch the row with another write.
    clock.increment(228);
    stella.write(&mut clock, 0x09, 0x40);
    let mut buffer: Vec<u8> = Vec::new();
    stella.generate_display(&mut buffer);
    // Pixel 30 of row 0 was drawn before the write: colour A.
    let p = 3 * 30;
    assert_eq!(buffer[p], 30);
    assert_eq!(buffer[p + 1], 20);
    assert_eq!(buffer[p + 2], 10);
    // Pixel 100 of row 0 was drawn after it: colour B.
    let q = 3 * 100;
    assert_eq!(buffer[q], 60);
    assert_eq!(buffer[q + 1], 50);
    assert_eq!(buffer[q + 2], 40);
}

// VSYNC off marks the frame ready and restarts beam accounting.
#[test]
fn test_vsync_frame_ready() {
    let mut stella = fresh_stella();
    let mut clock = Clock::new();
    stella.write(&mut clock, 0x00, 0x02);
    clock.increment(500);
    stella.write(&mut clock, 0x00, 0x00);
    assert!(stella.export());
    assert!(!stella.export());
    assert_eq!(stella.screen_start_clock, 500);
}

#[test]
fn test_poly_counters() {
    // Waveform 0 always feeds ones: from zero state poly4 becomes 0xF.
    assert_eq!(TiaSound::poly4(0, 0, 0), 0x0F);
    assert_eq!(TiaSound::poly5(0, 0, 0), 0x10);
    assert!(TiaSound::poly5clk(0, 0));
    // Waveform 4 with poly4 zero: bit 3 set by the inverted feedback.
    assert_eq!(TiaSound::poly4(4, 0, 0), 0x0F);
}

#[test]
fn test_channel_stream_volume() {
    let mut sound = TiaSound::new(true);
    sound.volume[0] = 0x0F;
    sound.wave_form[0] = 0;
    // Waveform 0 from a zero state drives poly4 odd after the first clock:
    // every sample carries volume * 7.
    let stream = sound.get_channel_data(0, 4);
    assert_eq!(stream.len(), 4);
    // The poly-4 counter alternates odd and even states under waveform 0.
    assert_eq!(stream[0], 105);
    assert_eq!(stream[1], 0);
    assert_eq!(stream[2], 105);
    assert_eq!(stream[3], 0);
}

#[test]
fn test_audio_chunk_queue() {
    let mut sound = TiaSound::new(true);
    sound.working_stream = vec![1, 2, 3, 4, 5, 6];
    let first = sound.get_next_audio_chunk(2);
    assert_eq!(first, vec![1, 2, 3, 4]);
    let rest = sound.get_next_audio_chunk(10);
    assert_eq!(rest, vec![5, 6]);
    assert!(sound.get_next_audio_chunk(10).is_empty());
}

#[test]
fn test_colour_conversions() {
    let c = Colour::new(0x12, 0x34, 0x56);
    assert_eq!(c.convert_rgb24(), [0x12, 0x34, 0x56]);
    assert_eq!(c.convert_rgb888(), [0x56, 0x34, 0x12]);
    assert_eq!(c.convert_rgb444(), [(0x34 & 0xF0) | (0x56 >> 4), 0x12 >> 4]);
}

#[test]
fn test_parse_palette_line_forms() {
    assert_eq!(parse_palette_line(b"1 2 3"), Some((1, 2, 3)));
    assert_eq!(parse_palette_line(b"255 0 128  "), Some((255, 0, 128)));
    assert_eq!(parse_palette_line(b"10 20 30 # a comment"), Some((10, 20, 30)));
    assert_eq!(parse_palette_line(b"1 2"), None);
    assert_eq!(parse_palette_line(b"1  2 3"), None);
    assert_eq!(parse_palette_line(b"256 0 0"), None);
    assert_eq!(parse_palette_line(b"1 x 3"), None);
    assert_eq!(parse_palette_line(b""), None);
}

#[test]
fn test_load_palette_text() {
    let mut colours = Colours::new();
    let ok = load_palette_text(&mut colours, b"1 2 3\n4 5 6 # second\n");
    assert!(ok);
    assert_eq!(colours.get_colour(0), Colour::new(1, 2, 3));
    assert_eq!(colours.get_colour(2), Colour::new(4, 5, 6));
    let bad = load_palette_text(&mut colours, b"1 2 3\nnope\n");
    assert!(!bad);
}
