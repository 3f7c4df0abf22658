use atari2600::cartridge::CartridgeType;
use atari2600::cartridge::get_new_cartridge;
use atari2600::clocks::Clock;
use atari2600::cpu::Core;
use atari2600::display::Colour;
use atari2600::inputs::Input;
use atari2600::inputs::Joystick;
use atari2600::memory::Memory;
use atari2600::pc_state::PcState;
use atari2600::ports::Ports;
use atari2600::riot::Riot;
use atari2600::stella::Colours;
use atari2600::stella::Stella;

fn rom_with(program: &[u8]) -> Vec<u8> {
    let mut rom = vec![0u8; 0x1000];
    for (i, b) in program.iter().enumerate() {
        rom[i] = *b;
    }
    rom[0xFFC] = 0x00;
    rom[0xFFD] = 0xF0;
    rom
}

fn build_core_with_palette(rom: Vec<u8>, colours: Colours) -> Core {
    let mut cart = get_new_cartridge("test", &CartridgeType::Default);
    let mut data = rom;
    cart.load_banks(&mut data);
    let stella = Stella::new(false, colours);
    let riot = Riot::new();
    let memory = Memory::new(cart, stella, riot);
    let mut core = Core::new(Clock::new(), memory, PcState::new(), Ports::new());
    core.reset();
    core
}

// LDA #$42; STA COLUBK; BRK: after two steps the TIA's background colour
// is the palette entry for colour byte 0x42.
#[test]
fn test_store_background_colour() {
    let mut colours = Colours::new();
    colours.set_colour(0x42 >> 1, Colour::new(9, 8, 7));
    let mut core = build_core_with_palette(
        rom_with(&[0xA9, 0x42, 0x8D, 0x09, 0x00, 0x00]),
        colours,
    );
    core.step();
    core.step();
    assert_eq!(
        core.memory.stella.next_line.background_colour,
        Colour::new(9, 8, 7)
    );
}

// STA WSYNC from an aligned start: afterwards the clock sits on a line
// boundary relative to the screen start.
#[test]
fn test_sta_wsync_alignment() {
    let mut core = build_core_with_palette(
        rom_with(&[0x8D, 0x02, 0x00]),
        Colours::new(),
    );
    assert_eq!(core.clock.ticks % 228, 0);
    core.step();
    assert_eq!(
        (core.clock.ticks - core.memory.stella.screen_start_clock) % 228,
        0
    );
}

// Timer round trip: writing d to TIM1T and reading k cycles later returns
// d - k before expiry, then a 0xFF-based down-count, with INTIM bit 7
// flipping at expiry.
#[test]
fn test_timer_round_trip() {
    let d: u64 = 10;
    let read_at = |k: u64| -> u8 {
        let mut riot = Riot::new();
        let clock0 = Clock::new();
        riot.write(&clock0, 0x294, d as u8);
        let mut clock = Clock::new();
        clock.increment((3 * k) as u32);
        riot.read(&clock, 0x284)
    };
    assert_eq!(read_at(4), (d - 4) as u8);
    assert_eq!(read_at(10), 0);
    assert_eq!(read_at(11), 0xFF);
    assert_eq!(read_at(13), 0xFD);
    let interrupt_at = |k: u64| -> u8 {
        let mut riot = Riot::new();
        let clock0 = Clock::new();
        riot.write(&clock0, 0x294, d as u8);
        let mut clock = Clock::new();
        clock.increment((3 * k) as u32);
        riot.read(&clock, 0x285)
    };
    assert_eq!(interrupt_at(10), 0);
    assert_eq!(interrupt_at(11), 0x80);
}

#[test]
fn test_riot_ram_and_inputs() {
    let mut riot = Riot::new();
    let clock = Clock::new();
    riot.write(&clock, 0x0080, 0xAB);
    assert_eq!(riot.read(&clock, 0x0080), 0xAB);
    let mut input = Input::new();
    input.swcha = 0x5A;
    riot.set_inputs(input);
    assert_eq!(riot.read(&clock, 0x0280), 0x5A);
}

#[test]
fn test_joystick_bits() {
    let mut joystick = Joystick::new();
    assert_eq!(joystick.input.swcha, 0xFF);
    joystick.j1_up(true);
    assert_eq!(joystick.input.swcha, 0xEF);
    joystick.j1_up(false);
    assert_eq!(joystick.input.swcha, 0xFF);
    joystick.j2_fire(true);
    assert_eq!(joystick.input.input5, 0x7F);
    joystick.reset(true);
    assert_eq!(joystick.input.swchb, 0x3D);
    joystick.p0_difficulty();
    assert_eq!(joystick.input.swchb, 0x7D);
}

// The latched fire-button byte reads back at offsets 0xB and 0xC; the
// other input offsets read 0.
#[test]
fn test_stella_input_reads() {
    let mut stella = Stella::new(false, Colours::new());
    let clock = Clock::new();
    let mut input = Input::new();
    input.input4 = 0x7F;
    stella.set_inputs(input);
    assert_eq!(stella.read(&clock, 0x0B), 0x7F);
    assert_eq!(stella.read(&clock, 0x0C), 0x7F);
    assert_eq!(stella.read(&clock, 0x0D), 0x00);
}

#[test]
fn test_core_export_and_display() {
    let mut core = build_core_with_palette(rom_with(&[0xEA]), Colours::new());
    assert!(!core.export());
    core.memory.stella.is_update_time = true;
    assert!(core.export());
    let mut buffer: Vec<u8> = Vec::new();
    core.generate_display(&mut buffer);
    assert_eq!(buffer.len(), 280 * 160 * 3);
}

// On-cart RAM: the low half of the window takes writes, the high half
// reads them back.
#[test]
fn test_cartridge_ram_window() {
    let mut cart = get_new_cartridge("t", &CartridgeType::F8SC);
    let mut data = vec![0u8; 0x2000];
    cart.load_banks(&mut data);
    cart.write(0x0010, 0x99);
    assert_eq!(cart.read(0x0090), 0x99);
}
