use atari2600::cartridge::CartridgeType;
use atari2600::cartridge::GenericCartridge;
use atari2600::cartridge::get_new_cartridge;
use atari2600::clocks::Clock;
use atari2600::cpu::Core;
use atari2600::memory::Memory;
use atari2600::pc_state::PcState;
use atari2600::ports::Ports;
use atari2600::riot::Riot;
use atari2600::stella::Colours;
use atari2600::stella::Stella;

fn build_core(rom: Vec<u8>, cartridge_type: CartridgeType) -> Core {
    let mut cart = get_new_cartridge("test", &cartridge_type);
    let mut data = rom;
    cart.load_banks(&mut data);
    let colours = Colours::new();
    let stella = Stella::new(false, colours);
    let riot = Riot::new();
    let memory = Memory::new(cart, stella, riot);
    let mut core = Core::new(Clock::new(), memory, PcState::new(), Ports::new());
    core.reset();
    core
}

fn rom_with(program: &[u8]) -> Vec<u8> {
    let mut rom = vec![0u8; 0x1000];
    for (i, b) in program.iter().enumerate() {
        rom[i] = *b;
    }
    // Reset vector: 0xF000.
    rom[0xFFC] = 0x00;
    rom[0xFFD] = 0xF0;
    rom
}

#[test]
fn test_display_pc_state() {
    let mut pc_state = PcState::new();
    assert_eq!(
        pc_state.display_string(),
        "PC:0 X:0 Y:0 A:0 (C:0 Z:0 I:0 D:0 B:0 X1:0 V:0 N:0)"
    );

    pc_state.set_flag_x1(true);

    // Use the formatted state to check the output.
    assert_eq!(
        pc_state.display_string(),
        "PC:0 X:0 Y:0 A:0 (C:0 Z:0 I:0 D:0 B:0 X1:1 V:0 N:0)"
    );
}

#[test]
fn test_pc_state_hex_display() {
    let mut pc_state = PcState::new();
    pc_state.set_pc(0xF0A2);
    pc_state.set_x(0x1B);
    assert_eq!(
        pc_state.display_string(),
        "PC:F0A2 X:1B Y:0 A:0 (C:0 Z:0 I:0 D:0 B:0 X1:0 V:0 N:0)"
    );
}

#[test]
fn test_flags_pack_round_trip() {
    let mut pc_state = PcState::new();
    pc_state.set_p(0xA5);
    assert_eq!(pc_state.get_p(), 0xA5);
    assert!(pc_state.get_flag_c());
    assert!(!pc_state.get_flag_z());
    assert!(pc_state.get_flag_i());
    assert!(!pc_state.get_flag_d());
    assert!(!pc_state.get_flag_b());
    assert!(pc_state.get_flag_x1());
    assert!(!pc_state.get_flag_v());
    assert!(pc_state.get_flag_n());
}

#[test]
fn test_increment_reg8_wraps() {
    let mut r: u8 = 0x01;
    PcState::increment_reg8(&mut r, -2);
    assert_eq!(r, 0xFF);
    PcState::increment_reg8(&mut r, 1);
    assert_eq!(r, 0x00);
}

// An immediate load takes two CPU cycles, six colour clocks.
#[test]
fn test_lda_immediate_cycle_count() {
    let mut core = build_core(rom_with(&[0xA9, 0x42]), CartridgeType::Default);
    let before = core.clock.ticks;
    core.step();
    assert_eq!(core.clock.ticks - before, 6);
    assert_eq!(core.pc_state.get_a(), 0x42);
    assert_eq!(core.pc_state.get_pc(), 0xF002);
}

// An absolute load takes four CPU cycles; with a page cross on abs,X one
// more.
#[test]
fn test_absolute_and_page_cross_cycles() {
    // LDA $F100 ; LDX #$01 ; LDA $F0FF,X (crosses into 0xF100)
    let mut core = build_core(
        rom_with(&[0xAD, 0x00, 0xF1, 0xA2, 0x01, 0xBD, 0xFF, 0xF0]),
        CartridgeType::Default,
    );
    let t0 = core.clock.ticks;
    core.step();
    assert_eq!(core.clock.ticks - t0, 12);
    let t1 = core.clock.ticks;
    core.step();
    assert_eq!(core.clock.ticks - t1, 6);
    let t2 = core.clock.ticks;
    core.step();
    // 4 cycles plus the page-cross penalty.
    assert_eq!(core.clock.ticks - t2, 15);
}

// LDX #0; INX; DEX; JMP back: X oscillates and each loop costs
// (2 + 2 + 3) CPU cycles.
#[test]
fn test_inx_dex_loop_cycles() {
    let mut core = build_core(
        rom_with(&[0xA2, 0x00, 0xE8, 0xCA, 0x4C, 0x02, 0xF0]),
        CartridgeType::Default,
    );
    core.step();
    assert_eq!(core.pc_state.get_x(), 0);
    let t0 = core.clock.ticks;
    let n = 5;
    for _ in 0..n {
        core.step();
        assert_eq!(core.pc_state.get_x(), 1);
        core.step();
        assert_eq!(core.pc_state.get_x(), 0);
        core.step();
        assert_eq!(core.pc_state.get_pc(), 0xF002);
    }
    assert_eq!(core.clock.ticks - t0, n * 3 * (2 + 2 + 3));
}

#[test]
fn test_adc_flags() {
    // LDA #$7F; ADC #$01 -> 0x80, with V and N set, no carry.
    let mut core = build_core(rom_with(&[0xA9, 0x7F, 0x69, 0x01]), CartridgeType::Default);
    core.step();
    core.step();
    assert_eq!(core.pc_state.get_a(), 0x80);
    assert!(core.pc_state.get_flag_v());
    assert!(core.pc_state.get_flag_n());
    assert!(!core.pc_state.get_flag_c());
    assert!(!core.pc_state.get_flag_z());
}

#[test]
fn test_adc_decimal_mode() {
    // SED; LDA #$15; ADC #$27 -> BCD 42.
    let mut core = build_core(rom_with(&[0xF8, 0xA9, 0x15, 0x69, 0x27]), CartridgeType::Default);
    core.step();
    core.step();
    core.step();
    assert_eq!(core.pc_state.get_a(), 0x42);
    assert!(!core.pc_state.get_flag_c());
}

#[test]
fn test_sbc_borrow_and_carry() {
    // SEC; LDA #$10; SBC #$01 -> 0x0F with carry still set.
    let mut core = build_core(rom_with(&[0x38, 0xA9, 0x10, 0xE9, 0x01]), CartridgeType::Default);
    core.step();
    core.step();
    core.step();
    assert_eq!(core.pc_state.get_a(), 0x0F);
    assert!(core.pc_state.get_flag_c());
}

#[test]
fn test_compare_sets_carry_and_zero() {
    // LDA #$20; CMP #$20 -> Z and C set.
    let mut core = build_core(rom_with(&[0xA9, 0x20, 0xC9, 0x20]), CartridgeType::Default);
    core.step();
    core.step();
    assert!(core.pc_state.get_flag_z());
    assert!(core.pc_state.get_flag_c());
    assert!(!core.pc_state.get_flag_n());
}

#[test]
fn test_shifts_and_rotates() {
    // LDA #$81; LSR A -> 0x40, C=1; ROL A -> 0x81 again (C rotates in).
    let mut core = build_core(rom_with(&[0xA9, 0x81, 0x4A, 0x2A]), CartridgeType::Default);
    core.step();
    core.step();
    assert_eq!(core.pc_state.get_a(), 0x40);
    assert!(core.pc_state.get_flag_c());
    core.step();
    assert_eq!(core.pc_state.get_a(), 0x81);
    assert!(!core.pc_state.get_flag_c());
}

#[test]
fn test_branch_cycles_taken_and_not() {
    // LDX #$01 ; BNE +2 (taken) ; NOP ; NOP ; BEQ anywhere (not taken)
    let mut core = build_core(
        rom_with(&[0xA2, 0x01, 0xD0, 0x02, 0xEA, 0xEA, 0xF0, 0x10]),
        CartridgeType::Default,
    );
    core.step();
    let t0 = core.clock.ticks;
    core.step();
    // Taken branch without page cross: three CPU cycles.
    assert_eq!(core.clock.ticks - t0, 9);
    assert_eq!(core.pc_state.get_pc(), 0xF006);
    let t1 = core.clock.ticks;
    core.step();
    // Not taken: two CPU cycles.
    assert_eq!(core.clock.ticks - t1, 6);
    assert_eq!(core.pc_state.get_pc(), 0xF008);
}

#[test]
fn test_jsr_rts_round_trip() {
    // JSR $F010 ... at $F010: RTS. Six cycles each.
    let mut program = vec![0x20, 0x10, 0xF0];
    program.resize(0x10, 0xEA);
    program.push(0x60);
    let mut core = build_core(rom_with(&program), CartridgeType::Default);
    let s0 = core.pc_state.get_s();
    let t0 = core.clock.ticks;
    core.step();
    assert_eq!(core.clock.ticks - t0, 18);
    assert_eq!(core.pc_state.get_pc(), 0xF010);
    assert_eq!(core.pc_state.get_s(), s0.wrapping_sub(2));
    let t1 = core.clock.ticks;
    core.step();
    assert_eq!(core.clock.ticks - t1, 18);
    assert_eq!(core.pc_state.get_pc(), 0xF003);
    assert_eq!(core.pc_state.get_s(), s0);
}

#[test]
fn test_php_plp_round_trip() {
    // SEC; SED; PHP; CLC; CLD; PLP: C and D come back.
    let mut core = build_core(
        rom_with(&[0x38, 0xF8, 0x08, 0x18, 0xD8, 0x28]),
        CartridgeType::Default,
    );
    for _ in 0..6 {
        core.step();
    }
    assert!(core.pc_state.get_flag_c());
    assert!(core.pc_state.get_flag_d());
    // The pushed byte reads back with B and X1 set.
    assert!(core.pc_state.get_flag_b());
    assert!(core.pc_state.get_flag_x1());
}

#[test]
fn test_illegal_lax_and_dcp() {
    // LAX #$… is not in the table as Imm for LAX; use LAX zp: store 0x5A
    // at zero page via RIOT RAM first: LDA #$5A; STA $80; LAX $80.
    let mut core = build_core(
        rom_with(&[0xA9, 0x5A, 0x85, 0x80, 0xA7, 0x80]),
        CartridgeType::Default,
    );
    core.step();
    core.step();
    core.step();
    assert_eq!(core.pc_state.get_a(), 0x5A);
    assert_eq!(core.pc_state.get_x(), 0x5A);
}

#[test]
fn test_simple_generic_cartridge() {
    let mut sample_cartridge = GenericCartridge::new("dummy", 3, 0, 0x200, 0xF9, 40);
    assert_eq!(sample_cartridge.cartridge_banks.len(), 0);

    // A slice implements 'Read'
    let mut dummy_file_data = vec![0_u8; 0x100000];

    sample_cartridge.load_banks(&mut dummy_file_data);

    assert_eq!(sample_cartridge.cartridge_banks.len(), 3);
    assert_eq!(sample_cartridge.cartridge_banks[0].data.len(), 0x200);
}

// Bank-switch: on a two-bank cartridge with hot-swap top 0xFF9, an access
// whose masked address is 0xFF8 selects bank 0 and 0xFF9 selects bank 1,
// and the effect persists across ordinary accesses.
#[test]
fn test_f8_bank_switch_reads() {
    let mut cart = GenericCartridge::new("t", 2, 0, 0x1000, 0xFF9, 0);
    let mut data = vec![0u8; 0x2000];
    data[0x0000] = 0x11;
    data[0x1000] = 0x22;
    cart.load_banks(&mut data);
    assert_eq!(cart.num_banks, 2);
    assert_eq!(cart.current_bank, 0);
    assert_eq!(cart.read(0x000), 0x11);
    cart.read(0xFF9);
    assert_eq!(cart.current_bank, 1);
    assert_eq!(cart.read(0x000), 0x22);
    // An ordinary access leaves the selection alone.
    cart.read(0x123);
    assert_eq!(cart.current_bank, 1);
    cart.write(0xFF8, 0);
    assert_eq!(cart.current_bank, 0);
    assert_eq!(cart.read(0x000), 0x11);
}

// Bank test on a full machine: after LDA $1FF9 the current bank is 1 and
// the next fetch from 0xF000 returns bank 1's byte.
#[test]
fn test_f8_bank_switch_through_cpu() {
    let mut cart = GenericCartridge::new("t", 2, 0, 0x1000, 0xFF9, 0);
    let mut data = vec![0u8; 0x2000];
    // Bank 0: LDA $1FF9 at 0xF000, reset vector 0xF000.
    data[0x0000] = 0xAD;
    data[0x0001] = 0xF9;
    data[0x0002] = 0x1F;
    data[0x0FFC] = 0x00;
    data[0x0FFD] = 0xF0;
    // Bank 1: marker byte at its base.
    data[0x1000] = 0x77;
    cart.load_banks(&mut data);
    let memory = Memory::new(cart, Stella::new(false, Colours::new()), Riot::new());
    let mut core = Core::new(Clock::new(), memory, PcState::new(), Ports::new());
    core.reset();
    core.step();
    assert_eq!(core.memory.cartridge.current_bank, 1);
    let fetched = core.memory.read(&core.clock, 0xF000);
    assert_eq!(fetched, 0x77);
}

#[test]
fn test_riot_ram_through_memory() {
    let mut core = build_core(rom_with(&[0xA9, 0x5A, 0x85, 0x80]), CartridgeType::Default);
    core.step();
    core.step();
    let v = core.memory.read(&core.clock, 0x0080);
    assert_eq!(v, 0x5A);
    // The stack page aliases the same RAM.
    let v2 = core.memory.read(&core.clock, 0x0180);
    assert_eq!(v2, 0x5A);
}
