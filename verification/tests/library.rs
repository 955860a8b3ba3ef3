//! Behaviour of the library on concrete values: the laws, edge cases,
//! and every error.

use retro64_core::cia::cia::Cia;
use retro64_core::cia::joystick::JoystickState;
use retro64_core::cia::keyboard::{matrix_pos, KeyboardMatrix};
use retro64_core::cia::CiaIndex;
use retro64_core::cli::{config_from_args, load_kind, model_from_name, Args};
use retro64_core::cpu::ram_bus::RamBus;
use retro64_core::cpu::registers::Flags;
use retro64_core::cpu::Cpu;
use retro64_core::extensions::hostfs::{HostFs, InMemoryHostFs, NullHostFs};
use retro64_core::extensions::Compute;
use retro64_core::input::{key_down_action, map_code, map_keycode, KeyAction};
use retro64_core::memory::pla::{PlaConfig, Region};
use retro64_core::memory::Memory;
use retro64_core::sid::regs::{write_voice_reg, SidEvent, VoiceReg};
use retro64_core::sid::voice::Voice;
use retro64_core::storage::d64::D64;
use retro64_core::storage::prg::{autostart, inject, parse};
use retro64_core::storage::t64::T64;
use retro64_core::system::FrameEnd;
use retro64_core::util::petscii::{ascii_to_petscii, petscii_to_ascii};
use retro64_core::util::ring::AudioRing;
use retro64_core::vic::palette::vic_color;
use retro64_core::vic::VicII;
use retro64_core::{
    argb_to_rgba, framebuffer_to_bmp, C64Key, Config, JoystickPort, MediaKind, Model, StorageError, C64,
};

fn cpu_at(prog: &[u8]) -> (Cpu, RamBus) {
    let mut bus = RamBus::new();
    bus.load(0x0200, prog);
    bus.ram[0xFFFC] = 0x00;
    bus.ram[0xFFFD] = 0x02;
    let mut cpu = Cpu::new();
    cpu.reset(&mut bus);
    (cpu, bus)
}

#[test]
fn jammed_cpu_stays_put() {
    // $02 is a JAM opcode: the CPU halts and later steps take no cycles.
    let (mut cpu, mut bus) = cpu_at(&[0x02, 0xEA]);
    cpu.step(&mut bus);
    let pc = cpu.pc;
    assert_eq!(cpu.step(&mut bus), 0);
    assert_eq!(cpu.pc, pc);
}

#[test]
fn pha_pla_restores_accumulator_and_stack() {
    let (mut cpu, mut bus) = cpu_at(&[0xA9, 0x99, 0x48, 0xA9, 0x01, 0x68]);
    cpu.step(&mut bus);
    let sp = cpu.sp;
    cpu.step(&mut bus);
    assert_eq!(cpu.sp, sp.wrapping_sub(1));
    cpu.step(&mut bus);
    cpu.step(&mut bus);
    assert_eq!(cpu.a, 0x99);
    assert_eq!(cpu.sp, sp);
}

#[test]
fn every_running_step_takes_two_to_eight_cycles() {
    let prog = [0xA9, 0x01, 0x8D, 0x00, 0x04, 0xEE, 0x00, 0x04, 0x20, 0x20, 0x02, 0x00];
    let (mut cpu, mut bus) = cpu_at(&prog);
    bus.ram[0x0220] = 0x60;
    for _ in 0..6 {
        let c = cpu.step(&mut bus);
        assert!((2..=8).contains(&c), "step took {} cycles", c);
    }
}

#[test]
fn cpu_write_lands_in_ram_under_rom() {
    let mut m = Memory::new();
    assert_eq!(m.pla.region(0xA000), Region::BasicRom);
    m.cpu_write(0xA000, 0x5A);
    // BASIC ROM is visible: the read gives the ROM byte, the RAM below holds the write.
    assert_eq!(m.cpu_read(0xA000), 0x00);
    assert_eq!(m.ram[0xA000], 0x5A);
    m.cpu_write(0x1234, 0x77);
    assert_eq!(m.cpu_read(0x1234), 0x77);
}

#[test]
fn writing_the_port_rebanks_memory() {
    let mut m = Memory::new();
    m.cpu_write(0x0001, 0x30);
    assert_eq!(m.pla.region(0xA000), Region::Ram);
    assert_eq!(m.pla.region(0xD000), Region::Ram);
    assert_eq!(m.pla.region(0xE000), Region::Ram);
}

#[test]
fn color_ram_keeps_the_low_nibble() {
    let mut m = Memory::new();
    m.color_write(0xD805, 0xAB);
    assert_eq!(m.color_read(0xD805), 0x0B);
    // The address is taken modulo the 1 KB of colour RAM.
    assert_eq!(m.color_read(0xDC05), 0x0B);
}

#[test]
fn low_memory_is_ram_in_every_mode() {
    for mode in 0u8..8 {
        let p = PlaConfig::from_bits(mode, true, true);
        assert_eq!(p.region(0x0000), Region::Ram);
        assert_eq!(p.region(0x7FFF), Region::Ram);
        assert_eq!(p.region(0xC000), Region::Ram);
    }
}

#[test]
fn cia_timer_underflow_raises_and_icr_read_acknowledges() {
    let mut c = Cia::new(CiaIndex::Cia1);
    let kb = KeyboardMatrix::new();
    let joy = JoystickState::default();
    c.write(0x04, 0x10); // latch lo
    c.write(0x05, 0x00); // latch hi
    c.write(0x0D, 0x81); // enable timer A interrupt
    c.write(0x0E, 0x11); // load + start, continuous
    c.tick(0x11);
    assert!(c.irq_line);
    assert_eq!(c.read(0x0D, &kb, &joy), 0x81);
    assert!(!c.irq_line);
    assert_eq!(c.read(0x0D, &kb, &joy), 0x00);
}

#[test]
fn cia_mask_bits_set_and_clear() {
    let mut c = Cia::new(CiaIndex::Cia1);
    c.write(0x0D, 0x83);
    assert_eq!(c.imask, 0x03);
    c.write(0x0D, 0x01);
    assert_eq!(c.imask, 0x02);
}

#[test]
fn key_press_then_release() {
    let mut kb = KeyboardMatrix::new();
    // A is column 2, row 1: selecting column 2 pulls row 1 low.
    assert_eq!(kb.read_pb(!0x04), 0xFF);
    kb.press(C64Key::A);
    assert_eq!(kb.read_pb(!0x04), 0xFF & !0x02);
    kb.press(C64Key::S);
    kb.release(C64Key::A);
    assert_eq!(kb.read_pb(!0x04), 0xFF);
    assert_eq!(kb.read_pb(!0x20), 0xFF & !0x02);
}

#[test]
fn petscii_round_trip_and_edges() {
    for c in 0u8..0x80 {
        if c != 0x0D {
            assert_eq!(petscii_to_ascii(ascii_to_petscii(c)), c, "byte {:#x}", c);
        }
    }
    assert_eq!(ascii_to_petscii(b'a'), b'A');
    assert_eq!(ascii_to_petscii(b'A'), 0xC1);
    assert_eq!(ascii_to_petscii(b'\n'), 0x0D);
    assert_eq!(petscii_to_ascii(0x0D), b'\n');
}

#[test]
fn ring_keeps_the_newest_samples() {
    let mut r = AudioRing::with_capacity(4);
    assert!(r.is_empty());
    r.push_many(&[1, 2, 3]);
    r.push_many(&[4, 5, 6]);
    assert_eq!(r.len(), 4);
    let mut out = [0i16; 8];
    assert_eq!(r.pop_many(&mut out), 4);
    assert_eq!(&out[..4], &[3, 4, 5, 6]);
    assert!(r.is_empty());
}

#[test]
fn compute_arithmetic_and_fill() {
    let mut c = Compute::new();
    let mut ram = [0u8; 0x1_0000];
    // a = 1000000, b = 7
    for (i, b) in 1_000_000u32.to_le_bytes().iter().enumerate() {
        c.write(0xDE00 + i as u16, *b, &mut ram);
    }
    c.write(0xDE04, 7, &mut ram);
    c.write(0xDE08, 1, &mut ram); // divide
    // Result byte i sits at the register whose low two bits are i: $DE0C,
    // $DE0D, $DE0A, $DE0B.
    let q = u32::from_le_bytes([c.read(0xDE0C), c.read(0xDE0D), c.read(0xDE0A), c.read(0xDE0B)]);
    assert_eq!(q, 142857);
    c.write(0xDE08, 3, &mut ram); // integer square root
    let s = u32::from_le_bytes([c.read(0xDE0C), c.read(0xDE0D), c.read(0xDE0A), c.read(0xDE0B)]);
    assert_eq!(s, 1000);
    assert_eq!(c.read(0xDE09), 1);
    // Fill 3 bytes at $FFFF (wrapping) with $EE.
    c.write(0xDE10, 0xFF, &mut ram);
    c.write(0xDE11, 0xFF, &mut ram);
    c.write(0xDE12, 0xEE, &mut ram);
    c.write(0xDE13, 3, &mut ram);
    c.write(0xDE14, 0, &mut ram);
    c.write(0xDE15, 0, &mut ram);
    assert_eq!((ram[0xFFFF], ram[0], ram[1], ram[2]), (0xEE, 0xEE, 0xEE, 0));
    // A sine request waits for the host.
    c.write(0xDE08, 4, &mut ram);
    assert!(c.trig.is_some());
    assert!(!c.trig.unwrap().cosine);
}

#[test]
fn voice_frequency_bytes_compose() {
    let mut v = Voice::new();
    write_voice_reg(&mut v, VoiceReg::FreqLo, 0x34);
    write_voice_reg(&mut v, VoiceReg::FreqHi, 0x12);
    assert_eq!(v.freq, 0x1234);
    write_voice_reg(&mut v, VoiceReg::PulseHi, 0xFF);
    assert!(v.pw <= 0xFFF);
    for _ in 0..100 {
        v.step();
        assert!(v.output() <= 0xFFF);
    }
}

#[test]
fn palette_is_opaque() {
    for c in 0u8..=255 {
        assert_eq!(vic_color(c) >> 24, 0xFF);
    }
    assert_eq!(vic_color(0), 0xFF000000);
    assert_eq!(vic_color(1), 0xFFFFFFFF);
}

#[test]
fn prg_inject_places_body_and_autostart_queues_run() {
    let mut ram = [0u8; 0x1_0000];
    let p = parse(&[0x00, 0xC0, 1, 2, 3]).unwrap();
    inject(&mut ram, &p);
    assert_eq!(&ram[0xC000..0xC003], &[1, 2, 3]);
    autostart(&mut ram);
    assert!(ram[0xC6] > 0);
}

#[test]
fn storage_errors_and_messages() {
    assert!(matches!(parse(&[0x01]), Err(StorageError::TooShort)));
    assert_eq!(StorageError::TooShort.message(), "input too short");
    assert_eq!(StorageError::BadMagic.message(), "bad magic/signature");
    let io = StorageError::from(std::io::Error::new(std::io::ErrorKind::Other, "disk on fire"));
    assert_eq!(io.message(), "io error: disk on fire");
    let mut emu = C64::new(Config::default());
    let e = emu.load_media(&[0u8; 4], MediaKind::Tap).unwrap_err();
    assert_eq!(e.message(), "unsupported: TAP tape images");
    let e = emu.load_media(&[0u8; 4], MediaKind::Crt).unwrap_err();
    assert_eq!(e.message(), "unsupported: CRT cartridges");
    assert!(matches!(emu.load_media(&[0u8; 10], MediaKind::D64), Err(StorageError::TooShort)));
    assert!(matches!(emu.load_media(&[0u8; 10], MediaKind::T64), Err(StorageError::TooShort)));
    assert!(matches!(emu.load_media(&[0u8; 64], MediaKind::T64), Err(StorageError::BadMagic)));
}

fn t64_with_program() -> Vec<u8> {
    let mut t = vec![0u8; 0x60];
    t[0..3].copy_from_slice(b"C64");
    t[0x24] = 1; // one entry used
    let e = 0x40;
    t[e] = 1; // normal file
    t[e + 2] = 0x00;
    t[e + 3] = 0xC0; // load $C000
    t[e + 4] = 0x03;
    t[e + 5] = 0xC0; // end $C003
    t[e + 8] = 0x60; // data at offset $60
    t[e + 16..e + 32].copy_from_slice(b"PROGRAM         ");
    t.extend_from_slice(&[9, 8, 7]);
    t
}

#[test]
fn t64_lists_and_extracts_its_program() {
    let bytes = t64_with_program();
    let t = T64::new(&bytes).ok().unwrap();
    assert_eq!(t.entries.len(), 1);
    assert_eq!(t.entries[0].load_addr, 0xC000);
    assert_eq!(&t.entries[0].name, b"PROGRAM         ");
    assert_eq!(t.extract(0).unwrap(), vec![0x00, 0xC0, 9, 8, 7]);
    assert!(t.extract(1).is_none());
    let mut emu = C64::new(Config::default());
    assert!(emu.load_media(&bytes, MediaKind::T64).is_ok());
}

fn d64_with_file() -> Vec<u8> {
    let mut d = vec![0u8; 174_848];
    let dir = 0x16600; // track 18, sector 1
    d[dir] = 0;
    d[dir + 1] = 0xFF;
    d[dir + 2] = 0x82; // PRG
    d[dir + 3] = 17;
    d[dir + 4] = 0;
    d[dir + 5..dir + 21].copy_from_slice(b"HELLO\xA0\xA0\xA0\xA0\xA0\xA0\xA0\xA0\xA0\xA0\xA0");
    d[dir + 30] = 1;
    let file = 16 * 21 * 256; // track 17, sector 0
    d[file] = 0;
    d[file + 1] = 5;
    d[file + 2..file + 6].copy_from_slice(&[0x01, 0x08, 0xAA, 0xBB]);
    d
}

#[test]
fn d64_directory_and_file() {
    let bytes = d64_with_file();
    let d = D64::new(&bytes).ok().unwrap();
    assert!(d.directory_walkable());
    let dir = d.directory();
    assert_eq!(dir.len(), 1);
    assert_eq!(dir[0].file_type, 0x82);
    assert_eq!(d.read_file(&dir[0]), vec![0x01, 0x08, 0xAA, 0xBB]);
    let found = d.find(b"HELLO").unwrap();
    assert_eq!(found.first_ts, (17, 0));
    assert!(d.find(b"NOPE").is_none());
    let mut emu = C64::new(Config::default());
    assert!(emu.disk_directory().is_empty());
    assert!(emu.insert_disk(&bytes).is_ok());
    assert!(emu.disk_directory_walkable());
    assert_eq!(emu.disk_directory(), vec!["HELLO".to_string()]);
}

#[test]
fn rgba_and_bmp_export() {
    let mut out = [0u8; 8];
    argb_to_rgba(&[0xFF112233, 0x80445566], &mut out);
    assert_eq!(out, [0x11, 0x22, 0x33, 0xFF, 0x44, 0x55, 0x66, 0x80]);
    let bmp = framebuffer_to_bmp(&[0xFF102030, 0xFF405060], 2, 1);
    assert_eq!(&bmp[0..2], b"BM");
    assert_eq!(bmp.len(), 54 + 8);
    assert_eq!(u32::from_le_bytes([bmp[2], bmp[3], bmp[4], bmp[5]]), 62);
    assert_eq!(&bmp[54..60], &[0x30, 0x20, 0x10, 0x60, 0x50, 0x40]);
}

#[test]
fn a_frame_clocks_the_sid_once_per_line() {
    let mut emu = C64::new(Config::default());
    assert_eq!(emu.run_frame(), FrameEnd::Complete);
    let events = emu.take_sid_events();
    let lines = events.iter().filter(|e| matches!(e, SidEvent::Clock { cycles: 63 })).count();
    assert_eq!(lines, 312);
    assert!(emu.take_sid_events().is_empty());
    // The frame ended at the top of the screen, so the next one is whole too.
    assert_eq!(emu.run_frame(), FrameEnd::Complete);
    let next = emu.take_sid_events().iter().filter(|e| matches!(e, SidEvent::Clock { cycles: 63 })).count();
    assert_eq!(next, 312);
    assert!(emu.pending_trig().is_none());
}

#[test]
fn keys_reach_the_keyboard_matrix_through_cia1() {
    let mut emu = C64::new(Config::default());
    emu.key_down(C64Key::Return);
    emu.key_up(C64Key::Return);
    emu.joystick(JoystickPort::Port2, 0x01);
    emu.trigger_nmi();
    emu.set_warp(true);
    assert!(emu.warp());
    assert_eq!(emu.model(), Model::Pal);
}

#[test]
fn in_memory_host_fs_reads_back_writes() {
    let mut fs = InMemoryHostFs::new();
    assert!(fs.list().is_empty());
    assert!(fs.write("zeta", &[1, 2]).is_ok());
    assert!(fs.write("alpha", &[3]).is_ok());
    assert!(fs.write("zeta", &[4]).is_ok());
    assert_eq!(fs.read("zeta"), Some(vec![4]));
    assert_eq!(fs.read("alpha"), Some(vec![3]));
    assert_eq!(fs.read("beta"), None);
    assert_eq!(fs.list(), vec!["alpha".to_string(), "zeta".to_string()]);
    let mut null = NullHostFs;
    assert!(null.list().is_empty());
    assert!(null.read("x").is_none());
    assert!(null.write("x", &[1]).is_ok());
}

#[test]
fn browser_key_codes() {
    assert_eq!(map_code("KeyA"), Some(C64Key::A));
    assert_eq!(map_code("Digit7"), Some(C64Key::Num7));
    assert_eq!(map_code("Backspace"), Some(C64Key::Delete));
    assert_eq!(map_code("Delete"), Some(C64Key::Delete));
    assert_eq!(map_code("MetaRight"), Some(C64Key::Commodore));
    assert_eq!(map_code("keya"), None);
    assert_eq!(map_code(""), None);
    assert_eq!(map_code("F2"), None);
}

#[test]
fn command_line_options_select_the_configuration() {
    assert_eq!(model_from_name("NTSC"), Model::Ntsc);
    assert_eq!(model_from_name("ntsc"), Model::Ntsc);
    assert_eq!(model_from_name("pal"), Model::Pal);
    assert_eq!(model_from_name("ntsc2"), Model::Pal);
    let args = Args {
        load: None,
        rom_dir: None,
        model: "NtSc".to_string(),
        warp: true,
        extensions: true,
        hostfs: None,
        joystick_port: 1,
        scale: 0,
    };
    let cfg = config_from_args(args);
    assert_eq!(cfg.model, Model::Ntsc);
    assert!(cfg.warp && cfg.extensions_enabled);
    assert_eq!(cfg.joystick_port, JoystickPort::Port1);
    assert_eq!(cfg.scale, 1);
    assert_eq!(cfg.sample_rate, 48_000);
    assert_eq!(load_kind(Some("disk.D64")), MediaKind::D64);
    assert_eq!(load_kind(Some("readme")), MediaKind::Prg);
    assert_eq!(load_kind(None), MediaKind::Prg);
}

#[test]
fn cycle_count_adds_every_step() {
    // LDA #$01 (2) ; STA $0400 (4) ; INC $0400 (6)
    let (mut cpu, mut bus) = cpu_at(&[0xA9, 0x01, 0x8D, 0x00, 0x04, 0xEE, 0x00, 0x04]);
    assert_eq!(cpu.cycles, 0);
    let mut total = 0u64;
    for _ in 0..3 {
        total += cpu.step(&mut bus) as u64;
        assert_eq!(cpu.cycles, total);
    }
    assert_eq!(total, 12);
    cpu.reset(&mut bus);
    assert_eq!(cpu.cycles, 0);
}

#[test]
fn decimal_adc_sets_nmos_flags() {
    // SED ; CLC ; LDA #$99 ; ADC #$01
    let (mut cpu, mut bus) = cpu_at(&[0xF8, 0x18, 0xA9, 0x99, 0x69, 0x01]);
    for _ in 0..4 {
        cpu.step(&mut bus);
    }
    assert_eq!(cpu.a, 0x00);
    assert!(cpu.flag(Flags::C));
    assert!(!cpu.flag(Flags::Z)); // binary sum $9A
    assert!(cpu.flag(Flags::N)); // half-adjusted sum $A0
    assert!(!cpu.flag(Flags::V));
}

#[test]
fn decimal_sbc_flags_follow_the_binary_difference() {
    // SED ; SEC ; LDA #$00 ; SBC #$01 -> $99, borrow; binary $FF: N set, Z clear
    let (mut cpu, mut bus) = cpu_at(&[0xF8, 0x38, 0xA9, 0x00, 0xE9, 0x01]);
    for _ in 0..4 {
        cpu.step(&mut bus);
    }
    assert_eq!(cpu.a, 0x99);
    assert!(!cpu.flag(Flags::C));
    assert!(cpu.flag(Flags::N));
    assert!(!cpu.flag(Flags::Z));
}

#[test]
fn basic_program_pointers_include_load_end() {
    let mut ram = [0u8; 0x1_0000];
    let p = parse(&[0x01, 0x08, 0x0B, 0x08, 0x0A, 0x00]).unwrap();
    inject(&mut ram, &p);
    let eop = 0x0801 + 4;
    assert_eq!((ram[0x2B], ram[0x2C]), (0x01, 0x08));
    for a in [0x2D, 0x2F, 0x31, 0xAE] {
        assert_eq!((ram[a], ram[a + 1]), ((eop & 0xFF) as u8, (eop >> 8) as u8), "pointer at {:#x}", a);
    }
    assert_eq!(&ram[0x0801..0x0805], &[0x0B, 0x08, 0x0A, 0x00]);
}

#[test]
fn d64_find_takes_only_programs() {
    let mut bytes = d64_with_file();
    let dir = 0x16600;
    // A SEQ file of the same name ahead of the PRG.
    bytes.copy_within(dir + 2..dir + 32, dir + 32 + 2);
    bytes[dir + 2] = 0x81;
    bytes[dir + 3] = 17;
    bytes[dir + 4] = 1;
    let d = D64::new(&bytes).ok().unwrap();
    assert_eq!(d.directory().len(), 2);
    let found = d.find(b"HELLO").unwrap();
    assert_eq!(found.file_type, 0x82);
    assert_eq!(found.first_ts, (17, 0));
}

#[test]
fn sdl_key_codes() {
    assert_eq!(map_keycode(97), Some(C64Key::A));
    assert_eq!(map_keycode(122), Some(C64Key::Z));
    assert_eq!(map_keycode(48), Some(C64Key::Num0));
    assert_eq!(map_keycode(9), Some(C64Key::Control));
    assert_eq!(map_keycode(0x4000_003A), Some(C64Key::F1));
    assert_eq!(map_keycode(0x4000_00E3), Some(C64Key::Commodore));
    assert_eq!(map_keycode(0x4000_003B), None); // F2
    assert_eq!(map_keycode(65), None); // SDL never sends upper-case codes
}

#[test]
fn t64_entries_drive_extract() {
    let bytes = t64_with_program();
    let t = T64::new(&bytes).ok().unwrap();
    let e = &t.entries[0];
    let n = e.end_addr.wrapping_sub(e.load_addr) as usize;
    let o = e.offset as usize;
    let v = t.extract(0).unwrap();
    assert_eq!(v.len(), n + 2);
    let p = parse(&v).unwrap();
    assert_eq!(p.load_addr, e.load_addr);
    assert_eq!(p.body, &bytes[o..o + n]);
}

#[test]
fn matrix_position_is_declaration_index() {
    assert_eq!(matrix_pos(C64Key::Delete), (0, 0));
    assert_eq!(matrix_pos(C64Key::A), (2, 1));
    assert_eq!(matrix_pos(C64Key::RunStop), (7, 7));
}

#[test]
fn d011_reads_raster_bit_8() {
    let mut v = VicII::new(Model::Pal);
    v.raster_y = 0x080;
    assert_eq!(v.read(0xD011), 0x1B);
    v.raster_y = 0x100;
    assert_eq!(v.read(0xD011), 0x9B);
    v.raster_y = 0x137;
    assert_eq!(v.read(0xD011), 0x9B);
    assert_eq!(v.read(0xD012), 0x37);
}

#[test]
fn directory_names_with_shifted_bytes_are_decoded_lossily() {
    let mut bytes = d64_with_file();
    let dir = 0x16600;
    bytes[dir + 5..dir + 21].copy_from_slice(b"A\xC1\xA0\xA0\xA0\xA0\xA0\xA0\xA0\xA0\xA0\xA0\xA0\xA0\xA0\xA0");
    let mut emu = C64::new(Config::default());
    assert!(emu.insert_disk(&bytes).is_ok());
    assert_eq!(emu.disk_directory(), vec!["A\u{FFFD}".to_string()]);
}

#[test]
fn desktop_key_actions() {
    assert_eq!(key_down_action(27), KeyAction::Quit);
    assert_eq!(key_down_action(0x4000_0044), KeyAction::ToggleWarp);
    assert_eq!(key_down_action(0x4000_0045), KeyAction::Restore);
    assert_eq!(key_down_action(97), KeyAction::Press(C64Key::A));
    assert_eq!(key_down_action(0x4000_003B), KeyAction::Ignore);
}

#[test]
fn cias_power_on_as_specified() {
    let c1 = Cia::new(CiaIndex::Cia1);
    let c2 = Cia::new(CiaIndex::Cia2);
    assert_eq!((c1.pra, c1.prb, c1.ddra, c1.ddrb), (0xFF, 0xFF, 0, 0));
    assert_eq!(c2.vic_bank_sel, 3);
    assert!(!c1.irq_line && c1.imask == 0 && c1.icr == 0);
}
