//! The [`C64`] orchestrator — wires CPU + memory + chips + extensions and
//! exposes the public API used by the desktop and web frontends.

use vstd::prelude::*;
use vstd::array::spec_array_update;
use crate::cia::cia::{cia_read, cia_write};
use crate::cia::joystick::JoystickState;
use crate::cia::keyboard::KeyboardMatrix;
use crate::cia::{Cia, CiaIndex};
use crate::config::{Config, JoystickPort, Model};
use crate::cpu::{
    address_spec, control_spec, fetch16_spec, fetch_spec, flag_of, instr_spec, interrupt_spec, pull_spec,
    push_spec, reset_spec, step_spec, word, Bus, Cpu,
};
use crate::cpu::decode::{decode_spec, Instr, Kind, Mode};
use crate::cpu::registers::Flags;
use crate::cia::cia::{cia_after_tick, cia_power_on};
use crate::memory::{kernal_stub_byte, RomSet, ROM_8K};
use crate::cia::keyboard::{key_position, C64Key};
use crate::storage::{MediaKind, StorageError};
use crate::storage::prg::{autostart, autostarted, inject, injected, parse, parsed_prg};
use crate::storage::d64::{d64_directory, d64_min_len, dir_chain_ok, dir_listing, name_end, D64, DirEntry};
use crate::storage::t64::{t64_first_program, t64_magic, T64};
use crate::sid::regs::SidEvent;
use crate::extensions::TrigRequest;
use crate::vic::{after_line, fb_after_line, lemma_after_line_keeps_fb, lemma_line_ignores_fb};
use crate::vic::palette::pal;
use crate::extensions::{compute_read, compute_write, fresh_compute, Compute, Extensions};
use crate::memory::{lemma_power_on_pla, pla_for_port, powered_on_memory, Memory, Region};
use crate::sid::regs::{sid_read, sid_read_value};
use crate::vic::{powered_on_vic, vic_reg_read, vic_reg_write, VicII};

verus! {

/// Bus adapter passed into the CPU: memory and the chips it reaches.
pub struct SystemBus {
    /// Main memory + banking.
    pub mem: Memory,
    /// VIC-II state.
    pub vic: VicII,
    /// CIA1.
    pub cia1: Cia,
    /// CIA2.
    pub cia2: Cia,
    /// Keyboard matrix.
    pub kb: KeyboardMatrix,
    /// Joystick #1.
    pub joy1: JoystickState,
    /// Joystick #2.
    pub joy2: JoystickState,
    /// Extensions.
    pub ext: Extensions,
    /// The last SID register write, waiting to be handed to the host's
    /// synthesiser.
    pub sid_write: Option<(u16, u8)>,
}

/// An I/O read at `addr` ($D000-$DFFF): the bus afterwards and the byte.
/// VIC-II, SID, colour RAM (high nibble open, read as 1s), CIA1, CIA2, the
/// extension registers; $DF00-$DFFF reads $FF. Both CIAs see both joysticks.
pub open spec fn io_read(b: SystemBus, addr: u16) -> (SystemBus, u8) {
    if 0xD000 <= addr <= 0xD3FF {
        let (v, r) = vic_reg_read(b.vic, addr);
        (SystemBus { vic: v, ..b }, r)
    } else if 0xD400 <= addr <= 0xD7FF {
        (b, sid_read_value(addr))
    } else if 0xD800 <= addr <= 0xDBFF {
        (b, (b.mem.color_ram@[(addr & 0x03FF) as int] & 0x0F) | 0xF0)
    } else if 0xDC00 <= addr <= 0xDCFF {
        let (c, r) = cia_read(b.cia1, addr as u8, b.kb@, b.joy1.bits | b.joy2.bits);
        (SystemBus { cia1: c, ..b }, r)
    } else if 0xDD00 <= addr <= 0xDDFF {
        let (c, r) = cia_read(b.cia2, addr as u8, b.kb@, b.joy1.bits | b.joy2.bits);
        (SystemBus { cia2: c, ..b }, r)
    } else if 0xDE00 <= addr <= 0xDEFF {
        (b, if b.ext.enabled { compute_read(b.ext.compute, addr) } else { 0xFF })
    } else {
        (b, 0xFF)
    }
}

/// An I/O write at `addr`: the bus afterwards. A SID write is kept for the
/// host; an extension write may fill or copy RAM.
pub open spec fn io_write(b: SystemBus, addr: u16, val: u8) -> SystemBus {
    if 0xD000 <= addr <= 0xD3FF {
        SystemBus { vic: vic_reg_write(b.vic, addr, val), ..b }
    } else if 0xD400 <= addr <= 0xD7FF {
        SystemBus { sid_write: Some((addr, val)), ..b }
    } else if 0xD800 <= addr <= 0xDBFF {
        SystemBus {
            mem: Memory {
                color_ram: spec_array_update(b.mem.color_ram, (addr & 0x03FF) as int, val & 0x0F),
                ..b.mem
            },
            ..b
        }
    } else if 0xDC00 <= addr <= 0xDCFF {
        SystemBus { cia1: cia_write(b.cia1, addr as u8, val), ..b }
    } else if 0xDD00 <= addr <= 0xDDFF {
        SystemBus { cia2: cia_write(b.cia2, addr as u8, val), ..b }
    } else if 0xDE00 <= addr <= 0xDEFF && b.ext.enabled {
        let (c, ram) = compute_write(b.ext.compute, addr, val, b.mem.ram);
        SystemBus { ext: Extensions { compute: c, ..b.ext }, mem: Memory { ram: ram, ..b.mem }, ..b }
    } else {
        b
    }
}

/// A RAM write through the CPU: the byte lands in RAM whatever is banked
/// in, and a write to the CPU port ($0000/$0001) re-derives the banking.
pub open spec fn ram_write(m: Memory, addr: u16, val: u8) -> Memory {
    let ram = spec_array_update(m.ram, addr as int, val);
    Memory { ram: ram, pla: if addr <= 1 { pla_for_port(ram@[0], ram@[1]) } else { m.pla }, ..m }
}

impl Bus for SystemBus {
    open spec fn read_value(&self, addr: u16) -> u8 {
        if self.mem.pla.region_of(addr) == Region::Io {
            io_read(*self, addr).1
        } else {
            self.mem.cpu_read_spec(addr)
        }
    }

    open spec fn after_read(&self, addr: u16) -> Self {
        if self.mem.pla.region_of(addr) == Region::Io {
            io_read(*self, addr).0
        } else {
            *self
        }
    }

    open spec fn after_write(&self, addr: u16, val: u8) -> Self {
        if self.mem.pla.region_of(addr) == Region::Io {
            io_write(*self, addr, val)
        } else {
            SystemBus { mem: ram_write(self.mem, addr, val), ..*self }
        }
    }

    fn read(&mut self, addr: u16) -> (r: u8) {
        // Fast path: RAM / ROM via the PLA
        let region = self.mem.pla.region(addr);
        match region {
            Region::Io => self.read_io(addr),
            _ => self.mem.cpu_read(addr),
        }
    }

    fn write(&mut self, addr: u16, val: u8) {
        let region = self.mem.pla.region(addr);
        match region {
            Region::Io => self.write_io(addr, val),
            _ => self.mem.cpu_write(addr, val),
        }
    }
}

impl SystemBus {
    /// Dispatch an I/O read.
    fn read_io(&mut self, addr: u16) -> (r: u8)
        ensures
            (*final(self), r) == io_read(*old(self), addr),
    {
        if 0xD000 <= addr && addr <= 0xD3FF {
            self.vic.read(addr)
        } else if 0xD400 <= addr && addr <= 0xD7FF {
            sid_read(addr)
        } else if 0xD800 <= addr && addr <= 0xDBFF {
            self.mem.color_read(addr) | 0xF0
        } else if 0xDC00 <= addr && addr <= 0xDCFF {
            let joy = joystick_for(self.cia1.index, &self.joy1, &self.joy2);
            self.cia1.read(addr as u8, &self.kb, &joy)
        } else if 0xDD00 <= addr && addr <= 0xDDFF {
            let joy = joystick_for(self.cia2.index, &self.joy1, &self.joy2);
            self.cia2.read(addr as u8, &self.kb, &joy)
        } else if 0xDE00 <= addr && addr <= 0xDEFF {
            self.ext.read(addr)
        } else {
            0xFF
        }
    }

    /// Dispatch an I/O write.
    fn write_io(&mut self, addr: u16, val: u8)
        ensures
            *final(self) == io_write(*old(self), addr, val),
    {
        if 0xD000 <= addr && addr <= 0xD3FF {
            self.vic.write(addr, val);
        } else if 0xD400 <= addr && addr <= 0xD7FF {
            self.sid_write = Some((addr, val));
        } else if 0xD800 <= addr && addr <= 0xDBFF {
            self.mem.color_write(addr, val);
        } else if 0xDC00 <= addr && addr <= 0xDCFF {
            self.cia1.write(addr as u8, val);
        } else if 0xDD00 <= addr && addr <= 0xDDFF {
            self.cia2.write(addr as u8, val);
        } else if 0xDE00 <= addr && addr <= 0xDEFF {
            self.ext.write(addr, val, &mut self.mem.ram);
        }
    }
}

/// The joystick lines a CIA sees. For now both ports see both joysticks;
/// refinements would route PA/PB separately.
fn joystick_for(_i: CiaIndex, joy1: &JoystickState, joy2: &JoystickState) -> (r: JoystickState)
    ensures
        r.bits == joy1.bits | joy2.bits,
{
    JoystickState { bits: joy1.bits | joy2.bits }
}


/// What the frame loop relies on stays put across a bus access: the VIC-II
/// geometry, raster and end-of-frame flag, the VIC-II bank base, and CIA2's
/// bank selection staying one of four.
pub open spec fn layout_kept(b1: SystemBus, b2: SystemBus) -> bool {
    &&& b2.vic.model == b1.vic.model
    &&& b2.vic.width == b1.vic.width
    &&& b2.vic.height == b1.vic.height
    &&& b2.vic.raster_y == b1.vic.raster_y
    &&& b2.vic.frame_done == b1.vic.frame_done
    &&& b2.mem.vic_bank_base == b1.mem.vic_bank_base
    &&& (b1.cia2.vic_bank_sel <= 3 ==> b2.cia2.vic_bank_sel <= 3)
}

/// A read keeps the layout.
pub broadcast proof fn lemma_read_keeps_layout(b: SystemBus, a: u16)
    ensures
        layout_kept(b, #[trigger] b.after_read(a)),
{
}

/// A write keeps the layout.
pub broadcast proof fn lemma_write_keeps_layout(b: SystemBus, a: u16, v: u8)
    ensures
        layout_kept(b, #[trigger] b.after_write(a, v)),
{
    let c = b.cia2;
    assert((!v) & 0x03 <= 3) by (bit_vector);
}

/// An operand address computation keeps the layout.
proof fn lemma_address_keeps_layout(c: Cpu, b: SystemBus, mode: Mode)
    ensures
        layout_kept(b, address_spec(c, b, mode).1),
{
    broadcast use lemma_read_keeps_layout;
    let (c1, b1, v) = fetch_spec(c, b);
    let (c2, b2, w) = fetch16_spec(c, b);
    let zpx = v.wrapping_add(c1.x);
    assert(layout_kept(b, b1));
    assert(layout_kept(b, b2));
    assert(layout_kept(b, b1.after_read(zpx as u16).after_read(zpx.wrapping_add(1) as u16)));
    assert(layout_kept(b, b1.after_read(v as u16).after_read(v.wrapping_add(1) as u16)));
}

/// A CPU step's instruction keeps the layout.
#[verifier::rlimit(60)]
proof fn lemma_instr_keeps_layout(c: Cpu, b: SystemBus, ins: Instr)
    ensures
        layout_kept(b, instr_spec(c, b, ins).1),
{
    broadcast use lemma_read_keeps_layout, lemma_write_keeps_layout;
    lemma_address_keeps_layout(c, b, ins.mode);
    let (c1, b1, a, x) = address_spec(c, b, ins.mode);
    let (f1, g1, v) = fetch_spec(c, b);
    let (f2, g2, w) = fetch16_spec(c, b);
    assert(layout_kept(b, g1));
    assert(layout_kept(b, g2));
    match ins.kind {
        Kind::Pha | Kind::Php | Kind::Pla | Kind::Plp | Kind::Jmp | Kind::JmpInd | Kind::Jsr | Kind::Rts
        | Kind::Rti | Kind::Brk => {
            lemma_control_keeps_layout(c, b, ins.kind);
        },
        _ => {},
    }
}

/// A stack or control-flow instruction keeps the layout.
#[verifier::rlimit(60)]
proof fn lemma_control_keeps_layout(c: Cpu, b: SystemBus, k: Kind)
    ensures
        layout_kept(b, control_spec(c, b, k).1),
{
    broadcast use lemma_read_keeps_layout, lemma_write_keeps_layout;
    if k == Kind::Brk {
        let c0 = Cpu { pc: c.pc.wrapping_add(1), ..c };
        lemma_interrupt_keeps_layout(c0, b, 0xFFFE, true);
    } else if k == Kind::Rti {
        let (c1, b1, p) = pull_spec(c, b);
        let (c2, b2, lo) = pull_spec(Cpu { p: (p & !Flags::B) | Flags::U, ..c1 }, b1);
        let (c3, b3, hi) = pull_spec(c2, b2);
        assert(layout_kept(b, b1));
        assert(layout_kept(b1, b2));
        assert(layout_kept(b2, b3));
    } else if k == Kind::Jsr {
        let (c1, b1, target) = fetch16_spec(c, b);
        let ret = c1.pc.wrapping_sub(1);
        let (c2, b2) = push_spec(c1, b1, (ret >> 8) as u8);
        let (c3, b3) = push_spec(c2, b2, ret as u8);
        assert(layout_kept(b, b1));
        assert(layout_kept(b1, b2));
        assert(layout_kept(b2, b3));
    } else if k == Kind::Rts {
        let (c1, b1, lo) = pull_spec(c, b);
        let (c2, b2, hi) = pull_spec(c1, b1);
        assert(layout_kept(b, b1));
        assert(layout_kept(b1, b2));
    } else if k == Kind::JmpInd {
        let (c1, b1, ptr) = fetch16_spec(c, b);
        let b2 = b1.after_read(ptr);
        let hi_addr = (ptr & 0xFF00) | (ptr.wrapping_add(1) & 0x00FF);
        assert(layout_kept(b, b1));
        assert(layout_kept(b1, b2));
        assert(layout_kept(b2, b2.after_read(hi_addr)));
    } else if k == Kind::Jmp {
        let (c1, b1, t) = fetch16_spec(c, b);
        assert(layout_kept(b, b1));
    }
}

/// Servicing an interrupt keeps the layout.
proof fn lemma_interrupt_keeps_layout(c: Cpu, b: SystemBus, vector: u16, brk: bool)
    ensures
        layout_kept(b, interrupt_spec(c, b, vector, brk).1),
{
    broadcast use lemma_read_keeps_layout, lemma_write_keeps_layout;
    let (c1, b1) = push_spec(c, b, (c.pc >> 8) as u8);
    let (c2, b2) = push_spec(c1, b1, c.pc as u8);
    let p = if brk { c.p | Flags::U | Flags::B } else { (c.p | Flags::U) & !Flags::B };
    let (c3, b3) = push_spec(c2, b2, p);
    assert(layout_kept(b, b1));
    assert(layout_kept(b1, b2));
    assert(layout_kept(b2, b3));
    assert(layout_kept(b3, b3.after_read(vector)));
    assert(layout_kept(b3.after_read(vector), b3.after_read(vector).after_read(vector.wrapping_add(1))));
}

/// A CPU step keeps the layout.
pub proof fn lemma_step_keeps_layout(c: Cpu, b: SystemBus)
    ensures
        layout_kept(b, step_spec(c, b).1),
{
    broadcast use lemma_read_keeps_layout;
    if !c.jam {
        if c.nmi_pending && !c.prev_nmi {
            lemma_interrupt_keeps_layout(Cpu { prev_nmi: true, ..c }, b, 0xFFFA, false);
        } else {
            let c0 = if !c.nmi_pending { Cpu { prev_nmi: false, ..c } } else { c };
            if c0.irq_line && !flag_of(c0.p, Flags::I) {
                lemma_interrupt_keeps_layout(c0, b, 0xFFFE, false);
            } else {
                let (c1, b1, opcode) = fetch_spec(c0, b);
                lemma_instr_keeps_layout(c1, b1, decode_spec(opcode));
            }
        }
    }
}

/// Two reads keep the layout.
proof fn lemma_bus_ops_keep_layout_2(b: SystemBus, a1: u16, a2: u16)
    ensures
        layout_kept(b, b.after_read(a1).after_read(a2)),
{
    lemma_read_keeps_layout(b, a1);
    lemma_read_keeps_layout(b.after_read(a1), a2);
}

/// How a call of [`C64::run_frame`] ended.
#[derive(Copy, Clone, Debug, PartialEq, Eq, Structural)]
pub enum FrameEnd {
    /// The frame is complete; its picture is in the framebuffer.
    Complete,
    /// The program asked the compute unit for a sine or cosine; the host must
    /// supply it ([`C64::finish_trig`]) before the frame can go on.
    Trig(TrigRequest),
}

/// The machine as the frame loop sees it: the CPU, the bus, the live
/// framebuffer, the SID events not yet handed to the host, and where the
/// loop is within the current scanline.
pub ghost struct Machine {
    /// The CPU.
    pub cpu: Cpu,
    /// Memory and the chips (the VIC-II's own framebuffer field aside).
    pub bus: SystemBus,
    /// The framebuffer being drawn.
    pub frame: Seq<u32>,
    /// SID events for the host, oldest first.
    pub events: Seq<SidEvent>,
    /// CPU cycles spent in the current line.
    pub spent: u32,
    /// Whether a line has been started and not finished.
    pub mid_line: bool,
    /// Whether the last line of the frame has been finished.
    pub frame_complete: bool,
}

/// The start of a scanline: the IRQ line follows the VIC-II and CIA1
/// interrupt outputs, a pending CIA2 interrupt latches an NMI (and is
/// acknowledged), and the line's cycle count starts at 0.
#[verifier::opaque]
pub open spec fn line_begin(st: Machine) -> Machine {
    let c1 = Cpu { irq_line: st.bus.vic.irq_line || st.bus.cia1.irq_line, ..st.cpu };
    if st.bus.cia2.irq_line {
        Machine {
            cpu: Cpu { nmi_pending: true, ..c1 },
            bus: SystemBus { cia2: Cia { irq_line: false, ..st.bus.cia2 }, ..st.bus },
            spent: 0,
            mid_line: true,
            ..st
        }
    } else {
        Machine { cpu: c1, spent: 0, mid_line: true, ..st }
    }
}

/// One CPU step: its cycles (at least one) count toward the line, and a SID
/// write it made is handed on as an event.
#[verifier::opaque]
pub open spec fn cpu_turn(st: Machine) -> Machine {
    let (c, b, cy) = step_spec(st.cpu, st.bus);
    let spent = (st.spent + (if cy < 1 { 1u8 } else { cy })) as u32;
    match b.sid_write {
        Some(w) => Machine {
            cpu: c,
            bus: SystemBus { sid_write: None, ..b },
            events: st.events.push(SidEvent::Write { addr: w.0, val: w.1 }),
            spent: spent,
            ..st
        },
        None => Machine { cpu: c, bus: b, spent: spent, ..st },
    }
}

/// The end of a scanline: the VIC-II bank follows CIA2, the VIC-II draws
/// and advances its raster, the SID is clocked for the line, both CIAs tick;
/// the frame is complete when the raster wrapped.
#[verifier::opaque]
pub open spec fn line_finish(st: Machine, cpl: u32) -> Machine {
    let mem = Memory { vic_bank_base: (st.bus.cia2.vic_bank_sel * 0x4000) as u16, ..st.bus.mem };
    let v = after_line(st.bus.vic, mem);
    let bus = SystemBus {
        mem: mem,
        vic: VicII { frame_done: false, ..v },
        cia1: cia_after_tick(st.bus.cia1, cpl),
        cia2: cia_after_tick(st.bus.cia2, cpl),
        ..st.bus
    };
    Machine {
        bus: bus,
        frame: fb_after_line(st.bus.vic, mem, st.frame),
        events: st.events.push(SidEvent::Clock { cycles: cpl }),
        mid_line: false,
        frame_complete: v.frame_done,
        ..st
    }
}

/// Where the frame loop must stop: the frame is complete, or the CPU is due
/// to run while a sine/cosine request waits for the host.
pub open spec fn halted(st: Machine, cpl: u32) -> bool {
    st.frame_complete || (st.mid_line && st.spent < cpl && st.bus.ext.compute.trig is Some)
}

/// One step of the frame loop.
pub open spec fn loop_step(st: Machine, cpl: u32) -> Machine {
    if !st.mid_line {
        line_begin(st)
    } else if st.spent < cpl {
        cpu_turn(st)
    } else {
        line_finish(st, cpl)
    }
}

/// The frame loop after `n` steps.
pub open spec fn loop_after(st: Machine, cpl: u32, n: nat) -> Machine
    decreases n,
{
    if n == 0 {
        st
    } else {
        loop_step(loop_after(st, cpl, (n - 1) as nat), cpl)
    }
}

/// Whether `end` is where the frame loop started at `start` first stops.
pub open spec fn runs_to_stop(start: Machine, cpl: u32, end: Machine) -> bool {
    exists|n: nat| {
        &&& #[trigger] loop_after(start, cpl, n) == end
        &&& halted(end, cpl)
        &&& forall|k: nat| k < n ==> !halted(#[trigger] loop_after(start, cpl, k), cpl)
    }
}


/// A loop that reached a stop after `n` steps, not stopping before, ran to
/// that stop.
proof fn lemma_runs_to_stop(start: Machine, cpl: u32, n: nat, end: Machine)
    requires
        loop_after(start, cpl, n) == end,
        halted(end, cpl),
        forall|k: nat| k < n ==> !halted(#[trigger] loop_after(start, cpl, k), cpl),
    ensures
        runs_to_stop(start, cpl, end),
{
}

/// Starting a line touches neither the loop's frame flag nor the VIC-II.
proof fn lemma_begin_flags(st: Machine)
    ensures
        line_begin(st).frame_complete == st.frame_complete,
        line_begin(st).bus.vic == st.bus.vic,
{
    reveal(line_begin);
}

/// A CPU turn touches neither the loop's frame flag nor the VIC-II's.
proof fn lemma_turn_flags(st: Machine)
    ensures
        cpu_turn(st).frame_complete == st.frame_complete,
        cpu_turn(st).bus.vic.frame_done == st.bus.vic.frame_done,
{
    reveal(cpu_turn);
    lemma_step_keeps_layout(st.cpu, st.bus);
}

/// Finishing a line clears the VIC-II's frame flag; when it completes the
/// frame (the flag having been clear), the raster is back on line 0.
proof fn lemma_finish_flags(st: Machine, cpl: u32)
    ensures
        !line_finish(st, cpl).bus.vic.frame_done,
        !line_finish(st, cpl).mid_line,
        line_finish(st, cpl).frame_complete && !st.bus.vic.frame_done ==> line_finish(st, cpl).bus.vic.raster_y == 0,
{
    reveal(line_finish);
}

/// Along the frame loop the VIC-II's end-of-frame flag stays clear: the end
/// of a frame is recorded in the loop's own flag instead.
proof fn lemma_loop_keeps_vic_flag_clear(start: Machine, cpl: u32, k: nat)
    requires
        !start.bus.vic.frame_done,
    ensures
        !loop_after(start, cpl, k).bus.vic.frame_done,
    decreases k,
{
    if k > 0 {
        let prev = loop_after(start, cpl, (k - 1) as nat);
        lemma_loop_keeps_vic_flag_clear(start, cpl, (k - 1) as nat);
        lemma_begin_flags(prev);
        lemma_turn_flags(prev);
        lemma_finish_flags(prev, cpl);
    }
}

/// A frame the loop completes ends at the top of the screen: the raster is
/// back on line 0 and no line is under way.
pub proof fn law_frame_ends_at_top(start: Machine, cpl: u32, end: Machine)
    requires
        !start.frame_complete,
        !start.bus.vic.frame_done,
        runs_to_stop(start, cpl, end),
        end.frame_complete,
    ensures
        end.bus.vic.raster_y == 0,
        !end.mid_line,
{
    let n = choose|n: nat| {
        &&& #[trigger] loop_after(start, cpl, n) == end
        &&& halted(end, cpl)
        &&& forall|k: nat| k < n ==> !halted(#[trigger] loop_after(start, cpl, k), cpl)
    };
    assert(n > 0);
    let prev = loop_after(start, cpl, (n - 1) as nat);
    assert(!halted(prev, cpl));
    lemma_loop_keeps_vic_flag_clear(start, cpl, (n - 1) as nat);
    lemma_begin_flags(prev);
    lemma_turn_flags(prev);
    lemma_finish_flags(prev, cpl);
    assert(end == loop_step(prev, cpl));
}

/// RAM after the PRG blob `blob` is loaded: its body injected at its load
/// address, with `RUN` queued when it loads at the BASIC start; `None` when
/// the blob is too short to be a PRG.
pub open spec fn prg_loaded(ram: Seq<u8>, blob: Seq<u8>) -> Option<Seq<u8>> {
    match parsed_prg(blob) {
        None => None,
        Some((load, body)) => Some(
            if load == 0x0801 { autostarted(injected(ram, load, body)) } else { injected(ram, load, body) },
        ),
    }
}

/// The name of the directory entry at `off`, up to its $A0 padding.
pub open spec fn entry_name(d: Seq<u8>, off: int) -> Seq<u8> {
    let n = d.subrange(off + 5, off + 21);
    n.subrange(0, name_end(n, 0))
}

/// The text of a name whose bytes are all ASCII: one character per byte.
pub open spec fn ascii_text(b: Seq<u8>) -> Seq<char> {
    Seq::new(b.len(), |i: int| b[i] as char)
}

/// The text `String::from_utf8_lossy` makes of the bytes `b`: valid UTF-8
/// decoded, each invalid sequence replaced by U+FFFD.
pub uninterp spec fn utf8_lossy(b: Seq<u8>) -> Seq<char>;

/// The bytes `b` as text, invalid UTF-8 replaced (`String::from_utf8_lossy`):
/// the result is the decode of `b`, which for ASCII bytes is one character
/// per byte.
#[verifier::external_body]
fn lossy_text(b: &[u8]) -> (r: String)
    ensures
        r@ == utf8_lossy(b@),
        (forall|i: int| 0 <= i < b@.len() ==> b@[i] < 0x80) ==> r@ == ascii_text(b@),
{
    String::from_utf8_lossy(b).into_owned()
}

/// The bus of a machine just switched on with ROM images `roms` and the
/// extensions on or off: memory, VIC-II and both CIAs in their power-on
/// state, no key pressed, joysticks idle, the compute unit fresh, no SID
/// write pending.
pub open spec fn powered_on_bus(b: SystemBus, model: Model, roms: RomSet, extensions: bool) -> bool {
    &&& powered_on_memory(b.mem, roms)
    &&& powered_on_vic(b.vic, model)
    &&& b.cia1 == cia_power_on(CiaIndex::Cia1)
    &&& b.cia2 == cia_power_on(CiaIndex::Cia2)
    &&& b.kb@ == Seq::new(8, |i: int| 0u8)
    &&& b.joy1.bits == 0
    &&& b.joy2.bits == 0
    &&& b.ext.enabled == extensions
    &&& b.ext.compute == fresh_compute()
    &&& b.sid_write is None
}

/// Full Commodore 64.
pub struct C64 {
    cpu: Cpu,
    bus: SystemBus,
    /// Which host joystick is wired to port 1 vs 2.
    joy_port: JoystickPort,
    /// Disk image currently mounted for device 8 (owned).
    disk: Option<Vec<u8>>,
    model: Model,
    frame_complete: bool,
    warp: bool,
    /// The framebuffer being drawn (handed to the VIC-II while it draws a
    /// line).
    frame: Vec<u32>,
    /// Last complete frame, returned to the caller.
    fb_snapshot: Vec<u32>,
    /// SID events not yet taken by the host.
    sid_events: Vec<SidEvent>,
    /// CPU cycles spent in the current line.
    spent: u32,
    /// Whether a line has been started and not finished.
    mid_line: bool,
}

impl C64 {
    /// The machine the frame loop runs on.
    pub closed spec fn machine(&self) -> Machine {
        Machine {
            cpu: self.cpu,
            bus: self.bus,
            frame: self.frame@,
            events: self.sid_events@,
            spent: self.spent,
            mid_line: self.mid_line,
            frame_complete: self.frame_complete,
        }
    }

    /// The hardware model.
    pub closed spec fn model_of(&self) -> Model {
        self.model
    }

    /// The last complete frame.
    pub closed spec fn snapshot(&self) -> Seq<u32> {
        self.fb_snapshot@
    }

    /// The mounted disk image, if any.
    pub closed spec fn disk_image(&self) -> Option<Seq<u8>> {
        match self.disk {
            Some(d) => Some(d@),
            None => None,
        }
    }

    /// The warp-speed hint.
    pub closed spec fn warp_flag(&self) -> bool {
        self.warp
    }

    /// The joystick port the host joystick is wired to.
    pub closed spec fn joystick_wiring(&self) -> JoystickPort {
        self.joy_port
    }

    /// The machine's geometry is its model's, the raster is on a line of the
    /// frame and the VIC-II's end-of-frame flag is clear, the VIC-II bank is
    /// one of four, and the line's cycle count has not run past the line by
    /// more than one instruction.
    pub closed spec fn wf(&self) -> bool {
        &&& self.bus.vic.model == self.model
        &&& self.bus.vic.width == self.model.width()
        &&& self.bus.vic.height == self.model.height()
        &&& self.bus.vic.raster_y < self.model.lines()
        &&& !self.bus.vic.frame_done
        &&& self.frame@.len() == self.model.width() * self.model.height()
        &&& self.bus.cia2.vic_bank_sel <= 3
        &&& self.bus.mem.vic_bank_base <= 0xC000
        &&& self.spent < self.model.line_cycles() + 8
    }

    /// Build a new C64 from a [`Config`], with the built-in ROM stubs. The
    /// configuration's ROM directory is not read here: a host that has ROM
    /// images loads them and calls [`C64::with_roms`].
    pub fn new(cfg: Config) -> (r: Self)
        ensures
            r.wf(),
            r.model_of() == cfg.model,
            powered_on_bus(r.machine().bus, cfg.model, RomSet { basic: None, kernal: None, chargen: None },
                cfg.extensions_enabled),
            r.machine().cpu == (Cpu {
                a: 0, x: 0, y: 0, sp: 0xFD, pc: 0xFCE2, p: Flags::U | Flags::I, cycles: 0,
                irq_line: false, nmi_pending: false, prev_nmi: false, jam: false,
            }),
            r.machine().events.len() == 0,
            r.machine().spent == 0,
            r.machine().frame == Seq::new((cfg.model.width() * cfg.model.height()) as nat, |i: int| pal(14)),
            r.snapshot() == Seq::new((cfg.model.width() * cfg.model.height()) as nat, |i: int| 0u32),
            !r.machine().mid_line && !r.machine().frame_complete,
            r.warp_flag() == cfg.warp,
            r.joystick_wiring() == cfg.joystick_port,
            r.disk_image() is None,
    {
        let r = C64::with_roms(cfg, &RomSet::empty());
        proof {
            let k = r.machine().bus.mem.kernal@;
            assert(k[0x1FFC] == 0xE2 && k[0x1FFD] == 0xFC);
            assert(word(0xE2, 0xFC) == 0xFCE2) by (bit_vector);
        }
        r
    }

    /// Build a new C64 from a [`Config`] and the ROMs the host found (any
    /// missing ROM is the built-in stub); the CPU is reset.
    pub fn with_roms(cfg: Config, roms: &RomSet) -> (r: Self)
        ensures
            r.wf(),
            r.model_of() == cfg.model,
            r.machine().bus.mem.kernal@ == (match roms.kernal {
                Some(k) => k@,
                None => Seq::new(ROM_8K as nat, |i: int| kernal_stub_byte(i)),
            }),
            r.machine().cpu == (Cpu {
                a: 0, x: 0, y: 0, sp: 0xFD,
                pc: word(r.machine().bus.mem.kernal@[0x1FFC], r.machine().bus.mem.kernal@[0x1FFD]),
                p: Flags::U | Flags::I, cycles: 0,
                irq_line: false, nmi_pending: false, prev_nmi: false, jam: false,
            }),
            powered_on_bus(r.machine().bus, cfg.model, *roms, cfg.extensions_enabled),
            r.machine().events.len() == 0,
            r.machine().spent == 0,
            r.machine().frame == Seq::new((cfg.model.width() * cfg.model.height()) as nat, |i: int| pal(14)),
            r.snapshot() == Seq::new((cfg.model.width() * cfg.model.height()) as nat, |i: int| 0u32),
            !r.machine().mid_line && !r.machine().frame_complete,
            r.warp_flag() == cfg.warp,
            r.joystick_wiring() == cfg.joystick_port,
            r.disk_image() is None,
    {
        let mut mem = Memory::new();
        mem.install_roms(roms);

        let mut vic = VicII::new(cfg.model);
        let mut frame: Vec<u32> = Vec::new();
        std::mem::swap(&mut frame, &mut vic.fb);
        let fb_snapshot: Vec<u32> = vec![0u32; (vic.width * vic.height) as usize];

        let bus = SystemBus {
            mem,
            vic,
            cia1: Cia::new(CiaIndex::Cia1),
            cia2: Cia::new(CiaIndex::Cia2),
            kb: KeyboardMatrix::new(),
            joy1: JoystickState::default(),
            joy2: JoystickState::default(),
            ext: Extensions::new(cfg.extensions_enabled),
            sid_write: None,
        };
        let mut c64 = C64 {
            cpu: Cpu::new(),
            bus,
            joy_port: cfg.joystick_port,
            disk: None,
            model: cfg.model,
            frame_complete: false,
            warp: cfg.warp,
            frame,
            fb_snapshot,
            sid_events: Vec::new(),
            spent: 0,
            mid_line: false,
        };
        proof {
            lemma_power_on_pla();
        }
        c64.reset();
        proof {
            assert(fb_snapshot@ =~= Seq::new((cfg.model.width() * cfg.model.height()) as nat, |i: int| 0u32));
        }
        c64
    }

    /// Hardware reset.
    pub fn reset(&mut self)
        requires
            old(self).wf(),
        ensures
            final(self).wf(),
            final(self).machine() == (Machine {
                cpu: reset_spec(old(self).machine().cpu, old(self).machine().bus).0,
                bus: reset_spec(old(self).machine().cpu, old(self).machine().bus).1,
                ..old(self).machine()
            }),
            final(self).snapshot() == old(self).snapshot(),
            final(self).model_of() == old(self).model_of(),
            final(self).disk_image() == old(self).disk_image(),
            final(self).warp_flag() == old(self).warp_flag(),
            final(self).joystick_wiring() == old(self).joystick_wiring(),
    {
        self.cpu.reset(&mut self.bus);
        proof {
            lemma_bus_ops_keep_layout_2(old(self).bus, 0xFFFC, 0xFFFD);
        }
    }
}


impl C64 {
    /// Width of the framebuffer returned by [`C64::framebuffer`].
    pub fn screen_width(&self) -> (r: u32)
        requires
            self.wf(),
        ensures
            r == self.model_of().width(),
    {
        self.bus.vic.width
    }

    /// Height of the framebuffer returned by [`C64::framebuffer`].
    pub fn screen_height(&self) -> (r: u32)
        requires
            self.wf(),
        ensures
            r == self.model_of().height(),
    {
        self.bus.vic.height
    }

    /// The hardware model.
    pub fn model(&self) -> (r: Model)
        ensures
            r == self.model_of(),
    {
        self.model
    }

    /// Warp-speed flag (frontend hint).
    pub fn warp(&self) -> (r: bool)
        ensures
            r == self.warp_flag(),
    {
        self.warp
    }

    /// Update the warp flag.
    pub fn set_warp(&mut self, w: bool)
        ensures
            final(self).warp_flag() == w,
            final(self).machine() == old(self).machine(),
            final(self).snapshot() == old(self).snapshot(),
            final(self).model_of() == old(self).model_of(),
            final(self).disk_image() == old(self).disk_image(),
            final(self).wf() == old(self).wf(),
    {
        self.warp = w;
    }

    /// Read-only access to the last complete frame.
    pub fn framebuffer(&self) -> (r: &[u32])
        ensures
            r@ == self.snapshot(),
    {
        self.fb_snapshot.as_slice()
    }

    /// Press a key.
    pub fn key_down(&mut self, k: C64Key)
        ensures
            ({
                let (c, row) = key_position(k);
                final(self).machine().bus.kb@
                    == old(self).machine().bus.kb@.update(row as int, old(self).machine().bus.kb@[row as int] | ((1u8 << c) as u8))
            }),
            final(self).machine() == (Machine {
                bus: SystemBus { kb: final(self).machine().bus.kb, ..old(self).machine().bus },
                ..old(self).machine()
            }),
            final(self).snapshot() == old(self).snapshot(),
            final(self).model_of() == old(self).model_of(),
            final(self).disk_image() == old(self).disk_image(),
            final(self).wf() == old(self).wf(),
    {
        self.bus.kb.press(k);
    }

    /// Release a key.
    pub fn key_up(&mut self, k: C64Key)
        ensures
            ({
                let (c, row) = key_position(k);
                final(self).machine().bus.kb@
                    == old(self).machine().bus.kb@.update(row as int, old(self).machine().bus.kb@[row as int] & !((1u8 << c) as u8))
            }),
            final(self).machine() == (Machine {
                bus: SystemBus { kb: final(self).machine().bus.kb, ..old(self).machine().bus },
                ..old(self).machine()
            }),
            final(self).snapshot() == old(self).snapshot(),
            final(self).model_of() == old(self).model_of(),
            final(self).disk_image() == old(self).disk_image(),
            final(self).wf() == old(self).wf(),
    {
        self.bus.kb.release(k);
    }

    /// Apply raw joystick direction/fire bits (bit 0=up, 1=down, 2=left, 3=right, 4=fire).
    pub fn joystick(&mut self, port: JoystickPort, bits: u8)
        ensures
            final(self).machine() == (Machine {
                bus: match port {
                    JoystickPort::Port1 => SystemBus { joy1: JoystickState { bits: bits & 0x1F }, ..old(self).machine().bus },
                    JoystickPort::Port2 => SystemBus { joy2: JoystickState { bits: bits & 0x1F }, ..old(self).machine().bus },
                },
                ..old(self).machine()
            }),
            final(self).snapshot() == old(self).snapshot(),
            final(self).model_of() == old(self).model_of(),
            final(self).disk_image() == old(self).disk_image(),
            final(self).wf() == old(self).wf(),
    {
        match port {
            JoystickPort::Port1 => { self.bus.joy1.bits = bits & 0x1F; },
            JoystickPort::Port2 => { self.bus.joy2.bits = bits & 0x1F; },
        }
    }

    /// Latch an NMI (the RESTORE key and CIA2 source both do this).
    pub fn trigger_nmi(&mut self)
        ensures
            final(self).machine() == (Machine {
                cpu: Cpu { nmi_pending: true, ..old(self).machine().cpu },
                ..old(self).machine()
            }),
            final(self).snapshot() == old(self).snapshot(),
            final(self).model_of() == old(self).model_of(),
            final(self).disk_image() == old(self).disk_image(),
            final(self).wf() == old(self).wf(),
    {
        self.cpu.trigger_nmi();
    }

    /// Load a PRG file, injecting its body into RAM and queuing an
    /// autostart `RUN` command when it loads at the BASIC start.
    pub fn load_prg(&mut self, bytes: &[u8]) -> (r: Result<(), StorageError>)
        ensures
            match prg_loaded(old(self).machine().bus.mem.ram@, bytes@) {
                None => (r matches Err(StorageError::TooShort)) && final(self).machine() == old(self).machine(),
                Some(ram) => r is Ok && final(self).machine().bus.mem.ram@ == ram && final(self).machine() == (Machine {
                    bus: SystemBus {
                        mem: Memory { ram: final(self).machine().bus.mem.ram, ..old(self).machine().bus.mem },
                        ..old(self).machine().bus
                    },
                    ..old(self).machine()
                }),
            },
            final(self).snapshot() == old(self).snapshot(),
            final(self).model_of() == old(self).model_of(),
            final(self).disk_image() == old(self).disk_image(),
            final(self).wf() == old(self).wf(),
    {
        let p = match parse(bytes) {
            Ok(p) => p,
            Err(e) => {
                return Err(e);
            },
        };
        inject(&mut self.bus.mem.ram, &p);
        if p.load_addr == 0x0801 {
            autostart(&mut self.bus.mem.ram);
        }
        Ok(())
    }

    /// Mount a D64 disk image (replaces the currently-mounted disk).
    pub fn insert_disk(&mut self, bytes: &[u8]) -> (r: Result<(), StorageError>)
        ensures
            bytes@.len() < d64_min_len() ==> (r matches Err(StorageError::TooShort))
                && final(self).disk_image() == old(self).disk_image(),
            bytes@.len() >= d64_min_len() ==> r is Ok && final(self).disk_image() == Some(bytes@),
            final(self).machine() == old(self).machine(),
            final(self).snapshot() == old(self).snapshot(),
            final(self).model_of() == old(self).model_of(),
            final(self).wf() == old(self).wf(),
    {
        match D64::new(bytes) {
            Ok(_) => {},
            Err(e) => {
                return Err(e);
            },
        }
        self.disk = Some(vstd::slice::slice_to_vec(bytes));
        Ok(())
    }

    /// Load any supported media, dispatching by kind: a PRG is loaded, a
    /// D64 mounted, the first program of a T64 loaded; tape pulse streams
    /// and cartridges are refused.
    pub fn load_media(&mut self, bytes: &[u8], kind: MediaKind) -> (r: Result<(), StorageError>)
        ensures
            kind == MediaKind::Prg ==> match prg_loaded(old(self).machine().bus.mem.ram@, bytes@) {
                None => r matches Err(StorageError::TooShort),
                Some(ram) => r is Ok && final(self).machine().bus.mem.ram@ == ram,
            },
            kind == MediaKind::D64 ==> (bytes@.len() < d64_min_len() ==> (r matches Err(StorageError::TooShort)))
                && (bytes@.len() >= d64_min_len() ==> r is Ok && final(self).disk_image() == Some(bytes@)),
            kind == MediaKind::T64 ==> {
                ||| (bytes@.len() < 64 && (r matches Err(StorageError::TooShort)))
                ||| (bytes@.len() >= 64 && !t64_magic(bytes@) && (r matches Err(StorageError::BadMagic)))
                ||| (bytes@.len() >= 64 && t64_magic(bytes@) && t64_first_program(bytes@) is None
                    && (r matches Err(StorageError::TooShort)))
                ||| (bytes@.len() >= 64 && t64_magic(bytes@) && t64_first_program(bytes@) is Some && r is Ok
                    && prg_loaded(old(self).machine().bus.mem.ram@, t64_first_program(bytes@).unwrap())
                        == Some(final(self).machine().bus.mem.ram@))
            },
            kind == MediaKind::Tap ==> (r matches Err(StorageError::Unsupported(w)) && w@ == "TAP tape images"@),
            kind == MediaKind::Crt ==> (r matches Err(StorageError::Unsupported(w)) && w@ == "CRT cartridges"@),
            r is Err ==> final(self).machine() == old(self).machine() && final(self).disk_image() == old(self).disk_image(),
            r is Ok && kind != MediaKind::D64 ==> final(self).machine() == (Machine {
                bus: SystemBus {
                    mem: Memory { ram: final(self).machine().bus.mem.ram, ..old(self).machine().bus.mem },
                    ..old(self).machine().bus
                },
                ..old(self).machine()
            }) && final(self).disk_image() == old(self).disk_image(),
            kind == MediaKind::D64 ==> final(self).machine() == old(self).machine(),
            final(self).snapshot() == old(self).snapshot(),
            final(self).model_of() == old(self).model_of(),
            final(self).wf() == old(self).wf(),
    {
        match kind {
            MediaKind::Prg => self.load_prg(bytes),
            MediaKind::D64 => self.insert_disk(bytes),
            MediaKind::T64 => {
                let t = match T64::new(bytes) {
                    Ok(t) => t,
                    Err(e) => {
                        return Err(e);
                    },
                };
                proof {
                    t.lemma_first_program(bytes@);
                }
                let blob = match t.extract(0) {
                    Some(b) => b,
                    None => {
                        return Err(StorageError::TooShort);
                    },
                };
                self.load_prg(blob.as_slice())
            },
            MediaKind::Tap => Err(StorageError::Unsupported("TAP tape images")),
            MediaKind::Crt => Err(StorageError::Unsupported("CRT cartridges")),
        }
    }

    /// Whether the mounted disk's directory chain can be walked (it names
    /// only tracks of the disk layout); always so with no disk.
    pub fn disk_directory_walkable(&self) -> (r: bool)
        ensures
            r == (match self.disk_image() {
                Some(d) => d.len() < d64_min_len() || dir_chain_ok(d, 18, 1, 32),
                None => true,
            }),
    {
        match &self.disk {
            None => true,
            Some(bytes) => match D64::new(bytes.as_slice()) {
                Ok(d) => d.directory_walkable(),
                Err(_) => true,
            },
        }
    }

    /// List files on the mounted disk (empty if none): each name up to its
    /// $A0 padding, decoded as `String::from_utf8_lossy` decodes it.
    pub fn disk_directory(&self) -> (r: Vec<String>)
        requires
            match self.disk_image() {
                Some(d) => d.len() < d64_min_len() || dir_chain_ok(d, 18, 1, 32),
                None => true,
            },
        ensures
            match self.disk_image() {
                None => r@.len() == 0,
                Some(d) => if d.len() < d64_min_len() {
                    r@.len() == 0
                } else {
                    let offs = dir_listing(d, 18, 1, 32);
                    &&& r@.len() == offs.len()
                    &&& forall|k: int| 0 <= k < offs.len() ==> (#[trigger] r@[k])@ == utf8_lossy(entry_name(d, offs[k]))
                    &&& forall|k: int| 0 <= k < offs.len()
                        ==> ((forall|i: int| 0 <= i < entry_name(d, offs[k]).len() ==> entry_name(d, offs[k])[i] < 0x80)
                            ==> (#[trigger] r@[k])@ == ascii_text(entry_name(d, offs[k])))
                },
            },
    {
        let bytes = match &self.disk {
            Some(b) => b,
            None => {
                return Vec::new();
            },
        };
        let d = match D64::new(bytes.as_slice()) {
            Ok(d) => d,
            Err(_) => {
                return Vec::new();
            },
        };
        let ghost img = bytes@;
        let dir = d.directory();
        let ghost offs = dir_listing(img, 18, 1, 32);
        let mut out: Vec<String> = Vec::new();
        let mut k: usize = 0;
        while k < dir.len()
            invariant
                k <= dir@.len(),
                d64_directory(img, dir@),
                offs == dir_listing(img, 18, 1, 32),
                out@.len() == k,
                forall|j: int| 0 <= j < k ==> (#[trigger] out@[j])@ == utf8_lossy(entry_name(img, offs[j])),
                forall|j: int| 0 <= j < k ==> ((forall|i: int| 0 <= i < entry_name(img, offs[j]).len()
                    ==> entry_name(img, offs[j])[i] < 0x80) ==> (#[trigger] out@[j])@ == ascii_text(entry_name(img, offs[j]))),
            decreases dir@.len() - k,
        {
            let e = dir[k];
            let mut trim: usize = 0;
            let ghost nm = img.subrange(offs[k as int] + 5, offs[k as int] + 21);
            assert(e.name@ == nm);
            while trim < 16 && e.name[trim] != 0xA0
                invariant
                    trim <= 16,
                    e.name@ == nm,
                    nm.len() == 16,
                    name_end(nm, 0) == name_end(nm, trim as int),
                decreases 16 - trim,
            {
                trim += 1;
            }
            let name = vstd::slice::slice_subrange(e.name.as_slice(), 0, trim);
            assert(name@ == entry_name(img, offs[k as int]));
            out.push(lossy_text(name));
            k += 1;
        }
        out
    }

    /// Hand the SID events of the frames run so far to the host (its
    /// synthesiser replays them); none are kept.
    pub fn take_sid_events(&mut self) -> (r: Vec<SidEvent>)
        ensures
            r@ == old(self).machine().events,
            final(self).machine() == (Machine { events: Seq::empty(), ..old(self).machine() }),
            final(self).snapshot() == old(self).snapshot(),
            final(self).model_of() == old(self).model_of(),
            final(self).disk_image() == old(self).disk_image(),
            final(self).wf() == old(self).wf(),
    {
        let mut out: Vec<SidEvent> = Vec::new();
        std::mem::swap(&mut out, &mut self.sid_events);
        out
    }

    /// The sine/cosine request waiting for the host, if any.
    pub fn pending_trig(&self) -> (r: Option<TrigRequest>)
        ensures
            r == self.machine().bus.ext.compute.trig,
    {
        self.bus.ext.compute.trig
    }

    /// Give the compute unit the host's answer to its sine/cosine request.
    pub fn finish_trig(&mut self, value: u32)
        ensures
            final(self).machine() == (Machine {
                bus: SystemBus {
                    ext: Extensions {
                        compute: Compute { result: value, trig: None, ..old(self).machine().bus.ext.compute },
                        ..old(self).machine().bus.ext
                    },
                    ..old(self).machine().bus
                },
                ..old(self).machine()
            }),
            final(self).snapshot() == old(self).snapshot(),
            final(self).model_of() == old(self).model_of(),
            final(self).disk_image() == old(self).disk_image(),
            final(self).wf() == old(self).wf(),
    {
        self.bus.ext.compute.finish_trig(value);
    }
}


impl C64 {
    /// Emulate until the current video frame is complete, or until the
    /// program asks the compute unit for a sine or cosine (the host computes
    /// it, hands it over with [`C64::finish_trig`], and calls again to go on
    /// with the same frame). On completion the frame becomes the one
    /// [`C64::framebuffer`] returns.
    pub fn run_frame(&mut self) -> (r: FrameEnd)
        requires
            old(self).wf(),
        ensures
            final(self).wf(),
            runs_to_stop(
                Machine { frame_complete: false, ..old(self).machine() },
                old(self).model_of().line_cycles(),
                final(self).machine(),
            ),
            r == (if final(self).machine().frame_complete {
                FrameEnd::Complete
            } else {
                FrameEnd::Trig(final(self).machine().bus.ext.compute.trig.unwrap())
            }),
            final(self).snapshot() == (if final(self).machine().frame_complete {
                final(self).machine().frame
            } else {
                old(self).snapshot()
            }),
            final(self).model_of() == old(self).model_of(),
            final(self).disk_image() == old(self).disk_image(),
            final(self).warp_flag() == old(self).warp_flag(),
            final(self).joystick_wiring() == old(self).joystick_wiring(),
    {
        let cycles_per_line = self.model.cycles_per_line();
        self.frame_complete = false;
        let ghost start = self.machine();
        let ghost mut n: nat = 0;
        while !self.frame_complete
            invariant
                self.wf(),
                cycles_per_line == self.model.line_cycles(),
                self.machine() == loop_after(start, cycles_per_line, n),
                forall|k: nat| k < n ==> !halted(#[trigger] loop_after(start, cycles_per_line, k), cycles_per_line),
                self.model == old(self).model,
                self.disk == old(self).disk,
                self.warp == old(self).warp,
                self.joy_port == old(self).joy_port,
                self.fb_snapshot == old(self).fb_snapshot,
                start == (Machine { frame_complete: false, ..old(self).machine() }),
            decreases
                (if self.frame_complete { 0int } else { 1int }),
                self.model.lines() - self.bus.vic.raster_y,
                (if self.mid_line { 0int } else { 1int }),
                self.model.line_cycles() + 8 - self.spent,
        {
            if self.mid_line && self.spent < cycles_per_line && self.bus.ext.compute.trig.is_some() {
                let req = self.bus.ext.compute.trig.unwrap();
                proof {
                    lemma_runs_to_stop(start, cycles_per_line, n, self.machine());
                }
                return FrameEnd::Trig(req);
            }
            let ghost before = self.machine();
            if !self.mid_line {
                self.begin_line();
            } else if self.spent < cycles_per_line {
                self.run_instruction(cycles_per_line);
            } else {
                self.finish_line(cycles_per_line);
            }
            proof {
                assert(!halted(before, cycles_per_line));
                assert(loop_after(start, cycles_per_line, n + 1) == loop_step(before, cycles_per_line));
                n = n + 1;
            }
        }
        self.fb_snapshot = self.frame.clone();
        proof {
            assert(self.fb_snapshot@ =~= self.frame@);
            lemma_runs_to_stop(start, cycles_per_line, n, self.machine());
        }
        FrameEnd::Complete
    }

    /// Start a scanline: the CPU's IRQ line follows the VIC-II and CIA1, a
    /// pending CIA2 interrupt becomes an NMI.
    fn begin_line(&mut self)
        requires
            old(self).wf(),
            !old(self).mid_line,
        ensures
            final(self).wf(),
            final(self).machine() == line_begin(old(self).machine()),
            final(self).bus.vic.raster_y == old(self).bus.vic.raster_y,
            final(self).mid_line,
            final(self).frame_complete == old(self).frame_complete,
            final(self).model == old(self).model,
            final(self).disk == old(self).disk,
            final(self).warp == old(self).warp,
            final(self).joy_port == old(self).joy_port,
            final(self).fb_snapshot == old(self).fb_snapshot,
    {
        reveal(line_begin);
        self.cpu.set_irq(self.bus.vic.irq_line || self.bus.cia1.irq_line);
        if self.bus.cia2.irq_line {
            self.cpu.trigger_nmi();
            self.bus.cia2.irq_line = false;
        }
        self.spent = 0;
        self.mid_line = true;
    }

    /// Run one CPU instruction within the current line.
    fn run_instruction(&mut self, cycles_per_line: u32)
        requires
            old(self).wf(),
            old(self).mid_line,
            old(self).spent < cycles_per_line,
            cycles_per_line == old(self).model.line_cycles(),
        ensures
            final(self).wf(),
            final(self).machine() == cpu_turn(old(self).machine()),
            final(self).bus.vic.raster_y == old(self).bus.vic.raster_y,
            final(self).spent > old(self).spent,
            final(self).mid_line,
            final(self).frame_complete == old(self).frame_complete,
            final(self).model == old(self).model,
            final(self).disk == old(self).disk,
            final(self).warp == old(self).warp,
            final(self).joy_port == old(self).joy_port,
            final(self).fb_snapshot == old(self).fb_snapshot,
    {
        reveal(cpu_turn);
        proof {
            lemma_step_keeps_layout(self.cpu, self.bus);
            if self.cpu.jam {
                crate::cpu::laws::law_jammed_step_is_idle(self.cpu, self.bus);
            } else {
                crate::cpu::laws::law_step_cycles_bounded(self.cpu, self.bus);
            }
        }
        let c = self.cpu.step(&mut self.bus);
        let c = if c < 1 { 1 } else { c };
        self.spent = self.spent + c as u32;
        match self.bus.sid_write.take() {
            Some(w) => {
                self.sid_events.push(SidEvent::Write { addr: w.0, val: w.1 });
            },
            None => {},
        }
    }

    /// Finish a scanline: the VIC-II bank follows CIA2, the VIC-II draws the
    /// line, the SID is clocked, both CIAs tick.
    fn finish_line(&mut self, cycles_per_line: u32)
        requires
            old(self).wf(),
            old(self).mid_line,
            !old(self).frame_complete,
            cycles_per_line == old(self).model.line_cycles(),
        ensures
            final(self).wf(),
            final(self).machine() == line_finish(old(self).machine(), cycles_per_line),
            final(self).frame_complete || final(self).bus.vic.raster_y == old(self).bus.vic.raster_y + 1,
            final(self).model == old(self).model,
            final(self).disk == old(self).disk,
            final(self).warp == old(self).warp,
            final(self).joy_port == old(self).joy_port,
            final(self).fb_snapshot == old(self).fb_snapshot,
    {
        reveal(line_finish);
        self.bus.mem.vic_bank_base = (self.bus.cia2.vic_bank_sel as u16) * 0x4000;
        let ghost vic_before = self.bus.vic;
        let ghost mem = self.bus.mem;
        std::mem::swap(&mut self.frame, &mut self.bus.vic.fb);
        let ghost vic_drawing = self.bus.vic;
        self.bus.vic.step_line(&self.bus.mem);
        std::mem::swap(&mut self.frame, &mut self.bus.vic.fb);
        proof {
            lemma_line_ignores_fb(vic_drawing, vic_before, mem, vic_drawing.fb@);
            lemma_after_line_keeps_fb(vic_before, mem);
            assert(self.bus.vic == (VicII { frame_done: self.bus.vic.frame_done, ..after_line(vic_before, mem) }));
            assert(self.frame@ == fb_after_line(vic_before, mem, old(self).frame@));
        }
        self.sid_events.push(SidEvent::Clock { cycles: cycles_per_line });
        self.bus.cia1.tick(cycles_per_line);
        self.bus.cia2.tick(cycles_per_line);
        self.mid_line = false;
        let done = self.bus.vic.frame_done;
        if done {
            self.bus.vic.frame_done = false;
            self.frame_complete = true;
        }
        proof {
            let st = old(self).machine();
            assert(mem == Memory { vic_bank_base: (st.bus.cia2.vic_bank_sel * 0x4000) as u16, ..st.bus.mem });
            assert(self.bus.mem == mem);
            assert(self.bus.cia1 == cia_after_tick(st.bus.cia1, cycles_per_line));
            assert(self.bus.cia2 == cia_after_tick(st.bus.cia2, cycles_per_line));
            assert(self.sid_events@ == st.events.push(SidEvent::Clock { cycles: cycles_per_line }));
            assert(self.frame_complete == after_line(vic_before, mem).frame_done);
            assert(self.bus.vic == (VicII { frame_done: false, ..after_line(vic_before, mem) }));
        }
    }
}

} // verus!
