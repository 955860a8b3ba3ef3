//! CIA 6526 implementation.

use vstd::prelude::*;
use super::joystick::{joystick_port_value, JoystickState};
use super::keyboard::{port_b_rows, KeyboardMatrix};

verus! {

/// Distinguishes the two CIA instances (they differ in IRQ/NMI routing).
#[derive(Copy, Clone, Debug, PartialEq, Eq, Structural)]
pub enum CiaIndex {
    /// CIA1 at $DC00 — drives IRQ, reads keyboard.
    Cia1,
    /// CIA2 at $DD00 — drives NMI, drives VIC bank bits.
    Cia2,
}

/// 16-bit timer.
#[derive(Copy, Clone, Debug)]
pub struct Timer {
    /// Down-counter value.
    pub counter: u16,
    /// Reload latch.
    pub latch: u16,
    /// Control register bits.
    pub cr: u8,
    /// Running flag (derived from CR bit 0).
    pub running: bool,
}

/// A timer after `cycles` cycles, and whether it underflowed: a stopped
/// timer does not move; a running one that reaches below zero reloads from
/// its latch (and stops in one-shot mode, CR bit 3); otherwise it counts
/// down by `cycles`.
pub open spec fn timer_after(t: Timer, cycles: u32) -> (Timer, bool) {
    if !t.running {
        (t, false)
    } else if cycles >= t.counter + 1 {
        (Timer { counter: t.latch, running: t.cr & 0x08 == 0, ..t }, true)
    } else {
        (Timer { counter: (t.counter - cycles) as u16, ..t }, false)
    }
}

/// A timer after its control register is written with `v`: bit 4 forces a
/// reload from the latch, bit 0 starts or stops it.
pub open spec fn timer_with_cr(t: Timer, v: u8) -> Timer {
    Timer {
        counter: if v & 0x10 != 0 { t.latch } else { t.counter },
        running: v & 0x01 != 0,
        cr: v,
        ..t
    }
}

impl Timer {
    /// Advance by `cycles`; returns whether the timer underflowed.
    pub fn tick(&mut self, cycles: u32) -> (underflow: bool)
        ensures
            (*final(self), underflow) == timer_after(*old(self), cycles),
    {
        if !self.running {
            return false;
        }
        let mut underflow = false;
        if cycles as u64 >= self.counter as u64 + 1 {
            underflow = true;
            self.counter = self.latch;
            if self.cr & 0x08 != 0 {
                self.running = false;
            }
        } else {
            self.counter -= cycles as u16;
        }
        underflow
    }

    /// Write the control register.
    pub fn write_cr(&mut self, v: u8)
        ensures
            *final(self) == timer_with_cr(*old(self), v),
    {
        if v & 0x10 != 0 {
            self.counter = self.latch;
        }
        self.running = v & 0x01 != 0;
        self.cr = v;
    }
}

impl Default for Timer {
    /// A stopped timer with everything zero.
    fn default() -> (r: Self)
        ensures
            r == (Timer { counter: 0, latch: 0, cr: 0, running: false }),
    {
        Timer { counter: 0, latch: 0, cr: 0, running: false }
    }
}

/// CIA state.
pub struct Cia {
    /// Which CIA this is.
    pub index: CiaIndex,
    /// Data Port A register.
    pub pra: u8,
    /// Data Port B register.
    pub prb: u8,
    /// Data Direction A.
    pub ddra: u8,
    /// Data Direction B.
    pub ddrb: u8,
    /// Timer A.
    pub ta: Timer,
    /// Timer B.
    pub tb: Timer,
    /// Interrupt Control Register (source bits).
    pub icr: u8,
    /// Interrupt mask.
    pub imask: u8,
    /// Current IRQ/NMI line state.
    pub irq_line: bool,
    /// CIA2 low 2 bits of PA select VIC bank (inverted).
    pub vic_bank_sel: u8,
}

/// The value a port register reads: output bits from the data register,
/// input bits (direction 0) high.
pub open spec fn port_read(data: u8, ddr: u8) -> u8 {
    (data & ddr) | (!ddr & 0xFF)
}

/// A register read: the CIA afterwards and the byte read. `rows` are the
/// keyboard rows, `joy` the joystick bits. Reading ICR ($0D) clears the
/// sources and releases the interrupt line.
pub open spec fn cia_read(c: Cia, reg: u8, rows: Seq<u8>, joy: u8) -> (Cia, u8) {
    let r = reg & 0x0F;
    if r == 0x00 {
        if c.index == CiaIndex::Cia1 {
            (c, (c.pra | !c.ddra) & joystick_port_value(joy))
        } else {
            (c, port_read(c.pra, c.ddra))
        }
    } else if r == 0x01 {
        if c.index == CiaIndex::Cia1 {
            (c, port_b_rows(rows, !((c.pra & c.ddra) | !c.ddra), 8))
        } else {
            (c, port_read(c.prb, c.ddrb))
        }
    } else if r == 0x02 {
        (c, c.ddra)
    } else if r == 0x03 {
        (c, c.ddrb)
    } else if r == 0x04 {
        (c, c.ta.counter as u8)
    } else if r == 0x05 {
        (c, (c.ta.counter >> 8) as u8)
    } else if r == 0x06 {
        (c, c.tb.counter as u8)
    } else if r == 0x07 {
        (c, (c.tb.counter >> 8) as u8)
    } else if r == 0x0D {
        (Cia { icr: 0, irq_line: false, ..c }, c.icr | (if c.icr & 0x1F != 0 { 0x80u8 } else { 0u8 }))
    } else if r == 0x0E {
        (c, c.ta.cr)
    } else if r == 0x0F {
        (c, c.tb.cr)
    } else {
        (c, 0)
    }
}

/// A register write.
pub open spec fn cia_write(c: Cia, reg: u8, v: u8) -> Cia {
    let r = reg & 0x0F;
    if r == 0x00 {
        if c.index == CiaIndex::Cia2 {
            Cia { pra: v, vic_bank_sel: !v & 0x03, ..c }
        } else {
            Cia { pra: v, ..c }
        }
    } else if r == 0x01 {
        Cia { prb: v, ..c }
    } else if r == 0x02 {
        Cia { ddra: v, ..c }
    } else if r == 0x03 {
        Cia { ddrb: v, ..c }
    } else if r == 0x04 {
        Cia { ta: Timer { latch: (c.ta.latch & 0xFF00) | v as u16, ..c.ta }, ..c }
    } else if r == 0x05 {
        Cia { ta: Timer { latch: (c.ta.latch & 0x00FF) | ((v as u16) << 8), ..c.ta }, ..c }
    } else if r == 0x06 {
        Cia { tb: Timer { latch: (c.tb.latch & 0xFF00) | v as u16, ..c.tb }, ..c }
    } else if r == 0x07 {
        Cia { tb: Timer { latch: (c.tb.latch & 0x00FF) | ((v as u16) << 8), ..c.tb }, ..c }
    } else if r == 0x0D {
        if v & 0x80 != 0 {
            Cia { imask: c.imask | (v & 0x1F), ..c }
        } else {
            Cia { imask: c.imask & !(v & 0x1F), ..c }
        }
    } else if r == 0x0E {
        Cia { ta: timer_with_cr(c.ta, v), ..c }
    } else if r == 0x0F {
        Cia { tb: timer_with_cr(c.tb, v), ..c }
    } else {
        c
    }
}

/// Both timers advanced by `cycles`; an underflow of timer A sets ICR bit 0,
/// of timer B bit 1; an enabled source sets bit 7 and asserts the line.
pub open spec fn cia_after_tick(c: Cia, cycles: u32) -> Cia {
    let (ta, ua) = timer_after(c.ta, cycles);
    let (tb, ub) = timer_after(c.tb, cycles);
    let icr1 = if ua { c.icr | 0x01 } else { c.icr };
    let icr2 = if ub { icr1 | 0x02 } else { icr1 };
    if icr2 & c.imask & 0x1F != 0 {
        Cia { ta: ta, tb: tb, icr: icr2 | 0x80, irq_line: true, ..c }
    } else {
        Cia { ta: ta, tb: tb, icr: icr2, ..c }
    }
}

/// A CIA as it powers on: ports read $FF with all lines inputs, both
/// timers stopped and cleared, no interrupt source or mask, and (on CIA2)
/// VIC-II bank selection 3.
pub open spec fn cia_power_on(index: CiaIndex) -> Cia {
    Cia {
        index: index, pra: 0xFF, prb: 0xFF, ddra: 0, ddrb: 0,
        ta: Timer { counter: 0, latch: 0, cr: 0, running: false },
        tb: Timer { counter: 0, latch: 0, cr: 0, running: false },
        icr: 0, imask: 0, irq_line: false, vic_bank_sel: 3,
    }
}

impl Cia {
    /// Create a fresh CIA.
    pub fn new(index: CiaIndex) -> (r: Self)
        ensures
            r == cia_power_on(index),
    {
        Cia {
            index,
            pra: 0xFF,
            prb: 0xFF,
            ddra: 0,
            ddrb: 0,
            ta: Timer::default(),
            tb: Timer::default(),
            icr: 0,
            imask: 0,
            irq_line: false,
            vic_bank_sel: 3,
        }
    }

    /// Read a register ($Dx00-$Dx0F).
    pub fn read(&mut self, reg: u8, kb: &KeyboardMatrix, joy: &JoystickState) -> (r: u8)
        ensures
            (*final(self), r) == cia_read(*old(self), reg, kb@, joy.bits),
    {
        let r = reg & 0x0F;
        if r == 0x00 {
            if self.index == CiaIndex::Cia1 {
                let joy_mask = joy.as_port();
                (self.pra | !self.ddra) & joy_mask
            } else {
                (self.pra & self.ddra) | (!self.ddra & 0xFF)
            }
        } else if r == 0x01 {
            if self.index == CiaIndex::Cia1 {
                let col_select = (self.pra & self.ddra) | (!self.ddra);
                kb.read_pb(col_select)
            } else {
                (self.prb & self.ddrb) | (!self.ddrb & 0xFF)
            }
        } else if r == 0x02 {
            self.ddra
        } else if r == 0x03 {
            self.ddrb
        } else if r == 0x04 {
            self.ta.counter as u8
        } else if r == 0x05 {
            (self.ta.counter >> 8) as u8
        } else if r == 0x06 {
            self.tb.counter as u8
        } else if r == 0x07 {
            (self.tb.counter >> 8) as u8
        } else if r == 0x0D {
            // Reading ICR latches-and-clears the source bits.
            let v = self.icr;
            self.icr = 0;
            self.irq_line = false;
            v | (if v & 0x1F != 0 { 0x80 } else { 0 })
        } else if r == 0x0E {
            self.ta.cr
        } else if r == 0x0F {
            self.tb.cr
        } else {
            0
        }
    }

    /// Write a register.
    pub fn write(&mut self, reg: u8, v: u8)
        ensures
            *final(self) == cia_write(*old(self), reg, v),
    {
        let r = reg & 0x0F;
        if r == 0x00 {
            self.pra = v;
            if self.index == CiaIndex::Cia2 {
                self.vic_bank_sel = (!v) & 0x03;
            }
        } else if r == 0x01 {
            self.prb = v;
        } else if r == 0x02 {
            self.ddra = v;
        } else if r == 0x03 {
            self.ddrb = v;
        } else if r == 0x04 {
            self.ta.latch = (self.ta.latch & 0xFF00) | v as u16;
        } else if r == 0x05 {
            self.ta.latch = (self.ta.latch & 0x00FF) | ((v as u16) << 8);
        } else if r == 0x06 {
            self.tb.latch = (self.tb.latch & 0xFF00) | v as u16;
        } else if r == 0x07 {
            self.tb.latch = (self.tb.latch & 0x00FF) | ((v as u16) << 8);
        } else if r == 0x0D {
            // Interrupt mask: bit 7 = set/clear, bits 0-4 = source bits.
            if v & 0x80 != 0 {
                self.imask = self.imask | (v & 0x1F);
            } else {
                self.imask = self.imask & !(v & 0x1F);
            }
        } else if r == 0x0E {
            self.ta.write_cr(v);
        } else if r == 0x0F {
            self.tb.write_cr(v);
        }
    }

    /// Tick both timers by `cycles` CPU cycles.
    pub fn tick(&mut self, cycles: u32)
        ensures
            *final(self) == cia_after_tick(*old(self), cycles),
    {
        if self.ta.tick(cycles) {
            self.icr = self.icr | 0x01;
        }
        if self.tb.tick(cycles) {
            self.icr = self.icr | 0x02;
        }
        if self.icr & self.imask & 0x1F != 0 {
            self.icr = self.icr | 0x80;
            self.irq_line = true;
        }
    }
}

/// Reading ICR acknowledges the interrupt: the sources are cleared and the
/// line released, so a second read gives 0 and a tick without an underflow
/// does not assert the line again.
pub proof fn law_icr_read_acknowledges(c: Cia, rows: Seq<u8>, joy: u8)
    ensures
        ({
            let (c1, _) = cia_read(c, 0x0D, rows, joy);
            let (c2, v2) = cia_read(c1, 0x0D, rows, joy);
            &&& !c1.irq_line
            &&& c1.icr == 0
            &&& v2 == 0
        }),
{
    assert(0x0Du8 & 0x0F == 0x0D && 0u8 & 0x1F == 0 && (0u8 | 0u8) == 0) by (bit_vector);
}

/// A running timer with its latch loaded underflows after counter + 1
/// cycles, reloads from the latch and reports it; in one-shot mode it then
/// stops.
pub proof fn law_timer_underflow_reloads(t: Timer)
    requires
        t.running,
    ensures
        ({
            let (t1, u) = timer_after(t, (t.counter + 1) as u32);
            &&& u
            &&& t1.counter == t.latch
            &&& t1.running == (t.cr & 0x08 == 0)
        }),
        ({
            let (t1, u) = timer_after(t, t.counter as u32);
            &&& !u
            &&& t1.counter == 0
        }),
{
}

/// Writing $Dx0D with bit 7 set enables the given sources, with bit 7 clear
/// disables them; the other sources keep their setting.
pub proof fn law_interrupt_mask_set_clear(c: Cia, v: u8)
    ensures
        cia_write(c, 0x0D, v | 0x80).imask == c.imask | (v & 0x1F),
        cia_write(c, 0x0D, v & 0x7F).imask == c.imask & !(v & 0x1F),
{
    assert(0x0Du8 & 0x0F == 0x0D && (v | 0x80) & 0x80 != 0 && (v | 0x80) & 0x1F == v & 0x1F
        && (v & 0x7F) & 0x80 == 0 && (v & 0x7F) & 0x1F == v & 0x1F) by (bit_vector);
}

} // verus!
