//! The programmable timer: a free-running 16-bit divider whose high byte
//! is the visible DIV register, and a TIMA counter that ticks once per
//! TAC-selected period and requests an interrupt when it overflows.

use vstd::prelude::*;
use vstd::arithmetic::div_mod::lemma_fundamental_div_mod_converse;

verus! {

/// The four TIMA tick rates TAC can select, named by ticks per second.
#[derive(Clone, Copy, PartialEq, Eq, Structural, Debug)]
pub enum Frequency {
    F4096,
    F16384,
    F262144,
    F65536,
}

/// True when TAC bit 2, the TIMA enable, is set.
pub open spec fn spec_timer_enabled(tac: u8) -> bool {
    (tac / 4) % 2 == 1
}

/// The TIMA period in machine cycles that the low two TAC bits select.
pub open spec fn spec_period(tac: u8) -> int {
    if tac % 4 == 0 {
        1024
    } else if tac % 4 == 1 {
        16
    } else if tac % 4 == 2 {
        64
    } else {
        256
    }
}

/// One TIMA tick: the counter increments, and on overflow reloads from TMA.
pub open spec fn spec_tima_tick(tima: u8, tma: u8) -> u8 {
    if tima == 0xFF {
        tma
    } else {
        (tima + 1) as u8
    }
}

/// The TIMA counter after `k` ticks.
pub open spec fn spec_tima_after(tima: u8, tma: u8, k: int) -> u8
    decreases k,
{
    if k <= 0 {
        tima
    } else {
        spec_tima_after(spec_tima_tick(tima, tma), tma, k - 1)
    }
}

/// True when some of the `k` ticks overflows TIMA, which is what requests
/// the timer interrupt.
pub open spec fn spec_tima_fired(tima: u8, tma: u8, k: int) -> bool
    decreases k,
{
    k > 0 && (tima == 0xFF || spec_tima_fired(spec_tima_tick(tima, tma), tma, k - 1))
}

/// A 16-bit add that wraps around.
pub open spec fn wadd16(x: u16, y: u16) -> u16 {
    if x + y > 0xFFFF {
        (x + y - 0x10000) as u16
    } else {
        (x + y) as u16
    }
}

/// A 16-bit subtract that wraps around.
pub open spec fn wsub16(x: u16, y: u16) -> u16 {
    if x - y < 0 {
        (x - y + 0x10000) as u16
    } else {
        (x - y) as u16
    }
}

/// Peeling the last of `k + 1` ticks off the recursive tick counters.
proof fn lemma_tick_snoc(tima: u8, tma: u8, k: int)
    requires
        k >= 0,
    ensures
        spec_tima_after(tima, tma, k + 1) == spec_tima_tick(spec_tima_after(tima, tma, k), tma),
        spec_tima_fired(tima, tma, k + 1) == (spec_tima_fired(tima, tma, k) || spec_tima_after(
            tima,
            tma,
            k,
        ) == 0xFF),
    decreases k,
{
    let t1 = spec_tima_tick(tima, tma);
    assert(spec_tima_after(tima, tma, k + 1) == spec_tima_after(t1, tma, k));
    assert(spec_tima_fired(tima, tma, k + 1) == (tima == 0xFF || spec_tima_fired(t1, tma, k)));
    if k == 0 {
        assert(spec_tima_after(t1, tma, 0) == t1);
        assert(spec_tima_after(tima, tma, 0) == tima);
        assert(!spec_tima_fired(t1, tma, 0));
        assert(!spec_tima_fired(tima, tma, 0));
    } else {
        lemma_tick_snoc(t1, tma, k - 1);
        assert(spec_tima_after(tima, tma, k) == spec_tima_after(t1, tma, k - 1));
        assert(spec_tima_fired(tima, tma, k) == (tima == 0xFF || spec_tima_fired(t1, tma, k - 1)));
    }
}

impl Frequency {
    /// The TIMA period in machine cycles at this rate.
    fn cycles_per_tick(&self) -> (r: usize)
        ensures
            r == match self {
                Frequency::F4096 => 1024int,
                Frequency::F16384 => 256int,
                Frequency::F262144 => 16int,
                Frequency::F65536 => 64int,
            },
    {
        match self {
            Frequency::F4096 => 1024,
            Frequency::F16384 => 256,
            Frequency::F262144 => 16,
            Frequency::F65536 => 64,
        }
    }
}

/// The timer registers: the 16-bit divider (DIV reads its high byte), the
/// TIMA counter, its reload value TMA, the control byte TAC, and the
/// accumulator of machine cycles not yet turned into TIMA ticks.
pub struct Timer {
    pub div: u16,
    pub tima: u8,
    pub tma: u8,
    pub tac: u8,
    pub cycles: usize,
}

impl Timer {
    /// The cycle accumulator never reaches the largest selectable period.
    pub open spec fn wf(self) -> bool {
        self.cycles < 1024
    }

    /// The post-boot reset state: the divider starts at 0xAC00, so DIV
    /// reads 0xAC.
    pub fn new() -> (r: Timer)
        ensures
            r == (Timer { div: 0xAC00, tima: 0, tma: 0, tac: 0, cycles: 0 }),
            r.wf(),
    {
        Timer { div: 0xAC00, tima: 0, tma: 0, tac: 0, cycles: 0 }
    }

    /// Rewinds the divider to its post-boot value.
    pub fn timer_init(&mut self)
        ensures
            *final(self) == (Timer { div: 0xAC00, ..*old(self) }),
    {
        self.div = 0xAC00;
    }

    /// Advances the timer by `cpu_cycles` machine cycles: the divider
    /// always moves by exactly that amount (16-bit wrap); when TAC enables
    /// it, the accumulator turns whole periods into TIMA ticks. Returns
    /// whether a tick overflowed TIMA, which requests the timer interrupt.
    pub fn step(&mut self, cpu_cycles: u8) -> (fired: bool)
        requires
            old(self).wf(),
        ensures
            final(self).wf(),
            final(self).div == wadd16(old(self).div, cpu_cycles as u16),
            final(self).tma == old(self).tma,
            final(self).tac == old(self).tac,
            !spec_timer_enabled(old(self).tac) ==> {
                &&& final(self).cycles == old(self).cycles
                &&& final(self).tima == old(self).tima
                &&& !fired
            },
            spec_timer_enabled(old(self).tac) ==> ({
                let total = old(self).cycles + cpu_cycles;
                let p = spec_period(old(self).tac);
                &&& final(self).cycles == total % p
                &&& final(self).tima == spec_tima_after(old(self).tima, old(self).tma, total / p)
                &&& fired == spec_tima_fired(old(self).tima, old(self).tma, total / p)
            }),
    {
        self.div = self.div.wrapping_add(cpu_cycles as u16);

        if (self.tac / 4) % 2 == 1 {
            self.cycles = self.cycles + cpu_cycles as usize;
            let freq = match self.tac % 4 {
                0 => Frequency::F4096,
                1 => Frequency::F262144,
                2 => Frequency::F65536,
                _ => Frequency::F16384,
            };
            let period = freq.cycles_per_tick();
            let ghost total = self.cycles as int;
            let ghost tima0 = self.tima;
            let ghost tma0 = self.tma;
            let ghost tac0 = self.tac;
            let ghost div0 = self.div;
            let ghost p = period as int;
            let ghost mut k: int = 0;
            let mut fired = false;
            while self.cycles >= period
                invariant
                    p == period,
                    p == spec_period(tac0),
                    16 <= p <= 1024,
                    total < 1024 + 256,
                    0 <= k,
                    self.cycles == total - k * p,
                    self.tima == spec_tima_after(tima0, tma0, k),
                    fired == spec_tima_fired(tima0, tma0, k),
                    self.tma == tma0,
                    self.tac == tac0,
                    self.div == div0,
                decreases self.cycles,
            {
                proof {
                    lemma_tick_snoc(tima0, tma0, k);
                    assert((k + 1) * p == k * p + p) by (nonlinear_arith);
                    k = k + 1;
                }
                self.cycles = self.cycles - period;
                if self.tima == 0xFF {
                    self.tima = self.tma;
                    fired = true;
                } else {
                    self.tima = self.tima + 1;
                }
            }
            proof {
                lemma_fundamental_div_mod_converse(total, p, k, self.cycles as int);
            }
            fired
        } else {
            false
        }
    }

    /// Reads one of the four timer registers; DIV is the high byte of the
    /// internal divider.
    pub fn timer_read(&mut self, address: u16) -> (r: u8)
        requires
            0xFF04 <= address <= 0xFF07,
        ensures
            *final(self) == *old(self),
            r == match address {
                0xFF04u16 => (old(self).div / 256) as u8,
                0xFF05u16 => old(self).tima,
                0xFF06u16 => old(self).tma,
                _ => old(self).tac,
            },
    {
        match address {
            0xFF04 => (self.div / 256) as u8,
            0xFF05 => self.tima,
            0xFF06 => self.tma,
            _ => self.tac,
        }
    }

    /// Writes one of the four timer registers; any write to DIV clears the
    /// whole internal divider.
    pub fn timer_write(&mut self, address: u16, value: u8)
        requires
            0xFF04 <= address <= 0xFF07,
        ensures
            final(self).cycles == old(self).cycles,
            final(self).wf() == old(self).wf(),
            *final(self) == match address {
                0xFF04u16 => (Timer { div: 0, ..*old(self) }),
                0xFF05u16 => (Timer { tima: value, ..*old(self) }),
                0xFF06u16 => (Timer { tma: value, ..*old(self) }),
                _ => (Timer { tac: value, ..*old(self) }),
            },
    {
        match address {
            0xFF04 => self.div = 0,
            0xFF05 => self.tima = value,
            0xFF06 => self.tma = value,
            _ => self.tac = value,
        }
    }
}

} // verus!
