//! The register-block model: the fourteen control registers of the device,
//! a log of every volatile access made through the accessor methods, and a
//! script of upcoming Flag-register values that stands in for hardware
//! progress.
//!
//! The accessor methods are the volatile-access layer: each performs exactly
//! one register access and records it in the log, so contracts higher up can
//! state bit-exactly which accesses a driver operation performs and in which
//! order.  Reads of the Flag register consume the script (oldest value first)
//! when it is non-empty, and otherwise return the current value unchanged:
//! the flags a real device reports change underneath the driver, and the
//! script is how a caller (or a test) decides what each poll observes.

use vstd::prelude::*;

use crate::flags::{Control, Flags, ReceiveStatus};

verus! {

/// One register of the control block, identified by its place in the
/// documented memory map.
#[derive(Clone, Copy, Debug, PartialEq, Eq, Structural)]
pub enum Register {
    /// Data register.
    Data,
    /// Receive status / error clear register.
    RecvStatus,
    /// Flag register.
    Flag,
    /// IrDA low-power counter register.
    IrdaLowPower,
    /// Integer baud-rate divisor register.
    IntBaud,
    /// Fractional baud-rate divisor register.
    FracBaud,
    /// Line control register.
    LineControl,
    /// Control register.
    Control,
    /// Interrupt FIFO level select register.
    FifoLevel,
    /// Interrupt mask set/clear register.
    IntMask,
    /// Raw interrupt status register.
    RawIntStatus,
    /// Masked interrupt status register.
    MaskedIntStatus,
    /// Interrupt clear register.
    IntClear,
    /// DMA control register.
    DmaControl,
}

/// The documented byte offset of a register from the device's base address.
pub open spec fn spec_byte_offset(r: Register) -> usize {
    match r {
        Register::Data => 0x000,
        Register::RecvStatus => 0x004,
        Register::Flag => 0x018,
        Register::IrdaLowPower => 0x020,
        Register::IntBaud => 0x024,
        Register::FracBaud => 0x028,
        Register::LineControl => 0x02c,
        Register::Control => 0x030,
        Register::FifoLevel => 0x034,
        Register::IntMask => 0x038,
        Register::RawIntStatus => 0x03c,
        Register::MaskedIntStatus => 0x040,
        Register::IntClear => 0x044,
        Register::DmaControl => 0x048,
    }
}

impl Register {
    /// The documented byte offset of this register from the base address.
    /// The memory-mapped layer addresses the device with these offsets.
    pub fn byte_offset(self) -> (off: usize)
        ensures
            off == spec_byte_offset(self),
    {
        match self {
            Register::Data => 0x000,
            Register::RecvStatus => 0x004,
            Register::Flag => 0x018,
            Register::IrdaLowPower => 0x020,
            Register::IntBaud => 0x024,
            Register::FracBaud => 0x028,
            Register::LineControl => 0x02c,
            Register::Control => 0x030,
            Register::FifoLevel => 0x034,
            Register::IntMask => 0x038,
            Register::RawIntStatus => 0x03c,
            Register::MaskedIntStatus => 0x040,
            Register::IntClear => 0x044,
            Register::DmaControl => 0x048,
        }
    }
}

/// Distinct registers sit at distinct, word-aligned offsets: the layout
/// invariant of the register map.
pub proof fn lemma_offsets_distinct_and_aligned(r1: Register, r2: Register)
    ensures
        r1 != r2 ==> spec_byte_offset(r1) != spec_byte_offset(r2),
        spec_byte_offset(r1) % 4 == 0,
{
}

/// Whether an access was a volatile read or a volatile write.
#[derive(Clone, Copy, Debug, PartialEq, Eq, Structural)]
pub enum AccessKind {
    /// A volatile read.
    Read,
    /// A volatile write.
    Write,
}

/// One volatile access: its direction, the register touched, and the raw
/// value read or written (values of narrow registers are widened to 16 bits).
#[derive(Clone, Copy, Debug, PartialEq, Eq, Structural)]
pub struct Access {
    /// Read or write.
    pub kind: AccessKind,
    /// The register touched.
    pub reg: Register,
    /// The raw value transferred.
    pub value: u16,
}

/// The log entry of a volatile read of `reg` returning `value`.
pub open spec fn read_access(reg: Register, value: u16) -> Access {
    Access { kind: AccessKind::Read, reg, value }
}

/// The log entry of a volatile write of `value` to `reg`.
pub open spec fn write_access(reg: Register, value: u16) -> Access {
    Access { kind: AccessKind::Write, reg, value }
}

/// The Flag-register values a busy-wait on `mask` observes, in order: the
/// scripted values up to and including the first whose `mask` bits are all
/// clear, or the current value alone when the script is empty.  Meaningful
/// under `wait_terminates`.
pub open spec fn wait_observations(fr: Flags, updates: Seq<Flags>, mask: u16) -> Seq<Flags>
    decreases updates.len(),
{
    if updates.len() == 0 {
        seq![fr]
    } else if updates[0].bits & mask == 0 {
        seq![updates[0]]
    } else {
        seq![updates[0]] + wait_observations(fr, updates.drop_first(), mask)
    }
}

/// Whether a busy-wait on `mask` returns at all: some upcoming observation
/// has every bit of `mask` clear.  On real hardware this is the liveness
/// assumption that the awaited condition eventually comes true; a stuck
/// device spins forever.
pub open spec fn wait_terminates(fr: Flags, updates: Seq<Flags>, mask: u16) -> bool {
    if updates.len() == 0 {
        fr.bits & mask == 0
    } else {
        exists|i: int| 0 <= i < updates.len() && (#[trigger] updates[i]).bits & mask == 0
    }
}

/// The log entries of a run of Flag-register reads observing `obs`.
pub open spec fn reads_of(obs: Seq<Flags>) -> Seq<Access> {
    obs.map_values(|f: Flags| read_access(Register::Flag, f.bits))
}

/// The shape of a completed busy-wait: at least one observation, the last
/// with every awaited bit clear, and every earlier one — the values the loop
/// spun on — with an awaited bit still set; when the script is non-empty the
/// observations are exactly its leading values.
pub proof fn lemma_wait_observations(fr: Flags, updates: Seq<Flags>, mask: u16)
    requires
        wait_terminates(fr, updates, mask),
    ensures
        ({
            let obs = wait_observations(fr, updates, mask);
            &&& obs.len() >= 1
            &&& obs.last().bits & mask == 0
            &&& forall|i: int| 0 <= i < obs.len() - 1 ==> (#[trigger] obs[i]).bits & mask != 0
            &&& updates.len() == 0 ==> obs == seq![fr]
            &&& updates.len() > 0 ==> obs.len() <= updates.len() && obs == updates.take(
                obs.len() as int,
            )
        }),
    decreases updates.len(),
{
    let obs = wait_observations(fr, updates, mask);
    if updates.len() == 0 {
    } else if updates[0].bits & mask == 0 {
        assert(updates.take(1) =~= seq![updates[0]]);
    } else {
        let i = choose|i: int|
            0 <= i < updates.len() && (#[trigger] updates[i]).bits & mask == 0;
        assert(updates.drop_first()[i - 1].bits & mask == 0);
        lemma_wait_observations(fr, updates.drop_first(), mask);
        let obs_t = wait_observations(fr, updates.drop_first(), mask);
        assert(obs == seq![updates[0]] + obs_t);
        assert(obs.last() == obs_t.last());
        assert(forall|j: int|
            0 <= j < obs.len() - 1 ==> (#[trigger] obs[j]).bits & mask != 0) by {
            assert(forall|j: int|
                1 <= j < obs.len() - 1 ==> obs[j] == (#[trigger] obs_t[j - 1]));
        }
        assert(obs =~= updates.take(obs.len() as int));
    }
}

/// Which values a busy-wait observes depends only on the script while the
/// script can end the wait: the fallback current value is never reached.
pub proof fn lemma_wait_observations_fr_any(fr1: Flags, fr2: Flags, updates: Seq<Flags>, mask: u16)
    requires
        updates.len() > 0,
        exists|i: int| 0 <= i < updates.len() && (#[trigger] updates[i]).bits & mask == 0,
    ensures
        wait_observations(fr1, updates, mask) == wait_observations(fr2, updates, mask),
    decreases updates.len(),
{
    if updates[0].bits & mask == 0 {
    } else {
        let i = choose|i: int|
            0 <= i < updates.len() && (#[trigger] updates[i]).bits & mask == 0;
        assert(updates.drop_first()[i - 1].bits & mask == 0);
        lemma_wait_observations_fr_any(fr1, fr2, updates.drop_first(), mask);
    }
}

/// The model of the device's register block.
///
/// The register fields hold the current values; `fr_updates` holds the
/// Flag-register values that upcoming reads of the Flag register will
/// observe, oldest first (each read pops one; when it is empty, reads see
/// `fr` unchanged); `log` records every access made through the accessor
/// methods.  The fields are public: code standing in for the hardware — a
/// test, or a simulation harness — sets register values directly, which
/// models the device changing state on its own.
#[derive(Debug)]
pub struct RegisterBlock {
    /// Data register: received character plus per-character error bits.
    pub dr: u16,
    /// Receive status / error clear register.
    pub rsr: ReceiveStatus,
    /// Flag register: the value the most recent read observed.
    pub fr: Flags,
    /// Flag-register values that upcoming reads will observe, oldest first.
    pub fr_updates: Vec<Flags>,
    /// IrDA low-power counter register.
    pub ilpr: u8,
    /// Integer baud-rate divisor register.
    pub ibrd: u16,
    /// Fractional baud-rate divisor register.
    pub fbrd: u8,
    /// Line control register.
    pub lcr_h: u8,
    /// Control register.
    pub cr: Control,
    /// Interrupt FIFO level select register.
    pub ifls: u8,
    /// Interrupt mask set/clear register.
    pub imsc: u16,
    /// Raw interrupt status register.
    pub ris: u16,
    /// Masked interrupt status register.
    pub mis: u16,
    /// Interrupt clear register.
    pub icr: u16,
    /// DMA control register.
    pub dmacr: u8,
    /// Every volatile access performed so far, oldest first.
    pub log: Vec<Access>,
}

impl RegisterBlock {
    /// Every register the driver may write holds the same value in `post` as
    /// in `pre`, except the one named by `target`; the registers the driver
    /// never writes are equal unconditionally.  Says nothing about the Flag
    /// register, its script, or the log.
    pub open spec fn same_regs_except(pre: Self, post: Self, target: Option<Register>) -> bool {
        &&& (target != Some(Register::Data) ==> post.dr == pre.dr)
        &&& (target != Some(Register::RecvStatus) ==> post.rsr == pre.rsr)
        &&& (target != Some(Register::IntBaud) ==> post.ibrd == pre.ibrd)
        &&& (target != Some(Register::FracBaud) ==> post.fbrd == pre.fbrd)
        &&& (target != Some(Register::Control) ==> post.cr == pre.cr)
        &&& post.ilpr == pre.ilpr
        &&& post.lcr_h == pre.lcr_h
        &&& post.ifls == pre.ifls
        &&& post.imsc == pre.imsc
        &&& post.ris == pre.ris
        &&& post.mis == pre.mis
        &&& post.icr == pre.icr
        &&& post.dmacr == pre.dmacr
    }

    /// The Flag register and its script are unchanged from `pre` to `post`.
    pub open spec fn same_flag_state(pre: Self, post: Self) -> bool {
        post.fr == pre.fr && post.fr_updates@ == pre.fr_updates@
    }

    /// The value the next read of the Flag register will observe.
    pub open spec fn next_fr(self) -> Flags {
        if self.fr_updates@.len() == 0 {
            self.fr
        } else {
            self.fr_updates@[0]
        }
    }

    /// What a single poll of the Flag register does to the block: one logged
    /// read observing `pre.next_fr()`, consuming one scripted value when
    /// there is one, touching nothing else.
    pub open spec fn poll_effect(pre: Self, post: Self) -> bool {
        &&& post.fr == pre.next_fr()
        &&& post.fr_updates@ == if pre.fr_updates@.len() == 0 {
            pre.fr_updates@
        } else {
            pre.fr_updates@.drop_first()
        }
        &&& post.log@ == pre.log@.push(read_access(Register::Flag, pre.next_fr().bits))
        &&& Self::same_regs_except(pre, post, None)
    }

    /// What a completed busy-wait on `mask` does to the block: one logged
    /// Flag-register read per observation, the script consumed up to the
    /// observation that ended the wait, the Flag register left at that
    /// value, and nothing else touched.
    pub open spec fn wait_effect(pre: Self, post: Self, mask: u16) -> bool {
        let obs = wait_observations(pre.fr, pre.fr_updates@, mask);
        &&& post.fr == obs.last()
        &&& post.fr.bits & mask == 0
        &&& post.fr_updates@ == if pre.fr_updates@.len() == 0 {
            pre.fr_updates@
        } else {
            pre.fr_updates@.skip(obs.len() as int)
        }
        &&& post.log@ == pre.log@ + reads_of(obs)
        &&& Self::same_regs_except(pre, post, None)
    }

    /// A fresh register block: every register zero, no scripted flag values,
    /// an empty access log.
    pub fn new() -> (r: RegisterBlock)
        ensures
            r.dr == 0,
            r.rsr.bits == 0,
            r.fr.bits == 0,
            r.fr_updates@ == Seq::<Flags>::empty(),
            r.ilpr == 0,
            r.ibrd == 0,
            r.fbrd == 0,
            r.lcr_h == 0,
            r.cr.bits == 0,
            r.ifls == 0,
            r.imsc == 0,
            r.ris == 0,
            r.mis == 0,
            r.icr == 0,
            r.dmacr == 0,
            r.log@ == Seq::<Access>::empty(),
    {
        RegisterBlock {
            dr: 0,
            rsr: ReceiveStatus::empty(),
            fr: Flags::empty(),
            fr_updates: Vec::new(),
            ilpr: 0,
            ibrd: 0,
            fbrd: 0,
            lcr_h: 0,
            cr: Control::from_bits(0),
            ifls: 0,
            imsc: 0,
            ris: 0,
            mis: 0,
            icr: 0,
            dmacr: 0,
            log: Vec::new(),
        }
    }

    /// Volatile read of the Flag register.  Observes the next scripted value
    /// (consuming it) when the script is non-empty, the current value
    /// otherwise.
    pub fn read_fr(&mut self) -> (f: Flags)
        ensures
            f == old(self).next_fr(),
            final(self).fr == f,
            Self::poll_effect(*old(self), *final(self)),
    {
        if self.fr_updates.len() > 0 {
            let f = self.fr_updates.remove(0);
            proof {
                assert(old(self).fr_updates@.remove(0) =~= old(self).fr_updates@.drop_first());
            }
            self.fr = f;
        }
        let f = self.fr;
        self.log.push(Access { kind: AccessKind::Read, reg: Register::Flag, value: f.bits });
        f
    }

    /// Volatile read of the Data register.
    pub fn read_dr(&mut self) -> (d: u16)
        ensures
            d == old(self).dr,
            final(self).log@ == old(self).log@.push(read_access(Register::Data, d)),
            Self::same_regs_except(*old(self), *final(self), None),
            Self::same_flag_state(*old(self), *final(self)),
    {
        let d = self.dr;
        self.log.push(Access { kind: AccessKind::Read, reg: Register::Data, value: d });
        d
    }

    /// Volatile write to the Data register.
    pub fn write_dr(&mut self, v: u16)
        ensures
            final(self).dr == v,
            final(self).log@ == old(self).log@.push(write_access(Register::Data, v)),
            Self::same_regs_except(*old(self), *final(self), Some(Register::Data)),
            Self::same_flag_state(*old(self), *final(self)),
    {
        self.dr = v;
        self.log.push(Access { kind: AccessKind::Write, reg: Register::Data, value: v });
    }

    /// Volatile read of the Control register.
    pub fn read_cr(&mut self) -> (c: Control)
        ensures
            c == old(self).cr,
            final(self).log@ == old(self).log@.push(read_access(Register::Control, c.bits)),
            Self::same_regs_except(*old(self), *final(self), None),
            Self::same_flag_state(*old(self), *final(self)),
    {
        let c = self.cr;
        self.log.push(Access { kind: AccessKind::Read, reg: Register::Control, value: c.bits });
        c
    }

    /// Volatile write to the Control register.
    pub fn write_cr(&mut self, c: Control)
        ensures
            final(self).cr == c,
            final(self).log@ == old(self).log@.push(write_access(Register::Control, c.bits)),
            Self::same_regs_except(*old(self), *final(self), Some(Register::Control)),
            Self::same_flag_state(*old(self), *final(self)),
    {
        self.cr = c;
        self.log.push(Access { kind: AccessKind::Write, reg: Register::Control, value: c.bits });
    }

    /// Volatile write to the Integer Baud-Rate Divisor register.
    pub fn write_ibrd(&mut self, v: u16)
        ensures
            final(self).ibrd == v,
            final(self).log@ == old(self).log@.push(write_access(Register::IntBaud, v)),
            Self::same_regs_except(*old(self), *final(self), Some(Register::IntBaud)),
            Self::same_flag_state(*old(self), *final(self)),
    {
        self.ibrd = v;
        self.log.push(Access { kind: AccessKind::Write, reg: Register::IntBaud, value: v });
    }

    /// Volatile write to the Fractional Baud-Rate Divisor register.
    pub fn write_fbrd(&mut self, v: u8)
        ensures
            final(self).fbrd == v,
            final(self).log@ == old(self).log@.push(write_access(Register::FracBaud, v as u16)),
            Self::same_regs_except(*old(self), *final(self), Some(Register::FracBaud)),
            Self::same_flag_state(*old(self), *final(self)),
    {
        self.fbrd = v;
        self.log.push(Access { kind: AccessKind::Write, reg: Register::FracBaud, value: v as u16 });
    }

    /// Volatile write to the Receive Status / Error Clear register.
    pub fn write_rsr(&mut self, v: ReceiveStatus)
        ensures
            final(self).rsr == v,
            final(self).log@ == old(self).log@.push(write_access(Register::RecvStatus, v.bits)),
            Self::same_regs_except(*old(self), *final(self), Some(Register::RecvStatus)),
            Self::same_flag_state(*old(self), *final(self)),
    {
        self.rsr = v;
        self.log.push(Access { kind: AccessKind::Write, reg: Register::RecvStatus, value: v.bits });
    }

    /// Busy-wait: poll the Flag register until every bit of `mask` reads
    /// clear, and return the observation that ended the wait.  The
    /// precondition is the liveness assumption that the awaited condition
    /// eventually shows up; without it the spin would be unbounded.
    pub fn wait_until_clear(&mut self, mask: u16) -> (f: Flags)
        requires
            wait_terminates(old(self).fr, old(self).fr_updates@, mask),
        ensures
            Self::wait_effect(*old(self), *final(self), mask),
            f == final(self).fr,
    {
        let fuel = self.fr_updates.len();
        self.wait_rec(mask, fuel)
    }

    /// The spin itself, one poll per step; `fuel` tracks the script length
    /// so each re-poll provably consumes a scripted value.
    fn wait_rec(&mut self, mask: u16, fuel: usize) -> (f: Flags)
        requires
            fuel == old(self).fr_updates@.len(),
            wait_terminates(old(self).fr, old(self).fr_updates@, mask),
        ensures
            Self::wait_effect(*old(self), *final(self), mask),
            f == final(self).fr,
        decreases fuel,
    {
        let f = self.read_fr();
        if (f.bits & mask) == 0 {
            proof {
                let obs = wait_observations(old(self).fr, old(self).fr_updates@, mask);
                assert(obs =~= seq![f]);
                assert(reads_of(obs) =~= seq![read_access(Register::Flag, f.bits)]);
                assert(old(self).log@ + reads_of(obs) =~= old(self).log@.push(
                    read_access(Register::Flag, f.bits),
                ));
                if old(self).fr_updates@.len() > 0 {
                    assert(self.fr_updates@ =~= old(self).fr_updates@.skip(1));
                }
            }
            f
        } else {
            proof {
                // A stalled script would spin forever: the precondition rules
                // the empty case out, and passes termination on to the rest.
                if old(self).fr_updates@.len() == 0 {
                    assert(f == old(self).fr);
                    assert(false);
                }
                let i = choose|i: int|
                    0 <= i < old(self).fr_updates@.len() && (#[trigger] old(
                        self,
                    ).fr_updates@[i]).bits & mask == 0;
                assert(old(self).fr_updates@.drop_first()[i - 1].bits & mask == 0);
            }
            let ghost mid = *self;
            let r = self.wait_rec(mask, fuel - 1);
            proof {
                let p = *old(self);
                let obs_p = wait_observations(p.fr, p.fr_updates@, mask);
                let obs_m = wait_observations(mid.fr, mid.fr_updates@, mask);
                lemma_wait_observations_fr_any(mid.fr, p.fr, mid.fr_updates@, mask);
                assert(obs_p == seq![f] + obs_m);
                lemma_wait_observations(mid.fr, mid.fr_updates@, mask);
                assert(obs_p.last() == obs_m.last());
                assert(self.fr_updates@ =~= p.fr_updates@.skip(obs_p.len() as int));
                assert(reads_of(obs_p) =~= seq![read_access(Register::Flag, f.bits)]
                    + reads_of(obs_m));
                assert(self.log@ =~= p.log@ + reads_of(obs_p));
            }
            r
        }
    }
}

} // verus!
