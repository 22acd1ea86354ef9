//! The PL011 driver operations, verified against the register-block model:
//! initialization, byte transmit, byte receive with error decoding, the
//! status queries, and the buffer-oriented stream adapter.
//!
//! This driver queues a byte and returns: `write_byte` comes back as soon as
//! the byte is in the transmit FIFO, without waiting for it to be sent, and
//! `flush` is the separate blocking wait for transmission to finish.

use vstd::prelude::*;

use crate::flags::{bits_clear, Control, Data, Flags, ReceiveStatus};
use crate::flags::{CR_RXE, CR_TXE, CR_UARTEN, DR_BE, DR_DATA, DR_FE, DR_OE, DR_PE};
use crate::flags::{FR_BUSY, FR_RXFE, FR_TXFF};
use crate::registers::{
    read_access, reads_of, wait_observations, wait_terminates, write_access, Access, AccessKind,
    Register, RegisterBlock,
};

verus! {

/// An error reported by a receive operation.  Each kind carries nothing but
/// its identity; all four consume the offending FIFO slot, so the next read
/// resynchronizes on the following character.
#[derive(Clone, Copy, Debug, PartialEq, Eq, Structural)]
pub enum Error {
    /// Break condition detected: the line was held low beyond a character
    /// period.
    Break,
    /// The received character did not have a valid stop bit.
    Framing,
    /// Data was received while the FIFO was already full; data was lost.
    Overrun,
    /// Parity of the received character did not match the configured parity.
    Parity,
}

/// The coarser category a receive error maps to for generic stream
/// consumers.
#[derive(Clone, Copy, Debug, PartialEq, Eq, Structural)]
pub enum ErrorKind {
    /// A transient hardware condition.
    Other,
    /// The data received was invalid.
    InvalidData,
}

impl Error {
    /// The category of this error: break and overrun are transient hardware
    /// conditions, framing and parity mean the data itself was invalid.
    pub open spec fn spec_kind(self) -> ErrorKind {
        match self {
            Error::Break => ErrorKind::Other,
            Error::Overrun => ErrorKind::Other,
            Error::Framing => ErrorKind::InvalidData,
            Error::Parity => ErrorKind::InvalidData,
        }
    }

    /// The category of this error, for generic stream consumers.
    pub fn kind(&self) -> (k: ErrorKind)
        ensures
            k == self.spec_kind(),
    {
        match self {
            Error::Break => ErrorKind::Other,
            Error::Overrun => ErrorKind::Other,
            Error::Framing => ErrorKind::InvalidData,
            Error::Parity => ErrorKind::InvalidData,
        }
    }
}

/// What a Data-register value decodes to once data is present: the error
/// bits are inspected in fixed priority order — framing, then parity, then
/// break, then overrun — and the first one set decides; only when all four
/// are clear is the low byte the received character.
pub open spec fn spec_decode(data: u16) -> Result<u8, Error> {
    if data & DR_FE != 0 {
        Err(Error::Framing)
    } else if data & DR_PE != 0 {
        Err(Error::Parity)
    } else if data & DR_BE != 0 {
        Err(Error::Break)
    } else if data & DR_OE != 0 {
        Err(Error::Overrun)
    } else {
        Ok((data & DR_DATA) as u8)
    }
}

/// Decodes a raw Data-register value into the received byte or the
/// highest-priority error its status bits report.
pub fn decode_data(data: u16) -> (r: Result<u8, Error>)
    ensures
        r == spec_decode(data),
{
    let status = Data::from_bits(data);
    if status.is_set(DR_FE) {
        Err(Error::Framing)
    } else if status.is_set(DR_PE) {
        Err(Error::Parity)
    } else if status.is_set(DR_BE) {
        Err(Error::Break)
    } else if status.is_set(DR_OE) {
        Err(Error::Overrun)
    } else {
        assert(data & DR_DATA < 0x100) by (bit_vector);
        Ok((data & DR_DATA) as u8)
    }
}

/// Error decoding follows the fixed priority order — framing before parity
/// before break before overrun — whatever combination of error bits is set,
/// and yields the low byte exactly when all four are clear.
pub proof fn lemma_decode_priority(data: u16)
    ensures
        data & DR_FE != 0 ==> spec_decode(data) == Err::<u8, Error>(Error::Framing),
        data & DR_FE == 0 && data & DR_PE != 0 ==> spec_decode(data) == Err::<u8, Error>(
            Error::Parity,
        ),
        data & DR_FE == 0 && data & DR_PE == 0 && data & DR_BE != 0 ==> spec_decode(data)
            == Err::<u8, Error>(Error::Break),
        data & DR_FE == 0 && data & DR_PE == 0 && data & DR_BE == 0 && data & DR_OE != 0
            ==> spec_decode(data) == Err::<u8, Error>(Error::Overrun),
        data & DR_FE == 0 && data & DR_PE == 0 && data & DR_BE == 0 && data & DR_OE == 0
            ==> spec_decode(data) == Ok::<u8, Error>((data & DR_DATA) as u8),
{
}

/// The fixed-point baud-rate divisor, with 6 fractional bits: the clock
/// shifted left by two (truncated to 32 bits, as the hardware register
/// arithmetic does), divided by the baud rate.
pub open spec fn spec_divisor(clock: u32, baud_rate: u32) -> u32
    recommends
        baud_rate > 0,
{
    (clock << 2u32) / baud_rate
}

/// The value programmed into the Integer Baud-Rate Divisor register: the
/// divisor bits above the 6 fractional ones.
pub open spec fn spec_ibrd(clock: u32, baud_rate: u32) -> u16 {
    (spec_divisor(clock, baud_rate) >> 6u32) as u16
}

/// The value programmed into the Fractional Baud-Rate Divisor register: the
/// low 6 bits of the divisor.
pub open spec fn spec_fbrd(clock: u32, baud_rate: u32) -> u8 {
    (spec_divisor(clock, baud_rate) & 0x3F) as u8
}

/// Computes the integer and fractional baud-rate divisor values, exactly as
/// the specification formulas give them.  The bound on the divisor is a
/// machine limit: the integer part must fit the 16-bit divisor register.
pub fn divisor_parts(clock: u32, baud_rate: u32) -> (r: (u16, u8))
    requires
        baud_rate > 0,
        spec_divisor(clock, baud_rate) < 0x40_0000,
    ensures
        r.0 == spec_ibrd(clock, baud_rate),
        r.1 == spec_fbrd(clock, baud_rate),
{
    let divisor: u32 = (clock << 2u32) / baud_rate;
    assert(divisor >> 6u32 < 0x10000) by (bit_vector)
        requires
            divisor < 0x40_0000,
    ;
    assert(divisor & 0x3F < 0x100) by (bit_vector);
    ((divisor >> 6u32) as u16, (divisor & 0x3F) as u8)
}

/// Computes the divisor register values for any input: `None` exactly when
/// the baud rate is zero or the integer part would not fit its register.
pub fn checked_divisor_parts(clock: u32, baud_rate: u32) -> (r: Option<(u16, u8)>)
    ensures
        r == if baud_rate > 0 && spec_divisor(clock, baud_rate) < 0x40_0000 {
            Some((spec_ibrd(clock, baud_rate), spec_fbrd(clock, baud_rate)))
        } else {
            None::<(u16, u8)>
        },
{
    if baud_rate == 0 {
        return None;
    }
    let divisor: u32 = (clock << 2u32) / baud_rate;
    if divisor >= 0x40_0000 {
        return None;
    }
    Some(divisor_parts(clock, baud_rate))
}

/// The accesses `init` performs, in order: read the control register, write
/// it back with the enable bit cleared, program the two divisor registers,
/// clear the latched receive errors, and re-enable the device with transmit
/// and receive on.
pub open spec fn init_accesses(cr_old: Control, clock: u32, baud_rate: u32) -> Seq<Access> {
    seq![
        read_access(Register::Control, cr_old.bits),
        write_access(Register::Control, cr_old.bits & !CR_UARTEN),
        write_access(Register::IntBaud, spec_ibrd(clock, baud_rate)),
        write_access(Register::FracBaud, spec_fbrd(clock, baud_rate) as u16),
        write_access(Register::RecvStatus, 0),
        write_access(Register::Control, CR_RXE | CR_TXE | CR_UARTEN),
    ]
}

/// What a completed `write_byte` does to the register block: the busy-wait
/// observations on the transmit-FIFO-full flag, then a single Data-register
/// write of the byte, and nothing else.
pub open spec fn tx_effect(pre: RegisterBlock, post: RegisterBlock, byte: u8) -> bool {
    let obs = wait_observations(pre.fr, pre.fr_updates@, FR_TXFF);
    &&& post.dr == byte as u16
    &&& post.fr == obs.last()
    &&& bits_clear(post.fr.bits, FR_TXFF)
    &&& post.fr_updates@ == if pre.fr_updates@.len() == 0 {
        pre.fr_updates@
    } else {
        pre.fr_updates@.skip(obs.len() as int)
    }
    &&& post.log@ == pre.log@ + reads_of(obs) + seq![
        write_access(Register::Data, byte as u16),
    ]
    &&& RegisterBlock::same_regs_except(pre, post, Some(Register::Data))
}

/// What a completed blocking receive does to the register block: the
/// busy-wait observations on the receive-FIFO-empty flag, then a single
/// Data-register read, and nothing else.
pub open spec fn rx_effect(pre: RegisterBlock, post: RegisterBlock) -> bool {
    let obs = wait_observations(pre.fr, pre.fr_updates@, FR_RXFE);
    &&& post.fr == obs.last()
    &&& bits_clear(post.fr.bits, FR_RXFE)
    &&& post.fr_updates@ == if pre.fr_updates@.len() == 0 {
        pre.fr_updates@
    } else {
        pre.fr_updates@.skip(obs.len() as int)
    }
    &&& post.log@ == pre.log@ + reads_of(obs) + seq![read_access(Register::Data, pre.dr)]
    &&& RegisterBlock::same_regs_except(pre, post, None)
}

/// The transmit path writes the Data register only under an observation
/// that the transmit FIFO has room: the single Data write a `write_byte`
/// appends comes immediately after a Flag read with the full flag clear,
/// every other appended entry is a Flag read, and every read before the one
/// that ended the wait still showed the FIFO full.
pub proof fn lemma_no_write_while_full(pre: RegisterBlock, post: RegisterBlock, byte: u8)
    requires
        wait_terminates(pre.fr, pre.fr_updates@, FR_TXFF),
        tx_effect(pre, post, byte),
    ensures
        post.log@.len() >= pre.log@.len() + 2,
        post.log@.subrange(0, pre.log@.len() as int) == pre.log@,
        post.log@.last() == write_access(Register::Data, byte as u16),
        post.log@[post.log@.len() - 2].kind == AccessKind::Read,
        post.log@[post.log@.len() - 2].reg == Register::Flag,
        post.log@[post.log@.len() - 2].value & FR_TXFF == 0,
        forall|i: int|
            pre.log@.len() <= i < post.log@.len() - 1 ==> (#[trigger] post.log@[i]).kind
                == AccessKind::Read && post.log@[i].reg == Register::Flag,
        forall|i: int|
            pre.log@.len() <= i < post.log@.len() - 2 ==> (#[trigger] post.log@[i]).value & FR_TXFF
                != 0,
{
    let obs = wait_observations(pre.fr, pre.fr_updates@, FR_TXFF);
    crate::registers::lemma_wait_observations(pre.fr, pre.fr_updates@, FR_TXFF);
    assert(post.log@.subrange(0, pre.log@.len() as int) =~= pre.log@);
    assert(forall|i: int|
        pre.log@.len() <= i < post.log@.len() - 1 ==> post.log@[i] == (#[trigger] reads_of(
            obs,
        )[i - pre.log@.len()]));
}

/// The driver for one PL011 device, owning the register-block model it
/// operates on.
///
/// The block's single owner is this handle: mutating operations take the
/// handle exclusively, which is the aliasing discipline the real device
/// needs.  The `regs` field is public so that code standing in for the
/// hardware — a test, or a simulation harness — can set register values
/// between driver calls.
#[derive(Debug)]
pub struct Uart {
    /// The register block this driver drives.
    pub regs: RegisterBlock,
}

impl Uart {
    /// Constructs the driver for a device whose registers hold the given
    /// values.
    pub fn new(regs: RegisterBlock) -> (u: Uart)
        ensures
            u.regs == regs,
    {
        Uart { regs }
    }

    /// Initializes the device for the given UART clock (in Hz) and baud
    /// rate.
    ///
    /// The writes go out in the fixed order of `init_accesses`: the device
    /// is disabled (preserving the other control bits) before the divisor
    /// registers are programmed — the hardware forbids reprogramming them
    /// while enabled — stale receive errors are cleared, and one final
    /// control write re-enables the device with transmit and receive on.
    ///
    /// A zero baud rate is a caller error, and the divisor bound is the
    /// 16-bit limit of the integer divisor register; the unverified layer
    /// checks both before calling.
    pub fn init(&mut self, clock: u32, baud_rate: u32)
        requires
            baud_rate > 0,
            spec_divisor(clock, baud_rate) < 0x40_0000,
        ensures
            final(self).regs.cr.bits == CR_RXE | CR_TXE | CR_UARTEN,
            final(self).regs.ibrd == spec_ibrd(clock, baud_rate),
            final(self).regs.fbrd == spec_fbrd(clock, baud_rate),
            final(self).regs.rsr.bits == 0,
            final(self).regs.log@ == old(self).regs.log@ + init_accesses(
                old(self).regs.cr,
                clock,
                baud_rate,
            ),
            final(self).regs.dr == old(self).regs.dr,
            RegisterBlock::same_flag_state(old(self).regs, final(self).regs),
            final(self).regs.ilpr == old(self).regs.ilpr,
            final(self).regs.lcr_h == old(self).regs.lcr_h,
            final(self).regs.ifls == old(self).regs.ifls,
            final(self).regs.imsc == old(self).regs.imsc,
            final(self).regs.ris == old(self).regs.ris,
            final(self).regs.mis == old(self).regs.mis,
            final(self).regs.icr == old(self).regs.icr,
            final(self).regs.dmacr == old(self).regs.dmacr,
    {
        let (ibrd, fbrd) = divisor_parts(clock, baud_rate);
        // Disable the UART before programming the divisor.
        let cr = self.regs.read_cr();
        self.regs.write_cr(Control::from_bits(cr.bits & !CR_UARTEN));
        // Program the integer and fractional baud-rate divisors.
        self.regs.write_ibrd(ibrd);
        self.regs.write_fbrd(fbrd);
        // Clear any latched receive errors.
        self.regs.write_rsr(ReceiveStatus::empty());
        // Re-enable the device, with transmit and receive enabled.
        self.regs.write_cr(Control::from_bits(CR_RXE | CR_TXE | CR_UARTEN));
        proof {
            assert(self.regs.log@ =~= old(self).regs.log@ + init_accesses(
                old(self).regs.cr,
                clock,
                baud_rate,
            ));
        }
    }

    /// Writes a single byte to the UART.
    ///
    /// Busy-waits while the transmit FIFO is full, then queues the byte with
    /// one Data-register write and returns — without waiting for the byte
    /// to be sent.  The precondition is the liveness assumption that the
    /// FIFO eventually has room; on a stuck device the spin is unbounded.
    pub fn write_byte(&mut self, byte: u8)
        requires
            wait_terminates(old(self).regs.fr, old(self).regs.fr_updates@, FR_TXFF),
        ensures
            tx_effect(old(self).regs, final(self).regs, byte),
    {
        let _ = self.regs.wait_until_clear(FR_TXFF);
        self.regs.write_dr(byte as u16);
        proof {
            let obs = wait_observations(old(self).regs.fr, old(self).regs.fr_updates@, FR_TXFF);
            assert(self.regs.log@ =~= old(self).regs.log@ + reads_of(obs) + seq![
                write_access(Register::Data, byte as u16),
            ]);
        }
    }

    /// Whether the UART is still busy transmitting: one poll of the Flag
    /// register, exposing the busy flag for callers that track completion
    /// themselves.  True immediately after a `write_byte`.
    pub fn is_transmitting(&mut self) -> (r: bool)
        ensures
            RegisterBlock::poll_effect(old(self).regs, final(self).regs),
            r == !bits_clear(old(self).regs.next_fr().bits, FR_BUSY),
    {
        let f = self.regs.read_fr();
        f.is_set(FR_BUSY)
    }

    /// Reads a pending byte, without blocking.
    ///
    /// One poll of the Flag register decides: if the receive FIFO is empty
    /// the result is `Ok(None)` — no data is not an error — whatever the
    /// Data register holds.  Otherwise one Data-register read consumes the
    /// FIFO slot and is decoded by `spec_decode`: an error consumes the
    /// character exactly like a successful read.
    pub fn read_byte(&mut self) -> (r: Result<Option<u8>, Error>)
        ensures
            ({
                let f = old(self).regs.next_fr();
                if bits_clear(f.bits, FR_RXFE) {
                    &&& final(self).regs.log@ == old(self).regs.log@.push(
                        read_access(Register::Flag, f.bits),
                    ).push(read_access(Register::Data, old(self).regs.dr))
                    &&& final(self).regs.fr == f
                    &&& final(self).regs.fr_updates@ == if old(self).regs.fr_updates@.len() == 0 {
                        old(self).regs.fr_updates@
                    } else {
                        old(self).regs.fr_updates@.drop_first()
                    }
                    &&& RegisterBlock::same_regs_except(old(self).regs, final(self).regs, None)
                    &&& match spec_decode(old(self).regs.dr) {
                        Ok(b) => r == Ok::<Option<u8>, Error>(Some(b)),
                        Err(e) => r == Err::<Option<u8>, Error>(e),
                    }
                } else {
                    &&& RegisterBlock::poll_effect(old(self).regs, final(self).regs)
                    &&& r == Ok::<Option<u8>, Error>(None)
                }
            }),
    {
        let f = self.regs.read_fr();
        if f.is_set(FR_RXFE) {
            Ok(None)
        } else {
            let data = self.regs.read_dr();
            match decode_data(data) {
                Ok(b) => Ok(Some(b)),
                Err(e) => Err(e),
            }
        }
    }

    /// Transmits every byte of `data` in order, each through `write_byte`.
    ///
    /// Stated for a device whose transmit FIFO stays ready (no scripted flag
    /// changes and the full flag clear), where each byte costs exactly one
    /// flag observation and one Data write.
    pub fn write_all(&mut self, data: &[u8])
        requires
            old(self).regs.fr_updates@.len() == 0,
            bits_clear(old(self).regs.fr.bits, FR_TXFF),
        ensures
            final(self).regs.log@ == old(self).regs.log@ + tx_log(old(self).regs.fr, data@),
            data@.len() == 0 ==> final(self).regs.dr == old(self).regs.dr,
            data@.len() > 0 ==> final(self).regs.dr == data@.last() as u16,
            RegisterBlock::same_flag_state(old(self).regs, final(self).regs),
            RegisterBlock::same_regs_except(old(self).regs, final(self).regs, Some(Register::Data)),
    {
        let ghost pre = *self;
        let mut i: usize = 0;
        while i < data.len()
            invariant
                i <= data@.len(),
                self.regs.fr_updates@ == pre.regs.fr_updates@,
                self.regs.fr_updates@.len() == 0,
                self.regs.fr == pre.regs.fr,
                bits_clear(self.regs.fr.bits, FR_TXFF),
                self.regs.log@ == pre.regs.log@ + tx_log(pre.regs.fr, data@.take(i as int)),
                i == 0 ==> self.regs.dr == pre.regs.dr,
                i > 0 ==> self.regs.dr == data@[i - 1] as u16,
                RegisterBlock::same_regs_except(pre.regs, self.regs, Some(Register::Data)),
            decreases data@.len() - i,
        {
            let ghost before = *self;
            self.write_byte(data[i]);
            proof {
                let obs = wait_observations(before.regs.fr, before.regs.fr_updates@, FR_TXFF);
                assert(obs =~= seq![before.regs.fr]);
                assert(reads_of(obs) =~= seq![
                    read_access(Register::Flag, before.regs.fr.bits),
                ]);
                assert(data@.take(i + 1) =~= data@.take(i as int).push(data@[i as int]));
                lemma_tx_log_snoc(pre.regs.fr, data@.take(i as int), data@[i as int]);
                assert(self.regs.log@ =~= pre.regs.log@ + tx_log(pre.regs.fr, data@.take(i + 1)));
            }
            i += 1;
        }
        proof {
            assert(data@.take(data@.len() as int) =~= data@);
        }
    }

    /// Transmits the first byte of `buf` and reports one byte written; an
    /// empty buffer reports zero bytes written without touching the device.
    /// Callers stream a buffer by looping.
    pub fn write(&mut self, buf: &[u8]) -> (r: Result<usize, Error>)
        requires
            buf@.len() > 0 ==> wait_terminates(
                old(self).regs.fr,
                old(self).regs.fr_updates@,
                FR_TXFF,
            ),
        ensures
            buf@.len() == 0 ==> r == Ok::<usize, Error>(0) && *final(self) == *old(self),
            buf@.len() > 0 ==> r == Ok::<usize, Error>(1) && tx_effect(
                old(self).regs,
                final(self).regs,
                buf@[0],
            ),
    {
        if buf.len() == 0 {
            Ok(0)
        } else {
            let b = buf[0];
            self.write_byte(b);
            Ok(1)
        }
    }

    /// Blocks until the UART finishes transmitting: busy-waits on the busy
    /// flag, making a completed `write` synchronous.  Infallible; the
    /// precondition is the liveness assumption that transmission finishes.
    pub fn flush(&mut self) -> (r: Result<(), Error>)
        requires
            wait_terminates(old(self).regs.fr, old(self).regs.fr_updates@, FR_BUSY),
        ensures
            RegisterBlock::wait_effect(old(self).regs, final(self).regs, FR_BUSY),
            r == Ok::<(), Error>(()),
    {
        let _ = self.regs.wait_until_clear(FR_BUSY);
        Ok(())
    }

    /// Whether a `write` can proceed without blocking: one poll of the Flag
    /// register, true iff the transmit FIFO is not full.
    pub fn write_ready(&mut self) -> (r: Result<bool, Error>)
        ensures
            RegisterBlock::poll_effect(old(self).regs, final(self).regs),
            r == Ok::<bool, Error>(bits_clear(old(self).regs.next_fr().bits, FR_TXFF)),
    {
        let f = self.regs.read_fr();
        Ok(!f.is_set(FR_TXFF))
    }

    /// Blocks (spinning) until a byte is available, then delivers it into
    /// `buf[0]` and reports one byte read; a decoded receive error
    /// propagates instead.  An empty buffer reports zero bytes read without
    /// touching the device.
    pub fn read(&mut self, buf: &mut Vec<u8>) -> (r: Result<usize, Error>)
        requires
            old(buf)@.len() > 0 ==> wait_terminates(
                old(self).regs.fr,
                old(self).regs.fr_updates@,
                FR_RXFE,
            ),
        ensures
            old(buf)@.len() == 0 ==> r == Ok::<usize, Error>(0) && *final(self) == *old(self)
                && final(buf)@ == old(buf)@,
            old(buf)@.len() > 0 ==> ({
                &&& rx_effect(old(self).regs, final(self).regs)
                &&& match spec_decode(old(self).regs.dr) {
                    Ok(b) => r == Ok::<usize, Error>(1) && final(buf)@ == old(buf)@.update(0, b),
                    Err(e) => r == Err::<usize, Error>(e) && final(buf)@ == old(buf)@,
                }
            }),
    {
        if buf.len() == 0 {
            return Ok(0);
        }
        let _ = self.regs.wait_until_clear(FR_RXFE);
        let data = self.regs.read_dr();
        proof {
            let obs = wait_observations(old(self).regs.fr, old(self).regs.fr_updates@, FR_RXFE);
            assert(self.regs.log@ =~= old(self).regs.log@ + reads_of(obs) + seq![
                read_access(Register::Data, old(self).regs.dr),
            ]);
        }
        match decode_data(data) {
            Ok(b) => {
                buf.insert(0, b);
                let _ = buf.remove(1);
                proof {
                    assert(buf@ =~= old(buf)@.update(0, b));
                }
                Ok(1)
            },
            Err(e) => Err(e),
        }
    }

    /// Whether a `read` can proceed without blocking: one poll of the Flag
    /// register, true iff the receive FIFO is not empty.
    pub fn read_ready(&mut self) -> (r: Result<bool, Error>)
        ensures
            RegisterBlock::poll_effect(old(self).regs, final(self).regs),
            r == Ok::<bool, Error>(bits_clear(old(self).regs.next_fr().bits, FR_RXFE)),
    {
        let f = self.regs.read_fr();
        Ok(!f.is_set(FR_RXFE))
    }
}

/// The access-log extension of transmitting `bytes` on a device whose
/// transmit FIFO stays ready: for each byte, one Flag read observing `fr`
/// and then one Data write of that byte.
pub open spec fn tx_log(fr: Flags, bytes: Seq<u8>) -> Seq<Access>
    decreases bytes.len(),
{
    if bytes.len() == 0 {
        Seq::empty()
    } else {
        seq![
            read_access(Register::Flag, fr.bits),
            write_access(Register::Data, bytes[0] as u16),
        ] + tx_log(fr, bytes.drop_first())
    }
}

/// Appending a byte to a transmission appends its flag read and data write
/// to the access log.
pub proof fn lemma_tx_log_snoc(fr: Flags, bytes: Seq<u8>, b: u8)
    ensures
        tx_log(fr, bytes.push(b)) == tx_log(fr, bytes) + seq![
            read_access(Register::Flag, fr.bits),
            write_access(Register::Data, b as u16),
        ],
    decreases bytes.len(),
{
    if bytes.len() == 0 {
        assert(bytes.push(b).drop_first() =~= Seq::<u8>::empty());
        assert(bytes.push(b)[0] == b);
        assert(tx_log(fr, Seq::<u8>::empty()) =~= Seq::<Access>::empty());
        assert(tx_log(fr, bytes.push(b)) =~= tx_log(fr, bytes) + seq![
            read_access(Register::Flag, fr.bits),
            write_access(Register::Data, b as u16),
        ]);
    } else {
        assert(bytes.push(b).drop_first() =~= bytes.drop_first().push(b));
        lemma_tx_log_snoc(fr, bytes.drop_first(), b);
        assert(tx_log(fr, bytes.push(b)) =~= tx_log(fr, bytes) + seq![
            read_access(Register::Flag, fr.bits),
            write_access(Register::Data, b as u16),
        ]);
    }
}

} // verus!
