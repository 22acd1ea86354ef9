//! Typed bit-flag sets for the four PL011 registers that carry named bits.
//!
//! Each register gets its own wrapper type around the raw 16-bit pattern, so
//! that a value read from one register cannot be confused with, or written to,
//! a register of another kind.  The named bit positions are module-level
//! constants, prefixed by the register they belong to.

use vstd::prelude::*;

verus! {

// Bits of the Data register: the received character in the low byte, with the
// per-character error status packed alongside it.
/// Mask of the data character bits in the Data register.
pub const DR_DATA: u16 = 0xFF;
/// Framing error bit in the Data register.
pub const DR_FE: u16 = 0x0100;
/// Parity error bit in the Data register.
pub const DR_PE: u16 = 0x0200;
/// Break error bit in the Data register.
pub const DR_BE: u16 = 0x0400;
/// Overrun error bit in the Data register.
pub const DR_OE: u16 = 0x0800;

// Bits of the Flag register.
/// Clear to send.
pub const FR_CTS: u16 = 0x0001;
/// Data set ready.
pub const FR_DSR: u16 = 0x0002;
/// Data carrier detect.
pub const FR_DCD: u16 = 0x0004;
/// UART busy transmitting data.
pub const FR_BUSY: u16 = 0x0008;
/// Receive FIFO is empty.
pub const FR_RXFE: u16 = 0x0010;
/// Transmit FIFO is full.
pub const FR_TXFF: u16 = 0x0020;
/// Receive FIFO is full.
pub const FR_RXFF: u16 = 0x0040;
/// Transmit FIFO is empty.
pub const FR_TXFE: u16 = 0x0080;
/// Ring indicator.
pub const FR_RI: u16 = 0x0100;

// Bits of the Receive Status / Error Clear register.
/// Framing error.
pub const RSR_FE: u16 = 0x0001;
/// Parity error.
pub const RSR_PE: u16 = 0x0002;
/// Break error.
pub const RSR_BE: u16 = 0x0004;
/// Overrun error.
pub const RSR_OE: u16 = 0x0008;

// Bits of the Control register.
/// UART enable.
pub const CR_UARTEN: u16 = 0x0001;
/// Serial infrared enable.
pub const CR_SIREN: u16 = 0x0002;
/// Serial infrared low-power mode.
pub const CR_SIRLP: u16 = 0x0004;
/// Loopback enable.
pub const CR_LBE: u16 = 0x0080;
/// Transmit enable.
pub const CR_TXE: u16 = 0x0100;
/// Receive enable.
pub const CR_RXE: u16 = 0x0200;
/// Data transmit ready.
pub const CR_DTR: u16 = 0x0400;
/// Request to send.
pub const CR_RTS: u16 = 0x0800;
/// Complement of the first modem status output.
pub const CR_OUT1: u16 = 0x1000;
/// Complement of the second modem status output.
pub const CR_OUT2: u16 = 0x2000;
/// Request-to-send hardware flow control enable.
pub const CR_RTSEN: u16 = 0x4000;
/// Clear-to-send hardware flow control enable.
pub const CR_CTSEN: u16 = 0x8000;

/// True iff every bit of `mask` is clear in `bits`.  For the single-bit masks
/// above this is the usual "flag not set".
pub open spec fn bits_clear(bits: u16, mask: u16) -> bool {
    bits & mask == 0
}

/// Per-character status read from the Data register alongside a byte.
#[derive(Clone, Copy, Debug, PartialEq, Eq, Structural)]
pub struct Data {
    pub bits: u16,
}

impl Data {
    /// Wraps a raw bit pattern read from the Data register.
    pub fn from_bits(bits: u16) -> (r: Data)
        ensures
            r.bits == bits,
    {
        Data { bits }
    }

    /// True iff some bit of `mask` is set.
    pub fn is_set(self, mask: u16) -> (r: bool)
        ensures
            r == !bits_clear(self.bits, mask),
    {
        self.bits & mask != 0
    }
}

/// Transfer status, read from the Flag register.
#[derive(Clone, Copy, Debug, PartialEq, Eq, Structural)]
pub struct Flags {
    pub bits: u16,
}

impl Flags {
    /// Wraps a raw bit pattern read from the Flag register.
    pub fn from_bits(bits: u16) -> (r: Flags)
        ensures
            r.bits == bits,
    {
        Flags { bits }
    }

    /// The flag value with every bit clear.
    pub fn empty() -> (r: Flags)
        ensures
            r.bits == 0,
    {
        Flags { bits: 0 }
    }

    /// True iff some bit of `mask` is set.
    pub fn is_set(self, mask: u16) -> (r: bool)
        ensures
            r == !bits_clear(self.bits, mask),
    {
        self.bits & mask != 0
    }
}

/// Receive error status, read from or written to the Receive Status register.
/// Writing any value clears the latched errors.
#[derive(Clone, Copy, Debug, PartialEq, Eq, Structural)]
pub struct ReceiveStatus {
    pub bits: u16,
}

impl ReceiveStatus {
    /// Wraps a raw bit pattern of the Receive Status register.
    pub fn from_bits(bits: u16) -> (r: ReceiveStatus)
        ensures
            r.bits == bits,
    {
        ReceiveStatus { bits }
    }

    /// The status value with every error bit clear.
    pub fn empty() -> (r: ReceiveStatus)
        ensures
            r.bits == 0,
    {
        ReceiveStatus { bits: 0 }
    }

    /// True iff some bit of `mask` is set.
    pub fn is_set(self, mask: u16) -> (r: bool)
        ensures
            r == !bits_clear(self.bits, mask),
    {
        self.bits & mask != 0
    }
}

/// Control bits, read from or written to the Control register.
#[derive(Clone, Copy, Debug, PartialEq, Eq, Structural)]
pub struct Control {
    pub bits: u16,
}

impl Control {
    /// Wraps a raw bit pattern of the Control register.
    pub fn from_bits(bits: u16) -> (r: Control)
        ensures
            r.bits == bits,
    {
        Control { bits }
    }

    /// True iff some bit of `mask` is set.
    pub fn is_set(self, mask: u16) -> (r: bool)
        ensures
            r == !bits_clear(self.bits, mask),
    {
        self.bits & mask != 0
    }
}

/// Clearing the enable bit leaves it clear and preserves every other bit:
/// what the read-modify-write step of initialization relies on.
pub proof fn lemma_clear_enable_preserves_rest(cr: u16, mask: u16)
    requires
        mask & CR_UARTEN == 0,
    ensures
        (cr & !CR_UARTEN) & CR_UARTEN == 0,
        (cr & !CR_UARTEN) & mask == cr & mask,
{
    assert((cr & !1u16) & 1u16 == 0) by (bit_vector);
    assert((cr & !1u16) & mask == cr & mask) by (bit_vector)
        requires
            mask & 1u16 == 0,
    ;
}

} // verus!
