//! Tests of the driver operations against the register-block model.

use pl011::flags::{Control, Flags};
use pl011::registers::{Access, AccessKind, Register, RegisterBlock};
use pl011::uart::{checked_divisor_parts, decode_data, Error, ErrorKind, Uart};

fn rd(reg: Register, value: u16) -> Access {
    Access { kind: AccessKind::Read, reg, value }
}

fn wr(reg: Register, value: u16) -> Access {
    Access { kind: AccessKind::Write, reg, value }
}

fn fresh_uart() -> Uart {
    Uart::new(RegisterBlock::new())
}

#[test]
fn divisor_parts_exact() {
    // (3686400 << 2) / 115200 == 128: integer part 2, fractional part 0.
    assert_eq!(checked_divisor_parts(3_686_400, 115_200), Some((2, 0)));
    // (48000000 << 2) / 115200 == 1666: integer part 26, fraction 2.
    assert_eq!(checked_divisor_parts(48_000_000, 115_200), Some((26, 2)));
}

#[test]
fn divisor_shift_truncates() {
    // The clock shifted left by two wraps at 32 bits, as the register
    // arithmetic does: 0xF0000000 << 2 == 0xC0000000.
    assert_eq!(checked_divisor_parts(0xF000_0000, 0x1_0000), Some((768, 0)));
}

#[test]
fn divisor_rejects_bad_inputs() {
    // A zero baud rate is a caller error.
    assert_eq!(checked_divisor_parts(3_686_400, 0), None);
    // An integer part beyond 16 bits cannot be programmed.
    assert_eq!(checked_divisor_parts(0x0FFF_FFFF, 1), None);
}

#[test]
fn init_writes_in_fixed_order() {
    let mut u = fresh_uart();
    u.regs.cr = Control::from_bits(0x0C81);
    u.init(3_686_400, 115_200);
    assert_eq!(
        u.regs.log,
        vec![
            rd(Register::Control, 0x0C81),
            // Disable (enable bit cleared, others preserved) ...
            wr(Register::Control, 0x0C80),
            // ... then the divisor registers ...
            wr(Register::IntBaud, 2),
            wr(Register::FracBaud, 0),
            // ... then clear stale receive errors ...
            wr(Register::RecvStatus, 0),
            // ... and finally enable with receive and transmit on.
            wr(Register::Control, 0x0301),
        ]
    );
    assert_eq!(u.regs.ibrd, 2);
    assert_eq!(u.regs.fbrd, 0);
    assert_eq!(u.regs.cr.bits, 0x0301);
    assert_eq!(u.regs.rsr.bits, 0);
}

#[test]
fn write_byte_with_room_writes_at_once() {
    let mut u = fresh_uart();
    // RX empty, TX not full.
    u.regs.fr = Flags::from_bits(0x0010);
    u.write_byte(0x41);
    assert_eq!(u.regs.log, vec![rd(Register::Flag, 0x0010), wr(Register::Data, 0x0041)]);
    assert_eq!(u.regs.dr, 0x0041);
}

#[test]
fn write_byte_spins_while_fifo_full() {
    let mut u = fresh_uart();
    // Two polls still see the FIFO full; the third sees room.
    u.regs.fr_updates = vec![
        Flags::from_bits(0x0020),
        Flags::from_bits(0x0020),
        Flags::from_bits(0x0000),
    ];
    u.write_byte(0x55);
    assert_eq!(
        u.regs.log,
        vec![
            rd(Register::Flag, 0x0020),
            rd(Register::Flag, 0x0020),
            rd(Register::Flag, 0x0000),
            wr(Register::Data, 0x0055),
        ]
    );
    assert_eq!(u.regs.dr, 0x0055);
    assert!(u.regs.fr_updates.is_empty());
}

#[test]
fn read_byte_reports_no_data_when_rx_empty() {
    let mut u = fresh_uart();
    u.regs.fr = Flags::from_bits(0x0010);
    // Whatever the Data register holds — even error bits — is not looked at.
    u.regs.dr = 0x0F42;
    assert_eq!(u.read_byte(), Ok(None));
    assert_eq!(u.regs.log, vec![rd(Register::Flag, 0x0010)]);
}

#[test]
fn read_byte_error_priority() {
    // Framing wins over every other error bit, then parity, break, overrun.
    let cases = [
        (0x0F42, Err(Error::Framing)),
        (0x0E42, Err(Error::Parity)),
        (0x0C42, Err(Error::Break)),
        (0x0842, Err(Error::Overrun)),
        (0x0042, Ok(Some(0x42))),
    ];
    for (data, expected) in cases {
        let mut u = fresh_uart();
        u.regs.dr = data;
        assert_eq!(u.read_byte(), expected);
        // The erroring read consumed the slot just like a successful one.
        assert_eq!(u.regs.log, vec![rd(Register::Flag, 0), rd(Register::Data, data)]);
    }
}

#[test]
fn decode_data_matches_priority() {
    assert_eq!(decode_data(0x0141), Err(Error::Framing));
    assert_eq!(decode_data(0x0241), Err(Error::Parity));
    assert_eq!(decode_data(0x0441), Err(Error::Break));
    assert_eq!(decode_data(0x0841), Err(Error::Overrun));
    assert_eq!(decode_data(0x0041), Ok(0x41));
    assert_eq!(decode_data(0x00FF), Ok(0xFF));
}

#[test]
fn error_kinds() {
    assert_eq!(Error::Break.kind(), ErrorKind::Other);
    assert_eq!(Error::Overrun.kind(), ErrorKind::Other);
    assert_eq!(Error::Framing.kind(), ErrorKind::InvalidData);
    assert_eq!(Error::Parity.kind(), ErrorKind::InvalidData);
}

#[test]
fn stream_write_empty_buffer_is_a_no_op() {
    let mut u = fresh_uart();
    assert_eq!(u.write(&[]), Ok(0));
    assert!(u.regs.log.is_empty());
    assert_eq!(u.regs.dr, 0);
}

#[test]
fn stream_write_sends_exactly_the_first_byte() {
    let mut u = fresh_uart();
    assert_eq!(u.write(&[0x41, 0x42, 0x43]), Ok(1));
    assert_eq!(u.regs.dr, 0x0041);
    assert_eq!(u.regs.log, vec![rd(Register::Flag, 0), wr(Register::Data, 0x0041)]);
}

#[test]
fn stream_read_empty_buffer_is_a_no_op() {
    let mut u = fresh_uart();
    let mut buf: Vec<u8> = Vec::new();
    assert_eq!(u.read(&mut buf), Ok(0));
    assert!(u.regs.log.is_empty());
}

#[test]
fn stream_read_blocks_until_data_then_delivers() {
    let mut u = fresh_uart();
    // First poll: still empty; second poll: data present.
    u.regs.fr = Flags::from_bits(0x0010);
    u.regs.fr_updates = vec![Flags::from_bits(0x0010), Flags::from_bits(0x0000)];
    u.regs.dr = 0x0042;
    let mut buf: Vec<u8> = vec![0xEE, 0xEF];
    assert_eq!(u.read(&mut buf), Ok(1));
    assert_eq!(buf, vec![0x42, 0xEF]);
    assert_eq!(
        u.regs.log,
        vec![
            rd(Register::Flag, 0x0010),
            rd(Register::Flag, 0x0000),
            rd(Register::Data, 0x0042),
        ]
    );
}

#[test]
fn stream_read_propagates_decoded_error() {
    let mut u = fresh_uart();
    u.regs.dr = 0x0813;
    let mut buf: Vec<u8> = vec![0];
    assert_eq!(u.read(&mut buf), Err(Error::Overrun));
    assert_eq!(buf, vec![0]);
}

#[test]
fn flush_waits_for_busy_to_clear() {
    let mut u = fresh_uart();
    u.regs.fr_updates = vec![Flags::from_bits(0x0008), Flags::from_bits(0x0000)];
    assert_eq!(u.flush(), Ok(()));
    assert_eq!(u.regs.log, vec![rd(Register::Flag, 0x0008), rd(Register::Flag, 0x0000)]);
}

#[test]
fn is_transmitting_reads_busy_flag() {
    let mut u = fresh_uart();
    u.regs.fr = Flags::from_bits(0x0008);
    assert!(u.is_transmitting());
    u.regs.fr = Flags::from_bits(0x0000);
    assert!(!u.is_transmitting());
}

#[test]
fn readiness_queries() {
    let mut u = fresh_uart();
    // TX full, RX empty: neither direction ready.
    u.regs.fr = Flags::from_bits(0x0030);
    assert_eq!(u.write_ready(), Ok(false));
    assert_eq!(u.read_ready(), Ok(false));
    // All flags clear: both ready.
    u.regs.fr = Flags::from_bits(0x0000);
    assert_eq!(u.write_ready(), Ok(true));
    assert_eq!(u.read_ready(), Ok(true));
}

#[test]
fn write_all_sends_every_byte_in_order() {
    let mut u = fresh_uart();
    u.write_all(&[0x68, 0x69, 0x21]);
    assert_eq!(
        u.regs.log,
        vec![
            rd(Register::Flag, 0),
            wr(Register::Data, 0x0068),
            rd(Register::Flag, 0),
            wr(Register::Data, 0x0069),
            rd(Register::Flag, 0),
            wr(Register::Data, 0x0021),
        ]
    );
    assert_eq!(u.regs.dr, 0x0021);
}

#[test]
fn end_to_end_scenario() {
    // Registers start with RX-empty set and TX-full clear.
    let mut u = fresh_uart();
    u.regs.fr = Flags::from_bits(0x0010);
    // The caller writes a byte: exactly one volatile write of 0x0041 to the
    // Data register, after a single poll (no spinning, TX-full was clear).
    u.write_byte(0x41);
    assert_eq!(u.regs.log, vec![rd(Register::Flag, 0x0010), wr(Register::Data, 0x0041)]);
    // The hardware then clears RX-empty and presents 0x0042.
    u.regs.fr = Flags::from_bits(0x0000);
    u.regs.dr = 0x0042;
    assert_eq!(u.read_byte(), Ok(Some(0x42)));
}

#[test]
fn register_offsets_match_documented_map() {
    assert_eq!(Register::Data.byte_offset(), 0x000);
    assert_eq!(Register::RecvStatus.byte_offset(), 0x004);
    assert_eq!(Register::Flag.byte_offset(), 0x018);
    assert_eq!(Register::IrdaLowPower.byte_offset(), 0x020);
    assert_eq!(Register::IntBaud.byte_offset(), 0x024);
    assert_eq!(Register::FracBaud.byte_offset(), 0x028);
    assert_eq!(Register::LineControl.byte_offset(), 0x02c);
    assert_eq!(Register::Control.byte_offset(), 0x030);
    assert_eq!(Register::FifoLevel.byte_offset(), 0x034);
    assert_eq!(Register::IntMask.byte_offset(), 0x038);
    assert_eq!(Register::RawIntStatus.byte_offset(), 0x03c);
    assert_eq!(Register::MaskedIntStatus.byte_offset(), 0x040);
    assert_eq!(Register::IntClear.byte_offset(), 0x044);
    assert_eq!(Register::DmaControl.byte_offset(), 0x048);
}

#[test]
fn fresh_block_is_zeroed() {
    let r = RegisterBlock::new();
    assert_eq!(r.dr, 0);
    assert_eq!(r.fr.bits, 0);
    assert_eq!(r.cr.bits, 0);
    assert_eq!(r.ibrd, 0);
    assert_eq!(r.fbrd, 0);
    assert!(r.fr_updates.is_empty());
    assert!(r.log.is_empty());
}
