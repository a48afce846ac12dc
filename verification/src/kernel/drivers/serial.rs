//! COM1 serial console (16550 UART at port `0x3F8`).
//!
//! Port I/O (`in`, `out`) is the caller's hardware work. This module holds
//! the decisions: the configuration writes of `init` and what to do with
//! the loopback byte read back, and, for transmission, when the line status
//! allows the next byte to go out and which byte it is.

use vstd::prelude::*;
use vstd::string::StringSliceAdditionalSpecFns;

verus! {

/// Base I/O port of the first serial port.
pub const COM1: u16 = 0x3F8;

/// Line status register bit: the transmitter holding register is empty.
pub const LSR_TRANSMIT_EMPTY: u8 = 0x20;

/// Byte echoed through the loopback test of `init`.
pub const LOOPBACK_TEST_BYTE: u8 = 0xAE;

/// One byte written to one I/O port.
#[derive(Clone, Copy, Debug, PartialEq, Eq, Structural)]
pub struct PortWrite {
    pub port: u16,
    pub value: u8,
}

/// The writes that configure COM1 and then send the loopback test byte:
/// interrupts off, 38400 baud (divisor 3), 8N1, FIFO enabled and cleared
/// with a 14-byte threshold, RTS/DSR set, loopback mode, test byte `0xAE`.
pub open spec fn init_writes() -> Seq<PortWrite> {
    seq![
        PortWrite { port: 0x3F9, value: 0x00 },
        PortWrite { port: 0x3FB, value: 0x80 },
        PortWrite { port: 0x3F8, value: 0x03 },
        PortWrite { port: 0x3F9, value: 0x00 },
        PortWrite { port: 0x3FB, value: 0x03 },
        PortWrite { port: 0x3FA, value: 0xC7 },
        PortWrite { port: 0x3FC, value: 0x0B },
        PortWrite { port: 0x3FC, value: 0x1E },
        PortWrite { port: 0x3F8, value: 0xAE },
    ]
}

/// The first stage of initialisation: the configuration writes, in order,
/// ending with the loopback test byte. The caller then reads back port
/// `COM1` and hands the byte to `init_loopback`.
pub fn init() -> (writes: [PortWrite; 9])
    ensures
        writes@ == init_writes(),
{
    let w = [
        PortWrite { port: COM1 + 1, value: 0x00 },
        PortWrite { port: COM1 + 3, value: 0x80 },
        PortWrite { port: COM1, value: 0x03 },
        PortWrite { port: COM1 + 1, value: 0x00 },
        PortWrite { port: COM1 + 3, value: 0x03 },
        PortWrite { port: COM1 + 2, value: 0xC7 },
        PortWrite { port: COM1 + 4, value: 0x0B },
        PortWrite { port: COM1 + 4, value: 0x1E },
        PortWrite { port: COM1, value: LOOPBACK_TEST_BYTE },
    ];
    assert(w@ =~= init_writes());
    w
}

/// The second stage: when the byte read back is the test byte, the port
/// works and leaves loopback mode for normal operation (modem control
/// `0x0F`); otherwise it is left as it is.
pub fn init_loopback(received: u8) -> (w: Option<PortWrite>)
    ensures
        received == LOOPBACK_TEST_BYTE ==> w == Some(PortWrite { port: 0x3FC, value: 0x0F }),
        received != LOOPBACK_TEST_BYTE ==> w is None,
{
    if received != LOOPBACK_TEST_BYTE {
        return None;
    }
    Some(PortWrite { port: COM1 + 4, value: 0x0F })
}

/// Whether a line status byte says the transmitter can take a byte.
pub open spec fn transmit_ready(line_status: u8) -> bool {
    (line_status / 0x20) % 2 == 1
}

/// The transmitter is ready exactly when bit 5 of the line status (the
/// transmitter holding register is empty) is set; no other bit matters.
pub proof fn lemma_transmit_ready_is_bit_5(line_status: u8)
    ensures
        transmit_ready(line_status) <==> line_status & 0x20 != 0,
        forall|other: u8|
            other & 0x20 == line_status & 0x20 ==> (transmit_ready(other) <==> transmit_ready(
                line_status,
            )),
{
    assert((line_status & 0x20 == 0) == ((line_status / 0x20) % 2 == 0)) by (bit_vector);
    assert(forall|x: u8| #[trigger] (x & 0x20) == 0 <==> (x / 0x20) % 2 == 0) by (bit_vector);
}

/// Sending `byte`, given the line status just read from port `COM1 + 5`:
/// the data write once the transmitter holding register is empty, `None`
/// (read the status again) while it is not.
pub fn write_byte(line_status: u8, byte: u8) -> (w: Option<PortWrite>)
    ensures
        transmit_ready(line_status) ==> w == Some(PortWrite { port: COM1, value: byte }),
        !transmit_ready(line_status) ==> w is None,
        line_status & 0x20 != 0 ==> w == Some(PortWrite { port: 0x3F8, value: byte }),
        line_status & 0x20 == 0 ==> w is None,
{
    assert((line_status & 0x20 == 0) == ((line_status / 0x20) % 2 == 0)) by (bit_vector);
    if line_status & LSR_TRANSMIT_EMPTY == 0 {
        None
    } else {
        Some(PortWrite { port: COM1, value: byte })
    }
}

/// The bytes of `parts`, one after the other.
pub open spec fn joined(parts: Seq<&str>) -> Seq<u8>
    decreases parts.len(),
{
    if parts.len() == 0 {
        Seq::empty()
    } else {
        joined(parts.drop_last()) + parts.last().spec_bytes()
    }
}

/// A text being sent to COM1 byte by byte.
pub struct SerialTx<'a> {
    bytes: &'a [u8],
    pos: usize,
}

impl<'a> SerialTx<'a> {
    #[verifier::type_invariant]
    spec fn sent_within_text(self) -> bool {
        self.pos <= self.bytes@.len()
    }

    /// The whole text to send.
    pub closed spec fn text(self) -> Seq<u8> {
        self.bytes@
    }

    /// How many bytes have gone out so far.
    pub closed spec fn sent_count(self) -> nat {
        self.pos as nat
    }

    /// The bytes gone out so far: always the first `sent_count` bytes of
    /// the text, in order.
    pub closed spec fn sent(self) -> Seq<u8> {
        self.bytes@.take(self.pos as int)
    }

    /// Starts sending `bytes`.
    pub fn new(bytes: &'a [u8]) -> (tx: Self)
        ensures
            tx.text() == bytes@,
            tx.sent_count() == 0,
            tx.sent() == Seq::<u8>::empty(),
    {
        let tx = SerialTx { bytes, pos: 0 };
        assert(tx.sent() =~= Seq::<u8>::empty());
        tx
    }

    /// Whether every byte has gone out.
    pub fn is_done(&self) -> (done: bool)
        ensures
            done == (self.sent_count() == self.text().len()),
            done ==> self.sent() == self.text(),
    {
        proof {
            use_type_invariant(self);
            assert(self.bytes@.take(self.bytes@.len() as int) =~= self.bytes@);
        }
        self.pos == self.bytes.len()
    }

    /// Given the line status just read, the write that sends the next byte
    /// (and counts it as sent), or `None` when the transmitter is busy or
    /// the text is all sent.
    pub fn on_line_status(&mut self, line_status: u8) -> (w: Option<PortWrite>)
        ensures
            final(self).text() == old(self).text(),
            old(self).sent_count() <= old(self).text().len(),
            final(self).sent_count() <= final(self).text().len(),
            old(self).sent_count() < old(self).text().len() && transmit_ready(line_status) ==> w
                == Some(PortWrite { port: COM1, value: old(self).text()[old(self).sent_count() as int] })
                && final(self).sent_count() == old(self).sent_count() + 1,
            !(old(self).sent_count() < old(self).text().len() && transmit_ready(line_status)) ==> w
                is None && final(self).sent_count() == old(self).sent_count(),
            old(self).sent_count() < old(self).text().len() && line_status & 0x20 != 0 ==> w == Some(
                PortWrite { port: 0x3F8, value: old(self).text()[old(self).sent_count() as int] },
            ),
            line_status & 0x20 == 0 ==> w is None,
            w matches Some(pw) ==> final(self).sent() == old(self).sent().push(pw.value),
            w is None ==> final(self).sent() == old(self).sent(),
    {
        proof {
            use_type_invariant(&*self);
            if self.pos < self.bytes@.len() {
                assert(self.bytes@.take(self.pos + 1) =~= self.bytes@.take(self.pos as int).push(
                    self.bytes@[self.pos as int],
                ));
            }
        }
        if self.pos == self.bytes.len() {
            return None;
        }
        let w = write_byte(line_status, self.bytes[self.pos]);
        if w.is_some() {
            self.pos = self.pos + 1;
        }
        w
    }
}

/// Starts sending `text` to COM1.
pub fn write_str<'a>(text: &'a str) -> (tx: SerialTx<'a>)
    ensures
        tx.text() == text.spec_bytes(),
        tx.sent_count() == 0,
        tx.sent() == Seq::<u8>::empty(),
{
    SerialTx::new(text.as_bytes())
}

} // verus!
