use vstd::prelude::*;
use infrared::protocol::nec::NecDebugCmd;
use infrared::protocol::NecDebug;
use infrared::receiver::{DecodingError, NoPin};
use infrared::Receiver;

verus! {

#[verifier::external_type_specification]
#[verifier::external_body]
pub struct ExDecodingError(DecodingError);

/// Timer ticks per second that edge deltas are measured in.
pub const TICKS_PER_SECOND: u32 = 1_000_000;

/// The NEC pulse-distance receiver of the infrared crate, configured to hand out the
/// raw 32 bits of each frame. Verus refuses the receiver's own type, whose parameters
/// are bound by the crate's traits, so it is held here out of Verus's sight.
#[verifier::external_body]
struct NecReceiver {
    inner: Receiver<NecDebug, NoPin, u32, NecDebugCmd>,
}

/// Relies on infrared::Receiver::new: a receiver seeking a frame header, whose edge
/// deltas are counted at `freq` ticks per second.
#[verifier::external_body]
fn nec_receiver(freq: u32) -> NecReceiver {
    NecReceiver { inner: Receiver::<NecDebug, NoPin, u32, NecDebugCmd>::new(freq) }
}

/// The longest edge delta handed to the receiver. The receiver adds the deltas of a
/// falling and the following rising edge as `u32`, so each must stay within half the
/// range; any pulse this long is invalid, so capping a delta here does not change how
/// a pulse is classified.
pub const MAX_DELTA: u32 = 0x7fff_ffff;

/// Relies on infrared::Receiver::event: feeds one edge and hands out the 32 raw bits of
/// a frame once the frame is complete; after a complete frame or an error the receiver
/// seeks the next header. The receiver sums two consecutive deltas without overflow
/// check, hence the bound on `delta`.
#[verifier::external_body]
fn receiver_event(receiver: &mut NecReceiver, delta: u32, rising: bool) -> Result<
    Option<u32>,
    DecodingError,
>
    requires
        delta <= MAX_DELTA,
{
    receiver.inner.event(delta, rising).map(|c| c.map(|c| c.bits))
}

/// What one edge did to the frame in flight.
#[derive(PartialEq, Eq, Structural, Clone, Copy, Debug)]
pub enum DecodeResult {
    /// More edges are needed.
    Pending,
    /// A frame was complete and its command byte checked out.
    Command(u8),
    /// The frame was malformed; the decoder is back to seeking a header.
    ProtocolError,
}

/// Command byte of a 32-bit NEC frame with a 16-bit address: bits 16..24.
pub open spec fn frame_command(bits: u32) -> u8 {
    ((bits >> 16u32) & 0xffu32) as u8
}

/// The inverted copy of the command byte: bits 24..32.
pub open spec fn frame_complement(bits: u32) -> u8 {
    ((bits >> 24u32) & 0xffu32) as u8
}

/// A frame is valid when its last byte is the bitwise complement of the command byte.
pub open spec fn frame_is_valid(bits: u32) -> bool {
    frame_complement(bits) == !frame_command(bits)
}

/// The decode result for a complete frame.
pub open spec fn frame_result(bits: u32) -> DecodeResult {
    if frame_is_valid(bits) {
        DecodeResult::Command(frame_command(bits))
    } else {
        DecodeResult::ProtocolError
    }
}

/// The decode result for what the receiver handed out for one edge.
pub open spec fn event_result(ev: Result<Option<u32>, DecodingError>) -> DecodeResult {
    match ev {
        Ok(Some(bits)) => frame_result(bits),
        Ok(None) => DecodeResult::Pending,
        Err(_) => DecodeResult::ProtocolError,
    }
}

/// Turns what the receiver handed out for one edge into a decode result: a complete
/// frame is checked by `check_frame`, and a receiver error is a protocol error.
pub fn decode_event(ev: Result<Option<u32>, DecodingError>) -> (r: DecodeResult)
    ensures
        r == event_result(ev),
{
    match ev {
        Ok(Some(bits)) => check_frame(bits),
        Ok(None) => DecodeResult::Pending,
        Err(_) => DecodeResult::ProtocolError,
    }
}

/// Checks the command byte of a complete frame against its complement.
pub fn check_frame(bits: u32) -> (r: DecodeResult)
    ensures
        r == frame_result(bits),
{
    let command: u8 = ((bits >> 16u32) & 0xffu32) as u8;
    let complement: u8 = ((bits >> 24u32) & 0xffu32) as u8;
    if complement == !command {
        DecodeResult::Command(command)
    } else {
        DecodeResult::ProtocolError
    }
}

/// The 32 bits of a frame with a 16-bit `address`, a command byte, and the byte sent
/// as its complement, least significant bit first on the wire.
pub open spec fn frame_bits(address: u16, command: u8, complement: u8) -> u32 {
    (address as u32) | ((command as u32) << 16u32) | ((complement as u32) << 24u32)
}

/// A frame decodes to its command exactly when its last byte is the command's
/// complement, and is a protocol error otherwise, whatever its address.
pub proof fn lemma_frame_check(address: u16, command: u8, complement: u8)
    ensures
        frame_result(frame_bits(address, command, complement)) == if complement == !command {
            DecodeResult::Command(command)
        } else {
            DecodeResult::ProtocolError
        },
{
    let a = address as u32;
    let c = command as u32;
    let n = complement as u32;
    assert((((a | (c << 16u32) | (n << 24u32)) >> 16u32) & 0xffu32) == c) by (bit_vector)
        requires
            a < 0x10000,
            c < 0x100,
            n < 0x100,
    ;
    assert((((a | (c << 16u32) | (n << 24u32)) >> 24u32) & 0xffu32) == n) by (bit_vector)
        requires
            a < 0x10000,
            c < 0x100,
            n < 0x100,
    ;
}

/// The pulse-distance decoder: turns (delta, polarity) edge events into commands.
pub struct IrDecoder {
    receiver: NecReceiver,
    fed: Ghost<Seq<(u32, bool)>>,
}

impl IrDecoder {
    /// The edges fed so far, oldest first, as (delta, rising).
    pub closed spec fn fed(&self) -> Seq<(u32, bool)> {
        self.fed@
    }

    /// A decoder seeking a frame header, timing edges in microseconds.
    pub fn new() -> (r: IrDecoder)
        ensures
            r.fed() == Seq::<(u32, bool)>::empty(),
    {
        IrDecoder { receiver: nec_receiver(TICKS_PER_SECOND), fed: Ghost(Seq::empty()) }
    }

    /// Feeds one edge: `delta` ticks since the previous edge, and its polarity. A delta
    /// above `MAX_DELTA` reaches the receiver as `MAX_DELTA`. What the receiver hands
    /// out becomes the result through `decode_event`; any error leaves the decoder
    /// seeking the next header.
    pub fn feed(&mut self, delta: u32, rising: bool) -> (r: DecodeResult)
        ensures
            final(self).fed() == old(self).fed().push((delta, rising)),
    {
        let capped: u32 = if delta > MAX_DELTA { MAX_DELTA } else { delta };
        let ev = receiver_event(&mut self.receiver, capped, rising);
        self.fed = Ghost(self.fed@.push((delta, rising)));
        decode_event(ev)
    }
}

} // verus!
