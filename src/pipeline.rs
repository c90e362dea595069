use vstd::prelude::*;
use crate::debounce::{admits, Debouncer};
use crate::decoder::{DecodeResult, IrDecoder};
use crate::symbol::{command_symbol, map_command, Symbol};

verus! {

/// What the pipeline forwards for one decode result, given the debounce reference time:
/// a symbol, and the new reference time.
pub open spec fn accept_spec(last: Option<u64>, decoded: DecodeResult, now: u64) -> (
    Option<Symbol>,
    Option<u64>,
) {
    match decoded {
        DecodeResult::Command(code) => if admits(last, now) {
            (command_symbol(code), Some(now))
        } else {
            (None, last)
        },
        _ => (None, last),
    }
}

/// The decode side: edge captures in, symbols for the game out.
pub struct IrPipeline {
    decoder: IrDecoder,
    debouncer: Debouncer,
    last_capture: u32,
    rising: bool,
}

impl IrPipeline {
    /// The debounce reference time.
    pub closed spec fn last_accepted(&self) -> Option<u64> {
        self.debouncer@
    }

    /// The edges handed to the decoder so far, oldest first, as (delta, rising).
    pub closed spec fn fed_edges(&self) -> Seq<(u32, bool)> {
        self.decoder.fed()
    }

    /// The timer value of the previous edge.
    pub closed spec fn last_capture(&self) -> u32 {
        self.last_capture
    }

    /// The polarity that the next edge is taken to have.
    pub closed spec fn next_rising(&self) -> bool {
        self.rising
    }

    /// A pipeline that has seen no edge and accepted no command; the first edge is
    /// taken as rising and measured from timer value 0.
    pub fn new() -> (r: IrPipeline)
        ensures
            r.last_accepted() is None,
            r.fed_edges() == Seq::<(u32, bool)>::empty(),
            r.last_capture() == 0,
            r.next_rising(),
    {
        IrPipeline {
            decoder: IrDecoder::new(),
            debouncer: Debouncer::new(),
            last_capture: 0,
            rising: true,
        }
    }

    /// Passes one decode result through the debouncer and the command map.
    /// A command that is let through moves the reference time even when its code
    /// has no symbol.
    pub fn accept(&mut self, decoded: DecodeResult, now: u64) -> (r: Option<Symbol>)
        ensures
            (r, final(self).last_accepted()) == accept_spec(old(self).last_accepted(), decoded, now),
            final(self).last_capture() == old(self).last_capture(),
            final(self).next_rising() == old(self).next_rising(),
            final(self).fed_edges() == old(self).fed_edges(),
            r matches Some(s) ==> s.wf(),
    {
        match decoded {
            DecodeResult::Command(code) => {
                if self.debouncer.allow(now) {
                    map_command(code)
                } else {
                    None
                }
            },
            _ => None,
        }
    }

    /// Handles the edge captured at timer value `capture` and observed at `now`
    /// (milliseconds). The delta since the previous edge wraps with the timer, and
    /// polarity alternates from edge to edge.
    pub fn on_capture(&mut self, capture: u32, now: u64) -> (r: Option<Symbol>)
        ensures
            final(self).last_capture() == capture,
            final(self).next_rising() == !old(self).next_rising(),
            final(self).fed_edges() == old(self).fed_edges().push(
                (capture.wrapping_sub(old(self).last_capture()), old(self).next_rising()),
            ),
            exists|decoded: DecodeResult|
                (r, final(self).last_accepted()) == accept_spec(
                    old(self).last_accepted(),
                    decoded,
                    now,
                ),
            r matches Some(s) ==> s.wf(),
    {
        let delta: u32 = capture.wrapping_sub(self.last_capture);
        self.last_capture = capture;
        let decoded = self.decoder.feed(delta, self.rising);
        self.rising = !self.rising;
        self.accept(decoded, now)
    }
}

} // verus!
