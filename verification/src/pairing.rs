//! Channel pairing of the acquisition loop.
//!
//! The converter delivers its two channels interleaved, in a fixed but not
//! necessarily aligned order, and the hardware wiring swaps them: the
//! converter's channel 1 is the instrument's logical channel 0.  The
//! pairer buffers the sample for logical channel 1 and, when the logical
//! channel 0 sample of the round arrives, emits the pair — one message,
//! handed to the compute task by value.

use vstd::prelude::*;

verus! {

/// State of the acquisition loop between samples: the latest sample the
/// converter reported on its channel 0, which is the instrument's logical
/// channel 1.  Starts at zero in case logical channel 0 arrives first.
pub struct SamplePairer {
    pub buffered_ch1: u32,
}

/// The pairs an event sequence produces, starting from a buffered logical
/// channel 1 value: converter channel 0 samples refill the buffer,
/// anything else completes a `[logical 0, logical 1]` pair.
pub open spec fn pairs_emitted(events: Seq<(u32, u8)>, buffered: u32) -> Seq<[u32; 2]>
    decreases events.len(),
{
    if events.len() == 0 {
        Seq::empty()
    } else {
        let (data, ch) = events[0];
        if ch == 0 {
            pairs_emitted(events.drop_first(), data)
        } else {
            seq![[data, buffered]] + pairs_emitted(events.drop_first(), buffered)
        }
    }
}

impl SamplePairer {
    pub fn new() -> (r: SamplePairer)
        ensures
            r.buffered_ch1 == 0,
    {
        SamplePairer { buffered_ch1: 0 }
    }

    /// Take in one `(sample, channel)` event.  A converter channel 0
    /// sample is buffered as logical channel 1; any other channel id
    /// completes the round and yields the `[logical 0, logical 1]` pair.
    pub fn on_sample(&mut self, data: u32, ch: u8) -> (r: Option<[u32; 2]>)
        ensures
            ch == 0 ==> r is None && final(self).buffered_ch1 == data,
            ch != 0 ==> r == Some([data, old(self).buffered_ch1]) && *final(self) == *old(
                self,
            ),
    {
        if ch == 0 {
            self.buffered_ch1 = data;
            None
        } else {
            Some([data, self.buffered_ch1])
        }
    }

    /// Drain a whole event sequence, collecting every completed pair.
    pub fn process_events(&mut self, events: &Vec<(u32, u8)>) -> (r: Vec<[u32; 2]>)
        ensures
            r@ == pairs_emitted(events@, old(self).buffered_ch1),
    {
        let mut out: Vec<[u32; 2]> = Vec::new();
        let mut i: usize = 0;
        proof {
            assert(events@.skip(0) =~= events@);
            assert(Seq::<[u32; 2]>::empty() + pairs_emitted(events@, self.buffered_ch1)
                =~= pairs_emitted(events@, self.buffered_ch1));
        }
        while i < events.len()
            invariant
                i <= events@.len(),
                out@ + pairs_emitted(events@.skip(i as int), self.buffered_ch1)
                    == pairs_emitted(events@, old(self).buffered_ch1),
            decreases events@.len() - i,
        {
            let (data, ch) = events[i];
            proof {
                assert(events@.skip(i as int).drop_first() =~= events@.skip(i + 1));
                assert(events@.skip(i as int)[0] == events@[i as int]);
            }
            let emitted = self.on_sample(data, ch);
            match emitted {
                Some(pair) => out.push(pair),
                None => {},
            }
            proof {
                assert(out@ + pairs_emitted(events@.skip(i + 1), self.buffered_ch1)
                    =~= pairs_emitted(events@, old(self).buffered_ch1));
            }
            i = i + 1;
        }
        proof {
            assert(events@.skip(events@.len() as int) =~= Seq::<(u32, u8)>::empty());
            assert(out@ =~= pairs_emitted(events@, old(self).buffered_ch1));
        }
        out
    }
}

/// Pairing law for the documented interleaving: when the converter
/// alternates channel 1 then channel 0, each channel 1 sample `a` is
/// emitted at once as the pair `[a, buffered]`, and the following channel
/// 0 sample `b` only refills the buffer for the next round — the swapped
/// channel mapping in action.
pub proof fn lemma_alternating_pairs(
    events: Seq<(u32, u8)>,
    a: u32,
    c: u8,
    b: u32,
    buffered: u32,
)
    requires
        c != 0,
    ensures
        pairs_emitted(seq![(a, c), (b, 0u8)] + events, buffered) == seq![[a, buffered]]
            + pairs_emitted(events, b),
{
    let whole = seq![(a, c), (b, 0u8)] + events;
    assert(whole[0] == (a, c));
    assert(whole.drop_first() =~= seq![(b, 0u8)] + events);
    assert(whole.drop_first()[0] == (b, 0u8));
    assert(whole.drop_first().drop_first() =~= events);
    assert(pairs_emitted(whole.drop_first(), buffered) == pairs_emitted(events, b));
    assert(pairs_emitted(whole, buffered) =~= seq![[a, buffered]] + pairs_emitted(events, b));
}

} // verus!
