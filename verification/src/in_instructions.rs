//! A view over the node client pinned at one block, and the classification
//! of its incoming-instruction events. Fetching events is the caller's I/O;
//! the selection of batch events lives here.

use vstd::prelude::*;

verus! {

/// Which external network an event concerns.
#[derive(Clone, Copy, PartialEq, Eq, Debug)]
pub enum NetworkId {
    Serai,
    Bitcoin,
    Ethereum,
    Monero,
}

/// An incoming-instruction event: a batch of instructions confirmed for a
/// network's block, or a halt of a network's batches.
#[derive(Clone, Copy, PartialEq, Eq, Debug)]
pub enum InInstructionsEvent {
    Batch { network: NetworkId, id: u32, block: [u8; 32] },
    Halt { network: NetworkId },
}

/// A node event, as far as this layer reads it: an incoming-instruction
/// event, or anything from another pallet.
#[derive(Clone, Copy, PartialEq, Eq, Debug)]
pub enum Event {
    InInstructions(InInstructionsEvent),
    Other,
}

/// The client view pinned at one block.
#[derive(Clone, Copy, PartialEq, Eq, Debug)]
pub struct TemporalSerai {
    /// The hash of the block the view is anchored at.
    pub block: [u8; 32],
}

/// The batch events among `events`, in order.
pub open spec fn spec_batch_events(events: Seq<Event>) -> Seq<InInstructionsEvent>
    decreases events.len(),
{
    if events.len() == 0 {
        Seq::empty()
    } else {
        let rest = spec_batch_events(events.drop_last());
        match events.last() {
            Event::InInstructions(ev) => if ev matches InInstructionsEvent::Batch { .. } {
                rest.push(ev)
            } else {
                rest
            },
            Event::Other => rest,
        }
    }
}

/// The incoming-instructions interface over a client view.
#[derive(Clone, Copy)]
pub struct SeraiInInstructions(pub TemporalSerai);

impl SeraiInInstructions {
    /// Gives back the underlying client view.
    pub fn into_inner(self) -> (r: TemporalSerai)
        ensures
            r == self.0,
    {
        self.0
    }

    /// Selects the batch events out of the events the caller fetched for this
    /// view's block, keeping their order; halts and other pallets' events are
    /// dropped.
    pub fn batch_events(&self, events: &Vec<Event>) -> (r: Vec<InInstructionsEvent>)
        ensures
            r@ == spec_batch_events(events@),
    {
        let n = events.len();
        let mut r: Vec<InInstructionsEvent> = Vec::new();
        let mut i: usize = 0;
        while i < n
            invariant
                n == events@.len(),
                0 <= i <= n,
                r@ == spec_batch_events(events@.take(i as int)),
            decreases n - i,
        {
            match &events[i] {
                Event::InInstructions(ev) => {
                    match ev {
                        InInstructionsEvent::Batch { .. } => {
                            r.push(*ev);
                        }
                        InInstructionsEvent::Halt { .. } => {}
                    }
                }
                Event::Other => {}
            }
            proof {
                assert(events@.take(i + 1).drop_last() =~= events@.take(i as int));
                assert(events@.take(i + 1).last() == events@[i as int]);
            }
            i += 1;
        }
        proof {
            assert(events@.take(n as int) =~= events@);
        }
        r
    }
}

} // verus!
