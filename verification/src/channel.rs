//! Bounded FIFO event channel between the producers and the navigator.
//!
//! Multiple producers (the button sampler, the tick source) append events;
//! the single consumer takes them from the front. The queue is bounded: a
//! full queue refuses a send instead of dropping or overwriting, so the
//! caller can apply backpressure by retrying. Receives return events in
//! send-completion order with no reordering between button and tick events.

use vstd::prelude::*;
use crate::state::{UIEvent, UI_CHANNEL_SIZE};

verus! {

pub struct EventChannel {
    items: Vec<UIEvent>,
}

impl EventChannel {
    /// The events in flight, oldest first.
    pub closed spec fn contents(&self) -> Seq<UIEvent> {
        self.items@
    }

    pub open spec fn wf(&self) -> bool {
        self.contents().len() <= UI_CHANNEL_SIZE
    }

    pub fn new() -> (r: Self)
        ensures
            r.contents() == Seq::<UIEvent>::empty(),
            r.wf(),
    {
        EventChannel { items: Vec::new() }
    }

    pub fn len(&self) -> (n: usize)
        ensures
            n == self.contents().len(),
    {
        self.items.len()
    }

    pub fn is_empty(&self) -> (r: bool)
        ensures
            r == (self.contents().len() == 0),
    {
        self.items.len() == 0
    }

    pub fn is_full(&self) -> (r: bool)
        ensures
            r == (self.contents().len() == UI_CHANNEL_SIZE),
    {
        self.items.len() == UI_CHANNEL_SIZE
    }

    /// Nonblocking send: appends at the tail when there is room and reports
    /// whether it did. A full channel leaves the contents unchanged, so no
    /// event is ever silently dropped; the producer suspends and retries.
    pub fn try_send(&mut self, e: UIEvent) -> (ok: bool)
        requires
            old(self).wf(),
        ensures
            final(self).wf(),
            ok == (old(self).contents().len() < UI_CHANNEL_SIZE),
            ok ==> final(self).contents() == old(self).contents().push(e),
            !ok ==> final(self).contents() == old(self).contents(),
    {
        if self.items.len() < UI_CHANNEL_SIZE {
            self.items.push(e);
            true
        } else {
            false
        }
    }

    /// Nonblocking receive: takes the oldest event, or reports an empty
    /// channel and changes nothing.
    pub fn try_receive(&mut self) -> (r: Option<UIEvent>)
        requires
            old(self).wf(),
        ensures
            final(self).wf(),
            old(self).contents().len() == 0 ==> r is None,
            old(self).contents().len() == 0 ==> final(self).contents() == old(self).contents(),
            old(self).contents().len() > 0 ==> r == Some(old(self).contents()[0]),
            old(self).contents().len() > 0 ==> final(self).contents() == old(
                self,
            ).contents().drop_first(),
    {
        if self.items.len() > 0 {
            let e = self.items.remove(0);
            proof {
                assert(self.items@ =~= old(self).contents().drop_first());
            }
            Some(e)
        } else {
            None
        }
    }

    /// Receive every pending event at once. The result lists the events in
    /// exactly the order their sends completed, oldest first: repeated
    /// receives walk the contents front to back.
    pub fn drain(&mut self) -> (r: Vec<UIEvent>)
        requires
            old(self).wf(),
        ensures
            final(self).wf(),
            final(self).contents().len() == 0,
            r@ == old(self).contents(),
    {
        let ghost orig = self.contents();
        let mut out: Vec<UIEvent> = Vec::new();
        while self.items.len() > 0
            invariant
                self.wf(),
                out@ + self.contents() == orig,
            decreases self.contents().len(),
        {
            let e = self.items.remove(0);
            out.push(e);
            proof {
                assert(out@ + self.contents() =~= orig);
            }
        }
        proof {
            assert(out@ =~= orig);
        }
        out
    }
}

/// FIFO law: when one send completes before another begins, the channel
/// holds the first event ahead of the second, whichever producer sent which;
/// since receives walk the contents front to back (see
/// [`EventChannel::try_receive`] and [`EventChannel::drain`]), the consumer
/// sees the first event before the second.
pub proof fn lemma_channel_fifo(c0: Seq<UIEvent>, e1: UIEvent, e2: UIEvent)
    ensures
        c0.push(e1).push(e2) == c0 + seq![e1, e2],
        c0.push(e1).push(e2)[c0.len() as int] == e1,
        c0.push(e1).push(e2)[c0.len() as int + 1] == e2,
{
    assert(c0.push(e1).push(e2) =~= c0 + seq![e1, e2]);
}

} // verus!
