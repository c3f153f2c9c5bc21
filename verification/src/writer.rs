//! The writer that passes every request on to its sink and keeps what the
//! sink took.

use vstd::prelude::*;
use crate::history::{
    accepted,
    accepted_prefix,
    delivered,
    lemma_delivered_all,
    lemma_delivered_push,
    offered,
    Offer,
};
use crate::sink::Sink;

verus! {

/// A sink in front of another sink. It hands each request to the sink it
/// owns, unchanged, and keeps a copy of every byte that this sink took,
/// together with their number. Nothing is ever dropped from that copy.
pub struct LengthTrackingWriter<W: Sink> {
    inner: W,
    length: usize,
    buffer: Vec<u8>,
    /// The writes made so far, each with the sink's answer.
    writes: Ghost<Seq<Offer>>,
}

impl<W: Sink> View for LengthTrackingWriter<W> {
    type V = Seq<u8>;

    /// The bytes kept so far, in the order in which the sink took them.
    closed spec fn view(&self) -> Seq<u8> {
        self.buffer@
    }
}

impl<W: Sink> LengthTrackingWriter<W> {
    /// The sink that this writer owns.
    pub closed spec fn sink(&self) -> W {
        self.inner
    }

    /// The number of bytes taken that the writer has counted.
    pub closed spec fn count(&self) -> nat {
        self.length as nat
    }

    /// The writes that went through this writer, oldest first, each with the
    /// sink's answer.
    pub closed spec fn writes(&self) -> Seq<Offer> {
        self.writes@
    }

    /// Wraps `inner`. Nothing has gone through the new writer yet.
    pub fn new(inner: W) -> (writer: Self)
        ensures
            writer.sink() == inner,
            writer.wf() == inner.wf(),
            writer.writes() == Seq::<Offer>::empty(),
            writer@ == Seq::<u8>::empty(),
            writer.count() == 0,
    {
        LengthTrackingWriter { inner, length: 0, buffer: Vec::new(), writes: Ghost(Seq::empty()) }
    }

    /// The number of bytes that the sink has taken through this writer:
    /// the size of what `buffer` returns.
    pub fn length(&self) -> (n: usize)
        ensures
            n == self.count(),
            self.wf() ==> n == self@.len(),
    {
        self.length
    }

    /// The bytes that the sink has taken through this writer, in order.
    pub fn buffer(&self) -> (bytes: &[u8])
        ensures
            bytes@ == self@,
    {
        self.buffer.as_slice()
    }

    /// At every moment the count is the number of bytes kept.
    pub proof fn lemma_count_is_size(&self)
        requires
            self.wf(),
        ensures
            self.count() == self@.len(),
    {
    }

    /// What the writer keeps is what its sink took: of each write the part
    /// that was accepted, in call order, and nothing else.
    pub proof fn lemma_kept_is_delivered(&self)
        requires
            self.wf(),
        ensures
            self@ == delivered(self.writes()),
    {
    }

    /// Where the sink took every write to its last byte, the writer keeps
    /// the data of all the writes, one after the other.
    pub proof fn lemma_kept_is_offered(&self)
        requires
            self.wf(),
            forall|i: int| 0 <= i < self.writes().len() ==> (#[trigger] self.writes()[i]).in_full(),
        ensures
            self@ == offered(self.writes()),
    {
        lemma_delivered_all(self.writes());
    }
}

impl<W: Sink> Sink for LengthTrackingWriter<W> {
    /// The sink can be used, the count is the number of bytes kept, and the
    /// bytes kept are what the sink took.
    closed spec fn wf(&self) -> bool {
        &&& self.inner.wf()
        &&& self.length == self.buffer@.len()
        &&& self.buffer@ == delivered(self.writes@)
    }

    /// The sink makes one write step on the same data, with the same
    /// outcome; the writer notes the write and keeps what was taken.
    open spec fn write_step(
        pre: Self,
        data: Seq<u8>,
        outcome: Result<usize, std::io::Error>,
        post: Self,
    ) -> bool {
        &&& W::write_step(pre.sink(), data, outcome, post.sink())
        &&& post.writes() == pre.writes().push(Offer { data, outcome })
        &&& post@ == pre@ + accepted(data, outcome)
        &&& post.count() == pre.count() + accepted(data, outcome).len()
    }

    /// The sink makes one flush step with the same answer; the writer is
    /// otherwise as before.
    open spec fn flush_step(pre: Self, done: Result<(), std::io::Error>, post: Self) -> bool {
        &&& W::flush_step(pre.sink(), done, post.sink())
        &&& post.writes() == pre.writes()
        &&& post@ == pre@
        &&& post.count() == pre.count()
    }

    /// Hands `data` to the sink, once, and returns the sink's answer. What
    /// the sink took is added to the bytes kept; a failure leaves them as
    /// they were.
    fn write(&mut self, data: &[u8]) -> (outcome: Result<usize, std::io::Error>)
        ensures
            W::write_step(old(self).sink(), data@, outcome, final(self).sink()),
            final(self).writes() == old(self).writes().push((Offer { data: data@, outcome })),
            final(self)@ == old(self)@ + accepted(data@, outcome),
            final(self).count() == old(self).count() + accepted(data@, outcome).len(),
            outcome matches Ok(n) ==> final(self)@ == old(self)@ + data@.take(n as int)
                && final(self).count() == old(self).count() + n,
            outcome is Err ==> final(self)@ == old(self)@ && final(self).count() == old(
                self,
            ).count(),
    {
        let outcome = self.inner.write(data);
        let part = accepted_prefix(data, &outcome);
        self.buffer.extend_from_slice(part);
        // The bytes kept are counted by a `usize`, so the new count fits.
        assert(self.buffer@.len() == self.buffer.len());
        self.length = self.length + part.len();
        proof {
            let offer = Offer { data: data@, outcome };
            self.writes@ = self.writes@.push(offer);
            lemma_delivered_push(old(self).writes@, offer);
            assert(self.buffer@ =~= old(self).buffer@ + part@);
        }
        outcome
    }

    /// Hands the request to the sink and returns the sink's answer. The
    /// bytes kept and their number stay as they were.
    fn flush(&mut self) -> (done: Result<(), std::io::Error>)
        ensures
            W::flush_step(old(self).sink(), done, final(self).sink()),
            final(self).writes() == old(self).writes(),
            final(self)@ == old(self)@,
            final(self).count() == old(self).count(),
    {
        self.inner.flush()
    }
}

} // verus!
