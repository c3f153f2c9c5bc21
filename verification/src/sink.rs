//! The contract between a byte sink and whoever writes to it.

use vstd::prelude::*;

verus! {

/// `std::io::Error`, the failure that a sink reports. Nothing is known of
/// what it holds: a value of it is only carried from the sink to the caller.
#[verifier::external_type_specification]
#[verifier::external_body]
pub struct ExIoError(std::io::Error);

/// A destination for bytes.
///
/// A write may take fewer bytes than it was offered, and says how many it
/// took; this is all that every sink promises. A sink can say more, by
/// giving `wf`, `write_step` and `flush_step` a meaning of its own: what it
/// says there is what its `write` and `flush` must keep, and what anyone who
/// writes to it through another layer learns.
///
/// The sinks of this crate are proved to keep what `write` and `flush`
/// ensure. A sink written elsewhere is taken at its word: whatever is
/// proved of code that writes to it holds only if its `write` never answers
/// with more bytes than it was offered.
pub trait Sink: Sized {
    /// Whether the sink is in a state in which it can be used.
    open spec fn wf(&self) -> bool {
        true
    }

    /// Whether a write that offers `data` to the sink `pre` can answer
    /// `outcome` and leave the sink as `post`. A sink that does not say
    /// allows any step.
    open spec fn write_step(
        pre: Self,
        data: Seq<u8>,
        outcome: Result<usize, std::io::Error>,
        post: Self,
    ) -> bool {
        true
    }

    /// Whether a flush of the sink `pre` can answer `done` and leave the sink
    /// as `post`. A sink that does not say allows any step.
    open spec fn flush_step(pre: Self, done: Result<(), std::io::Error>, post: Self) -> bool {
        true
    }

    /// Offers `data` to the sink, once. `Ok(n)` says that the sink took the
    /// first `n` bytes of `data`, and `n` is never more than was offered; an
    /// error says that it took none.
    fn write(&mut self, data: &[u8]) -> (outcome: Result<usize, std::io::Error>)
        requires
            old(self).wf(),
        ensures
            final(self).wf(),
            outcome matches Ok(n) ==> n <= data@.len(),
            Self::write_step(*old(self), data@, outcome, *final(self)),
    ;

    /// Asks the sink to pass on whatever it still holds back.
    fn flush(&mut self) -> (done: Result<(), std::io::Error>)
        requires
            old(self).wf(),
        ensures
            final(self).wf(),
            Self::flush_step(*old(self), done, *final(self)),
    ;
}

/// A vector is a sink in memory: it takes all it is offered, at its end, and
/// never fails.
impl Sink for Vec<u8> {
    open spec fn write_step(
        pre: Self,
        data: Seq<u8>,
        outcome: Result<usize, std::io::Error>,
        post: Self,
    ) -> bool {
        &&& outcome matches Ok(n) && n == data.len()
        &&& post@ == pre@ + data
    }

    open spec fn flush_step(pre: Self, done: Result<(), std::io::Error>, post: Self) -> bool {
        &&& done is Ok
        &&& post@ == pre@
    }

    fn write(&mut self, data: &[u8]) -> (outcome: Result<usize, std::io::Error>)
        ensures
            outcome matches Ok(n) && n == data@.len(),
            final(self)@ == old(self)@ + data@,
    {
        self.extend_from_slice(data);
        assert(self@ =~= old(self)@ + data@);
        Ok(data.len())
    }

    fn flush(&mut self) -> (done: Result<(), std::io::Error>)
        ensures
            done is Ok,
            final(self)@ == old(self)@,
    {
        Ok(())
    }
}

} // verus!
