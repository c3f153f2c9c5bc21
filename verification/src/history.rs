//! What a sequence of writes offered to a sink, and what the sink took of it.

use vstd::prelude::*;

verus! {

/// The part of `data` that a sink has taken when it answers `outcome`:
/// the first `n` bytes for `Ok(n)`, nothing for a failure.
pub open spec fn accepted(data: Seq<u8>, outcome: Result<usize, std::io::Error>) -> Seq<u8> {
    match outcome {
        Ok(n) => data.take(n as int),
        Err(_) => Seq::empty(),
    }
}

/// The bytes of `data` that the sink has taken when it answers `outcome`.
pub fn accepted_prefix<'a>(data: &'a [u8], outcome: &Result<usize, std::io::Error>) -> (part:
    &'a [u8])
    requires
        outcome matches Ok(n) ==> n <= data@.len(),
    ensures
        part@ == accepted(data@, *outcome),
{
    match outcome {
        Ok(n) => vstd::slice::slice_subrange(data, 0, *n),
        Err(_) => vstd::slice::slice_subrange(data, 0, 0),
    }
}

/// One write that was made, with the sink's answer to it.
pub struct Offer {
    pub data: Seq<u8>,
    pub outcome: Result<usize, std::io::Error>,
}

impl Offer {
    /// What the sink took of this write.
    pub open spec fn taken(self) -> Seq<u8> {
        accepted(self.data, self.outcome)
    }

    /// Whether the sink took this write to its last byte.
    pub open spec fn in_full(self) -> bool {
        self.outcome matches Ok(n) && n == self.data.len()
    }
}

/// All the bytes that `offers` offered, in call order.
pub open spec fn offered(offers: Seq<Offer>) -> Seq<u8>
    decreases offers.len(),
{
    if offers.len() == 0 {
        Seq::empty()
    } else {
        offered(offers.drop_last()) + offers.last().data
    }
}

/// All the bytes that the sink took of `offers`, in the order in which it
/// took them.
pub open spec fn delivered(offers: Seq<Offer>) -> Seq<u8>
    decreases offers.len(),
{
    if offers.len() == 0 {
        Seq::empty()
    } else {
        delivered(offers.drop_last()) + offers.last().taken()
    }
}

/// One more write adds what the sink took of it to the end of what was
/// delivered before.
pub proof fn lemma_delivered_push(offers: Seq<Offer>, offer: Offer)
    ensures
        delivered(offers.push(offer)) == delivered(offers) + offer.taken(),
{
    assert(offers.push(offer).drop_last() =~= offers);
}

/// Where the sink took every write to its last byte, what was delivered is
/// what was offered: the data of all the writes, one after the other.
pub proof fn lemma_delivered_all(offers: Seq<Offer>)
    requires
        forall|i: int| 0 <= i < offers.len() ==> (#[trigger] offers[i]).in_full(),
    ensures
        delivered(offers) == offered(offers),
    decreases offers.len(),
{
    if offers.len() > 0 {
        lemma_delivered_all(offers.drop_last());
        let last = offers.last();
        assert(last.in_full());
        assert(last.data.take(last.data.len() as int) =~= last.data);
    }
}

} // verus!
