//! The set of in-flight sequence numbers whose reply carries file descriptors.

use core::hash::BuildHasherDefault;
use hashbrown::HashSet;
use rustc_hash::FxHasher;
use vstd::prelude::*;

verus! {

/// A `hashbrown::HashSet` of sequence numbers, hashed with `FxHasher`.
#[verifier::external_body]
pub struct SequenceSet {
    inner: HashSet<u64, BuildHasherDefault<FxHasher>>,
}

/// The sequence numbers that a set holds.
pub uninterp spec fn set_contents(set: SequenceSet) -> Set<u64>;

/// `HashSet::with_hasher`, on a default `FxHasher` builder: the new set holds
/// nothing.
#[verifier::external_body]
fn set_new() -> (set: SequenceSet)
    ensures
        set_contents(set) == Set::<u64>::empty(),
{
    SequenceSet { inner: HashSet::with_hasher(BuildHasherDefault::default()) }
}

/// `HashSet::insert`: the value is in the set afterwards and nothing else
/// changes; the result says whether the value was absent before.
#[verifier::external_body]
fn set_insert(set: &mut SequenceSet, value: u64) -> (fresh: bool)
    ensures
        set_contents(*final(set)) == set_contents(*old(set)).insert(value),
        fresh == !set_contents(*old(set)).contains(value),
{
    set.inner.insert(value)
}

/// `HashSet::remove`: the value is not in the set afterwards and nothing else
/// changes; the result says whether the value was present before.
#[verifier::external_body]
fn set_remove(set: &mut SequenceSet, value: u64) -> (present: bool)
    ensures
        set_contents(*final(set)) == set_contents(*old(set)).remove(value),
        present == set_contents(*old(set)).contains(value),
{
    set.inner.remove(&value)
}

/// Number of descriptors that the reply to `seq` carries, given the sequence
/// numbers `pending`: the count in the reply's second byte where `seq` is
/// pending, and none otherwise, whatever the reply holds.
pub open spec fn fd_count_of(pending: Set<u64>, reply: Seq<u8>, seq: u64) -> int {
    if pending.contains(seq) && reply.len() >= 2 {
        reply[1] as int
    } else {
        0
    }
}

/// The sequence numbers of the requests that were sent with a
/// descriptor-bearing reply kind and whose reply has not been retrieved.
pub struct PendingFds {
    set: SequenceSet,
}

impl View for PendingFds {
    type V = Set<u64>;

    closed spec fn view(&self) -> Set<u64> {
        set_contents(self.set)
    }
}

impl PendingFds {
    /// A set that expects no descriptors.
    pub fn new() -> (pending: PendingFds)
        ensures
            pending@ == Set::<u64>::empty(),
    {
        PendingFds { set: set_new() }
    }

    /// Records that the reply to `seq` will carry descriptors.
    pub fn expect(&mut self, seq: u64)
        ensures
            final(self)@ == old(self)@.insert(seq),
    {
        set_insert(&mut self.set, seq);
    }

    /// Tests whether `seq` is pending and removes it, in one step.
    pub fn take(&mut self, seq: u64) -> (was_pending: bool)
        ensures
            was_pending == old(self)@.contains(seq),
            final(self)@ == old(self)@.remove(seq),
    {
        set_remove(&mut self.set, seq)
    }

    /// Decides how many descriptors to extract for the reply to `seq`, and
    /// consumes the membership of `seq`. The reply's descriptor count is read
    /// only where `seq` was pending.
    pub fn extract_fds(&mut self, reply: &[u8], seq: u64) -> (count: usize)
        ensures
            count == fd_count_of(old(self)@, reply@, seq),
            !old(self)@.contains(seq) ==> count == 0,
            final(self)@ == old(self)@.remove(seq),
            !final(self)@.contains(seq),
    {
        if !self.take(seq) {
            return 0;
        }
        if reply.len() < 2 {
            return 0;
        }
        reply[1] as usize
    }
}

/// A reply whose sequence number was never recorded as descriptor-bearing
/// yields no descriptors, whatever count its bytes encode, and leaves the
/// pending set as it was.
pub proof fn lemma_unrecorded_reply_has_no_fds(pending: Set<u64>, reply: Seq<u8>, seq: u64)
    requires
        !pending.contains(seq),
    ensures
        fd_count_of(pending, reply, seq) == 0,
        pending.remove(seq) == pending,
{
    assert(pending.remove(seq) =~= pending);
}

/// A recorded sequence number is consumed by the first retrieval of its
/// reply: that retrieval reads the reply's count, and a second retrieval for
/// the same sequence number extracts nothing.
pub proof fn lemma_fds_extracted_once(
    pending: Set<u64>,
    first: Seq<u8>,
    second: Seq<u8>,
    seq: u64,
)
    requires
        first.len() >= 2,
    ensures
        fd_count_of(pending.insert(seq), first, seq) == first[1],
        !pending.insert(seq).remove(seq).contains(seq),
        fd_count_of(pending.insert(seq).remove(seq), second, seq) == 0,
{
}

} // verus!
