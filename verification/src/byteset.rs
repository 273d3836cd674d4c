//! A set of byte strings with a membership test that does not grow with the
//! set: the strings are kept in buckets, keyed by a hash of their bytes.

use crate::buffer::same_bytes;
use std::collections::HashMap;
use vstd::prelude::*;

verus! {

broadcast use vstd::std_specs::hash::group_hash_axioms;

/// The key of the bucket of a byte string: the FNV-1a hash of its bytes.
pub open spec fn bucket_key(data: Seq<u8>) -> u64
    decreases data.len(),
{
    if data.len() == 0 {
        0xcbf2_9ce4_8422_2325
    } else {
        (bucket_key(data.drop_last()) ^ (data.last() as u64)).wrapping_mul(0x0100_0000_01b3)
    }
}

/// Whether a bucket holds a byte string.
pub open spec fn bucket_holds(bucket: Seq<Vec<u8>>, data: Seq<u8>) -> bool {
    exists|i: int| 0 <= i < bucket.len() && (#[trigger] bucket[i])@ == data
}

/// Whether the buckets hold a byte string, in the bucket of its key.
pub open spec fn buckets_hold(buckets: Map<u64, Vec<Vec<u8>>>, data: Seq<u8>) -> bool {
    buckets.contains_key(bucket_key(data)) && bucket_holds(buckets[bucket_key(data)]@, data)
}

/// Computes the key of the bucket of a byte string.
fn key_of(data: &[u8]) -> (key: u64)
    ensures
        key == bucket_key(data@),
{
    let mut key: u64 = 0xcbf2_9ce4_8422_2325;
    let mut i: usize = 0;
    while i < data.len()
        invariant
            i <= data@.len(),
            key == bucket_key(data@.take(i as int)),
        decreases data@.len() - i,
    {
        proof {
            assert(data@.take(i + 1).drop_last() == data@.take(i as int));
        }
        key = (key ^ (data[i] as u64)).wrapping_mul(0x0100_0000_01b3);
        i = i + 1;
    }
    proof {
        assert(data@.take(i as int) == data@);
    }
    key
}

/// Looks for a byte string in a bucket.
fn bucket_has(bucket: &Vec<Vec<u8>>, data: &[u8]) -> (found: bool)
    ensures
        found == bucket_holds(bucket@, data@),
{
    let mut i: usize = 0;
    while i < bucket.len()
        invariant
            i <= bucket@.len(),
            forall|j: int| 0 <= j < i ==> (#[trigger] bucket@[j])@ != data@,
        decreases bucket@.len() - i,
    {
        if same_bytes(bucket[i].as_slice(), data) {
            return true;
        }
        i = i + 1;
    }
    false
}

/// A set of byte strings. It holds at most `usize::MAX` of them.
pub struct ByteSet {
    buckets: HashMap<u64, Vec<Vec<u8>>>,
    count: usize,
    members: Ghost<Set<Seq<u8>>>,
}

impl View for ByteSet {
    type V = Set<Seq<u8>>;

    closed spec fn view(&self) -> Set<Seq<u8>> {
        self.members@
    }
}

impl ByteSet {
    /// The members are what the buckets hold, and they are counted.
    pub closed spec fn wf(&self) -> bool {
        &&& self.members@.finite()
        &&& self.count == self.members@.len()
        &&& forall|data: Seq<u8>| #[trigger]
            self.members@.contains(data) <==> buckets_hold(self.buckets@, data)
    }

    /// A set is finite.
    pub proof fn lemma_finite(&self)
        requires
            self.wf(),
        ensures
            self@.finite(),
            self@.len() <= usize::MAX,
    {
    }

    /// The empty set.
    pub fn new() -> (set: ByteSet)
        ensures
            set.wf(),
            set@ == Set::<Seq<u8>>::empty(),
    {
        let set = ByteSet { buckets: HashMap::new(), count: 0, members: Ghost(Set::empty()) };
        set
    }

    /// Number of members.
    pub fn len(&self) -> (len: usize)
        requires
            self.wf(),
        ensures
            len == self@.len(),
    {
        self.count
    }

    /// Whether a byte string is a member.
    pub fn contains(&self, data: &[u8]) -> (found: bool)
        requires
            self.wf(),
        ensures
            found == self@.contains(data@),
    {
        let key = key_of(data);
        match self.buckets.get(&key) {
            Some(bucket) => bucket_has(bucket, data),
            None => false,
        }
    }

    /// Adds a byte string and says whether it was added: it is, unless it
    /// is a member already or the set is full.
    pub fn insert(&mut self, data: Vec<u8>) -> (added: bool)
        requires
            old(self).wf(),
        ensures
            final(self).wf(),
            added == (!old(self)@.contains(data@) && old(self)@.len() < usize::MAX),
            final(self)@ == if added {
                old(self)@.insert(data@)
            } else {
                old(self)@
            },
    {
        if self.count == usize::MAX || self.contains(data.as_slice()) {
            return false;
        }
        let key = key_of(data.as_slice());
        let ghost before = self.buckets@;
        let mut bucket = match self.buckets.remove(&key) {
            Some(bucket) => bucket,
            None => Vec::new(),
        };
        let ghost held = bucket@;
        bucket.push(data);
        self.buckets.insert(key, bucket);
        self.count = self.count + 1;
        self.members = Ghost(self.members@.insert(data@));
        proof {
            let after = self.buckets@;
            assert forall|other: Seq<u8>| #[trigger]
                self.members@.contains(other) <==> buckets_hold(after, other) by {
                if bucket_key(other) == key {
                    if other == data@ {
                        assert(bucket@[held.len() as int]@ == other);
                    } else {
                        if buckets_hold(before, other) {
                            let i = choose|i: int|
                                0 <= i < held.len() && (#[trigger] held[i])@ == other;
                            assert(bucket@[i]@ == other);
                        }
                        if buckets_hold(after, other) {
                            let i = choose|i: int|
                                0 <= i < bucket@.len() && (#[trigger] bucket@[i])@ == other;
                        }
                    }
                } else {
                    assert(after.contains_key(bucket_key(other)) == before.contains_key(
                        bucket_key(other),
                    ));
                }
            }
        }
        true
    }
}

} // verus!
