//! The cursor that walks a map's keys by asking the kernel, each time, for the
//! key that follows the one last produced.
use vstd::prelude::*;

use crate::error::ENOENT;
use crate::map::{BpfMap, MapOps};

verus! {

/// The bytes of an optional buffer.
pub open spec fn opt_view(o: Option<Vec<u8>>) -> Option<Seq<u8>> {
    match o {
        Some(v) => Some(v@),
        None => None,
    }
}

/// One step of the walk: from the key last produced, `prev`, and the kernel's
/// answer (`ret`, and the key `found` it wrote on success), the new last key
/// and what is produced. Any failure ends the walk and leaves the cursor as it was.
pub open spec fn key_step(prev: Option<Seq<u8>>, ret: i32, found: Seq<u8>) -> (
    Option<Seq<u8>>,
    Option<Seq<u8>>,
) {
    if ret == 0 {
        (Some(found), Some(found))
    } else {
        (prev, None)
    }
}

/// Forward-only iterator over the keys of a map. It keeps no snapshot: if the
/// map changes meanwhile, keys may be skipped or repeated, or the walk may
/// start over.
pub struct MapKeyIter<'a> {
    map: &'a BpfMap,
    prev: Option<Vec<u8>>,
    next: Vec<u8>,
}

impl<'a> MapKeyIter<'a> {
    /// The key produced last; `None` before the first.
    pub closed spec fn spec_prev(&self) -> Option<Seq<u8>> {
        opt_view(self.prev)
    }

    /// The working buffer that the kernel overwrites with the next key.
    pub closed spec fn spec_buffer(&self) -> Seq<u8> {
        self.next@
    }

    /// The map walked.
    pub closed spec fn spec_map(&self) -> BpfMap {
        *self.map
    }

    /// A cursor before the first key of `map`, with a zeroed buffer of `key_size` bytes.
    pub fn new(map: &'a BpfMap, key_size: u32) -> (r: MapKeyIter<'a>)
        requires
            key_size == map.spec_key_size(),
        ensures
            r.spec_prev() is None,
            r.spec_buffer() == Seq::new(key_size as nat, |_i: int| 0u8),
            r.spec_map() == *map,
    {
        let next = vec![0u8; key_size as usize];
        proof {
            assert(next@ =~= Seq::new(key_size as nat, |_i: int| 0u8));
        }
        MapKeyIter { map, prev: None, next }
    }

    /// The map walked.
    pub fn map(&self) -> (r: &'a BpfMap)
        ensures
            *r == self.spec_map(),
    {
        self.map
    }

    /// The key produced last, which the kernel is asked to follow; `None`
    /// asks for the first key.
    pub fn prev_key(&self) -> (r: Option<&Vec<u8>>)
        ensures
            r is None <==> self.spec_prev() is None,
            r matches Some(k) ==> self.spec_prev() == Some(k@),
    {
        match &self.prev {
            Some(k) => Some(k),
            None => None,
        }
    }

    /// A copy of the working buffer, for the kernel to write the next key into.
    pub fn buffer(&self) -> (r: Vec<u8>)
        ensures
            r@ == self.spec_buffer(),
    {
        let r = self.next.clone();
        proof {
            assert(r@ =~= self.next@);
        }
        r
    }

    /// Takes the kernel's answer to "which key follows `prev_key`": its status
    /// `ret` and the buffer `found` it wrote, which has the key size (the length
    /// of `buffer`). On success the key is produced and
    /// becomes the one to follow; on any failure nothing is produced.
    pub fn advance(&mut self, ret: i32, found: Vec<u8>) -> (r: Option<Vec<u8>>)
        requires
            found@.len() == old(self).spec_buffer().len(),
        ensures
            final(self).spec_buffer().len() == old(self).spec_buffer().len(),
            r matches Some(k) ==> k@.len() == old(self).spec_buffer().len(),
            (final(self).spec_prev(), opt_view(r)) == key_step(old(self).spec_prev(), ret, found@),
            final(self).spec_map() == old(self).spec_map(),
            ret == 0 ==> final(self).spec_buffer() == found@,
            ret != 0 ==> final(self).spec_buffer() == old(self).spec_buffer(),
    {
        if ret != 0 {
            None
        } else {
            self.next = found;
            let kept = self.next.clone();
            let out = self.next.clone();
            proof {
                assert(kept@ =~= self.next@);
                assert(out@ =~= self.next@);
            }
            self.prev = Some(kept);
            Some(out)
        }
    }
}

/// The kernel's answer for a map that nobody changes and whose keys it walks
/// in the order `order`: the key after `prev`, the first one when `prev` is
/// `None`, and none after the last.
pub open spec fn next_in_order(order: Seq<Seq<u8>>, prev: Option<Seq<u8>>) -> Option<Seq<u8>> {
    match prev {
        None => if order.len() > 0 {
            Some(order[0])
        } else {
            None
        },
        Some(k) => if exists|i: int| 0 <= i < order.len() - 1 && order[i] == k {
            Some(order[(choose|i: int| 0 <= i < order.len() - 1 && order[i] == k) + 1])
        } else {
            None
        },
    }
}

/// The keys produced by `steps` calls of `advance` from the cursor state
/// `prev`, when the kernel answers as `next_in_order` says (reporting `ENOENT`
/// when there is no next key), up to the first call that produces nothing.
pub open spec fn walk(order: Seq<Seq<u8>>, prev: Option<Seq<u8>>, steps: nat) -> Seq<Seq<u8>>
    decreases steps,
{
    if steps == 0 {
        Seq::empty()
    } else {
        let step = match next_in_order(order, prev) {
            Some(k) => key_step(prev, 0, k),
            None => key_step(prev, (-ENOENT) as i32, Seq::empty()),
        };
        match step.1 {
            Some(k) => seq![k] + walk(order, step.0, (steps - 1) as nat),
            None => Seq::empty(),
        }
    }
}

proof fn lemma_walk_from(order: Seq<Seq<u8>>, i: int, steps: nat)
    requires
        order.no_duplicates(),
        0 <= i < order.len(),
        steps >= order.len() - i,
    ensures
        walk(order, Some(order[i]), steps) == order.subrange(i + 1, order.len() as int),
    decreases order.len() - i,
{
    let k = order[i];
    if i < order.len() - 1 {
        let j = choose|j: int| 0 <= j < order.len() - 1 && order[j] == k;
        assert(j == i);
        assert(next_in_order(order, Some(k)) == Some(order[i + 1]));
        lemma_walk_from(order, i + 1, (steps - 1) as nat);
        assert(order.subrange(i + 1, order.len() as int) =~= seq![order[i + 1]]
            + order.subrange(i + 2, order.len() as int));
    } else {
        assert(!exists|j: int| 0 <= j < order.len() - 1 && order[j] == k);
        assert(order.subrange(i + 1, order.len() as int) =~= Seq::<Seq<u8>>::empty());
    }
}

/// Walking a map that nobody changes produces each of its keys exactly once,
/// in the kernel's order, and then ends: with distinct keys `order`, more than
/// `order.len()` calls of `advance` produce exactly `order`.
pub proof fn lemma_stable_walk_yields_each_key_once(order: Seq<Seq<u8>>, steps: nat)
    requires
        order.no_duplicates(),
        steps > order.len(),
    ensures
        walk(order, None, steps) == order,
{
    if order.len() > 0 {
        lemma_walk_from(order, 0, (steps - 1) as nat);
        assert(order =~= seq![order[0]] + order.subrange(1, order.len() as int));
    } else {
        assert(order =~= Seq::<Seq<u8>>::empty());
    }
}

} // verus!
