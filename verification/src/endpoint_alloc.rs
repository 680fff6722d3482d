//! Allocation of the SpinalHDL USB controller's descriptor memory.
//!
//! The controller appears to the host as a block of unstructured memory; the
//! allocator hands out 16-byte aligned regions of it, recorded in a map from
//! offset to requested length.
use vstd::prelude::*;
use std::collections::BTreeMap;
use vstd::std_specs::iter::IteratorSpec;
use vstd::std_specs::cmp::OrdSpec;

verus! {

/// First offset that may be allocated: spinal free space aligned to a 16-byte
/// boundary, plus 16 bytes for the EP0 read.
pub const START_OFFSET: u32 = 0x0048 + 8 + 16;

/// End of the controller's memory (derived from its RAM size).
pub const END_OFFSET: u32 = 0x1000;

/// A length rounded up to the next multiple of 16.
pub open spec fn round_up16(len: int) -> int {
    if len % 16 == 0 {
        len
    } else {
        len + 16 - len % 16
    }
}

/// Where the region allocated at `offset` ends, once its length is rounded up
/// to the alignment of the controller.
pub open spec fn region_end(m: Map<u32, u32>, offset: u32) -> int {
    offset + round_up16(m[offset] as int)
}

/// The invariant of an allocation map: every region is non-empty, 16-byte
/// aligned and inside `[START_OFFSET, END_OFFSET]`, and no two regions overlap.
pub open spec fn allocs_wf(m: Map<u32, u32>) -> bool {
    &&& m.dom().finite()
    &&& forall|o: u32|
        #![trigger m.contains_key(o)]
        m.contains_key(o) ==> START_OFFSET <= o && o % 16 == 0 && m[o] > 0 && region_end(m, o)
            <= END_OFFSET
    &&& forall|a: u32, b: u32|
        #![trigger m.contains_key(a), m.contains_key(b)]
        m.contains_key(a) && m.contains_key(b) && a < b ==> region_end(m, a) <= b
}

/// The places where the allocator looks for room: the start of the free
/// space, and the end of each allocated region.
pub open spec fn is_candidate(m: Map<u32, u32>, c: int) -> bool {
    c == START_OFFSET || exists|o: u32| m.contains_key(o) && region_end(m, o) == c
}

/// `size` bytes placed at `c` overlap no allocated region.
pub open spec fn fits(m: Map<u32, u32>, c: int, size: int) -> bool {
    forall|o: u32| #[trigger] m.contains_key(o) ==> region_end(m, o) <= c || c + size <= o
}

/// A candidate place with room for `size` bytes.
pub open spec fn free_slot(m: Map<u32, u32>, c: int, size: int) -> bool {
    is_candidate(m, c) && fits(m, c, size)
}

/// The lowest place with room for `size` bytes (first fit).
pub open spec fn is_first_free(m: Map<u32, u32>, c: int, size: int) -> bool {
    &&& free_slot(m, c, size)
    &&& forall|d: int| d < c ==> !#[trigger] free_slot(m, d, size)
}

/// What one call of `alloc_inner` does: a request of zero bytes, or one for
/// which no free place fits below `END_OFFSET`, gives `None` and changes
/// nothing; otherwise the request is recorded at the first free place, which
/// is returned.
pub open spec fn alloc_outcome(
    before: Map<u32, u32>,
    requested: u32,
    result: Option<u32>,
    after: Map<u32, u32>,
) -> bool {
    let size = requested as int;
    if requested == 0 {
        result is None && after == before
    } else {
        match result {
            Some(offset) => {
                &&& is_first_free(before, offset as int, size)
                &&& offset + size <= END_OFFSET
                &&& after == before.insert(offset, requested)
            },
            None => {
                &&& after == before
                &&& forall|c: int| #[trigger] free_slot(before, c, size) ==> c + size > END_OFFSET
            },
        }
    }
}

/// What one call of `dealloc_inner` does: the region at `offset` is forgotten,
/// and the result tells whether there was one.
pub open spec fn dealloc_outcome(
    before: Map<u32, u32>,
    offset: u32,
    result: bool,
    after: Map<u32, u32>,
) -> bool {
    &&& result == before.contains_key(offset)
    &&& after == before.remove(offset)
}

proof fn lemma_round_up16_u32(len: u32)
    requires
        len <= END_OFFSET,
    ensures
        (len & 0xF == 0) == (len % 16 == 0),
        len & 0xF != 0 ==> (((len + 16) as u32) & !0xFu32) == round_up16(len as int),
        round_up16(len as int) % 16 == 0,
        len <= round_up16(len as int) <= len + 15,
{
    assert((len & 0xF == 0) == (len % 16 == 0)) by (bit_vector);
    assert(len <= 0x1000 && len & 0xF != 0 ==> (((len + 16) as u32) & !0xFu32) == len + 16 - len % 16)
        by (bit_vector);
}

/// `s` lists the entries of `m` once each, in increasing order of offset.
spec fn lists_in_order(m: Map<u32, u32>, s: Seq<(&u32, &u32)>) -> bool {
    &&& forall|i: int| #![trigger s[i]] 0 <= i < s.len() ==> m.contains_key(*s[i].0) && m[*s[i].0] == *s[i].1
    &&& forall|k: u32| #[trigger] m.contains_key(k) ==> exists|i: int| 0 <= i < s.len() && *s[i].0 == k
    &&& forall|i: int, j: int| 0 <= i < j < s.len() ==> *s[i].0 < *s[j].0
}

proof fn lemma_iter_keys_increasing(m: &BTreeMap<u32, u32>)
    requires
        vstd::std_specs::btree::increasing_seq(
            m.iter().remaining().map_values(|kv: (&u32, &u32)| *kv.0),
        ),
    ensures
        lists_in_order(m@, m.iter().remaining()),
{
    let s = m.iter().remaining();
    let keys = s.map_values(|kv: (&u32, &u32)| *kv.0);
    assert forall|i: int, j: int| 0 <= i < j < s.len() implies *s[i].0 < *s[j].0 by {
        assert(keys[i] == *s[i].0);
        assert(keys[j] == *s[j].0);
        assert(keys[i].cmp_spec(&keys[j]) is Less);
    }
    assert forall|k: u32| #[trigger] m@.contains_key(k) implies exists|i: int| 0 <= i < s.len() && *s[i].0 == k by {
        assert(s.contains((&k, &m@[k])));
    }
}

proof fn lemma_insert_keeps_wf(m: Map<u32, u32>, c: u32, size: u32)
    requires
        allocs_wf(m),
        START_OFFSET <= c,
        c % 16 == 0,
        size > 0,
        c + size <= END_OFFSET,
        fits(m, c as int, size as int),
    ensures
        allocs_wf(m.insert(c, size)),
        !m.contains_key(c),
{
    let n = m.insert(c, size);
    assert(c + round_up16(size as int) <= END_OFFSET);
    assert forall|a: u32, b: u32|
        #![trigger n.contains_key(a), n.contains_key(b)]
        n.contains_key(a) && n.contains_key(b) && a < b implies region_end(n, a) <= b by {
        if a == c {
            assert(m.contains_key(b));
            assert(b % 16 == 0);
        } else if b == c {
            assert(m.contains_key(a));
        } else {
            assert(m.contains_key(a) && m.contains_key(b));
        }
    }
    assert forall|o: u32| #![trigger n.contains_key(o)] n.contains_key(o) implies START_OFFSET <= o && o % 16 == 0
        && n[o] > 0 && region_end(n, o) <= END_OFFSET by {
        if o != c {
            assert(m.contains_key(o));
        }
    }
}

/// Allocates `requested` bytes at the first free place of the controller's
/// memory, and returns that place; `None` where there is no
/// room, or where nothing was asked for.
pub fn alloc_inner(allocs: &mut BTreeMap<u32, u32>, requested: u32) -> (result: Option<u32>)
    requires
        allocs_wf(old(allocs)@),
    ensures
        alloc_outcome(old(allocs)@, requested, result, final(allocs)@),
        allocs_wf(final(allocs)@),
{
    if requested == 0 {
        return None;
    }
    let size = requested;
    let mut alloc_offset = START_OFFSET;
    let mut found = false;
    let ghost m = allocs@;
    let iter = allocs.iter();
    let ghost s = allocs.iter().remaining();
    let ghost mut idx: int = 0;
    proof {
        lemma_iter_keys_increasing(allocs);
    }
    for entry in it: iter
        invariant
            m == allocs@,
            allocs_wf(m),
            size == requested,
            requested > 0,
            it.seq() == s,
            s == allocs.iter().remaining(),
            idx == it.index(),
            lists_in_order(m, it.seq()),
            START_OFFSET <= alloc_offset <= END_OFFSET,
            alloc_offset % 16 == 0,
            is_candidate(m, alloc_offset as int),
            forall|d: int| d < alloc_offset ==> !#[trigger] free_slot(m, d, size as int),
            found ==> fits(m, alloc_offset as int, size as int),
            !found ==> forall|k: u32|
                #[trigger] m.contains_key(k) && k < alloc_offset ==> region_end(m, k) <= alloc_offset,
            !found ==> forall|j: int| 0 <= j < it.index() ==> *(#[trigger] it.seq()[j]).0 < alloc_offset,
            !found ==> forall|j: int|
                it.index() <= j < it.seq().len() ==> *(#[trigger] it.seq()[j]).0 >= alloc_offset,
    {
        proof {
            assert(entry == it.seq()[it.index()]);
            idx = idx + 1;
        }
        let (offset_ref, length_ref) = entry;
        let offset = *offset_ref;
        let length = *length_ref;
        if !found {
            proof {
                lemma_round_up16_u32(length);
            }
            let length = if length & 0xF == 0 {
                length
            } else {
                (length + 16) & !0xF
            };
            if offset > alloc_offset && offset - alloc_offset >= size {
                found = true;
            } else {
                alloc_offset = offset + length;
            }
        }
    }
    proof {
        assert(idx == s.len());
        if !found {
            assert forall|k: u32| #[trigger] m.contains_key(k) implies region_end(m, k)
                <= alloc_offset || alloc_offset + size <= k by {
                let i = choose|i: int| 0 <= i < s.len() && *s[i].0 == k;
                assert(*s[i].0 < alloc_offset);
            }
        }
        assert(is_first_free(m, alloc_offset as int, size as int));
    }
    let end: u64 = alloc_offset as u64 + size as u64;
    if end <= END_OFFSET as u64 {
        proof {
            lemma_insert_keeps_wf(m, alloc_offset, size);
        }
        allocs.insert(alloc_offset, size);
        Some(alloc_offset)
    } else {
        None
    }
}

/// Frees the region allocated at `offset`; tells whether there was one.
pub fn dealloc_inner(allocs: &mut BTreeMap<u32, u32>, offset: u32) -> (freed: bool)
    ensures
        dealloc_outcome(old(allocs)@, offset, freed, final(allocs)@),
        allocs_wf(old(allocs)@) ==> allocs_wf(final(allocs)@),
{
    let removed = allocs.remove(&offset);
    proof {
        let before = old(allocs)@;
        let after = allocs@;
        if allocs_wf(before) {
            assert forall|a: u32, b: u32|
                #![trigger after.contains_key(a), after.contains_key(b)]
                after.contains_key(a) && after.contains_key(b) && a < b implies region_end(after, a) <= b by {
                assert(before.contains_key(a) && before.contains_key(b));
            }
            assert forall|o: u32| #![trigger after.contains_key(o)] after.contains_key(o) implies START_OFFSET <= o
                && o % 16 == 0 && after[o] > 0 && region_end(after, o) <= END_OFFSET by {
                assert(before.contains_key(o));
            }
        }
    }
    removed.is_some()
}

/// A region handed out by the allocator is 16-byte aligned, lies inside the
/// controller's free space, and overlaps no region allocated before.
pub proof fn lemma_alloc_region_is_aligned_and_disjoint(
    before: Map<u32, u32>,
    requested: u32,
    offset: u32,
    after: Map<u32, u32>,
)
    requires
        allocs_wf(before),
        alloc_outcome(before, requested, Some(offset), after),
    ensures
        offset % 16 == 0,
        START_OFFSET <= offset,
        offset + requested <= END_OFFSET,
        !before.contains_key(offset),
        forall|o: u32| #[trigger]
            before.contains_key(o) ==> region_end(before, o) <= offset || offset + round_up16(
                requested as int,
            ) <= o,
        allocs_wf(after),
{
    let size = requested;
    assert(requested != 0);
    assert(is_candidate(before, offset as int));
    if offset != START_OFFSET {
        let o = choose|o: u32| before.contains_key(o) && region_end(before, o) == offset;
        assert(before.contains_key(o));
    }
    assert(size <= END_OFFSET);
    lemma_round_up16_u32(size as u32);
    lemma_insert_keeps_wf(before, offset, size as u32);
    assert forall|o: u32| #[trigger]
        before.contains_key(o) implies region_end(before, o) <= offset || offset + round_up16(
        size as int,
    ) <= o by {
        assert(fits(before, offset as int, size as int));
        assert(o % 16 == 0);
    }
}

proof fn lemma_fit_slides_down_to_candidate(m: Map<u32, u32>, c: int, size: int) -> (d: int)
    requires
        START_OFFSET <= c,
        fits(m, c, size),
    ensures
        START_OFFSET <= d <= c,
        free_slot(m, d, size),
    decreases c - START_OFFSET,
{
    if is_candidate(m, c) {
        c
    } else {
        assert(c != START_OFFSET);
        assert forall|o: u32| #[trigger] m.contains_key(o) implies region_end(m, o) <= c - 1 || c - 1 + size <= o by {
            if region_end(m, o) == c {
                assert(is_candidate(m, c));
            }
        }
        lemma_fit_slides_down_to_candidate(m, c - 1, size)
    }
}

/// First fit: no place at or above `START_OFFSET` and below the returned
/// offset has room for the request; and when the request is refused, no
/// place from `START_OFFSET` up has room for it below `END_OFFSET`.
pub proof fn lemma_alloc_is_lowest_fit(
    before: Map<u32, u32>,
    requested: u32,
    result: Option<u32>,
    after: Map<u32, u32>,
    c: int,
)
    requires
        alloc_outcome(before, requested, result, after),
        requested > 0,
        START_OFFSET <= c,
    ensures
        result matches Some(o) && c < o ==> !fits(before, c, requested as int),
        result is None && c + requested <= END_OFFSET ==> !fits(before, c, requested as int),
{
    if fits(before, c, requested as int) {
        let d = lemma_fit_slides_down_to_candidate(before, c, requested as int);
        match result {
            Some(o) => {
                if c < o {
                    assert(!free_slot(before, d, requested as int));
                }
            },
            None => {
                assert(d + requested > END_OFFSET);
            },
        }
    }
}

/// Allocation in an empty memory starts at `START_OFFSET`, for any request
/// that fits in the memory at all.
pub proof fn lemma_first_alloc_at_start(requested: u32, result: Option<u32>, after: Map<u32, u32>)
    requires
        alloc_outcome(Map::empty(), requested, result, after),
        0 < requested,
    ensures
        requested <= END_OFFSET - START_OFFSET ==> result == Some(START_OFFSET) && after == Map::<
            u32,
            u32,
        >::empty().insert(START_OFFSET, requested),
        requested > END_OFFSET - START_OFFSET ==> result is None,
{
    let m = Map::<u32, u32>::empty();
    assert(free_slot(m, START_OFFSET as int, requested as int));
    match result {
        Some(o) => {
            if o != START_OFFSET {
                assert(is_candidate(m, o as int));
            }
        },
        None => {},
    }
}

/// Freeing the region that an allocation just handed out gives back the map
/// from before that allocation.
pub proof fn lemma_dealloc_undoes_alloc(
    m0: Map<u32, u32>,
    requested: u32,
    offset: u32,
    m1: Map<u32, u32>,
    freed: bool,
    m2: Map<u32, u32>,
)
    requires
        allocs_wf(m0),
        alloc_outcome(m0, requested, Some(offset), m1),
        dealloc_outcome(m1, offset, freed, m2),
    ensures
        freed,
        m2 == m0,
{
    lemma_alloc_region_is_aligned_and_disjoint(m0, requested, offset, m1);
    assert(m2 =~= m0);
}

/// Freeing an offset at which nothing is allocated changes nothing.
pub proof fn lemma_dealloc_unallocated_is_noop(m0: Map<u32, u32>, offset: u32, freed: bool, m1: Map<u32, u32>)
    requires
        !m0.contains_key(offset),
        dealloc_outcome(m0, offset, freed, m1),
    ensures
        !freed,
        m1 == m0,
{
    assert(m1 =~= m0);
}

} // verus!
