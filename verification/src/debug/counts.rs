//! Per-address counters: which addresses were touched, and how often.

use std::collections::HashMap;

use vstd::prelude::*;

verus! {

broadcast use vstd::std_specs::hash::group_hash_axioms;

/// The counters with one more for `addr`.
pub open spec fn counted(counts: Map<u32, u64>, addr: u32) -> Map<u32, u64> {
    counts.insert(
        addr,
        if counts.contains_key(addr) {
            if counts[addr] < u64::MAX {
                (counts[addr] + 1) as u64
            } else {
                u64::MAX
            }
        } else {
            1
        },
    )
}

/// Count one more for `addr`.
pub fn count(counts: &mut HashMap<u32, u64>, addr: u32)
    ensures
        final(counts)@ == counted(old(counts)@, addr),
{
    let seen: u64 = match counts.get(&addr) {
        Some(seen) => *seen,
        None => 0,
    };
    let next: u64 = if seen < u64::MAX {
        seen + 1
    } else {
        seen
    };
    counts.insert(addr, next);
}

/// The entries are the `top` addresses with the highest counts, highest first. Which of
/// several addresses with the same count come first, or are left out, is open.
pub open spec fn is_top(entries: Seq<(u32, u64)>, counts: Map<u32, u64>, top: nat) -> bool {
    &&& entries.len() == if counts.len() < top {
        counts.len()
    } else {
        top
    }
    &&& forall|i: int|
        0 <= i < entries.len() ==> counts.contains_pair(
            (#[trigger] entries[i]).0,
            entries[i].1,
        )
    &&& forall|i: int, j: int|
        0 <= i < j < entries.len() ==> (#[trigger] entries[i]).0 != (#[trigger] entries[j]).0
            && entries[i].1 >= entries[j].1
    &&& forall|addr: u32, i: int|
        counts.contains_key(addr) && !entries.contains((addr, counts[addr])) && 0 <= i
            < entries.len() ==> (#[trigger] entries[i]).1 >= #[trigger] counts[addr]
}

/// Insert an entry behind those with as high a count.
fn insert_sorted(entries: &mut Vec<(u32, u64)>, entry: (u32, u64))
    requires
        forall|i: int, j: int|
            0 <= i < j < old(entries)@.len() ==> (#[trigger] old(entries)@[i]).1 >= (
            #[trigger] old(entries)@[j]).1,
    ensures
        forall|i: int, j: int|
            0 <= i < j < final(entries)@.len() ==> (#[trigger] final(entries)@[i]).1 >= (
            #[trigger] final(entries)@[j]).1,
        exists|at: int|
            0 <= at <= old(entries)@.len() && final(entries)@ == #[trigger] old(entries)@.insert(
                at,
                entry,
            ),
{
    let mut at: usize = 0;
    while at < entries.len() && entries[at].1 >= entry.1
        invariant
            at <= entries@.len(),
            entries@ == old(entries)@,
            forall|i: int| 0 <= i < at ==> (#[trigger] entries@[i]).1 >= entry.1,
        decreases entries@.len() - at,
    {
        at = at + 1;
    }
    let ghost before = entries@;
    entries.insert(at, entry);
    assert(entries@ == before.insert(at as int, entry));
}

proof fn lemma_inserted(before: Seq<(u32, u64)>, at: int, entry: (u32, u64))
    requires
        0 <= at <= before.len(),
        before.no_duplicates(),
        !before.contains(entry),
    ensures
        before.insert(at, entry).no_duplicates(),
        forall|e: (u32, u64)| #[trigger]
            before.insert(at, entry).contains(e) <==> before.contains(e) || e == entry,
{
    let after = before.insert(at, entry);
    assert forall|e: (u32, u64)| #[trigger]
        after.contains(e) <==> before.contains(e) || e == entry by {
        if before.contains(e) {
            let i = choose|i: int| 0 <= i < before.len() && before[i] == e;
            assert(after[if i < at {
                i
            } else {
                i + 1
            }] == e);
        }
        if e == entry {
            assert(after[at] == e);
        }
    }
}

/// The `top` addresses with the highest counts, highest first.
pub fn top_entries(counts: &HashMap<u32, u64>, top: usize) -> (entries: Vec<(u32, u64)>)
    ensures
        is_top(entries@, counts@, top as nat),
{
    let mut entries: Vec<(u32, u64)> = Vec::new();
    for pair in it: counts.iter()
        invariant
            entries@.len() == it.index(),
            entries@.no_duplicates(),
            it.seq().no_duplicates(),
            it.seq().len() == counts@.len(),
            forall|i: int|
                0 <= i < it.seq().len() ==> counts@.contains_pair(
                    *(#[trigger] it.seq()[i]).0,
                    *it.seq()[i].1,
                ),
            forall|i: int|
                0 <= i < it.index() ==> entries@.contains(
                    (*(#[trigger] it.seq()[i]).0, *it.seq()[i].1),
                ),
            forall|i: int|
                it.index() <= i < it.seq().len() ==> !entries@.contains(
                    (*(#[trigger] it.seq()[i]).0, *it.seq()[i].1),
                ),
            forall|i: int|
                0 <= i < entries@.len() ==> counts@.contains_pair(
                    (#[trigger] entries@[i]).0,
                    entries@[i].1,
                ),
            forall|i: int, j: int|
                0 <= i < j < entries@.len() ==> (#[trigger] entries@[i]).1 >= (
                #[trigger] entries@[j]).1,
            forall|k: u32| #[trigger]
                counts@.contains_key(k) ==> it.seq().contains((&k, &counts@[k])),
    {
        let ghost before = entries@;
        let ghost entry = (*pair.0, *pair.1);
        insert_sorted(&mut entries, (*pair.0, *pair.1));
        proof {
            let at = choose|at: int|
                0 <= at <= before.len() && entries@ == #[trigger] before.insert(at, entry);
            lemma_inserted(before, at, entry);
        }
    }
    let ghost all = entries@;
    entries.truncate(top);
    proof {
        assert forall|addr: u32, i: int|
            counts@.contains_key(addr) && !entries@.contains((addr, counts@[addr])) && 0 <= i
                < entries@.len() implies (#[trigger] entries@[i]).1 >= #[trigger] counts@[addr] by {
            assert(all.contains((addr, counts@[addr])));
            let j = choose|j: int| 0 <= j < all.len() && all[j] == (addr, counts@[addr]);
            if j < entries@.len() {
                assert(entries@[j] == all[j]);
            }
        }
    }
    entries
}

} // verus!
