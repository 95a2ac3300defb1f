//! Byte storage shared by the save chips.

use vstd::prelude::*;

verus! {

/// `size` erased bytes.
pub fn erased(size: usize) -> (data: Vec<u8>)
    ensures
        data@ == Seq::new(size as nat, |i: int| 0xFFu8),
{
    let data: Vec<u8> = vec![0xFF; size];
    assert(data@ =~= Seq::new(size as nat, |i: int| 0xFFu8));
    data
}

/// A chip of `size` bytes restored from a save: what fits of it, the rest erased.
pub open spec fn restored(save: Seq<u8>, size: nat) -> Seq<u8> {
    Seq::new(
        size,
        |i: int|
            if i < save.len() {
                save[i]
            } else {
                0xFFu8
            },
    )
}

/// Restore a chip of `size` bytes from a save.
pub fn restore(save: &[u8], size: usize) -> (data: Vec<u8>)
    ensures
        data@ == restored(save@, size as nat),
{
    let mut data: Vec<u8> = Vec::new();
    let mut i: usize = 0;
    while i < size
        invariant
            i <= size,
            data@ == restored(save@, size as nat).take(i as int),
        decreases size - i,
    {
        let byte: u8 = if i < save.len() {
            save[i]
        } else {
            0xFF
        };
        data.push(byte);
        assert(restored(save@, size as nat).take(i + 1) =~= restored(save@, size as nat).take(
            i as int,
        ).push(byte));
        i = i + 1;
    }
    assert(restored(save@, size as nat).take(size as int) =~= restored(save@, size as nat));
    data
}

/// `data` with the bytes from `start` up to `end` erased.
pub open spec fn erased_range(data: Seq<u8>, start: int, end: int) -> Seq<u8> {
    Seq::new(
        data.len(),
        |i: int|
            if start <= i < end {
                0xFFu8
            } else {
                data[i]
            },
    )
}

/// Erase the bytes from `start` up to `end`.
pub fn erase_range(data: &mut Vec<u8>, start: usize, end: usize)
    requires
        start <= end <= old(data)@.len(),
    ensures
        final(data)@ == erased_range(old(data)@, start as int, end as int),
{
    let ghost before = data@;
    let mut i: usize = start;
    while i < end
        invariant
            start <= i <= end <= before.len(),
            data@ == erased_range(before, start as int, i as int),
        decreases end - i,
    {
        data[i] = 0xFF;
        assert(erased_range(before, start as int, i + 1) =~= erased_range(
            before,
            start as int,
            i as int,
        ).update(i as int, 0xFF));
        i = i + 1;
    }
}

} // verus!
