//! Rules for moving and selecting tracks in a displayed track list.
use vstd::prelude::*;

verus! {

/// Where a track dragged from row `from` and dropped before row `to` of a list
/// of `count` tracks is inserted once it has been taken out: one row higher when
/// dragged down, since taking it out moved the rows below it up. `to` may be
/// `count` (dropped after the last row). `None` where nothing moves: `from`
/// outside the list, `to` past its end, or `to == from`.
pub fn drop_insert_index(from: usize, to: usize, count: usize) -> (r: Option<usize>)
    ensures
        r == if from >= count || to > count || from == to {
            None::<usize>
        } else if from < to {
            Some((to - 1) as usize)
        } else {
            Some(to)
        },
{
    if from >= count || to > count || from == to {
        None
    } else if from < to {
        Some(to - 1)
    } else {
        Some(to)
    }
}

/// The row selected after a removal left `new_count` rows, where row `current`
/// was selected: the same row while it exists, else the last row (-1 where no
/// row is left).
pub fn selection_after_removal(current: i32, new_count: i32) -> (r: i32)
    requires
        new_count > i32::MIN,
    ensures
        r == if current >= new_count {
            new_count - 1
        } else {
            current as int
        },
{
    if current >= new_count {
        new_count - 1
    } else {
        current
    }
}

} // verus!
