//! Batch loading by id: rows come back from storage in no particular order,
//! and are put back in the order of the ids asked for.

use vstd::prelude::*;

verus! {

/// The index of a row with id `id`, if any.
pub fn find_id(row_ids: &Vec<i64>, id: i64) -> (r: Option<usize>)
    ensures
        r.is_some() == row_ids@.contains(id),
        r.is_some() ==> r.unwrap() < row_ids.len() && row_ids@[r.unwrap() as int] == id,
{
    let mut j: usize = 0;
    while j < row_ids.len()
        invariant
            j <= row_ids.len(),
            forall|k: int| 0 <= k < j ==> row_ids@[k] != id,
        decreases row_ids.len() - j,
    {
        if row_ids[j] == id {
            return Some(j);
        }
        j = j + 1;
    }
    None
}

/// The ids that have a row, in the order asked for.
pub open spec fn found_ids(ids: Seq<i64>, row_ids: Seq<i64>) -> Seq<i64>
    decreases ids.len(),
{
    if ids.len() == 0 {
        seq![]
    } else {
        let pre = found_ids(ids.drop_last(), row_ids);
        if row_ids.contains(ids.last()) {
            pre.push(ids.last())
        } else {
            pre
        }
    }
}

/// No more ids are found than were asked for.
pub proof fn lemma_found_ids_len(ids: Seq<i64>, row_ids: Seq<i64>)
    ensures
        found_ids(ids, row_ids).len() <= ids.len(),
    decreases ids.len(),
{
    if ids.len() > 0 {
        lemma_found_ids_len(ids.drop_last(), row_ids);
    }
}

/// For each id, in order, the index of a row that has it; an id with no
/// row is left out, so there are at most as many indices as ids.
pub fn arrange_by_ids(ids: &Vec<i64>, row_ids: &Vec<i64>) -> (r: Vec<usize>)
    ensures
        forall|i: int| 0 <= i < r.len() ==> r@[i] < row_ids.len(),
        r@.map_values(|k: usize| row_ids@[k as int]) == found_ids(ids@, row_ids@),
        r.len() <= ids.len(),
{
    let mut r: Vec<usize> = Vec::new();
    let mut i: usize = 0;
    while i < ids.len()
        invariant
            i <= ids.len(),
            forall|k: int| 0 <= k < r.len() ==> r@[k] < row_ids.len(),
            r@.map_values(|k: usize| row_ids@[k as int]) == found_ids(
                ids@.subrange(0, i as int),
                row_ids@,
            ),
        decreases ids.len() - i,
    {
        let ghost pre = ids@.subrange(0, i as int);
        assert(ids@.subrange(0, i + 1).drop_last() == pre);
        assert(ids@.subrange(0, i + 1).last() == ids@[i as int]);
        let ghost s = ids@.subrange(0, i + 1);
        let ghost old_r = r@;
        assert(found_ids(s, row_ids@) == if row_ids@.contains(ids@[i as int]) {
            found_ids(pre, row_ids@).push(ids@[i as int])
        } else {
            found_ids(pre, row_ids@)
        });
        match find_id(row_ids, ids[i]) {
            Some(k) => {
                r.push(k);
                assert(r@.map_values(|k: usize| row_ids@[k as int]) =~= old_r.map_values(
                    |k: usize| row_ids@[k as int],
                ).push(ids@[i as int]));
            },
            None => {},
        }
        assert(r@.map_values(|k: usize| row_ids@[k as int]) =~= found_ids(
            ids@.subrange(0, i + 1),
            row_ids@,
        ));
        i = i + 1;
    }
    assert(ids@.subrange(0, i as int) == ids@);
    proof {
        lemma_found_ids_len(ids@, row_ids@);
    }
    r
}

/// A copy of a list of ids.
pub fn copy_ids(s: &Vec<i64>) -> (r: Vec<i64>)
    ensures
        r@ == s@,
{
    let mut r: Vec<i64> = Vec::new();
    let mut i: usize = 0;
    while i < s.len()
        invariant
            i <= s.len(),
            r@ == s@.subrange(0, i as int),
        decreases s.len() - i,
    {
        r.push(s[i]);
        assert(r@ =~= s@.subrange(0, i + 1));
        i = i + 1;
    }
    assert(r@ =~= s@);
    r
}

} // verus!
