//! The order in which the sections of a payload are filled at each height.

use vstd::prelude::*;
use crate::types::Height;

verus! {

/// `s` with its last `k` elements moved to the front.
pub open spec fn rotate_right<T>(s: Seq<T>, k: int) -> Seq<T>
    recommends
        0 <= k <= s.len(),
{
    s.subrange(s.len() - k, s.len() as int) + s.subrange(0, s.len() - k)
}

/// By how many places the section order is rotated at `height`.
pub open spec fn rotation_offset(sections: nat, height: Height) -> int
    recommends
        sections > 0,
{
    height.0 as int % sections as int
}

/// The order in which the sections `ids` are filled at `height`.
pub open spec fn rotated_order<T>(ids: Seq<T>, height: Height) -> Seq<T>
    recommends
        ids.len() > 0,
{
    rotate_right(ids, rotation_offset(ids.len(), height))
}

/// The identifiers of `n` sections in their fixed order: 0, 1, and so on.
pub open spec fn fixed_order(n: nat) -> Seq<usize> {
    Seq::new(n, |i: int| i as usize)
}

/// Where the element at place `j` of a rotated sequence of length `n` comes from.
pub open spec fn rotated_from(n: int, k: int, j: int) -> int {
    if j < k {
        n - k + j
    } else {
        j - k
    }
}

/// The element at place `j` of a rotated sequence is the element at place
/// `rotated_from` of the sequence that was rotated.
pub proof fn lemma_rotate_right_index<T>(s: Seq<T>, k: int, j: int)
    requires
        0 <= k <= s.len(),
        0 <= j < s.len(),
    ensures
        rotate_right(s, k).len() == s.len(),
        0 <= rotated_from(s.len() as int, k, j) < s.len(),
        rotate_right(s, k)[j] == s[rotated_from(s.len() as int, k, j)],
{
}

/// The rotated order of `n` sections names each section once.
pub proof fn lemma_rotated_order_is_permutation(n: nat, height: Height)
    requires
        n > 0,
        n <= usize::MAX,
    ensures
        rotated_order(fixed_order(n), height).len() == n,
        forall|p: int|
            0 <= p < n ==> 0 <= (#[trigger] rotated_order(fixed_order(n), height)[p]) < n,
        forall|p: int, q: int|
            0 <= p < n && 0 <= q < n && p != q ==> rotated_order(fixed_order(n), height)[p]
                != rotated_order(fixed_order(n), height)[q],
{
    let ids = fixed_order(n);
    let k = rotation_offset(n, height);
    assert forall|p: int| 0 <= p < n implies 0 <= (#[trigger] rotated_order(ids, height)[p]) < n
        && rotated_order(ids, height)[p] == rotated_from(n as int, k, p) by {
        lemma_rotate_right_index(ids, k, p);
    }
}

/// Lists the identifiers of `n` sections in their fixed order.
pub fn section_ids(n: usize) -> (ids: Vec<usize>)
    ensures
        ids@ == fixed_order(n as nat),
{
    let mut ids: Vec<usize> = Vec::new();
    let mut i: usize = 0;
    while i < n
        invariant
            i <= n,
            ids@ == fixed_order(i as nat),
        decreases n - i,
    {
        ids.push(i);
        i = i + 1;
        assert(ids@ =~= fixed_order(i as nat));
    }
    ids
}

/// Rotates the section identifiers `ids` to the right by `height` modulo
/// their number, so that over time each section comes first equally often.
pub fn rotate_sections(ids: &Vec<usize>, height: Height) -> (order: Vec<usize>)
    requires
        ids@.len() > 0,
    ensures
        order@ == rotated_order(ids@, height),
{
    let n: usize = ids.len();
    let k: usize = (height.get() % (n as u64)) as usize;
    let mut order: Vec<usize> = Vec::new();
    let mut j: usize = 0;
    while j < n
        invariant
            n == ids@.len(),
            k < n,
            k == rotation_offset(ids@.len(), height),
            j <= n,
            order@.len() == j,
            forall|i: int| 0 <= i < j ==> order@[i] == rotate_right(ids@, k as int)[i],
        decreases n - j,
    {
        let from: usize = if j < k {
            n - k + j
        } else {
            j - k
        };
        proof {
            lemma_rotate_right_index(ids@, k as int, j as int);
        }
        order.push(ids[from]);
        j = j + 1;
    }
    assert(order@ =~= rotate_right(ids@, k as int));
    order
}

} // verus!
