//! Putting things in order, highest rank first.

use vstd::prelude::*;

verus! {

/// The position `j` is among those that `order` lists.
pub open spec fn lists(order: Seq<usize>, j: int) -> bool {
    exists|q: int| 0 <= q < order.len() && #[trigger] order[q] == j
}

/// `order` lists the positions of `ranks`, each once, from the highest rank
/// to the lowest; positions of equal rank stay in the order in which they
/// stand in `ranks`.
pub open spec fn is_ranking(order: Seq<usize>, ranks: Seq<i128>) -> bool {
    &&& order.len() == ranks.len()
    &&& forall|q: int| 0 <= q < order.len() ==> (#[trigger] order[q]) < ranks.len()
    &&& forall|j: int| 0 <= j < ranks.len() ==> #[trigger] lists(order, j)
    &&& forall|x: int, y: int|
        0 <= x < y < order.len() ==> {
            let a = #[trigger] order[x] as int;
            let b = #[trigger] order[y] as int;
            ranks[a] > ranks[b] || (ranks[a] == ranks[b] && a < b)
        }
}

/// The first `top` positions of a ranking are all different, stand from the
/// highest rank to the lowest, and leave out no position of a higher rank
/// than any of theirs.
pub proof fn lemma_top_of_ranking(order: Seq<usize>, ranks: Seq<i128>, top: int)
    requires
        is_ranking(order, ranks),
        0 <= top <= order.len(),
    ensures
        forall|x: int, y: int|
            0 <= x < y < top ==> #[trigger] order[x] != #[trigger] order[y] && ranks[order[x] as int]
                >= ranks[order[y] as int],
        forall|j: int|
            0 <= j < ranks.len() ==> #[trigger] lists(order.take(top), j) || forall|x: int|
                0 <= x < top ==> ranks[j] <= ranks[#[trigger] order[x] as int],
{
    assert forall|j: int| 0 <= j < ranks.len() implies #[trigger] lists(order.take(top), j)
        || forall|x: int| 0 <= x < top ==> ranks[j] <= ranks[#[trigger] order[x] as int] by {
        assert(lists(order, j));
        let at = choose|at: int| 0 <= at < order.len() && #[trigger] order[at] == j;
        if at < top {
            assert(order.take(top)[at] == j);
        }
    }
}

/// The positions of `ranks`, from the highest rank to the lowest.
pub fn highest_first(ranks: &Vec<i128>) -> (order: Vec<usize>)
    ensures
        is_ranking(order@, ranks@),
{
    let n = ranks.len();
    let mut order: Vec<usize> = Vec::new();
    // The position `j` stands in `order` at `place[j]`.
    let ghost mut place: Seq<int> = Seq::empty();
    let mut i: usize = 0;
    while i < n
        invariant
            n == ranks.len(),
            i <= n,
            order.len() == i,
            place.len() == i,
            forall|q: int| 0 <= q < i ==> (#[trigger] order[q]) < i,
            forall|j: int| 0 <= j < i ==> 0 <= #[trigger] place[j] < i && order[place[j]] == j,
            forall|x: int, y: int|
                0 <= x < y < i ==> {
                    let a = #[trigger] order[x] as int;
                    let b = #[trigger] order[y] as int;
                    ranks[a] > ranks[b] || (ranks[a] == ranks[b] && a < b)
                },
        decreases n - i,
    {
        let rank = ranks[i];
        let mut p: usize = order.len();
        while p > 0 && ranks[order[p - 1]] < rank
            invariant
                n == ranks.len(),
                i < n,
                p <= order.len(),
                order.len() == i,
                forall|q: int| 0 <= q < i ==> (#[trigger] order[q]) < i,
                forall|q: int| p <= q < order.len() ==> ranks[#[trigger] order[q] as int] < rank,
            decreases p,
        {
            p -= 1;
        }
        let ghost old_place = place;
        order.insert(p, i);
        proof {
            place = Seq::new(
                (i + 1) as nat,
                |j: int|
                    if j == i {
                        p as int
                    } else if old_place[j] >= p {
                        old_place[j] + 1
                    } else {
                        old_place[j]
                    },
            );
        }
        i += 1;
    }
    proof {
        assert forall|j: int| 0 <= j < ranks.len() implies #[trigger] lists(order@, j) by {
            assert(order[place[j]] == j);
        }
    }
    order
}

} // verus!
