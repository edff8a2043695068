//! Weight tables: one optional accumulated weight per category, indexed by
//! the category's declaration position, and the ranking of their entries.
use vstd::prelude::*;

verus! {

/// Whether slot `i` of the table holds a weight.
pub open spec fn filled(w: Seq<Option<u64>>, i: int) -> bool {
    0 <= i < w.len() && w[i] is Some
}

/// Slot `a` ranks before slot `b`: a heavier weight first, and between equal
/// weights the earlier position.
pub open spec fn slot_before(w: Seq<Option<u64>>, a: int, b: int) -> bool {
    w[a].unwrap() > w[b].unwrap() || (w[a].unwrap() == w[b].unwrap() && a < b)
}

/// Slot `a` ranks first among the filled slots.
pub open spec fn is_top_slot(w: Seq<Option<u64>>, a: int) -> bool {
    &&& filled(w, a)
    &&& forall|b: int| #[trigger] filled(w, b) && b != a ==> slot_before(w, a, b)
}

/// Slot `a` ranks first among the filled slots other than `first`.
pub open spec fn is_second_slot(w: Seq<Option<u64>>, first: int, a: int) -> bool {
    &&& filled(w, a)
    &&& a != first
    &&& forall|b: int| #[trigger] filled(w, b) && b != a && b != first ==> slot_before(w, a, b)
}

/// The two slots that rank first and second; `None` where fewer slots are filled.
pub fn top_two(w: &Vec<Option<u64>>) -> (r: (Option<usize>, Option<usize>))
    ensures
        r.0 is None <==> (forall|i: int| !filled(w@, i)),
        r.0 matches Some(a) ==> is_top_slot(w@, a as int),
        r.1 is None <==> (forall|i: int, j: int| filled(w@, i) && filled(w@, j) ==> i == j),
        r.1 matches Some(b) ==> r.0 is Some && is_second_slot(w@, r.0.unwrap() as int, b as int),
{
    let mut first: Option<usize> = None;
    let mut second: Option<usize> = None;
    let mut i: usize = 0;
    while i < w.len()
        invariant
            0 <= i <= w.len(),
            first is None <==> (forall|j: int| 0 <= j < i ==> !filled(w@, j)),
            first matches Some(a) ==> a < i && filled(w@, a as int) && forall|j: int|
                0 <= j < i && #[trigger] filled(w@, j) && j != a ==> slot_before(w@, a as int, j),
            second is None <==> (forall|j: int, k: int|
                0 <= j < i && 0 <= k < i && filled(w@, j) && filled(w@, k) ==> j == k),
            second matches Some(b) ==> first is Some && b < i && filled(w@, b as int) && b
                != first.unwrap() && forall|j: int|
                0 <= j < i && #[trigger] filled(w@, j) && j != b && j != first.unwrap()
                    ==> slot_before(w@, b as int, j),
        decreases w.len() - i,
    {
        if let Some(v) = w[i] {
            match first {
                None => {
                    first = Some(i);
                },
                Some(a) => {
                    let top = w[a].unwrap();
                    if v > top {
                        second = first;
                        first = Some(i);
                    } else {
                        match second {
                            None => {
                                second = Some(i);
                            },
                            Some(b) => {
                                if v > w[b].unwrap() {
                                    second = Some(i);
                                }
                            },
                        }
                    }
                },
            }
        }
        proof {
            if let Some(a) = first {
                assert(filled(w@, a as int));
            }
            if let Some(b) = second {
                assert(filled(w@, b as int) && filled(w@, first.unwrap() as int));
            }
            if second is None {
                assert forall|j: int, k: int|
                    0 <= j < i + 1 && 0 <= k < i + 1 && filled(w@, j) && filled(w@, k) implies j
                    == k by {
                    if j < i && k < i {
                    } else if j == i && k < i {
                        assert(!filled(w@, k));
                    } else if k == i && j < i {
                        assert(!filled(w@, j));
                    }
                }
            }
        }
        i = i + 1;
    }
    (first, second)
}

} // verus!
