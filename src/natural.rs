use crate::formatter::views;
use crate::source::SortOrder;
use std::cmp::Ordering;
use vstd::prelude::*;

verus! {

/// What natord's numeric-aware comparison says of two strings.
pub uninterp spec fn natural_order(a: Seq<char>, b: Seq<char>) -> Ordering;

/// Relies on natord::compare for the natural order of two strings. Its algorithm reads
/// both arguments alike, so swapping them turns `Greater` into `Less`.
#[verifier::external_body]
fn natural_cmp(a: &str, b: &str) -> (r: Ordering)
    ensures
        r == natural_order(a@, b@),
        (r == Ordering::Greater) == (natural_order(b@, a@) == Ordering::Less),
{
    natord::compare(a, b)
}

/// `a` may stand before `b` in a list sorted in `order`.
pub open spec fn in_order(a: Seq<char>, b: Seq<char>, order: SortOrder) -> bool {
    match order {
        SortOrder::Asc => natural_order(a, b) != Ordering::Greater,
        SortOrder::Desc => natural_order(b, a) != Ordering::Greater,
    }
}

/// Each name may stand before the one that follows it.
pub open spec fn sorted_by(s: Seq<Seq<char>>, order: SortOrder) -> bool {
    forall|i: int| 0 <= i < s.len() - 1 ==> in_order(#[trigger] s[i], s[i + 1], order)
}

/// Compares two names in the natural order, ascending or descending.
pub fn compare(a: &str, b: &str, order: SortOrder) -> (r: Ordering)
    ensures
        r == match order {
            SortOrder::Asc => natural_order(a@, b@),
            SortOrder::Desc => natural_order(b@, a@),
        },
{
    match order {
        SortOrder::Asc => natural_cmp(a, b),
        SortOrder::Desc => natural_cmp(b, a),
    }
}

fn ordered(a: &String, b: &String, order: SortOrder) -> (r: bool)
    ensures
        r == in_order(a@, b@, order),
        !r ==> in_order(b@, a@, order),
{
    match order {
        SortOrder::Asc => !matches!(natural_cmp(a.as_str(), b.as_str()), Ordering::Greater),
        SortOrder::Desc => !matches!(natural_cmp(b.as_str(), a.as_str()), Ordering::Greater),
    }
}

/// Sorts names in the natural order; names that compare equal keep their order.
pub fn sort_names(names: &Vec<String>, order: SortOrder) -> (r: Vec<String>)
    ensures
        r@.len() == names@.len(),
        views(r@).to_multiset() == views(names@).to_multiset(),
        sorted_by(views(r@), order),
{
    let mut out: Vec<String> = Vec::new();
    let mut i: usize = 0;
    proof {
        assert(views(names@.subrange(0, 0)) =~= views(out@));
    }
    while i < names.len()
        invariant
            i <= names@.len(),
            out@.len() == i,
            views(out@).to_multiset() == views(names@.subrange(0, i as int)).to_multiset(),
            sorted_by(views(out@), order),
        decreases names@.len() - i,
    {
        let x = names[i].clone();
        let mut pos: usize = out.len();
        while pos > 0 && !ordered(&out[pos - 1], &x, order)
            invariant
                pos <= out@.len(),
                forall|k: int|
                    pos <= k < out@.len() ==> !in_order(#[trigger] out@[k]@, x@, order) && in_order(
                        x@,
                        out@[k]@,
                        order,
                    ),
            decreases pos,
        {
            pos = pos - 1;
        }
        let ghost before = out@;
        out.insert(pos, x);
        proof {
            let vb = views(before);
            let va = views(out@);
            let vn = views(names@.subrange(0, i as int));
            assert(va =~= vb.insert(pos as int, x@));
            vstd::seq_lib::to_multiset_insert(vb, pos as int, x@);
            vstd::seq_lib::to_multiset_build(vn, x@);
            assert(views(names@.subrange(0, i + 1)) =~= vn.push(x@));
            assert forall|j: int| 0 <= j < va.len() - 1 implies in_order(#[trigger] va[j], va[j + 1], order) by {
                if j + 1 < pos {
                    assert(va[j] == vb[j] && va[j + 1] == vb[j + 1]);
                } else if j + 1 == pos {
                    assert(va[j] == before[j]@ && va[j + 1] == x@);
                } else if j == pos {
                    assert(va[j] == x@ && va[j + 1] == before[j]@);
                } else {
                    assert(va[j] == vb[j - 1] && va[j + 1] == vb[j]);
                }
            }
        }
        i = i + 1;
    }
    proof {
        assert(names@.subrange(0, i as int) =~= names@);
        assert(views(out@).len() == out@.len());
    }
    out
}

} // verus!
