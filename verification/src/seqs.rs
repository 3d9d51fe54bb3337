//! Sequence helpers shared by the query functions.

use vstd::prelude::*;

verus! {

/// The values a sequence of references refers to.
pub open spec fn derefs<T>(s: Seq<&T>) -> Seq<T> {
    s.map_values(|x: &T| *x)
}

/// The characters of an optional string argument.
pub open spec fn opt_text(s: Option<&str>) -> Option<Seq<char>> {
    match s {
        Some(t) => Some(t@),
        None => None,
    }
}

/// Extending a selection by one element: the values referred to grow by that element,
/// and the filtered prefix grows by it exactly when it passes the filter.
pub proof fn lemma_select_step<T>(out: Seq<&T>, all: Seq<T>, i: int, p: spec_fn(T) -> bool)
    requires
        0 <= i < all.len(),
        derefs(out) == all.take(i).filter(p),
    ensures
        p(all[i]) ==> derefs(out.push(&all[i])) == all.take(i + 1).filter(p),
        !p(all[i]) ==> derefs(out) == all.take(i + 1).filter(p),
{
    broadcast use vstd::seq_lib::group_seq_properties;
    assert(all.take(i + 1) =~= all.take(i).push(all[i]));
    all.take(i).lemma_filter_push(all[i], p);
}

} // verus!
