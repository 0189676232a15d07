//! The label-propagation merge, stated over mathematical maps.
//!
//! Given the annotations `a` of a namespace and the labels `l` of the object
//! under admission, every annotation key `propagate.K` with value `V` forces
//! the label `K -> V`; labels without such an annotation stay as they are, and
//! no label is ever removed.

use vstd::prelude::*;

use crate::prefix::{has_label_prefix, label_prefix, lemma_prefixed_stripped, lemma_strip_roundtrip,
    prefixed, stripped};

verus! {

/// The merged label map: `K` is bound to `a[propagate.K]` where that
/// annotation exists, and to `l[K]` otherwise.
pub open spec fn merged(a: Map<Seq<char>, Seq<char>>, l: Map<Seq<char>, Seq<char>>) -> Map<
    Seq<char>,
    Seq<char>,
> {
    Map::new(
        |k: Seq<char>| l.dom().contains(k) || a.dom().contains(prefixed(k)),
        |k: Seq<char>|
            if a.dom().contains(prefixed(k)) {
                a[prefixed(k)]
            } else {
                l[k]
            },
    )
}

/// If no annotation key carries the prefix, the merge changes nothing.
pub proof fn lemma_no_prefix_no_change(a: Map<Seq<char>, Seq<char>>, l: Map<Seq<char>, Seq<char>>)
    requires
        forall|k: Seq<char>| a.dom().contains(k) ==> !has_label_prefix(k),
    ensures
        merged(a, l) == l,
{
    assert forall|k: Seq<char>| !(#[trigger] a.dom().contains(prefixed(k))) by {
        lemma_prefixed_stripped(k);
    }
    assert(merged(a, l) =~= l);
}

/// An annotation `propagate.K -> V` that the labels do not already satisfy
/// forces a change, and the merged map binds `K` to `V`.
pub proof fn lemma_divergent_annotation_changes(
    a: Map<Seq<char>, Seq<char>>,
    l: Map<Seq<char>, Seq<char>>,
    k: Seq<char>,
)
    requires
        a.dom().contains(prefixed(k)),
        !l.dom().contains(k) || l[k] != a[prefixed(k)],
    ensures
        merged(a, l).dom().contains(k),
        merged(a, l)[k] == a[prefixed(k)],
        merged(a, l) != l,
{
    if l.dom().contains(k) {
        assert(merged(a, l)[k] != l[k]);
    }
}

/// If the labels already satisfy every prefixed annotation, the merge changes
/// nothing.
pub proof fn lemma_converged_no_change(a: Map<Seq<char>, Seq<char>>, l: Map<Seq<char>, Seq<char>>)
    requires
        forall|k: Seq<char>|
            a.dom().contains(k) && has_label_prefix(k) ==> l.dom().contains(stripped(k))
                && l[stripped(k)] == a[k],
    ensures
        merged(a, l) == l,
{
    assert forall|k: Seq<char>| #[trigger] a.dom().contains(prefixed(k))
        implies l.dom().contains(k) && l[k] == a[prefixed(k)] by {
        lemma_prefixed_stripped(k);
        assert(a.dom().contains(prefixed(k)) && has_label_prefix(prefixed(k)));
    }
    assert(merged(a, l) =~= l);
}

/// The merge never removes a label, and a label with no matching prefixed
/// annotation keeps its value.
pub proof fn lemma_no_deletion(
    a: Map<Seq<char>, Seq<char>>,
    l: Map<Seq<char>, Seq<char>>,
    k: Seq<char>,
)
    requires
        l.dom().contains(k),
    ensures
        merged(a, l).dom().contains(k),
        !a.dom().contains(prefixed(k)) ==> merged(a, l)[k] == l[k],
{
}

/// Inserting one prefixed annotation into `a` moves the merge by exactly the
/// corresponding label insertion.
pub proof fn lemma_merged_insert_prefixed(
    a: Map<Seq<char>, Seq<char>>,
    l: Map<Seq<char>, Seq<char>>,
    k: Seq<char>,
    v: Seq<char>,
)
    requires
        has_label_prefix(k),
    ensures
        merged(a.insert(k, v), l) == merged(a, l).insert(stripped(k), v),
{
    lemma_strip_roundtrip(k);
    assert forall|kk: Seq<char>| kk != stripped(k) implies prefixed(kk) != k by {
        if prefixed(kk) == k {
            lemma_prefixed_stripped(kk);
        }
    }
    assert(merged(a.insert(k, v), l) =~= merged(a, l).insert(stripped(k), v));
}

/// Inserting an annotation without the prefix does not move the merge.
pub proof fn lemma_merged_insert_plain(
    a: Map<Seq<char>, Seq<char>>,
    l: Map<Seq<char>, Seq<char>>,
    k: Seq<char>,
    v: Seq<char>,
)
    requires
        !has_label_prefix(k),
    ensures
        merged(a.insert(k, v), l) == merged(a, l),
{
    assert forall|kk: Seq<char>| prefixed(kk) != k by {
        if prefixed(kk) == k {
            lemma_prefixed_stripped(kk);
        }
    }
    assert(merged(a.insert(k, v), l) =~= merged(a, l));
}

} // verus!
