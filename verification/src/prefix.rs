//! The `propagate.` key prefix: recognising it, stripping it, and putting it
//! back on.

use vstd::prelude::*;

verus! {

/// The annotation-key prefix that marks a label to propagate.
pub open spec fn label_prefix() -> Seq<char> {
    "propagate."@
}

/// `k` with the prefix put in front.
pub open spec fn prefixed(k: Seq<char>) -> Seq<char> {
    label_prefix() + k
}

/// Whether `k` starts with the prefix.
pub open spec fn has_label_prefix(k: Seq<char>) -> bool {
    k.len() >= label_prefix().len() && k.subrange(0, label_prefix().len() as int) == label_prefix()
}

/// `k` with the prefix taken off.
pub open spec fn stripped(k: Seq<char>) -> Seq<char> {
    k.subrange(label_prefix().len() as int, k.len() as int)
}

/// Putting the prefix on and taking it off are inverse to each other, and a
/// prefixed key always starts with the prefix.
pub proof fn lemma_prefixed_stripped(k: Seq<char>)
    ensures
        has_label_prefix(prefixed(k)),
        stripped(prefixed(k)) == k,
{
    assert(prefixed(k).subrange(0, label_prefix().len() as int) =~= label_prefix());
    assert(stripped(prefixed(k)) =~= k);
}

/// A key that starts with the prefix is its stripped form, prefixed again.
pub proof fn lemma_strip_roundtrip(k: Seq<char>)
    requires
        has_label_prefix(k),
    ensures
        prefixed(stripped(k)) == k,
{
    assert forall|i: int| 0 <= i < label_prefix().len() implies k[i] == label_prefix()[i] by {
        assert(k.subrange(0, label_prefix().len() as int)[i] == k[i]);
    }
    assert(prefixed(stripped(k)) =~= k);
}

/// Recognises the prefix on an actual string key.
pub fn key_has_prefix(key: &String) -> (r: bool)
    ensures
        r == has_label_prefix(key@),
{
    proof {
        reveal_strlit("propagate.");
    }
    let p = "propagate.";
    let klen = key.as_str().unicode_len();
    if klen < 10 {
        return false;
    }
    let mut i: usize = 0;
    while i < 10
        invariant
            0 <= i <= 10,
            klen == key@.len(),
            klen >= 10,
            label_prefix().len() == 10,
            p@ == label_prefix(),
            forall|j: int| 0 <= j < i ==> key@[j] == label_prefix()[j],
        decreases 10 - i,
    {
        proof {
            reveal_strlit("propagate.");
        }
        if key.as_str().get_char(i) != p.get_char(i) {
            proof {
                assert(key@.subrange(0, 10)[i as int] == key@[i as int]);
            }
            return false;
        }
        i += 1;
    }
    proof {
        assert(key@.subrange(0, 10) =~= label_prefix());
    }
    true
}

/// Strips the prefix from a key known to carry it.
pub fn strip_key(key: &String) -> (r: String)
    requires
        has_label_prefix(key@),
    ensures
        r@ == stripped(key@),
{
    proof {
        reveal_strlit("propagate.");
    }
    let klen = key.as_str().unicode_len();
    let tail = key.as_str().substring_char(10, klen);
    tail.to_owned()
}

} // verus!
