//! A small string-to-string map, kept as a vector of key/value pairs with
//! pairwise-distinct keys, and viewed as a `Map<Seq<char>, Seq<char>>`.

use vstd::prelude::*;

use crate::merge::{lemma_merged_insert_plain, lemma_merged_insert_prefixed, merged};
use crate::prefix::{key_has_prefix, lemma_strip_roundtrip, prefixed, strip_key};

verus! {

/// The mathematical map described by a sequence of key/value pairs, later
/// pairs winning over earlier ones.
pub open spec fn map_of(pairs: Seq<(String, String)>) -> Map<Seq<char>, Seq<char>>
    decreases pairs.len(),
{
    if pairs.len() == 0 {
        Map::empty()
    } else {
        map_of(pairs.drop_last()).insert(pairs.last().0@, pairs.last().1@)
    }
}

/// Whether some pair of `pairs` carries the key `k`.
pub open spec fn pairs_have_key(pairs: Seq<(String, String)>, k: Seq<char>) -> bool {
    exists|i: int| 0 <= i < pairs.len() && pairs[i].0@ == k
}

/// The domain of `map_of(pairs)` is exactly the set of keys of `pairs`.
pub proof fn lemma_map_of_dom(pairs: Seq<(String, String)>)
    ensures
        forall|k: Seq<char>| #[trigger] map_of(pairs).dom().contains(k) <==> pairs_have_key(pairs, k),
    decreases pairs.len(),
{
    if pairs.len() > 0 {
        lemma_map_of_dom(pairs.drop_last());
        assert forall|k: Seq<char>| #[trigger] map_of(pairs).dom().contains(k)
            implies pairs_have_key(pairs, k) by {
            if pairs.last().0@ == k {
                assert(pairs[pairs.len() - 1].0@ == k);
            } else {
                assert(map_of(pairs.drop_last()).dom().contains(k));
                assert(pairs_have_key(pairs.drop_last(), k));
                let i = choose|i: int|
                    0 <= i < pairs.drop_last().len() && pairs.drop_last()[i].0@ == k;
                assert(pairs.drop_last()[i] == pairs[i]);
                assert(pairs[i].0@ == k);
            }
        }
        assert forall|k: Seq<char>| pairs_have_key(pairs, k)
            implies #[trigger] map_of(pairs).dom().contains(k) by {
            let i = choose|i: int| 0 <= i < pairs.len() && pairs[i].0@ == k;
            if i < pairs.len() - 1 {
                assert(pairs.drop_last()[i].0@ == k);
                assert(pairs_have_key(pairs.drop_last(), k));
                assert(map_of(pairs.drop_last()).dom().contains(k));
            }
        }
    }
}

/// With pairwise-distinct keys, the pair at index `i` gives the value that
/// `map_of` holds for its key.
pub proof fn lemma_map_of_index(pairs: Seq<(String, String)>, i: int)
    requires
        0 <= i < pairs.len(),
        forall|a: int, b: int| 0 <= a < b < pairs.len() ==> pairs[a].0@ != pairs[b].0@,
    ensures
        map_of(pairs).dom().contains(pairs[i].0@),
        map_of(pairs)[pairs[i].0@] == pairs[i].1@,
    decreases pairs.len(),
{
    if i < pairs.len() - 1 {
        assert(pairs[i].0@ != pairs[pairs.len() - 1].0@);
        assert(pairs.drop_last()[i] == pairs[i]);
        lemma_map_of_index(pairs.drop_last(), i);
    }
}

/// Updating the pair at index `i`, keeping its key, updates `map_of` at that
/// key alone.
proof fn lemma_map_of_update(pairs: Seq<(String, String)>, i: int, p: (String, String))
    requires
        0 <= i < pairs.len(),
        forall|a: int, b: int| 0 <= a < b < pairs.len() ==> pairs[a].0@ != pairs[b].0@,
        p.0@ == pairs[i].0@,
    ensures
        map_of(pairs.update(i, p)) == map_of(pairs).insert(p.0@, p.1@),
    decreases pairs.len(),
{
    let updated = pairs.update(i, p);
    if i == pairs.len() - 1 {
        assert(updated.drop_last() =~= pairs.drop_last());
        assert(map_of(updated) =~= map_of(pairs).insert(p.0@, p.1@));
    } else {
        assert(updated.drop_last() =~= pairs.drop_last().update(i, p));
        assert(pairs.drop_last()[i] == pairs[i]);
        lemma_map_of_update(pairs.drop_last(), i, p);
        assert(pairs[i].0@ != pairs.last().0@);
        assert(updated.last() == pairs.last());
        assert(map_of(updated) =~= map_of(pairs).insert(p.0@, p.1@));
    }
}

/// A map of labels: string keys to string values, each key at most once.
pub struct Labels {
    pairs: Vec<(String, String)>,
}

impl View for Labels {
    type V = Map<Seq<char>, Seq<char>>;

    closed spec fn view(&self) -> Map<Seq<char>, Seq<char>> {
        map_of(self.pairs@)
    }
}

impl Labels {
    /// Keys are pairwise distinct.
    pub closed spec fn wf(&self) -> bool {
        forall|a: int, b: int|
            0 <= a < b < self.pairs@.len() ==> self.pairs@[a].0@ != self.pairs@[b].0@
    }

    pub fn new() -> (r: Labels)
        ensures
            r.wf(),
            r@ == Map::<Seq<char>, Seq<char>>::empty(),
    {
        Labels { pairs: Vec::new() }
    }

    /// Looks the key up; the answer agrees with the view.
    pub fn get(&self, key: &String) -> (r: Option<&String>)
        requires
            self.wf(),
        ensures
            match r {
                Some(v) => self@.dom().contains(key@) && v@ == self@[key@],
                None => !self@.dom().contains(key@),
            },
    {
        let n = self.pairs.len();
        let mut i: usize = 0;
        while i < n
            invariant
                n == self.pairs@.len(),
                0 <= i <= n,
                self.wf(),
                forall|j: int| 0 <= j < i ==> self.pairs@[j].0@ != key@,
            decreases n - i,
        {
            if self.pairs[i].0.eq(key) {
                proof {
                    lemma_map_of_index(self.pairs@, i as int);
                }
                return Some(&self.pairs[i].1);
            }
            i += 1;
        }
        proof {
            lemma_map_of_dom(self.pairs@);
        }
        None
    }

    /// Inserts or overwrites; the view gains exactly this binding.
    pub fn set(&mut self, key: String, value: String)
        requires
            old(self).wf(),
        ensures
            final(self).wf(),
            final(self)@ == old(self)@.insert(key@, value@),
    {
        let n = self.pairs.len();
        let mut i: usize = 0;
        while i < n
            invariant
                n == self.pairs@.len(),
                0 <= i <= n,
                self.wf(),
                self == old(self),
                forall|j: int| 0 <= j < i ==> self.pairs@[j].0@ != key@,
            decreases n - i,
        {
            if self.pairs[i].0.eq(&key) {
                proof {
                    lemma_map_of_update(self.pairs@, i as int, (key, value));
                }
                self.pairs.set(i, (key, value));
                return;
            }
            i += 1;
        }
        proof {
            lemma_map_of_dom(self.pairs@);
            assert(self.pairs@.push((key, value)).drop_last() =~= self.pairs@);
        }
        self.pairs.push((key, value));
    }

    /// Builds a label map from a sequence of pairs, later pairs winning.
    pub fn from_pairs(pairs: &Vec<(String, String)>) -> (r: Labels)
        ensures
            r.wf(),
            r@ == map_of(pairs@),
    {
        let mut r = Labels::new();
        let n = pairs.len();
        let mut i: usize = 0;
        while i < n
            invariant
                n == pairs@.len(),
                0 <= i <= n,
                r.wf(),
                r@ == map_of(pairs@.take(i as int)),
            decreases n - i,
        {
            proof {
                assert(pairs@.take(i as int + 1).drop_last() =~= pairs@.take(i as int));
                assert(pairs@.take(i as int + 1).last() == pairs@[i as int]);
            }
            r.set(pairs[i].0.clone(), pairs[i].1.clone());
            i += 1;
        }
        proof {
            assert(pairs@.take(n as int) =~= pairs@);
        }
        r
    }

    /// Copies the pairs out, for handing to the host boundary.
    pub fn clone_pairs(&self) -> (r: Vec<(String, String)>)
        requires
            self.wf(),
        ensures
            map_of(r@) == self@,
            forall|a: int, b: int| 0 <= a < b < r@.len() ==> r@[a].0@ != r@[b].0@,
    {
        let mut r: Vec<(String, String)> = Vec::new();
        let n = self.pairs.len();
        let mut i: usize = 0;
        while i < n
            invariant
                n == self.pairs@.len(),
                0 <= i <= n,
                r@ == self.pairs@.take(i as int),
            decreases n - i,
        {
            r.push((self.pairs[i].0.clone(), self.pairs[i].1.clone()));
            proof {
                assert(r@ =~= self.pairs@.take(i as int + 1));
            }
            i += 1;
        }
        proof {
            assert(self.pairs@.take(n as int) =~= self.pairs@);
        }
        r
    }
}

/// Merges the namespace annotations into the labels: the first result is the
/// merged label map, the second says whether it differs from the labels that
/// came in. The result is `merged` of the two views, whatever order the
/// annotation pairs stand in.
pub fn propagate(annotations: &Labels, labels: &Labels) -> (r: (Labels, bool))
    requires
        annotations.wf(),
        labels.wf(),
    ensures
        r.0.wf(),
        r.0@ == merged(annotations@, labels@),
        r.1 == (merged(annotations@, labels@) != labels@),
{
    let mut out = Labels::from_pairs(&labels.pairs);
    let mut changed = false;
    proof {
        assert(merged(Map::<Seq<char>, Seq<char>>::empty(), labels@) =~= labels@);
        assert(map_of(annotations.pairs@.take(0)) =~= Map::<Seq<char>, Seq<char>>::empty());
    }
    let m = annotations.pairs.len();
    let mut j: usize = 0;
    while j < m
        invariant
            m == annotations.pairs@.len(),
            0 <= j <= m,
            annotations.wf(),
            labels.wf(),
            out.wf(),
            out@ == merged(map_of(annotations.pairs@.take(j as int)), labels@),
            changed == (out@ != labels@),
        decreases m - j,
    {
        let ghost a_pre = map_of(annotations.pairs@.take(j as int));
        let key = &annotations.pairs[j].0;
        let value = &annotations.pairs[j].1;
        proof {
            assert(annotations.pairs@.take(j as int + 1).drop_last() =~= annotations.pairs@.take(
                j as int,
            ));
            assert(annotations.pairs@.take(j as int + 1).last() == annotations.pairs@[j as int]);
            lemma_map_of_dom(annotations.pairs@.take(j as int));
            assert(!pairs_have_key(annotations.pairs@.take(j as int), key@)) by {
                if pairs_have_key(annotations.pairs@.take(j as int), key@) {
                    let i = choose|i: int|
                        0 <= i < j && annotations.pairs@.take(j as int)[i].0@ == key@;
                    assert(annotations.pairs@[i].0@ == annotations.pairs@[j as int].0@);
                }
            }
        }
        if key_has_prefix(key) {
            let s = strip_key(key);
            proof {
                lemma_strip_roundtrip(key@);
                lemma_merged_insert_prefixed(a_pre, labels@, key@, value@);
            }
            let mut need_set = true;
            match out.get(&s) {
                Some(existing) => {
                    if existing.eq(value) {
                        need_set = false;
                    }
                },
                None => {},
            }
            if need_set {
                out.set(s, value.clone());
                proof {
                    assert(out@ != labels@) by {
                        assert(out@[s@] == value@);
                        assert(out@.dom().contains(s@));
                        if labels@.dom().contains(s@) {
                            assert(!a_pre.dom().contains(prefixed(s@)));
                        }
                    }
                }
                changed = true;
            } else {
                proof {
                    assert(out@.insert(s@, value@) =~= out@);
                }
            }
        } else {
            proof {
                lemma_merged_insert_plain(a_pre, labels@, key@, value@);
            }
        }
        j += 1;
    }
    proof {
        assert(annotations.pairs@.take(m as int) =~= annotations.pairs@);
    }
    (out, changed)
}

} // verus!
