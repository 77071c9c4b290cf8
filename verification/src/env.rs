//! An ordered string-to-string map for environment variables.
//!
//! Entries are kept sorted by key with no key occurring twice, so iterating
//! over them visits keys in increasing order.
use vstd::prelude::*;

use crate::text::{seq_less, str_eq, str_less, to_string, lemma_seq_less_irreflexive,
    lemma_seq_less_transitive, lemma_seq_less_total, lemma_seq_less_asymmetric};

verus! {

/// The entries of an environment map, as pairs of character sequences.
pub type EnvEntries = Seq<(Seq<char>, Seq<char>)>;

pub open spec fn pair_view(p: (String, String)) -> (Seq<char>, Seq<char>) {
    (p.0@, p.1@)
}

pub open spec fn pairs_view(v: Seq<(String, String)>) -> EnvEntries {
    v.map_values(|p: (String, String)| pair_view(p))
}

/// Keys strictly increase from one entry to the next.
pub open spec fn keys_sorted(s: EnvEntries) -> bool {
    forall|i: int, j: int| 0 <= i < j < s.len() ==> seq_less(#[trigger] s[i].0, #[trigger] s[j].0)
}

/// The value stored under `k`, if any.
pub open spec fn env_lookup(s: EnvEntries, k: Seq<char>) -> Option<Seq<char>>
    decreases s.len(),
{
    if s.len() == 0 {
        None
    } else if s.last().0 == k {
        Some(s.last().1)
    } else {
        env_lookup(s.drop_last(), k)
    }
}

/// The entries after `insert(k, v)`: `k` now maps to `v`, and the sort order is kept.
pub open spec fn sorted_insert(s: EnvEntries, k: Seq<char>, v: Seq<char>) -> EnvEntries
    decreases s.len(),
{
    if s.len() == 0 {
        seq![(k, v)]
    } else if seq_less(s[0].0, k) {
        seq![s[0]] + sorted_insert(s.drop_first(), k, v)
    } else if s[0].0 == k {
        seq![(k, v)] + s.drop_first()
    } else {
        seq![(k, v)] + s
    }
}

/// Some entry has key `k`.
pub open spec fn has_key(s: EnvEntries, k: Seq<char>) -> bool {
    exists|i: int| 0 <= i < s.len() && #[trigger] s[i].0 == k
}

/// The entries after `entry(k).or_insert(v)`.
pub open spec fn insert_if_absent(s: EnvEntries, k: Seq<char>, v: Seq<char>) -> EnvEntries {
    if has_key(s, k) {
        s
    } else {
        sorted_insert(s, k, v)
    }
}

proof fn lemma_sorted_insert_at(s: EnvEntries, k: Seq<char>, v: Seq<char>, j: int)
    requires
        0 <= j <= s.len(),
        keys_sorted(s),
        forall|i: int| 0 <= i < j ==> seq_less(#[trigger] s[i].0, k),
        j == s.len() || !seq_less(s[j].0, k),
    ensures
        sorted_insert(s, k, v) == (if j < s.len() && s[j].0 == k {
            s.update(j, (k, v))
        } else {
            s.insert(j, (k, v))
        }),
    decreases j,
{
    if j == 0 {
        if s.len() == 0 {
            assert(s.insert(0, (k, v)) =~= seq![(k, v)]);
        } else if s[0].0 == k {
            assert(s.update(0, (k, v)) =~= seq![(k, v)] + s.drop_first());
        } else {
            assert(s.insert(0, (k, v)) =~= seq![(k, v)] + s);
        }
    } else {
        let t = s.drop_first();
        assert(seq_less(s[0].0, k));
        assert forall|i: int, jj: int| 0 <= i < jj < t.len() implies seq_less(
            #[trigger] t[i].0,
            #[trigger] t[jj].0,
        ) by {
            assert(t[i] == s[i + 1]);
            assert(t[jj] == s[jj + 1]);
        }
        assert forall|i: int| 0 <= i < j - 1 implies seq_less(#[trigger] t[i].0, k) by {
            assert(t[i] == s[i + 1]);
        }
        if j - 1 < t.len() {
            assert(t[j - 1] == s[j]);
        }
        lemma_sorted_insert_at(t, k, v, j - 1);
        if j < s.len() && s[j].0 == k {
            assert(seq![s[0]] + t.update(j - 1, (k, v)) =~= s.update(j, (k, v)));
        } else {
            assert(seq![s[0]] + t.insert(j - 1, (k, v)) =~= s.insert(j, (k, v)));
        }
    }
}

/// Inserting into sorted entries keeps them sorted.
pub proof fn lemma_sorted_insert_sorted(s: EnvEntries, k: Seq<char>, v: Seq<char>)
    requires
        keys_sorted(s),
    ensures
        keys_sorted(sorted_insert(s, k, v)),
        forall|i: int| 0 <= i < sorted_insert(s, k, v).len() ==> (#[trigger] sorted_insert(s, k, v)[i].0 == k
            || has_key(s, sorted_insert(s, k, v)[i].0)),
    decreases s.len(),
{
    let r = sorted_insert(s, k, v);
    if s.len() == 0 {
    } else if seq_less(s[0].0, k) {
        let t = s.drop_first();
        assert forall|i: int, jj: int| 0 <= i < jj < t.len() implies seq_less(
            #[trigger] t[i].0,
            #[trigger] t[jj].0,
        ) by {
            assert(t[i] == s[i + 1]);
            assert(t[jj] == s[jj + 1]);
        }
        lemma_sorted_insert_sorted(t, k, v);
        let rt = sorted_insert(t, k, v);
        assert(r == seq![s[0]] + rt);
        assert forall|i: int| 0 <= i < rt.len() implies seq_less(s[0].0, #[trigger] rt[i].0) by {
            if rt[i].0 == k {
            } else {
                let w = choose|w: int| 0 <= w < t.len() && #[trigger] t[w].0 == rt[i].0;
                assert(t[w] == s[w + 1]);
            }
        }
        assert forall|i: int, jj: int| 0 <= i < jj < r.len() implies seq_less(
            #[trigger] r[i].0,
            #[trigger] r[jj].0,
        ) by {
            if i == 0 {
                assert(r[jj] == rt[jj - 1]);
            } else {
                assert(r[i] == rt[i - 1]);
                assert(r[jj] == rt[jj - 1]);
            }
        }
        assert forall|i: int| 0 <= i < r.len() implies (#[trigger] r[i].0 == k || has_key(s, r[i].0)) by {
            if i == 0 {
                assert(s[0].0 == r[0].0);
            } else {
                assert(r[i] == rt[i - 1]);
                if rt[i - 1].0 != k {
                    let w = choose|w: int| 0 <= w < t.len() && #[trigger] t[w].0 == rt[i - 1].0;
                    assert(t[w] == s[w + 1]);
                    assert(s[w + 1].0 == r[i].0);
                }
            }
        }
    } else if s[0].0 == k {
        assert forall|i: int, jj: int| 0 <= i < jj < r.len() implies seq_less(
            #[trigger] r[i].0,
            #[trigger] r[jj].0,
        ) by {
            assert(r[jj] == s[jj]);
            if i > 0 {
                assert(r[i] == s[i]);
            } else {
                assert(seq_less(s[0].0, s[jj].0));
            }
        }
        assert forall|i: int| 0 <= i < r.len() implies (#[trigger] r[i].0 == k || has_key(s, r[i].0)) by {
            if i > 0 {
                assert(r[i] == s[i]);
            }
        }
    } else {
        lemma_seq_less_total(s[0].0, k);
        assert forall|i: int, jj: int| 0 <= i < jj < r.len() implies seq_less(
            #[trigger] r[i].0,
            #[trigger] r[jj].0,
        ) by {
            assert(r[jj] == s[jj - 1]);
            if i > 0 {
                assert(r[i] == s[i - 1]);
            } else {
                if jj - 1 > 0 {
                    assert(seq_less(s[0].0, s[jj - 1].0));
                    lemma_seq_less_transitive(k, s[0].0, s[jj - 1].0);
                }
            }
        }
        assert forall|i: int| 0 <= i < r.len() implies (#[trigger] r[i].0 == k || has_key(s, r[i].0)) by {
            if i > 0 {
                assert(r[i] == s[i - 1]);
            }
        }
    }
}

/// In sorted entries each key occurs at most once.
pub proof fn lemma_sorted_keys_unique(s: EnvEntries, i: int, j: int)
    requires
        keys_sorted(s),
        0 <= i < s.len(),
        0 <= j < s.len(),
        s[i].0 == s[j].0,
    ensures
        i == j,
{
    if i < j {
        lemma_seq_less_irreflexive(s[i].0);
    } else if j < i {
        lemma_seq_less_irreflexive(s[i].0);
    }
}

/// Looking a key up finds the one entry that holds it.
pub proof fn lemma_lookup_index(s: EnvEntries, k: Seq<char>)
    requires
        keys_sorted(s),
    ensures
        env_lookup(s, k) is None <==> !has_key(s, k),
        forall|i: int| 0 <= i < s.len() && #[trigger] s[i].0 == k ==> env_lookup(s, k) == Some(s[i].1),
    decreases s.len(),
{
    if s.len() > 0 {
        let t = s.drop_last();
        assert forall|i: int, jj: int| 0 <= i < jj < t.len() implies seq_less(
            #[trigger] t[i].0,
            #[trigger] t[jj].0,
        ) by {
            assert(t[i] == s[i]);
            assert(t[jj] == s[jj]);
        }
        lemma_lookup_index(t, k);
        assert forall|i: int| 0 <= i < s.len() && #[trigger] s[i].0 == k implies env_lookup(s, k)
            == Some(s[i].1) by {
            if s.last().0 == k {
                lemma_sorted_keys_unique(s, i, s.len() - 1);
            } else {
                assert(t[i] == s[i]);
            }
        }
        if has_key(s, k) {
            let w = choose|w: int| 0 <= w < s.len() && #[trigger] s[w].0 == k;
            assert(env_lookup(s, k) == Some(s[w].1));
        }
        if !has_key(s, k) {
            assert(s.last().0 != k);
            if has_key(t, k) {
                let w = choose|w: int| 0 <= w < t.len() && #[trigger] t[w].0 == k;
                assert(s[w] == t[w]);
            }
        }
    }
}

/// After `insert(k, v)`, `k` maps to `v` and every other key keeps its value.
pub proof fn lemma_sorted_insert_lookup(s: EnvEntries, k: Seq<char>, v: Seq<char>, q: Seq<char>)
    requires
        keys_sorted(s),
    ensures
        env_lookup(sorted_insert(s, k, v), q) == (if q == k {
            Some(v)
        } else {
            env_lookup(s, q)
        }),
    decreases s.len(),
{
    let r = sorted_insert(s, k, v);
    lemma_sorted_insert_sorted(s, k, v);
    lemma_lookup_index(r, q);
    lemma_lookup_index(s, q);
    if s.len() == 0 {
        assert(r[0].0 == k);
    } else if seq_less(s[0].0, k) {
        let t = s.drop_first();
        assert forall|i: int, jj: int| 0 <= i < jj < t.len() implies seq_less(
            #[trigger] t[i].0,
            #[trigger] t[jj].0,
        ) by {
            assert(t[i] == s[i + 1]);
            assert(t[jj] == s[jj + 1]);
        }
        lemma_sorted_insert_lookup(t, k, v, q);
        lemma_lookup_index(t, q);
        let rt = sorted_insert(t, k, v);
        lemma_sorted_insert_sorted(t, k, v);
        lemma_lookup_index(rt, q);
        assert(r == seq![s[0]] + rt);
        if q == s[0].0 {
            assert(r[0].0 == q);
            if q == k {
                lemma_seq_less_irreflexive(k);
            }
        } else {
            if has_key(rt, q) {
                let w = choose|w: int| 0 <= w < rt.len() && #[trigger] rt[w].0 == q;
                assert(r[w + 1] == rt[w]);
            }
            if has_key(r, q) {
                let w = choose|w: int| 0 <= w < r.len() && #[trigger] r[w].0 == q;
                assert(w > 0);
                assert(rt[w - 1] == r[w]);
            }
            if has_key(t, q) {
                let w = choose|w: int| 0 <= w < t.len() && #[trigger] t[w].0 == q;
                assert(s[w + 1] == t[w]);
            }
            if has_key(s, q) {
                let w = choose|w: int| 0 <= w < s.len() && #[trigger] s[w].0 == q;
                assert(w > 0);
                assert(t[w - 1] == s[w]);
            }
        }
    } else if s[0].0 == k {
        assert(r[0].0 == k);
        if q != k {
            if has_key(r, q) {
                let w = choose|w: int| 0 <= w < r.len() && #[trigger] r[w].0 == q;
                assert(w > 0);
                assert(s[w] == r[w]);
            }
            if has_key(s, q) {
                let w = choose|w: int| 0 <= w < s.len() && #[trigger] s[w].0 == q;
                assert(w > 0);
                assert(r[w] == s[w]);
            }
        }
    } else {
        assert(r[0].0 == k);
        if q != k {
            if has_key(r, q) {
                let w = choose|w: int| 0 <= w < r.len() && #[trigger] r[w].0 == q;
                assert(w > 0);
                assert(s[w - 1] == r[w]);
            }
            if has_key(s, q) {
                let w = choose|w: int| 0 <= w < s.len() && #[trigger] s[w].0 == q;
                assert(r[w + 1] == s[w]);
            }
        }
    }
}

/// Environment variables kept sorted by name.
#[derive(Debug)]
pub struct EnvVars {
    entries: Vec<(String, String)>,
}

impl View for EnvVars {
    type V = EnvEntries;

    closed spec fn view(&self) -> EnvEntries {
        pairs_view(self.entries@)
    }
}

impl EnvVars {
    #[verifier::type_invariant]
    closed spec fn sorted(self) -> bool {
        keys_sorted(pairs_view(self.entries@))
    }

    /// An empty map.
    pub fn new() -> (r: Self)
        ensures
            r@ == Seq::<(Seq<char>, Seq<char>)>::empty(),
            keys_sorted(r@),
    {
        let r = EnvVars { entries: Vec::new() };
        assert(r@ =~= Seq::<(Seq<char>, Seq<char>)>::empty());
        r
    }

    /// The number of variables; the entries of every map are in strictly
    /// increasing key order, so each key occurs once.
    pub fn len(&self) -> (n: usize)
        ensures
            n == self@.len(),
            keys_sorted(self@),
    {
        proof {
            use_type_invariant(self);
        }
        self.entries.len()
    }

    /// The variable at position `i` in key order.
    pub fn entry(&self, i: usize) -> (r: (&String, &String))
        requires
            i < self@.len(),
        ensures
            r.0@ == self@[i as int].0,
            r.1@ == self@[i as int].1,
            keys_sorted(self@),
    {
        proof {
            use_type_invariant(self);
        }
        let e = &self.entries[i];
        (&e.0, &e.1)
    }

    /// The position at which `k` stands or would be inserted.
    fn position(&self, k: &str) -> (j: usize)
        ensures
            j <= self@.len(),
            forall|i: int| 0 <= i < j ==> seq_less(#[trigger] self@[i].0, k@),
            j == self@.len() || !seq_less(self@[j as int].0, k@),
    {
        let n = self.entries.len();
        let mut j: usize = 0;
        while j < n
            invariant
                n == self@.len(),
                j <= n,
                forall|i: int| 0 <= i < j ==> seq_less(#[trigger] self@[i].0, k@),
            decreases n - j,
        {
            if !str_less(self.entries[j].0.as_str(), k) {
                return j;
            }
            j = j + 1;
        }
        j
    }

    /// The value of `k`, if set.
    pub fn get(&self, k: &str) -> (r: Option<&String>)
        ensures
            match r {
                Some(v) => env_lookup(self@, k@) == Some(v@),
                None => env_lookup(self@, k@) is None,
            },
    {
        proof {
            use_type_invariant(self);
            lemma_lookup_index(self@, k@);
        }
        let j = self.position(k);
        if j < self.entries.len() && str_eq(self.entries[j].0.as_str(), k) {
            Some(&self.entries[j].1)
        } else {
            proof {
                if has_key(self@, k@) {
                    let w = choose|w: int| 0 <= w < self@.len() && #[trigger] self@[w].0 == k@;
                    if w < j {
                        lemma_seq_less_irreflexive(k@);
                    } else if w > j {
                        assert(seq_less(self@[j as int].0, self@[w].0));
                        lemma_seq_less_total(self@[j as int].0, k@);
                    }
                }
            }
            None
        }
    }

    /// `insert(k, v)`: `k` now maps to `v`; its old value, if any, is replaced.
    pub fn insert(&mut self, k: String, v: String)
        ensures
            final(self)@ == sorted_insert(old(self)@, k@, v@),
            keys_sorted(final(self)@),
    {
        proof {
            use_type_invariant(&*self);
        }
        let j = self.position(k.as_str());
        proof {
            lemma_sorted_insert_at(self@, k@, v@, j as int);
            lemma_sorted_insert_sorted(self@, k@, v@);
        }
        let ghost target = sorted_insert(self@, k@, v@);
        let mut entries = Vec::new();
        std::mem::swap(&mut entries, &mut self.entries);
        if j < entries.len() && str_eq(entries[j].0.as_str(), k.as_str()) {
            entries.set(j, (k, v));
        } else {
            entries.insert(j, (k, v));
        }
        assert(pairs_view(entries@) =~= target);
        self.entries = entries;
        proof {
            use_type_invariant(&*self);
        }
    }

    /// `entry(k).or_insert(v)`: sets `k` to `v` only when `k` is not set yet.
    pub fn insert_if_absent(&mut self, k: String, v: String)
        ensures
            final(self)@ == insert_if_absent(old(self)@, k@, v@),
            keys_sorted(final(self)@),
    {
        proof {
            use_type_invariant(&*self);
            lemma_lookup_index(self@, k@);
        }
        if self.get(k.as_str()).is_none() {
            self.insert(k, v);
        }
        proof {
            use_type_invariant(&*self);
        }
    }

    /// A copy of this map.
    pub fn duplicate(&self) -> (r: Self)
        ensures
            r@ == self@,
            keys_sorted(r@),
    {
        proof {
            use_type_invariant(self);
        }
        let mut entries: Vec<(String, String)> = Vec::new();
        let n = self.entries.len();
        let mut i: usize = 0;
        while i < n
            invariant
                n == self@.len(),
                i <= n,
                pairs_view(entries@) =~= self@.take(i as int),
            decreases n - i,
        {
            let e = &self.entries[i];
            let ghost before = entries@;
            let pair = (to_string(e.0.as_str()), to_string(e.1.as_str()));
            entries.push(pair);
            proof {
                assert(self@[i as int] == pair_view(self.entries@[i as int]));
                assert(entries@ == before.push(pair));
                assert(pairs_view(entries@) =~= pairs_view(before).push(pair_view(pair)));
                assert(self@.take(i + 1) =~= self@.take(i as int).push(self@[i as int]));
            }
            i = i + 1;
        }
        assert(self@.take(n as int) =~= self@);
        EnvVars { entries }
    }
}

/// After `insert(k, v)`, looking up `k` gives `v` and every other key is unchanged.
pub proof fn law_insert_then_lookup(e: EnvEntries, k: Seq<char>, v: Seq<char>, q: Seq<char>)
    requires
        keys_sorted(e),
    ensures
        env_lookup(sorted_insert(e, k, v), q) == (if q == k {
            Some(v)
        } else {
            env_lookup(e, q)
        }),
        keys_sorted(sorted_insert(e, k, v)),
{
    lemma_sorted_insert_lookup(e, k, v, q);
    lemma_sorted_insert_sorted(e, k, v);
}

/// `entry(k).or_insert(v)` never changes a key that is already set, and sets an unset one to `v`.
pub proof fn law_insert_if_absent_lookup(e: EnvEntries, k: Seq<char>, v: Seq<char>)
    requires
        keys_sorted(e),
    ensures
        env_lookup(insert_if_absent(e, k, v), k) == (match env_lookup(e, k) {
            Some(old_v) => Some(old_v),
            None => Some(v),
        }),
{
    lemma_lookup_index(e, k);
    if !has_key(e, k) {
        lemma_sorted_insert_lookup(e, k, v, k);
    }
}

/// `entry(k).or_insert(v)` keeps the keys in order and leaves every other key's value alone.
pub proof fn lemma_insert_if_absent_other(e: EnvEntries, k: Seq<char>, v: Seq<char>, q: Seq<char>)
    requires
        keys_sorted(e),
    ensures
        keys_sorted(insert_if_absent(e, k, v)),
        q != k ==> env_lookup(insert_if_absent(e, k, v), q) == env_lookup(e, q),
{
    if !has_key(e, k) {
        lemma_sorted_insert_sorted(e, k, v);
        lemma_sorted_insert_lookup(e, k, v, q);
    }
}

} // verus!
