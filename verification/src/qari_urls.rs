//! An ordered map from qari id to audio URL.
//!
//! Entries are kept in strictly ascending key order (the byte order of UTF-8,
//! which is the order of code points), so the first entry is always the one
//! under the smallest key, and no key occurs twice.
use vstd::prelude::*;
use vstd::string::*;

use crate::text::str_eq;

verus! {

/// Code-point lexicographic order on strings (the order of `String`'s `Ord`).
pub open spec fn key_lt(a: Seq<char>, b: Seq<char>) -> bool
    decreases a.len(),
{
    if a.len() == 0 {
        b.len() > 0
    } else if b.len() == 0 {
        false
    } else if (a[0] as int) < (b[0] as int) {
        true
    } else if a[0] == b[0] {
        key_lt(a.drop_first(), b.drop_first())
    } else {
        false
    }
}

pub proof fn lemma_key_lt_irreflexive(a: Seq<char>)
    ensures
        !key_lt(a, a),
    decreases a.len(),
{
    if a.len() > 0 {
        lemma_key_lt_irreflexive(a.drop_first());
    }
}

pub proof fn lemma_key_lt_transitive(a: Seq<char>, b: Seq<char>, c: Seq<char>)
    requires
        key_lt(a, b),
        key_lt(b, c),
    ensures
        key_lt(a, c),
    decreases a.len(),
{
    if a.len() > 0 && b.len() > 0 && c.len() > 0 {
        if a[0] == b[0] && b[0] == c[0] {
            lemma_key_lt_transitive(a.drop_first(), b.drop_first(), c.drop_first());
        }
    }
}

pub proof fn lemma_key_lt_asymmetric(a: Seq<char>, b: Seq<char>)
    requires
        key_lt(a, b),
    ensures
        !key_lt(b, a),
    decreases a.len(),
{
    if a.len() > 0 && b.len() > 0 && a[0] == b[0] {
        lemma_key_lt_asymmetric(a.drop_first(), b.drop_first());
    }
}

pub proof fn lemma_key_lt_total(a: Seq<char>, b: Seq<char>)
    requires
        a != b,
    ensures
        key_lt(a, b) || key_lt(b, a),
    decreases a.len(),
{
    if a.len() > 0 && b.len() > 0 {
        if a[0] == b[0] {
            if a.drop_first() == b.drop_first() {
                assert(a =~= seq![a[0]] + a.drop_first());
                assert(b =~= seq![b[0]] + b.drop_first());
                assert(a == b);
            }
            lemma_key_lt_total(a.drop_first(), b.drop_first());
        } else {
            assert((a[0] as int) != (b[0] as int));
        }
    } else if a.len() == 0 && b.len() == 0 {
        assert(a =~= b);
    }
}

proof fn lemma_key_lt_suffix(a: Seq<char>, b: Seq<char>, i: int)
    requires
        0 <= i <= a.len(),
        i <= b.len(),
        a.subrange(0, i) == b.subrange(0, i),
    ensures
        key_lt(a, b) == key_lt(a.subrange(i, a.len() as int), b.subrange(i, b.len() as int)),
    decreases i,
{
    if i > 0 {
        assert(a.drop_first().subrange(0, i - 1) =~= a.subrange(0, i).drop_first());
        assert(b.drop_first().subrange(0, i - 1) =~= b.subrange(0, i).drop_first());
        assert(a[0] == a.subrange(0, i)[0]);
        assert(b[0] == b.subrange(0, i)[0]);
        lemma_key_lt_suffix(a.drop_first(), b.drop_first(), i - 1);
        assert(a.drop_first().subrange(i - 1, a.len() - 1) =~= a.subrange(i, a.len() as int));
        assert(b.drop_first().subrange(i - 1, b.len() - 1) =~= b.subrange(i, b.len() as int));
    } else {
        assert(a.subrange(0, a.len() as int) =~= a);
        assert(b.subrange(0, b.len() as int) =~= b);
    }
}

/// Three-way comparison of two strings in code-point order:
/// negative, zero or positive as `a` is below, equal to or above `b`.
pub fn compare_keys(a: &str, b: &str) -> (r: i8)
    ensures
        (r < 0) == key_lt(a@, b@),
        (r == 0) == (a@ == b@),
        (r > 0) == key_lt(b@, a@),
{
    let n = a.unicode_len();
    let m = b.unicode_len();
    let mut i: usize = 0;
    while i < n && i < m
        invariant
            n == a@.len(),
            m == b@.len(),
            i <= n,
            i <= m,
            a@.subrange(0, i as int) == b@.subrange(0, i as int),
        decreases n - i,
    {
        let x = a.get_char(i);
        let y = b.get_char(i);
        if x != y {
            proof {
                lemma_key_lt_suffix(a@, b@, i as int);
                lemma_key_lt_suffix(b@, a@, i as int);
                let sa = a@.subrange(i as int, n as int);
                let sb = b@.subrange(i as int, m as int);
                assert(sa[0] == x);
                assert(sb[0] == y);
                assert(a@[i as int] != b@[i as int]);
            }
            if (x as u32) < (y as u32) {
                return -1;
            } else {
                return 1;
            }
        }
        assert(a@.subrange(0, i + 1) =~= a@.subrange(0, i as int).push(x));
        assert(b@.subrange(0, i + 1) =~= b@.subrange(0, i as int).push(y));
        i = i + 1;
    }
    proof {
        lemma_key_lt_suffix(a@, b@, i as int);
        lemma_key_lt_suffix(b@, a@, i as int);
    }
    if n < m {
        assert(a@ =~= a@.subrange(0, i as int));
        assert(a@ != b@);
        -1
    } else if n > m {
        assert(b@ =~= b@.subrange(0, i as int));
        assert(a@ != b@);
        1
    } else {
        assert(a@ =~= a@.subrange(0, i as int));
        assert(b@ =~= b@.subrange(0, i as int));
        proof {
            lemma_key_lt_irreflexive(a@);
        }
        0
    }
}

/// Keys strictly ascending: sorted, and hence free of duplicates.
pub open spec fn keys_ascending(m: Seq<(Seq<char>, Seq<char>)>) -> bool {
    forall|i: int, j: int| 0 <= i < j < m.len() ==> key_lt(#[trigger] m[i].0, #[trigger] m[j].0)
}

/// The value stored under `k`, if any.
pub open spec fn lookup(m: Seq<(Seq<char>, Seq<char>)>, k: Seq<char>) -> Option<Seq<char>>
    decreases m.len(),
{
    if m.len() == 0 {
        None
    } else if m[0].0 == k {
        Some(m[0].1)
    } else {
        lookup(m.drop_first(), k)
    }
}

pub proof fn lemma_lookup_found(m: Seq<(Seq<char>, Seq<char>)>, k: Seq<char>)
    requires
        lookup(m, k) is Some,
    ensures
        exists|i: int| 0 <= i < m.len() && m[i].0 == k && m[i].1 == lookup(m, k)->0,
    decreases m.len(),
{
    if m[0].0 != k {
        lemma_lookup_found(m.drop_first(), k);
        let i = choose|i: int|
            0 <= i < m.drop_first().len() && m.drop_first()[i].0 == k && m.drop_first()[i].1
                == lookup(m.drop_first(), k)->0;
        assert(m[i + 1] == m.drop_first()[i]);
    } else {
        assert(m[0].0 == k);
    }
}

pub proof fn lemma_lookup_absent(m: Seq<(Seq<char>, Seq<char>)>, k: Seq<char>)
    requires
        forall|i: int| 0 <= i < m.len() ==> m[i].0 != k,
    ensures
        lookup(m, k) is None,
    decreases m.len(),
{
    if m.len() > 0 {
        assert(m[0].0 != k);
        assert forall|i: int| 0 <= i < m.drop_first().len() implies m.drop_first()[i].0 != k by {
            assert(m.drop_first()[i] == m[i + 1]);
        }
        lemma_lookup_absent(m.drop_first(), k);
    }
}

pub proof fn lemma_lookup_at(m: Seq<(Seq<char>, Seq<char>)>, i: int)
    requires
        keys_ascending(m),
        0 <= i < m.len(),
    ensures
        lookup(m, m[i].0) == Some(m[i].1),
    decreases i,
{
    if i > 0 {
        lemma_key_lt_irreflexive(m[i].0);
        assert(key_lt(m[0].0, m[i].0));
        assert(m[0].0 != m[i].0);
        let t = m.drop_first();
        assert forall|a: int, b: int| 0 <= a < b < t.len() implies key_lt(
            #[trigger] t[a].0,
            #[trigger] t[b].0,
        ) by {
            assert(t[a] == m[a + 1]);
            assert(t[b] == m[b + 1]);
        }
        assert(t[i - 1] == m[i]);
        lemma_lookup_at(t, i - 1);
    }
}

#[derive(Debug)]
pub struct QariUrls {
    entries: Vec<(String, String)>,
}

pub open spec fn entry_view(e: (String, String)) -> (Seq<char>, Seq<char>) {
    (e.0@, e.1@)
}

impl View for QariUrls {
    type V = Seq<(Seq<char>, Seq<char>)>;

    closed spec fn view(&self) -> Seq<(Seq<char>, Seq<char>)> {
        self.entries@.map_values(|e: (String, String)| entry_view(e))
    }
}

impl QariUrls {
    #[verifier::type_invariant]
    closed spec fn wf(self) -> bool {
        keys_ascending(self@)
    }

    /// An empty map.
    pub fn new() -> (r: Self)
        ensures
            r@ == Seq::<(Seq<char>, Seq<char>)>::empty(),
    {
        let r = QariUrls { entries: Vec::new() };
        assert(r@ =~= Seq::<(Seq<char>, Seq<char>)>::empty());
        r
    }

    pub fn len(&self) -> (n: usize)
        ensures
            n == self@.len(),
    {
        self.entries.len()
    }

    pub fn is_empty(&self) -> (b: bool)
        ensures
            b == (self@.len() == 0),
    {
        self.entries.len() == 0
    }

    /// The key and value of the `i`-th entry in ascending key order.
    pub fn entry(&self, i: usize) -> (r: (&str, &str))
        requires
            i < self@.len(),
        ensures
            r.0@ == self@[i as int].0,
            r.1@ == self@[i as int].1,
    {
        let e = &self.entries[i];
        (e.0.as_str(), e.1.as_str())
    }

    /// The value stored under `key` (`BTreeMap::get`).
    pub fn get(&self, key: &str) -> (r: Option<&String>)
        ensures
            match r {
                Some(v) => lookup(self@, key@) == Some(v@),
                None => lookup(self@, key@) is None,
            },
    {
        let n = self.entries.len();
        let mut i: usize = 0;
        assert(self@.subrange(0, self@.len() as int) =~= self@);
        while i < n
            invariant
                n == self@.len(),
                n == self.entries@.len(),
                i <= n,
                lookup(self@, key@) == lookup(self@.subrange(i as int, n as int), key@),
            decreases n - i,
        {
            let e = &self.entries[i];
            let ghost rest = self@.subrange(i as int, n as int);
            assert(rest[0] == entry_view(self.entries@[i as int]));
            if str_eq(e.0.as_str(), key) {
                return Some(&e.1);
            }
            assert(rest.drop_first() =~= self@.subrange(i + 1, n as int));
            i = i + 1;
        }
        None
    }

    /// The value under the smallest key, if the map is not empty
    /// (what `BTreeMap::values().next()` yields).
    pub fn first_value(&self) -> (r: Option<&String>)
        ensures
            keys_ascending(self@),
            self@.len() == 0 ==> r is None,
            self@.len() > 0 ==> r is Some && r->0@ == self@[0].1,
    {
        proof {
            use_type_invariant(self);
        }
        if self.entries.len() == 0 {
            None
        } else {
            Some(&self.entries[0].1)
        }
    }

    /// Stores `value` under `key`, replacing a value already there
    /// (`BTreeMap::insert`).
    pub fn insert(&mut self, key: String, value: String)
        ensures
            forall|k: Seq<char>|
                #![trigger lookup(final(self)@, k)]
                lookup(final(self)@, k) == if k == key@ {
                    Some(value@)
                } else {
                    lookup(old(self)@, k)
                },
            lookup(old(self)@, key@) is Some ==> final(self)@.len() == old(self)@.len(),
            lookup(old(self)@, key@) is None ==> final(self)@.len() == old(self)@.len() + 1,
            keys_ascending(final(self)@),
    {
        proof {
            use_type_invariant(&*self);
        }
        let n = self.entries.len();
        let mut i: usize = 0;
        while i < n
            invariant
                n == self.entries@.len(),
                n == self@.len(),
                i <= n,
                keys_ascending(self@),
                forall|j: int| 0 <= j < i ==> key_lt(#[trigger] self@[j].0, key@),
            ensures
                i <= n,
                forall|j: int| 0 <= j < i ==> key_lt(#[trigger] self@[j].0, key@),
                i < n ==> !key_lt(self@[i as int].0, key@),
            decreases n - i,
        {
            let c = compare_keys(self.entries[i].0.as_str(), key.as_str());
            assert(self@[i as int] == entry_view(self.entries@[i as int]));
            if c >= 0 {
                break;
            }
            i = i + 1;
        }
        let ghost old_view = self@;
        let found = i < n && str_eq(self.entries[i].0.as_str(), key.as_str());
        proof {
            if i < n {
                assert(self@[i as int] == entry_view(self.entries@[i as int]));
            }
        }
        let mut entries: Vec<(String, String)> = Vec::new();
        std::mem::swap(&mut entries, &mut self.entries);
        let ghost ev = entries@;
        assert(ev.map_values(|e: (String, String)| entry_view(e)) == old_view);
        if found {
            entries.set(i, (key, value));
        } else {
            entries.insert(i, (key, value));
        }
        let ghost nv = entries@.map_values(|e: (String, String)| entry_view(e));
        proof {
            let kv = (key@, value@);
            if found {
                assert(nv =~= old_view.update(i as int, kv));
                assert(old_view[i as int].0 == key@);
            } else {
                assert(nv =~= old_view.insert(i as int, kv));
                if i < n {
                    // the entry at `i` lies above `key`
                    lemma_key_lt_total(old_view[i as int].0, key@);
                    assert(!key_lt(old_view[i as int].0, key@) || old_view[i as int].0 == key@);
                }
            }
            assert forall|a: int, b: int| 0 <= a < b < nv.len() implies key_lt(
                #[trigger] nv[a].0,
                #[trigger] nv[b].0,
            ) by {
                if found {
                } else {
                    if b < i {
                    } else if a < i && b == i {
                    } else if a < i && b > i {
                        assert(key_lt(old_view[a].0, key@));
                        assert(key_lt(key@, old_view[i as int].0));
                        assert(old_view[a].0 == nv[a].0);
                        if b - 1 > i {
                            assert(key_lt(old_view[i as int].0, old_view[b - 1].0));
                            lemma_key_lt_transitive(key@, old_view[i as int].0, old_view[b - 1].0);
                        }
                        lemma_key_lt_transitive(old_view[a].0, key@, old_view[b - 1].0);
                    } else if a == i {
                        if b - 1 > i {
                            assert(key_lt(old_view[i as int].0, old_view[b - 1].0));
                            lemma_key_lt_transitive(key@, old_view[i as int].0, old_view[b - 1].0);
                        }
                    } else {
                    }
                }
            }
            assert forall|k: Seq<char>|
                #![trigger lookup(nv, k)]
                lookup(nv, k) == if k == key@ {
                    Some(value@)
                } else {
                    lookup(old_view, k)
                } by {
                if k == key@ {
                    let p = i as int;
                    assert(nv[p] == kv);
                    lemma_lookup_at(nv, p);
                } else {
                    if lookup(old_view, k) is Some {
                        lemma_lookup_found(old_view, k);
                        let j = choose|j: int|
                            0 <= j < old_view.len() && old_view[j].0 == k && old_view[j].1 == lookup(
                                old_view,
                                k,
                            )->0;
                        let p = if found || j < i {
                            j
                        } else {
                            j + 1
                        };
                        assert(nv[p] == old_view[j]);
                        lemma_lookup_at(nv, p);
                        lemma_lookup_at(old_view, j);
                    } else {
                        assert forall|p: int| 0 <= p < nv.len() implies nv[p].0 != k by {
                            if nv[p].0 == k {
                                if found && p == i {
                                } else {
                                    let j = if found || p < i {
                                        p
                                    } else {
                                        p - 1
                                    };
                                    assert(old_view[j] == nv[p]);
                                    lemma_lookup_at(old_view, j);
                                }
                            }
                        }
                        lemma_lookup_absent(nv, k);
                    }
                }
            }
            if found {
                lemma_lookup_at(old_view, i as int);
            } else {
                assert forall|p: int| 0 <= p < old_view.len() implies old_view[p].0 != key@ by {
                    if p < i {
                        lemma_key_lt_irreflexive(key@);
                    } else if p > i {
                        assert(key_lt(old_view[i as int].0, old_view[p].0));
                        lemma_key_lt_transitive(key@, old_view[i as int].0, old_view[p].0);
                        lemma_key_lt_irreflexive(key@);
                    } else {
                    }
                }
                lemma_lookup_absent(old_view, key@);
            }
        }
        self.entries = entries;
        proof {
            use_type_invariant(&*self);
        }
    }

    /// A copy of the map.
    pub fn duplicate(&self) -> (r: Self)
        ensures
            r@ == self@,
    {
        proof {
            use_type_invariant(self);
        }
        let n = self.entries.len();
        let mut out: Vec<(String, String)> = Vec::new();
        let mut i: usize = 0;
        while i < n
            invariant
                n == self.entries@.len(),
                i <= n,
                out@.len() == i,
                forall|j: int|
                    0 <= j < i ==> entry_view(#[trigger] out@[j]) == entry_view(self.entries@[j]),
            decreases n - i,
        {
            let e = &self.entries[i];
            out.push((e.0.clone(), e.1.clone()));
            i = i + 1;
        }
        assert(out@.map_values(|e: (String, String)| entry_view(e)) =~= self@);
        let r = QariUrls { entries: out };
        r
    }
}

impl Clone for QariUrls {
    fn clone(&self) -> (r: Self)
        ensures
            r@ == self@,
    {
        self.duplicate()
    }
}

} // verus!
