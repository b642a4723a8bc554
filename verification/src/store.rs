//! The persistent store model: an association list with unique keys,
//! kept sorted ascending by a total key order.
//!
//! The host persists each logical map under its own key-value
//! namespace and iterates it in key order; what the contracts rely on
//! is the map semantics plus that order, which is what this store
//! provides.  A backwards walk over the entries is a range scan in
//! descending key order.  String components order lexicographically by
//! code point — the order their byte-wise storage encoding gives.

use vstd::prelude::*;

verus! {

/// Lexicographic order on character sequences, by code point: the
/// order byte-wise comparison of their UTF-8 encodings induces.
pub open spec fn seq_str_lt(a: Seq<char>, b: Seq<char>) -> bool
    decreases a.len(),
{
    if b.len() == 0 {
        false
    } else if a.len() == 0 {
        true
    } else if a[0] != b[0] {
        (a[0] as u32) < (b[0] as u32)
    } else {
        seq_str_lt(a.drop_first(), b.drop_first())
    }
}

/// `seq_str_lt` is a strict total order: asymmetric, irreflexive, and
/// total.
pub proof fn lemma_seq_str_lt_props(a: Seq<char>, b: Seq<char>)
    ensures
        seq_str_lt(a, b) ==> !seq_str_lt(b, a) && a != b,
        !seq_str_lt(a, b) && !seq_str_lt(b, a) ==> a == b,
    decreases a.len(),
{
    if b.len() == 0 || a.len() == 0 {
        if a.len() == 0 && b.len() == 0 {
            assert(a =~= b);
        }
    } else if a[0] != b[0] {
        if !((a[0] as u32) < (b[0] as u32)) && !((b[0] as u32) < (a[0] as u32)) {
            assert(a[0] as u32 == b[0] as u32);
            vstd::utf8::char_u32_cast(a[0], a[0] as u32);
            vstd::utf8::char_u32_cast(b[0], b[0] as u32);
            assert(a[0] == b[0]);
        }
    } else {
        lemma_seq_str_lt_props(a.drop_first(), b.drop_first());
        if !seq_str_lt(a, b) && !seq_str_lt(b, a) {
            assert(a.drop_first() == b.drop_first());
            assert(a =~= b) by {
                assert(a.len() == b.len());
                assert forall|i: int| 0 <= i < a.len() implies a[i] == b[i] by {
                    if i > 0 {
                        assert(a[i] == a.drop_first()[i - 1]);
                        assert(b[i] == b.drop_first()[i - 1]);
                    }
                }
            }
        }
        if seq_str_lt(a, b) {
            if a == b {
                assert(a.drop_first() == b.drop_first());
            }
        }
    }
}

/// `seq_str_lt` is transitive.
pub proof fn lemma_seq_str_lt_trans(a: Seq<char>, b: Seq<char>, c: Seq<char>)
    requires
        seq_str_lt(a, b),
        seq_str_lt(b, c),
    ensures
        seq_str_lt(a, c),
    decreases a.len(),
{
    if a.len() == 0 {
    } else if a[0] == b[0] && b[0] == c[0] {
        lemma_seq_str_lt_trans(a.drop_first(), b.drop_first(), c.drop_first());
    } else {
        if (a[0] as u32) < (c[0] as u32) {
            assert(a[0] != c[0]);
        } else {
            assert(a[0] as u32 >= c[0] as u32);
            assert(false);
        }
    }
}

/// Whether the first `i` characters of `a` and `b` agree, the order is
/// decided by the rest.
proof fn lemma_seq_str_lt_skip(a: Seq<char>, b: Seq<char>, i: int)
    requires
        0 <= i <= a.len(),
        i <= b.len(),
        forall|j: int| 0 <= j < i ==> a[j] == b[j],
    ensures
        seq_str_lt(a, b) == seq_str_lt(a.skip(i), b.skip(i)),
    decreases i,
{
    if i == 0 {
        assert(a.skip(0) =~= a);
        assert(b.skip(0) =~= b);
    } else {
        assert(a[0] == b[0]);
        assert(seq_str_lt(a, b) == seq_str_lt(a.drop_first(), b.drop_first()));
        assert forall|j: int| 0 <= j < i - 1 implies a.drop_first()[j] == b.drop_first()[j] by {
            assert(a.drop_first()[j] == a[j + 1] && b.drop_first()[j] == b[j + 1]);
        }
        lemma_seq_str_lt_skip(a.drop_first(), b.drop_first(), i - 1);
        assert(a.drop_first().skip(i - 1) =~= a.skip(i));
        assert(b.drop_first().skip(i - 1) =~= b.skip(i));
    }
}

/// Compares two strings in the store's key order.
fn str_lt(a: &str, b: &str) -> (r: bool)
    ensures
        r == seq_str_lt(a@, b@),
{
    let alen = a.unicode_len();
    let blen = b.unicode_len();
    let mut i: usize = 0;
    while i < alen && i < blen
        invariant
            alen == a@.len(),
            blen == b@.len(),
            i <= alen,
            i <= blen,
            forall|j: int| 0 <= j < i ==> a@[j] == b@[j],
        decreases alen - i,
    {
        let ca = a.get_char(i);
        let cb = b.get_char(i);
        if ca != cb {
            proof {
                lemma_seq_str_lt_skip(a@, b@, i as int);
                assert(a@.skip(i as int)[0] == ca && b@.skip(i as int)[0] == cb);
            }
            return (ca as u32) < (cb as u32);
        }
        i = i + 1;
    }
    proof {
        lemma_seq_str_lt_skip(a@, b@, i as int);
        if i == alen {
            assert(a@.skip(i as int).len() == 0);
        } else {
            assert(b@.skip(i as int).len() == 0);
        }
    }
    alen < blen
}

/// Exec keys whose equality and order tests agree with a strict total
/// order on their views: the order the store keeps its entries in.
pub trait KeyLike: View + Sized {
    /// The key order, on views.
    spec fn spec_lt(a: Self::V, b: Self::V) -> bool;

    /// The order is asymmetric and total.
    proof fn lemma_lt_props(a: Self::V, b: Self::V)
        ensures
            Self::spec_lt(a, b) ==> !Self::spec_lt(b, a) && a != b,
            !Self::spec_lt(a, b) && !Self::spec_lt(b, a) ==> a == b,
    ;

    /// The order is transitive.
    proof fn lemma_lt_trans(a: Self::V, b: Self::V, c: Self::V)
        requires
            Self::spec_lt(a, b),
            Self::spec_lt(b, c),
        ensures
            Self::spec_lt(a, c),
    ;

    fn key_eq(&self, other: &Self) -> (r: bool)
        ensures
            r == (self@ == other@),
    ;

    fn key_lt(&self, other: &Self) -> (r: bool)
        ensures
            r == Self::spec_lt(self@, other@),
    ;
}

impl KeyLike for u64 {
    open spec fn spec_lt(a: u64, b: u64) -> bool {
        a < b
    }

    proof fn lemma_lt_props(a: u64, b: u64) {
    }

    proof fn lemma_lt_trans(a: u64, b: u64, c: u64) {
    }

    fn key_eq(&self, other: &Self) -> (r: bool) {
        *self == *other
    }

    fn key_lt(&self, other: &Self) -> (r: bool) {
        *self < *other
    }
}

impl KeyLike for (String, String) {
    open spec fn spec_lt(a: (Seq<char>, Seq<char>), b: (Seq<char>, Seq<char>)) -> bool {
        seq_str_lt(a.0, b.0) || (a.0 == b.0 && seq_str_lt(a.1, b.1))
    }

    proof fn lemma_lt_props(a: (Seq<char>, Seq<char>), b: (Seq<char>, Seq<char>)) {
        lemma_seq_str_lt_props(a.0, b.0);
        lemma_seq_str_lt_props(a.1, b.1);
    }

    proof fn lemma_lt_trans(
        a: (Seq<char>, Seq<char>),
        b: (Seq<char>, Seq<char>),
        c: (Seq<char>, Seq<char>),
    ) {
        lemma_seq_str_lt_props(a.0, b.0);
        lemma_seq_str_lt_props(b.0, c.0);
        if seq_str_lt(a.0, b.0) && seq_str_lt(b.0, c.0) {
            lemma_seq_str_lt_trans(a.0, b.0, c.0);
        }
        if seq_str_lt(a.1, b.1) && seq_str_lt(b.1, c.1) {
            lemma_seq_str_lt_trans(a.1, b.1, c.1);
        }
    }

    fn key_eq(&self, other: &Self) -> (r: bool) {
        self.0 == other.0 && self.1 == other.1
    }

    fn key_lt(&self, other: &Self) -> (r: bool) {
        if str_lt(self.0.as_str(), other.0.as_str()) {
            true
        } else if self.0 == other.0 {
            str_lt(self.1.as_str(), other.1.as_str())
        } else {
            false
        }
    }
}

impl KeyLike for (String, String, String) {
    open spec fn spec_lt(
        a: (Seq<char>, Seq<char>, Seq<char>),
        b: (Seq<char>, Seq<char>, Seq<char>),
    ) -> bool {
        ||| seq_str_lt(a.0, b.0)
        ||| (a.0 == b.0 && seq_str_lt(a.1, b.1))
        ||| (a.0 == b.0 && a.1 == b.1 && seq_str_lt(a.2, b.2))
    }

    proof fn lemma_lt_props(
        a: (Seq<char>, Seq<char>, Seq<char>),
        b: (Seq<char>, Seq<char>, Seq<char>),
    ) {
        lemma_seq_str_lt_props(a.0, b.0);
        lemma_seq_str_lt_props(a.1, b.1);
        lemma_seq_str_lt_props(a.2, b.2);
    }

    proof fn lemma_lt_trans(
        a: (Seq<char>, Seq<char>, Seq<char>),
        b: (Seq<char>, Seq<char>, Seq<char>),
        c: (Seq<char>, Seq<char>, Seq<char>),
    ) {
        lemma_seq_str_lt_props(a.0, b.0);
        lemma_seq_str_lt_props(b.0, c.0);
        lemma_seq_str_lt_props(a.1, b.1);
        lemma_seq_str_lt_props(b.1, c.1);
        if seq_str_lt(a.0, b.0) && seq_str_lt(b.0, c.0) {
            lemma_seq_str_lt_trans(a.0, b.0, c.0);
        }
        if seq_str_lt(a.1, b.1) && seq_str_lt(b.1, c.1) {
            lemma_seq_str_lt_trans(a.1, b.1, c.1);
        }
        if seq_str_lt(a.2, b.2) && seq_str_lt(b.2, c.2) {
            lemma_seq_str_lt_trans(a.2, b.2, c.2);
        }
    }

    fn key_eq(&self, other: &Self) -> (r: bool) {
        self.0 == other.0 && self.1 == other.1 && self.2 == other.2
    }

    fn key_lt(&self, other: &Self) -> (r: bool) {
        if str_lt(self.0.as_str(), other.0.as_str()) {
            true
        } else if self.0 != other.0 {
            false
        } else if str_lt(self.1.as_str(), other.1.as_str()) {
            true
        } else if self.1 != other.1 {
            false
        } else {
            str_lt(self.2.as_str(), other.2.as_str())
        }
    }
}

impl KeyLike for (u64, String) {
    open spec fn spec_lt(a: (u64, Seq<char>), b: (u64, Seq<char>)) -> bool {
        a.0 < b.0 || (a.0 == b.0 && seq_str_lt(a.1, b.1))
    }

    proof fn lemma_lt_props(a: (u64, Seq<char>), b: (u64, Seq<char>)) {
        lemma_seq_str_lt_props(a.1, b.1);
    }

    proof fn lemma_lt_trans(a: (u64, Seq<char>), b: (u64, Seq<char>), c: (u64, Seq<char>)) {
        if seq_str_lt(a.1, b.1) && seq_str_lt(b.1, c.1) {
            lemma_seq_str_lt_trans(a.1, b.1, c.1);
        }
    }

    fn key_eq(&self, other: &Self) -> (r: bool) {
        self.0 == other.0 && self.1 == other.1
    }

    fn key_lt(&self, other: &Self) -> (r: bool) {
        if self.0 < other.0 {
            true
        } else if self.0 == other.0 {
            str_lt(self.1.as_str(), other.1.as_str())
        } else {
            false
        }
    }
}

/// Whether some entry of `s` has key view `k`.
pub open spec fn contains_key<K: View, V>(s: Seq<(K, V)>, k: K::V) -> bool {
    exists|i: int| 0 <= i < s.len() && s[i].0@ == k
}

/// The index of the entry with key view `k` (meaningful under
/// [`contains_key`] and unique under [`unique_keys`]).
pub open spec fn index_of<K: View, V>(s: Seq<(K, V)>, k: K::V) -> int {
    choose|i: int| 0 <= i < s.len() && s[i].0@ == k
}

/// The value stored under key view `k`, if any.
pub open spec fn lookup<K: View, V>(s: Seq<(K, V)>, k: K::V) -> Option<V> {
    if contains_key(s, k) {
        Some(s[index_of(s, k)].1)
    } else {
        None
    }
}

/// No two entries share a key view.
pub open spec fn unique_keys<K: View, V>(s: Seq<(K, V)>) -> bool {
    forall|i: int, j: int| 0 <= i < j < s.len() ==> s[i].0@ != s[j].0@
}

/// The entries are in strictly ascending key order.
pub open spec fn sorted_keys<K: KeyLike, V>(s: Seq<(K, V)>) -> bool {
    forall|i: int, j: int|
        0 <= i < j < s.len() ==> K::spec_lt(#[trigger] s[i].0@, #[trigger] s[j].0@)
}

/// Where a fresh key belongs in the ascending order: past every
/// smaller key.
pub open spec fn insert_pos<K: KeyLike, V>(s: Seq<(K, V)>, k: K::V) -> int
    decreases s.len(),
{
    if s.len() == 0 {
        0
    } else if K::spec_lt(s[0].0@, k) {
        1 + insert_pos(s.drop_first(), k)
    } else {
        0
    }
}

/// The position with smaller keys before it and larger ones from it on
/// is the insertion position.
proof fn lemma_insert_pos_unique<K: KeyLike, V>(s: Seq<(K, V)>, k: K::V, p: int)
    requires
        0 <= p <= s.len(),
        forall|j: int| 0 <= j < p ==> K::spec_lt(#[trigger] s[j].0@, k),
        forall|j: int| p <= j < s.len() ==> K::spec_lt(k, #[trigger] s[j].0@),
    ensures
        insert_pos(s, k) == p,
    decreases s.len(),
{
    if p == 0 {
        if s.len() > 0 {
            K::lemma_lt_props(s[0].0@, k);
        }
    } else {
        let t = s.drop_first();
        assert forall|j: int| 0 <= j < p - 1 implies K::spec_lt(#[trigger] t[j].0@, k) by {
            assert(t[j] == s[j + 1]);
        }
        assert forall|j: int| p - 1 <= j < t.len() implies K::spec_lt(k, #[trigger] t[j].0@) by {
            assert(t[j] == s[j + 1]);
        }
        lemma_insert_pos_unique(t, k, p - 1);
    }
}

/// Under unique keys, an entry whose key matches is the looked-up one.
pub proof fn lemma_index_unique<K: View, V>(s: Seq<(K, V)>, k: K::V, i: int)
    requires
        unique_keys(s),
        0 <= i < s.len(),
        s[i].0@ == k,
    ensures
        contains_key(s, k),
        index_of(s, k) == i,
        lookup(s, k) == Some(s[i].1),
{
    assert(contains_key(s, k));
    let j = index_of::<K, V>(s, k);
    assert(0 <= j < s.len() && s[j].0@ == k);
    if i < j {
        assert(s[i].0@ != s[j].0@);
    } else if j < i {
        assert(s[j].0@ != s[i].0@);
    }
}

/// Overwriting the entry at the key's own index keeps every other
/// binding, the keys unique, and the order.
pub proof fn lemma_lookup_update<K: KeyLike, V>(s: Seq<(K, V)>, i: int, e: (K, V))
    requires
        unique_keys(s),
        sorted_keys(s),
        0 <= i < s.len(),
        e.0@ == s[i].0@,
    ensures
        unique_keys(s.update(i, e)),
        sorted_keys(s.update(i, e)),
        lookup(s.update(i, e), e.0@) == Some(e.1),
        forall|k2: K::V| k2 != e.0@ ==> lookup(s.update(i, e), k2) == lookup(s, k2),
{
    let t = s.update(i, e);
    assert forall|a: int, b: int| 0 <= a < b < t.len() implies t[a].0@ != t[b].0@ by {
        assert(s[a].0@ != s[b].0@);
    }
    assert forall|a: int, b: int| 0 <= a < b < t.len() implies K::spec_lt(
        #[trigger] t[a].0@,
        #[trigger] t[b].0@,
    ) by {
        assert(K::spec_lt(s[a].0@, s[b].0@));
    }
    lemma_index_unique(t, e.0@, i);
    assert forall|k2: K::V| k2 != e.0@ implies lookup(t, k2) == lookup(s, k2) by {
        if contains_key(s, k2) {
            let j = index_of::<K, V>(s, k2);
            assert(j != i);
            assert(t[j].0@ == k2);
            lemma_index_unique(s, k2, j);
            lemma_index_unique(t, k2, j);
        } else {
            if contains_key(t, k2) {
                let j = index_of::<K, V>(t, k2);
                assert(j != i);
                assert(s[j].0@ == k2);
            }
        }
    }
}

/// Inserting a fresh key at its ordered position binds it, keeps every
/// other binding, and keeps the keys unique and ordered.
pub proof fn lemma_lookup_insert<K: KeyLike, V>(s: Seq<(K, V)>, p: int, e: (K, V))
    requires
        unique_keys(s),
        sorted_keys(s),
        !contains_key(s, e.0@),
        0 <= p <= s.len(),
        forall|j: int| 0 <= j < p ==> K::spec_lt(#[trigger] s[j].0@, e.0@),
        forall|j: int| p <= j < s.len() ==> K::spec_lt(e.0@, #[trigger] s[j].0@),
    ensures
        unique_keys(s.insert(p, e)),
        sorted_keys(s.insert(p, e)),
        lookup(s.insert(p, e), e.0@) == Some(e.1),
        forall|k2: K::V| k2 != e.0@ ==> lookup(s.insert(p, e), k2) == lookup(s, k2),
{
    let t = s.insert(p, e);
    assert forall|a: int, b: int| 0 <= a < b < t.len() implies K::spec_lt(
        #[trigger] t[a].0@,
        #[trigger] t[b].0@,
    ) by {
        let a0 = if a < p {
            a
        } else {
            a - 1
        };
        let b0 = if b < p {
            b
        } else {
            b - 1
        };
        if a == p && b == p {
        } else if a == p {
            assert(t[a] == e && t[b] == s[b0]);
            assert(K::spec_lt(e.0@, s[b0].0@));
        } else if b == p {
            assert(t[b] == e && t[a] == s[a0]);
            assert(K::spec_lt(s[a0].0@, e.0@));
        } else {
            assert(t[a] == s[a0] && t[b] == s[b0]);
            if a0 < b0 {
                assert(K::spec_lt(s[a0].0@, s[b0].0@));
            } else {
                // a < p <= b with a0 == b0 is impossible
                assert(a < p && b > p && a0 == a && b0 == b - 1 && a == b - 1);
                assert(false);
            }
        }
    }
    assert forall|a: int, b: int| 0 <= a < b < t.len() implies t[a].0@ != t[b].0@ by {
        K::lemma_lt_props(t[a].0@, t[b].0@);
    }
    lemma_index_unique(t, e.0@, p);
    assert forall|k2: K::V| k2 != e.0@ implies lookup(t, k2) == lookup(s, k2) by {
        if contains_key(s, k2) {
            let j = index_of::<K, V>(s, k2);
            lemma_index_unique(s, k2, j);
            let j1 = if j < p {
                j
            } else {
                j + 1
            };
            assert(t[j1] == s[j]);
            lemma_index_unique(t, k2, j1);
        } else {
            if contains_key(t, k2) {
                let j = index_of::<K, V>(t, k2);
                assert(j != p);
                let j0 = if j < p {
                    j
                } else {
                    j - 1
                };
                assert(s[j0].0@ == k2);
            }
        }
    }
}

/// Removing an entry unbinds its key and keeps every other binding,
/// the keys unique, and the order.
pub proof fn lemma_lookup_remove<K: KeyLike, V>(s: Seq<(K, V)>, i: int)
    requires
        unique_keys(s),
        sorted_keys(s),
        0 <= i < s.len(),
    ensures
        unique_keys(s.remove(i)),
        sorted_keys(s.remove(i)),
        !contains_key(s.remove(i), s[i].0@),
        forall|k2: K::V| k2 != s[i].0@ ==> lookup(s.remove(i), k2) == lookup(s, k2),
{
    let t = s.remove(i);
    assert forall|a: int, b: int| 0 <= a < b < t.len() implies t[a].0@ != t[b].0@ by {
        let a0 = if a < i {
            a
        } else {
            a + 1
        };
        let b0 = if b < i {
            b
        } else {
            b + 1
        };
        assert(t[a] == s[a0] && t[b] == s[b0]);
        assert(s[a0].0@ != s[b0].0@);
    }
    assert forall|a: int, b: int| 0 <= a < b < t.len() implies K::spec_lt(
        #[trigger] t[a].0@,
        #[trigger] t[b].0@,
    ) by {
        let a0 = if a < i {
            a
        } else {
            a + 1
        };
        let b0 = if b < i {
            b
        } else {
            b + 1
        };
        assert(t[a] == s[a0] && t[b] == s[b0]);
        assert(K::spec_lt(s[a0].0@, s[b0].0@));
    }
    if contains_key(t, s[i].0@) {
        let j = index_of::<K, V>(t, s[i].0@);
        let j0 = if j < i {
            j
        } else {
            j + 1
        };
        assert(s[j0].0@ == s[i].0@ && j0 != i);
        if j0 < i {
            assert(s[j0].0@ != s[i].0@);
        } else {
            assert(s[i].0@ != s[j0].0@);
        }
    }
    assert forall|k2: K::V| k2 != s[i].0@ implies lookup(t, k2) == lookup(s, k2) by {
        if contains_key(s, k2) {
            let j = index_of::<K, V>(s, k2);
            lemma_index_unique(s, k2, j);
            assert(j != i);
            let j1 = if j < i {
                j
            } else {
                j - 1
            };
            assert(t[j1] == s[j]);
            lemma_index_unique(t, k2, j1);
        } else {
            if contains_key(t, k2) {
                let j = index_of::<K, V>(t, k2);
                let j0 = if j < i {
                    j
                } else {
                    j + 1
                };
                assert(s[j0].0@ == k2);
            }
        }
    }
}

/// An association list with unique keys in ascending key order.
pub struct KeyedStore<K, V> {
    entries: Vec<(K, V)>,
}

impl<K, V> View for KeyedStore<K, V> {
    type V = Seq<(K, V)>;

    closed spec fn view(&self) -> Seq<(K, V)> {
        self.entries@
    }
}

impl<K: KeyLike, V> KeyedStore<K, V> {
    /// Well-formed: no key is bound twice, and the entries are in
    /// ascending key order.
    pub open spec fn wf(&self) -> bool {
        &&& unique_keys(self@)
        &&& sorted_keys(self@)
    }

    pub open spec fn spec_contains(&self, k: K::V) -> bool {
        contains_key(self@, k)
    }

    pub open spec fn spec_lookup(&self, k: K::V) -> Option<V> {
        lookup(self@, k)
    }

    pub fn new() -> (r: Self)
        ensures
            r@ == Seq::<(K, V)>::empty(),
            r.wf(),
    {
        KeyedStore { entries: Vec::new() }
    }

    pub fn len(&self) -> (r: usize)
        ensures
            r == self@.len(),
    {
        self.entries.len()
    }

    /// Borrow the entry at a position of the key order.
    pub fn entry_at(&self, i: usize) -> (r: &(K, V))
        requires
            i < self@.len(),
        ensures
            *r == self@[i as int],
    {
        &self.entries[i]
    }

    /// The position of the entry with this key, if any.
    fn find_index(&self, key: &K) -> (r: Option<usize>)
        ensures
            match r {
                Some(i) => i < self@.len() && self@[i as int].0@ == key@,
                None => !contains_key(self@, key@),
            },
    {
        let n = self.entries.len();
        let mut i: usize = 0;
        while i < n
            invariant
                n == self@.len(),
                i <= n,
                forall|j: int| 0 <= j < i ==> self@[j].0@ != key@,
            decreases n - i,
        {
            if self.entries[i].0.key_eq(key) {
                return Some(i);
            }
            i = i + 1;
        }
        None
    }

    pub fn contains(&self, key: &K) -> (r: bool)
        ensures
            r == contains_key(self@, key@),
    {
        match self.find_index(key) {
            Some(_) => true,
            None => false,
        }
    }

    /// Borrow the value bound to this key, if any.
    pub fn get(&self, key: &K) -> (r: Option<&V>)
        requires
            self.wf(),
        ensures
            r is Some <==> contains_key(self@, key@),
            match r {
                Some(v) => lookup(self@, key@) == Some(*v),
                None => true,
            },
    {
        match self.find_index(key) {
            Some(i) => {
                proof {
                    lemma_index_unique(self@, key@, i as int);
                }
                Some(&self.entries[i].1)
            },
            None => None,
        }
    }

    /// Bind `key` to `value`, overwriting in place or inserting at the
    /// key's ordered position: a last-writer-wins save that keeps
    /// every other binding and the key order.
    pub fn save(&mut self, key: K, value: V)
        requires
            old(self).wf(),
        ensures
            final(self).wf(),
            lookup(final(self)@, key@) == Some(value),
            contains_key(final(self)@, key@),
            forall|k2: K::V|
                k2 != key@ ==> lookup(final(self)@, k2) == lookup(old(self)@, k2),
            contains_key(old(self)@, key@) ==> final(self)@ == old(self)@.update(
                index_of(old(self)@, key@),
                (key, value),
            ),
            !contains_key(old(self)@, key@) ==> final(self)@ == old(self)@.insert(
                insert_pos(old(self)@, key@),
                (key, value),
            ),
            forall|i: int|
                0 <= i < final(self)@.len() ==> ((#[trigger] final(self)@[i]).0@ == key@
                    || contains_key(old(self)@, final(self)@[i].0@)),
    {
        let ghost s0 = self@;
        match self.find_index(&key) {
            Some(i) => {
                proof {
                    lemma_index_unique(s0, key@, i as int);
                    lemma_lookup_update(s0, i as int, (key, value));
                    let t = s0.update(i as int, (key, value));
                    assert forall|j: int|
                        0 <= j < t.len() implies ((#[trigger] t[j]).0@ == key@ || contains_key(
                        s0,
                        t[j].0@,
                    )) by {
                        if j != i {
                            assert(t[j] == s0[j]);
                        }
                    }
                }
                self.entries.set(i, (key, value));
            },
            None => {
                let n = self.entries.len();
                let mut p: usize = 0;
                while p < n && self.entries[p].0.key_lt(&key)
                    invariant
                        n == self@.len(),
                        self@ == s0,
                        p <= n,
                        forall|j: int| 0 <= j < p ==> K::spec_lt(#[trigger] self@[j].0@, key@),
                    decreases n - p,
                {
                    p = p + 1;
                }
                proof {
                    assert forall|j: int| p <= j < s0.len() implies K::spec_lt(
                        key@,
                        #[trigger] s0[j].0@,
                    ) by {
                        assert(s0[p as int].0@ != key@);
                        K::lemma_lt_props(s0[p as int].0@, key@);
                        assert(K::spec_lt(key@, s0[p as int].0@));
                        if j > p {
                            assert(K::spec_lt(s0[p as int].0@, s0[j].0@));
                            K::lemma_lt_trans(key@, s0[p as int].0@, s0[j].0@);
                        }
                    }
                    lemma_insert_pos_unique(s0, key@, p as int);
                    lemma_lookup_insert(s0, p as int, (key, value));
                    let t = s0.insert(p as int, (key, value));
                    assert forall|j: int|
                        0 <= j < t.len() implies ((#[trigger] t[j]).0@ == key@ || contains_key(
                        s0,
                        t[j].0@,
                    )) by {
                        if j < p {
                            assert(t[j] == s0[j]);
                        } else if j > p {
                            assert(t[j] == s0[j - 1]);
                        }
                    }
                }
                self.entries.insert(p, (key, value));
            },
        }
    }

    /// Unbind `key`.  Returns whether it was bound; every other binding
    /// and the key order survive.
    pub fn remove(&mut self, key: &K) -> (r: bool)
        requires
            old(self).wf(),
        ensures
            final(self).wf(),
            r == contains_key(old(self)@, key@),
            !contains_key(final(self)@, key@),
            forall|k2: K::V|
                k2 != key@ ==> lookup(final(self)@, k2) == lookup(old(self)@, k2),
            r ==> final(self)@ == old(self)@.remove(index_of(old(self)@, key@)),
            !r ==> final(self)@ == old(self)@,
    {
        let ghost s0 = self@;
        match self.find_index(key) {
            Some(i) => {
                proof {
                    lemma_index_unique(s0, key@, i as int);
                    lemma_lookup_remove(s0, i as int);
                }
                self.entries.remove(i);
                true
            },
            None => false,
        }
    }
}

} // verus!
