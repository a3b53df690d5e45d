//! Canonical query parameters: a mapping from key to value whose keys are
//! unique and kept in ascending lexicographic order, so that the canonical
//! query string renders the same whatever order the caller inserted in.

use vstd::prelude::*;

verus! {

/// Strict lexicographic order on character sequences, by code point; the
/// empty sequence comes first. This is the order the canonical query
/// string sorts its keys by.
pub open spec fn lex_lt(a: Seq<char>, b: Seq<char>) -> bool
    decreases a.len(),
{
    if b.len() == 0 {
        false
    } else if a.len() == 0 {
        true
    } else if (a[0] as int) < (b[0] as int) {
        true
    } else if a[0] == b[0] {
        lex_lt(a.drop_first(), b.drop_first())
    } else {
        false
    }
}

/// Any two keys are ordered one way or the other, or are equal.
pub proof fn lemma_lex_connected(a: Seq<char>, b: Seq<char>)
    ensures
        lex_lt(a, b) || lex_lt(b, a) || a == b,
    decreases a.len(),
{
    if a.len() == 0 && b.len() == 0 {
        assert(a =~= b);
    } else if a.len() > 0 && b.len() > 0 && a[0] == b[0] {
        lemma_lex_connected(a.drop_first(), b.drop_first());
        if a.drop_first() == b.drop_first() {
            assert(a.drop_first().len() == b.drop_first().len());
            assert(a.len() == b.len());
            assert(a =~= b) by {
                assert forall|i: int| 0 <= i < a.len() implies a[i] == b[i] by {
                    if i > 0 {
                        assert(a[i] == a.drop_first()[i - 1]);
                        assert(b[i] == b.drop_first()[i - 1]);
                    }
                }
            }
        }
    }
}

/// Lexicographic order is transitive.
pub proof fn lemma_lex_trans(a: Seq<char>, b: Seq<char>, c: Seq<char>)
    requires
        lex_lt(a, b),
        lex_lt(b, c),
    ensures
        lex_lt(a, c),
    decreases a.len(),
{
    if a.len() > 0 && b.len() > 0 && c.len() > 0 && a[0] == b[0] && b[0] == c[0] {
        lemma_lex_trans(a.drop_first(), b.drop_first(), c.drop_first());
    }
}

/// Order is irreflexive: no key precedes itself.
pub proof fn lemma_lex_irrefl(a: Seq<char>)
    ensures
        !lex_lt(a, a),
    decreases a.len(),
{
    if a.len() > 0 {
        lemma_lex_irrefl(a.drop_first());
    }
}

proof fn lemma_lex_skip(a: Seq<char>, b: Seq<char>, i: int)
    requires
        0 <= i <= a.len(),
        i <= b.len(),
        forall|j: int| 0 <= j < i ==> a[j] == b[j],
    ensures
        lex_lt(a, b) == lex_lt(a.skip(i), b.skip(i)),
    decreases i,
{
    if i == 0 {
        assert(a.skip(0) =~= a);
        assert(b.skip(0) =~= b);
    } else {
        assert(a.len() > 0 && b.len() > 0 && a[0] == b[0]);
        assert(a.drop_first().skip(i - 1) =~= a.skip(i));
        assert(b.drop_first().skip(i - 1) =~= b.skip(i));
        lemma_lex_skip(a.drop_first(), b.drop_first(), i - 1);
    }
}

/// Decides `lex_lt` on two string slices, comparing code points.
pub fn str_lt(a: &str, b: &str) -> (r: bool)
    ensures
        r == lex_lt(a@, b@),
{
    let alen = a.unicode_len();
    let blen = b.unicode_len();
    let mut i: usize = 0;
    while i < alen && i < blen
        invariant
            i <= alen,
            i <= blen,
            alen == a@.len(),
            blen == b@.len(),
            forall|j: int| 0 <= j < i ==> a@[j] == b@[j],
        decreases alen - i,
    {
        let ca = a.get_char(i);
        let cb = b.get_char(i);
        proof {
            assert(ca as int <= 0x10FFFF);
            assert(cb as int <= 0x10FFFF);
        }
        if (ca as u32) < (cb as u32) {
            proof {
                lemma_lex_skip(a@, b@, i as int);
            }
            return true;
        }
        if ca != cb {
            proof {
                lemma_lex_skip(a@, b@, i as int);
            }
            return false;
        }
        i = i + 1;
    }
    proof {
        lemma_lex_skip(a@, b@, i as int);
    }
    i == alen && i < blen
}

/// A set of query parameters, held with unique keys in ascending
/// lexicographic order.
pub struct QueryParams {
    entries: Vec<(String, String)>,
}

impl View for QueryParams {
    type V = Seq<(Seq<char>, Seq<char>)>;

    closed spec fn view(&self) -> Seq<(Seq<char>, Seq<char>)> {
        self.entries@.map_values(|p: (String, String)| (p.0@, p.1@))
    }
}

impl QueryParams {
    /// Keys are strictly ascending, hence unique.
    pub open spec fn wf(&self) -> bool {
        forall|i: int, j: int|
            0 <= i < j < self@.len() ==> lex_lt(#[trigger] self@[i].0, #[trigger] self@[j].0)
    }

    /// An empty parameter set.
    pub fn new() -> (r: QueryParams)
        ensures
            r.wf(),
            r@ == Seq::<(Seq<char>, Seq<char>)>::empty(),
    {
        let r = QueryParams { entries: Vec::new() };
        proof {
            assert(r@ =~= Seq::<(Seq<char>, Seq<char>)>::empty());
        }
        r
    }

    pub fn len(&self) -> (r: usize)
        ensures
            r == self@.len(),
    {
        self.entries.len()
    }

    /// Puts `value` under `key`, replacing any value the key already had;
    /// the keys stay in ascending order wherever the insertion happened.
    pub fn insert(&mut self, key: &str, value: &str)
        requires
            old(self).wf(),
        ensures
            final(self).wf(),
            forall|p: (Seq<char>, Seq<char>)|
                final(self)@.contains(p) <==> (p == (key@, value@) || (old(self)@.contains(p)
                    && p.0 != key@)),
            (forall|j: int| 0 <= j < old(self)@.len() ==> lex_lt(#[trigger] old(self)@[j].0, key@))
                ==> final(self)@ == old(self)@ + seq![(key@, value@)],
    {
        let mut i: usize = 0;
        while i < self.entries.len() && str_lt(self.entries[i].0.as_str(), key)
            invariant
                i <= self@.len(),
                forall|j: int| 0 <= j < i ==> lex_lt(#[trigger] self@[j].0, key@),
            decreases self@.len() - i,
        {
            i = i + 1;
        }
        let pair = (String::from_str(key), String::from_str(value));
        if i < self.entries.len() && !str_lt(key, self.entries[i].0.as_str()) {
            proof {
                lemma_lex_connected(self@[i as int].0, key@);
                assert(self@[i as int].0 == key@);
            }
            self.entries.remove(i);
            self.entries.insert(i, pair);
            proof {
                let o = old(self)@;
                let n = self@;
                assert(n =~= o.remove(i as int).insert(i as int, (key@, value@)));
                assert forall|a: int, b: int| 0 <= a < b < n.len() implies lex_lt(
                    #[trigger] n[a].0,
                    #[trigger] n[b].0,
                ) by {
                    assert(n[a].0 == if a == i as int {
                        key@
                    } else {
                        o[a].0
                    });
                    assert(n[b].0 == if b == i as int {
                        key@
                    } else {
                        o[b].0
                    });
                }
                assert forall|p: (Seq<char>, Seq<char>)| n.contains(p) <==> (p == (key@, value@)
                    || (o.contains(p) && p.0 != key@)) by {
                    lemma_contains_after_replace(o, n, i as int, key@, value@);
                }
                if forall|j: int| 0 <= j < o.len() ==> lex_lt(#[trigger] o[j].0, key@) {
                    assert(lex_lt(o[i as int].0, key@));
                    lemma_lex_irrefl(key@);
                }
            }
        } else {
            self.entries.insert(i, pair);
            proof {
                let o = old(self)@;
                let n = self@;
                assert(n =~= o.insert(i as int, (key@, value@)));
                assert forall|a: int, b: int| 0 <= a < b < n.len() implies lex_lt(
                    #[trigger] n[a].0,
                    #[trigger] n[b].0,
                ) by {
                    let ii = i as int;
                    if a == ii && b > ii {
                        if ii < o.len() && ii < b - 1 {
                            lemma_lex_trans(key@, o[ii].0, o[b - 1].0);
                        }
                    }
                }
                assert forall|p: (Seq<char>, Seq<char>)| n.contains(p) <==> (p == (key@, value@)
                    || (o.contains(p) && p.0 != key@)) by {
                    lemma_contains_after_insert(o, n, i as int, key@, value@);
                }
                if forall|j: int| 0 <= j < o.len() ==> lex_lt(#[trigger] o[j].0, key@) {
                    if (i as int) < o.len() {
                        assert(lex_lt(o[i as int].0, key@));
                        lemma_lex_trans(key@, o[i as int].0, key@);
                        lemma_lex_irrefl(key@);
                    }
                    assert(n =~= o + seq![(key@, value@)]);
                }
            }
        }
    }
}

proof fn lemma_contains_after_replace(
    o: Seq<(Seq<char>, Seq<char>)>,
    n: Seq<(Seq<char>, Seq<char>)>,
    i: int,
    k: Seq<char>,
    v: Seq<char>,
)
    requires
        0 <= i < o.len(),
        o[i].0 == k,
        forall|a: int, b: int| 0 <= a < b < o.len() ==> lex_lt(#[trigger] o[a].0, #[trigger] o[b].0),
        n == o.remove(i).insert(i, ((k, v))),
    ensures
        forall|p: (Seq<char>, Seq<char>)|
            n.contains(p) <==> (p == ((k, v)) || (o.contains(p) && p.0 != k)),
{
    assert forall|p: (Seq<char>, Seq<char>)|
        n.contains(p) <==> (p == ((k, v)) || (o.contains(p) && p.0 != k)) by {
        if n.contains(p) {
            let w = choose|w: int| 0 <= w < n.len() && n[w] == p;
            if w == i {
                assert(p == ((k, v)));
            } else {
                assert(n[w] == o[w]);
                assert(o.contains(p));
                if w < i {
                    lemma_keys_distinct(o, w, i);
                } else {
                    lemma_keys_distinct(o, i, w);
                }
            }
        }
        if p == ((k, v)) {
            assert(n[i] == p);
            assert(n.contains(p));
        }
        if o.contains(p) && p.0 != k {
            let w = choose|w: int| 0 <= w < o.len() && o[w] == p;
            assert(w != i);
            assert(n[w] == o[w]);
            assert(n.contains(p));
        }
    }
}

proof fn lemma_contains_after_insert(
    o: Seq<(Seq<char>, Seq<char>)>,
    n: Seq<(Seq<char>, Seq<char>)>,
    i: int,
    k: Seq<char>,
    v: Seq<char>,
)
    requires
        0 <= i <= o.len(),
        forall|a: int, b: int| 0 <= a < b < o.len() ==> lex_lt(#[trigger] o[a].0, #[trigger] o[b].0),
        forall|j: int| 0 <= j < i ==> lex_lt(#[trigger] o[j].0, k),
        i < o.len() ==> lex_lt(k, o[i].0),
        n == o.insert(i, ((k, v))),
    ensures
        forall|p: (Seq<char>, Seq<char>)|
            n.contains(p) <==> (p == ((k, v)) || (o.contains(p) && p.0 != k)),
{
    assert forall|j: int| 0 <= j < o.len() implies o[j].0 != k by {
        if j < i {
            lemma_lex_irrefl(k);
            if o[j].0 == k {
                assert(lex_lt(k, k));
            }
        } else {
            lemma_lex_irrefl(k);
            if j > i as int && i < o.len() {
                lemma_lex_trans(k, o[i].0, o[j].0);
            }
            if o[j].0 == k {
                assert(lex_lt(k, k));
            }
        }
    }
    assert forall|p: (Seq<char>, Seq<char>)|
        n.contains(p) <==> (p == ((k, v)) || (o.contains(p) && p.0 != k)) by {
        if n.contains(p) {
            let w = choose|w: int| 0 <= w < n.len() && n[w] == p;
            if w == i {
            } else if w < i {
                assert(o[w] == p);
                assert(o.contains(p));
            } else {
                assert(o[w - 1] == p);
                assert(o.contains(p));
            }
        }
        if p == ((k, v)) {
            assert(n[i] == p);
            assert(n.contains(p));
        }
        if o.contains(p) && p.0 != k {
            let w = choose|w: int| 0 <= w < o.len() && o[w] == p;
            if w < i {
                assert(n[w] == p);
            } else {
                assert(n[w + 1] == p);
            }
            assert(n.contains(p));
        }
    }
}

proof fn lemma_keys_distinct(o: Seq<(Seq<char>, Seq<char>)>, a: int, b: int)
    requires
        forall|x: int, y: int| 0 <= x < y < o.len() ==> lex_lt(#[trigger] o[x].0, #[trigger] o[y].0),
        0 <= a < b < o.len(),
    ensures
        o[a].0 != o[b].0,
{
    lemma_lex_irrefl(o[a].0);
}

/// One rendered pair, `key=value`.
pub open spec fn spec_pair_render(p: (Seq<char>, Seq<char>)) -> Seq<char> {
    p.0 + "="@ + p.1
}

/// The canonical query string: the pairs rendered in order, joined by `&`.
pub open spec fn spec_format_query(s: Seq<(Seq<char>, Seq<char>)>) -> Seq<char>
    decreases s.len(),
{
    if s.len() == 0 {
        Seq::empty()
    } else if s.len() == 1 {
        spec_pair_render(s[0])
    } else {
        spec_format_query(s.drop_last()) + "&"@ + spec_pair_render(s.last())
    }
}

/// Renders the canonical `key=value&key=value` string, pairs in the
/// mapping's ascending key order.
pub fn format_query(parameters: &QueryParams) -> (r: String)
    ensures
        r@ == spec_format_query(parameters@),
{
    let mut s = String::new();
    let mut i: usize = 0;
    while i < parameters.entries.len()
        invariant
            i <= parameters@.len(),
            s@ == spec_format_query(parameters@.take(i as int)),
        decreases parameters@.len() - i,
    {
        if i > 0 {
            s.append("&");
        }
        s.append(parameters.entries[i].0.as_str());
        s.append("=");
        s.append(parameters.entries[i].1.as_str());
        proof {
            let full = parameters@;
            assert(full.take(i as int + 1).drop_last() =~= full.take(i as int));
            assert(full.take(i as int + 1).last() == full[i as int]);
            assert(s@ =~= spec_format_query(full.take(i as int + 1)));
        }
        i = i + 1;
    }
    proof {
        assert(parameters@.take(parameters@.len() as int) =~= parameters@);
    }
    s
}

} // verus!
