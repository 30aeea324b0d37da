//! The walk order: entries sorted by the bytes of their paths, one entry per
//! path, so that reads of the same tree list files identically.
use vstd::prelude::*;
use crate::repository::FileEntry;
use vstd::utf8::encode_utf8;

verus! {

/// Lexicographic order on byte sequences; a proper prefix comes first.
pub open spec fn lex_lt(a: Seq<u8>, b: Seq<u8>) -> bool
    decreases a.len(),
{
    if a.len() == 0 {
        b.len() > 0
    } else if b.len() == 0 {
        false
    } else if a[0] != b[0] {
        a[0] < b[0]
    } else {
        lex_lt(a.drop_first(), b.drop_first())
    }
}

/// `lex_lt` is irreflexive and asymmetric.
pub proof fn lemma_lex_asymmetric(a: Seq<u8>, b: Seq<u8>)
    ensures
        !(lex_lt(a, b) && lex_lt(b, a)),
        !lex_lt(a, a),
    decreases a.len(),
{
    if a.len() > 0 && b.len() > 0 && a[0] == b[0] {
        lemma_lex_asymmetric(a.drop_first(), b.drop_first());
    }
    if a.len() > 0 {
        lemma_lex_asymmetric(a.drop_first(), a.drop_first());
    }
}

/// Any two distinct sequences are ordered one way or the other.
pub proof fn lemma_lex_total(a: Seq<u8>, b: Seq<u8>)
    ensures
        a != b ==> lex_lt(a, b) || lex_lt(b, a),
    decreases a.len(),
{
    if a.len() > 0 && b.len() > 0 && a[0] == b[0] {
        lemma_lex_total(a.drop_first(), b.drop_first());
        if a.drop_first() == b.drop_first() {
            assert(a =~= seq![a[0]] + a.drop_first());
            assert(b =~= seq![b[0]] + b.drop_first());
        }
    }
    if a.len() == 0 && b.len() == 0 {
        assert(a =~= b);
    }
}

/// `lex_lt` is transitive.
pub proof fn lemma_lex_transitive(a: Seq<u8>, b: Seq<u8>, c: Seq<u8>)
    requires
        lex_lt(a, b),
        lex_lt(b, c),
    ensures
        lex_lt(a, c),
    decreases a.len(),
{
    if a.len() > 0 && b.len() > 0 && c.len() > 0 && a[0] == b[0] && b[0] == c[0] {
        lemma_lex_transitive(a.drop_first(), b.drop_first(), c.drop_first());
    }
}

/// The sort key of an entry: the UTF-8 bytes of its path.
pub open spec fn key(e: FileEntry) -> Seq<u8> {
    encode_utf8(e.path@)
}

pub open spec fn keys(s: Seq<FileEntry>) -> Seq<Seq<u8>> {
    Seq::new(s.len(), |i: int| key(s[i]))
}

/// Strictly increasing keys: sorted, one entry per path.
pub open spec fn strictly_sorted(s: Seq<Seq<u8>>) -> bool {
    forall|i: int, j: int| 0 <= i < j < s.len() ==> lex_lt(#[trigger] s[i], #[trigger] s[j])
}

fn bytes_lt(a: &[u8], b: &[u8]) -> (r: bool)
    ensures
        r == lex_lt(a@, b@),
{
    let mut i: usize = 0;
    assert(a@.subrange(0, a@.len() as int) =~= a@);
    assert(b@.subrange(0, b@.len() as int) =~= b@);
    assert(a@.subrange(0, 0) =~= b@.subrange(0, 0));
    while i < a.len() && i < b.len()
        invariant
            0 <= i <= a@.len(),
            i <= b@.len(),
            a@.subrange(0, i as int) == b@.subrange(0, i as int),
            lex_lt(a@, b@) == lex_lt(a@.subrange(i as int, a@.len() as int), b@.subrange(i as int, b@.len() as int)),
        decreases a@.len() - i,
    {
        let ghost sa = a@.subrange(i as int, a@.len() as int);
        let ghost sb = b@.subrange(i as int, b@.len() as int);
        if a[i] != b[i] {
            return a[i] < b[i];
        }
        proof {
            assert(sa.drop_first() =~= a@.subrange(i + 1, a@.len() as int));
            assert(sb.drop_first() =~= b@.subrange(i + 1, b@.len() as int));
            assert(a@.subrange(0, i + 1) =~= a@.subrange(0, i as int).push(a@[i as int]));
            assert(b@.subrange(0, i + 1) =~= b@.subrange(0, i as int).push(b@[i as int]));
        }
        i = i + 1;
    }
    i < b.len()
}

proof fn lemma_insert_sorted(s: Seq<Seq<u8>>, p: int, k: Seq<u8>)
    requires
        strictly_sorted(s),
        0 <= p <= s.len(),
        forall|q: int| 0 <= q < p ==> lex_lt(#[trigger] s[q], k),
        p < s.len() ==> lex_lt(k, s[p]),
    ensures
        strictly_sorted(s.insert(p, k)),
{
    let t = s.insert(p, k);
    assert forall|i: int, j: int| 0 <= i < j < t.len() implies lex_lt(#[trigger] t[i], #[trigger] t[j]) by {
        if j < p {
            assert(t[i] == s[i] && t[j] == s[j]);
        } else if j == p {
            assert(t[i] == s[i] && t[j] == k);
        } else if i < p {
            assert(t[i] == s[i] && t[j] == s[j - 1]);
            assert(lex_lt(s[i], k));
            assert(lex_lt(k, s[p]));
            if j - 1 > p {
                assert(lex_lt(s[p], s[j - 1]));
                lemma_lex_transitive(k, s[p], s[j - 1]);
            }
            lemma_lex_transitive(s[i], k, s[j - 1]);
        } else if i == p {
            assert(t[i] == k && t[j] == s[j - 1]);
            if j - 1 > p {
                assert(lex_lt(s[p], s[j - 1]));
                lemma_lex_transitive(k, s[p], s[j - 1]);
            }
        } else {
            assert(t[i] == s[i - 1] && t[j] == s[j - 1]);
        }
    }
}

/// Sorts entries by path bytes, keeping one entry for each path.
pub fn sort_entries(entries: Vec<FileEntry>) -> (r: Vec<FileEntry>)
    ensures
        strictly_sorted(keys(r@)),
        forall|x: Seq<u8>| keys(r@).contains(x) <==> keys(entries@).contains(x),
{
    let ghost all = entries@;
    let mut rest = entries;
    let mut out: Vec<FileEntry> = Vec::new();
    while rest.len() > 0
        invariant
            strictly_sorted(keys(out@)),
            forall|x: Seq<u8>| keys(all).contains(x) <==> (keys(out@).contains(x) || keys(rest@).contains(x)),
        decreases rest@.len(),
    {
        let ghost before_rest = rest@;
        let ghost before_out = out@;
        let e = rest.pop().unwrap();
        proof {
            assert(before_rest == rest@.push(e));
            assert(keys(before_rest) =~= keys(rest@).push(key(e)));
        }
        let ghost k = key(e);
        let mut p: usize = 0;
        while p < out.len() && bytes_lt(out[p].path.as_str().as_bytes(), e.path.as_str().as_bytes())
            invariant
                0 <= p <= out@.len(),
                out@ == before_out,
                k == key(e),
                forall|q: int| 0 <= q < p ==> lex_lt(#[trigger] keys(out@)[q], k),
            decreases out@.len() - p,
        {
            p = p + 1;
        }
        let duplicate = p < out.len() && !bytes_lt(e.path.as_str().as_bytes(), out[p].path.as_str().as_bytes());
        if duplicate {
            proof {
                lemma_lex_total(keys(out@)[p as int], k);
                assert(keys(out@)[p as int] == k);
                assert forall|x: Seq<u8>| keys(all).contains(x) <==> (keys(out@).contains(x) || keys(
                    rest@,
                ).contains(x)) by {
                    if keys(rest@).contains(x) {
                        let j = choose|j: int| 0 <= j < keys(rest@).len() && keys(rest@)[j] == x;
                        assert(keys(before_rest)[j] == x);
                    }
                    if x == k {
                        assert(keys(out@)[p as int] == x);
                    } else if keys(before_rest).contains(x) {
                        let j = choose|j: int| 0 <= j < keys(before_rest).len() && keys(before_rest)[j] == x;
                        assert(keys(rest@)[j] == x);
                    }
                }
            }
        } else {
            proof {
                lemma_insert_sorted(keys(out@), p as int, k);
            }
            out.insert(p, e);
            proof {
                assert(keys(out@) =~= keys(before_out).insert(p as int, k));
                assert forall|x: Seq<u8>| keys(all).contains(x) <==> (keys(out@).contains(x) || keys(
                    rest@,
                ).contains(x)) by {
                    if keys(out@).contains(x) {
                        let j = choose|j: int| 0 <= j < keys(out@).len() && keys(out@)[j] == x;
                        if j < p {
                            assert(keys(before_out)[j] == x);
                        } else if j > p {
                            assert(keys(before_out)[j - 1] == x);
                        } else {
                            assert(keys(before_rest)[keys(before_rest).len() - 1] == x);
                        }
                    }
                    if keys(rest@).contains(x) {
                        let j = choose|j: int| 0 <= j < keys(rest@).len() && keys(rest@)[j] == x;
                        assert(keys(before_rest)[j] == x);
                    }
                    if keys(before_out).contains(x) {
                        let j = choose|j: int| 0 <= j < keys(before_out).len() && keys(before_out)[j] == x;
                        if j < p {
                            assert(keys(out@)[j] == x);
                        } else {
                            assert(keys(out@)[j + 1] == x);
                        }
                    }
                    if x == k {
                        assert(keys(out@)[p as int] == x);
                    } else if keys(before_rest).contains(x) {
                        let j = choose|j: int| 0 <= j < keys(before_rest).len() && keys(before_rest)[j] == x;
                        assert(keys(rest@)[j] == x);
                    }
                }
            }
        }
    }
    proof {
        assert forall|x: Seq<u8>| keys(out@).contains(x) <==> keys(all).contains(x) by {
            if keys(rest@).contains(x) {
                let j = choose|j: int| 0 <= j < keys(rest@).len() && keys(rest@)[j] == x;
            }
        }
    }
    out
}

/// Two strictly sorted listings of the same set of paths are identical: the
/// walk order depends on the tree alone, not on the order the file system
/// returned its entries in.
pub proof fn lemma_walk_order_determined(a: Seq<Seq<u8>>, b: Seq<Seq<u8>>)
    requires
        strictly_sorted(a),
        strictly_sorted(b),
        forall|x: Seq<u8>| a.contains(x) <==> b.contains(x),
    ensures
        a == b,
    decreases a.len(),
{
    if a.len() == 0 {
        if b.len() > 0 {
            assert(b.contains(b[0]));
        }
        assert(a =~= b);
    } else if b.len() == 0 {
        assert(a.contains(a[0]));
    } else {
        assert(b.contains(a[0]));
        assert(a.contains(b[0]));
        let i = choose|i: int| 0 <= i < b.len() && b[i] == a[0];
        let j = choose|j: int| 0 <= j < a.len() && a[j] == b[0];
        if a[0] != b[0] {
            assert(i > 0 && j > 0);
            assert(lex_lt(b[0], b[i]));
            assert(lex_lt(a[0], a[j]));
            lemma_lex_asymmetric(a[0], b[0]);
        }
        let ta = a.drop_first();
        let tb = b.drop_first();
        assert forall|x: Seq<u8>| ta.contains(x) <==> tb.contains(x) by {
            if ta.contains(x) {
                let m = choose|m: int| 0 <= m < ta.len() && ta[m] == x;
                assert(a[m + 1] == x);
                assert(lex_lt(a[0], a[m + 1]));
                lemma_lex_asymmetric(x, x);
                assert(b.contains(x));
                let n = choose|n: int| 0 <= n < b.len() && b[n] == x;
                assert(n != 0);
                assert(tb[n - 1] == x);
            }
            if tb.contains(x) {
                let m = choose|m: int| 0 <= m < tb.len() && tb[m] == x;
                assert(b[m + 1] == x);
                assert(lex_lt(b[0], b[m + 1]));
                lemma_lex_asymmetric(x, x);
                assert(a.contains(x));
                let n = choose|n: int| 0 <= n < a.len() && a[n] == x;
                assert(n != 0);
                assert(ta[n - 1] == x);
            }
        }
        assert forall|p: int, q: int| 0 <= p < q < ta.len() implies lex_lt(#[trigger] ta[p], #[trigger] ta[q]) by {
            assert(lex_lt(a[p + 1], a[q + 1]));
        }
        assert forall|p: int, q: int| 0 <= p < q < tb.len() implies lex_lt(#[trigger] tb[p], #[trigger] tb[q]) by {
            assert(lex_lt(b[p + 1], b[q + 1]));
        }
        lemma_walk_order_determined(ta, tb);
        assert(a =~= seq![a[0]] + ta);
        assert(b =~= seq![b[0]] + tb);
    }
}

} // verus!
