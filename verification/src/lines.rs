//! Text as lines and fields: splitting on a pattern, joining with a
//! separator, the order in which text sorts, and decimal numerals.
use vstd::prelude::*;
use vstd::relations::*;
use vstd::seq_lib::*;
use vstd::string::*;

use crate::text::{chars_of, slice_chars};

verus! {

// ---------------------------------------------------------------------------
// Splitting
// ---------------------------------------------------------------------------

/// The pieces of `s` between the occurrences of `pat`, found from the left
/// without overlap; text without `pat` is one piece.
pub open spec fn split_by(s: Seq<char>, pat: Seq<char>) -> Seq<Seq<char>>
    decreases s.len(),
{
    if pat.len() == 0 || s.len() < pat.len() {
        seq![s]
    } else if s.take(pat.len() as int) == pat {
        seq![Seq::<char>::empty()] + split_by(s.skip(pat.len() as int), pat)
    } else {
        let rest = split_by(s.drop_first(), pat);
        rest.update(0, seq![s[0]] + rest[0])
    }
}

/// There is always at least one piece.
pub proof fn lemma_split_nonempty(s: Seq<char>, pat: Seq<char>)
    ensures
        split_by(s, pat).len() >= 1,
    decreases s.len(),
{
    if pat.len() == 0 || s.len() < pat.len() {
    } else if s.take(pat.len() as int) == pat {
        lemma_split_nonempty(s.skip(pat.len() as int), pat);
    } else {
        lemma_split_nonempty(s.drop_first(), pat);
    }
}

/// The first piece is the text before the first occurrence of `pat`; when
/// there is another piece, `pat` follows the first one and the remaining
/// pieces are those of what comes after it.
pub proof fn lemma_split_first(s: Seq<char>, pat: Seq<char>)
    requires
        pat.len() > 0,
    ensures
        ({
            let parts = split_by(s, pat);
            let p0 = parts[0];
            &&& p0.len() <= s.len()
            &&& s.take(p0.len() as int) == p0
            &&& parts.len() == 1 ==> p0 == s
            &&& parts.len() > 1 ==> {
                &&& p0.len() + pat.len() <= s.len()
                &&& s.subrange(p0.len() as int, (p0.len() + pat.len()) as int) == pat
                &&& parts.drop_first() == split_by(s.skip((p0.len() + pat.len()) as int), pat)
            }
        }),
    decreases s.len(),
{
    lemma_split_nonempty(s, pat);
    if s.len() < pat.len() {
        assert(s.take(s.len() as int) =~= s);
    } else if s.take(pat.len() as int) == pat {
        lemma_split_nonempty(s.skip(pat.len() as int), pat);
        let parts = split_by(s, pat);
        assert(parts[0] =~= Seq::<char>::empty());
        assert(s.take(0) =~= Seq::<char>::empty());
        assert(s.subrange(0, pat.len() as int) =~= s.take(pat.len() as int));
        assert(s.skip((0 + pat.len()) as int) =~= s.skip(pat.len() as int));
        assert(parts.drop_first() =~= split_by(s.skip(pat.len() as int), pat));
    } else {
        let t = s.drop_first();
        lemma_split_first(t, pat);
        lemma_split_nonempty(t, pat);
        let rest = split_by(t, pat);
        let parts = split_by(s, pat);
        let q0 = rest[0];
        assert(parts[0] == seq![s[0]] + q0);
        assert(s.take((q0.len() + 1) as int) =~= seq![s[0]] + t.take(q0.len() as int));
        if parts.len() > 1 {
            assert(s.subrange((q0.len() + 1) as int, (q0.len() + 1 + pat.len()) as int) =~= t.subrange(
                q0.len() as int,
                (q0.len() + pat.len()) as int,
            ));
            assert(s.skip((q0.len() + 1 + pat.len()) as int) =~= t.skip((q0.len() + pat.len()) as int));
            assert(parts.drop_first() =~= rest.drop_first());
        } else {
            assert(s =~= seq![s[0]] + t);
        }
    }
}

/// `pat` occurs in `s` at `i`.
pub open spec fn occurs_at(s: Seq<char>, pat: Seq<char>, i: int) -> bool {
    0 <= i && i + pat.len() <= s.len() && s.subrange(i, i + pat.len()) == pat
}

/// Text that splits into one piece holds no occurrence of the pattern.
pub proof fn lemma_one_piece_no_occurrence(s: Seq<char>, pat: Seq<char>, i: int)
    requires
        pat.len() > 0,
        split_by(s, pat).len() == 1,
    ensures
        !occurs_at(s, pat, i),
    decreases s.len(),
{
    if s.len() < pat.len() {
    } else if s.take(pat.len() as int) == pat {
        lemma_split_nonempty(s.skip(pat.len() as int), pat);
    } else {
        if i == 0 {
            assert(s.subrange(0, pat.len() as int) =~= s.take(pat.len() as int));
        } else if occurs_at(s, pat, i) {
            let t = s.drop_first();
            let rest = split_by(t, pat);
            lemma_split_nonempty(t, pat);
            assert(split_by(s, pat) == rest.update(0, seq![s[0]] + rest[0]));
            assert(rest.len() == 1);
            assert(t.subrange(i - 1, i - 1 + pat.len()) =~= s.subrange(i, i + pat.len()));
            lemma_one_piece_no_occurrence(t, pat, i - 1);
        }
    }
}

/// When `pat` starts nowhere inside `a`, splitting `a + b` gives the pieces
/// of `b` with `a` put in front of the first one.
pub proof fn lemma_split_prefix_free(a: Seq<char>, b: Seq<char>, pat: Seq<char>)
    requires
        pat.len() > 0,
        forall|i: int| 0 <= i < a.len() ==> !occurs_at(a + b, pat, i),
    ensures
        split_by(a + b, pat) == split_by(b, pat).update(0, a + split_by(b, pat)[0]),
    decreases a.len(),
{
    lemma_split_nonempty(b, pat);
    let s = a + b;
    let sb = split_by(b, pat);
    if a.len() == 0 {
        assert(s =~= b);
        assert(a + sb[0] =~= sb[0]);
        assert(sb.update(0, a + sb[0]) =~= sb);
    } else if s.len() < pat.len() {
        assert(sb == seq![b]);
        assert(sb.update(0, a + sb[0]) =~= seq![s]);
    } else {
        assert(!occurs_at(s, pat, 0));
        assert(s.subrange(0, pat.len() as int) =~= s.take(pat.len() as int));
        let a1 = a.drop_first();
        assert(s.drop_first() =~= a1 + b);
        assert forall|i: int| 0 <= i < a1.len() implies !occurs_at(a1 + b, pat, i) by {
            assert(!occurs_at(s, pat, i + 1));
            if i + pat.len() <= (a1 + b).len() {
                assert((a1 + b).subrange(i, i + pat.len()) =~= s.subrange(i + 1, i + 1 + pat.len()));
            }
        }
        lemma_split_prefix_free(a1, b, pat);
        assert(seq![s[0]] + (a1 + sb[0]) =~= a + sb[0]);
        assert(sb.update(0, a1 + sb[0]).update(0, seq![s[0]] + (a1 + sb[0])) =~= sb.update(
            0,
            a + sb[0],
        ));
    }
}

/// Whether `p` occurs in `v` at `i`.
fn matches_at(v: &Vec<char>, p: &Vec<char>, i: usize) -> (r: bool)
    requires
        i + p@.len() <= v@.len(),
    ensures
        r == (v@.subrange(i as int, i + p@.len()) == p@),
{
    let m = p.len();
    let mut k: usize = 0;
    while k < m
        invariant
            m == p@.len(),
            i + m <= v.len(),
            k <= m,
            forall|j: int| 0 <= j < k ==> v@[i + j] == p@[j],
        decreases m - k,
    {
        if v[i + k] != p[k] {
            assert(v@.subrange(i as int, i + m)[k as int] != p@[k as int]);
            return false;
        }
        k = k + 1;
    }
    assert(v@.subrange(i as int, i + m) =~= p@);
    true
}

/// The views of a list of strings.
pub open spec fn views(v: Seq<String>) -> Seq<Seq<char>> {
    v.map_values(|s: String| s@)
}

/// `s` cut at each occurrence of `pat`.
pub fn split_str(s: &str, pat: &str) -> (r: Vec<String>)
    requires
        pat@.len() > 0,
    ensures
        views(r@) == split_by(s@, pat@),
{
    let v = chars_of(s);
    let p = chars_of(pat);
    let n = v.len();
    let m = p.len();
    let mut parts: Vec<String> = Vec::new();
    let mut start: usize = 0;
    let mut i: usize = 0;
    proof {
        lemma_split_nonempty(s@, pat@);
        let sp = split_by(s@, pat@);
        assert(s@.skip(0) =~= s@);
        assert(s@.subrange(0, 0) + sp[0] =~= sp[0]);
        assert(views(parts@) + sp.update(0, s@.subrange(0, 0) + sp[0]) =~= sp);
    }
    while i < n
        invariant
            v@ == s@,
            p@ == pat@,
            n == s@.len(),
            m == pat@.len(),
            m > 0,
            start <= i <= n,
            split_by(s@, pat@) == views(parts@) + split_by(s@.skip(i as int), pat@).update(
                0,
                s@.subrange(start as int, i as int) + split_by(s@.skip(i as int), pat@)[0],
            ),
        decreases n - i,
    {
        let ghost t = s@.skip(i as int);
        let ghost cur = s@.subrange(start as int, i as int);
        proof {
            lemma_split_nonempty(t, pat@);
        }
        if m <= n - i && matches_at(&v, &p, i) {
            assert(t.take(m as int) =~= s@.subrange(i as int, i + m));
            let piece = slice_chars(s, start, i);
            parts.push(piece);
            i = i + m;
            start = i;
            proof {
                let t2 = s@.skip(i as int);
                assert(t.skip(m as int) =~= t2);
                lemma_split_nonempty(t2, pat@);
                let sp2 = split_by(t2, pat@);
                assert(s@.subrange(start as int, i as int) =~= Seq::<char>::empty());
                assert(Seq::<char>::empty() + sp2[0] =~= sp2[0]);
                assert(views(parts@) =~= views(parts@.drop_last()).push(cur));
                assert(split_by(t, pat@) =~= seq![Seq::<char>::empty()] + sp2);
                assert(split_by(t, pat@).update(0, cur + split_by(t, pat@)[0]) =~= seq![cur]
                    + sp2);
                assert(views(parts@) + sp2.update(0, Seq::<char>::empty() + sp2[0]) =~= views(
                    parts@.drop_last(),
                ) + split_by(t, pat@).update(0, cur + split_by(t, pat@)[0]));
            }
        } else {
            proof {
                if i + m <= n {
                    assert(t.take(m as int) =~= s@.subrange(i as int, i + m));
                }
            }
            i = i + 1;
            proof {
                let t2 = s@.skip(i as int);
                assert(t.drop_first() =~= t2);
                lemma_split_nonempty(t2, pat@);
                let cur2 = s@.subrange(start as int, i as int);
                assert(cur2 =~= cur + seq![t[0]]);
                let sp2 = split_by(t2, pat@);
                if t.len() < m {
                    assert(split_by(t, pat@) == seq![t]);
                    assert(sp2 == seq![t2]);
                    assert(cur + t =~= cur2 + t2);
                    assert(split_by(t, pat@).update(0, cur + split_by(t, pat@)[0]) =~= sp2.update(
                        0,
                        cur2 + sp2[0],
                    ));
                } else {
                    assert(split_by(t, pat@) == sp2.update(0, seq![t[0]] + sp2[0]));
                    assert(cur + (seq![t[0]] + sp2[0]) =~= cur2 + sp2[0]);
                    assert(split_by(t, pat@).update(0, cur + split_by(t, pat@)[0]) =~= sp2.update(
                        0,
                        cur2 + sp2[0],
                    ));
                }
            }
        }
    }
    let last = slice_chars(s, start, n);
    proof {
        let t = s@.skip(n as int);
        assert(t =~= Seq::<char>::empty());
        assert(split_by(t, pat@) == seq![t]);
    }
    parts.push(last);
    proof {
        let t = s@.skip(n as int);
        let cur = s@.subrange(start as int, n as int);
        assert(cur + t =~= cur);
        assert(views(parts@) =~= views(parts@.drop_last()).push(cur));
        assert(split_by(t, pat@).update(0, cur + split_by(t, pat@)[0]) =~= seq![cur]);
    }
    parts
}

/// The text of `s` before the first `pat` and the text after it, or `None`
/// when `pat` does not occur.
pub fn split_once(s: &str, pat: &str) -> (r: Option<(String, String)>)
    requires
        pat@.len() > 0,
    ensures
        match r {
            None => split_by(s@, pat@).len() == 1,
            Some((a, b)) => {
                &&& split_by(s@, pat@).len() > 1
                &&& a@ == split_by(s@, pat@)[0]
                &&& b@ == s@.skip((a@.len() + pat@.len()) as int)
            },
        },
{
    proof {
        lemma_split_first(s@, pat@);
        lemma_split_nonempty(s@, pat@);
    }
    let parts = split_str(s, pat);
    assert(views(parts@)[0] == parts@[0]@);
    if parts.len() == 1 {
        None
    } else {
        let a = parts[0].clone();
        let k = a.as_str().unicode_len();
        let m = pat.unicode_len();
        let n = s.unicode_len();
        let b = slice_chars(s, k + m, n);
        assert(b@ =~= s@.skip(k + m));
        Some((a, b))
    }
}

// ---------------------------------------------------------------------------
// Joining
// ---------------------------------------------------------------------------

/// The pieces written one after the other with `sep` between each two.
pub open spec fn join(parts: Seq<Seq<char>>, sep: Seq<char>) -> Seq<char>
    decreases parts.len(),
{
    if parts.len() == 0 {
        Seq::empty()
    } else if parts.len() == 1 {
        parts[0]
    } else {
        parts[0] + sep + join(parts.drop_first(), sep)
    }
}

/// Joining one more piece puts a separator and the piece at the end.
pub proof fn lemma_join_push(parts: Seq<Seq<char>>, sep: Seq<char>, x: Seq<char>)
    ensures
        join(parts.push(x), sep) == if parts.len() == 0 {
            x
        } else {
            join(parts, sep) + sep + x
        },
    decreases parts.len(),
{
    if parts.len() == 0 {
    } else if parts.len() == 1 {
        assert(parts.push(x).drop_first() =~= seq![x]);
        assert(join(seq![x], sep) == x);
    } else {
        lemma_join_push(parts.drop_first(), sep, x);
        assert(parts.push(x).drop_first() =~= parts.drop_first().push(x));
        assert(parts[0] + sep + (join(parts.drop_first(), sep) + sep + x) =~= parts[0] + sep
            + join(parts.drop_first(), sep) + sep + x);
    }
}

/// Prefixing the first piece prefixes the joined text.
proof fn lemma_join_prefix_first(parts: Seq<Seq<char>>, sep: Seq<char>, x: Seq<char>)
    requires
        parts.len() >= 1,
    ensures
        join(parts.update(0, x + parts[0]), sep) == x + join(parts, sep),
{
    let q = parts.update(0, x + parts[0]);
    if parts.len() == 1 {
    } else {
        assert(q.drop_first() =~= parts.drop_first());
        assert(x + parts[0] + sep + join(parts.drop_first(), sep) =~= x + (parts[0] + sep + join(
            parts.drop_first(),
            sep,
        )));
    }
}

/// Joining the pieces of a split with the pattern it was split on gives the
/// text back.
pub proof fn lemma_join_split(s: Seq<char>, pat: Seq<char>)
    requires
        pat.len() > 0,
    ensures
        join(split_by(s, pat), pat) == s,
    decreases s.len(),
{
    if s.len() < pat.len() {
    } else if s.take(pat.len() as int) == pat {
        let t = s.skip(pat.len() as int);
        lemma_join_split(t, pat);
        lemma_split_nonempty(t, pat);
        let parts = split_by(s, pat);
        assert(parts.drop_first() =~= split_by(t, pat));
        if split_by(t, pat).len() == 1 {
            assert(join(split_by(t, pat), pat) == split_by(t, pat)[0]);
        }
        assert(Seq::<char>::empty() + pat + t =~= s);
    } else {
        let t = s.drop_first();
        lemma_join_split(t, pat);
        lemma_split_nonempty(t, pat);
        lemma_join_prefix_first(split_by(t, pat), pat, seq![s[0]]);
        assert(seq![s[0]] + t =~= s);
    }
}

/// The strings joined with `sep` between each two.
pub fn join_strings(parts: &Vec<String>, sep: &str) -> (r: String)
    ensures
        r@ == join(views(parts@), sep@),
{
    let n = parts.len();
    let mut out = String::new();
    let mut i: usize = 0;
    assert(views(parts@).take(0) =~= Seq::<Seq<char>>::empty());
    while i < n
        invariant
            n == parts@.len(),
            i <= n,
            out@ == join(views(parts@).take(i as int), sep@),
        decreases n - i,
    {
        let ghost before = views(parts@).take(i as int);
        proof {
            lemma_join_push(before, sep@, parts@[i as int]@);
            assert(views(parts@).take(i + 1) =~= before.push(parts@[i as int]@));
        }
        if i > 0 {
            out.append(sep);
        }
        out.append(parts[i].as_str());
        i = i + 1;
    }
    assert(views(parts@).take(n as int) =~= views(parts@));
    out
}

// ---------------------------------------------------------------------------
// Order
// ---------------------------------------------------------------------------

/// `a` sorts at or before `b`: compared character by character by code
/// point, a proper prefix first (the order of `str`, whose UTF-8 bytes keep
/// the order of code points).
pub open spec fn lex_le(a: Seq<char>, b: Seq<char>) -> bool
    decreases a.len(),
{
    if a.len() == 0 {
        true
    } else if b.len() == 0 {
        false
    } else if a[0] != b[0] {
        a[0] < b[0]
    } else {
        lex_le(a.drop_first(), b.drop_first())
    }
}

pub open spec fn lex_leq() -> spec_fn(Seq<char>, Seq<char>) -> bool {
    |a: Seq<char>, b: Seq<char>| lex_le(a, b)
}

proof fn lemma_lex_reflexive(a: Seq<char>)
    ensures
        lex_le(a, a),
    decreases a.len(),
{
    if a.len() > 0 {
        lemma_lex_reflexive(a.drop_first());
    }
}

proof fn lemma_lex_antisymmetric(a: Seq<char>, b: Seq<char>)
    requires
        lex_le(a, b),
        lex_le(b, a),
    ensures
        a == b,
    decreases a.len(),
{
    if a.len() == 0 {
        assert(b.len() == 0);
        assert(a =~= b);
    } else {
        assert(b.len() > 0);
        assert(a[0] == b[0]);
        lemma_lex_antisymmetric(a.drop_first(), b.drop_first());
        assert(a =~= seq![a[0]] + a.drop_first());
        assert(b =~= seq![b[0]] + b.drop_first());
    }
}

proof fn lemma_lex_transitive(a: Seq<char>, b: Seq<char>, c: Seq<char>)
    requires
        lex_le(a, b),
        lex_le(b, c),
    ensures
        lex_le(a, c),
    decreases a.len(),
{
    if a.len() > 0 && b.len() > 0 && c.len() > 0 {
        if a[0] == b[0] && b[0] == c[0] {
            lemma_lex_transitive(a.drop_first(), b.drop_first(), c.drop_first());
        }
    }
}

proof fn lemma_lex_connected(a: Seq<char>, b: Seq<char>)
    ensures
        lex_le(a, b) || lex_le(b, a),
    decreases a.len(),
{
    if a.len() > 0 && b.len() > 0 && a[0] == b[0] {
        lemma_lex_connected(a.drop_first(), b.drop_first());
    }
}

/// The order of text is a total order.
pub proof fn lemma_lex_total()
    ensures
        total_ordering(lex_leq()),
{
    let r = lex_leq();
    assert forall|x: Seq<char>| #[trigger] r(x, x) by {
        lemma_lex_reflexive(x);
    }
    assert forall|x: Seq<char>, y: Seq<char>| #[trigger] r(x, y) && #[trigger] r(y, x) implies x
        == y by {
        lemma_lex_antisymmetric(x, y);
    }
    assert forall|x: Seq<char>, y: Seq<char>, z: Seq<char>| #[trigger]
        r(x, y) && #[trigger] r(y, z) implies r(x, z) by {
        lemma_lex_transitive(x, y, z);
    }
    assert forall|x: Seq<char>, y: Seq<char>| #[trigger] r(x, y) || #[trigger] r(y, x) by {
        lemma_lex_connected(x, y);
    }
}

/// Whether `a` sorts at or before `b`.
pub fn str_le(a: &str, b: &str) -> (r: bool)
    ensures
        r == lex_le(a@, b@),
{
    let va = chars_of(a);
    let vb = chars_of(b);
    let na = va.len();
    let nb = vb.len();
    let mut i: usize = 0;
    assert(a@.skip(0) =~= a@);
    assert(b@.skip(0) =~= b@);
    while i < na && i < nb
        invariant
            va@ == a@,
            vb@ == b@,
            na == a@.len(),
            nb == b@.len(),
            i <= na,
            i <= nb,
            lex_le(a@, b@) == lex_le(a@.skip(i as int), b@.skip(i as int)),
        decreases na - i,
    {
        let ca = va[i];
        let cb = vb[i];
        assert(a@.skip(i as int)[0] == ca);
        assert(b@.skip(i as int)[0] == cb);
        if ca != cb {
            return ca < cb;
        }
        assert(a@.skip(i as int).drop_first() =~= a@.skip(i + 1));
        assert(b@.skip(i as int).drop_first() =~= b@.skip(i + 1));
        i = i + 1;
    }
    na <= nb
}

/// The strings in the order of [`lex_le`].
pub fn sort_strings(v: Vec<String>) -> (r: Vec<String>)
    ensures
        views(r@) == views(v@).sort_by(lex_leq()),
{
    proof {
        lemma_lex_total();
    }
    let ghost input = views(v@);
    let ghost leq = lex_leq();
    let n = v.len();
    let mut out: Vec<String> = Vec::new();
    let mut j: usize = 0;
    assert(input.take(0) =~= Seq::<Seq<char>>::empty());
    assert(views(out@) =~= Seq::<Seq<char>>::empty());
    while j < n
        invariant
            n == v@.len(),
            input == views(v@),
            leq == lex_leq(),
            total_ordering(leq),
            j <= n,
            sorted_by(views(out@), leq),
            views(out@).to_multiset() == input.take(j as int).to_multiset(),
        decreases n - j,
    {
        let x = v[j].clone();
        assert(x@ == input[j as int]);
        let mut i = out.len();
        while i > 0 && !str_le(out[i - 1].as_str(), x.as_str())
            invariant
                n == v@.len(),
                input == views(v@),
                leq == lex_leq(),
                total_ordering(leq),
                j < n,
                x@ == input[j as int],
                sorted_by(views(out@), leq),
                views(out@).to_multiset() == input.take(j as int).to_multiset(),
                i <= out@.len(),
                forall|k: int| i <= k < out@.len() ==> !lex_le(#[trigger] out@[k]@, x@),
            decreases i,
        {
            i = i - 1;
        }
        let ghost old_out = views(out@);
        proof {
            assert forall|k: int| 0 <= k < i implies lex_le(#[trigger] old_out[k], x@) by {
                assert(old_out[i - 1] == out@[i - 1]@);
                assert(leq(old_out[i - 1], x@));
                if k < i - 1 {
                    assert(leq(old_out[k], old_out[i - 1]));
                    assert(leq(old_out[k], x@));
                }
            }
            assert forall|k: int| i <= k < old_out.len() implies lex_le(x@, #[trigger] old_out[k]) by {
                assert(!lex_le(out@[k]@, x@));
                assert(leq(x@, old_out[k]) || leq(old_out[k], x@));
            }
        }
        out.insert(i, x);
        proof {
            let nv = views(out@);
            assert(nv =~= old_out.insert(i as int, x@));
            assert(input.take(j + 1) =~= input.take(j as int).push(input[j as int]));
            assert(input[j as int] == x@);
            to_multiset_insert(old_out, i as int, x@);
            to_multiset_build(input.take(j as int), input[j as int]);
            assert forall|p: int, q: int| 0 <= p < q < nv.len() implies #[trigger] leq(
                nv[p],
                nv[q],
            ) by {
                if q < i {
                } else if q == i {
                } else if p < i {
                    assert(leq(nv[p], x@));
                    assert(leq(x@, nv[q]));
                } else if p == i {
                } else {
                    assert(nv[p] == old_out[p - 1]);
                    assert(nv[q] == old_out[q - 1]);
                }
            }
        }
        j = j + 1;
    }
    proof {
        assert(input.take(n as int) =~= input);
        input.lemma_sort_by_ensures(leq);
        lemma_sorted_unique(views(out@), input.sort_by(leq), leq);
    }
    out
}

// ---------------------------------------------------------------------------
// Numbers
// ---------------------------------------------------------------------------

pub open spec fn digit_char(d: nat) -> char {
    if d == 0 {
        '0'
    } else if d == 1 {
        '1'
    } else if d == 2 {
        '2'
    } else if d == 3 {
        '3'
    } else if d == 4 {
        '4'
    } else if d == 5 {
        '5'
    } else if d == 6 {
        '6'
    } else if d == 7 {
        '7'
    } else if d == 8 {
        '8'
    } else {
        '9'
    }
}

/// The decimal numeral of `n`, without leading zeros.
pub open spec fn decimal(n: nat) -> Seq<char>
    decreases n,
{
    if n < 10 {
        seq![digit_char(n)]
    } else {
        decimal(n / 10).push(digit_char(n % 10))
    }
}

/// The decimal numeral of `n`.
pub fn decimal_string(n: u64) -> (r: String)
    ensures
        r@ == decimal(n as nat),
    decreases n,
{
    let digits = "0123456789";
    proof {
        reveal_strlit("0123456789");
    }
    let d = (n % 10) as usize;
    let one = digits.substring_char(d, d + 1);
    assert(one@ =~= seq![digit_char(d as nat)]);
    if n < 10 {
        one.to_owned()
    } else {
        let mut head = decimal_string(n / 10);
        head.append(one);
        head
    }
}

} // verus!
