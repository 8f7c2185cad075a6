//! Verified character-sequence operations: splitting on a separator,
//! literal substring replacement, and ASCII uppercasing.

use vstd::prelude::*;

verus! {

/// The parts of `s` between occurrences of `sep`.  The result always has at
/// least one element: a string without the separator is one part, and every
/// separator adds one more, so `"a/b"` gives `["a", "b"]` and `""` gives
/// `[""]`.
pub open spec fn spec_split(s: Seq<char>, sep: char) -> Seq<Seq<char>>
    decreases s.len(),
{
    if s.len() == 0 {
        seq![Seq::<char>::empty()]
    } else if s[0] == sep {
        seq![Seq::<char>::empty()] + spec_split(s.skip(1), sep)
    } else {
        let rest = spec_split(s.skip(1), sep);
        seq![seq![s[0]] + rest[0]] + rest.skip(1)
    }
}

/// How many times `c` occurs in `s`.
pub open spec fn count_char(s: Seq<char>, c: char) -> nat
    decreases s.len(),
{
    if s.len() == 0 {
        0
    } else {
        (if s[0] == c {
            1nat
        } else {
            0nat
        }) + count_char(s.skip(1), c)
    }
}

/// Splitting yields exactly one more part than there are separators.
pub proof fn lemma_split_len(s: Seq<char>, sep: char)
    ensures
        spec_split(s, sep).len() == count_char(s, sep) + 1,
    decreases s.len(),
{
    if s.len() == 0 {
    } else {
        lemma_split_len(s.skip(1), sep);
    }
}

/// The views of a sequence of owned strings.
pub open spec fn views_of(ts: Seq<String>) -> Seq<Seq<char>> {
    ts.map_values(|t: String| t@)
}

proof fn lemma_skip_no_contains(p: Seq<char>, c: char)
    requires
        !p.contains(c),
        p.len() > 0,
    ensures
        !p.skip(1).contains(c),
{
    if p.skip(1).contains(c) {
        let i = choose|i: int| 0 <= i < p.skip(1).len() && p.skip(1)[i] == c;
        assert(p[i + 1] == c);
    }
}

/// A string free of the separator is a single part.
pub proof fn lemma_split_no_sep(p: Seq<char>, sep: char)
    requires
        !p.contains(sep),
    ensures
        spec_split(p, sep) == seq![p],
    decreases p.len(),
{
    if p.len() == 0 {
        assert(spec_split(p, sep) =~~= seq![p]);
    } else {
        assert(p[0] != sep);
        lemma_skip_no_contains(p, sep);
        lemma_split_no_sep(p.skip(1), sep);
        assert(seq![p[0]] + p.skip(1) =~= p);
        assert(spec_split(p, sep) =~~= seq![p]);
    }
}

/// A separator after a separator-free prefix cuts off exactly that prefix.
pub proof fn lemma_split_append_sep(p: Seq<char>, sep: char, tail: Seq<char>)
    requires
        !p.contains(sep),
    ensures
        spec_split(p + seq![sep] + tail, sep) == seq![p] + spec_split(tail, sep),
    decreases p.len(),
{
    let s = p + seq![sep] + tail;
    if p.len() == 0 {
        assert(s[0] == sep);
        assert(s.skip(1) =~= tail);
        assert(spec_split(s, sep) =~~= seq![p] + spec_split(tail, sep));
    } else {
        assert(s[0] == p[0]);
        assert(s[0] != sep);
        assert(s.skip(1) =~= p.skip(1) + seq![sep] + tail);
        lemma_skip_no_contains(p, sep);
        lemma_split_append_sep(p.skip(1), sep, tail);
        let rest = spec_split(s.skip(1), sep);
        assert(rest == seq![p.skip(1)] + spec_split(tail, sep));
        assert(seq![s[0]] + rest[0] =~= p);
        assert(rest.skip(1) =~= spec_split(tail, sep));
        assert(spec_split(s, sep) =~~= seq![p] + spec_split(tail, sep));
    }
}

/// `s` with every occurrence of the marker `m` replaced by `v`, scanning
/// left to right without overlap, exactly as `str::replace` does.  An empty
/// marker replaces nothing.
pub open spec fn spec_replace(s: Seq<char>, m: Seq<char>, v: Seq<char>) -> Seq<char>
    decreases s.len(),
{
    if m.len() == 0 || s.len() < m.len() {
        s
    } else if s.subrange(0, m.len() as int) == m {
        v + spec_replace(s.skip(m.len() as int), m, v)
    } else {
        seq![s[0]] + spec_replace(s.skip(1), m, v)
    }
}

/// `m` occurs in `s` as a contiguous subsequence.
pub open spec fn occurs(s: Seq<char>, m: Seq<char>) -> bool {
    exists|i: int| 0 <= i && i + m.len() <= s.len() && #[trigger] s.subrange(i, i + m.len() as int) == m
}

/// Replacing a marker that does not occur in a string leaves the string
/// unchanged.
pub proof fn lemma_replace_absent(s: Seq<char>, m: Seq<char>, v: Seq<char>)
    requires
        !occurs(s, m),
    ensures
        spec_replace(s, m, v) == s,
    decreases s.len(),
{
    if m.len() == 0 {
        assert(s.subrange(0, 0 + m.len() as int) =~= m);
        assert(occurs(s, m));
    } else if s.len() < m.len() {
    } else {
        assert(s.subrange(0, m.len() as int) != m) by {
            if s.subrange(0, m.len() as int) == m {
                assert(s.subrange(0, 0 + m.len() as int) == m);
                assert(occurs(s, m));
            }
        }
        assert(!occurs(s.skip(1), m)) by {
            if occurs(s.skip(1), m) {
                let i = choose|i: int|
                    0 <= i && i + m.len() <= s.skip(1).len() && #[trigger] s.skip(1).subrange(
                        i,
                        i + m.len() as int,
                    ) == m;
                assert(s.subrange(i + 1, (i + 1) + m.len() as int) =~= s.skip(1).subrange(
                    i,
                    i + m.len() as int,
                ));
                assert(occurs(s, m));
            }
        }
        lemma_replace_absent(s.skip(1), m, v);
        assert(seq![s[0]] + s.skip(1) =~= s);
    }
}

/// Substitution is idempotent when the marker does not reappear after the
/// first replacement: replacing a second time with the same arguments then
/// changes nothing.
pub proof fn lemma_replace_idempotent(s: Seq<char>, m: Seq<char>, v: Seq<char>)
    requires
        !occurs(spec_replace(s, m, v), m),
    ensures
        spec_replace(spec_replace(s, m, v), m, v) == spec_replace(s, m, v),
{
    lemma_replace_absent(spec_replace(s, m, v), m, v);
}

/// Relies on `String::push`: appends exactly the one character `c` to `s`.
#[verifier::external_body]
pub(crate) fn push_char(s: &mut String, c: char)
    ensures
        final(s)@ == old(s)@ + seq![c],
{
    s.push(c);
}

/// Does the marker `m` stand in `s` at position `i`?
fn marker_matches_at(s: &str, i: usize, m: &str) -> (r: bool)
    requires
        i + m@.len() <= s@.len(),
    ensures
        r == (s@.subrange(i as int, i as int + m@.len() as int) == m@),
{
    let s_len = s.unicode_len();
    let m_len = m.unicode_len();
    let mut j: usize = 0;
    while j < m_len
        invariant
            j <= m_len,
            s_len == s@.len(),
            m_len == m@.len(),
            i + m_len <= s_len,
            forall|k: int| 0 <= k < j ==> s@[i + k] == m@[k],
        decreases m_len - j,
    {
        if s.get_char(i + j) != m.get_char(j) {
            assert(s@.subrange(i as int, i as int + m@.len() as int)[j as int] != m@[j as int]);
            return false;
        }
        j = j + 1;
    }
    assert(s@.subrange(i as int, i as int + m@.len() as int) =~= m@);
    true
}

/// Replaces every occurrence of the marker `m` in `s` by `v`, scanning left
/// to right.
pub fn replace_str(s: &str, m: &str, v: &str) -> (r: String)
    ensures
        r@ == spec_replace(s@, m@, v@),
{
    let s_len = s.unicode_len();
    let m_len = m.unicode_len();
    let mut out = String::new();
    if m_len == 0 {
        out.append(s);
        assert(out@ =~= s@);
        return out;
    }
    let mut i: usize = 0;
    proof {
        assert(s@.skip(0) =~= s@);
        assert(Seq::<char>::empty() + spec_replace(s@, m@, v@) =~= spec_replace(s@, m@, v@));
    }
    while i < s_len
        invariant
            i <= s_len,
            s_len == s@.len(),
            m_len == m@.len(),
            m_len >= 1,
            spec_replace(s@, m@, v@) =~= out@ + spec_replace(s@.skip(i as int), m@, v@),
        decreases s_len - i,
    {
        if m_len <= s_len - i && marker_matches_at(s, i, m) {
            proof {
                let t = s@.skip(i as int);
                assert(t.subrange(0, m@.len() as int) =~= s@.subrange(
                    i as int,
                    i as int + m@.len() as int,
                ));
                assert(t.skip(m@.len() as int) =~= s@.skip(i as int + m@.len() as int));
                assert(spec_replace(t, m@, v@) == v@ + spec_replace(
                    s@.skip(i as int + m@.len() as int),
                    m@,
                    v@,
                ));
            }
            out.append(v);
            i = i + m_len;
            assert(spec_replace(s@, m@, v@) =~= out@ + spec_replace(s@.skip(i as int), m@, v@));
        } else {
            let c = s.get_char(i);
            proof {
                let t = s@.skip(i as int);
                assert(t[0] == c);
                assert(t.skip(1) =~= s@.skip(i as int + 1));
                if m_len <= s_len - i {
                    assert(t.subrange(0, m@.len() as int) =~= s@.subrange(
                        i as int,
                        i as int + m@.len() as int,
                    ));
                    assert(spec_replace(t, m@, v@) == seq![c] + spec_replace(
                        s@.skip(i as int + 1),
                        m@,
                        v@,
                    ));
                } else {
                    assert(t.len() < m@.len());
                    assert(t.skip(1).len() < m@.len());
                    assert(seq![c] + t.skip(1) =~= t);
                    assert(spec_replace(t, m@, v@) == seq![c] + spec_replace(
                        s@.skip(i as int + 1),
                        m@,
                        v@,
                    ));
                }
            }
            push_char(&mut out, c);
            i = i + 1;
            assert(spec_replace(s@, m@, v@) =~= out@ + spec_replace(s@.skip(i as int), m@, v@));
        }
    }
    proof {
        assert(s@.skip(i as int) =~= Seq::<char>::empty());
        assert(spec_replace(s@, m@, v@) =~= out@);
    }
    out
}

/// Splits `s` at every occurrence of `sep` into the parts between them.
pub fn split_on_char(s: &str, sep: char) -> (parts: Vec<String>)
    ensures
        views_of(parts@) == spec_split(s@, sep),
{
    let n = s.unicode_len();
    let mut parts: Vec<String> = Vec::new();
    let mut cur = String::new();
    let mut i: usize = 0;
    proof {
        assert(cur@ + s@.skip(0) =~= s@);
        assert(views_of(parts@) + spec_split(s@, sep) =~~= spec_split(s@, sep));
    }
    while i < n
        invariant
            i <= n,
            n == s@.len(),
            !cur@.contains(sep),
            spec_split(s@, sep) =~~= views_of(parts@) + spec_split(cur@ + s@.skip(i as int), sep),
        decreases n - i,
    {
        let ghost prev_parts = parts@;
        let ghost prev_cur = cur@;
        let c = s.get_char(i);
        if c == sep {
            proof {
                assert(prev_cur + s@.skip(i as int) =~= prev_cur + seq![sep] + s@.skip(
                    i as int + 1,
                ));
                lemma_split_append_sep(prev_cur, sep, s@.skip(i as int + 1));
            }
            parts.push(cur);
            cur = String::new();
            proof {
                assert(views_of(parts@) =~~= views_of(prev_parts) + seq![prev_cur]);
                assert(cur@ + s@.skip(i as int + 1) =~= s@.skip(i as int + 1));
                assert(spec_split(s@, sep) =~~= views_of(parts@) + spec_split(
                    cur@ + s@.skip(i as int + 1),
                    sep,
                ));
            }
        } else {
            push_char(&mut cur, c);
            proof {
                assert(!cur@.contains(sep)) by {
                    if cur@.contains(sep) {
                        let k = choose|k: int| 0 <= k < cur@.len() && cur@[k] == sep;
                        if k < prev_cur.len() {
                            assert(prev_cur[k] == sep);
                        } else {
                            assert(cur@[k] == c);
                        }
                    }
                }
                assert(prev_cur + s@.skip(i as int) =~= cur@ + s@.skip(i as int + 1));
            }
        }
        i = i + 1;
    }
    proof {
        assert(cur@ + s@.skip(n as int) =~= cur@);
        lemma_split_no_sep(cur@, sep);
    }
    let ghost prev_parts = parts@;
    let ghost prev_cur = cur@;
    parts.push(cur);
    proof {
        assert(views_of(parts@) =~~= views_of(prev_parts) + seq![prev_cur]);
        assert(views_of(parts@) =~~= spec_split(s@, sep));
    }
    parts
}

/// The character `c` mapped to its ASCII uppercase form; any other
/// character is left as it is.
pub open spec fn spec_upper_char(c: char) -> char {
    if 'a' <= c && c <= 'z' {
        ((c as u32) - 32) as char
    } else {
        c
    }
}

/// `s` with every ASCII lowercase letter replaced by its uppercase form.
pub open spec fn spec_upper(s: Seq<char>) -> Seq<char> {
    s.map_values(|c: char| spec_upper_char(c))
}

/// Uppercases the ASCII letters of `s`, character by character.
pub fn make_uppercase(s: &str) -> (r: String)
    ensures
        r@ == spec_upper(s@),
{
    let n = s.unicode_len();
    let mut out = String::new();
    let mut i: usize = 0;
    while i < n
        invariant
            i <= n,
            n == s@.len(),
            out@ =~= spec_upper(s@).take(i as int),
        decreases n - i,
    {
        let c = s.get_char(i);
        let u: char = if c >= 'a' && c <= 'z' {
            (((c as u32) - 32) as u8) as char
        } else {
            c
        };
        assert(u == spec_upper_char(s@[i as int]));
        push_char(&mut out, u);
        i = i + 1;
        assert(out@ =~= spec_upper(s@).take(i as int));
    }
    assert(spec_upper(s@).take(n as int) =~= spec_upper(s@));
    out
}

/// Compares two string slices character by character.
pub fn str_eq(a: &str, b: &str) -> (r: bool)
    ensures
        r == (a@ == b@),
{
    let a_len = a.unicode_len();
    let b_len = b.unicode_len();
    if a_len != b_len {
        assert(a@ != b@);
        return false;
    }
    let mut i: usize = 0;
    while i < a_len
        invariant
            i <= a_len,
            a_len == a@.len(),
            a_len == b@.len(),
            forall|k: int| 0 <= k < i ==> a@[k] == b@[k],
        decreases a_len - i,
    {
        if a.get_char(i) != b.get_char(i) {
            assert(a@ != b@);
            return false;
        }
        i = i + 1;
    }
    assert(a@ =~= b@);
    true
}

} // verus!
