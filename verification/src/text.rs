use vstd::prelude::*;

verus! {

// Character-level text utilities shared by all confirmation loops: whitespace
// trimming, case-insensitive token matching, line splitting and joining.

/// A character with the Unicode `White_Space` property, as `str::trim` removes.
pub open spec fn is_ws(c: char) -> bool {
    let u = c as u32;
    (0x09 <= u && u <= 0x0D) || u == 0x20 || u == 0x85 || u == 0xA0 || u == 0x1680 || (0x2000
        <= u && u <= 0x200A) || u == 0x2028 || u == 0x2029 || u == 0x202F || u == 0x205F || u
        == 0x3000
}

pub fn is_whitespace_char(c: char) -> (r: bool)
    ensures
        r == is_ws(c),
{
    let u = c as u32;
    (0x09 <= u && u <= 0x0D) || u == 0x20 || u == 0x85 || u == 0xA0 || u == 0x1680 || (0x2000
        <= u && u <= 0x200A) || u == 0x2028 || u == 0x2029 || u == 0x202F || u == 0x205F || u
        == 0x3000
}

pub open spec fn trim_start_spec(s: Seq<char>) -> Seq<char>
    decreases s.len(),
{
    if s.len() > 0 && is_ws(s[0]) {
        trim_start_spec(s.drop_first())
    } else {
        s
    }
}

pub open spec fn trim_end_spec(s: Seq<char>) -> Seq<char>
    decreases s.len(),
{
    if s.len() > 0 && is_ws(s.last()) {
        trim_end_spec(s.drop_last())
    } else {
        s
    }
}

/// The sequence with leading and trailing whitespace removed, as `str::trim`.
pub open spec fn trim_spec(s: Seq<char>) -> Seq<char> {
    trim_end_spec(trim_start_spec(s))
}

proof fn lemma_trim_start_prefix(s: Seq<char>, i: int)
    requires
        0 <= i <= s.len(),
        forall|k: int| 0 <= k < i ==> is_ws(s[k]),
        i < s.len() ==> !is_ws(s[i]),
    ensures
        trim_start_spec(s) == s.subrange(i, s.len() as int),
    decreases i,
{
    if i == 0 {
        assert(s.subrange(0, s.len() as int) =~= s);
    } else {
        assert(is_ws(s[0]));
        lemma_trim_start_prefix(s.drop_first(), i - 1);
        assert(s.drop_first().subrange(i - 1, s.drop_first().len() as int) =~= s.subrange(
            i,
            s.len() as int,
        ));
    }
}

proof fn lemma_trim_end_suffix(s: Seq<char>, j: int)
    requires
        0 <= j <= s.len(),
        forall|k: int| j <= k < s.len() ==> is_ws(s[k]),
        j > 0 ==> !is_ws(s[j - 1]),
    ensures
        trim_end_spec(s) == s.subrange(0, j),
    decreases s.len() - j,
{
    if j == s.len() {
        if s.len() > 0 && is_ws(s.last()) {
            lemma_trim_end_suffix(s.drop_last(), j - 1);
            assert(s.drop_last().subrange(0, j - 1) =~= s.subrange(0, j - 1));
            assert(is_ws(s[j - 1]));
            assert(false);
        } else {
            assert(s.subrange(0, j) =~= s);
        }
    } else {
        assert(is_ws(s.last()));
        lemma_trim_end_suffix(s.drop_last(), j);
        assert(s.drop_last().subrange(0, j) =~= s.subrange(0, j));
    }
}

/// Remove leading and trailing whitespace, as `str::trim` does.
pub fn trim_str(s: &str) -> (r: &str)
    ensures
        r@ == trim_spec(s@),
{
    let n = s.unicode_len();
    let mut i: usize = 0;
    while i < n && is_whitespace_char(s.get_char(i))
        invariant
            0 <= i <= n,
            n == s@.len(),
            forall|k: int| 0 <= k < i ==> is_ws(s@[k]),
        decreases n - i,
    {
        i = i + 1;
    }
    let mut j: usize = n;
    while j > i && is_whitespace_char(s.get_char(j - 1))
        invariant
            i <= j <= n,
            n == s@.len(),
            forall|k: int| j <= k < n ==> is_ws(s@[k]),
        decreases j,
    {
        j = j - 1;
    }
    proof {
        lemma_trim_start_prefix(s@, i as int);
        let t = s@.subrange(i as int, n as int);
        if j > i {
            lemma_trim_end_suffix(t, j - i);
        } else {
            assert(forall|k: int| 0 <= k < t.len() ==> is_ws(t[k]));
            lemma_trim_end_suffix(t, 0);
        }
        assert(t.subrange(0, j - i) =~= s@.subrange(i as int, j as int));
    }
    s.substring_char(i, j)
}

proof fn lemma_trim_start_len(s: Seq<char>)
    ensures
        trim_start_spec(s).len() <= s.len(),
        s.len() > 0 && is_ws(s[0]) ==> trim_start_spec(s).len() < s.len(),
    decreases s.len(),
{
    if s.len() > 0 && is_ws(s[0]) {
        lemma_trim_start_len(s.drop_first());
    }
}

proof fn lemma_trim_end_len(s: Seq<char>)
    ensures
        trim_end_spec(s).len() <= s.len(),
        s.len() > 0 && is_ws(s.last()) ==> trim_end_spec(s).len() < s.len(),
    decreases s.len(),
{
    if s.len() > 0 && is_ws(s.last()) {
        lemma_trim_end_len(s.drop_last());
    }
}

pub proof fn lemma_trim_len(s: Seq<char>)
    ensures
        trim_spec(s).len() <= s.len(),
{
    lemma_trim_start_len(s);
    lemma_trim_end_len(trim_start_spec(s));
}

/// A string that trimming leaves unchanged has no whitespace at either end.
pub proof fn lemma_trim_fixed(s: Seq<char>)
    requires
        trim_spec(s) == s,
        s.len() > 0,
    ensures
        !is_ws(s[0]),
        !is_ws(s.last()),
{
    lemma_trim_start_len(s);
    lemma_trim_end_len(trim_start_spec(s));
    assert(trim_start_spec(s).len() == s.len());
    assert(!is_ws(s[0]));
    assert(trim_start_spec(s) == s);
    assert(trim_end_spec(s) == s);
    assert(!is_ws(s.last()));
}

/// A string without whitespace is unchanged by trimming.
pub proof fn lemma_trim_no_ws(s: Seq<char>)
    requires
        forall|k: int| 0 <= k < s.len() ==> !is_ws(s[k]),
    ensures
        trim_spec(s) == s,
{
    lemma_trim_start_prefix(s, 0);
    assert(trim_start_spec(s) =~= s);
    lemma_trim_end_suffix(s, s.len() as int);
    assert(trim_end_spec(s) =~= s);
}

/// `a`, a character of the user's token, matches `b`, a character of a
/// lowercase reference token, ignoring ASCII case.
pub open spec fn char_matches_lower(a: char, b: char) -> bool {
    a == b || (0x41 <= a as u32 && a as u32 <= 0x5A && a as u32 + 32 == b as u32)
}

/// `s` equals the lowercase reference token `t` after ASCII lowercasing.
pub open spec fn matches_ci(s: Seq<char>, t: Seq<char>) -> bool {
    s.len() == t.len() && (forall|k: int|
        0 <= k < s.len() ==> char_matches_lower(s[k], #[trigger] t[k]))
}

/// Case-insensitive comparison of `s` against a lowercase reference token `t`.
pub fn matches_token(s: &str, t: &str) -> (r: bool)
    ensures
        r == matches_ci(s@, t@),
{
    let n = s.unicode_len();
    let m = t.unicode_len();
    if n != m {
        return false;
    }
    let mut i: usize = 0;
    while i < n
        invariant
            0 <= i <= n,
            n == s@.len(),
            n == t@.len(),
            forall|k: int| 0 <= k < i ==> char_matches_lower(s@[k], #[trigger] t@[k]),
        decreases n - i,
    {
        let a = s.get_char(i);
        let b = t.get_char(i);
        let au = a as u32;
        let bu = b as u32;
        if !(a == b || (0x41 <= au && au <= 0x5A && au + 32 == bu)) {
            return false;
        }
        i = i + 1;
    }
    true
}

/// Index of the first `'\n'` in `s`, or `s.len()` if there is none.
pub open spec fn first_nl(s: Seq<char>) -> int
    decreases s.len(),
{
    if s.len() == 0 {
        0
    } else if s[0] == '\n' {
        0
    } else {
        1 + first_nl(s.drop_first())
    }
}

proof fn lemma_first_nl(s: Seq<char>)
    ensures
        0 <= first_nl(s) <= s.len(),
        forall|k: int| 0 <= k < first_nl(s) ==> s[k] != '\n',
        first_nl(s) < s.len() ==> s[first_nl(s)] == '\n',
    decreases s.len(),
{
    if s.len() == 0 {
    } else if s[0] == '\n' {
    } else {
        lemma_first_nl(s.drop_first());
        assert forall|k: int| 0 <= k < first_nl(s) implies s[k] != '\n' by {
            if k > 0 {
                assert(s.drop_first()[k - 1] == s[k]);
            }
        }
        if first_nl(s) < s.len() {
            assert(s.drop_first()[first_nl(s) - 1] == s[first_nl(s)]);
        }
    }
}

pub proof fn lemma_first_nl_is(s: Seq<char>, i: int)
    requires
        0 <= i <= s.len(),
        forall|k: int| 0 <= k < i ==> s[k] != '\n',
        i < s.len() ==> s[i] == '\n',
    ensures
        first_nl(s) == i,
    decreases s.len(),
{
    if s.len() == 0 {
    } else if s[0] == '\n' {
        assert(i == 0);
    } else {
        assert(i >= 1);
        lemma_first_nl_is(s.drop_first(), i - 1);
    }
}

/// Drop one trailing carriage return, as `str::lines` does before a `'\n'`.
pub open spec fn strip_cr(line: Seq<char>) -> Seq<char> {
    if line.len() > 0 && line.last() == '\r' {
        line.drop_last()
    } else {
        line
    }
}

/// The lines of `s`, split as `str::lines` splits them: at `'\n'`, with a
/// `'\r'` immediately before the `'\n'` removed, and no empty final line for
/// a trailing line ending.
pub open spec fn lines_spec(s: Seq<char>) -> Seq<Seq<char>>
    decreases s.len(),
    via lines_spec_dec
{
    if s.len() == 0 {
        Seq::empty()
    } else if first_nl(s) == s.len() {
        seq![s]
    } else {
        seq![strip_cr(s.subrange(0, first_nl(s)))] + lines_spec(
            s.subrange(first_nl(s) + 1, s.len() as int),
        )
    }
}

#[via_fn]
proof fn lines_spec_dec(s: Seq<char>) {
    if s.len() != 0 {
        lemma_first_nl(s);
    }
}

proof fn lemma_lines_nonempty(s: Seq<char>)
    requires
        s.len() > 0,
    ensures
        lines_spec(s).len() >= 1,
{
    lemma_first_nl(s);
}

pub proof fn lemma_lines_len_le(s: Seq<char>)
    ensures
        lines_spec(s).len() <= s.len(),
    decreases s.len(),
{
    if s.len() != 0 {
        lemma_first_nl(s);
        if first_nl(s) < s.len() {
            lemma_lines_len_le(s.subrange(first_nl(s) + 1, s.len() as int));
        }
    }
}

/// The lines of `s` joined back with `'\n'` between them.
pub open spec fn join_spec(ls: Seq<Seq<char>>) -> Seq<char>
    decreases ls.len(),
{
    if ls.len() == 0 {
        Seq::empty()
    } else if ls.len() == 1 {
        ls[0]
    } else {
        join_spec(ls.drop_last()) + seq!['\n'] + ls.last()
    }
}

pub proof fn lemma_join_cons(ls: Seq<Seq<char>>)
    requires
        ls.len() >= 2,
    ensures
        join_spec(ls) == ls[0] + seq!['\n'] + join_spec(ls.drop_first()),
    decreases ls.len(),
{
    if ls.len() == 2 {
        assert(ls.drop_last().len() == 1);
        assert(ls.drop_last()[0] == ls[0]);
        assert(ls.drop_first().len() == 1);
        assert(ls.drop_first()[0] == ls[1]);
        assert(ls.last() == ls[1]);
        assert(join_spec(ls.drop_last()) == ls.drop_last()[0]);
        assert(join_spec(ls.drop_first()) == ls.drop_first()[0]);
        assert(join_spec(ls) == join_spec(ls.drop_last()) + seq!['\n'] + ls.last());
        assert(join_spec(ls) =~= ls[0] + seq!['\n'] + join_spec(ls.drop_first()));
    } else {
        lemma_join_cons(ls.drop_last());
        assert(ls.drop_last().drop_first() =~= ls.drop_first().drop_last());
        assert(ls.drop_first().last() == ls.last());
        assert(ls.drop_last()[0] == ls[0]);
        assert(join_spec(ls) =~= ls[0] + seq!['\n'] + join_spec(ls.drop_first()));
    }
}

pub proof fn lemma_join_lines_len(s: Seq<char>)
    ensures
        join_spec(lines_spec(s)).len() <= s.len(),
    decreases s.len(),
{
    if s.len() != 0 {
        lemma_first_nl(s);
        let i = first_nl(s);
        if i < s.len() {
            let rest = s.subrange(i + 1, s.len() as int);
            let l0 = strip_cr(s.subrange(0, i));
            lemma_join_lines_len(rest);
            assert(l0.len() <= i);
            if rest.len() == 0 {
                assert(lines_spec(s) =~= seq![l0]);
            } else {
                lemma_lines_nonempty(rest);
                lemma_join_cons(lines_spec(s));
                assert(lines_spec(s)[0] == l0);
                assert(lines_spec(s).drop_first() =~= lines_spec(rest));
            }
        }
    }
}

/// `s` contains no `"\r\n"` pair.
pub open spec fn no_crlf(s: Seq<char>) -> bool {
    forall|k: int| 0 <= k < s.len() - 1 ==> !((#[trigger] s[k]) == '\r' && s[k + 1] == '\n')
}

/// Splitting into lines and joining with `'\n'` is the identity on strings
/// with no `"\r\n"` pair and no trailing `'\n'`.
pub proof fn lemma_join_lines_id(s: Seq<char>)
    requires
        no_crlf(s),
        s.len() > 0 ==> s.last() != '\n',
    ensures
        join_spec(lines_spec(s)) == s,
    decreases s.len(),
{
    if s.len() != 0 {
        lemma_first_nl(s);
        let i = first_nl(s);
        if i < s.len() {
            assert(s[i] == '\n');
            assert(i < s.len() - 1);
            let rest = s.subrange(i + 1, s.len() as int);
            let raw0 = s.subrange(0, i);
            assert(i > 0 ==> raw0.last() == s[i - 1]);
            assert(i > 0 ==> s[i - 1] != '\r');
            assert(strip_cr(raw0) == raw0);
            assert(rest.len() > 0);
            assert(rest.last() == s.last());
            assert forall|k: int| 0 <= k < rest.len() - 1 implies !((#[trigger] rest[k]) == '\r'
                && rest[k + 1] == '\n') by {
                assert(rest[k] == s[i + 1 + k]);
                assert(rest[k + 1] == s[i + 1 + k + 1]);
            }
            assert(no_crlf(rest));
            lemma_join_lines_id(rest);
            lemma_lines_nonempty(rest);
            lemma_join_cons(lines_spec(s));
            assert(lines_spec(s)[0] == raw0);
            assert(lines_spec(s).drop_first() =~= lines_spec(rest));
            assert(raw0 + seq!['\n'] + rest =~= s);
        }
    }
}

/// Split into lines as `str::lines` does.
pub fn split_lines(s: &str) -> (r: Vec<String>)
    ensures
        r@.map_values(|l: String| l@) == lines_spec(s@),
{
    let n = s.unicode_len();
    let mut out: Vec<String> = Vec::new();
    let mut start: usize = 0;
    let mut i: usize = 0;
    proof {
        assert(s@.subrange(0, n as int) =~= s@);
        assert(out@.map_values(|l: String| l@) =~= Seq::<Seq<char>>::empty());
        assert(out@.map_values(|l: String| l@) + lines_spec(s@) =~= lines_spec(s@));
    }
    while i < n
        invariant
            0 <= start <= i <= n,
            n == s@.len(),
            forall|k: int| start <= k < i ==> s@[k] != '\n',
            out@.map_values(|l: String| l@) + lines_spec(s@.subrange(start as int, n as int))
                =~= lines_spec(s@),
        decreases n - i,
    {
        let c = s.get_char(i);
        if c == '\n' {
            let end: usize = if i > start && s.get_char(i - 1) == '\r' {
                i - 1
            } else {
                i
            };
            let line = s.substring_char(start, end);
            proof {
                let t = s@.subrange(start as int, n as int);
                lemma_first_nl_is(t, i - start);
                assert(t.subrange(0, i - start) =~= s@.subrange(start as int, i as int));
                assert(t.subrange(i - start + 1, t.len() as int) =~= s@.subrange(
                    i + 1,
                    n as int,
                ));
                if i > start && s@[i - 1] == '\r' {
                    assert(strip_cr(s@.subrange(start as int, i as int)) =~= s@.subrange(
                        start as int,
                        end as int,
                    ));
                } else {
                    assert(strip_cr(s@.subrange(start as int, i as int)) =~= s@.subrange(
                        start as int,
                        end as int,
                    ));
                }
                assert(lines_spec(t) == seq![line@] + lines_spec(
                    s@.subrange(i + 1, n as int),
                ));
            }
            let ghost old_map = out@.map_values(|l: String| l@);
            out.push(String::from_str(line));
            proof {
                assert(out@.map_values(|l: String| l@) =~= old_map + seq![line@]);
                assert(out@.map_values(|l: String| l@) + lines_spec(
                    s@.subrange(i + 1, n as int),
                ) =~= lines_spec(s@));
            }
            start = i + 1;
        }
        i = i + 1;
    }
    if start < n {
        let line = s.substring_char(start, n);
        proof {
            let t = s@.subrange(start as int, n as int);
            lemma_first_nl_is(t, n - start);
            assert(lines_spec(t) == seq![t]);
        }
        let ghost old_map = out@.map_values(|l: String| l@);
        out.push(String::from_str(line));
        proof {
            assert(out@.map_values(|l: String| l@) =~= old_map + seq![line@]);
        }
    } else {
        proof {
            assert(s@.subrange(start as int, n as int).len() == 0);
            assert(lines_spec(s@.subrange(start as int, n as int)) =~= Seq::<Seq<char>>::empty());
        }
    }
    proof {
        assert(out@.map_values(|l: String| l@) =~= lines_spec(s@));
    }
    out
}

/// Join `lines[from..]` with `'\n'`; the empty string when `from` is past the end.
pub fn join_from(lines: &Vec<String>, from: usize) -> (r: String)
    ensures
        from <= lines@.len() ==> r@ == join_spec(
            lines@.map_values(|l: String| l@).skip(from as int),
        ),
        from > lines@.len() ==> r@ == Seq::<char>::empty(),
{
    let n = lines.len();
    let mut r = String::new();
    if from >= n {
        proof {
            if from == n {
                assert(lines@.map_values(|l: String| l@).skip(from as int) =~= Seq::<
                    Seq<char>,
                >::empty());
            }
        }
        return r;
    }
    let ghost m = lines@.map_values(|l: String| l@);
    let mut i: usize = from;
    while i < n
        invariant
            from <= i <= n,
            n == lines@.len(),
            m == lines@.map_values(|l: String| l@),
            r@ == join_spec(m.subrange(from as int, i as int)),
        decreases n - i,
    {
        proof {
            reveal_strlit("\n");
        }
        if i > from {
            r.append("\n");
        }
        r.append(lines[i].as_str());
        proof {
            let pre = m.subrange(from as int, i as int);
            let cur = m.subrange(from as int, i + 1);
            assert(cur.drop_last() =~= pre);
            assert(cur.last() == m[i as int]);
            if i == from {
                assert(cur.len() == 1);
                assert(cur[0] == m[i as int]);
            } else {
                assert(r@ =~= join_spec(pre) + seq!['\n'] + m[i as int]);
            }
        }
        i = i + 1;
    }
    proof {
        assert(m.subrange(from as int, n as int) =~= m.skip(from as int));
    }
    r
}

} // verus!
