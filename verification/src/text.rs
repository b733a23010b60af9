//! What text operations mean, over sequences of characters.
//!
//! The functions of [`crate::strings`] compute what is defined here.
use vstd::prelude::*;

verus! {

/// The code points with the Unicode property `White_Space`.
pub open spec fn white_space(c: char) -> bool {
    let n = c as u32;
    ||| 0x09 <= n <= 0x0d
    ||| n == 0x20
    ||| n == 0x85
    ||| n == 0xa0
    ||| n == 0x1680
    ||| 0x2000 <= n <= 0x200a
    ||| n == 0x2028
    ||| n == 0x2029
    ||| n == 0x202f
    ||| n == 0x205f
    ||| n == 0x3000
}

/// Nothing but white space (the empty text is blank).
pub open spec fn blank(s: Seq<char>) -> bool {
    forall|i: int| 0 <= i < s.len() ==> white_space(#[trigger] s[i])
}

/// `s` without its leading white space.
pub open spec fn trim_start(s: Seq<char>) -> Seq<char>
    decreases s.len(),
{
    if s.len() > 0 && white_space(s[0]) {
        trim_start(s.drop_first())
    } else {
        s
    }
}

/// `s` without its trailing white space.
pub open spec fn trim_end(s: Seq<char>) -> Seq<char>
    decreases s.len(),
{
    if s.len() > 0 && white_space(s.last()) {
        trim_end(s.drop_last())
    } else {
        s
    }
}

/// `s` without leading and trailing white space.
pub open spec fn trim(s: Seq<char>) -> Seq<char> {
    trim_end(trim_start(s))
}

/// `s` without the run of `c` at its end.
pub open spec fn trim_end_matches(s: Seq<char>, c: char) -> Seq<char>
    decreases s.len(),
{
    if s.len() > 0 && s.last() == c {
        trim_end_matches(s.drop_last(), c)
    } else {
        s
    }
}

/// `s` begins with `p`.
pub open spec fn starts_with(s: Seq<char>, p: Seq<char>) -> bool {
    p.len() <= s.len() && s.take(p.len() as int) == p
}

/// `s` ends with `p`.
pub open spec fn ends_with(s: Seq<char>, p: Seq<char>) -> bool {
    p.len() <= s.len() && s.skip(s.len() - p.len()) == p
}

/// `p` stands in `s` at position `i`.
pub open spec fn occurs_at(s: Seq<char>, p: Seq<char>, i: int) -> bool {
    0 <= i <= s.len() - p.len() && s.subrange(i, i + p.len()) == p
}

/// `p` stands somewhere in `s`.
pub open spec fn contains(s: Seq<char>, p: Seq<char>) -> bool {
    exists|i: int| occurs_at(s, p, i)
}

/// `c` does not stand in `s`.
pub open spec fn free_of(s: Seq<char>, c: char) -> bool {
    forall|i: int| 0 <= i < s.len() ==> #[trigger] s[i] != c
}

/// The position of the first `c` in `s`, or the length of `s` if there is none.
pub open spec fn position(s: Seq<char>, c: char) -> nat
    decreases s.len(),
{
    if s.len() == 0 || s[0] == c {
        0
    } else {
        1 + position(s.drop_first(), c)
    }
}

/// `s` without one carriage return at its end.
pub open spec fn strip_cr(s: Seq<char>) -> Seq<char> {
    if s.len() > 0 && s.last() == '\r' {
        s.drop_last()
    } else {
        s
    }
}

/// The lines of `s`. A line ends with a line feed, or with a carriage return and
/// a line feed; the last one may end with the text.
pub open spec fn lines(s: Seq<char>) -> Seq<Seq<char>>
    decreases s.len(),
{
    let end = position(s, '\n');
    if s.len() == 0 {
        Seq::empty()
    } else if end >= s.len() {
        seq![s]
    } else {
        seq![strip_cr(s.take(end as int))] + lines(s.skip(end as int + 1))
    }
}

/// Each line followed by a line feed.
pub open spec fn unlines(parts: Seq<Seq<char>>) -> Seq<char>
    decreases parts.len(),
{
    if parts.len() == 0 {
        Seq::empty()
    } else {
        parts[0] + seq!['\n'] + unlines(parts.drop_first())
    }
}

/// The parts in order, with `sep` between neighbours.
pub open spec fn join(parts: Seq<Seq<char>>, sep: Seq<char>) -> Seq<char>
    decreases parts.len(),
{
    if parts.len() == 0 {
        Seq::empty()
    } else if parts.len() == 1 {
        parts[0]
    } else {
        join(parts.drop_last(), sep) + sep + parts.last()
    }
}

/// The contents of a list of strings.
pub open spec fn texts(v: Seq<String>) -> Seq<Seq<char>> {
    v.map_values(|s: String| s@)
}

/// The content of an optional string.
pub open spec fn opt_text(s: Option<&str>) -> Option<Seq<char>> {
    match s {
        Some(t) => Some(t@),
        None => None,
    }
}

/// The path of `name`, which is relative, in the directory `dir`.
pub open spec fn path_join(dir: Seq<char>, name: Seq<char>) -> Seq<char> {
    if dir.len() == 0 || dir.last() == '/' {
        dir + name
    } else {
        dir + "/"@ + name
    }
}

/// The decimal digit `d`.
pub open spec fn digit(d: nat) -> char {
    ('0' as u32 + d) as char
}

/// `n` in decimal, without leading zeros.
pub open spec fn decimal(n: nat) -> Seq<char>
    decreases n,
{
    if n < 10 {
        seq![digit(n)]
    } else {
        decimal(n / 10).push(digit(n % 10))
    }
}

/// `i` in decimal, with a minus sign if it is negative.
pub open spec fn signed_decimal(i: int) -> Seq<char> {
    if i < 0 {
        seq!['-'] + decimal((-i) as nat)
    } else {
        decimal(i as nat)
    }
}

/// `c` in lower case if it is an ASCII letter, and unchanged otherwise.
pub open spec fn ascii_lower(c: char) -> char {
    if 'A' <= c && c <= 'Z' {
        (c as u32 + 32) as char
    } else {
        c
    }
}

/// The two texts differ at most in the case of ASCII letters.
pub open spec fn eq_ignore_ascii_case(a: Seq<char>, b: Seq<char>) -> bool {
    &&& a.len() == b.len()
    &&& forall|i: int| 0 <= i < a.len() ==> ascii_lower(#[trigger] a[i]) == ascii_lower(b[i])
}

// ─── Facts ───────────────────────────────────────────────────────────────────

/// Where the leading white space ends, the trimmed text begins.
pub proof fn lemma_trim_start_at(s: Seq<char>, i: int)
    requires
        0 <= i <= s.len(),
        forall|k: int| 0 <= k < i ==> white_space(#[trigger] s[k]),
        i == s.len() || !white_space(s[i]),
    ensures
        trim_start(s) == s.skip(i),
    decreases i,
{
    if i > 0 {
        let t = s.drop_first();
        assert forall|k: int| 0 <= k < i - 1 implies white_space(#[trigger] t[k]) by {
            assert(t[k] == s[k + 1]);
        }
        lemma_trim_start_at(t, i - 1);
        assert(t.skip(i - 1) =~= s.skip(i));
        assert(white_space(s[0]));
    } else {
        assert(s.skip(0) =~= s);
    }
}

/// Where the trailing white space begins, the trimmed text ends.
pub proof fn lemma_trim_end_at(s: Seq<char>, j: int)
    requires
        0 <= j <= s.len(),
        forall|k: int| j <= k < s.len() ==> white_space(#[trigger] s[k]),
        j == 0 || !white_space(s[j - 1]),
    ensures
        trim_end(s) == s.take(j),
    decreases s.len(),
{
    if j < s.len() {
        let t = s.drop_last();
        assert(white_space(s[s.len() - 1]));
        lemma_trim_end_at(t, j);
        assert(t.take(j) =~= s.take(j));
    } else {
        assert(s.take(j) =~= s);
    }
}

/// A text is blank exactly when nothing is left of it after trimming.
pub proof fn lemma_trim_blank(s: Seq<char>)
    ensures
        trim(s).len() == 0 <==> blank(s),
    decreases s.len(),
{
    if s.len() > 0 && white_space(s[0]) {
        let t = s.drop_first();
        lemma_trim_blank(t);
        if blank(t) {
            assert forall|i: int| 0 <= i < s.len() implies white_space(#[trigger] s[i]) by {
                if i > 0 {
                    assert(s[i] == t[i - 1]);
                }
            }
        }
        if blank(s) {
            assert forall|i: int| 0 <= i < t.len() implies white_space(#[trigger] t[i]) by {
                assert(t[i] == s[i + 1]);
            }
        }
    } else if s.len() > 0 {
        lemma_trim_end_keeps_first(s);
        assert(!blank(s)) by {
            assert(!white_space(s[0]));
        }
    }
}

/// Trimming the end stops at the first character if that is no white space.
proof fn lemma_trim_end_keeps_first(s: Seq<char>)
    requires
        s.len() > 0,
        !white_space(s[0]),
    ensures
        trim_end(s).len() > 0,
    decreases s.len(),
{
    if white_space(s.last()) {
        lemma_trim_end_keeps_first(s.drop_last());
    }
}

/// `position` is the least position of `c`.
pub proof fn lemma_position(s: Seq<char>, c: char)
    ensures
        position(s, c) <= s.len(),
        forall|i: int| 0 <= i < position(s, c) ==> #[trigger] s[i] != c,
        position(s, c) < s.len() ==> s[position(s, c) as int] == c,
    decreases s.len(),
{
    if s.len() > 0 && s[0] != c {
        let t = s.drop_first();
        lemma_position(t, c);
        assert forall|i: int| 0 <= i < position(s, c) implies #[trigger] s[i] != c by {
            if i > 0 {
                assert(s[i] == t[i - 1]);
            }
        }
    }
}

/// A position before which `c` does not stand, and at which it does, is the first.
pub proof fn lemma_position_is(s: Seq<char>, c: char, k: int)
    requires
        0 <= k <= s.len(),
        forall|i: int| 0 <= i < k ==> #[trigger] s[i] != c,
        k == s.len() || s[k] == c,
    ensures
        position(s, c) == k,
{
    lemma_position(s, c);
    if position(s, c) < k {
        assert(s[position(s, c) as int] != c);
    }
}

/// One more line at the end.
pub proof fn lemma_unlines_push(parts: Seq<Seq<char>>, line: Seq<char>)
    ensures
        unlines(parts.push(line)) == unlines(parts) + line + seq!['\n'],
    decreases parts.len(),
{
    let all = parts.push(line);
    if parts.len() == 0 {
        assert(all.drop_first() =~= parts);
        assert(unlines(parts) =~= Seq::<char>::empty());
        assert(unlines(all) =~= unlines(parts) + line + seq!['\n']);
    } else {
        lemma_unlines_push(parts.drop_first(), line);
        assert(all.drop_first() =~= parts.drop_first().push(line));
        assert(unlines(all) =~= unlines(parts) + line + seq!['\n']);
    }
}

/// No line holds a line feed.
pub proof fn lemma_lines_are_lines(s: Seq<char>)
    ensures
        forall|i: int| 0 <= i < lines(s).len() ==> free_of(#[trigger] lines(s)[i], '\n'),
    decreases s.len(),
{
    let end = position(s, '\n');
    lemma_position(s, '\n');
    if s.len() > 0 && end < s.len() {
        let rest = s.skip(end as int + 1);
        lemma_lines_are_lines(rest);
        assert forall|i: int| 0 <= i < lines(s).len() implies free_of(#[trigger] lines(s)[i], '\n') by {
            if i > 0 {
                assert(lines(s)[i] == lines(rest)[i - 1]);
            } else {
                assert(lines(s)[0] == strip_cr(s.take(end as int)));
            }
        }
    } else if s.len() > 0 {
        assert(lines(s)[0] == s);
    }
}

/// The lines of a text that was put together from lines are those lines, except
/// that a carriage return at the end of one is taken as part of the line ending.
pub proof fn lemma_lines_of_unlines(parts: Seq<Seq<char>>)
    requires
        forall|i: int| 0 <= i < parts.len() ==> free_of(#[trigger] parts[i], '\n'),
    ensures
        lines(unlines(parts)) == parts.map_values(|line: Seq<char>| strip_cr(line)),
    decreases parts.len(),
{
    let f = |line: Seq<char>| strip_cr(line);
    if parts.len() > 0 {
        let first = parts[0];
        let rest = parts.drop_first();
        let s = unlines(parts);
        let n = first.len() as int;
        assert forall|i: int| 0 <= i < rest.len() implies free_of(#[trigger] rest[i], '\n') by {
            assert(rest[i] == parts[i + 1]);
        }
        lemma_lines_of_unlines(rest);
        assert forall|i: int| 0 <= i < n implies #[trigger] s[i] != '\n' by {
            assert(s[i] == first[i]);
        }
        assert(s[n] == '\n');
        lemma_position_is(s, '\n', n);
        assert(s.take(n) =~= first);
        assert(s.skip(n + 1) =~= unlines(rest));
        assert(lines(s) =~= parts.map_values(f));
    } else {
        assert(lines(unlines(parts)) =~= parts.map_values(f));
    }
}

/// White space at the end does not change the trimmed text.
pub proof fn lemma_trim_drop_last(s: Seq<char>)
    requires
        s.len() > 0,
        white_space(s.last()),
    ensures
        trim(s) == trim(s.drop_last()),
    decreases s.len(),
{
    let t = s.drop_last();
    if white_space(s[0]) {
        if s.len() > 1 {
            lemma_trim_drop_last(s.drop_first());
            assert(s.drop_first().drop_last() =~= t.drop_first());
            assert(t[0] == s[0]);
        } else {
            assert(s.drop_first() =~= t);
        }
    } else {
        assert(t[0] == s[0]);
    }
}

/// A text that begins and ends with other characters than white space is trimmed.
pub proof fn lemma_trim_same(s: Seq<char>)
    requires
        s.len() > 0,
        !white_space(s[0]),
        !white_space(s.last()),
    ensures
        trim(s) == s,
{
}

/// A carriage return at the end does not change the trimmed text.
pub proof fn lemma_trim_strip_cr(s: Seq<char>)
    ensures
        trim(strip_cr(s)) == trim(s),
{
    if s.len() > 0 && s.last() == '\r' {
        lemma_trim_drop_last(s);
    }
}

/// Trimming takes white space away from around a text, and stops where the text begins
/// and ends with other characters.
pub proof fn lemma_trim_around(before: Seq<char>, core: Seq<char>, after: Seq<char>)
    requires
        blank(before),
        blank(after),
        core.len() > 0,
        !white_space(core[0]),
        !white_space(core.last()),
    ensures
        trim(before + core + after) == core,
{
    let s = before + core + after;
    let n = before.len() as int;
    let m = core.len() as int;
    assert forall|k: int| 0 <= k < n implies white_space(#[trigger] s[k]) by {
        assert(s[k] == before[k]);
    }
    assert(s[n] == core[0]);
    lemma_trim_start_at(s, n);
    let t = s.skip(n);
    assert(t =~= core + after);
    assert forall|k: int| m <= k < t.len() implies white_space(#[trigger] t[k]) by {
        assert(t[k] == after[k - m]);
    }
    assert(t[m - 1] == core.last());
    lemma_trim_end_at(t, m);
    assert(t.take(m) =~= core);
}

/// Trimming keeps a first character that is no white space.
pub proof fn lemma_trim_keeps_first(s: Seq<char>)
    requires
        s.len() > 0,
        !white_space(s[0]),
    ensures
        trim(s).len() > 0,
        trim(s)[0] == s[0],
    decreases s.len(),
{
    assert(trim_start(s) == s);
    if white_space(s.last()) {
        lemma_trim_keeps_first(s.drop_last());
        assert(trim_start(s.drop_last()) == s.drop_last());
    }
}

// ─── Laws ────────────────────────────────────────────────────────────────────

/// The white space, character by character.
pub proof fn law_white_space(c: char)
    ensures
        white_space(c) <==> {
            ||| c == '\t' || c == '\n' || c == '\u{b}' || c == '\u{c}' || c == '\r' || c == ' '
            ||| c == '\u{85}' || c == '\u{a0}' || c == '\u{1680}'
            ||| c == '\u{2000}' || c == '\u{2001}' || c == '\u{2002}' || c == '\u{2003}'
            ||| c == '\u{2004}' || c == '\u{2005}' || c == '\u{2006}' || c == '\u{2007}'
            ||| c == '\u{2008}' || c == '\u{2009}' || c == '\u{200a}'
            ||| c == '\u{2028}' || c == '\u{2029}' || c == '\u{202f}' || c == '\u{205f}'
            ||| c == '\u{3000}'
        },
{
}

proof fn lemma_trim_start_parts(s: Seq<char>) -> (i: int)
    ensures
        0 <= i <= s.len(),
        forall|k: int| 0 <= k < i ==> white_space(#[trigger] s[k]),
        i == s.len() || !white_space(s[i]),
        trim_start(s) == s.skip(i),
    decreases s.len(),
{
    if s.len() > 0 && white_space(s[0]) {
        let t = s.drop_first();
        let i = lemma_trim_start_parts(t);
        assert forall|k: int| 0 <= k < i + 1 implies white_space(#[trigger] s[k]) by {
            if k > 0 {
                assert(s[k] == t[k - 1]);
            }
        }
        assert(t.skip(i) =~= s.skip(i + 1));
        i + 1
    } else {
        assert(s.skip(0) =~= s);
        0
    }
}

proof fn lemma_trim_end_parts(s: Seq<char>) -> (j: int)
    ensures
        0 <= j <= s.len(),
        forall|k: int| j <= k < s.len() ==> white_space(#[trigger] s[k]),
        j == 0 || !white_space(s[j - 1]),
        trim_end(s) == s.take(j),
    decreases s.len(),
{
    if s.len() > 0 && white_space(s.last()) {
        let t = s.drop_last();
        let j = lemma_trim_end_parts(t);
        assert forall|k: int| j <= k < s.len() implies white_space(#[trigger] s[k]) by {
            if k < t.len() {
                assert(s[k] == t[k]);
            }
        }
        assert(t.take(j) =~= s.take(j));
        j
    } else {
        assert(s.take(s.len() as int) =~= s);
        s.len() as int
    }
}

/// Trimming takes away white space at both ends, all of it and nothing else.
pub proof fn law_trim(s: Seq<char>)
    ensures
        exists|before: Seq<char>, after: Seq<char>|
            blank(before) && blank(after) && s == #[trigger] (before + trim(s) + after),
        trim(s).len() > 0 ==> !white_space(trim(s)[0]) && !white_space(trim(s).last()),
        trim(trim(s)) == trim(s),
{
    let i = lemma_trim_start_parts(s);
    let t = s.skip(i);
    let j = lemma_trim_end_parts(t);
    let before = s.take(i);
    let after = t.skip(j);
    assert(s =~= before + trim(s) + after);
    assert(blank(before));
    assert forall|k: int| 0 <= k < after.len() implies white_space(#[trigger] after[k]) by {
        assert(after[k] == t[k + j]);
    }
    if trim(s).len() > 0 {
        assert(trim(s)[0] == s[i]);
        assert(trim(s).last() == t[j - 1]);
        lemma_trim_same(trim(s));
    }
}

/// Taking a character away from the end takes away all that stand there, nothing else,
/// and nothing further inside.
pub proof fn law_trim_end_matches(s: Seq<char>, c: char)
    ensures
        ({
            let t = trim_end_matches(s, c);
            &&& t.len() <= s.len()
            &&& s.take(t.len() as int) == t
            &&& forall|i: int| t.len() <= i < s.len() ==> #[trigger] s[i] == c
            &&& t.len() > 0 ==> t.last() != c
        }),
    decreases s.len(),
{
    if s.len() > 0 && s.last() == c {
        let d = s.drop_last();
        law_trim_end_matches(d, c);
        let t = trim_end_matches(s, c);
        assert(s.take(t.len() as int) =~= d.take(t.len() as int));
        assert forall|i: int| t.len() <= i < s.len() implies #[trigger] s[i] == c by {
            if i < d.len() {
                assert(s[i] == d[i]);
            }
        }
    } else {
        assert(s.take(s.len() as int) =~= s);
    }
}

/// The lines of a text are those of its parts: what stands before the first line feed is
/// a line, what follows is taken on its own, and a line feed at the end begins no line.
pub proof fn law_lines(first: Seq<char>, rest: Seq<char>)
    requires
        free_of(first, '\n'),
    ensures
        lines(first + "\n"@ + rest) == seq![strip_cr(first)] + lines(rest),
        first.len() > 0 ==> lines(first) == seq![first],
        lines(Seq::empty()).len() == 0,
{
    reveal_strlit("\n");
    let s = first + "\n"@ + rest;
    let n = first.len() as int;
    assert forall|i: int| 0 <= i < n implies #[trigger] s[i] != '\n' by {
        assert(s[i] == first[i]);
    }
    lemma_position_is(s, '\n', n);
    assert(s.take(n) =~= first);
    assert(s.skip(n + 1) =~= rest);
    lemma_position(first, '\n');
    if position(first, '\n') < first.len() {
        assert(first[position(first, '\n') as int] == '\n');
    }
}

/// One carriage return is part of the end of a line, and nothing else is.
pub proof fn law_strip_cr(s: Seq<char>)
    ensures
        strip_cr(s + "\r"@) == s,
        !(s.len() > 0 && s.last() == '\r') ==> strip_cr(s) == s,
{
    reveal_strlit("\r");
    assert((s + "\r"@).drop_last() =~= s);
}

/// Lines behind lines, and a single line.
pub proof fn law_unlines(a: Seq<Seq<char>>, b: Seq<Seq<char>>, line: Seq<char>)
    ensures
        unlines(a + b) == unlines(a) + unlines(b),
        unlines(seq![line]) == line + "\n"@,
        unlines(Seq::empty()).len() == 0,
    decreases a.len(),
{
    reveal_strlit("\n");
    reveal_with_fuel(unlines, 2);
    assert(seq![line].drop_first() =~= Seq::<Seq<char>>::empty());
    assert(unlines(seq![line]) =~= line + "\n"@);
    if a.len() == 0 {
        assert(a + b =~= b);
        assert(unlines(a + b) =~= unlines(a) + unlines(b));
    } else {
        law_unlines(a.drop_first(), b, line);
        assert((a + b).drop_first() =~= a.drop_first() + b);
        assert((a + b)[0] == a[0]);
        assert(unlines(a + b) =~= unlines(a) + unlines(b));
    }
}

/// Parts behind parts have one separator between them, and a single part has none.
pub proof fn law_join(a: Seq<Seq<char>>, b: Seq<Seq<char>>, part: Seq<char>, sep: Seq<char>)
    requires
        a.len() > 0,
        b.len() > 0,
    ensures
        join(a + b, sep) == join(a, sep) + sep + join(b, sep),
        join(seq![part], sep) == part,
        join(Seq::empty(), sep).len() == 0,
    decreases b.len(),
{
    assert((a + b).drop_last() =~= a + b.drop_last());
    assert((a + b).last() == b.last());
    if b.len() == 1 {
        assert(a + b.drop_last() =~= a);
        assert(join(a + b, sep) =~= join(a, sep) + sep + join(b, sep));
    } else {
        law_join(a, b.drop_last(), part, sep);
        assert(join(a + b, sep) =~= join(a, sep) + sep + join(b, sep));
    }
}

/// A path is that of the directory, one slash and the name, whether or not a slash
/// stands at the end of the directory's path. Different names have different paths.
pub proof fn law_path_join(dir: Seq<char>, name: Seq<char>, other: Seq<char>)
    ensures
        path_join(dir + "/"@, name) == dir + "/"@ + name,
        dir.len() > 0 && dir.last() != '/' ==> path_join(dir, name) == dir + "/"@ + name,
        path_join(Seq::empty(), name) == name,
        path_join(dir, name) == path_join(dir, other) ==> name == other,
{
    reveal_strlit("/");
    assert((dir + "/"@).last() == '/');
    assert(path_join(Seq::empty(), name) =~= name);
    let n = path_join(dir, Seq::empty()).len() as int;
    assert(path_join(dir, name).skip(n) =~= name);
    assert(path_join(dir, other).skip(n) =~= other);
}

/// Two characters are the same but for the case of ASCII letters if they are the same or
/// are the small and the capital form of one letter.
pub proof fn law_ascii_case(c: char, d: char)
    ensures
        ascii_lower(c) == ascii_lower(d) <==> {
            ||| c == d
            ||| 'a' <= c <= 'z' && d as int == c as int - 32
            ||| 'a' <= d <= 'z' && c as int == d as int - 32
        },
        'A' <= c <= 'Z' ==> ascii_lower(c) as int == c as int + 32,
{
}

/// Only texts of one length are the same but for case, and they are so if they are so
/// at every place.
pub proof fn law_eq_ignore_ascii_case(a: Seq<char>, b: Seq<char>)
    ensures
        eq_ignore_ascii_case(a, a),
        eq_ignore_ascii_case(a, b) ==> eq_ignore_ascii_case(b, a) && a.len() == b.len(),
        eq_ignore_ascii_case(a, b) <==> a.len() == b.len() && forall|i: int|
            0 <= i < a.len() ==> ascii_lower(#[trigger] a[i]) == ascii_lower(b[i]),
{
    if eq_ignore_ascii_case(a, b) {
        assert forall|i: int| 0 <= i < b.len() implies ascii_lower(#[trigger] b[i]) == ascii_lower(
            a[i],
        ) by {
            assert(ascii_lower(a[i]) == ascii_lower(b[i]));
        }
    }
}

/// The contents of a list of strings are those of the strings, in order.
pub proof fn law_texts(v: Seq<String>, i: int)
    requires
        0 <= i < v.len(),
    ensures
        texts(v).len() == v.len(),
        texts(v)[i] == v[i]@,
{
}

/// A number is written with a minus sign exactly if it is negative, and apart from it a
/// number and its negative are written alike.
pub proof fn law_signed_decimal(n: nat)
    ensures
        signed_decimal(n as int) == decimal(n),
        n > 0 ==> signed_decimal(-(n as int)) == "-"@ + decimal(n),
{
    reveal_strlit("-");
    assert("-"@ =~= seq!['-']);
}

/// Nothing stands in front of the first digit of a number but for zero itself.
pub proof fn law_decimal_has_no_leading_zero(n: nat)
    requires
        n > 0,
    ensures
        decimal(n).len() > 0,
        decimal(n)[0] != '0',
    decreases n,
{
    if n >= 10 {
        law_decimal_has_no_leading_zero(n / 10);
    }
}

/// A text begins with what it was begun with, ends with what it was ended with, and holds
/// what it was put together from.
pub proof fn law_parts_are_found(before: Seq<char>, part: Seq<char>, after: Seq<char>)
    ensures
        starts_with(part + after, part),
        ends_with(before + part, part),
        contains(before + part + after, part),
{
    assert((part + after).take(part.len() as int) =~= part);
    assert((before + part).skip(before.len() as int) =~= part);
    let all = before + part + after;
    let n = before.len() as int;
    assert(all.subrange(n, n + part.len()) =~= part);
    assert(occurs_at(all, part, n));
}

proof fn lemma_decimal_digits(n: nat)
    ensures
        decimal(n).len() > 0,
        forall|i: int| 0 <= i < decimal(n).len() ==> '0' <= #[trigger] decimal(n)[i] <= '9',
    decreases n,
{
    if n >= 10 {
        lemma_decimal_digits(n / 10);
    }
}

proof fn lemma_decimal_is_injective(a: nat, b: nat)
    requires
        decimal(a) == decimal(b),
    ensures
        a == b,
    decreases a,
{
    lemma_decimal_digits(a / 10);
    lemma_decimal_digits(b / 10);
    assert(decimal(a).last() == digit(a % 10));
    assert(decimal(b).last() == digit(b % 10));
    assert(a % 10 == b % 10);
    if a >= 10 && b >= 10 {
        assert(decimal(a).drop_last() =~= decimal(a / 10));
        assert(decimal(b).drop_last() =~= decimal(b / 10));
        lemma_decimal_is_injective(a / 10, b / 10);
    } else if a >= 10 {
        assert(decimal(a).len() >= 2);
        assert(decimal(b).len() == 1);
    } else if b >= 10 {
        assert(decimal(b).len() >= 2);
        assert(decimal(a).len() == 1);
    }
}

/// Different numbers are written differently.
pub proof fn law_signed_decimal_is_injective(a: int, b: int)
    requires
        signed_decimal(a) == signed_decimal(b),
    ensures
        a == b,
{
    if a >= 0 {
        lemma_decimal_digits(a as nat);
    }
    if b >= 0 {
        lemma_decimal_digits(b as nat);
    }
    if a < 0 {
        assert(signed_decimal(a)[0] == '-');
        assert(signed_decimal(a).skip(1) =~= decimal((-a) as nat));
    }
    if b < 0 {
        assert(signed_decimal(b)[0] == '-');
        assert(signed_decimal(b).skip(1) =~= decimal((-b) as nat));
    }
    if a < 0 && b < 0 {
        lemma_decimal_is_injective((-a) as nat, (-b) as nat);
    } else if a >= 0 && b >= 0 {
        lemma_decimal_is_injective(a as nat, b as nat);
    } else if a >= 0 {
        assert('0' <= decimal(a as nat)[0]);
    } else {
        assert('0' <= decimal(b as nat)[0]);
    }
}

/// A number is written with digits and a minus sign only.
pub proof fn lemma_signed_decimal_chars(n: int)
    ensures
        signed_decimal(n).len() > 0,
        forall|i: int|
            0 <= i < signed_decimal(n).len() ==> #[trigger] signed_decimal(n)[i] == '-' || '0'
                <= signed_decimal(n)[i] <= '9',
{
    let t = signed_decimal(n);
    if n < 0 {
        let d = decimal((-n) as nat);
        lemma_decimal_digits((-n) as nat);
        assert forall|i: int| 0 <= i < t.len() implies #[trigger] t[i] == '-' || '0' <= t[i]
            <= '9' by {
            if i > 0 {
                assert(t[i] == d[i - 1]);
            }
        }
    } else {
        lemma_decimal_digits(n as nat);
    }
}

/// A text holds another one exactly if it is that one with something before and behind
/// it, and begins or ends with it exactly if there is nothing before or behind.
pub proof fn law_what_is_found_is_there(s: Seq<char>, p: Seq<char>)
    ensures
        contains(s, p) <==> exists|a: Seq<char>, b: Seq<char>| s == #[trigger] (a + p + b),
        starts_with(s, p) <==> exists|b: Seq<char>| s == #[trigger] (p + b),
        ends_with(s, p) <==> exists|a: Seq<char>| s == #[trigger] (a + p),
{
    if contains(s, p) {
        let i = choose|i: int| occurs_at(s, p, i);
        assert(s =~= s.take(i) + p + s.skip(i + p.len()));
    }
    if starts_with(s, p) {
        assert(s =~= p + s.skip(p.len() as int));
    }
    if ends_with(s, p) {
        assert(s =~= s.take(s.len() - p.len()) + p);
    }
    assert forall|a: Seq<char>, b: Seq<char>| s == #[trigger] (a + p + b) implies contains(
        s,
        p,
    ) by {
        law_parts_are_found(a, p, b);
    }
    assert forall|b: Seq<char>| s == #[trigger] (p + b) implies starts_with(s, p) by {
        law_parts_are_found(b, p, b);
    }
    assert forall|a: Seq<char>| s == #[trigger] (a + p) implies ends_with(s, p) by {
        law_parts_are_found(a, p, a);
    }
}

} // verus!
