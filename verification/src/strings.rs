//! Text operations on strings. Their meaning is defined in [`crate::text`].
use crate::text;
use vstd::prelude::*;
use vstd::string::*;

verus! {

/// `String::push` appends one character at the end of the string.
pub assume_specification[ String::push ](s: &mut String, c: char)
    ensures
        final(s)@ == old(s)@.push(c),
;

/// The characters of `s`, in order.
pub fn to_chars(s: &str) -> (res: Vec<char>)
    ensures
        res@ == s@,
{
    let mut res: Vec<char> = Vec::new();
    for c in it: s.chars()
        invariant
            res@ == it.seq().take(it.index() as int),
            it.seq() == s@,
    {
        res.push(c);
        assert(it.seq().take(it.index() as int + 1) =~= it.seq().take(it.index() as int).push(c));
    }
    assert(res@ =~= s@);
    res
}

/// The string made of the characters from position `from` up to `to`.
pub fn from_chars(v: &Vec<char>, from: usize, to: usize) -> (res: String)
    requires
        from <= to <= v.len(),
    ensures
        res@ == v@.subrange(from as int, to as int),
{
    let mut res = String::new();
    let mut i: usize = from;
    while i < to
        invariant
            from <= i <= to <= v.len(),
            res@ == v@.subrange(from as int, i as int),
        decreases to - i,
    {
        res.push(v[i]);
        i = i + 1;
        assert(v@.subrange(from as int, i as int) =~= v@.subrange(from as int, i - 1).push(
            v@[i - 1],
        ));
    }
    res
}

/// Whether the two texts are the same.
pub fn same(a: &str, b: &str) -> (res: bool)
    ensures
        res == (a@ == b@),
{
    a.to_owned() == b.to_owned()
}

/// Whether `c` has the Unicode property `White_Space`.
pub fn is_whitespace(c: char) -> (res: bool)
    ensures
        res == text::white_space(c),
{
    let n: u32 = c as u32;
    (0x09 <= n && n <= 0x0d) || n == 0x20 || n == 0x85 || n == 0xa0 || n == 0x1680 || (0x2000 <= n
        && n <= 0x200a) || n == 0x2028 || n == 0x2029 || n == 0x202f || n == 0x205f || n == 0x3000
}

/// `s` without leading and trailing white space.
pub fn trim(s: &str) -> (res: String)
    ensures
        res@ == text::trim(s@),
{
    let v = to_chars(s);
    let mut i: usize = 0;
    while i < v.len() && is_whitespace(v[i])
        invariant
            i <= v.len(),
            forall|k: int| 0 <= k < i ==> text::white_space(#[trigger] v@[k]),
        decreases v.len() - i,
    {
        i = i + 1;
    }
    let mut j: usize = v.len();
    while i < j && is_whitespace(v[j - 1])
        invariant
            i <= j <= v.len(),
            forall|k: int| j <= k < v.len() ==> text::white_space(#[trigger] v@[k]),
        decreases j,
    {
        j = j - 1;
    }
    proof {
        text::lemma_trim_start_at(v@, i as int);
        let t = v@.skip(i as int);
        assert forall|k: int| j - i <= k < t.len() implies text::white_space(#[trigger] t[k]) by {
            assert(t[k] == v@[k + i]);
        }
        text::lemma_trim_end_at(t, j - i);
        assert(t.take(j - i) =~= v@.subrange(i as int, j as int));
    }
    from_chars(&v, i, j)
}

/// Whether `s` holds nothing but white space.
pub fn is_blank(s: &str) -> (res: bool)
    ensures
        res == text::blank(s@),
{
    let t = trim(s);
    proof {
        text::lemma_trim_blank(s@);
    }
    t.as_str().is_empty()
}

/// `s` without the run of `c` at its end.
pub fn trim_end_matches(s: &str, c: char) -> (res: String)
    ensures
        res@ == text::trim_end_matches(s@, c),
{
    let v = to_chars(s);
    let mut j: usize = v.len();
    assert(v@.take(j as int) =~= v@);
    while 0 < j && v[j - 1] == c
        invariant
            j <= v.len(),
            text::trim_end_matches(v@, c) == text::trim_end_matches(v@.take(j as int), c),
        decreases j,
    {
        assert(v@.take(j as int).drop_last() =~= v@.take(j - 1));
        j = j - 1;
    }
    assert(v@.subrange(0, j as int) =~= v@.take(j as int));
    from_chars(&v, 0, j)
}

/// Whether `p` stands in `v` at position `i`.
fn matches_at(v: &Vec<char>, p: &Vec<char>, i: usize) -> (res: bool)
    requires
        i + p.len() <= v.len(),
    ensures
        res == text::occurs_at(v@, p@, i as int),
{
    let mut k: usize = 0;
    while k < p.len()
        invariant
            k <= p.len(),
            i + p.len() <= v.len(),
            forall|m: int| 0 <= m < k ==> v@[i + m] == #[trigger] p@[m],
        decreases p.len() - k,
    {
        if v[i + k] != p[k] {
            assert(v@.subrange(i as int, i + p.len())[k as int] != p@[k as int]);
            return false;
        }
        k = k + 1;
    }
    assert(v@.subrange(i as int, i + p.len()) =~= p@);
    true
}

/// Whether `s` begins with `p`.
pub fn starts_with(s: &str, p: &str) -> (res: bool)
    ensures
        res == text::starts_with(s@, p@),
{
    let v = to_chars(s);
    let q = to_chars(p);
    assert(q.len() <= v.len() ==> v@.subrange(0, q.len() as int) == v@.take(q.len() as int));
    q.len() <= v.len() && matches_at(&v, &q, 0)
}

/// Whether the last character of `s` is `c`.
pub fn ends_with(s: &str, c: char) -> (res: bool)
    ensures
        res == (s@.len() > 0 && s@.last() == c),
{
    let v = to_chars(s);
    v.len() > 0 && v[v.len() - 1] == c
}

/// Whether `p` stands somewhere in `s`.
pub fn contains(s: &str, p: &str) -> (res: bool)
    ensures
        res == text::contains(s@, p@),
{
    let v = to_chars(s);
    let q = to_chars(p);
    if q.len() > v.len() {
        return false;
    }
    let mut i: usize = 0;
    while i <= v.len() - q.len()
        invariant
            q.len() <= v.len(),
            i <= v.len() - q.len() + 1,
            v@ == s@,
            q@ == p@,
            forall|k: int| 0 <= k < i ==> !text::occurs_at(s@, p@, k),
        decreases v.len() - i,
    {
        if matches_at(&v, &q, i) {
            return true;
        }
        if i == v.len() - q.len() {
            return false;
        }
        i = i + 1;
    }
    false
}

/// The position of the first `c` in `v` from `from` on, or the length of `v`.
pub fn position_from(v: &Vec<char>, c: char, from: usize) -> (res: usize)
    requires
        from <= v.len(),
    ensures
        from <= res <= v.len(),
        res - from == text::position(v@.skip(from as int), c),
{
    let ghost t = v@.skip(from as int);
    let mut i: usize = from;
    while i < v.len() && v[i] != c
        invariant
            from <= i <= v.len(),
            t == v@.skip(from as int),
            forall|k: int| 0 <= k < i - from ==> #[trigger] t[k] != c,
        decreases v.len() - i,
    {
        assert(t[i - from] == v@[i as int]);
        i = i + 1;
    }
    proof {
        if i < v.len() {
            assert(t[i - from] == v@[i as int]);
        }
        text::lemma_position_is(t, c, i - from);
    }
    i
}

/// The lines of `s`, without their line endings.
pub fn lines(s: &str) -> (res: Vec<String>)
    ensures
        text::texts(res@) == text::lines(s@),
{
    let v = to_chars(s);
    let mut res: Vec<String> = Vec::new();
    let mut start: usize = 0;
    assert(v@.skip(0) =~= v@);
    assert(text::texts(res@) =~= Seq::<Seq<char>>::empty());
    assert(text::lines(s@) =~= text::texts(res@) + text::lines(v@.skip(0)));
    while start < v.len()
        invariant
            start <= v.len(),
            v@ == s@,
            text::lines(s@) == text::texts(res@) + text::lines(v@.skip(start as int)),
        decreases v.len() - start,
    {
        let ghost rest = v@.skip(start as int);
        let ghost before = text::texts(res@);
        let end: usize = position_from(&v, '\n', start);
        if end == v.len() {
            res.push(from_chars(&v, start, end));
            proof {
                assert(v@.subrange(start as int, end as int) =~= rest);
                assert(text::texts(res@) =~= before + seq![rest]);
                assert(v@.skip(end as int).len() == 0);
                assert(text::lines(s@) =~= text::texts(res@) + text::lines(v@.skip(end as int)));
            }
            start = end;
        } else {
            let to: usize = if end > start && v[end - 1] == '\r' {
                end - 1
            } else {
                end
            };
            res.push(from_chars(&v, start, to));
            proof {
                let line = rest.take(end - start);
                assert(end > start ==> line.last() == v@[end - 1]);
                assert(v@.subrange(start as int, to as int) =~= text::strip_cr(line));
                assert(text::texts(res@) =~= before + seq![text::strip_cr(line)]);
                assert(rest.skip(end - start + 1) =~= v@.skip(end + 1));
                assert(text::lines(s@) =~= text::texts(res@) + text::lines(v@.skip(end + 1)));
            }
            start = end + 1;
        }
    }
    proof {
        assert(v@.skip(start as int).len() == 0);
        assert(text::lines(s@) =~= text::texts(res@));
    }
    res
}

/// Each line followed by a line feed.
pub fn unlines(parts: &Vec<String>) -> (res: String)
    ensures
        res@ == text::unlines(text::texts(parts@)),
{
    let ghost all = text::texts(parts@);
    let mut res = String::new();
    let mut i: usize = 0;
    while i < parts.len()
        invariant
            i <= parts.len(),
            all == text::texts(parts@),
            res@ == text::unlines(all.take(i as int)),
        decreases parts.len() - i,
    {
        res.append(parts[i].as_str());
        res.push('\n');
        i = i + 1;
        proof {
            text::lemma_unlines_push(all.take(i - 1), all[i - 1]);
            assert(all.take(i as int) =~= all.take(i - 1).push(all[i - 1]));
            assert(res@ =~= text::unlines(all.take(i as int)));
        }
    }
    assert(all.take(i as int) =~= all);
    res
}

/// The parts in order, with `sep` between neighbours.
pub fn join(parts: &Vec<String>, sep: &str) -> (res: String)
    ensures
        res@ == text::join(text::texts(parts@), sep@),
{
    let ghost all = text::texts(parts@);
    if parts.len() == 0 {
        return String::new();
    }
    let mut res = parts[0].clone();
    let mut i: usize = 1;
    assert(all.take(1)[0] == parts@[0]@);
    while i < parts.len()
        invariant
            1 <= i <= parts.len(),
            all == text::texts(parts@),
            res@ == text::join(all.take(i as int), sep@),
        decreases parts.len() - i,
    {
        res.append(sep);
        res.append(parts[i].as_str());
        i = i + 1;
        proof {
            assert(all.take(i as int).drop_last() =~= all.take(i - 1));
            assert(all.take(i as int).last() == parts@[i - 1]@);
        }
    }
    assert(all.take(i as int) =~= all);
    res
}

/// The path of `name`, which is relative, in the directory `dir`.
pub fn path_join(dir: &str, name: &str) -> (res: String)
    ensures
        res@ == text::path_join(dir@, name@),
{
    let mut res = dir.to_owned();
    if !dir.is_empty() && !ends_with(dir, '/') {
        res.append("/");
    }
    res.append(name);
    res
}

/// `n` in decimal.
pub fn decimal(n: u64) -> (res: String)
    ensures
        res@ == text::decimal(n as nat),
    decreases n,
{
    let last: char = digit_char((n % 10) as u8);
    if n < 10 {
        let mut res = String::new();
        res.push(last);
        assert(res@ =~= seq![text::digit(n as nat)]);
        res
    } else {
        let mut res = decimal(n / 10);
        res.push(last);
        res
    }
}

/// The decimal digit `d`.
fn digit_char(d: u8) -> (res: char)
    requires
        d < 10,
    ensures
        res == text::digit(d as nat),
{
    let code: u8 = 48u8 + d;
    code as char
}

/// `i` in decimal, with a minus sign if it is negative.
pub fn signed_decimal(i: i64) -> (res: String)
    ensures
        res@ == text::signed_decimal(i as int),
{
    if i < 0 {
        let mut res = String::new();
        res.push('-');
        let rest = if i == i64::MIN {
            decimal(0x8000_0000_0000_0000)
        } else {
            decimal((-i) as u64)
        };
        res.append(rest.as_str());
        assert(res@ =~= text::signed_decimal(i as int));
        res
    } else {
        decimal(i as u64)
    }
}

/// `c` in lower case if it is an ASCII letter, and unchanged otherwise.
fn ascii_lower(c: char) -> (res: char)
    ensures
        res == text::ascii_lower(c),
{
    if 'A' <= c && c <= 'Z' {
        let code: u8 = c as u8 + 32;
        code as char
    } else {
        c
    }
}

/// Whether the two texts differ at most in the case of ASCII letters.
pub fn eq_ignore_ascii_case(a: &str, b: &str) -> (res: bool)
    ensures
        res == text::eq_ignore_ascii_case(a@, b@),
{
    let v = to_chars(a);
    let w = to_chars(b);
    if v.len() != w.len() {
        return false;
    }
    let mut i: usize = 0;
    while i < v.len()
        invariant
            i <= v.len() == w.len(),
            v@ == a@,
            w@ == b@,
            forall|k: int| 0 <= k < i ==> text::ascii_lower(#[trigger] v@[k]) == text::ascii_lower(w@[k]),
        decreases v.len() - i,
    {
        if ascii_lower(v[i]) != ascii_lower(w[i]) {
            assert(text::ascii_lower(a@[i as int]) != text::ascii_lower(b@[i as int]));
            return false;
        }
        i = i + 1;
    }
    true
}

} // verus!
