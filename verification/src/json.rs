//! JSON texts of strings and objects.
use crate::strings;
use crate::text;
use vstd::prelude::*;
use vstd::string::*;

verus! {

/// A hexadecimal digit, with letters in lower case.
pub open spec fn hex_digit(d: nat) -> char {
    if d < 10 {
        ('0' as u32 + d) as char
    } else {
        ('a' as u32 + (d - 10)) as char
    }
}

/// How a character is written in a JSON string.
pub open spec fn escaped_char(c: char) -> Seq<char> {
    if c == '"' {
        seq!['\\', '"']
    } else if c == '\\' {
        seq!['\\', '\\']
    } else if c == '\u{8}' {
        seq!['\\', 'b']
    } else if c == '\t' {
        seq!['\\', 't']
    } else if c == '\n' {
        seq!['\\', 'n']
    } else if c == '\u{c}' {
        seq!['\\', 'f']
    } else if c == '\r' {
        seq!['\\', 'r']
    } else if ' ' > c {
        seq!['\\', 'u', '0', '0', hex_digit(c as nat / 16), hex_digit(c as nat % 16)]
    } else {
        seq![c]
    }
}

/// How characters are written in a JSON string.
pub open spec fn escaped(s: Seq<char>) -> Seq<char>
    decreases s.len(),
{
    if s.len() == 0 {
        Seq::empty()
    } else {
        escaped_char(s[0]) + escaped(s.drop_first())
    }
}

/// The JSON text of a string.
pub open spec fn json_text(s: Seq<char>) -> Seq<char> {
    seq!['"'] + escaped(s) + seq!['"']
}

/// `serde_json::to_string` on a string: the characters between double quotes. Double
/// quotes, backslashes and the control characters below the space are escaped: those
/// that JSON has a letter for with that letter, the others by their number in
/// hexadecimal digits. All other characters are written as they are. Writing a string
/// to memory does not fail.
#[verifier::external_body]
pub(crate) fn json_string(s: &str) -> (res: String)
    ensures
        res@ == json_text(s@),
{
    serde_json::to_string(s).expect("a string has a JSON text")
}

/// The JSON text of a string that may be absent.
pub open spec fn json_opt_text(s: Option<Seq<char>>) -> Seq<char> {
    match s {
        Some(t) => json_text(t),
        None => "null"@,
    }
}

/// The JSON text of a member of an object, from that of its value.
pub open spec fn member_text(key: Seq<char>, value: Seq<char>) -> Seq<char> {
    "\""@ + key + "\":"@ + value
}

/// The JSON text of an object, from those of its members.
pub open spec fn object_text(members: Seq<Seq<char>>) -> Seq<char> {
    "{"@ + text::join(members, ","@) + "}"@
}

/// A JSON object that is put together member by member.
#[derive(Debug)]
pub struct JsonObject {
    pub members: Vec<String>,
}

impl View for JsonObject {
    type V = Seq<Seq<char>>;

    open spec fn view(&self) -> Seq<Seq<char>> {
        text::texts(self.members@)
    }
}

impl JsonObject {
    /// An object without members.
    pub fn new() -> (res: JsonObject)
        ensures
            res@ == Seq::<Seq<char>>::empty(),
    {
        let res = JsonObject { members: Vec::new() };
        assert(res@ =~= Seq::<Seq<char>>::empty());
        res
    }

    /// The object with one more member. The value is a JSON text.
    pub fn with(self, key: &str, value: &str) -> (res: JsonObject)
        ensures
            res@ == self@.push(member_text(key@, value@)),
    {
        let mut member = "\"".to_owned();
        member.append(key);
        member.append("\":");
        member.append(value);
        let mut members = self.members;
        members.push(member);
        let res = JsonObject { members };
        assert(res@ =~= self@.push(member_text(key@, value@)));
        res
    }

    /// The object with one more member, whose value is a string.
    pub fn with_str(self, key: &str, value: &str) -> (res: JsonObject)
        ensures
            res@ == self@.push(member_text(key@, json_text(value@))),
    {
        let quoted = json_string(value);
        self.with(key, quoted.as_str())
    }

    /// The object with one more member, whose value is a string that may be absent.
    pub fn with_opt(self, key: &str, value: Option<&str>) -> (res: JsonObject)
        ensures
            res@ == self@.push(member_text(key@, json_opt_text(text::opt_text(value)))),
    {
        match value {
            Some(s) => self.with_str(key, s),
            None => self.with(key, "null"),
        }
    }

    /// The JSON text of the object.
    pub fn text(&self) -> (res: String)
        ensures
            res@ == object_text(self@),
    {
        let mut out = "{".to_owned();
        out.append(strings::join(&self.members, ",").as_str());
        out.append("}");
        out
    }
}

proof fn lemma_escaped_char_is_line(c: char)
    ensures
        text::free_of(escaped_char(c), '\n'),
{
}

proof fn lemma_escaped_is_line(s: Seq<char>)
    ensures
        text::free_of(escaped(s), '\n'),
    decreases s.len(),
{
    if s.len() > 0 {
        lemma_escaped_is_line(s.drop_first());
        lemma_escaped_char_is_line(s[0]);
        lemma_free_of_both(escaped_char(s[0]), escaped(s.drop_first()), '\n');
    }
}

/// The JSON text of a string is one line.
pub proof fn lemma_json_text_is_line(s: Seq<char>)
    ensures
        text::free_of(json_text(s), '\n'),
{
    lemma_escaped_is_line(s);
    lemma_free_of_both(seq!['"'], escaped(s), '\n');
    lemma_free_of_both(seq!['"'] + escaped(s), seq!['"'], '\n');
}

/// The JSON text of a string that may be absent is one line.
pub proof fn lemma_json_opt_text_is_line(s: Option<Seq<char>>)
    ensures
        text::free_of(json_opt_text(s), '\n'),
{
    match s {
        Some(t) => lemma_json_text_is_line(t),
        None => reveal_strlit("null"),
    }
}

/// Two texts without `c`, one behind the other.
proof fn lemma_free_of_both(a: Seq<char>, b: Seq<char>, c: char)
    requires
        text::free_of(a, c),
        text::free_of(b, c),
    ensures
        text::free_of(a + b, c),
{
    assert forall|i: int| 0 <= i < (a + b).len() implies #[trigger] (a + b)[i] != c by {
        if i < a.len() {
            assert((a + b)[i] == a[i]);
        } else {
            assert((a + b)[i] == b[i - a.len()]);
        }
    }
}

/// The JSON text of a member is one line if those of its parts are.
pub proof fn lemma_member_is_line(key: Seq<char>, value: Seq<char>)
    requires
        text::free_of(key, '\n'),
        text::free_of(value, '\n'),
    ensures
        text::free_of(member_text(key, value), '\n'),
{
    reveal_strlit("\"");
    reveal_strlit("\":");
    lemma_free_of_both("\""@, key, '\n');
    lemma_free_of_both("\""@ + key, "\":"@, '\n');
    lemma_free_of_both("\""@ + key + "\":"@, value, '\n');
}

proof fn lemma_join_is_line(parts: Seq<Seq<char>>)
    requires
        forall|i: int| 0 <= i < parts.len() ==> text::free_of(#[trigger] parts[i], '\n'),
    ensures
        text::free_of(text::join(parts, ","@), '\n'),
    decreases parts.len(),
{
    reveal_strlit(",");
    if parts.len() > 1 {
        let init = parts.drop_last();
        assert forall|i: int| 0 <= i < init.len() implies text::free_of(
            #[trigger] init[i],
            '\n',
        ) by {
            assert(init[i] == parts[i]);
        }
        lemma_join_is_line(init);
        lemma_free_of_both(text::join(init, ","@), ","@, '\n');
        lemma_free_of_both(text::join(init, ","@) + ","@, parts.last(), '\n');
    }
}

/// The JSON text of an object whose members hold no line feed is one line, and ends
/// with a brace.
pub proof fn lemma_object_is_line(members: Seq<Seq<char>>)
    requires
        forall|i: int| 0 <= i < members.len() ==> text::free_of(#[trigger] members[i], '\n'),
    ensures
        text::free_of(object_text(members), '\n'),
        object_text(members).len() > 0 && object_text(members).last() == '}',
{
    reveal_strlit("{");
    reveal_strlit("}");
    lemma_join_is_line(members);
    lemma_free_of_both("{"@, text::join(members, ","@), '\n');
    lemma_free_of_both("{"@ + text::join(members, ","@), "}"@, '\n');
}

// ─── Laws ────────────────────────────────────────────────────────────────────

proof fn lemma_escaped_char_is_prefix_free(a: char, b: char, p: Seq<char>, q: Seq<char>)
    requires
        escaped_char(a) + p == escaped_char(b) + q,
    ensures
        a == b,
        p == q,
{
    let s = escaped_char(a) + p;
    let t = escaped_char(b) + q;
    assert(s[0] == escaped_char(a)[0]);
    assert(t[0] == escaped_char(b)[0]);
    if escaped_char(a).len() > 1 && escaped_char(b).len() > 1 {
        assert(s[1] == escaped_char(a)[1]);
        assert(t[1] == escaped_char(b)[1]);
        if escaped_char(a).len() > 2 && escaped_char(b).len() > 2 {
            assert(s[4] == escaped_char(a)[4]);
            assert(t[4] == escaped_char(b)[4]);
            assert(s[5] == escaped_char(a)[5]);
            assert(t[5] == escaped_char(b)[5]);
        }
    }
    assert(a == b);
    let n = escaped_char(a).len() as int;
    assert(p =~= s.skip(n));
    assert(q =~= t.skip(n));
}

proof fn lemma_escaped_is_injective(a: Seq<char>, b: Seq<char>)
    requires
        escaped(a) == escaped(b),
    ensures
        a == b,
    decreases a.len(),
{
    if a.len() > 0 && b.len() > 0 {
        lemma_escaped_char_is_prefix_free(
            a[0],
            b[0],
            escaped(a.drop_first()),
            escaped(b.drop_first()),
        );
        lemma_escaped_is_injective(a.drop_first(), b.drop_first());
        assert(a =~= seq![a[0]] + a.drop_first());
        assert(b =~= seq![b[0]] + b.drop_first());
    } else {
        assert(a.len() == 0 && b.len() == 0) by {
            if a.len() > 0 {
                assert(escaped(a).len() > 0);
            }
            if b.len() > 0 {
                assert(escaped(b).len() > 0);
            }
        }
        assert(a =~= b);
    }
}

/// A JSON text stands for one string: different strings have different texts.
pub proof fn law_json_text_is_injective(a: Seq<char>, b: Seq<char>)
    requires
        json_text(a) == json_text(b),
    ensures
        a == b,
{
    assert(json_text(a).len() == escaped(a).len() + 2);
    assert(json_text(b).len() == escaped(b).len() + 2);
    assert(escaped(a) =~= json_text(a).subrange(1, json_text(a).len() - 1));
    assert(escaped(b) =~= json_text(b).subrange(1, json_text(b).len() - 1));
    lemma_escaped_is_injective(a, b);
}

} // verus!
