//! What a reader finds in a JSON text.
//!
//! The texts that this program writes are read by others. Here stands what they find:
//! the reader follows the grammar of JSON, as far as strings, objects and plain values
//! such as `null`, `false` and numbers go, and takes no white space between them.
use crate::json;
use crate::text;
use vstd::prelude::*;
use vstd::string::*;

verus! {

/// A value in a JSON text.
pub enum JsonValue {
    /// A string, without its quotes and escapes.
    Str(Seq<char>),
    /// A value that is neither string nor object, as it is written.
    Plain(Seq<char>),
    /// An object: its members, in order.
    Object(Seq<(Seq<char>, JsonValue)>),
}

/// The value of a hexadecimal digit.
pub open spec fn hex_value(c: char) -> Option<nat> {
    if '0' <= c && c <= '9' {
        Some((c as nat - '0' as nat) as nat)
    } else if 'a' <= c && c <= 'f' {
        Some((c as nat - 'a' as nat + 10) as nat)
    } else if 'A' <= c && c <= 'F' {
        Some((c as nat - 'A' as nat + 10) as nat)
    } else {
        None
    }
}

/// The character that four hexadecimal digits stand for.
pub open spec fn read_code(a: char, b: char, c: char, d: char) -> Option<char> {
    match (hex_value(a), hex_value(b), hex_value(c), hex_value(d)) {
        (Some(h), Some(i), Some(j), Some(k)) => {
            let code = 4096 * h + 256 * i + 16 * j + k;
            if 0xd800 <= code <= 0xdfff {
                None
            } else {
                Some(code as char)
            }
        },
        _ => None,
    }
}

/// The character that an escape stands for, and how long the escape is.
pub open spec fn read_escape(s: Seq<char>) -> Option<(char, int)> {
    if s.len() < 2 {
        None
    } else if s[1] == '"' || s[1] == '\\' || s[1] == '/' {
        Some((s[1], 2))
    } else if s[1] == 'b' {
        Some(('\u{8}', 2))
    } else if s[1] == 'f' {
        Some(('\u{c}', 2))
    } else if s[1] == 'n' {
        Some(('\n', 2))
    } else if s[1] == 'r' {
        Some(('\r', 2))
    } else if s[1] == 't' {
        Some(('\t', 2))
    } else if s[1] == 'u' && s.len() >= 6 {
        match read_code(s[2], s[3], s[4], s[5]) {
            Some(c) => Some((c, 6)),
            None => None,
        }
    } else {
        None
    }
}

/// The first character of what stands in a string, and how long it is written.
pub open spec fn read_char(s: Seq<char>) -> Option<(char, int)> {
    if s.len() == 0 || ' ' > s[0] {
        None
    } else if s[0] == '\\' {
        read_escape(s)
    } else {
        Some((s[0], 1))
    }
}

/// The characters up to the closing quote, and what follows it.
pub open spec fn read_chars(s: Seq<char>) -> Option<(Seq<char>, Seq<char>)>
    decreases s.len(),
{
    if s.len() == 0 {
        None
    } else if s[0] == '"' {
        Some((Seq::empty(), s.skip(1)))
    } else {
        match read_char(s) {
            Some((c, n)) => if 1 <= n <= s.len() {
                match read_chars(s.skip(n)) {
                    Some((t, rest)) => Some((seq![c] + t, rest)),
                    None => None,
                }
            } else {
                None
            },
            None => None,
        }
    }
}

/// The string at the beginning, and what follows it.
pub open spec fn read_string(s: Seq<char>) -> Option<(Seq<char>, Seq<char>)> {
    if s.len() > 0 && s[0] == '"' {
        read_chars(s.skip(1))
    } else {
        None
    }
}

/// How long the plain value at the beginning is.
pub open spec fn plain_len(s: Seq<char>) -> nat
    decreases s.len(),
{
    if s.len() == 0 || s[0] == ',' || s[0] == '}' {
        0
    } else {
        1 + plain_len(s.drop_first())
    }
}

/// The value at the beginning, and what follows it.
pub open spec fn read_value(s: Seq<char>) -> Option<(JsonValue, Seq<char>)>
    decreases s.len(),
{
    if s.len() == 0 {
        None
    } else if s[0] == '"' {
        match read_string(s) {
            Some((t, rest)) => Some((JsonValue::Str(t), rest)),
            None => None,
        }
    } else if s[0] == '{' {
        match read_members(s.skip(1)) {
            Some((members, rest)) => Some((JsonValue::Object(members), rest)),
            None => None,
        }
    } else if plain_len(s) > 0 {
        Some((JsonValue::Plain(s.take(plain_len(s) as int)), s.skip(plain_len(s) as int)))
    } else {
        None
    }
}

/// The members up to the closing brace, and what follows it.
pub open spec fn read_members(s: Seq<char>) -> Option<(
    Seq<(Seq<char>, JsonValue)>,
    Seq<char>,
)>
    decreases s.len(),
{
    match read_string(s) {
        Some((key, after_key)) => if 0 < after_key.len() < s.len() && after_key[0] == ':' {
            match read_value(after_key.skip(1)) {
                Some((value, after)) => if 0 < after.len() < s.len() && after[0] == ',' {
                    match read_members(after.skip(1)) {
                        Some((members, rest)) => Some((seq![(key, value)] + members, rest)),
                        None => None,
                    }
                } else if after.len() > 0 && after[0] == '}' {
                    Some((seq![(key, value)], after.skip(1)))
                } else {
                    None
                },
                None => None,
            }
        } else {
            None
        },
        None => None,
    }
}

/// The members of the object that a text is, if it is one and nothing else.
pub open spec fn read_object(s: Seq<char>) -> Option<Seq<(Seq<char>, JsonValue)>> {
    match read_value(s) {
        Some((JsonValue::Object(members), rest)) => if rest.len() == 0 {
            Some(members)
        } else {
            None
        },
        _ => None,
    }
}

/// The value of the first member with the given key.
pub open spec fn lookup(members: Seq<(Seq<char>, JsonValue)>, key: Seq<char>) -> Option<JsonValue>
    decreases members.len(),
{
    if members.len() == 0 {
        None
    } else if members[0].0 == key {
        Some(members[0].1)
    } else {
        lookup(members.drop_first(), key)
    }
}

/// The string that a member holds.
pub open spec fn lookup_str(members: Seq<(Seq<char>, JsonValue)>, key: Seq<char>) -> Option<
    Seq<char>,
> {
    match lookup(members, key) {
        Some(JsonValue::Str(t)) => Some(t),
        _ => None,
    }
}

/// A member is not there, or is `null`.
pub open spec fn is_absent(members: Seq<(Seq<char>, JsonValue)>, key: Seq<char>) -> bool {
    match lookup(members, key) {
        None => true,
        Some(JsonValue::Plain(t)) => t == "null"@,
        _ => false,
    }
}

// ─── What the reader finds in what is written ────────────────────────────────

proof fn lemma_read_char(c: char, rest: Seq<char>)
    ensures
        read_char(json::escaped_char(c) + rest) == Some((c, json::escaped_char(c).len() as int)),
{
    let s = json::escaped_char(c) + rest;
    assert(s[0] == json::escaped_char(c)[0]);
    if json::escaped_char(c).len() > 1 {
        assert(s[1] == json::escaped_char(c)[1]);
        if json::escaped_char(c).len() > 2 {
            assert(s[2] == '0');
            assert(s[3] == '0');
            assert(s[4] == json::escaped_char(c)[4]);
            assert(s[5] == json::escaped_char(c)[5]);
            lemma_hex_digit(c as nat / 16);
            lemma_hex_digit(c as nat % 16);
        }
    }
}

proof fn lemma_hex_digit(d: nat)
    requires
        d < 16,
    ensures
        hex_value(json::hex_digit(d)) == Some(d),
        hex_value('0') == Some(0nat),
{
}

proof fn lemma_escaped_is_no_quote(c: char)
    ensures
        json::escaped_char(c).len() > 0,
        json::escaped_char(c)[0] != '"',
{
}

proof fn lemma_read_chars(t: Seq<char>, rest: Seq<char>)
    ensures
        read_chars(json::escaped(t) + seq!['"'] + rest) == Some((t, rest)),
    decreases t.len(),
{
    let s = json::escaped(t) + seq!['"'] + rest;
    if t.len() == 0 {
        assert(s[0] == '"');
        assert(s.skip(1) =~= rest);
        assert(t =~= Seq::<char>::empty());
    } else {
        let first = json::escaped_char(t[0]);
        let tail = json::escaped(t.drop_first()) + seq!['"'] + rest;
        assert(s =~= first + tail);
        lemma_escaped_is_no_quote(t[0]);
        assert(s[0] == first[0]);
        lemma_read_char(t[0], tail);
        assert(s.skip(first.len() as int) =~= tail);
        lemma_read_chars(t.drop_first(), rest);
        assert(seq![t[0]] + t.drop_first() =~= t);
    }
}

/// A string is read as it was written.
pub proof fn lemma_read_json_text(t: Seq<char>, rest: Seq<char>)
    ensures
        read_string(json::json_text(t) + rest) == Some((t, rest)),
        read_value(json::json_text(t) + rest) == Some((JsonValue::Str(t), rest)),
{
    let s = json::json_text(t) + rest;
    assert(s[0] == '"');
    assert(s.skip(1) =~= json::escaped(t) + seq!['"'] + rest);
    lemma_read_chars(t, rest);
}

/// A text that needs no escapes.
pub open spec fn plain_key(key: Seq<char>) -> bool {
    forall|i: int|
        0 <= i < key.len() ==> #[trigger] key[i] != '"' && key[i] != '\\' && !(' ' > key[i])
}

proof fn lemma_escaped_char_same(c: char)
    requires
        c != '"',
        c != '\\',
        !(' ' > c),
    ensures
        json::escaped_char(c) == seq![c],
{
}

proof fn lemma_escaped_same(key: Seq<char>)
    requires
        plain_key(key),
    ensures
        json::escaped(key) == key,
    decreases key.len(),
{
    if key.len() > 0 {
        let tail = key.drop_first();
        assert forall|i: int| 0 <= i < tail.len() implies #[trigger] tail[i] != '"' && tail[i]
            != '\\' && !(' ' > tail[i]) by {
            assert(tail[i] == key[i + 1]);
        }
        lemma_escaped_same(tail);
        lemma_escaped_char_same(key[0]);
        assert(seq![key[0]] + tail =~= key);
    } else {
        assert(json::escaped(key) =~= key);
    }
}

/// A key between quotes is read as it stands.
pub proof fn lemma_read_key(key: Seq<char>, rest: Seq<char>)
    requires
        plain_key(key),
    ensures
        read_string("\""@ + key + "\""@ + rest) == Some((key, rest)),
        json::json_text(key) == "\""@ + key + "\""@,
{
    reveal_strlit("\"");
    assert("\""@ =~= seq!['"']);
    lemma_escaped_same(key);
    lemma_read_json_text(key, rest);
    assert(json::json_text(key) =~= "\""@ + key + "\""@);
}

/// What follows a value in an object.
pub open spec fn stops(rest: Seq<char>) -> bool {
    rest.len() > 0 && (rest[0] == ',' || rest[0] == '}')
}

/// The text is read as the value, wherever it stands in an object.
pub open spec fn reads_as(t: Seq<char>, value: JsonValue) -> bool {
    forall|rest: Seq<char>|
        stops(rest) ==> #[trigger] read_value(t + rest) == Some((value, rest))
}

/// A string that is written in quotes.
pub proof fn lemma_reads_as_str(t: Seq<char>)
    ensures
        reads_as(json::json_text(t), JsonValue::Str(t)),
{
    assert forall|rest: Seq<char>| stops(rest) implies #[trigger] read_value(
        json::json_text(t) + rest,
    ) == Some((JsonValue::Str(t), rest)) by {
        lemma_read_json_text(t, rest);
    }
}

proof fn lemma_plain_len(t: Seq<char>, rest: Seq<char>)
    requires
        forall|i: int| 0 <= i < t.len() ==> #[trigger] t[i] != ',' && t[i] != '}',
        stops(rest),
    ensures
        plain_len(t + rest) == t.len(),
    decreases t.len(),
{
    let s = t + rest;
    if t.len() > 0 {
        let tail = t.drop_first();
        assert forall|i: int| 0 <= i < tail.len() implies #[trigger] tail[i] != ',' && tail[i]
            != '}' by {
            assert(tail[i] == t[i + 1]);
        }
        lemma_plain_len(tail, rest);
        assert(s[0] == t[0]);
        assert(s.drop_first() =~= tail + rest);
    } else {
        assert(s =~= rest);
    }
}

/// A value that is neither string nor object.
pub proof fn lemma_reads_as_plain(t: Seq<char>)
    requires
        t.len() > 0,
        t[0] != '"',
        t[0] != '{',
        forall|i: int| 0 <= i < t.len() ==> #[trigger] t[i] != ',' && t[i] != '}',
    ensures
        reads_as(t, JsonValue::Plain(t)),
{
    assert forall|rest: Seq<char>| stops(rest) implies #[trigger] read_value(t + rest) == Some(
        (JsonValue::Plain(t), rest),
    ) by {
        let s = t + rest;
        lemma_plain_len(t, rest);
        assert(s[0] == t[0]);
        assert(s.take(t.len() as int) =~= t);
        assert(s.skip(t.len() as int) =~= rest);
    }
}

/// A string that may be absent.
pub proof fn lemma_reads_as_opt(t: Option<Seq<char>>)
    ensures
        reads_as(
            json::json_opt_text(t),
            match t {
                Some(u) => JsonValue::Str(u),
                None => JsonValue::Plain("null"@),
            },
        ),
{
    match t {
        Some(u) => lemma_reads_as_str(u),
        None => {
            reveal_strlit("null");
            lemma_reads_as_plain("null"@);
        },
    }
}

/// A member of an object: its key, how its value is written and what that value is.
pub struct Field {
    pub key: Seq<char>,
    pub text: Seq<char>,
    pub value: JsonValue,
}

impl Field {
    /// The member is read as it is meant.
    pub open spec fn valid(self) -> bool {
        plain_key(self.key) && reads_as(self.text, self.value)
    }
}

/// How the members are written.
pub open spec fn field_texts(fields: Seq<Field>) -> Seq<Seq<char>> {
    fields.map_values(|f: Field| json::member_text(f.key, f.text))
}

/// What the members are.
pub open spec fn field_values(fields: Seq<Field>) -> Seq<(Seq<char>, JsonValue)> {
    fields.map_values(|f: Field| (f.key, f.value))
}

/// The first of several parts stands in front of the others.
pub proof fn lemma_join_front(parts: Seq<Seq<char>>, sep: Seq<char>)
    requires
        parts.len() > 1,
    ensures
        text::join(parts, sep) == parts[0] + sep + text::join(parts.drop_first(), sep),
    decreases parts.len(),
{
    let tail = parts.drop_first();
    let init = parts.drop_last();
    if parts.len() == 2 {
        assert(text::join(init, sep) == parts[0]);
        assert(text::join(tail, sep) == parts[1]);
    } else {
        lemma_join_front(init, sep);
        assert(init.drop_first() =~= tail.drop_last());
        assert(init[0] == parts[0]);
        assert(tail.last() == parts.last());
        assert(text::join(parts, sep) =~= parts[0] + sep + text::join(tail, sep));
    }
}

proof fn lemma_read_member(f: Field, after: Seq<char>)
    requires
        f.valid(),
        stops(after),
    ensures
        ({
            let s = json::member_text(f.key, f.text) + after;
            let after_key = ":"@ + f.text + after;
            &&& read_string(s) == Some((f.key, after_key))
            &&& 0 < after_key.len() < s.len()
            &&& after_key[0] == ':'
            &&& read_value(after_key.skip(1)) == Some((f.value, after))
            &&& after.len() < s.len()
        }),
{
    let s = json::member_text(f.key, f.text) + after;
    let after_key = ":"@ + f.text + after;
    reveal_strlit("\"");
    reveal_strlit("\":");
    reveal_strlit(":");
    assert(s =~= "\""@ + f.key + "\""@ + after_key);
    lemma_read_key(f.key, after_key);
    assert(after_key.skip(1) =~= f.text + after);
}

proof fn lemma_read_fields(fields: Seq<Field>, rest: Seq<char>)
    requires
        fields.len() > 0,
        forall|i: int| 0 <= i < fields.len() ==> (#[trigger] fields[i]).valid(),
    ensures
        read_members(text::join(field_texts(fields), ","@) + "}"@ + rest) == Some(
            (field_values(fields), rest),
        ),
    decreases fields.len(),
{
    let parts = field_texts(fields);
    let f = fields[0];
    let s = text::join(parts, ","@) + "}"@ + rest;
    reveal_strlit(",");
    reveal_strlit("}");
    assert(f.valid());
    assert(parts[0] == json::member_text(f.key, f.text));
    if fields.len() == 1 {
        let after = "}"@ + rest;
        assert(s =~= parts[0] + after);
        lemma_read_member(f, after);
        assert(after.skip(1) =~= rest);
        assert(field_values(fields) =~= seq![(f.key, f.value)]);
    } else {
        let others = fields.drop_first();
        let next = text::join(field_texts(others), ","@) + "}"@ + rest;
        let after = ","@ + next;
        lemma_join_front(parts, ","@);
        assert(parts.drop_first() =~= field_texts(others));
        assert(s =~= parts[0] + after);
        lemma_read_member(f, after);
        assert(after.skip(1) =~= next);
        assert forall|i: int| 0 <= i < others.len() implies (#[trigger] others[i]).valid() by {
            assert(others[i] == fields[i + 1]);
        }
        lemma_read_fields(others, rest);
        assert(field_values(fields) =~= seq![(f.key, f.value)] + field_values(others));
    }
}

/// The members of an object are read as they were written: all of them, in order.
pub proof fn lemma_read_object(fields: Seq<Field>)
    requires
        fields.len() > 0,
        forall|i: int| 0 <= i < fields.len() ==> (#[trigger] fields[i]).valid(),
    ensures
        read_object(json::object_text(field_texts(fields))) == Some(field_values(fields)),
        reads_as(
            json::object_text(field_texts(fields)),
            JsonValue::Object(field_values(fields)),
        ),
{
    let t = json::object_text(field_texts(fields));
    reveal_strlit("{");
    reveal_strlit("}");
    assert forall|rest: Seq<char>| #[trigger] read_value(t + rest) == Some(
        (JsonValue::Object(field_values(fields)), rest),
    ) by {
        let s = t + rest;
        lemma_read_fields(fields, rest);
        assert(s[0] == '{');
        assert(s.skip(1) =~= text::join(field_texts(fields), ","@) + "}"@ + rest);
    }
    let none = Seq::<char>::empty();
    assert(t + none =~= t);
    assert(read_value(t + none) == Some((JsonValue::Object(field_values(fields)), none)));
}

/// A string whose text is given with its quotes.
pub proof fn lemma_reads_as_quoted(quoted: Seq<char>, t: Seq<char>)
    requires
        plain_key(t),
        quoted == "\""@ + t + "\""@,
    ensures
        reads_as(quoted, JsonValue::Str(t)),
{
    lemma_read_key(t, Seq::empty());
    lemma_reads_as_str(t);
}

// ─── Laws ────────────────────────────────────────────────────────────────────

/// Every string is found again in its JSON text, whatever characters it holds and whatever
/// follows the text.
pub proof fn law_string_is_read_back(t: Seq<char>, rest: Seq<char>)
    ensures
        read_string(json::json_text(t) + rest) == Some((t, rest)),
{
    lemma_read_json_text(t, rest);
}

/// A string that may be absent is found again, and is absent if it was.
pub proof fn law_optional_string_is_read_back(t: Option<Seq<char>>, rest: Seq<char>)
    requires
        stops(rest),
    ensures
        t matches Some(u) ==> read_value(json::json_opt_text(t) + rest) == Some(
            (JsonValue::Str(u), rest),
        ),
        t is None ==> read_value(json::json_opt_text(t) + rest) == Some(
            (JsonValue::Plain("null"@), rest),
        ),
{
    lemma_reads_as_opt(t);
}

/// All members of an object are found again under their keys, in order.
pub proof fn law_object_is_read_back(fields: Seq<Field>)
    requires
        fields.len() > 0,
        forall|i: int| 0 <= i < fields.len() ==> (#[trigger] fields[i]).valid(),
    ensures
        read_object(json::object_text(field_texts(fields))) matches Some(members) && members.len()
            == fields.len() && forall|i: int|
            0 <= i < fields.len() ==> #[trigger] members[i] == (fields[i].key, fields[i].value),
{
    lemma_read_object(fields);
}

/// A string without quotes, backslashes and control characters is written as it is,
/// between quotes.
pub proof fn law_plain_string_is_written_as_it_is(t: Seq<char>)
    requires
        forall|i: int|
            0 <= i < t.len() ==> #[trigger] t[i] != '"' && t[i] != '\\' && !(' ' > t[i]),
    ensures
        json::json_text(t) == "\""@ + t + "\""@,
{
    assert(plain_key(t));
    lemma_read_key(t, Seq::empty());
}

} // verus!
