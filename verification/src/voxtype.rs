//! The parts of the voxtype configuration file that this program reads and edits.
use crate::strings;
use crate::text;
use vstd::prelude::*;
use vstd::string::*;

verus! {

/// (label, model, language) presets for the speech-to-text language picker.
pub const STT_PRESETS: [(&'static str, &'static str, &'static str); 6] = [
    ("English", "base.en", "en"),
    ("Spanish", "base", "es"),
    ("French", "base", "fr"),
    ("Portuguese", "base", "pt"),
    ("German", "base", "de"),
    ("Italian", "base", "it"),
];

/// The first preset, from number `i` on, with the given model and language, or
/// the number of presets if there is none.
pub open spec fn preset_from(model: Seq<char>, language: Seq<char>, i: nat) -> nat
    decreases 6 - i,
{
    if i >= 6 {
        6
    } else if STT_PRESETS@[i as int].1@ == model && STT_PRESETS@[i as int].2@ == language {
        i
    } else {
        preset_from(model, language, i + 1)
    }
}

/// The label of a model and language: that of their preset, or the language itself.
pub open spec fn stt_label_of(model: Seq<char>, language: Seq<char>) -> Seq<char> {
    let i = preset_from(model, language, 0);
    if i < 6 {
        STT_PRESETS@[i as int].0@
    } else {
        language
    }
}

/// The number of the preset with the given model and language.
pub fn find_preset(model: &str, language: &str) -> (res: Option<usize>)
    ensures
        match res {
            Some(i) => i < 6 && preset_from(model@, language@, 0) == i,
            None => preset_from(model@, language@, 0) == 6,
        },
{
    let mut i: usize = 0;
    while i < 6
        invariant
            i <= 6,
            preset_from(model@, language@, 0) == preset_from(model@, language@, i as nat),
        decreases 6 - i,
    {
        let preset = STT_PRESETS[i];
        if strings::same(preset.1, model) && strings::same(preset.2, language) {
            return Some(i);
        }
        i = i + 1;
    }
    None
}

/// The label of a model and language.
pub fn stt_label(model: &str, language: &str) -> (res: String)
    ensures
        res@ == stt_label_of(model@, language@),
{
    match find_preset(model, language) {
        Some(i) => STT_PRESETS[i].0.to_owned(),
        None => language.to_owned(),
    }
}

// ─── The [whisper] section ───────────────────────────────────────────────────

/// A line that opens a section.
pub open spec fn is_header(line: Seq<char>) -> bool {
    let t = text::trim(line);
    t.len() > 0 && t[0] == '[' && t.last() == ']'
}

/// The line that opens the `[whisper]` section.
pub open spec fn is_whisper(line: Seq<char>) -> bool {
    text::trim(line) == "[whisper]"@
}

/// A line that gives `key` a quoted value.
pub open spec fn sets_key(line: Seq<char>, key: Seq<char>) -> bool {
    text::starts_with(text::trim(line), key + " = \""@)
}

/// What stands between the first two double quotes.
pub open spec fn quoted(t: Seq<char>) -> Option<Seq<char>> {
    let start = text::position(t, '"');
    let rest = t.skip(start as int + 1);
    let end = text::position(rest, '"');
    if start < t.len() && end < rest.len() {
        Some(rest.take(end as int))
    } else {
        None
    }
}

/// The value of the first line that gives `key` one in a `[whisper]` section.
/// `inside` says whether the lines begin in such a section.
pub open spec fn whisper_value(
    lines: Seq<Seq<char>>,
    key: Seq<char>,
    inside: bool,
) -> Option<Seq<char>>
    decreases lines.len(),
{
    if lines.len() == 0 {
        None
    } else if is_header(lines[0]) {
        whisper_value(lines.drop_first(), key, is_whisper(lines[0]))
    } else if inside && sets_key(lines[0], key) && quoted(text::trim(lines[0])) is Some {
        quoted(text::trim(lines[0]))
    } else {
        whisper_value(lines.drop_first(), key, inside)
    }
}

/// The line that gives `key` the value.
pub open spec fn setting(key: Seq<char>, value: Seq<char>) -> Seq<char> {
    key + " = \""@ + value + "\""@
}

/// The settings that a `[whisper]` section still lacks at its end.
pub open spec fn missing_settings(
    model: Seq<char>,
    language: Seq<char>,
    model_set: bool,
    language_set: bool,
) -> Seq<Seq<char>> {
    (if model_set {
        Seq::empty()
    } else {
        seq![setting("model"@, model)]
    }) + (if language_set {
        Seq::<Seq<char>>::empty()
    } else {
        seq![setting("language"@, language)]
    })
}

/// The lines with the model and language settings of their `[whisper]` sections
/// replaced, or added at the end of a section if none was seen so far.
pub open spec fn rewritten(
    lines: Seq<Seq<char>>,
    model: Seq<char>,
    language: Seq<char>,
    inside: bool,
    model_set: bool,
    language_set: bool,
) -> Seq<Seq<char>>
    decreases lines.len(),
{
    let at_end = if inside {
        missing_settings(model, language, model_set, language_set)
    } else {
        Seq::empty()
    };
    if lines.len() == 0 {
        at_end
    } else if is_header(lines[0]) {
        at_end + seq![lines[0]] + rewritten(
            lines.drop_first(),
            model,
            language,
            is_whisper(lines[0]),
            model_set,
            language_set,
        )
    } else if inside && sets_key(lines[0], "model"@) {
        seq![setting("model"@, model)] + rewritten(
            lines.drop_first(),
            model,
            language,
            inside,
            true,
            language_set,
        )
    } else if inside && sets_key(lines[0], "language"@) {
        seq![setting("language"@, language)] + rewritten(
            lines.drop_first(),
            model,
            language,
            inside,
            model_set,
            true,
        )
    } else {
        seq![lines[0]] + rewritten(
            lines.drop_first(),
            model,
            language,
            inside,
            model_set,
            language_set,
        )
    }
}

/// There is a `[whisper]` section.
pub open spec fn has_whisper(lines: Seq<Seq<char>>) -> bool {
    exists|i: int| 0 <= i < lines.len() && is_whisper(#[trigger] lines[i])
}

/// A new `[whisper]` section, set off from the lines before it, if any.
pub open spec fn new_section(
    lines: Seq<Seq<char>>,
    model: Seq<char>,
    language: Seq<char>,
) -> Seq<Seq<char>> {
    (if lines.len() > 0 {
        seq![Seq::<char>::empty()]
    } else {
        Seq::empty()
    }) + seq!["[whisper]"@, setting("model"@, model), setting("language"@, language)]
}

/// The lines of the configuration after the model and language were written.
pub open spec fn written_lines(
    content: Seq<char>,
    model: Seq<char>,
    language: Seq<char>,
) -> Seq<Seq<char>> {
    let body = rewritten(text::lines(content), model, language, false, false, false);
    if has_whisper(body) {
        body
    } else {
        body + new_section(body, model, language)
    }
}

/// The configuration after the model and language were written.
pub open spec fn written(
    content: Seq<char>,
    model: Seq<char>,
    language: Seq<char>,
) -> Seq<char> {
    text::unlines(written_lines(content, model, language))
}

/// What a configuration says of the speech-to-text service: label, model, language.
pub open spec fn stt_config(content: Seq<char>) -> (Seq<char>, Seq<char>, Seq<char>) {
    let lines = text::lines(content);
    let model = match whisper_value(lines, "model"@, false) {
        Some(m) => m,
        None => "base.en"@,
    };
    let language = match whisper_value(lines, "language"@, false) {
        Some(l) => l,
        None => "en"@,
    };
    (stt_label_of(model, language), model, language)
}

/// What is known of the speech-to-text service from its configuration, if that could
/// be read: label, model, language.
pub open spec fn read_config(content: Option<Seq<char>>) -> (Seq<char>, Seq<char>, Seq<char>) {
    match content {
        Some(c) => stt_config(c),
        None => ("Unknown"@, "base.en"@, "en"@),
    }
}

/// Whether the trimmed line `t` opens a section.
fn opens_section(t: &str) -> (res: bool)
    ensures
        res == (t@.len() > 0 && t@[0] == '[' && t@.last() == ']'),
{
    let v = strings::to_chars(t);
    v.len() > 0 && v[0] == '[' && v[v.len() - 1] == ']'
}

/// What stands between the first two double quotes of `t`.
fn quoted_value(t: &str) -> (res: Option<String>)
    ensures
        match res {
            Some(r) => quoted(t@) == Some(r@),
            None => quoted(t@) is None,
        },
{
    let v = strings::to_chars(t);
    let start: usize = strings::position_from(&v, '"', 0);
    assert(v@.skip(0) =~= v@);
    if start == v.len() {
        return None;
    }
    let end: usize = strings::position_from(&v, '"', start + 1);
    if end == v.len() {
        return None;
    }
    assert(v@.subrange(start + 1, end as int) =~= v@.skip(start + 1).take(end - start - 1));
    Some(strings::from_chars(&v, start + 1, end))
}

/// The value that the configuration gives `key` in its `[whisper]` section.
pub fn extract_toml_value_in_whisper(content: &str, key: &str) -> (res: Option<String>)
    ensures
        match res {
            Some(r) => whisper_value(text::lines(content@), key@, false) == Some(r@),
            None => whisper_value(text::lines(content@), key@, false) is None,
        },
{
    let lines = strings::lines(content);
    let ghost all = text::lines(content@);
    let mut prefix = key.to_owned();
    prefix.append(" = \"");
    let mut inside = false;
    let mut i: usize = 0;
    assert(all.skip(0) =~= all);
    while i < lines.len()
        invariant
            i <= lines.len(),
            all == text::texts(lines@),
            all == text::lines(content@),
            prefix@ == key@ + " = \""@,
            whisper_value(all, key@, false) == whisper_value(all.skip(i as int), key@, inside),
        decreases lines.len() - i,
    {
        let ghost rest = all.skip(i as int);
        assert(rest[0] == lines@[i as int]@);
        assert(rest.drop_first() =~= all.skip(i + 1));
        let trimmed = strings::trim(lines[i].as_str());
        if opens_section(trimmed.as_str()) {
            inside = strings::same(trimmed.as_str(), "[whisper]");
        } else if inside && strings::starts_with(trimmed.as_str(), prefix.as_str()) {
            let value = quoted_value(trimmed.as_str());
            if value.is_some() {
                return value;
            }
        }
        i = i + 1;
    }
    assert(all.skip(i as int).len() == 0);
    None
}

/// Reads the label, model and language of the speech-to-text service. `content`
/// is the configuration, or `None` if it could not be read.
pub fn read_voxtype_stt_config(content: Option<&str>) -> (res: (String, String, String))
    ensures
        (res.0@, res.1@, res.2@) == match content {
            Some(c) => stt_config(c@),
            None => ("Unknown"@, "base.en"@, "en"@),
        },
        (res.0@, res.1@, res.2@) == read_config(text::opt_text(content)),
{
    match content {
        None => ("Unknown".to_owned(), "base.en".to_owned(), "en".to_owned()),
        Some(c) => {
            let model = match extract_toml_value_in_whisper(c, "model") {
                Some(m) => m,
                None => "base.en".to_owned(),
            };
            let language = match extract_toml_value_in_whisper(c, "language") {
                Some(l) => l,
                None => "en".to_owned(),
            };
            let label = stt_label(model.as_str(), language.as_str());
            (label, model, language)
        },
    }
}

/// The line that gives `key` the value.
fn setting_line(key: &str, value: &str) -> (res: String)
    ensures
        res@ == setting(key@, value@),
{
    let mut res = key.to_owned();
    res.append(" = \"");
    res.append(value);
    res.append("\"");
    res
}

/// Adds the settings that a `[whisper]` section still lacks at its end.
fn push_missing(
    out: &mut Vec<String>,
    model: &str,
    language: &str,
    model_set: bool,
    language_set: bool,
)
    ensures
        text::texts(final(out)@) == text::texts(old(out)@) + missing_settings(
            model@,
            language@,
            model_set,
            language_set,
        ),
{
    if !model_set {
        out.push(setting_line("model", model));
    }
    if !language_set {
        out.push(setting_line("language", language));
    }
    assert(text::texts(out@) =~= text::texts(old(out)@) + missing_settings(
        model@,
        language@,
        model_set,
        language_set,
    ));
}

/// Whether there is a `[whisper]` section.
fn find_whisper(lines: &Vec<String>) -> (res: bool)
    ensures
        res == has_whisper(text::texts(lines@)),
{
    let ghost all = text::texts(lines@);
    let mut i: usize = 0;
    while i < lines.len()
        invariant
            i <= lines.len(),
            all == text::texts(lines@),
            forall|k: int| 0 <= k < i ==> !is_whisper(#[trigger] all[k]),
        decreases lines.len() - i,
    {
        let trimmed = strings::trim(lines[i].as_str());
        if strings::same(trimmed.as_str(), "[whisper]") {
            assert(is_whisper(all[i as int]));
            return true;
        }
        i = i + 1;
    }
    false
}

/// Writes the model and language into the `[whisper]` section of the
/// configuration, and adds the section if there is none.
pub fn write_voxtype_stt_config(content: &str, model: &str, language: &str) -> (res: String)
    ensures
        res@ == written(content@, model@, language@),
{
    let lines = strings::lines(content);
    let ghost all = text::lines(content@);
    let ghost goal = rewritten(all, model@, language@, false, false, false);
    let mut out: Vec<String> = Vec::new();
    let mut inside = false;
    let mut model_set = false;
    let mut language_set = false;
    let mut i: usize = 0;
    assert(all.skip(0) =~= all);
    assert(goal =~= text::texts(out@) + goal);
    while i < lines.len()
        invariant
            i <= lines.len(),
            all == text::texts(lines@),
            goal == text::texts(out@) + rewritten(
                all.skip(i as int),
                model@,
                language@,
                inside,
                model_set,
                language_set,
            ),
        decreases lines.len() - i,
    {
        let ghost rest = all.skip(i as int);
        let ghost before = text::texts(out@);
        let ghost was_inside = inside;
        assert(rest[0] == lines@[i as int]@);
        assert(rest.drop_first() =~= all.skip(i + 1));
        let trimmed = strings::trim(lines[i].as_str());
        if opens_section(trimmed.as_str()) {
            if inside {
                push_missing(&mut out, model, language, model_set, language_set);
            }
            inside = strings::same(trimmed.as_str(), "[whisper]");
            let ghost partial = text::texts(out@);
            out.push(lines[i].clone());
            assert(text::texts(out@) =~= partial + seq![rest[0]]);
        } else if inside && strings::starts_with(trimmed.as_str(), "model = \"") {
            out.push(setting_line("model", model));
            model_set = true;
            assert(text::texts(out@) =~= before + seq![setting("model"@, model@)]);
        } else if inside && strings::starts_with(trimmed.as_str(), "language = \"") {
            out.push(setting_line("language", language));
            language_set = true;
            assert(text::texts(out@) =~= before + seq![setting("language"@, language@)]);
        } else {
            out.push(lines[i].clone());
            assert(text::texts(out@) =~= before + seq![rest[0]]);
        }
        i = i + 1;
        proof {
            lemma_key_prefixes();
            assert(goal =~= text::texts(out@) + rewritten(
                all.skip(i as int),
                model@,
                language@,
                inside,
                model_set,
                language_set,
            ));
        }
    }
    assert(all.skip(i as int).len() == 0);
    if inside {
        push_missing(&mut out, model, language, model_set, language_set);
    }
    assert(goal =~= text::texts(out@));
    if !find_whisper(&out) {
        let ghost body = text::texts(out@);
        if out.len() > 0 {
            out.push(String::new());
        }
        out.push("[whisper]".to_owned());
        out.push(setting_line("model", model));
        out.push(setting_line("language", language));
        assert(text::texts(out@) =~= body + new_section(body, model@, language@));
    }
    strings::unlines(&out)
}

/// How the two settings begin.
proof fn lemma_key_prefixes()
    ensures
        "model"@ + " = \""@ == "model = \""@,
        "language"@ + " = \""@ == "language = \""@,
{
    reveal_strlit("model");
    reveal_strlit("language");
    reveal_strlit(" = \"");
    reveal_strlit("model = \"");
    reveal_strlit("language = \"");
    assert("model"@ + " = \""@ =~= "model = \""@);
    assert("language"@ + " = \""@ =~= "language = \""@);
}

// ─── Laws of the [whisper] section ───────────────────────────────────────────

/// What the lines that this program writes look like to a reader.
proof fn lemma_setting(value: Seq<char>)
    ensures
        !is_header(setting("model"@, value)),
        !is_header(setting("language"@, value)),
        sets_key(setting("model"@, value), "model"@),
        sets_key(setting("language"@, value), "language"@),
        !sets_key(setting("model"@, value), "language"@),
        !sets_key(setting("language"@, value), "model"@),
        text::free_of(value, '"') ==> quoted(text::trim(setting("model"@, value))) == Some(value),
        text::free_of(value, '"') ==> quoted(text::trim(setting("language"@, value))) == Some(
            value,
        ),
        text::free_of(value, '\n') ==> text::free_of(setting("model"@, value), '\n'),
        text::free_of(value, '\n') ==> text::free_of(setting("language"@, value), '\n'),
{
    reveal_strlit("model");
    reveal_strlit("language");
    lemma_setting_of("model"@, value, "language"@);
    lemma_setting_of("language"@, value, "model"@);
}

/// A line that gives `key` a value, character by character.
proof fn lemma_setting_text(key: Seq<char>, value: Seq<char>)
    ensures
        setting(key, value) == key + seq![' ', '=', ' '] + seq!['"'] + value + seq!['"'],
        key + " = \""@ == key + seq![' ', '=', ' '] + seq!['"'],
{
    reveal_strlit(" = \"");
    reveal_strlit("\"");
    assert(" = \""@ =~= seq![' ', '=', ' ', '"']);
    assert("\""@ =~= seq!['"']);
    assert(key + " = \""@ =~= key + seq![' ', '=', ' '] + seq!['"']);
}

/// What a line that gives `key` a value looks like to a reader.
proof fn lemma_setting_of(key: Seq<char>, value: Seq<char>, other: Seq<char>)
    requires
        key.len() > 0,
        other.len() > 0,
        key[0] != other[0],
        key[0] != '[',
        !text::white_space(key[0]),
        text::free_of(key, '"'),
        text::free_of(key, '\n'),
    ensures
        !is_header(setting(key, value)),
        sets_key(setting(key, value), key),
        !sets_key(setting(key, value), other),
        text::free_of(value, '"') ==> quoted(text::trim(setting(key, value))) == Some(value),
        text::free_of(value, '\n') ==> text::free_of(setting(key, value), '\n'),
{
    lemma_setting_text(key, value);
    lemma_setting_keys(key, value, other);
    if text::free_of(value, '"') {
        let before = key + seq![' ', '=', ' '];
        assert(text::free_of(before, '"')) by {
            assert forall|i: int| 0 <= i < before.len() implies #[trigger] before[i] != '"' by {
                if i < key.len() {
                    assert(before[i] == key[i]);
                }
            }
        }
        lemma_quoted(before, value);
    }
    if text::free_of(value, '\n') {
        lemma_setting_newline(key, value);
    }
}

/// A line that gives `key` a value is trimmed, and sets no other key.
proof fn lemma_setting_keys(key: Seq<char>, value: Seq<char>, other: Seq<char>)
    requires
        key.len() > 0,
        other.len() > 0,
        key[0] != other[0],
        key[0] != '[',
        !text::white_space(key[0]),
    ensures
        text::trim(setting(key, value)) == setting(key, value),
        !is_header(setting(key, value)),
        sets_key(setting(key, value), key),
        !sets_key(setting(key, value), other),
{
    let line = setting(key, value);
    let prefix = key + " = \""@;
    let other_prefix = other + " = \""@;
    lemma_setting_text(key, value);
    assert(line[0] == key[0]);
    assert(line.last() == '"');
    text::lemma_trim_same(line);
    assert(line.take(prefix.len() as int) =~= prefix);
    if text::starts_with(line, other_prefix) {
        assert(line.take(other_prefix.len() as int)[0] == line[0]);
        assert(other_prefix[0] == other[0]);
    }
}

/// A line that gives `key` a value without a line feed is one line.
proof fn lemma_setting_newline(key: Seq<char>, value: Seq<char>)
    requires
        text::free_of(key, '\n'),
        text::free_of(value, '\n'),
    ensures
        text::free_of(setting(key, value), '\n'),
{
    let line = setting(key, value);
    let n = key.len() as int + 4;
    lemma_setting_text(key, value);
    assert forall|i: int| 0 <= i < line.len() implies #[trigger] line[i] != '\n' by {
        if i < key.len() {
            assert(line[i] == key[i]);
        } else if n <= i < n + value.len() {
            assert(line[i] == value[i - n]);
        }
    }
}

/// The quoted value of a text with just one pair of quotes.
proof fn lemma_quoted(before: Seq<char>, value: Seq<char>)
    requires
        text::free_of(before, '"'),
        text::free_of(value, '"'),
    ensures
        quoted(before + seq!['"'] + value + seq!['"']) == Some(value),
{
    let t = before + seq!['"'] + value + seq!['"'];
    let n = before.len() as int;
    assert forall|i: int| 0 <= i < n implies #[trigger] t[i] != '"' by {
        assert(t[i] == before[i]);
    }
    text::lemma_position_is(t, '"', n);
    let rest = t.skip(n + 1);
    assert(rest =~= value + seq!['"']);
    assert forall|i: int| 0 <= i < value.len() implies #[trigger] rest[i] != '"' by {
        assert(rest[i] == value[i]);
    }
    text::lemma_position_is(rest, '"', value.len() as int);
    assert(rest.take(value.len() as int) =~= value);
}

/// Reading looks at trimmed lines only.
proof fn lemma_value_ignores_cr(lines: Seq<Seq<char>>, key: Seq<char>, inside: bool)
    ensures
        whisper_value(lines.map_values(|line: Seq<char>| text::strip_cr(line)), key, inside)
            == whisper_value(lines, key, inside),
    decreases lines.len(),
{
    let f = |line: Seq<char>| text::strip_cr(line);
    let stripped = lines.map_values(f);
    if lines.len() > 0 {
        text::lemma_trim_strip_cr(lines[0]);
        assert(stripped.drop_first() =~= lines.drop_first().map_values(f));
        assert(stripped[0] == text::strip_cr(lines[0]));
        lemma_value_ignores_cr(lines.drop_first(), key, inside);
        lemma_value_ignores_cr(lines.drop_first(), key, is_whisper(lines[0]));
    }
}

/// Lines before the first `[whisper]` section give no value.
proof fn lemma_value_after(before: Seq<Seq<char>>, after: Seq<Seq<char>>, key: Seq<char>)
    requires
        !has_whisper(before),
    ensures
        whisper_value(before + after, key, false) == whisper_value(after, key, false),
    decreases before.len(),
{
    if before.len() > 0 {
        let rest = before.drop_first();
        assert(!is_whisper(before[0]));
        assert forall|i: int| 0 <= i < rest.len() implies !is_whisper(#[trigger] rest[i]) by {
            assert(rest[i] == before[i + 1]);
        }
        lemma_value_after(rest, after, key);
        assert((before + after).drop_first() =~= rest + after);
        assert((before + after)[0] == before[0]);
    } else {
        assert(before + after =~= after);
    }
}

/// The value found in lines that begin with one that gives it.
proof fn lemma_value_first(first: Seq<char>, rest: Seq<Seq<char>>, key: Seq<char>, inside: bool)
    ensures
        !is_header(first) && inside && sets_key(first, key) && quoted(text::trim(first)) is Some
            ==> whisper_value(seq![first] + rest, key, inside) == quoted(text::trim(first)),
        is_header(first) ==> whisper_value(seq![first] + rest, key, inside) == whisper_value(
            rest,
            key,
            is_whisper(first),
        ),
        !is_header(first) && !(inside && sets_key(first, key)) ==> whisper_value(
            seq![first] + rest,
            key,
            inside,
        ) == whisper_value(rest, key, inside),
{
    let all = seq![first] + rest;
    assert(all[0] == first);
    assert(all.drop_first() =~= rest);
}

/// The first `[whisper]` section of rewritten lines gives the new values.
proof fn lemma_rewritten_value(
    lines: Seq<Seq<char>>,
    model: Seq<char>,
    language: Seq<char>,
    inside: bool,
    model_set: bool,
    language_set: bool,
)
    requires
        text::free_of(model, '"'),
        text::free_of(language, '"'),
        inside || has_whisper(lines),
    ensures
        !model_set ==> whisper_value(
            rewritten(lines, model, language, inside, model_set, language_set),
            "model"@,
            inside,
        ) == Some(model),
        !language_set ==> whisper_value(
            rewritten(lines, model, language, inside, model_set, language_set),
            "language"@,
            inside,
        ) == Some(language),
    decreases lines.len(),
{
    lemma_setting(model);
    lemma_setting(language);
    let m = setting("model"@, model);
    let l = setting("language"@, language);
    let missing = missing_settings(model, language, model_set, language_set);
    let out = rewritten(lines, model, language, inside, model_set, language_set);
    if lines.len() == 0 {
        lemma_missing_value(Seq::empty(), model, language, model_set, language_set);
        assert(missing + Seq::<Seq<char>>::empty() =~= missing);
    } else {
        let rest = lines.drop_first();
        let next = is_whisper(lines[0]);
        if is_header(lines[0]) {
            let tail = rewritten(rest, model, language, next, model_set, language_set);
            if inside {
                let after = seq![lines[0]] + tail;
                lemma_missing_value(after, model, language, model_set, language_set);
                assert(out =~= missing + after);
            } else {
                lemma_whisper_in_rest(lines);
                lemma_rewritten_value(rest, model, language, next, model_set, language_set);
                lemma_value_first(lines[0], tail, "model"@, inside);
                lemma_value_first(lines[0], tail, "language"@, inside);
                assert(out =~= seq![lines[0]] + tail);
            }
        } else {
            assert(!is_whisper(lines[0])) by {
                reveal_strlit("[whisper]");
            }
            if !inside {
                lemma_whisper_in_rest(lines);
            }
            if inside && sets_key(lines[0], "model"@) {
                let tail = rewritten(rest, model, language, inside, true, language_set);
                lemma_rewritten_value(rest, model, language, inside, true, language_set);
                lemma_value_first(m, tail, "model"@, inside);
                lemma_value_first(m, tail, "language"@, inside);
            } else if inside && sets_key(lines[0], "language"@) {
                let tail = rewritten(rest, model, language, inside, model_set, true);
                lemma_rewritten_value(rest, model, language, inside, model_set, true);
                lemma_value_first(l, tail, "model"@, inside);
                lemma_value_first(l, tail, "language"@, inside);
            } else {
                let tail = rewritten(rest, model, language, inside, model_set, language_set);
                lemma_rewritten_value(rest, model, language, inside, model_set, language_set);
                lemma_value_first(lines[0], tail, "model"@, inside);
                lemma_value_first(lines[0], tail, "language"@, inside);
            }
        }
    }
}

/// A `[whisper]` line is the first line or stands in the rest.
proof fn lemma_whisper_in_rest(lines: Seq<Seq<char>>)
    requires
        lines.len() > 0,
        has_whisper(lines),
    ensures
        is_whisper(lines[0]) || has_whisper(lines.drop_first()),
{
    let i = choose|i: int| 0 <= i < lines.len() && is_whisper(#[trigger] lines[i]);
    if i > 0 {
        assert(lines.drop_first()[i - 1] == lines[i]);
    }
}

/// The settings added at the end of a section give the new values.
proof fn lemma_missing_value(
    after: Seq<Seq<char>>,
    model: Seq<char>,
    language: Seq<char>,
    model_set: bool,
    language_set: bool,
)
    requires
        text::free_of(model, '"'),
        text::free_of(language, '"'),
    ensures
        !model_set ==> whisper_value(
            missing_settings(model, language, model_set, language_set) + after,
            "model"@,
            true,
        ) == Some(model),
        !language_set ==> whisper_value(
            missing_settings(model, language, model_set, language_set) + after,
            "language"@,
            true,
        ) == Some(language),
{
    lemma_setting(model);
    lemma_setting(language);
    let m = setting("model"@, model);
    let l = setting("language"@, language);
    let all = missing_settings(model, language, model_set, language_set) + after;
    let second = if language_set {
        after
    } else {
        seq![l] + after
    };
    if !model_set {
        assert(all =~= seq![m] + second);
        lemma_value_first(m, second, "model"@, true);
        lemma_value_first(m, second, "language"@, true);
    } else {
        assert(all =~= second);
    }
    if !language_set {
        lemma_value_first(l, after, "language"@, true);
    }
}

/// Rewriting adds no line feed to a line.
proof fn lemma_rewritten_are_lines(
    lines: Seq<Seq<char>>,
    model: Seq<char>,
    language: Seq<char>,
    inside: bool,
    model_set: bool,
    language_set: bool,
)
    requires
        text::free_of(model, '\n'),
        text::free_of(language, '\n'),
        forall|i: int| 0 <= i < lines.len() ==> text::free_of(#[trigger] lines[i], '\n'),
    ensures
        ({
            let out = rewritten(lines, model, language, inside, model_set, language_set);
            forall|i: int| 0 <= i < out.len() ==> text::free_of(#[trigger] out[i], '\n')
        }),
    decreases lines.len(),
{
    lemma_setting(model);
    lemma_setting(language);
    if lines.len() > 0 {
        let rest = lines.drop_first();
        assert forall|i: int| 0 <= i < rest.len() implies text::free_of(#[trigger] rest[i], '\n') by {
            assert(rest[i] == lines[i + 1]);
        }
        assert(text::free_of(lines[0], '\n'));
        let next = is_whisper(lines[0]);
        lemma_rewritten_are_lines(rest, model, language, next, model_set, language_set);
        lemma_rewritten_are_lines(rest, model, language, inside, true, language_set);
        lemma_rewritten_are_lines(rest, model, language, inside, model_set, true);
        lemma_rewritten_are_lines(rest, model, language, inside, model_set, language_set);
        let out = rewritten(lines, model, language, inside, model_set, language_set);
        let missing = missing_settings(model, language, model_set, language_set);
        assert forall|i: int| 0 <= i < out.len() implies text::free_of(#[trigger] out[i], '\n') by {
            if is_header(lines[0]) {
                let tail = rewritten(rest, model, language, next, model_set, language_set);
                let n = if inside {
                    missing.len() as int
                } else {
                    0
                };
                if i > n {
                    assert(out[i] == tail[i - n - 1]);
                }
            } else if i > 0 {
                if inside && sets_key(lines[0], "model"@) {
                    let tail = rewritten(rest, model, language, inside, true, language_set);
                    assert(out[i] == tail[i - 1]);
                } else if inside && sets_key(lines[0], "language"@) {
                    let tail = rewritten(rest, model, language, inside, model_set, true);
                    assert(out[i] == tail[i - 1]);
                } else {
                    let tail = rewritten(rest, model, language, inside, model_set, language_set);
                    assert(out[i] == tail[i - 1]);
                }
            }
        }
    }
}

/// Rewriting leaves out no `[whisper]` line and adds none.
proof fn lemma_rewritten_whisper(
    lines: Seq<Seq<char>>,
    model: Seq<char>,
    language: Seq<char>,
    inside: bool,
    model_set: bool,
    language_set: bool,
)
    ensures
        has_whisper(rewritten(lines, model, language, inside, model_set, language_set))
            == has_whisper(lines),
    decreases lines.len(),
{
    lemma_setting(model);
    lemma_setting(language);
    reveal_strlit("[whisper]");
    let out = rewritten(lines, model, language, inside, model_set, language_set);
    let m = setting("model"@, model);
    let l = setting("language"@, language);
    assert(!is_whisper(m));
    assert(!is_whisper(l));
    if lines.len() > 0 {
        let rest = lines.drop_first();
        let next = is_whisper(lines[0]);
        lemma_rewritten_whisper(rest, model, language, next, model_set, language_set);
        lemma_rewritten_whisper(rest, model, language, inside, true, language_set);
        lemma_rewritten_whisper(rest, model, language, inside, model_set, true);
        lemma_rewritten_whisper(rest, model, language, inside, model_set, language_set);
        lemma_has_whisper_first(lines[0], rest);
        assert(seq![lines[0]] + rest =~= lines);
        if is_header(lines[0]) {
            let tail = rewritten(rest, model, language, next, model_set, language_set);
            lemma_has_whisper_first(lines[0], tail);
            let after = seq![lines[0]] + tail;
            let missing = missing_settings(model, language, model_set, language_set);
            if inside {
                assert(out =~= missing + after);
                lemma_has_whisper_after(missing, after);
            } else {
                assert(out =~= after);
            }
        } else if inside && sets_key(lines[0], "model"@) {
            lemma_has_whisper_first(
                m,
                rewritten(rest, model, language, inside, true, language_set),
            );
        } else if inside && sets_key(lines[0], "language"@) {
            lemma_has_whisper_first(l, rewritten(rest, model, language, inside, model_set, true));
        } else {
            lemma_has_whisper_first(
                lines[0],
                rewritten(rest, model, language, inside, model_set, language_set),
            );
        }
    }
}

/// Where a `[whisper]` line can stand in lines with one more in front.
proof fn lemma_has_whisper_first(first: Seq<char>, rest: Seq<Seq<char>>)
    ensures
        has_whisper(seq![first] + rest) == (is_whisper(first) || has_whisper(rest)),
{
    let all = seq![first] + rest;
    assert(all[0] == first);
    assert(all.drop_first() =~= rest);
    if has_whisper(all) {
        lemma_whisper_in_rest(all);
    }
    if has_whisper(rest) {
        let i = choose|i: int| 0 <= i < rest.len() && is_whisper(#[trigger] rest[i]);
        assert(is_whisper(all[i + 1]));
    }
}

/// Lines without a `[whisper]` line do not matter.
proof fn lemma_has_whisper_after(before: Seq<Seq<char>>, after: Seq<Seq<char>>)
    requires
        !has_whisper(before),
    ensures
        has_whisper(before + after) == has_whisper(after),
{
    let all = before + after;
    if has_whisper(all) {
        let i = choose|i: int| 0 <= i < all.len() && is_whisper(#[trigger] all[i]);
        if i < before.len() {
            assert(is_whisper(before[i]));
        } else {
            assert(is_whisper(after[i - before.len()]));
        }
    }
    if has_whisper(after) {
        let i = choose|i: int| 0 <= i < after.len() && is_whisper(#[trigger] after[i]);
        assert(is_whisper(all[i + before.len()]));
    }
}

/// The lines of a written configuration, as a reader sees them.
proof fn lemma_written_lines(content: Seq<char>, model: Seq<char>, language: Seq<char>)
    requires
        text::free_of(model, '\n'),
        text::free_of(language, '\n'),
    ensures
        text::lines(written(content, model, language)) == written_lines(
            content,
            model,
            language,
        ).map_values(|line: Seq<char>| text::strip_cr(line)),
{
    let all = written_lines(content, model, language);
    text::lemma_lines_are_lines(content);
    lemma_rewritten_are_lines(text::lines(content), model, language, false, false, false);
    lemma_setting(model);
    lemma_setting(language);
    assert(text::free_of("[whisper]"@, '\n')) by {
        reveal_strlit("[whisper]");
    }
    text::lemma_lines_of_unlines(all);
}

/// What was written is what is read: a model and a language without double
/// quotes and line feeds come back from every configuration they are written to.
pub proof fn law_read_back(content: Seq<char>, model: Seq<char>, language: Seq<char>)
    requires
        text::free_of(model, '"'),
        text::free_of(model, '\n'),
        text::free_of(language, '"'),
        text::free_of(language, '\n'),
    ensures
        stt_config(written(content, model, language)) == (
            stt_label_of(model, language),
            model,
            language,
        ),
{
    let lines = text::lines(content);
    let body = rewritten(lines, model, language, false, false, false);
    let all = written_lines(content, model, language);
    lemma_written_lines(content, model, language);
    lemma_value_ignores_cr(all, "model"@, false);
    lemma_value_ignores_cr(all, "language"@, false);
    lemma_rewritten_whisper(lines, model, language, false, false, false);
    if has_whisper(body) {
        lemma_rewritten_value(lines, model, language, false, false, false);
    } else {
        let section = new_section(body, model, language);
        lemma_value_after(body, section, "model"@);
        lemma_value_after(body, section, "language"@);
        lemma_new_section_value(body, model, language);
    }
}

/// A new section gives the new values.
proof fn lemma_new_section_value(
    lines: Seq<Seq<char>>,
    model: Seq<char>,
    language: Seq<char>,
)
    requires
        text::free_of(model, '"'),
        text::free_of(language, '"'),
    ensures
        whisper_value(new_section(lines, model, language), "model"@, false) == Some(model),
        whisper_value(new_section(lines, model, language), "language"@, false) == Some(language),
{
    lemma_setting(model);
    lemma_setting(language);
    reveal_strlit("[whisper]");
    let m = setting("model"@, model);
    let l = setting("language"@, language);
    let header = "[whisper]"@;
    text::lemma_trim_same(header);
    assert(is_header(header) && is_whisper(header));
    let none = Seq::<Seq<char>>::empty();
    lemma_value_first(l, none, "language"@, true);
    lemma_value_first(m, seq![l] + none, "model"@, true);
    lemma_value_first(m, seq![l] + none, "language"@, true);
    let two = seq![m] + (seq![l] + none);
    lemma_value_first(header, two, "model"@, false);
    lemma_value_first(header, two, "language"@, false);
    let three = seq![header] + two;
    let empty = Seq::<char>::empty();
    lemma_value_first(empty, three, "model"@, false);
    lemma_value_first(empty, three, "language"@, false);
    if lines.len() > 0 {
        assert(new_section(lines, model, language) =~= seq![empty] + three);
    } else {
        assert(new_section(lines, model, language) =~= three);
    }
}

/// The lines that are no model or language setting of a `[whisper]` section.
pub open spec fn other_lines(lines: Seq<Seq<char>>, inside: bool) -> Seq<Seq<char>>
    decreases lines.len(),
{
    if lines.len() == 0 {
        Seq::empty()
    } else if is_header(lines[0]) {
        seq![lines[0]] + other_lines(lines.drop_first(), is_whisper(lines[0]))
    } else if inside && (sets_key(lines[0], "model"@) || sets_key(lines[0], "language"@)) {
        other_lines(lines.drop_first(), inside)
    } else {
        seq![lines[0]] + other_lines(lines.drop_first(), inside)
    }
}

/// The other lines of lines with one more in front.
proof fn lemma_other_first(first: Seq<char>, rest: Seq<Seq<char>>, inside: bool)
    ensures
        is_header(first) ==> other_lines(seq![first] + rest, inside) == seq![first] + other_lines(
            rest,
            is_whisper(first),
        ),
        !is_header(first) && inside && (sets_key(first, "model"@) || sets_key(first, "language"@))
            ==> other_lines(seq![first] + rest, inside) == other_lines(rest, inside),
        !is_header(first) && !(inside && (sets_key(first, "model"@) || sets_key(
            first,
            "language"@,
        ))) ==> other_lines(seq![first] + rest, inside) == seq![first] + other_lines(rest, inside),
{
    let all = seq![first] + rest;
    assert(all[0] == first);
    assert(all.drop_first() =~= rest);
}

/// Added settings are no other lines.
proof fn lemma_other_missing(
    after: Seq<Seq<char>>,
    model: Seq<char>,
    language: Seq<char>,
    model_set: bool,
    language_set: bool,
)
    ensures
        other_lines(missing_settings(model, language, model_set, language_set) + after, true)
            == other_lines(after, true),
{
    lemma_setting(model);
    lemma_setting(language);
    let m = setting("model"@, model);
    let l = setting("language"@, language);
    let all = missing_settings(model, language, model_set, language_set) + after;
    let second = if language_set {
        after
    } else {
        seq![l] + after
    };
    lemma_other_first(l, after, true);
    lemma_other_first(m, second, true);
    if model_set {
        assert(all =~= second);
    } else {
        assert(all =~= seq![m] + second);
    }
}

/// Rewriting keeps the other lines, in order.
proof fn lemma_rewritten_other(
    lines: Seq<Seq<char>>,
    model: Seq<char>,
    language: Seq<char>,
    inside: bool,
    model_set: bool,
    language_set: bool,
)
    ensures
        other_lines(rewritten(lines, model, language, inside, model_set, language_set), inside)
            == other_lines(lines, inside),
    decreases lines.len(),
{
    lemma_setting(model);
    lemma_setting(language);
    let m = setting("model"@, model);
    let l = setting("language"@, language);
    let missing = missing_settings(model, language, model_set, language_set);
    let out = rewritten(lines, model, language, inside, model_set, language_set);
    if lines.len() == 0 {
        if inside {
            let none = Seq::<Seq<char>>::empty();
            lemma_other_missing(none, model, language, model_set, language_set);
            assert(missing + none =~= missing);
        }
    } else {
        let rest = lines.drop_first();
        let next = is_whisper(lines[0]);
        if is_header(lines[0]) {
            let tail = rewritten(rest, model, language, next, model_set, language_set);
            let after = seq![lines[0]] + tail;
            lemma_rewritten_other(rest, model, language, next, model_set, language_set);
            lemma_other_first(lines[0], tail, inside);
            if inside {
                assert(out =~= missing + after);
                lemma_other_missing(after, model, language, model_set, language_set);
            } else {
                assert(out =~= after);
            }
        } else if inside && sets_key(lines[0], "model"@) {
            lemma_rewritten_other(rest, model, language, inside, true, language_set);
            lemma_other_first(
                m,
                rewritten(rest, model, language, inside, true, language_set),
                inside,
            );
        } else if inside && sets_key(lines[0], "language"@) {
            lemma_rewritten_other(rest, model, language, inside, model_set, true);
            lemma_other_first(
                l,
                rewritten(rest, model, language, inside, model_set, true),
                inside,
            );
        } else {
            lemma_rewritten_other(rest, model, language, inside, model_set, language_set);
            lemma_other_first(
                lines[0],
                rewritten(rest, model, language, inside, model_set, language_set),
                inside,
            );
        }
    }
}

/// A carriage return at the end of a line does not make it another kind of line.
proof fn lemma_other_strip_cr(lines: Seq<Seq<char>>, inside: bool)
    ensures
        other_lines(lines.map_values(|line: Seq<char>| text::strip_cr(line)), inside)
            == other_lines(lines, inside).map_values(|line: Seq<char>| text::strip_cr(line)),
    decreases lines.len(),
{
    let f = |line: Seq<char>| text::strip_cr(line);
    let stripped = lines.map_values(f);
    if lines.len() > 0 {
        let rest = lines.drop_first();
        text::lemma_trim_strip_cr(lines[0]);
        assert(stripped.drop_first() =~= rest.map_values(f));
        assert(stripped[0] == text::strip_cr(lines[0]));
        lemma_other_strip_cr(rest, inside);
        lemma_other_strip_cr(rest, is_whisper(lines[0]));
        assert(other_lines(stripped, inside) =~= other_lines(lines, inside).map_values(f));
    } else {
        assert(other_lines(stripped, inside) =~= other_lines(lines, inside).map_values(f));
    }
}

/// Lines behind lines without a `[whisper]` section.
proof fn lemma_other_after(before: Seq<Seq<char>>, after: Seq<Seq<char>>)
    requires
        !has_whisper(before),
    ensures
        other_lines(before + after, false) == other_lines(before, false) + other_lines(
            after,
            false,
        ),
    decreases before.len(),
{
    if before.len() > 0 {
        let rest = before.drop_first();
        assert(!is_whisper(before[0]));
        assert forall|i: int| 0 <= i < rest.len() implies !is_whisper(#[trigger] rest[i]) by {
            assert(rest[i] == before[i + 1]);
        }
        lemma_other_after(rest, after);
        assert((before + after).drop_first() =~= rest + after);
        assert((before + after)[0] == before[0]);
        assert(other_lines(before + after, false) =~= other_lines(before, false) + other_lines(
            after,
            false,
        ));
    } else {
        assert(before + after =~= after);
        assert(other_lines(before, false) + other_lines(after, false) =~= other_lines(
            after,
            false,
        ));
    }
}

/// What a configuration without a `[whisper]` section gets besides the settings.
pub open spec fn added_lines(lines: Seq<Seq<char>>) -> Seq<Seq<char>> {
    if has_whisper(lines) {
        Seq::empty()
    } else if lines.len() > 0 {
        seq![Seq::<char>::empty(), "[whisper]"@]
    } else {
        seq!["[whisper]"@]
    }
}

/// Writing a model and a language without line feeds changes no other line than
/// their settings in `[whisper]`: all other lines stay, in order (a carriage
/// return at the end of one is lost), and only a missing section is added.
pub proof fn law_write_keeps_other_lines(
    content: Seq<char>,
    model: Seq<char>,
    language: Seq<char>,
)
    requires
        text::free_of(model, '\n'),
        text::free_of(language, '\n'),
    ensures
        other_lines(text::lines(written(content, model, language)), false) == other_lines(
            text::lines(content),
            false,
        ).map_values(|line: Seq<char>| text::strip_cr(line)) + added_lines(text::lines(content)),
{
    let f = |line: Seq<char>| text::strip_cr(line);
    let lines = text::lines(content);
    let body = rewritten(lines, model, language, false, false, false);
    let all = written_lines(content, model, language);
    lemma_written_lines(content, model, language);
    lemma_other_strip_cr(all, false);
    lemma_rewritten_whisper(lines, model, language, false, false, false);
    lemma_rewritten_other(lines, model, language, false, false, false);
    if has_whisper(body) {
        assert(other_lines(lines, false).map_values(f) + added_lines(lines) =~= other_lines(
            lines,
            false,
        ).map_values(f));
    } else {
        lemma_other_after(body, new_section(body, model, language));
        lemma_other_new_section(body, model, language);
        lemma_rewritten_empty(lines, model, language);
        assert(added_lines(lines).map_values(f) =~= added_lines(lines)) by {
            reveal_strlit("[whisper]");
        }
        assert(other_lines(all, false).map_values(f) =~= other_lines(lines, false).map_values(f)
            + added_lines(lines).map_values(f));
    }
}

/// The other lines of a new section.
proof fn lemma_other_new_section(
    lines: Seq<Seq<char>>,
    model: Seq<char>,
    language: Seq<char>,
)
    requires
        !has_whisper(lines),
    ensures
        other_lines(new_section(lines, model, language), false) == added_lines(lines),
{
    lemma_setting(model);
    lemma_setting(language);
    reveal_strlit("[whisper]");
    let m = setting("model"@, model);
    let l = setting("language"@, language);
    let header = "[whisper]"@;
    text::lemma_trim_same(header);
    let none = Seq::<Seq<char>>::empty();
    lemma_other_first(l, none, true);
    lemma_other_first(m, seq![l] + none, true);
    let two = seq![m] + (seq![l] + none);
    lemma_other_first(header, two, false);
    let three = seq![header] + two;
    let empty = Seq::<char>::empty();
    lemma_other_first(empty, three, false);
    if lines.len() > 0 {
        assert(new_section(lines, model, language) =~= seq![empty] + three);
    } else {
        assert(new_section(lines, model, language) =~= three);
    }
    assert(other_lines(new_section(lines, model, language), false) =~= added_lines(lines));
}

/// Without a `[whisper]` section nothing is rewritten.
proof fn lemma_rewritten_empty(lines: Seq<Seq<char>>, model: Seq<char>, language: Seq<char>)
    requires
        !has_whisper(lines),
    ensures
        rewritten(lines, model, language, false, false, false) == lines,
    decreases lines.len(),
{
    if lines.len() > 0 {
        let rest = lines.drop_first();
        assert(!is_whisper(lines[0]));
        assert forall|i: int| 0 <= i < rest.len() implies !is_whisper(#[trigger] rest[i]) by {
            assert(rest[i] == lines[i + 1]);
        }
        lemma_rewritten_empty(rest, model, language);
        assert(rewritten(lines, model, language, false, false, false) =~= lines);
    } else {
        assert(rewritten(lines, model, language, false, false, false) =~= lines);
    }
}

/// Rewriting lines with one more in front that is no header.
proof fn lemma_rewritten_first(
    first: Seq<char>,
    rest: Seq<Seq<char>>,
    model: Seq<char>,
    language: Seq<char>,
    inside: bool,
    model_set: bool,
    language_set: bool,
)
    requires
        !is_header(first),
    ensures
        rewritten(seq![first] + rest, model, language, inside, model_set, language_set) == (if inside
            && sets_key(first, "model"@) {
            seq![setting("model"@, model)] + rewritten(
                rest,
                model,
                language,
                inside,
                true,
                language_set,
            )
        } else if inside && sets_key(first, "language"@) {
            seq![setting("language"@, language)] + rewritten(
                rest,
                model,
                language,
                inside,
                model_set,
                true,
            )
        } else {
            seq![first] + rewritten(rest, model, language, inside, model_set, language_set)
        }),
{
    let all = seq![first] + rest;
    assert(all[0] == first);
    assert(all.drop_first() =~= rest);
}

/// Settings that were added at the end of a section are replaced by the next writing.
proof fn lemma_rewritten_missing(
    after: Seq<Seq<char>>,
    old_model: Seq<char>,
    old_language: Seq<char>,
    model: Seq<char>,
    language: Seq<char>,
    model_set: bool,
    language_set: bool,
    model_found: bool,
    language_found: bool,
)
    requires
        model_set ==> model_found,
        language_set ==> language_found,
    ensures
        rewritten(
            missing_settings(old_model, old_language, model_set, language_set) + after,
            model,
            language,
            true,
            model_found,
            language_found,
        ) == missing_settings(model, language, model_set, language_set) + rewritten(
            after,
            model,
            language,
            true,
            true,
            true,
        ),
{
    lemma_setting(old_model);
    lemma_setting(old_language);
    let m = setting("model"@, old_model);
    let l = setting("language"@, old_language);
    let missing = missing_settings(old_model, old_language, model_set, language_set);
    let end = rewritten(after, model, language, true, true, true);
    let second = if language_set {
        after
    } else {
        seq![l] + after
    };
    lemma_rewritten_first(l, after, model, language, true, true, language_found);
    lemma_rewritten_first(m, second, model, language, true, model_found, language_found);
    if model_set {
        assert(missing + after =~= second);
    } else {
        assert(missing + after =~= seq![m] + second);
    }
    let out = rewritten(missing + after, model, language, true, model_found, language_found);
    assert(out =~= missing_settings(model, language, model_set, language_set) + end);
}

/// Rewriting rewritten lines gives what rewriting the lines alone gives.
proof fn lemma_rewritten_again(
    lines: Seq<Seq<char>>,
    old_model: Seq<char>,
    old_language: Seq<char>,
    model: Seq<char>,
    language: Seq<char>,
    inside: bool,
    model_set: bool,
    language_set: bool,
    model_found: bool,
    language_found: bool,
)
    requires
        model_set ==> model_found,
        language_set ==> language_found,
    ensures
        rewritten(
            rewritten(lines, old_model, old_language, inside, model_set, language_set),
            model,
            language,
            inside,
            model_found,
            language_found,
        ) == rewritten(lines, model, language, inside, model_set, language_set),
    decreases lines.len(),
{
    lemma_setting(old_model);
    lemma_setting(old_language);
    let m = setting("model"@, old_model);
    let l = setting("language"@, old_language);
    let missing = missing_settings(old_model, old_language, model_set, language_set);
    let out = rewritten(lines, old_model, old_language, inside, model_set, language_set);
    let again = rewritten(out, model, language, inside, model_found, language_found);
    let goal = rewritten(lines, model, language, inside, model_set, language_set);
    let none = Seq::<Seq<char>>::empty();
    if lines.len() == 0 {
        if inside {
            lemma_rewritten_missing(
                none,
                old_model,
                old_language,
                model,
                language,
                model_set,
                language_set,
                model_found,
                language_found,
            );
            assert(missing + none =~= missing);
            assert(again =~= goal);
        }
    } else {
        let rest = lines.drop_first();
        let next = is_whisper(lines[0]);
        if is_header(lines[0]) {
            let tail = rewritten(rest, old_model, old_language, next, model_set, language_set);
            let after = seq![lines[0]] + tail;
            assert(after[0] == lines[0]);
            assert(after.drop_first() =~= tail);
            if inside {
                lemma_rewritten_again(
                    rest,
                    old_model,
                    old_language,
                    model,
                    language,
                    next,
                    model_set,
                    language_set,
                    true,
                    true,
                );
                lemma_rewritten_missing(
                    after,
                    old_model,
                    old_language,
                    model,
                    language,
                    model_set,
                    language_set,
                    model_found,
                    language_found,
                );
                assert(out =~= missing + after);
                assert(again =~= goal);
            } else {
                lemma_rewritten_again(
                    rest,
                    old_model,
                    old_language,
                    model,
                    language,
                    next,
                    model_set,
                    language_set,
                    model_found,
                    language_found,
                );
                assert(out =~= after);
                assert(again =~= goal);
            }
        } else if inside && sets_key(lines[0], "model"@) {
            let tail = rewritten(rest, old_model, old_language, inside, true, language_set);
            lemma_rewritten_again(
                rest,
                old_model,
                old_language,
                model,
                language,
                inside,
                true,
                language_set,
                true,
                language_found,
            );
            lemma_rewritten_first(m, tail, model, language, inside, model_found, language_found);
        } else if inside && sets_key(lines[0], "language"@) {
            let tail = rewritten(rest, old_model, old_language, inside, model_set, true);
            lemma_rewritten_again(
                rest,
                old_model,
                old_language,
                model,
                language,
                inside,
                model_set,
                true,
                model_found,
                true,
            );
            lemma_rewritten_first(l, tail, model, language, inside, model_found, language_found);
        } else {
            let tail = rewritten(rest, old_model, old_language, inside, model_set, language_set);
            lemma_rewritten_again(
                rest,
                old_model,
                old_language,
                model,
                language,
                inside,
                model_set,
                language_set,
                model_found,
                language_found,
            );
            lemma_rewritten_first(
                lines[0],
                tail,
                model,
                language,
                inside,
                model_found,
                language_found,
            );
        }
    }
}

/// The lines of the `[whisper]` sections, without their headers. `inside` says whether
/// the lines begin in such a section.
pub open spec fn whisper_lines(lines: Seq<Seq<char>>, inside: bool) -> Seq<Seq<char>>
    decreases lines.len(),
{
    if lines.len() == 0 {
        Seq::empty()
    } else if is_header(lines[0]) {
        whisper_lines(lines.drop_first(), is_whisper(lines[0]))
    } else if inside {
        seq![lines[0]] + whisper_lines(lines.drop_first(), inside)
    } else {
        whisper_lines(lines.drop_first(), inside)
    }
}

/// The lines of the sections alone give a key the value that all lines give it.
proof fn lemma_value_of_whisper_lines(lines: Seq<Seq<char>>, key: Seq<char>, inside: bool)
    ensures
        whisper_value(whisper_lines(lines, inside), key, true) == whisper_value(lines, key, inside),
    decreases lines.len(),
{
    if lines.len() > 0 {
        let rest = lines.drop_first();
        if is_header(lines[0]) {
            lemma_value_of_whisper_lines(rest, key, is_whisper(lines[0]));
        } else {
            lemma_value_of_whisper_lines(rest, key, inside);
            let all = seq![lines[0]] + whisper_lines(rest, inside);
            assert(all[0] == lines[0]);
            assert(all.drop_first() =~= whisper_lines(rest, inside));
        }
    }
}

/// What stands outside the `[whisper]` sections has no influence on what is read.
pub proof fn law_only_whisper_is_read(a: Seq<char>, b: Seq<char>)
    requires
        whisper_lines(text::lines(a), false) == whisper_lines(text::lines(b), false),
    ensures
        stt_config(a) == stt_config(b),
{
    lemma_value_of_whisper_lines(text::lines(a), "model"@, false);
    lemma_value_of_whisper_lines(text::lines(b), "model"@, false);
    lemma_value_of_whisper_lines(text::lines(a), "language"@, false);
    lemma_value_of_whisper_lines(text::lines(b), "language"@, false);
}

/// The last writing counts: a model and a language that are written over others leave
/// what they alone would leave, unless a line of the configuration ends with a
/// carriage return that is no part of its line ending.
pub proof fn law_last_write_counts(
    content: Seq<char>,
    old_model: Seq<char>,
    old_language: Seq<char>,
    model: Seq<char>,
    language: Seq<char>,
)
    requires
        text::free_of(old_model, '\n'),
        text::free_of(old_language, '\n'),
        forall|i: int|
            0 <= i < text::lines(content).len() ==> text::strip_cr(
                #[trigger] text::lines(content)[i],
            ) == text::lines(content)[i],
    ensures
        written(written(content, old_model, old_language), model, language) == written(
            content,
            model,
            language,
        ),
{
    let f = |line: Seq<char>| text::strip_cr(line);
    let lines = text::lines(content);
    let body = rewritten(lines, old_model, old_language, false, false, false);
    let all = written_lines(content, old_model, old_language);
    lemma_written_lines(content, old_model, old_language);
    lemma_rewritten_no_cr(lines, old_model, old_language, false, false, false);
    lemma_no_cr_setting(old_model);
    lemma_no_cr_setting(old_language);
    assert(text::strip_cr("[whisper]"@) == "[whisper]"@) by {
        reveal_strlit("[whisper]");
    }
    assert(all.map_values(f) =~= all);
    lemma_rewritten_whisper(lines, old_model, old_language, false, false, false);
    lemma_rewritten_whisper(lines, model, language, false, false, false);
    if has_whisper(body) {
        lemma_rewritten_again(
            lines,
            old_model,
            old_language,
            model,
            language,
            false,
            false,
            false,
            false,
            false,
        );
    } else {
        lemma_rewritten_empty(lines, old_model, old_language);
        lemma_rewritten_empty(lines, model, language);
        lemma_rewritten_new_section(lines, old_model, old_language, model, language);
        lemma_section_has_whisper(lines, model, language);
    }
}

/// Writing the same model and language a second time changes nothing, unless a
/// line of the configuration ends with a carriage return that is no part of its
/// line ending.
pub proof fn law_write_twice(content: Seq<char>, model: Seq<char>, language: Seq<char>)
    requires
        text::free_of(model, '\n'),
        text::free_of(language, '\n'),
        forall|i: int|
            0 <= i < text::lines(content).len() ==> text::strip_cr(
                #[trigger] text::lines(content)[i],
            ) == text::lines(content)[i],
    ensures
        written(written(content, model, language), model, language) == written(
            content,
            model,
            language,
        ),
{
    law_last_write_counts(content, model, language, model, language);
}

/// A setting ends with a double quote.
proof fn lemma_no_cr_setting(value: Seq<char>)
    ensures
        text::strip_cr(setting("model"@, value)) == setting("model"@, value),
        text::strip_cr(setting("language"@, value)) == setting("language"@, value),
{
    lemma_setting_text("model"@, value);
    lemma_setting_text("language"@, value);
    assert(setting("model"@, value).last() == '"');
    assert(setting("language"@, value).last() == '"');
}

/// Rewriting adds no carriage return at the end of a line.
proof fn lemma_rewritten_no_cr(
    lines: Seq<Seq<char>>,
    model: Seq<char>,
    language: Seq<char>,
    inside: bool,
    model_set: bool,
    language_set: bool,
)
    requires
        forall|i: int|
            0 <= i < lines.len() ==> text::strip_cr(#[trigger] lines[i]) == lines[i],
    ensures
        ({
            let out = rewritten(lines, model, language, inside, model_set, language_set);
            forall|i: int| 0 <= i < out.len() ==> text::strip_cr(#[trigger] out[i]) == out[i]
        }),
    decreases lines.len(),
{
    lemma_no_cr_setting(model);
    lemma_no_cr_setting(language);
    if lines.len() > 0 {
        let rest = lines.drop_first();
        assert forall|i: int| 0 <= i < rest.len() implies text::strip_cr(#[trigger] rest[i])
            == rest[i] by {
            assert(rest[i] == lines[i + 1]);
        }
        assert(text::strip_cr(lines[0]) == lines[0]);
        let next = is_whisper(lines[0]);
        lemma_rewritten_no_cr(rest, model, language, next, model_set, language_set);
        lemma_rewritten_no_cr(rest, model, language, inside, true, language_set);
        lemma_rewritten_no_cr(rest, model, language, inside, model_set, true);
        lemma_rewritten_no_cr(rest, model, language, inside, model_set, language_set);
        let out = rewritten(lines, model, language, inside, model_set, language_set);
        let missing = missing_settings(model, language, model_set, language_set);
        assert forall|i: int| 0 <= i < out.len() implies text::strip_cr(#[trigger] out[i])
            == out[i] by {
            if is_header(lines[0]) {
                let tail = rewritten(rest, model, language, next, model_set, language_set);
                let n = if inside {
                    missing.len() as int
                } else {
                    0
                };
                if i > n {
                    assert(out[i] == tail[i - n - 1]);
                }
            } else if i > 0 {
                if inside && sets_key(lines[0], "model"@) {
                    let tail = rewritten(rest, model, language, inside, true, language_set);
                    assert(out[i] == tail[i - 1]);
                } else if inside && sets_key(lines[0], "language"@) {
                    let tail = rewritten(rest, model, language, inside, model_set, true);
                    assert(out[i] == tail[i - 1]);
                } else {
                    let tail = rewritten(rest, model, language, inside, model_set, language_set);
                    assert(out[i] == tail[i - 1]);
                }
            }
        }
    }
}

/// A new section opens with its header.
proof fn lemma_section_has_whisper(
    lines: Seq<Seq<char>>,
    model: Seq<char>,
    language: Seq<char>,
)
    ensures
        has_whisper(lines + new_section(lines, model, language)),
{
    reveal_strlit("[whisper]");
    text::lemma_trim_same("[whisper]"@);
    let all = lines + new_section(lines, model, language);
    let i = if lines.len() > 0 {
        lines.len() as int + 1
    } else {
        0
    };
    assert(is_whisper(all[i]));
}

/// Rewriting a configuration whose only `[whisper]` section is a new one.
proof fn lemma_rewritten_new_section(
    lines: Seq<Seq<char>>,
    old_model: Seq<char>,
    old_language: Seq<char>,
    model: Seq<char>,
    language: Seq<char>,
)
    requires
        !has_whisper(lines),
    ensures
        rewritten(
            lines + new_section(lines, old_model, old_language),
            model,
            language,
            false,
            false,
            false,
        ) == lines + new_section(lines, model, language),
{
    let section = new_section(lines, old_model, old_language);
    let m = setting("model"@, old_model);
    let l = setting("language"@, old_language);
    let new_m = setting("model"@, model);
    let new_l = setting("language"@, language);
    let header = "[whisper]"@;
    let none = Seq::<Seq<char>>::empty();
    let empty = Seq::<char>::empty();
    lemma_setting(old_model);
    lemma_setting(old_language);
    reveal_strlit("[whisper]");
    text::lemma_trim_same(header);
    lemma_rewritten_after(lines, section, model, language);
    lemma_rewritten_first(l, none, model, language, true, true, false);
    lemma_rewritten_first(m, seq![l] + none, model, language, true, false, false);
    let two = seq![m] + (seq![l] + none);
    let new_two = seq![new_m] + (seq![new_l] + none);
    assert(rewritten(none, model, language, true, true, true) =~= none);
    assert(rewritten(two, model, language, true, false, false) =~= new_two);
    let three = seq![header] + two;
    assert(three[0] == header);
    assert(three.drop_first() =~= two);
    assert(rewritten(three, model, language, false, false, false) =~= seq![header] + new_two);
    if lines.len() > 0 {
        assert(section =~= seq![empty] + three);
        lemma_rewritten_first(empty, three, model, language, false, false, false);
        assert(new_section(lines, model, language) =~= seq![empty] + (seq![header] + new_two));
    } else {
        assert(section =~= three);
        assert(new_section(lines, model, language) =~= seq![header] + new_two);
    }
}

/// Rewriting goes on behind lines without a `[whisper]` section.
proof fn lemma_rewritten_after(
    before: Seq<Seq<char>>,
    after: Seq<Seq<char>>,
    model: Seq<char>,
    language: Seq<char>,
)
    requires
        !has_whisper(before),
    ensures
        rewritten(before + after, model, language, false, false, false) == before + rewritten(
            after,
            model,
            language,
            false,
            false,
            false,
        ),
    decreases before.len(),
{
    let end = rewritten(after, model, language, false, false, false);
    let out = rewritten(before + after, model, language, false, false, false);
    if before.len() > 0 {
        let rest = before.drop_first();
        assert(!is_whisper(before[0]));
        assert forall|i: int| 0 <= i < rest.len() implies !is_whisper(#[trigger] rest[i]) by {
            assert(rest[i] == before[i + 1]);
        }
        lemma_rewritten_after(rest, after, model, language);
        assert((before + after).drop_first() =~= rest + after);
        assert((before + after)[0] == before[0]);
        assert(out =~= before + end);
    } else {
        assert(before + after =~= after);
        assert(before + end =~= end);
    }
}

// ─── Laws of reading ─────────────────────────────────────────────────────────

/// Line `i` stands in a `[whisper]` section: such a header stands before it, and no
/// other header stands between.
pub open spec fn in_whisper(lines: Seq<Seq<char>>, i: int) -> bool {
    exists|h: int|
        0 <= h < i && text::trim(#[trigger] lines[h]) == "[whisper]"@ && forall|k: int|
            h < k <= i ==> !is_header(#[trigger] lines[k])
}

/// The line, apart from white space around it, is `key = "value"`, and something may
/// follow.
pub open spec fn says(line: Seq<char>, key: Seq<char>, value: Seq<char>) -> bool {
    text::free_of(value, '"') && exists|more: Seq<char>|
        text::trim(line) == #[trigger] (key + " = \""@ + value + "\""@ + more)
}

/// Line `i` gives `key` the value, and no line before it gives `key` one.
pub open spec fn first_says(
    lines: Seq<Seq<char>>,
    key: Seq<char>,
    value: Seq<char>,
    i: int,
) -> bool {
    &&& 0 <= i < lines.len()
    &&& in_whisper(lines, i)
    &&& says(lines[i], key, value)
    &&& forall|j: int, other: Seq<char>|
        0 <= j < i && in_whisper(lines, j) ==> !#[trigger] says(lines[j], key, other)
}

proof fn lemma_says(line: Seq<char>, key: Seq<char>, value: Seq<char>)
    requires
        text::free_of(key, '"'),
    ensures
        says(line, key, value) <==> sets_key(line, key) && quoted(text::trim(line)) == Some(value),
{
    reveal_strlit(" = \"");
    reveal_strlit("\"");
    let t = text::trim(line);
    let p = key + " = \""@;
    let n = p.len() as int;
    assert(p[n - 1] == '"');
    assert forall|i: int| 0 <= i < n - 1 implies #[trigger] p[i] != '"' by {
        if i < key.len() {
            assert(p[i] == key[i]);
        }
    }
    if says(line, key, value) {
        let more = choose|more: Seq<char>|
            text::trim(line) == #[trigger] (key + " = \""@ + value + "\""@ + more);
        assert(t.take(n) =~= p);
        assert forall|i: int| 0 <= i < n - 1 implies #[trigger] t[i] != '"' by {
            assert(t[i] == p[i]);
        }
        assert(t[n - 1] == p[n - 1]);
        text::lemma_position_is(t, '"', n - 1);
        let rest = t.skip(n);
        assert(rest =~= value + "\""@ + more);
        assert forall|i: int| 0 <= i < value.len() implies #[trigger] rest[i] != '"' by {
            assert(rest[i] == value[i]);
        }
        text::lemma_position_is(rest, '"', value.len() as int);
        assert(rest.take(value.len() as int) =~= value);
    }
    if sets_key(line, key) && quoted(t) == Some(value) {
        assert forall|i: int| 0 <= i < n - 1 implies #[trigger] t[i] != '"' by {
            assert(t.take(n)[i] == t[i]);
        }
        assert(t.take(n)[n - 1] == t[n - 1]);
        text::lemma_position_is(t, '"', n - 1);
        let rest = t.skip(n);
        text::lemma_position(rest, '"');
        let end = text::position(rest, '"') as int;
        let more = rest.skip(end + 1);
        assert forall|i: int| 0 <= i < value.len() implies #[trigger] value[i] != '"' by {
            assert(value[i] == rest[i]);
        }
        assert(t =~= key + " = \""@ + value + "\""@ + more);
    }
}

/// Line `i` stands in a `[whisper]` section. `inside` says whether the lines begin in
/// one.
pub open spec fn in_whisper_from(lines: Seq<Seq<char>>, i: int, inside: bool) -> bool {
    in_whisper(lines, i) || (inside && forall|k: int| 0 <= k <= i ==> !is_header(#[trigger] lines[k]))
}

proof fn lemma_in_whisper_next(lines: Seq<Seq<char>>, i: int, inside: bool)
    requires
        0 <= i < lines.len() - 1,
    ensures
        in_whisper_from(lines, i + 1, inside) <==> in_whisper_from(
            lines.drop_first(),
            i,
            if is_header(lines[0]) {
                is_whisper(lines[0])
            } else {
                inside
            },
        ),
{
    let rest = lines.drop_first();
    let next = if is_header(lines[0]) {
        is_whisper(lines[0])
    } else {
        inside
    };
    assert forall|k: int| 0 <= k < rest.len() implies #[trigger] rest[k] == lines[k + 1] by {}
    if in_whisper(rest, i) {
        let h = choose|h: int|
            0 <= h < i && text::trim(#[trigger] rest[h]) == "[whisper]"@ && forall|k: int|
                h < k <= i ==> !is_header(#[trigger] rest[k]);
        assert(text::trim(lines[h + 1]) == "[whisper]"@);
        assert forall|k: int| h + 1 < k <= i + 1 implies !is_header(#[trigger] lines[k]) by {
            assert(rest[k - 1] == lines[k]);
        }
    } else if in_whisper_from(rest, i, next) {
        assert forall|k: int| 0 < k <= i + 1 implies !is_header(#[trigger] lines[k]) by {
            assert(rest[k - 1] == lines[k]);
        }
        if is_header(lines[0]) {
            assert(text::trim(lines[0]) == "[whisper]"@);
        }
    }
    if in_whisper(lines, i + 1) {
        let h = choose|h: int|
            0 <= h < i + 1 && text::trim(#[trigger] lines[h]) == "[whisper]"@ && forall|k: int|
                h < k <= i + 1 ==> !is_header(#[trigger] lines[k]);
        assert forall|k: int| h <= k <= i implies !is_header(#[trigger] rest[k]) by {
            assert(rest[k] == lines[k + 1]);
        }
        if h > 0 {
            assert(text::trim(rest[h - 1]) == "[whisper]"@);
        } else {
            reveal_strlit("[whisper]");
            assert(is_header(lines[0]) && is_whisper(lines[0]));
        }
    } else if in_whisper_from(lines, i + 1, inside) {
        assert forall|k: int| 0 <= k <= i implies !is_header(#[trigger] rest[k]) by {
            assert(rest[k] == lines[k + 1]);
        }
        assert(!is_header(lines[0]));
    }
}

proof fn lemma_whisper_value_found(
    lines: Seq<Seq<char>>,
    key: Seq<char>,
    inside: bool,
) -> (i: int)
    requires
        text::free_of(key, '"'),
    ensures
        0 <= i <= lines.len(),
        forall|j: int, other: Seq<char>|
            0 <= j < i && in_whisper_from(lines, j, inside) ==> !#[trigger] says(
                lines[j],
                key,
                other,
            ),
        match whisper_value(lines, key, inside) {
            Some(value) => i < lines.len() && in_whisper_from(lines, i, inside) && says(
                lines[i],
                key,
                value,
            ),
            None => i == lines.len(),
        },
    decreases lines.len(),
{
    if lines.len() == 0 {
        0
    } else {
        let rest = lines.drop_first();
        let first = lines[0];
        let next = if is_header(first) {
            is_whisper(first)
        } else {
            inside
        };
        if !is_header(first) && inside && sets_key(first, key) && quoted(text::trim(first)) is Some {
            lemma_says(first, key, quoted(text::trim(first))->0);
            0
        } else {
            let i = lemma_whisper_value_found(rest, key, next);
            assert forall|j: int, other: Seq<char>|
                0 <= j < i + 1 && in_whisper_from(lines, j, inside) implies !#[trigger] says(
                lines[j],
                key,
                other,
            ) by {
                if j == 0 {
                    lemma_says(first, key, other);
                    assert(!in_whisper(lines, 0));
                } else {
                    lemma_in_whisper_next(lines, j - 1, inside);
                    assert(rest[j - 1] == lines[j]);
                }
            }
            if i < rest.len() {
                lemma_in_whisper_next(lines, i, inside);
                assert(rest[i] == lines[i + 1]);
            }
            i + 1
        }
    }
}

/// The value of a key is that of the first line in a `[whisper]` section that gives it
/// one between double quotes, and there is none if no line does.
pub proof fn law_first_setting_is_read(lines: Seq<Seq<char>>, key: Seq<char>)
    requires
        text::free_of(key, '"'),
    ensures
        forall|value: Seq<char>, i: int| #[trigger]
            first_says(lines, key, value, i) ==> whisper_value(lines, key, false) == Some(value),
        whisper_value(lines, key, false) matches Some(value) ==> exists|i: int| #[trigger]
            first_says(lines, key, value, i),
{
    let found = lemma_whisper_value_found(lines, key, false);
    match whisper_value(lines, key, false) {
        Some(v) => {
            assert(first_says(lines, key, v, found));
            lemma_says(lines[found], key, v);
            assert forall|value: Seq<char>, i: int| #[trigger]
                first_says(lines, key, value, i) implies v == value by {
                assert(!(i < found));
                assert(!(found < i));
                lemma_says(lines[i], key, value);
            }
        },
        None => {
            assert forall|value: Seq<char>, i: int| #[trigger]
                first_says(lines, key, value, i) implies false by {
                assert(says(lines[i], key, value));
            }
        },
    }
}

/// The model and the language are read independently of each other. Each is what the
/// first line says that gives it a value. A model that no line gives is `base.en`,
/// whatever the language, and a language that no line gives is `en`, whatever the model.
pub proof fn law_model_and_language_are_independent(content: Seq<char>)
    ensures
        ({
            let lines = text::lines(content);
            let (label, model, language) = stt_config(content);
            &&& forall|value: Seq<char>, i: int| #[trigger]
                first_says(lines, "model"@, value, i) ==> model == value
            &&& forall|value: Seq<char>, i: int| #[trigger]
                first_says(lines, "language"@, value, i) ==> language == value
            &&& (forall|value: Seq<char>, i: int| !#[trigger]
                first_says(lines, "model"@, value, i)) ==> model == "base.en"@
            &&& (forall|value: Seq<char>, i: int| !#[trigger]
                first_says(lines, "language"@, value, i)) ==> language == "en"@
        }),
{
    let lines = text::lines(content);
    reveal_strlit("model");
    reveal_strlit("language");
    law_first_setting_is_read(lines, "model"@);
    law_first_setting_is_read(lines, "language"@);
}

/// Two configurations that say the same of the language have the same language,
/// whatever they say of the model, and the other way round.
pub proof fn law_one_setting_does_not_touch_the_other(a: Seq<char>, b: Seq<char>)
    ensures
        whisper_value(text::lines(a), "language"@, false) == whisper_value(
            text::lines(b),
            "language"@,
            false,
        ) ==> stt_config(a).2 == stt_config(b).2,
        whisper_value(text::lines(a), "model"@, false) == whisper_value(
            text::lines(b),
            "model"@,
            false,
        ) ==> stt_config(a).1 == stt_config(b).1,
        whisper_value(text::lines(a), "language"@, false) is None ==> stt_config(a).2 == "en"@,
        whisper_value(text::lines(a), "model"@, false) is None ==> stt_config(a).1 == "base.en"@,
        whisper_value(text::lines(a), "language"@, false) matches Some(l) ==> stt_config(a).2 == l,
        whisper_value(text::lines(a), "model"@, false) matches Some(m) ==> stt_config(a).1 == m,
{
}

proof fn lemma_preset_found(model: Seq<char>, language: Seq<char>, i: nat)
    requires
        i <= 6,
    ensures
        ({
            let found = preset_from(model, language, i);
            &&& i <= found <= 6
            &&& found < 6 ==> STT_PRESETS@[found as int].1@ == model
                && STT_PRESETS@[found as int].2@ == language
            &&& forall|k: int|
                i <= k < found ==> !((#[trigger] STT_PRESETS@[k]).1@ == model
                    && STT_PRESETS@[k].2@ == language)
        }),
    decreases 6 - i,
{
    if i < 6 && !(STT_PRESETS@[i as int].1@ == model && STT_PRESETS@[i as int].2@ == language) {
        lemma_preset_found(model, language, i + 1);
    }
}

/// The presets: each has a language of its own. English has a model of its own, and
/// the others share one that knows many languages.
pub proof fn law_presets(i: int, j: int)
    requires
        0 <= i < 6,
        0 <= j < 6,
    ensures
        STT_PRESETS@[i].2@ == STT_PRESETS@[j].2@ ==> i == j,
        STT_PRESETS@[i].0@ == STT_PRESETS@[j].0@ ==> i == j,
        STT_PRESETS@[i].1@ == if STT_PRESETS@[i].2@ == "en"@ {
            "base.en"@
        } else {
            "base"@
        },
        STT_PRESETS@[0].0@ == "English"@ && STT_PRESETS@[0].2@ == "en"@,
        STT_PRESETS@[1].0@ == "Spanish"@ && STT_PRESETS@[1].2@ == "es"@,
        STT_PRESETS@[2].0@ == "French"@ && STT_PRESETS@[2].2@ == "fr"@,
        STT_PRESETS@[3].0@ == "Portuguese"@ && STT_PRESETS@[3].2@ == "pt"@,
        STT_PRESETS@[4].0@ == "German"@ && STT_PRESETS@[4].2@ == "de"@,
        STT_PRESETS@[5].0@ == "Italian"@ && STT_PRESETS@[5].2@ == "it"@,
{
    lemma_language_codes();
}

proof fn lemma_language_codes()
    ensures
        "en"@[0] == 'e' && "en"@[1] == 'n' && "es"@[0] == 'e' && "es"@[1] == 's',
        "fr"@[0] == 'f' && "pt"@[0] == 'p' && "de"@[0] == 'd' && "it"@[0] == 'i',
        "English"@[0] == 'E' && "Spanish"@[0] == 'S' && "French"@[0] == 'F',
        "Portuguese"@[0] == 'P' && "German"@[0] == 'G' && "Italian"@[0] == 'I',
{
    reveal_strlit("en");
    reveal_strlit("es");
    reveal_strlit("fr");
    reveal_strlit("pt");
    reveal_strlit("de");
    reveal_strlit("it");
    reveal_strlit("English");
    reveal_strlit("Spanish");
    reveal_strlit("French");
    reveal_strlit("Portuguese");
    reveal_strlit("German");
    reveal_strlit("Italian");
}

/// A model and a language that are those of a preset have its label, and any others
/// have the language itself as their label.
pub proof fn law_label_is_that_of_the_preset(model: Seq<char>, language: Seq<char>, i: int)
    requires
        0 <= i < 6,
    ensures
        STT_PRESETS@[i].1@ == model && STT_PRESETS@[i].2@ == language ==> stt_label_of(
            model,
            language,
        ) == STT_PRESETS@[i].0@,
        (forall|k: int|
            0 <= k < 6 ==> (#[trigger] STT_PRESETS@[k]).1@ != model || STT_PRESETS@[k].2@
                != language) ==> stt_label_of(model, language) == language,
{
    lemma_preset_found(model, language, 0);
    let found = preset_from(model, language, 0) as int;
    if STT_PRESETS@[i].1@ == model && STT_PRESETS@[i].2@ == language {
        assert(found <= i);
        law_presets(i, found);
    }
}

/// The label that is read is that of the model and the language that are read.
pub proof fn law_read_label_fits(content: Seq<char>)
    ensures
        stt_config(content).0 == stt_label_of(stt_config(content).1, stt_config(content).2),
{
}

/// A configuration that cannot be read counts as an empty one, except that the label
/// says so.
pub proof fn law_unreadable_counts_as_empty(content: Seq<char>)
    ensures
        read_config(Some(content)) == stt_config(content),
        read_config(None).0 == "Unknown"@,
        read_config(None).1 == read_config(Some(Seq::empty())).1,
        read_config(None).2 == read_config(Some(Seq::empty())).2,
{
}

/// What stands between brackets is a header, whatever it is, with white space around it
/// or without, and a line that begins otherwise is none.
pub proof fn law_headers(
    before: Seq<char>,
    name: Seq<char>,
    after: Seq<char>,
    line: Seq<char>,
)
    requires
        text::blank(before),
        text::blank(after),
    ensures
        is_header(before + "["@ + name + "]"@ + after),
        is_whisper(before + "["@ + name + "]"@ + after) <==> name == "whisper"@,
        !text::white_space(line[0]) && line[0] != '[' ==> !is_header(line) && !is_whisper(line),
{
    reveal_strlit("[");
    reveal_strlit("]");
    reveal_strlit("whisper");
    reveal_strlit("[whisper]");
    let core = "["@ + name + "]"@;
    let all = before + "["@ + name + "]"@ + after;
    assert(all =~= before + core + after);
    text::lemma_trim_around(before, core, after);
    if name == "whisper"@ {
        assert(core =~= "[whisper]"@);
    }
    if core == "[whisper]"@ {
        assert(name =~= core.subrange(1, core.len() - 1));
        assert("whisper"@ =~= "[whisper]"@.subrange(1, 8));
    }
    if line.len() > 0 && !text::white_space(line[0]) {
        text::lemma_trim_keeps_first(line);
        assert("[whisper]"@[0] == '[');
    } else if line.len() == 0 {
        text::lemma_trim_blank(line);
    }
}

/// Once both settings were seen, writing adds no line and moves none: a setting of a
/// `[whisper]` section is replaced where it stands, and all other lines stay as they are.
pub proof fn law_settings_are_replaced_in_place(
    lines: Seq<Seq<char>>,
    model: Seq<char>,
    language: Seq<char>,
    inside: bool,
)
    ensures
        ({
            let out = rewritten(lines, model, language, inside, true, true);
            &&& out.len() == lines.len()
            &&& forall|i: int|
                0 <= i < lines.len() ==> #[trigger] out[i] == if in_whisper_from(lines, i, inside)
                    && sets_key(lines[i], "model"@) {
                    "model = \""@ + model + "\""@
                } else if in_whisper_from(lines, i, inside) && sets_key(lines[i], "language"@) {
                    "language = \""@ + language + "\""@
                } else {
                    lines[i]
                }
        }),
    decreases lines.len(),
{
    lemma_key_prefixes();
    let out = rewritten(lines, model, language, inside, true, true);
    assert(missing_settings(model, language, true, true) =~= Seq::<Seq<char>>::empty());
    if lines.len() > 0 {
        let rest = lines.drop_first();
        let next = if is_header(lines[0]) {
            is_whisper(lines[0])
        } else {
            inside
        };
        let tail = rewritten(rest, model, language, next, true, true);
        law_settings_are_replaced_in_place(rest, model, language, next);
        assert(out.drop_first() =~= tail);
        assert(!in_whisper(lines, 0));
        assert(in_whisper_from(lines, 0, inside) <==> inside && !is_header(lines[0]));
        assert forall|i: int| 0 <= i < lines.len() implies #[trigger] out[i] == if in_whisper_from(
            lines,
            i,
            inside,
        ) && sets_key(lines[i], "model"@) {
            "model = \""@ + model + "\""@
        } else if in_whisper_from(lines, i, inside) && sets_key(lines[i], "language"@) {
            "language = \""@ + language + "\""@
        } else {
            lines[i]
        } by {
            if i > 0 {
                assert(out[i] == tail[i - 1]);
                assert(rest[i - 1] == lines[i]);
                lemma_in_whisper_next(lines, i - 1, inside);
            }
        }
    }
}

proof fn lemma_section_without_settings(
    body: Seq<Seq<char>>,
    after: Seq<Seq<char>>,
    model: Seq<char>,
    language: Seq<char>,
)
    requires
        forall|i: int|
            0 <= i < body.len() ==> !is_header(#[trigger] body[i]) && !sets_key(body[i], "model"@)
                && !sets_key(body[i], "language"@),
        after.len() == 0 || is_header(after[0]),
    ensures
        rewritten(body + after, model, language, true, false, false) == body + seq![
            setting("model"@, model),
            setting("language"@, language),
        ] + rewritten(after, model, language, false, false, false),
    decreases body.len(),
{
    let added = seq![setting("model"@, model), setting("language"@, language)];
    let end = rewritten(after, model, language, false, false, false);
    let all = body + after;
    if body.len() == 0 {
        assert(all =~= after);
        assert(missing_settings(model, language, false, false) =~= added);
        assert(rewritten(after, model, language, true, false, false) =~= added + end);
        assert(body + added + end =~= added + end);
    } else {
        let rest = body.drop_first();
        assert forall|i: int| 0 <= i < rest.len() implies !is_header(#[trigger] rest[i])
            && !sets_key(rest[i], "model"@) && !sets_key(rest[i], "language"@) by {
            assert(rest[i] == body[i + 1]);
        }
        lemma_section_without_settings(rest, after, model, language);
        assert(all.drop_first() =~= rest + after);
        assert(all[0] == body[0]);
        assert(rewritten(all, model, language, true, false, false) =~= body + added + end);
    }
}

/// A `[whisper]` section without the settings gets them at its end, the model before the
/// language, and the lines before and behind stay where they are.
pub proof fn law_section_gets_its_settings(
    before: Seq<Seq<char>>,
    body: Seq<Seq<char>>,
    after: Seq<Seq<char>>,
    model: Seq<char>,
    language: Seq<char>,
)
    requires
        !has_whisper(before),
        !has_whisper(after),
        forall|i: int|
            0 <= i < body.len() ==> !is_header(#[trigger] body[i]) && !sets_key(body[i], "model"@)
                && !sets_key(body[i], "language"@),
        after.len() == 0 || is_header(after[0]),
    ensures
        rewritten(
            before + seq!["[whisper]"@] + body + after,
            model,
            language,
            false,
            false,
            false,
        ) == before + seq!["[whisper]"@] + body + seq![
            "model = \""@ + model + "\""@,
            "language = \""@ + language + "\""@,
        ] + after,
{
    let header = "[whisper]"@;
    let added = seq![setting("model"@, model), setting("language"@, language)];
    let section = seq![header] + (body + after);
    reveal_strlit("[whisper]");
    text::lemma_trim_same(header);
    assert(is_header(header) && is_whisper(header));
    lemma_key_prefixes();
    assert(before + seq![header] + body + after =~= before + section);
    lemma_rewritten_after(before, section, model, language);
    assert(section[0] == header);
    assert(section.drop_first() =~= body + after);
    lemma_section_without_settings(body, after, model, language);
    let none = Seq::<Seq<char>>::empty();
    lemma_rewritten_after(after, none, model, language);
    assert(after + none =~= after);
    assert(rewritten(none, model, language, false, false, false) =~= none);
    assert(before + (seq![header] + (body + added + after)) =~= before + seq![header] + body + added
        + after);
}

/// A configuration without a `[whisper]` section stays as it is, and gets the section
/// behind it, set off by an empty line unless it was empty.
pub proof fn law_missing_section_is_added(
    content: Seq<char>,
    model: Seq<char>,
    language: Seq<char>,
)
    requires
        !has_whisper(text::lines(content)),
    ensures
        ({
            let lines = text::lines(content);
            let section = seq![
                "[whisper]"@,
                "model = \""@ + model + "\""@,
                "language = \""@ + language + "\""@,
            ];
            &&& lines.len() == 0 ==> written_lines(content, model, language) == section
            &&& lines.len() > 0 ==> written_lines(content, model, language) == lines + seq![
                Seq::<char>::empty(),
            ] + section
        }),
{
    let lines = text::lines(content);
    let none = Seq::<Seq<char>>::empty();
    lemma_key_prefixes();
    lemma_rewritten_after(lines, none, model, language);
    assert(lines + none =~= lines);
    assert(rewritten(none, model, language, false, false, false) =~= none);
    let section = seq![
        "[whisper]"@,
        setting("model"@, model),
        setting("language"@, language),
    ];
    assert(rewritten(lines, model, language, false, false, false) =~= lines);
    if lines.len() == 0 {
        assert(written_lines(content, model, language) =~= section);
    } else {
        assert(written_lines(content, model, language) =~= lines + seq![Seq::<char>::empty()]
            + section);
    }
}

} // verus!
