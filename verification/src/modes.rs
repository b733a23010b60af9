//! Processing modes, profiles and the prompts built for them.
use crate::strings;
use crate::text;
use vstd::prelude::*;
use vstd::string::*;

verus! {

/// The instruction of the universal interpreter.
pub const CLEAN_INSTRUCTION: &'static str =
    "You are a text post-processor for speech-to-text output.\n\n\
     First, check if the input ends with an explicit instruction:\n\
     - \"translate to <language>:\" - translate the text into that language\n\
     - \"make it formal:\" - rewrite in a professional, formal tone\n\
     - \"make it casual:\" - rewrite in a friendly, natural tone\n\
     - \"bullet points:\" or \"make it a list:\" - format as Markdown bullet points\n\n\
     If an instruction is present, execute it and strip the instruction prefix from the output.\n\
     If no instruction is present but the input naturally describes a list of items \
     (e.g., \"buy milk, eggs, and bread\" or \"first do this, second do that\"), \
     format it as Markdown bullet points.\n\
     Otherwise, clean the transcribed speech by removing filler words, fixing punctuation, \
     and preserving the original meaning.";

/// What stands between the instruction and the input.
pub const INPUT_HEAD: &'static str =
    "\nOutput only the processed text. No explanations, no quotes, no commentary.\n\nInput: \"";

/// What follows the input.
pub const INPUT_TAIL: &'static str = "\"\nOutput:";

/// The prompt template that is filled with the dictated text.
#[derive(Debug, Clone, Copy, PartialEq, Eq, Structural)]
pub enum Mode {
    Clean,
}

/// The full prompt for an input.
pub open spec fn prompt(input: Seq<char>) -> Seq<char> {
    CLEAN_INSTRUCTION@ + INPUT_HEAD@ + input + INPUT_TAIL@
}

impl Mode {
    /// The prompt with `text` in the place of the input.
    pub fn prompt_template(&self, text: &str) -> (res: String)
        ensures
            res@ == prompt(text@),
    {
        match self {
            Mode::Clean => {
                let mut res = CLEAN_INSTRUCTION.to_owned();
                res.append(INPUT_HEAD);
                res.append(text);
                res.append(INPUT_TAIL);
                res
            },
        }
    }

    /// The name of the mode.
    pub fn name(&self) -> (res: String)
        ensures
            res@ == "clean"@,
    {
        match self {
            Mode::Clean => "clean".to_owned(),
        }
    }

    /// The mode with the given name, in any case.
    pub fn from_str(value: &str) -> (res: Result<Mode, String>)
        ensures
            res is Ok <==> text::eq_ignore_ascii_case(value@, "clean"@),
            res matches Err(e) ==> e@ == "unsupported mode: "@ + value@,
    {
        if strings::eq_ignore_ascii_case(value, "clean") {
            Ok(Mode::Clean)
        } else {
            let mut message = "unsupported mode: ".to_owned();
            message.append(value);
            Err(message)
        }
    }
}

/// A prompt strategy that can be selected at run time.
#[derive(Debug, PartialEq, Eq)]
pub enum Profile {
    /// Cleans the text and obeys the instruction at its end, if there is one.
    UniversalInterpreter,
    /// Rewrites in a professional tone.
    Formal,
    /// Rewrites in a relaxed tone.
    Casual,
    /// Formats ideas as bullet points.
    Bullet,
    /// Translates into the language.
    Translate(String),
}

/// What a [`Profile`] is, with the language as a sequence of characters.
pub enum ProfileView {
    UniversalInterpreter,
    Formal,
    Casual,
    Bullet,
    Translate(Seq<char>),
}

impl View for Profile {
    type V = ProfileView;

    open spec fn view(&self) -> ProfileView {
        match self {
            Profile::UniversalInterpreter => ProfileView::UniversalInterpreter,
            Profile::Formal => ProfileView::Formal,
            Profile::Casual => ProfileView::Casual,
            Profile::Bullet => ProfileView::Bullet,
            Profile::Translate(lang) => ProfileView::Translate(lang@),
        }
    }
}

impl ProfileView {
    /// The name under which the profile is stored and reported.
    pub open spec fn name(self) -> Seq<char> {
        match self {
            ProfileView::UniversalInterpreter => "universal_interpreter"@,
            ProfileView::Formal => "formal"@,
            ProfileView::Casual => "casual"@,
            ProfileView::Bullet => "bullet"@,
            ProfileView::Translate(lang) => "translate:"@ + lang,
        }
    }

    /// The name of the mode that selects the profile.
    pub open spec fn mode_name(self) -> Seq<char> {
        match self {
            ProfileView::UniversalInterpreter => "clean"@,
            _ => self.name(),
        }
    }

    /// The explicit instruction that the universal interpreter obeys for the profile.
    pub open spec fn instruction(self) -> Seq<char> {
        match self {
            ProfileView::UniversalInterpreter => Seq::empty(),
            ProfileView::Formal => "\nmake it formal:"@,
            ProfileView::Casual => "\nmake it casual:"@,
            ProfileView::Bullet => "\nbullet points:"@,
            ProfileView::Translate(lang) => "\ntranslate to "@ + lang + ":"@,
        }
    }
}

/// The modes that can be picked from a list. The translations are not among them:
/// they need a language.
pub const MENU_MODES: [&'static str; 4] = ["clean", "formal", "casual", "bullet"];

impl ProfileView {
    /// The profile that comes next when the user steps through them.
    pub open spec fn next(self) -> ProfileView {
        match self {
            ProfileView::UniversalInterpreter => ProfileView::Formal,
            ProfileView::Formal => ProfileView::Casual,
            ProfileView::Casual => ProfileView::Bullet,
            ProfileView::Bullet => ProfileView::UniversalInterpreter,
            ProfileView::Translate(_) => ProfileView::UniversalInterpreter,
        }
    }
}

/// The profile stored under a name.
pub open spec fn profile_named(name: Seq<char>) -> Option<ProfileView> {
    if name == "universal_interpreter"@ {
        Some(ProfileView::UniversalInterpreter)
    } else if name == "formal"@ {
        Some(ProfileView::Formal)
    } else if name == "casual"@ {
        Some(ProfileView::Casual)
    } else if name == "bullet"@ {
        Some(ProfileView::Bullet)
    } else if text::starts_with(name, "translate:"@) {
        Some(ProfileView::Translate(name.skip("translate:"@.len() as int)))
    } else {
        None
    }
}

/// The profile that a mode selects. The case of ASCII letters does not count in
/// the mode, but the language is taken as it stands.
pub open spec fn profile_of_mode(mode: Seq<char>) -> Option<ProfileView> {
    let n = "translate:"@.len() as int;
    if text::eq_ignore_ascii_case(mode, "clean"@) {
        Some(ProfileView::UniversalInterpreter)
    } else if text::eq_ignore_ascii_case(mode, "formal"@) {
        Some(ProfileView::Formal)
    } else if text::eq_ignore_ascii_case(mode, "casual"@) {
        Some(ProfileView::Casual)
    } else if text::eq_ignore_ascii_case(mode, "bullet"@) {
        Some(ProfileView::Bullet)
    } else if n <= mode.len() && text::eq_ignore_ascii_case(mode.take(n), "translate:"@) {
        Some(ProfileView::Translate(mode.skip(n)))
    } else {
        None
    }
}

impl Clone for Profile {
    fn clone(&self) -> (res: Self)
        ensures
            res@ == self@,
    {
        match self {
            Profile::UniversalInterpreter => Profile::UniversalInterpreter,
            Profile::Formal => Profile::Formal,
            Profile::Casual => Profile::Casual,
            Profile::Bullet => Profile::Bullet,
            Profile::Translate(lang) => Profile::Translate(lang.clone()),
        }
    }
}

impl Default for Profile {
    fn default() -> (res: Self)
        ensures
            res@ == ProfileView::UniversalInterpreter,
    {
        Profile::UniversalInterpreter
    }
}

impl Profile {
    /// The name under which the profile is stored and reported.
    pub fn name(&self) -> (res: String)
        ensures
            res@ == self@.name(),
    {
        match self {
            Profile::UniversalInterpreter => "universal_interpreter".to_owned(),
            Profile::Formal => "formal".to_owned(),
            Profile::Casual => "casual".to_owned(),
            Profile::Bullet => "bullet".to_owned(),
            Profile::Translate(lang) => {
                let mut res = "translate:".to_owned();
                res.append(lang.as_str());
                res
            },
        }
    }

    /// The profile stored under a name.
    pub fn from_name(name: &str) -> (res: Result<Profile, String>)
        ensures
            match profile_named(name@) {
                Some(p) => res matches Ok(r) && r@ == p,
                None => res matches Err(e) && e@ == "unknown profile: "@ + name@,
            },
    {
        if strings::same(name, "universal_interpreter") {
            Ok(Profile::UniversalInterpreter)
        } else if strings::same(name, "formal") {
            Ok(Profile::Formal)
        } else if strings::same(name, "casual") {
            Ok(Profile::Casual)
        } else if strings::same(name, "bullet") {
            Ok(Profile::Bullet)
        } else if strings::starts_with(name, "translate:") {
            let v = strings::to_chars(name);
            let n: usize = "translate:".unicode_len();
            let lang = strings::from_chars(&v, n, v.len());
            assert(lang@ =~= name@.skip(n as int));
            Ok(Profile::Translate(lang))
        } else {
            let mut message = "unknown profile: ".to_owned();
            message.append(name);
            Err(message)
        }
    }

    /// The name of the mode that selects the profile.
    pub fn mode_name(&self) -> (res: String)
        ensures
            res@ == self@.mode_name(),
    {
        match self {
            Profile::UniversalInterpreter => Mode::Clean.name(),
            _ => self.name(),
        }
    }

    /// The profile that a mode selects.
    pub fn from_mode(mode: &str) -> (res: Result<Profile, String>)
        ensures
            match profile_of_mode(mode@) {
                Some(p) => res matches Ok(r) && r@ == p,
                None => res matches Err(e) && e@ == "unsupported mode: "@ + mode@,
            },
    {
        match Mode::from_str(mode) {
            Ok(_) => Ok(Profile::UniversalInterpreter),
            Err(message) => {
                if strings::eq_ignore_ascii_case(mode, "formal") {
                    return Ok(Profile::Formal);
                }
                if strings::eq_ignore_ascii_case(mode, "casual") {
                    return Ok(Profile::Casual);
                }
                if strings::eq_ignore_ascii_case(mode, "bullet") {
                    return Ok(Profile::Bullet);
                }
                let v = strings::to_chars(mode);
                let n: usize = "translate:".unicode_len();
                if n <= v.len() {
                    let head = strings::from_chars(&v, 0, n);
                    assert(head@ =~= mode@.take(n as int));
                    if strings::eq_ignore_ascii_case(head.as_str(), "translate:") {
                        let lang = strings::from_chars(&v, n, v.len());
                        assert(lang@ =~= mode@.skip(n as int));
                        return Ok(Profile::Translate(lang));
                    }
                }
                Err(message)
            },
        }
    }

    /// The explicit instruction that the universal interpreter obeys for the profile.
    fn instruction(&self) -> (res: String)
        ensures
            res@ == self@.instruction(),
    {
        match self {
            Profile::UniversalInterpreter => String::new(),
            Profile::Formal => "\nmake it formal:".to_owned(),
            Profile::Casual => "\nmake it casual:".to_owned(),
            Profile::Bullet => "\nbullet points:".to_owned(),
            Profile::Translate(lang) => {
                let mut res = "\ntranslate to ".to_owned();
                res.append(lang.as_str());
                res.append(":");
                res
            },
        }
    }

    /// The prompt for `text`: the text, followed by the profile's instruction, as
    /// the input of the universal interpreter.
    pub fn prompt_for(&self, text: &str) -> (res: String)
        ensures
            res@ == prompt(text@ + self@.instruction()),
    {
        let mut input = text.to_owned();
        let instruction = self.instruction();
        input.append(instruction.as_str());
        Mode::Clean.prompt_template(input.as_str())
    }
}

impl Profile {
    /// The profile that comes next when the user steps through them.
    pub fn next(&self) -> (res: Profile)
        ensures
            res@ == self@.next(),
    {
        match self {
            Profile::UniversalInterpreter => Profile::Formal,
            Profile::Formal => Profile::Casual,
            Profile::Casual => Profile::Bullet,
            Profile::Bullet => Profile::UniversalInterpreter,
            Profile::Translate(_) => Profile::UniversalInterpreter,
        }
    }
}

// ─── Laws ────────────────────────────────────────────────────────────────────

/// Stepping through the profiles four times comes back to the same one, except that
/// a translation is left for good.
pub proof fn law_profiles_cycle(p: ProfileView)
    ensures
        p !is Translate ==> p.next().next().next().next() == p,
        p.next() !is Translate,
        p.next() != p,
{
}

/// Every mode of the list selects a profile whose mode it is.
pub proof fn law_menu_modes_are_modes(i: int)
    requires
        0 <= i < 4,
    ensures
        profile_of_mode(MENU_MODES@[i]@) matches Some(p) && p.mode_name() == MENU_MODES@[i]@,
{
    law_mode_roundtrip(ProfileView::UniversalInterpreter);
    law_mode_roundtrip(ProfileView::Formal);
    law_mode_roundtrip(ProfileView::Casual);
    law_mode_roundtrip(ProfileView::Bullet);
    assert(MENU_MODES@[0]@ == "clean"@);
    assert(MENU_MODES@[1]@ == "formal"@);
    assert(MENU_MODES@[2]@ == "casual"@);
    assert(MENU_MODES@[3]@ == "bullet"@);
}

/// A profile is found again under the name it is stored under.
pub proof fn law_name_roundtrip(p: ProfileView)
    ensures
        profile_named(p.name()) == Some(p),
{
    reveal_strlit("universal_interpreter");
    reveal_strlit("formal");
    reveal_strlit("casual");
    reveal_strlit("bullet");
    reveal_strlit("translate:");
    match p {
        ProfileView::UniversalInterpreter => {},
        ProfileView::Formal => {
            assert("formal"@.len() != "universal_interpreter"@.len());
        },
        ProfileView::Casual => {
            assert("casual"@[0] != "formal"@[0]);
            assert("casual"@.len() != "universal_interpreter"@.len());
        },
        ProfileView::Bullet => {
            assert("bullet"@[0] != "formal"@[0]);
            assert("bullet"@[0] != "casual"@[0]);
            assert("bullet"@.len() != "universal_interpreter"@.len());
        },
        ProfileView::Translate(lang) => {
            let s = "translate:"@ + lang;
            assert(s[0] == 't');
            assert("universal_interpreter"@[0] != 't');
            assert("formal"@[0] != 't');
            assert("casual"@[0] != 't');
            assert("bullet"@[0] != 't');
            assert(s.take("translate:"@.len() as int) =~= "translate:"@);
            assert(s.skip("translate:"@.len() as int) =~= lang);
        },
    }
}

/// A mode's name selects the profile it is the name of.
pub proof fn law_mode_roundtrip(p: ProfileView)
    ensures
        profile_of_mode(p.mode_name()) == Some(p),
{
    reveal_strlit("clean");
    reveal_strlit("formal");
    reveal_strlit("casual");
    reveal_strlit("bullet");
    reveal_strlit("translate:");
    match p {
        ProfileView::Translate(lang) => {
            let n = "translate:"@.len() as int;
            let s = "translate:"@ + lang;
            assert(s[0] == 't');
            assert(text::ascii_lower(s[0]) == 't');
            assert(text::ascii_lower("clean"@[0]) != 't');
            assert(text::ascii_lower("formal"@[0]) != 't');
            assert(text::ascii_lower("casual"@[0]) != 't');
            assert(text::ascii_lower("bullet"@[0]) != 't');
            assert(s.take(n) =~= "translate:"@);
            assert(s.skip(n) =~= lang);
        },
        ProfileView::Casual => {
            assert(text::ascii_lower("casual"@[0]) != text::ascii_lower("formal"@[0]));
        },
        ProfileView::Bullet => {
            assert(text::ascii_lower("bullet"@[0]) != text::ascii_lower("formal"@[0]));
            assert(text::ascii_lower("bullet"@[0]) != text::ascii_lower("casual"@[0]));
        },
        _ => {},
    }
}

/// Every prompt holds the dictated text as it was given.
pub proof fn law_prompt_carries_text(p: ProfileView, input: Seq<char>)
    ensures
        text::contains(prompt(input + p.instruction()), input),
{
    let full = prompt(input + p.instruction());
    let start = (CLEAN_INSTRUCTION@ + INPUT_HEAD@).len() as int;
    assert(full.subrange(start, start + input.len()) =~= input);
    assert(text::occurs_at(full, input, start));
}

/// A profile is an instruction at the end of the text, on a line of its own, in the
/// words that the prompt has for the tone. The universal interpreter gets none.
pub proof fn law_instruction_asks_for_the_tone(lang: Seq<char>)
    ensures
        ProfileView::UniversalInterpreter.instruction().len() == 0,
        ProfileView::Formal.instruction() == "\n"@ + "make it formal:"@,
        ProfileView::Casual.instruction() == "\n"@ + "make it casual:"@,
        ProfileView::Bullet.instruction() == "\n"@ + "bullet points:"@,
        ProfileView::Translate(lang).instruction() == "\n"@ + "translate to "@ + lang + ":"@,
{
    reveal_strlit("\n");
    reveal_strlit("make it formal:");
    reveal_strlit("make it casual:");
    reveal_strlit("bullet points:");
    reveal_strlit("translate to ");
    reveal_strlit("\nmake it formal:");
    reveal_strlit("\nmake it casual:");
    reveal_strlit("\nbullet points:");
    reveal_strlit("\ntranslate to ");
    assert(ProfileView::Formal.instruction() =~= "\n"@ + "make it formal:"@);
    assert(ProfileView::Casual.instruction() =~= "\n"@ + "make it casual:"@);
    assert(ProfileView::Bullet.instruction() =~= "\n"@ + "bullet points:"@);
    assert("\ntranslate to "@ =~= "\n"@ + "translate to "@);
}

proof fn lemma_instructions_differ(p: ProfileView, q: ProfileView)
    requires
        p.instruction() == q.instruction(),
    ensures
        p == q,
{
    reveal_strlit("\nmake it formal:");
    reveal_strlit("\nmake it casual:");
    reveal_strlit("\nbullet points:");
    reveal_strlit("\ntranslate to ");
    reveal_strlit(":");
    let a = p.instruction();
    let b = q.instruction();
    assert("\nmake it formal:"@.len() == 16 && "\nmake it casual:"@.len() == 16);
    assert("\nbullet points:"@.len() == 15 && "\ntranslate to "@.len() == 14);
    assert("\nmake it formal:"@[1] == 'm' && "\nmake it formal:"@[9] == 'f');
    assert("\nmake it casual:"@[1] == 'm' && "\nmake it casual:"@[9] == 'c');
    assert("\nbullet points:"@[1] == 'b');
    assert("\ntranslate to "@[1] == 't');
    if p is Translate {
        assert(a[1] == 't');
        assert(p->Translate_0 =~= a.subrange(14, a.len() - 1));
    }
    if q is Translate {
        assert(b[1] == 't');
        assert(q->Translate_0 =~= b.subrange(14, b.len() - 1));
    }
}

/// Different profiles give different prompts for the same text.
pub proof fn law_profiles_give_different_prompts(p: ProfileView, q: ProfileView, input: Seq<char>)
    requires
        p != q,
    ensures
        prompt(input + p.instruction()) != prompt(input + q.instruction()),
{
    let a = prompt(input + p.instruction());
    let b = prompt(input + q.instruction());
    if a == b {
        let start = (CLEAN_INSTRUCTION@ + INPUT_HEAD@).len() as int + input.len();
        let tail = INPUT_TAIL@.len() as int;
        assert(p.instruction() =~= a.subrange(start, a.len() - tail));
        assert(q.instruction() =~= b.subrange(start, b.len() - tail));
        lemma_instructions_differ(p, q);
    }
}

/// Different texts give different prompts with the same profile.
pub proof fn law_texts_give_different_prompts(p: ProfileView, a: Seq<char>, b: Seq<char>)
    requires
        a != b,
    ensures
        prompt(a + p.instruction()) != prompt(b + p.instruction()),
{
    let x = prompt(a + p.instruction());
    let y = prompt(b + p.instruction());
    if x == y {
        let start = (CLEAN_INSTRUCTION@ + INPUT_HEAD@).len() as int;
        let tail = p.instruction().len() as int + INPUT_TAIL@.len() as int;
        assert(a =~= x.subrange(start, x.len() - tail));
        assert(b =~= y.subrange(start, y.len() - tail));
    }
}

/// The input stands in the prompt as it is, between quotes, behind everything that is
/// the same in all prompts and before the word that asks for the output.
pub proof fn law_prompt_frames_the_input(input: Seq<char>)
    ensures
        text::starts_with(prompt(input), CLEAN_INSTRUCTION@),
        ({
            let end = "Input: \""@ + input + "\"\nOutput:"@;
            &&& end.len() <= prompt(input).len()
            &&& prompt(input).skip(prompt(input).len() - end.len()) == end
        }),
        ({
            let none = prompt(Seq::empty());
            let k = none.len() - "\"\nOutput:"@.len();
            prompt(input) == none.take(k) + input + none.skip(k)
        }),
{
    reveal_strlit("Input: \"");
    reveal_strlit("\"\nOutput:");
    reveal_strlit(
        "\nOutput only the processed text. No explanations, no quotes, no commentary.\n\nInput: \"",
    );
    let full = prompt(input);
    let end = "Input: \""@ + input + "\"\nOutput:"@;
    assert(full.take(CLEAN_INSTRUCTION@.len() as int) =~= CLEAN_INSTRUCTION@);
    let head = INPUT_HEAD@;
    let h = "Input: \""@;
    assert(head.skip(head.len() - h.len()) =~= h);
    assert(full.skip(full.len() - end.len()) =~= end);
    let none = prompt(Seq::empty());
    let k = none.len() - "\"\nOutput:"@.len();
    assert(full =~= none.take(k) + input + none.skip(k));
}

/// The names of the modes, and of the profiles where they are stored and reported.
pub proof fn law_profiles_have_their_names(lang: Seq<char>)
    ensures
        ProfileView::UniversalInterpreter.mode_name() == "clean"@,
        ProfileView::Formal.mode_name() == "formal"@,
        ProfileView::Casual.mode_name() == "casual"@,
        ProfileView::Bullet.mode_name() == "bullet"@,
        ProfileView::Translate(lang).mode_name() == "translate:"@ + lang,
        ProfileView::UniversalInterpreter.name() == "universal_interpreter"@,
        ProfileView::Formal.name() == "formal"@,
        ProfileView::Casual.name() == "casual"@,
        ProfileView::Bullet.name() == "bullet"@,
        ProfileView::Translate(lang).name() == "translate:"@ + lang,
{
}

/// A mode selects the profile whose name it is, and in it the case of ASCII letters
/// does not count, but that of the language does. Nothing else selects a profile.
pub proof fn law_mode_selects_by_name(mode: Seq<char>, p: ProfileView)
    ensures
        profile_of_mode(mode) == Some(p) <==> match p {
            ProfileView::UniversalInterpreter => text::eq_ignore_ascii_case(mode, "clean"@),
            ProfileView::Formal => text::eq_ignore_ascii_case(mode, "formal"@),
            ProfileView::Casual => text::eq_ignore_ascii_case(mode, "casual"@),
            ProfileView::Bullet => text::eq_ignore_ascii_case(mode, "bullet"@),
            ProfileView::Translate(lang) => {
                &&& mode.len() >= 10
                &&& text::eq_ignore_ascii_case(mode.take(10), "translate:"@)
                &&& lang == mode.skip(10)
            },
        },
{
    reveal_strlit("clean");
    reveal_strlit("formal");
    reveal_strlit("casual");
    reveal_strlit("bullet");
    reveal_strlit("translate:");
    assert("clean"@.len() == 5 && "formal"@.len() == 6 && "casual"@.len() == 6 && "bullet"@.len()
        == 6 && "translate:"@.len() == 10);
    assert(text::ascii_lower("formal"@[0]) == 'f');
    assert(text::ascii_lower("casual"@[0]) == 'c');
    assert(text::ascii_lower("bullet"@[0]) == 'b');
    if mode.len() == 6 {
        let c = text::ascii_lower(mode[0]);
        assert(text::eq_ignore_ascii_case(mode, "formal"@) ==> c == 'f');
        assert(text::eq_ignore_ascii_case(mode, "casual"@) ==> c == 'c');
        assert(text::eq_ignore_ascii_case(mode, "bullet"@) ==> c == 'b');
    }
    assert(text::eq_ignore_ascii_case(mode, "clean"@) ==> mode.len() == 5);
    assert(text::eq_ignore_ascii_case(mode, "formal"@) ==> mode.len() == 6);
    assert(text::eq_ignore_ascii_case(mode, "casual"@) ==> mode.len() == 6);
    assert(text::eq_ignore_ascii_case(mode, "bullet"@) ==> mode.len() == 6);
}

/// A stored name stands for the profile whose name it is, and for no other.
pub proof fn law_name_stands_for_one_profile(name: Seq<char>, p: ProfileView)
    ensures
        profile_named(name) == Some(p) <==> name == p.name(),
{
    law_name_roundtrip(p);
    if text::starts_with(name, "translate:"@) {
        assert(name =~= "translate:"@ + name.skip("translate:"@.len() as int));
    }
}

/// Stepping through the profiles goes through the modes in the order of the list.
pub proof fn law_profiles_step_through_the_list(i: int, p: ProfileView)
    requires
        0 <= i < 4,
        p.mode_name() == MENU_MODES@[i]@,
    ensures
        p.next().mode_name() == MENU_MODES@[(i + 1) % 4]@,
{
    reveal_strlit("clean");
    reveal_strlit("formal");
    reveal_strlit("casual");
    reveal_strlit("bullet");
    reveal_strlit("translate:");
    assert("formal"@[0] != "casual"@[0]);
    assert("formal"@[0] != "bullet"@[0]);
    assert("casual"@[0] != "bullet"@[0]);
    assert("clean"@.len() == 5 && "formal"@.len() == 6 && "casual"@.len() == 6 && "bullet"@.len()
        == 6);
    if p is Translate {
        assert(p.mode_name()[0] == 't');
        assert("clean"@[0] == 'c');
    }
}

proof fn lemma_instruction_line(line: Seq<char>, i: int)
    requires
        0 <= i <= CLEAN_INSTRUCTION@.len() - line.len(),
        forall|k: int| 0 <= k < line.len() ==> #[trigger] line[k] == CLEAN_INSTRUCTION@[i + k],
    ensures
        text::contains(CLEAN_INSTRUCTION@, line),
{
    assert(CLEAN_INSTRUCTION@.subrange(i, i + line.len()) =~= line);
    assert(text::occurs_at(CLEAN_INSTRUCTION@, line, i));
}

#[verifier::rlimit(80)]
proof fn lemma_instruction_lines()
    ensures
        text::contains(CLEAN_INSTRUCTION@, "- \"translate to <language>:\" - translate the text into that language"@),
        text::contains(CLEAN_INSTRUCTION@, "- \"make it formal:\" - rewrite in a professional, formal tone"@),
        text::contains(CLEAN_INSTRUCTION@, "- \"make it casual:\" - rewrite in a friendly, natural tone"@),
        text::contains(CLEAN_INSTRUCTION@, "- \"bullet points:\" or \"make it a list:\" - format as Markdown bullet points"@),
        text::contains(CLEAN_INSTRUCTION@, "If an instruction is present, execute it and strip the instruction prefix from the output."@),
        text::contains(CLEAN_INSTRUCTION@, "Otherwise, clean the transcribed speech by removing filler words, fixing punctuation, and preserving the original meaning."@),
{
    reveal_strlit(
        "You are a text post-processor for speech-to-text output.\n\nFirst, check if the input ends with an explicit instruction:\n- \"translate to <language>:\" - translate the text into that language\n- \"make it formal:\" - rewrite in a professional, formal tone\n- \"make it casual:\" - rewrite in a friendly, natural tone\n- \"bullet points:\" or \"make it a list:\" - format as Markdown bullet points\n\nIf an instruction is present, execute it and strip the instruction prefix from the output.\nIf no instruction is present but the input naturally describes a list of items (e.g., \"buy milk, eggs, and bread\" or \"first do this, second do that\"), format it as Markdown bullet points.\nOtherwise, clean the transcribed speech by removing filler words, fixing punctuation, and preserving the original meaning.",
    );
    assert(text::contains(CLEAN_INSTRUCTION@, "- \"translate to <language>:\" - translate the text into that language"@)) by {
        reveal_strlit("- \"translate to <language>:\" - translate the text into that language");
        lemma_instruction_line("- \"translate to <language>:\" - translate the text into that language"@, 119);
    }
    assert(text::contains(CLEAN_INSTRUCTION@, "- \"make it formal:\" - rewrite in a professional, formal tone"@)) by {
        reveal_strlit("- \"make it formal:\" - rewrite in a professional, formal tone");
        lemma_instruction_line("- \"make it formal:\" - rewrite in a professional, formal tone"@, 188);
    }
    assert(text::contains(CLEAN_INSTRUCTION@, "- \"make it casual:\" - rewrite in a friendly, natural tone"@)) by {
        reveal_strlit("- \"make it casual:\" - rewrite in a friendly, natural tone");
        lemma_instruction_line("- \"make it casual:\" - rewrite in a friendly, natural tone"@, 249);
    }
    assert(text::contains(CLEAN_INSTRUCTION@, "- \"bullet points:\" or \"make it a list:\" - format as Markdown bullet points"@)) by {
        reveal_strlit("- \"bullet points:\" or \"make it a list:\" - format as Markdown bullet points");
        lemma_instruction_line("- \"bullet points:\" or \"make it a list:\" - format as Markdown bullet points"@, 307);
    }
    assert(text::contains(CLEAN_INSTRUCTION@, "If an instruction is present, execute it and strip the instruction prefix from the output."@)) by {
        reveal_strlit("If an instruction is present, execute it and strip the instruction prefix from the output.");
        lemma_instruction_line("If an instruction is present, execute it and strip the instruction prefix from the output."@, 383);
    }
    assert(text::contains(CLEAN_INSTRUCTION@, "Otherwise, clean the transcribed speech by removing filler words, fixing punctuation, and preserving the original meaning."@)) by {
        reveal_strlit("Otherwise, clean the transcribed speech by removing filler words, fixing punctuation, and preserving the original meaning.");
        lemma_instruction_line("Otherwise, clean the transcribed speech by removing filler words, fixing punctuation, and preserving the original meaning."@, 662);
    }
}

/// The prompt lists the words by which each profile asks for its tone, and says what is
/// to be done for them, and without them. It asks for the text alone.
pub proof fn law_prompt_explains_the_tones(input: Seq<char>)
    ensures
        text::contains(prompt(input), "- \"translate to <language>:\" - translate the text into that language"@),
        text::contains(prompt(input), "- \"make it formal:\" - rewrite in a professional, formal tone"@),
        text::contains(prompt(input), "- \"make it casual:\" - rewrite in a friendly, natural tone"@),
        text::contains(prompt(input), "- \"bullet points:\" or \"make it a list:\" - format as Markdown bullet points"@),
        text::contains(prompt(input), "If an instruction is present, execute it and strip the instruction prefix from the output."@),
        text::contains(prompt(input), "Otherwise, clean the transcribed speech by removing filler words, fixing punctuation, and preserving the original meaning."@),
        text::contains(prompt(input), "Output only the processed text. No explanations, no quotes, no commentary."@),
{
    lemma_instruction_lines();
    lemma_stays_contained("- \"translate to <language>:\" - translate the text into that language"@, input);
    lemma_stays_contained("- \"make it formal:\" - rewrite in a professional, formal tone"@, input);
    lemma_stays_contained("- \"make it casual:\" - rewrite in a friendly, natural tone"@, input);
    lemma_stays_contained("- \"bullet points:\" or \"make it a list:\" - format as Markdown bullet points"@, input);
    lemma_stays_contained("If an instruction is present, execute it and strip the instruction prefix from the output."@, input);
    lemma_stays_contained("Otherwise, clean the transcribed speech by removing filler words, fixing punctuation, and preserving the original meaning."@, input);
    reveal_strlit(
        "\nOutput only the processed text. No explanations, no quotes, no commentary.\n\nInput: \"",
    );
    let asked = "Output only the processed text. No explanations, no quotes, no commentary."@;
    reveal_strlit("Output only the processed text. No explanations, no quotes, no commentary.");
    let n = CLEAN_INSTRUCTION@.len() as int + 1;
    assert(INPUT_HEAD@.subrange(1, 1int + asked.len()) =~= asked);
    assert(prompt(input).subrange(n, n + asked.len()) =~= INPUT_HEAD@.subrange(
        1,
        1int + asked.len(),
    ));
    assert(text::occurs_at(prompt(input), asked, n));
}

proof fn lemma_stays_contained(line: Seq<char>, input: Seq<char>)
    requires
        text::contains(CLEAN_INSTRUCTION@, line),
    ensures
        text::contains(prompt(input), line),
{
    let i = choose|i: int| text::occurs_at(CLEAN_INSTRUCTION@, line, i);
    assert(prompt(input).subrange(i, i + line.len()) =~= CLEAN_INSTRUCTION@.subrange(
        i,
        i + line.len(),
    ));
    assert(text::occurs_at(prompt(input), line, i));
}

} // verus!
