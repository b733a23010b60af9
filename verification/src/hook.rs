//! The post-processing hook in the voxtype configuration.
use crate::strings;
use crate::text;
use vstd::prelude::*;
use vstd::string::*;

verus! {

/// The header of the hook's section.
pub const HOOK_HEADER: &'static str = "[output.post_process]";

/// The command that the hook runs.
pub const HOOK_COMMAND: &'static str = "e-voice process";

/// The section that makes voxtype run the command on what it transcribed.
pub const POST_PROCESS_BLOCK: &'static str =
    "[output.post_process]\ncommand = \"e-voice process\"\ntimeout_ms = 10000\n";

/// Both the hook's section and what it refers to stand in the configuration.
pub open spec fn hook_present(content: Seq<char>, target: Seq<char>) -> bool {
    text::contains(content, HOOK_HEADER@) && text::contains(content, target)
}

/// The configuration with a block behind it, on a line of its own.
pub open spec fn with_block(content: Seq<char>, block: Seq<char>) -> Seq<char> {
    if content.len() > 0 && content.last() != '\n' {
        content + "\n"@ + block
    } else {
        content + block
    }
}

/// The configuration with the hook: as it is if the hook stands in it, and with
/// the hook's section at its end otherwise.
pub open spec fn hooked(content: Seq<char>, target: Seq<char>, block: Seq<char>) -> Seq<char> {
    if hook_present(content, target) {
        content
    } else {
        with_block(content, block)
    }
}

/// The address at which the HTTP server on `port` takes text.
pub open spec fn process_url_of(port: u16) -> Seq<char> {
    "http://127.0.0.1:"@ + text::decimal(port as nat) + "/process"@
}

/// The section that makes voxtype send what it transcribed to an address.
pub open spec fn http_block_of(url: Seq<char>) -> Seq<char> {
    "[output.post_process]\nurl = \""@ + url + "\"\ntimeout_ms = 10000\n"@
}

/// Adds a hook to the configuration. `None` means that it stands there already
/// and nothing has to be written.
fn add_hook(content: &str, target: &str, block: &str) -> (res: Option<String>)
    ensures
        res is None <==> hook_present(content@, target@),
        res matches Some(r) ==> r@ == hooked(content@, target@, block@),
{
    if strings::contains(content, HOOK_HEADER) && strings::contains(content, target) {
        return None;
    }
    let mut res = content.to_owned();
    if !strings::ends_with(content, '\n') && !content.is_empty() {
        res.append("\n");
    }
    res.append(block);
    Some(res)
}

/// Adds the hook that runs `e-voice process` to the configuration. `None` means
/// that it stands there already and nothing has to be written.
pub fn patch_voxtype_post_process_hook(content: &str) -> (res: Option<String>)
    ensures
        res is None <==> hook_present(content@, HOOK_COMMAND@),
        res matches Some(r) ==> r@ == hooked(content@, HOOK_COMMAND@, POST_PROCESS_BLOCK@),
{
    add_hook(content, HOOK_COMMAND, POST_PROCESS_BLOCK)
}

/// The address at which the HTTP server on `port` takes text.
pub fn process_url(port: u16) -> (res: String)
    ensures
        res@ == process_url_of(port),
{
    let mut res = "http://127.0.0.1:".to_owned();
    let digits = strings::decimal(port as u64);
    res.append(digits.as_str());
    res.append("/process");
    res
}

/// Adds the hook that sends text to the HTTP server on `port`. `None` means that
/// it stands there already and nothing has to be written.
pub fn patch_voxtype_http_hook(content: &str, port: u16) -> (res: Option<String>)
    ensures
        res is None <==> hook_present(content@, process_url_of(port)),
        res matches Some(r) ==> r@ == hooked(
            content@,
            process_url_of(port),
            http_block_of(process_url_of(port)),
        ),
{
    let url = process_url(port);
    let mut block = "[output.post_process]\nurl = \"".to_owned();
    block.append(url.as_str());
    block.append("\"\ntimeout_ms = 10000\n");
    add_hook(content, url.as_str(), block.as_str())
}

// ─── Laws ────────────────────────────────────────────────────────────────────

/// What stands in the end of a text stands in the text.
proof fn lemma_contains_suffix(before: Seq<char>, after: Seq<char>, p: Seq<char>)
    requires
        text::contains(after, p),
    ensures
        text::contains(before + after, p),
{
    let i = choose|i: int| text::occurs_at(after, p, i);
    let n = before.len() as int;
    assert((before + after).subrange(n + i, n + i + p.len()) =~= after.subrange(i, i + p.len()));
    assert(text::occurs_at(before + after, p, n + i));
}

/// The hook's sections hold what they are recognised by.
proof fn lemma_blocks(url: Seq<char>)
    ensures
        text::contains(POST_PROCESS_BLOCK@, HOOK_HEADER@),
        text::contains(POST_PROCESS_BLOCK@, HOOK_COMMAND@),
        text::contains(http_block_of(url), HOOK_HEADER@),
        text::contains(http_block_of(url), url),
{
    reveal_strlit("[output.post_process]");
    reveal_strlit("e-voice process");
    reveal_strlit("[output.post_process]\ncommand = \"e-voice process\"\ntimeout_ms = 10000\n");
    reveal_strlit("[output.post_process]\nurl = \"");
    let block = POST_PROCESS_BLOCK@;
    assert(block.subrange(0, 21) =~= HOOK_HEADER@);
    assert(text::occurs_at(block, HOOK_HEADER@, 0));
    assert(block.subrange(33, 48) =~= HOOK_COMMAND@);
    assert(text::occurs_at(block, HOOK_COMMAND@, 33));
    let http = http_block_of(url);
    let head = "[output.post_process]\nurl = \""@;
    assert(http.subrange(0, 21) =~= HOOK_HEADER@);
    assert(text::occurs_at(http, HOOK_HEADER@, 0));
    let n = head.len() as int;
    assert(http.subrange(n, n + url.len()) =~= url);
    assert(text::occurs_at(http, url, n));
}

/// A block that holds its own marks can be added once only, and what was there
/// before stays in front of it.
proof fn lemma_hooked(content: Seq<char>, target: Seq<char>, block: Seq<char>)
    requires
        text::contains(block, HOOK_HEADER@),
        text::contains(block, target),
    ensures
        hook_present(hooked(content, target, block), target),
        hooked(hooked(content, target, block), target, block) == hooked(content, target, block),
        text::starts_with(hooked(content, target, block), content),
{
    let out = hooked(content, target, block);
    if hook_present(content, target) {
        assert(content.take(content.len() as int) =~= content);
    } else {
        lemma_contains_suffix(content, block, HOOK_HEADER@);
        lemma_contains_suffix(content, block, target);
        lemma_contains_suffix(content + "\n"@, block, HOOK_HEADER@);
        lemma_contains_suffix(content + "\n"@, block, target);
        assert(out.take(content.len() as int) =~= content);
    }
}

/// After patching, the command hook is there, patching again changes nothing, and
/// the old configuration stands unchanged in front.
pub proof fn law_post_process_hook(content: Seq<char>)
    ensures
        ({
            let out = hooked(content, HOOK_COMMAND@, POST_PROCESS_BLOCK@);
            &&& hook_present(out, HOOK_COMMAND@)
            &&& hooked(out, HOOK_COMMAND@, POST_PROCESS_BLOCK@) == out
            &&& text::starts_with(out, content)
        }),
{
    lemma_blocks(Seq::empty());
    lemma_hooked(content, HOOK_COMMAND@, POST_PROCESS_BLOCK@);
}

/// The same of the hook for the HTTP server.
pub proof fn law_http_hook(content: Seq<char>, port: u16)
    ensures
        ({
            let url = process_url_of(port);
            let out = hooked(content, url, http_block_of(url));
            &&& hook_present(out, url)
            &&& hooked(out, url, http_block_of(url)) == out
            &&& text::starts_with(out, content)
        }),
{
    let url = process_url_of(port);
    lemma_blocks(url);
    lemma_hooked(content, url, http_block_of(url));
}

/// A configuration without the hook gets the whole section at its end, on a line of its
/// own, and nothing else: at most one line feed stands between.
pub proof fn law_section_is_added(content: Seq<char>, target: Seq<char>, block: Seq<char>)
    requires
        !hook_present(content, target),
    ensures
        ({
            let out = hooked(content, target, block);
            &&& text::starts_with(out, content)
            &&& text::ends_with(out, block)
            &&& out.len() <= content.len() + block.len() + 1
            &&& out.len() > block.len() ==> out[out.len() - block.len() - 1] == '\n'
            &&& (content.len() == 0 || content.last() == '\n') ==> out == content + block
        }),
{
    reveal_strlit("\n");
    let out = hooked(content, target, block);
    assert(out.take(content.len() as int) =~= content);
    assert(out.skip(out.len() - block.len()) =~= block);
}

/// A configuration with the hook is left as it is, wherever the hook stands in it. The
/// section alone, without what it refers to, is not the hook.
pub proof fn law_hook_is_recognised(
    a: Seq<char>,
    b: Seq<char>,
    c: Seq<char>,
    target: Seq<char>,
    block: Seq<char>,
)
    ensures
        ({
            let content = a + "[output.post_process]"@ + b + target + c;
            hook_present(content, target) && hooked(content, target, block) == content
        }),
        !text::contains(a, target) ==> hooked(a, target, block) == with_block(a, block),
{
    let header = "[output.post_process]"@;
    let content = a + header + b + target + c;
    text::law_parts_are_found(a + header + b, target, c);
    text::law_parts_are_found(a, header, b + target + c);
    assert(a + header + (b + target + c) =~= content);
}

/// The section that runs the command: its header, the command and how long it has.
pub proof fn law_command_section()
    ensures
        text::lines(POST_PROCESS_BLOCK@) == seq![
            "[output.post_process]"@,
            "command = \"e-voice process\""@,
            "timeout_ms = 10000"@,
        ],
{
    reveal_strlit("[output.post_process]");
    reveal_strlit("command = \"e-voice process\"");
    reveal_strlit("timeout_ms = 10000");
    reveal_strlit("\n");
    reveal_strlit("[output.post_process]\ncommand = \"e-voice process\"\ntimeout_ms = 10000\n");
    let a = "[output.post_process]"@;
    let b = "command = \"e-voice process\""@;
    let c = "timeout_ms = 10000"@;
    let none = Seq::<char>::empty();
    assert(POST_PROCESS_BLOCK@ =~= a + "\n"@ + (b + "\n"@ + (c + "\n"@ + none)));
    text::law_lines(a, b + "\n"@ + (c + "\n"@ + none));
    text::law_lines(b, c + "\n"@ + none);
    text::law_lines(c, none);
    assert(text::lines(POST_PROCESS_BLOCK@) =~= seq![a, b, c]);
}

/// The section that sends text to an address: its header, the address between quotes and
/// how long the server has.
pub proof fn law_address_section(url: Seq<char>)
    requires
        text::free_of(url, '\n'),
    ensures
        text::lines(http_block_of(url)) == seq![
            "[output.post_process]"@,
            "url = \""@ + url + "\""@,
            "timeout_ms = 10000"@,
        ],
{
    reveal_strlit("[output.post_process]");
    reveal_strlit("[output.post_process]\nurl = \"");
    reveal_strlit("\"\ntimeout_ms = 10000\n");
    reveal_strlit("url = \"");
    reveal_strlit("\"");
    reveal_strlit("timeout_ms = 10000");
    reveal_strlit("\n");
    let a = "[output.post_process]"@;
    let b = "url = \""@ + url + "\""@;
    let c = "timeout_ms = 10000"@;
    let none = Seq::<char>::empty();
    assert forall|i: int| 0 <= i < b.len() implies #[trigger] b[i] != '\n' by {
        if 7 <= i < 7 + url.len() {
            assert(b[i] == url[i - 7]);
        }
    }
    assert(http_block_of(url) =~= a + "\n"@ + (b + "\n"@ + (c + "\n"@ + none)));
    text::law_lines(a, b + "\n"@ + (c + "\n"@ + none));
    text::law_lines(b, c + "\n"@ + none);
    text::law_lines(c, none);
    assert(text::lines(http_block_of(url)) =~= seq![a, b, c]);
}

/// The server on each port has an address of its own on this machine.
pub proof fn law_addresses_differ(a: u16, b: u16)
    ensures
        text::starts_with(process_url_of(a), "http://127.0.0.1:"@),
        text::ends_with(process_url_of(a), "/process"@),
        process_url_of(a) == process_url_of(b) ==> a == b,
{
    let head = "http://127.0.0.1:"@;
    let tail = "/process"@;
    lemma_between(head, text::decimal(a as nat), tail);
    lemma_between(head, text::decimal(b as nat), tail);
    if process_url_of(a) == process_url_of(b) {
        text::law_signed_decimal_is_injective(a as int, b as int);
    }
}

/// What stands between two texts is found again.
proof fn lemma_between(head: Seq<char>, part: Seq<char>, tail: Seq<char>)
    ensures
        ({
            let s = head + part + tail;
            &&& text::starts_with(s, head)
            &&& text::ends_with(s, tail)
            &&& s.subrange(head.len() as int, s.len() - tail.len()) == part
        }),
{
    let s = head + part + tail;
    assert(s.take(head.len() as int) =~= head);
    assert(s.skip(s.len() - tail.len()) =~= tail);
    assert(s.subrange(head.len() as int, s.len() - tail.len()) =~= part);
}

/// The hook is there exactly if both its header and what it refers to stand in the
/// configuration. After patching both do, wherever only one of them stood before.
pub proof fn law_hook_is_there_after_patching(content: Seq<char>, port: u16)
    ensures
        hook_present(content, HOOK_COMMAND@) <==> text::contains(
            content,
            "[output.post_process]"@,
        ) && text::contains(content, "e-voice process"@),
        ({
            let out = hooked(content, HOOK_COMMAND@, POST_PROCESS_BLOCK@);
            text::contains(out, "[output.post_process]"@) && text::contains(
                out,
                "e-voice process"@,
            )
        }),
        ({
            let url = process_url_of(port);
            let out = hooked(content, url, http_block_of(url));
            text::contains(out, "[output.post_process]"@) && text::contains(out, url)
        }),
{
    law_post_process_hook(content);
    law_http_hook(content, port);
}

} // verus!
