//! How the desktop application starts.
use crate::strings;
use crate::text;
use vstd::prelude::*;
use vstd::string::*;

verus! {

/// The port of the HTTP server without a GUI, unless another one is given.
pub const DEFAULT_APP_PORT: u16 = 4242;

/// The arguments of the desktop application.
#[derive(Debug)]
pub struct AppArgs {
    /// Skip the GUI and run as a background HTTP server only.
    pub headless: bool,
    /// Port for the background HTTP server (only used with `headless`).
    pub port: u16,
}

/// How the application runs.
#[derive(Debug, Clone, Copy, PartialEq, Eq, Structural)]
pub enum RunMode {
    /// Run the full desktop application with window and system tray.
    Desktop,
    /// Run only the background HTTP server, no GUI.
    Headless { port: u16 },
}

/// How the application runs, with or without a GUI and with a port.
pub open spec fn run_mode(headless: bool, port: u16) -> RunMode {
    if headless {
        RunMode::Headless { port }
    } else {
        RunMode::Desktop
    }
}

impl RunMode {
    /// How the application runs with the given arguments.
    pub fn from_args(args: &AppArgs) -> (res: RunMode)
        ensures
            res == if args.headless {
                RunMode::Headless { port: args.port }
            } else {
                RunMode::Desktop
            },
            res == run_mode(args.headless, args.port),
    {
        if args.headless {
            RunMode::Headless { port: args.port }
        } else {
            RunMode::Desktop
        }
    }
}

/// What the application does: what it prints first, and whether it starts the GUI.
#[derive(Debug)]
pub struct AppStart {
    pub output: Option<String>,
    pub gui: bool,
}

/// What the application prints when it starts without a GUI.
pub open spec fn headless_line_of(port: u16) -> Seq<char> {
    "headless mode, HTTP server on "@ + text::decimal(port as nat)
}

/// What the application prints when it starts without a GUI.
pub fn run_headless(port: u16) -> (res: String)
    ensures
        res@ == headless_line_of(port),
{
    let mut res = "headless mode, HTTP server on ".to_owned();
    res.append(strings::decimal(port as u64).as_str());
    res
}

/// What the application prints when it starts.
pub open spec fn first_line(headless: bool, port: u16) -> Option<Seq<char>> {
    match run_mode(headless, port) {
        RunMode::Headless { port: p } => Some(headless_line_of(p)),
        RunMode::Desktop => None,
    }
}

/// What the application does with the given arguments. The GUI is started only
/// without `headless`.
pub fn run(args: &AppArgs) -> (res: AppStart)
    ensures
        res.gui == !args.headless,
        match res.output {
            Some(line) => args.headless && line@ == headless_line_of(args.port),
            None => !args.headless,
        },
        match res.output {
            Some(line) => first_line(args.headless, args.port) == Some(line@),
            None => first_line(args.headless, args.port) is None,
        },
{
    match RunMode::from_args(args) {
        RunMode::Headless { port } => AppStart { output: Some(run_headless(port)), gui: false },
        RunMode::Desktop => AppStart { output: None, gui: true },
    }
}

// ─── Laws ────────────────────────────────────────────────────────────────────

/// Without a GUI the application serves the port that it was given, and says so. With one
/// the port does not count, and nothing is printed.
pub proof fn law_port_counts_without_a_gui(a: u16, b: u16)
    ensures
        run_mode(true, a) == (RunMode::Headless { port: a }),
        run_mode(false, a) == RunMode::Desktop,
        first_line(false, a) is None,
        first_line(true, a) == Some(
            "headless mode, HTTP server on "@ + text::signed_decimal(a as int),
        ),
        first_line(true, a) == first_line(true, b) ==> a == b,
{
    let head = "headless mode, HTTP server on "@;
    let n = head.len() as int;
    let x = text::decimal(a as nat);
    let y = text::decimal(b as nat);
    lemma_behind(head, x);
    lemma_behind(head, y);
    if headless_line_of(a) == headless_line_of(b) {
        text::law_signed_decimal_is_injective(a as int, b as int);
    }
}

proof fn lemma_behind(head: Seq<char>, tail: Seq<char>)
    ensures
        (head + tail).skip(head.len() as int) == tail,
{
    assert((head + tail).skip(head.len() as int) =~= tail);
}

} // verus!
