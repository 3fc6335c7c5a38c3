//! The tokenizer: what one raw argument means, taken by itself.
//!
//! The rules are tried in a fixed order and the first that applies decides.
//! Only the help flag is recognised without regard to letter case.

use crate::text::{
    ascii_lowercase, chars_of, contains, matches_at, occurs_in, reads_ignoring_ascii_case,
    starts_with, trim_bounds, trimmed, unquoted_range, without_leading_equals, without_quotes,
};
use vstd::prelude::*;

verus! {

/// The text that stands for "the caller gave no value for this parameter". An option that
/// holds it is not handed on to the tool.
pub const OMITTED_VALUE_MARK: &'static str = "-17976931348623157";

/// What one raw argument means.
#[derive(Debug, Clone, PartialEq, Eq)]
pub enum Token {
    /// The help flag.
    Help,
    /// A working-directory flag; `value` is empty when the directory comes as the next argument.
    WorkingDir { value: String },
    /// The flag that runs a tool.
    Run { name: String },
    /// The flag that asks for a tool's help.
    ToolHelp { name: String },
    /// The flag that asks for a tool's parameters.
    ToolParameters { name: String },
    /// The flag that asks for a tool's toolbox.
    Toolbox { name: String },
    /// The flag that lists the tools.
    ListTools,
    /// The flag that shows a tool's source code.
    ViewCode { name: String },
    /// The license flag.
    License,
    /// The version flag.
    Version,
    /// The verbosity flag.
    Verbose,
    /// Any other option: an argument for the tool, kept as it was written.
    Forwarded { arg: String },
    /// An option that holds the mark of an omitted value.
    Omitted,
    /// The name under which the program was called.
    ProgramName,
    /// An argument without a leading dash. `word` is the argument without surrounding white
    /// space and without quoting characters, `raw` the argument as it was written.
    Bare { word: String, raw: String },
}

/// The mathematical model of a [`Token`].
pub enum TokenView {
    Help,
    WorkingDir { value: Seq<char> },
    Run { name: Seq<char> },
    ToolHelp { name: Seq<char> },
    ToolParameters { name: Seq<char> },
    Toolbox { name: Seq<char> },
    ListTools,
    ViewCode { name: Seq<char> },
    License,
    Version,
    Verbose,
    Forwarded { arg: Seq<char> },
    Omitted,
    ProgramName,
    Bare { word: Seq<char>, raw: Seq<char> },
}

impl View for Token {
    type V = TokenView;

    open spec fn view(&self) -> TokenView {
        match self {
            Token::Help => TokenView::Help,
            Token::WorkingDir { value } => TokenView::WorkingDir { value: value@ },
            Token::Run { name } => TokenView::Run { name: name@ },
            Token::ToolHelp { name } => TokenView::ToolHelp { name: name@ },
            Token::ToolParameters { name } => TokenView::ToolParameters { name: name@ },
            Token::Toolbox { name } => TokenView::Toolbox { name: name@ },
            Token::ListTools => TokenView::ListTools,
            Token::ViewCode { name } => TokenView::ViewCode { name: name@ },
            Token::License => TokenView::License,
            Token::Version => TokenView::Version,
            Token::Verbose => TokenView::Verbose,
            Token::Forwarded { arg } => TokenView::Forwarded { arg: arg@ },
            Token::Omitted => TokenView::Omitted,
            Token::ProgramName => TokenView::ProgramName,
            Token::Bare { word, raw } => TokenView::Bare { word: word@, raw: raw@ },
        }
    }
}

/// The flags that end the scan at once.
#[derive(Debug, Clone, Copy, PartialEq, Eq, Structural)]
pub enum Terminal {
    Help,
    License,
    Version,
}

impl TokenView {
    /// The token asks for an action.
    pub open spec fn marks_action(self) -> bool {
        self is Run || self is ToolHelp || self is ToolParameters || self is Toolbox
            || self is ListTools || self is ViewCode
    }

    /// The flag that ends the scan, if the token is one.
    pub open spec fn terminal(self) -> Option<Terminal> {
        match self {
            TokenView::Help => Some(Terminal::Help),
            TokenView::License => Some(Terminal::License),
            TokenView::Version => Some(Terminal::Version),
            _ => None,
        }
    }
}

impl Token {
    /// The flag that ends the scan, if the token is one.
    pub fn terminal(&self) -> (t: Option<Terminal>)
        ensures
            t == self@.terminal(),
    {
        match self {
            Token::Help => Some(Terminal::Help),
            Token::License => Some(Terminal::License),
            Token::Version => Some(Terminal::Version),
            _ => None,
        }
    }
}

/// The value written behind `alias`, when `token` starts with `alias`: what follows the alias,
/// without one leading `=`, and then without quoting characters.
pub open spec fn value_behind(token: Seq<char>, alias: Seq<char>) -> Option<Seq<char>> {
    if alias.is_prefix_of(token) {
        Some(without_quotes(without_leading_equals(token.skip(alias.len() as int))))
    } else {
        None
    }
}

/// The first of two results that is there.
pub open spec fn first_of(a: Option<Seq<char>>, b: Option<Seq<char>>) -> Option<Seq<char>> {
    if a is Some {
        a
    } else {
        b
    }
}

/// The token is the help flag: `-h`, `--h`, `-help` or `--help`, in any mix of upper and
/// lower case.
pub open spec fn is_help_flag(token: Seq<char>) -> bool {
    let folded = ascii_lowercase(token);
    folded == "-h"@ || folded == "--h"@ || folded == "-help"@ || folded == "--help"@
}

/// The value of a working-directory flag (`--cd`, `--wd`, `-cd`, `-wd`).
pub open spec fn working_dir_value(token: Seq<char>) -> Option<Seq<char>> {
    first_of(
        value_behind(token, "--cd"@),
        first_of(
            value_behind(token, "--wd"@),
            first_of(value_behind(token, "-cd"@), value_behind(token, "-wd"@)),
        ),
    )
}

/// The value of a run flag (`--run`, `-run`, `-r`).
pub open spec fn run_value(token: Seq<char>) -> Option<Seq<char>> {
    first_of(
        value_behind(token, "--run"@),
        first_of(value_behind(token, "-run"@), value_behind(token, "-r"@)),
    )
}

/// The value of a tool-help flag (`--toolhelp`, `-toolhelp`).
pub open spec fn tool_help_value(token: Seq<char>) -> Option<Seq<char>> {
    first_of(value_behind(token, "--toolhelp"@), value_behind(token, "-toolhelp"@))
}

/// The value of a tool-parameters flag (`--toolparameters`, `-toolparameters`).
pub open spec fn tool_parameters_value(token: Seq<char>) -> Option<Seq<char>> {
    first_of(value_behind(token, "--toolparameters"@), value_behind(token, "-toolparameters"@))
}

/// The value of a toolbox flag (`--toolbox`, `-toolbox`).
pub open spec fn toolbox_value(token: Seq<char>) -> Option<Seq<char>> {
    first_of(value_behind(token, "--toolbox"@), value_behind(token, "-toolbox"@))
}

/// The value of a view-code flag (`--viewcode`, `-viewcode`).
pub open spec fn view_code_value(token: Seq<char>) -> Option<Seq<char>> {
    first_of(value_behind(token, "--viewcode"@), value_behind(token, "-viewcode"@))
}

/// The token starts with a list-tools flag.
pub open spec fn is_list_tools_flag(token: Seq<char>) -> bool {
    ||| "--listtools"@.is_prefix_of(token)
    ||| "-listtools"@.is_prefix_of(token)
    ||| "--list_tools"@.is_prefix_of(token)
    ||| "-list_tools"@.is_prefix_of(token)
}

/// The token starts with a license flag. `-l` stands for `-license` and `-licence` too.
pub open spec fn is_license_flag(token: Seq<char>) -> bool {
    ||| "-l"@.is_prefix_of(token)
    ||| "--license"@.is_prefix_of(token)
    ||| "--licence"@.is_prefix_of(token)
}

/// The token starts with `-version` or `--version`, or is `-V`.
pub open spec fn is_version_flag(token: Seq<char>) -> bool {
    ||| "-version"@.is_prefix_of(token)
    ||| "--version"@.is_prefix_of(token)
    ||| token == "-V"@
}

/// The token, without surrounding white space, is `-v`.
pub open spec fn is_verbose_flag(token: Seq<char>) -> bool {
    trimmed(token) == "-v"@
}

/// The token holds the mark of an omitted value.
pub open spec fn holds_omitted_mark(token: Seq<char>) -> bool {
    occurs_in(OMITTED_VALUE_MARK@, token)
}

/// What `token` means, when the program was called as `program`.
pub open spec fn classify_spec(token: Seq<char>, program: Seq<char>) -> TokenView {
    if is_help_flag(token) {
        TokenView::Help
    } else if let Some(value) = working_dir_value(token) {
        TokenView::WorkingDir { value }
    } else if let Some(name) = run_value(token) {
        TokenView::Run { name }
    } else if let Some(name) = tool_help_value(token) {
        TokenView::ToolHelp { name }
    } else if let Some(name) = tool_parameters_value(token) {
        TokenView::ToolParameters { name }
    } else if let Some(name) = toolbox_value(token) {
        TokenView::Toolbox { name }
    } else if is_list_tools_flag(token) {
        TokenView::ListTools
    } else if let Some(name) = view_code_value(token) {
        TokenView::ViewCode { name }
    } else if is_license_flag(token) {
        TokenView::License
    } else if is_version_flag(token) {
        TokenView::Version
    } else if is_verbose_flag(token) {
        TokenView::Verbose
    } else if "-"@.is_prefix_of(token) {
        if holds_omitted_mark(token) {
            TokenView::Omitted
        } else {
            TokenView::Forwarded { arg: token }
        }
    } else if token == program {
        TokenView::ProgramName
    } else {
        TokenView::Bare { word: without_quotes(trimmed(token)), raw: token }
    }
}

/// Tells whether `token` holds the mark of an omitted value.
pub fn carries_omitted_mark(token: &str) -> (b: bool)
    ensures
        b == holds_omitted_mark(token@),
{
    let chars = chars_of(token);
    contains(&chars, OMITTED_VALUE_MARK)
}

/// Tells whether the characters between `from` and `to` read `word`.
fn range_reads(chars: &Vec<char>, from: usize, to: usize, word: &str) -> (b: bool)
    requires
        from <= to <= chars@.len(),
    ensures
        b == (chars@.subrange(from as int, to as int) == word@),
{
    let hit = matches_at(chars, from, word);
    let len = word.unicode_len();
    hit && to - from == len
}

/// The value behind `alias`, if `token` starts with it. `chars` holds the characters of `token`.
fn read_value_behind(token: &str, chars: &Vec<char>, alias: &str) -> (r: Option<String>)
    requires
        chars@ == token@,
    ensures
        r.deep_view() == value_behind(token@, alias@),
{
    if !starts_with(chars, alias) {
        return None;
    }
    let n = chars.len();
    let after = alias.unicode_len();
    let ghost rest = token@.skip(after as int);
    let mut from = after;
    if from < n && chars[from] == '=' {
        from = from + 1;
    }
    proof {
        assert(rest =~= token@.subrange(after as int, n as int));
        assert(rest.len() > 0 ==> rest[0] == token@[after as int]);
        assert(without_leading_equals(rest) =~= token@.subrange(from as int, n as int));
    }
    Some(unquoted_range(token, chars, from, n))
}

/// The value behind a working-directory flag.
fn read_working_dir_value(token: &str, chars: &Vec<char>) -> (r: Option<String>)
    requires
        chars@ == token@,
    ensures
        r.deep_view() == working_dir_value(token@),
{
    let r = read_value_behind(token, chars, "--cd");
    if r.is_some() {
        return r;
    }
    let r = read_value_behind(token, chars, "--wd");
    if r.is_some() {
        return r;
    }
    let r = read_value_behind(token, chars, "-cd");
    if r.is_some() {
        return r;
    }
    read_value_behind(token, chars, "-wd")
}

/// The value behind a run flag.
fn read_run_value(token: &str, chars: &Vec<char>) -> (r: Option<String>)
    requires
        chars@ == token@,
    ensures
        r.deep_view() == run_value(token@),
{
    let r = read_value_behind(token, chars, "--run");
    if r.is_some() {
        return r;
    }
    let r = read_value_behind(token, chars, "-run");
    if r.is_some() {
        return r;
    }
    read_value_behind(token, chars, "-r")
}

/// The value behind the flag that is written `long` with two dashes and `short` with one.
fn read_value_behind_either(token: &str, chars: &Vec<char>, long: &str, short: &str) -> (r: Option<
    String,
>)
    requires
        chars@ == token@,
    ensures
        r.deep_view() == first_of(value_behind(token@, long@), value_behind(token@, short@)),
{
    let r = read_value_behind(token, chars, long);
    if r.is_some() {
        return r;
    }
    read_value_behind(token, chars, short)
}

/// Says what `token` means, when the program was called as `program`.
pub fn classify(token: &str, program: &str) -> (t: Token)
    ensures
        t@ == classify_spec(token@, program@),
{
    let chars = chars_of(token);
    let n = chars.len();
    if reads_ignoring_ascii_case(&chars, "-h") || reads_ignoring_ascii_case(&chars, "--h")
        || reads_ignoring_ascii_case(&chars, "-help") || reads_ignoring_ascii_case(
        &chars,
        "--help",
    ) {
        return Token::Help;
    }
    if let Some(value) = read_working_dir_value(token, &chars) {
        return Token::WorkingDir { value };
    }
    if let Some(name) = read_run_value(token, &chars) {
        return Token::Run { name };
    }
    if let Some(name) = read_value_behind_either(token, &chars, "--toolhelp", "-toolhelp") {
        return Token::ToolHelp { name };
    }
    if let Some(name) = read_value_behind_either(
        token,
        &chars,
        "--toolparameters",
        "-toolparameters",
    ) {
        return Token::ToolParameters { name };
    }
    if let Some(name) = read_value_behind_either(token, &chars, "--toolbox", "-toolbox") {
        return Token::Toolbox { name };
    }
    if starts_with(&chars, "--listtools") || starts_with(&chars, "-listtools") || starts_with(
        &chars,
        "--list_tools",
    ) || starts_with(&chars, "-list_tools") {
        return Token::ListTools;
    }
    if let Some(name) = read_value_behind_either(token, &chars, "--viewcode", "-viewcode") {
        return Token::ViewCode { name };
    }
    if starts_with(&chars, "-l") || starts_with(&chars, "--license") || starts_with(
        &chars,
        "--licence",
    ) {
        return Token::License;
    }
    proof {
        assert(chars@.subrange(0, n as int) =~= token@);
    }
    if starts_with(&chars, "-version") || starts_with(&chars, "--version") || range_reads(
        &chars,
        0,
        n,
        "-V",
    ) {
        return Token::Version;
    }
    let (a, b) = trim_bounds(&chars);
    if range_reads(&chars, a, b, "-v") {
        return Token::Verbose;
    }
    if starts_with(&chars, "-") {
        if carries_omitted_mark(token) {
            return Token::Omitted;
        }
        return Token::Forwarded { arg: token.to_owned() };
    }
    if range_reads(&chars, 0, n, program) {
        return Token::ProgramName;
    }
    Token::Bare { word: unquoted_range(token, &chars, a, b), raw: token.to_owned() }
}

} // verus!
