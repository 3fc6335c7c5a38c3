//! The resolver: from the arguments of one invocation to its command.

use crate::command::{view_of, Command, CommandView};
use crate::state::{InvocationState, StateView};
use crate::text::{chars_of, matches_at};
use crate::token::{classify, classify_spec, Terminal};
use vstd::prelude::*;

verus! {

/// How a scan of the arguments ended.
#[derive(Debug, Clone, PartialEq, Eq)]
pub struct Scan {
    /// The flag that ended the scan before the last argument, if one did.
    pub halted: Option<Terminal>,
    /// What had been gathered when the scan ended.
    pub state: InvocationState,
}

/// The mathematical model of a [`Scan`].
pub struct ScanView {
    pub halted: Option<Terminal>,
    pub state: StateView,
}

impl View for Scan {
    type V = ScanView;

    open spec fn view(&self) -> ScanView {
        ScanView { halted: self.halted, state: self.state@ }
    }
}

/// What one invocation resolves to.
#[derive(Debug, Clone, PartialEq, Eq)]
pub struct Resolution {
    /// The command; none where arguments were given and none of them asks for an action.
    pub command: Option<Command>,
    /// What was gathered from the arguments, with the working directory made ready for use.
    pub state: InvocationState,
}

/// The mathematical model of a [`Resolution`].
pub struct ResolutionView {
    pub command: Option<CommandView>,
    pub state: StateView,
}

impl View for Resolution {
    type V = ResolutionView;

    open spec fn view(&self) -> ResolutionView {
        ResolutionView { command: view_of(self.command), state: self.state@ }
    }
}

impl Terminal {
    /// The command that the flag stands for.
    pub open spec fn command_view(self) -> CommandView {
        match self {
            Terminal::Help => CommandView::ShowHelp,
            Terminal::License => CommandView::ShowLicense,
            Terminal::Version => CommandView::ShowVersion,
        }
    }

    /// The command that the flag stands for.
    pub fn command(self) -> (c: Command)
        ensures
            c@ == self.command_view(),
    {
        match self {
            Terminal::Help => Command::ShowHelp,
            Terminal::License => Command::ShowLicense,
            Terminal::Version => Command::ShowVersion,
        }
    }
}

/// The scan of `tokens`, begun in `state`: each token is classified and taken in, in order; the
/// first token that is a terminal flag ends the scan, and what follows it is not read.
pub open spec fn scan_spec(state: StateView, tokens: Seq<Seq<char>>, program: Seq<char>) -> ScanView
    decreases tokens.len(),
{
    if tokens.len() == 0 {
        ScanView { halted: None, state }
    } else {
        let token = classify_spec(tokens[0], program);
        if token.terminal() is Some {
            ScanView { halted: token.terminal(), state }
        } else {
            scan_spec(state.absorb(token), tokens.drop_first(), program)
        }
    }
}

/// `dir` made ready for use: a directory that is not empty ends with `separator`.
pub open spec fn normalized_dir(dir: Seq<char>, separator: Seq<char>) -> Seq<char> {
    if dir.len() > 0 && !separator.is_suffix_of(dir) {
        dir + separator
    } else {
        dir
    }
}

/// What the arguments `argv` resolve to. `argv[0]` is the name under which the program was
/// called. With no argument behind it, the command is the default listing. Otherwise all of
/// `argv` is scanned; a terminal flag decides the command, else the actions marked do.
pub open spec fn resolve_spec(argv: Seq<Seq<char>>, separator: Seq<char>) -> ResolutionView {
    if argv.len() <= 1 {
        ResolutionView { command: Some(CommandView::DefaultListing), state: StateView::initial() }
    } else {
        let scan = scan_spec(StateView::initial(), argv, argv[0]);
        ResolutionView {
            command: match scan.halted {
                Some(flag) => Some(flag.command_view()),
                None => scan.state.requested(),
            },
            state: StateView {
                working_dir: normalized_dir(scan.state.working_dir, separator),
                ..scan.state
            },
        }
    }
}

/// Scans `tokens`, for a program called as `program`.
pub fn scan(tokens: &Vec<String>, program: &str) -> (r: Scan)
    ensures
        r@ == scan_spec(StateView::initial(), tokens.deep_view(), program@),
{
    let mut state = InvocationState::new();
    let ghost all = tokens.deep_view();
    let mut i: usize = 0;
    proof {
        assert(all.skip(0) =~= all);
    }
    while i < tokens.len()
        invariant
            i <= tokens.len(),
            all == tokens.deep_view(),
            scan_spec(StateView::initial(), all, program@) == scan_spec(
                state@,
                all.skip(i as int),
                program@,
            ),
        decreases tokens.len() - i,
    {
        let token = classify(tokens[i].as_str(), program);
        proof {
            assert(all.skip(i as int)[0] == tokens@[i as int]@);
            assert(all.skip(i as int).drop_first() =~= all.skip(i + 1));
        }
        let halted = token.terminal();
        if halted.is_some() {
            return Scan { halted, state };
        }
        state.absorb(token);
        i += 1;
    }
    Scan { halted: None, state }
}

/// Makes the working directory `dir` ready for use: where it is not empty and does not end
/// with `separator`, `separator` is added.
pub fn normalize_working_dir(dir: &mut String, separator: &str)
    ensures
        final(dir)@ == normalized_dir(old(dir)@, separator@),
{
    let chars = chars_of(dir.as_str());
    let n = chars.len();
    let m = separator.unicode_len();
    if n > 0 && !(m <= n && matches_at(&chars, n - m, separator)) {
        dir.append(separator);
    }
}

/// Resolves the arguments `argv` of one invocation. `separator` is the path separator of the
/// platform.
pub fn resolve(argv: &Vec<String>, separator: &str) -> (r: Resolution)
    ensures
        r@ == resolve_spec(argv.deep_view(), separator@),
{
    if argv.len() <= 1 {
        return Resolution { command: Some(Command::DefaultListing), state: InvocationState::new() };
    }
    let Scan { halted, mut state } = scan(argv, argv[0].as_str());
    let command = match halted {
        Some(flag) => Some(flag.command()),
        None => state.requested(),
    };
    normalize_working_dir(&mut state.working_dir, separator);
    Resolution { command, state }
}

} // verus!
