//! What holds of every resolution, proved from the definitions of the scan and the resolver.

use crate::command::CommandView;
use crate::resolve::{normalized_dir, resolve_spec, scan_spec, ResolutionView};
use crate::state::StateView;
use crate::text::{is_quote, not_quote, quote_free, trimmed, without_leading_equals, without_quotes};
use crate::token::{classify_spec, holds_omitted_mark, value_behind, TokenView};
use vstd::prelude::*;

verus! {

/// Some token of `tokens` has a meaning of which `p` holds.
pub open spec fn some_token(
    tokens: Seq<Seq<char>>,
    program: Seq<char>,
    p: spec_fn(TokenView) -> bool,
) -> bool {
    exists|i: int| 0 <= i < tokens.len() && p(#[trigger] classify_spec(tokens[i], program))
}

/// The token at position `at` is the first terminal flag of `tokens`.
pub open spec fn first_terminal_at(tokens: Seq<Seq<char>>, program: Seq<char>, at: int) -> bool {
    &&& 0 <= at < tokens.len()
    &&& classify_spec(tokens[at], program).terminal() is Some
    &&& forall|j: int|
        0 <= j < at ==> (#[trigger] classify_spec(tokens[j], program)).terminal() is None
}

/// An invocation is well formed when it has no argument behind the program's name, or when
/// one of its arguments is a terminal flag or asks for an action.
pub open spec fn well_formed(argv: Seq<Seq<char>>) -> bool {
    argv.len() <= 1 || some_token(
        argv,
        argv[0],
        |t: TokenView| t.terminal() is Some || t.marks_action(),
    )
}

/// No extracted value of `state` holds a quoting character: not the working directory, not
/// the pending tool name, no keyword.
pub open spec fn holds_no_quote(state: StateView) -> bool {
    &&& quote_free(state.working_dir)
    &&& quote_free(state.pending_tool_name)
    &&& forall|i: int| 0 <= i < state.keywords.len() ==> quote_free(#[trigger] state.keywords[i])
}

/// No option among the forwarded arguments of `state` holds the mark of an omitted value.
pub open spec fn forwards_no_omitted_option(state: StateView) -> bool {
    forall|i: int|
        0 <= i < state.forwarded_args.len() && "-"@.is_prefix_of(#[trigger] state.forwarded_args[i])
            ==> !holds_omitted_mark(state.forwarded_args[i])
}

proof fn lemma_some_token_unfold(
    tokens: Seq<Seq<char>>,
    program: Seq<char>,
    p: spec_fn(TokenView) -> bool,
)
    requires
        tokens.len() > 0,
    ensures
        some_token(tokens, program, p) == (p(classify_spec(tokens[0], program)) || some_token(
            tokens.drop_first(),
            program,
            p,
        )),
{
    let rest = tokens.drop_first();
    if some_token(tokens, program, p) {
        let i = choose|i: int|
            0 <= i < tokens.len() && p(#[trigger] classify_spec(tokens[i], program));
        if i > 0 {
            assert(rest[i - 1] == tokens[i]);
            assert(p(classify_spec(rest[i - 1], program)));
        }
    }
    if some_token(rest, program, p) {
        let i = choose|i: int| 0 <= i < rest.len() && p(#[trigger] classify_spec(rest[i], program));
        assert(tokens[i + 1] == rest[i]);
        assert(p(classify_spec(tokens[i + 1], program)));
    }
}

proof fn lemma_some_token_weaken(
    tokens: Seq<Seq<char>>,
    program: Seq<char>,
    p: spec_fn(TokenView) -> bool,
    q: spec_fn(TokenView) -> bool,
)
    requires
        forall|t: TokenView| #[trigger] p(t) ==> q(t),
    ensures
        some_token(tokens, program, p) ==> some_token(tokens, program, q),
{
    if some_token(tokens, program, p) {
        let i = choose|i: int|
            0 <= i < tokens.len() && p(#[trigger] classify_spec(tokens[i], program));
        assert(q(classify_spec(tokens[i], program)));
    }
}

proof fn lemma_scan_halts_at_first_terminal(
    state: StateView,
    tokens: Seq<Seq<char>>,
    program: Seq<char>,
    at: int,
)
    requires
        first_terminal_at(tokens, program, at),
    ensures
        scan_spec(state, tokens, program).halted == classify_spec(tokens[at], program).terminal(),
    decreases at,
{
    if at > 0 {
        let token = classify_spec(tokens[0], program);
        let rest = tokens.drop_first();
        assert(token.terminal() is None);
        assert(rest[at - 1] == tokens[at]);
        assert forall|j: int| 0 <= j < at - 1 implies (#[trigger] classify_spec(
            rest[j],
            program,
        )).terminal() is None by {
            assert(rest[j] == tokens[j + 1]);
        }
        lemma_scan_halts_at_first_terminal(state.absorb(token), rest, program, at - 1);
    }
}

proof fn lemma_scan_marks(state: StateView, tokens: Seq<Seq<char>>, program: Seq<char>)
    ensures
        ({
            let end = scan_spec(state, tokens, program);
            &&& end.halted is Some <==> some_token(
                tokens,
                program,
                |t: TokenView| t.terminal() is Some,
            )
            &&& end.halted is None ==> {
                &&& end.state.marks.run_tool == (state.marks.run_tool || some_token(
                    tokens,
                    program,
                    |t: TokenView| t is Run,
                ))
                &&& end.state.marks.tool_help == (state.marks.tool_help || some_token(
                    tokens,
                    program,
                    |t: TokenView| t is ToolHelp,
                ))
                &&& end.state.marks.tool_parameters == (state.marks.tool_parameters || some_token(
                    tokens,
                    program,
                    |t: TokenView| t is ToolParameters,
                ))
                &&& end.state.marks.toolbox == (state.marks.toolbox || some_token(
                    tokens,
                    program,
                    |t: TokenView| t is Toolbox,
                ))
                &&& end.state.marks.list_tools == (state.marks.list_tools || some_token(
                    tokens,
                    program,
                    |t: TokenView| t is ListTools,
                ))
                &&& end.state.marks.view_code == (state.marks.view_code || some_token(
                    tokens,
                    program,
                    |t: TokenView| t is ViewCode,
                ))
            }
        }),
    decreases tokens.len(),
{
    if tokens.len() > 0 {
        let token = classify_spec(tokens[0], program);
        lemma_some_token_unfold(tokens, program, |t: TokenView| t.terminal() is Some);
        lemma_some_token_unfold(tokens, program, |t: TokenView| t is Run);
        lemma_some_token_unfold(tokens, program, |t: TokenView| t is ToolHelp);
        lemma_some_token_unfold(tokens, program, |t: TokenView| t is ToolParameters);
        lemma_some_token_unfold(tokens, program, |t: TokenView| t is Toolbox);
        lemma_some_token_unfold(tokens, program, |t: TokenView| t is ListTools);
        lemma_some_token_unfold(tokens, program, |t: TokenView| t is ViewCode);
        if token.terminal() is None {
            lemma_scan_marks(state.absorb(token), tokens.drop_first(), program);
        }
    }
}

proof fn lemma_scan_keeps(
    inv: spec_fn(StateView) -> bool,
    state: StateView,
    tokens: Seq<Seq<char>>,
    program: Seq<char>,
)
    requires
        inv(state),
        forall|s: StateView, t: Seq<char>|
            inv(s) ==> #[trigger] inv(s.absorb(classify_spec(t, program))),
    ensures
        inv(scan_spec(state, tokens, program).state),
    decreases tokens.len(),
{
    if tokens.len() > 0 {
        let token = classify_spec(tokens[0], program);
        if token.terminal() is None {
            assert(inv(state.absorb(classify_spec(tokens[0], program))));
            lemma_scan_keeps(inv, state.absorb(token), tokens.drop_first(), program);
        }
    }
}

proof fn lemma_without_quotes_is_quote_free(s: Seq<char>)
    ensures
        quote_free(without_quotes(s)),
{
    let out = without_quotes(s);
    assert forall|i: int| 0 <= i < out.len() implies !is_quote(#[trigger] out[i]) by {
        s.lemma_filter_pred(not_quote(), i);
    }
}

proof fn lemma_value_behind_is_quote_free(token: Seq<char>, alias: Seq<char>)
    ensures
        value_behind(token, alias) matches Some(v) ==> quote_free(v),
{
    if alias.is_prefix_of(token) {
        lemma_without_quotes_is_quote_free(
            without_leading_equals(token.skip(alias.len() as int)),
        );
    }
}

proof fn lemma_token_values_are_quote_free(token: Seq<char>, program: Seq<char>)
    ensures
        match classify_spec(token, program) {
            TokenView::WorkingDir { value } => quote_free(value),
            TokenView::Run { name } => quote_free(name),
            TokenView::ToolHelp { name } => quote_free(name),
            TokenView::ToolParameters { name } => quote_free(name),
            TokenView::Toolbox { name } => quote_free(name),
            TokenView::ViewCode { name } => quote_free(name),
            TokenView::Bare { word, .. } => quote_free(word),
            _ => true,
        },
{
    lemma_value_behind_is_quote_free(token, "--cd"@);
    lemma_value_behind_is_quote_free(token, "--wd"@);
    lemma_value_behind_is_quote_free(token, "-cd"@);
    lemma_value_behind_is_quote_free(token, "-wd"@);
    lemma_value_behind_is_quote_free(token, "--run"@);
    lemma_value_behind_is_quote_free(token, "-run"@);
    lemma_value_behind_is_quote_free(token, "-r"@);
    lemma_value_behind_is_quote_free(token, "--toolhelp"@);
    lemma_value_behind_is_quote_free(token, "-toolhelp"@);
    lemma_value_behind_is_quote_free(token, "--toolparameters"@);
    lemma_value_behind_is_quote_free(token, "-toolparameters"@);
    lemma_value_behind_is_quote_free(token, "--toolbox"@);
    lemma_value_behind_is_quote_free(token, "-toolbox"@);
    lemma_value_behind_is_quote_free(token, "--viewcode"@);
    lemma_value_behind_is_quote_free(token, "-viewcode"@);
    lemma_without_quotes_is_quote_free(trimmed(token));
}

/// A well-formed invocation resolves to a command, and that command is of one kind only,
/// however many actions its arguments ask for.
pub proof fn well_formed_invocation_has_one_command(argv: Seq<Seq<char>>, separator: Seq<char>)
    requires
        well_formed(argv),
    ensures
        resolve_spec(argv, separator).command is Some,
        resolve_spec(argv, separator).command->0.kinds() == 1,
{
    if argv.len() > 1 {
        let program = argv[0];
        lemma_scan_marks(StateView::initial(), argv, program);
        let i = choose|i: int|
            0 <= i < argv.len() && {
                let t = #[trigger] classify_spec(argv[i], program);
                t.terminal() is Some || t.marks_action()
            };
        let t = classify_spec(argv[i], program);
        let is_terminal = |t: TokenView| t.terminal() is Some;
        let is_run = |t: TokenView| t is Run;
        let is_tool_help = |t: TokenView| t is ToolHelp;
        let is_tool_parameters = |t: TokenView| t is ToolParameters;
        let is_toolbox = |t: TokenView| t is Toolbox;
        let is_list_tools = |t: TokenView| t is ListTools;
        let is_view_code = |t: TokenView| t is ViewCode;
        assert(is_terminal(t) || is_run(t) || is_tool_help(t) || is_tool_parameters(t)
            || is_toolbox(t) || is_list_tools(t) || is_view_code(t));
    }
}

/// An invocation that is not well formed resolves to no command.
pub proof fn other_invocation_has_no_command(argv: Seq<Seq<char>>, separator: Seq<char>)
    requires
        !well_formed(argv),
    ensures
        resolve_spec(argv, separator).command is None,
{
    let program = argv[0];
    let asks = |t: TokenView| t.terminal() is Some || t.marks_action();
    lemma_scan_marks(StateView::initial(), argv, program);
    lemma_some_token_weaken(argv, program, |t: TokenView| t.terminal() is Some, asks);
    lemma_some_token_weaken(argv, program, |t: TokenView| t is Run, asks);
    lemma_some_token_weaken(argv, program, |t: TokenView| t is ToolHelp, asks);
    lemma_some_token_weaken(argv, program, |t: TokenView| t is ToolParameters, asks);
    lemma_some_token_weaken(argv, program, |t: TokenView| t is Toolbox, asks);
    lemma_some_token_weaken(argv, program, |t: TokenView| t is ListTools, asks);
    lemma_some_token_weaken(argv, program, |t: TokenView| t is ViewCode, asks);
}

/// The default listing is the command of the invocation without arguments, and of no other.
pub proof fn default_listing_only_without_arguments(argv: Seq<Seq<char>>, separator: Seq<char>)
    ensures
        resolve_spec(argv, separator).command == Some(CommandView::DefaultListing) <==> argv.len()
            <= 1,
{
}

/// The first terminal flag among the arguments decides the command, whatever stands before
/// or behind it.
pub proof fn first_terminal_flag_decides(argv: Seq<Seq<char>>, separator: Seq<char>, at: int)
    requires
        argv.len() > 1,
        first_terminal_at(argv, argv[0], at),
    ensures
        resolve_spec(argv, separator).command == Some(
            classify_spec(argv[at], argv[0]).terminal()->0.command_view(),
        ),
{
    lemma_scan_halts_at_first_terminal(StateView::initial(), argv, argv[0], at);
}

/// Without a terminal flag, the actions asked for decide the command in a fixed order: run,
/// tool help, tool parameters, toolbox, list tools, view code. The first of these that some
/// argument asks for is the kind of the command.
pub proof fn actions_are_taken_in_order(argv: Seq<Seq<char>>, separator: Seq<char>)
    requires
        argv.len() > 1,
        !some_token(argv, argv[0], |t: TokenView| t.terminal() is Some),
    ensures
        ({
            let command = resolve_spec(argv, separator).command;
            let run = some_token(argv, argv[0], |t: TokenView| t is Run);
            let tool_help = some_token(argv, argv[0], |t: TokenView| t is ToolHelp);
            let tool_parameters = some_token(argv, argv[0], |t: TokenView| t is ToolParameters);
            let toolbox = some_token(argv, argv[0], |t: TokenView| t is Toolbox);
            let list_tools = some_token(argv, argv[0], |t: TokenView| t is ListTools);
            let view_code = some_token(argv, argv[0], |t: TokenView| t is ViewCode);
            if run {
                command is Some && command->0 is RunTool
            } else if tool_help {
                command is Some && command->0 is ToolHelp
            } else if tool_parameters {
                command is Some && command->0 is ToolParameters
            } else if toolbox {
                command is Some && command->0 is Toolbox
            } else if list_tools {
                command is Some && command->0 is ListTools
            } else if view_code {
                command is Some && command->0 is ViewCode
            } else {
                command is None
            }
        }),
{
    lemma_scan_marks(StateView::initial(), argv, argv[0]);
}

/// No quoting character is left in an extracted value: not in the working directory, the
/// pending tool name or a keyword, and so not in the name or the keywords of the command.
/// The separator itself must hold no quoting character.
pub proof fn extracted_values_hold_no_quote(argv: Seq<Seq<char>>, separator: Seq<char>)
    requires
        quote_free(separator),
    ensures
        holds_no_quote(resolve_spec(argv, separator).state),
        match resolve_spec(argv, separator).command {
            Some(CommandView::RunTool { name, .. }) => quote_free(name),
            Some(CommandView::ToolHelp { name }) => quote_free(name),
            Some(CommandView::ToolParameters { name }) => quote_free(name),
            Some(CommandView::Toolbox { name }) => quote_free(name),
            Some(CommandView::ViewCode { name }) => quote_free(name),
            Some(CommandView::ListTools { keywords }) => forall|i: int|
                0 <= i < keywords.len() ==> quote_free(#[trigger] keywords[i]),
            _ => true,
        },
{
    if argv.len() > 1 {
        let program = argv[0];
        let inv = |s: StateView| holds_no_quote(s);
        assert forall|s: StateView, t: Seq<char>| inv(s) implies #[trigger] inv(
            s.absorb(classify_spec(t, program)),
        ) by {
            lemma_token_values_are_quote_free(t, program);
        }
        lemma_scan_keeps(inv, StateView::initial(), argv, program);
        let end = scan_spec(StateView::initial(), argv, program).state;
        assert(holds_no_quote(end));
        assert(end.keywords.len() > 0 ==> quote_free(end.keywords[0]));
    }
}

/// No option that holds the mark of an omitted value is among the forwarded arguments, of
/// the state or of the command.
pub proof fn omitted_options_are_not_forwarded(argv: Seq<Seq<char>>, separator: Seq<char>)
    ensures
        forwards_no_omitted_option(resolve_spec(argv, separator).state),
        resolve_spec(argv, separator).command matches Some(
            CommandView::RunTool { forwarded_args, .. },
        ) ==> forwarded_args == resolve_spec(argv, separator).state.forwarded_args,
{
    if argv.len() > 1 {
        let program = argv[0];
        let inv = |s: StateView| forwards_no_omitted_option(s);
        lemma_scan_keeps(inv, StateView::initial(), argv, program);
    }
}

/// After resolution the working directory is empty or ends with the separator.
pub proof fn working_dir_ends_with_separator(argv: Seq<Seq<char>>, separator: Seq<char>)
    ensures
        ({
            let dir = resolve_spec(argv, separator).state.working_dir;
            dir.len() == 0 || separator.is_suffix_of(dir)
        }),
{
    if argv.len() > 1 {
        let before = scan_spec(StateView::initial(), argv, argv[0]).state.working_dir;
        let after = normalized_dir(before, separator);
        if after != before {
            assert(after.subrange(after.len() - separator.len(), after.len() as int) =~= separator);
        }
    }
}

/// Resolving the same arguments again gives the same command and the same state: two
/// resolutions of one argument list with one separator do not differ.
pub proof fn resolution_repeats(
    argv: Seq<Seq<char>>,
    separator: Seq<char>,
    first: ResolutionView,
    second: ResolutionView,
)
    requires
        first == resolve_spec(argv, separator),
        second == resolve_spec(argv, separator),
    ensures
        first.command == second.command,
        first.state == second.state,
{
}

} // verus!
