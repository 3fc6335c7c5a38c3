//! The state that is gathered while the arguments are read, one token after another.

use crate::command::{copy_strings, view_of, Command, CommandView};
use crate::token::{Token, TokenView};
use vstd::prelude::*;

verus! {

/// The actions that the arguments read so far have asked for.
#[derive(Debug, Clone, Copy, PartialEq, Eq, Structural)]
pub struct ActionMarks {
    pub run_tool: bool,
    pub tool_help: bool,
    pub tool_parameters: bool,
    pub toolbox: bool,
    pub list_tools: bool,
    pub view_code: bool,
}

impl ActionMarks {
    /// No action has been asked for.
    pub open spec fn none() -> ActionMarks {
        ActionMarks {
            run_tool: false,
            tool_help: false,
            tool_parameters: false,
            toolbox: false,
            list_tools: false,
            view_code: false,
        }
    }
}

/// What has been gathered from the arguments read so far.
#[derive(Debug, Clone, PartialEq, Eq)]
pub struct InvocationState {
    /// The working directory; the last one given wins.
    pub working_dir: String,
    /// Whether the tool's output is printed.
    pub verbose: bool,
    /// The tool name given with the last flag that takes one.
    pub pending_tool_name: String,
    /// The arguments that are handed on to the tool, in the order in which they were given.
    pub forwarded_args: Vec<String>,
    /// The arguments without a leading dash, unquoted, in the order in which they were given.
    pub keywords: Vec<String>,
    /// A working-directory flag came without a value: the next bare argument is the directory.
    pub awaiting_working_dir_value: bool,
    /// The actions asked for.
    pub marks: ActionMarks,
}

/// The mathematical model of an [`InvocationState`].
pub struct StateView {
    pub working_dir: Seq<char>,
    pub verbose: bool,
    pub pending_tool_name: Seq<char>,
    pub forwarded_args: Seq<Seq<char>>,
    pub keywords: Seq<Seq<char>>,
    pub awaiting_working_dir_value: bool,
    pub marks: ActionMarks,
}

impl View for InvocationState {
    type V = StateView;

    open spec fn view(&self) -> StateView {
        StateView {
            working_dir: self.working_dir@,
            verbose: self.verbose,
            pending_tool_name: self.pending_tool_name@,
            forwarded_args: self.forwarded_args.deep_view(),
            keywords: self.keywords.deep_view(),
            awaiting_working_dir_value: self.awaiting_working_dir_value,
            marks: self.marks,
        }
    }
}

impl StateView {
    /// The state before any argument is read.
    pub open spec fn initial() -> StateView {
        StateView {
            working_dir: Seq::empty(),
            verbose: false,
            pending_tool_name: Seq::empty(),
            forwarded_args: Seq::empty(),
            keywords: Seq::empty(),
            awaiting_working_dir_value: false,
            marks: ActionMarks::none(),
        }
    }

    /// The state after `token` has been taken in. The tokens that end the scan leave it as it
    /// is.
    pub open spec fn absorb(self, token: TokenView) -> StateView {
        match token {
            TokenView::WorkingDir { value } => if value.len() == 0 {
                StateView { awaiting_working_dir_value: true, ..self }
            } else {
                StateView { working_dir: value, ..self }
            },
            TokenView::Run { name } => StateView {
                pending_tool_name: name,
                marks: ActionMarks { run_tool: true, ..self.marks },
                ..self
            },
            TokenView::ToolHelp { name } => StateView {
                pending_tool_name: name,
                marks: ActionMarks { tool_help: true, ..self.marks },
                ..self
            },
            TokenView::ToolParameters { name } => StateView {
                pending_tool_name: name,
                marks: ActionMarks { tool_parameters: true, ..self.marks },
                ..self
            },
            TokenView::Toolbox { name } => StateView {
                pending_tool_name: name,
                marks: ActionMarks { toolbox: true, ..self.marks },
                ..self
            },
            TokenView::ListTools => StateView {
                marks: ActionMarks { list_tools: true, ..self.marks },
                ..self
            },
            TokenView::ViewCode { name } => StateView {
                pending_tool_name: name,
                marks: ActionMarks { view_code: true, ..self.marks },
                ..self
            },
            TokenView::Verbose => StateView { verbose: true, ..self },
            TokenView::Forwarded { arg } => StateView {
                forwarded_args: self.forwarded_args.push(arg),
                ..self
            },
            TokenView::Bare { word, raw } => if self.awaiting_working_dir_value {
                StateView { working_dir: word, awaiting_working_dir_value: false, ..self }
            } else if self.forwarded_args.len() > 0 {
                StateView {
                    keywords: self.keywords.push(word),
                    forwarded_args: self.forwarded_args.push(raw),
                    ..self
                }
            } else {
                StateView { keywords: self.keywords.push(word), ..self }
            },
            TokenView::Help
            | TokenView::License
            | TokenView::Version
            | TokenView::Omitted
            | TokenView::ProgramName => self,
        }
    }

    /// The name that a command takes: the pending tool name; where that is empty, the first
    /// keyword, if there is one.
    pub open spec fn tool_name(self) -> Seq<char> {
        if self.pending_tool_name.len() == 0 && self.keywords.len() > 0 {
            self.keywords[0]
        } else {
            self.pending_tool_name
        }
    }

    /// The command asked for. Where several actions are marked, the first of run, tool help,
    /// tool parameters, toolbox, list tools, view code decides. Where none is, there is no
    /// command.
    pub open spec fn requested(self) -> Option<CommandView> {
        if self.marks.run_tool {
            Some(
                CommandView::RunTool {
                    name: self.tool_name(),
                    forwarded_args: self.forwarded_args,
                },
            )
        } else if self.marks.tool_help {
            Some(CommandView::ToolHelp { name: self.tool_name() })
        } else if self.marks.tool_parameters {
            Some(CommandView::ToolParameters { name: self.tool_name() })
        } else if self.marks.toolbox {
            Some(CommandView::Toolbox { name: self.tool_name() })
        } else if self.marks.list_tools {
            Some(CommandView::ListTools { keywords: self.keywords })
        } else if self.marks.view_code {
            Some(CommandView::ViewCode { name: self.tool_name() })
        } else {
            None
        }
    }
}

impl InvocationState {
    /// The state before any argument is read.
    pub fn new() -> (state: InvocationState)
        ensures
            state@ == StateView::initial(),
    {
        let state = InvocationState {
            working_dir: String::new(),
            verbose: false,
            pending_tool_name: String::new(),
            forwarded_args: Vec::new(),
            keywords: Vec::new(),
            awaiting_working_dir_value: false,
            marks: ActionMarks {
                run_tool: false,
                tool_help: false,
                tool_parameters: false,
                toolbox: false,
                list_tools: false,
                view_code: false,
            },
        };
        proof {
            assert(state.forwarded_args.deep_view() =~= Seq::<Seq<char>>::empty());
            assert(state.keywords.deep_view() =~= Seq::<Seq<char>>::empty());
        }
        state
    }

    /// Takes `token` in.
    pub fn absorb(&mut self, token: Token)
        ensures
            final(self)@ == old(self)@.absorb(token@),
    {
        let ghost before = self@;
        match token {
            Token::WorkingDir { value } => {
                if value.as_str().is_empty() {
                    self.awaiting_working_dir_value = true;
                } else {
                    self.working_dir = value;
                }
            },
            Token::Run { name } => {
                self.pending_tool_name = name;
                self.marks.run_tool = true;
            },
            Token::ToolHelp { name } => {
                self.pending_tool_name = name;
                self.marks.tool_help = true;
            },
            Token::ToolParameters { name } => {
                self.pending_tool_name = name;
                self.marks.tool_parameters = true;
            },
            Token::Toolbox { name } => {
                self.pending_tool_name = name;
                self.marks.toolbox = true;
            },
            Token::ListTools => {
                self.marks.list_tools = true;
            },
            Token::ViewCode { name } => {
                self.pending_tool_name = name;
                self.marks.view_code = true;
            },
            Token::Verbose => {
                self.verbose = true;
            },
            Token::Forwarded { arg } => {
                self.forwarded_args.push(arg);
                proof {
                    assert(self.forwarded_args.deep_view() =~= before.forwarded_args.push(arg@));
                }
            },
            Token::Bare { word, raw } => {
                if self.awaiting_working_dir_value {
                    self.working_dir = word;
                    self.awaiting_working_dir_value = false;
                } else {
                    self.keywords.push(word);
                    proof {
                        assert(self.keywords.deep_view() =~= before.keywords.push(word@));
                    }
                    if self.forwarded_args.len() > 0 {
                        self.forwarded_args.push(raw);
                        proof {
                            assert(self.forwarded_args.deep_view() =~= before.forwarded_args.push(
                                raw@,
                            ));
                        }
                    }
                }
            },
            Token::Help | Token::License | Token::Version | Token::Omitted | Token::ProgramName => {
            },
        }
    }

    /// The name that a command takes.
    pub fn tool_name(&self) -> (name: String)
        ensures
            name@ == self@.tool_name(),
    {
        if self.pending_tool_name.as_str().is_empty() && self.keywords.len() > 0 {
            self.keywords[0].clone()
        } else {
            self.pending_tool_name.clone()
        }
    }

    /// The command asked for, if any action is marked.
    pub fn requested(&self) -> (command: Option<Command>)
        ensures
            view_of(command) == self@.requested(),
    {
        if self.marks.run_tool {
            Some(
                Command::RunTool {
                    name: self.tool_name(),
                    forwarded_args: copy_strings(&self.forwarded_args),
                },
            )
        } else if self.marks.tool_help {
            Some(Command::ToolHelp { name: self.tool_name() })
        } else if self.marks.tool_parameters {
            Some(Command::ToolParameters { name: self.tool_name() })
        } else if self.marks.toolbox {
            Some(Command::Toolbox { name: self.tool_name() })
        } else if self.marks.list_tools {
            Some(Command::ListTools { keywords: copy_strings(&self.keywords) })
        } else if self.marks.view_code {
            Some(Command::ViewCode { name: self.tool_name() })
        } else {
            None
        }
    }
}

} // verus!
