//! The command that one invocation resolves to.

use vstd::prelude::*;

verus! {

/// The single action of one invocation.
#[derive(Debug, Clone, PartialEq, Eq)]
pub enum Command {
    /// Print the help text.
    ShowHelp,
    /// Print the license text.
    ShowLicense,
    /// Print the version text.
    ShowVersion,
    /// Run the tool `name` with `forwarded_args`.
    RunTool { name: String, forwarded_args: Vec<String> },
    /// Print the help of the tool `name`.
    ToolHelp { name: String },
    /// Print the parameters of the tool `name`.
    ToolParameters { name: String },
    /// Print the toolbox of the tool `name`; an empty name asks for all toolboxes.
    Toolbox { name: String },
    /// List the tools that match `keywords`; without keywords, all tools.
    ListTools { keywords: Vec<String> },
    /// Show the source code of the tool `name`.
    ViewCode { name: String },
    /// Print version and help and list all tools: the invocation without arguments.
    DefaultListing,
}

/// The mathematical model of a [`Command`].
pub enum CommandView {
    ShowHelp,
    ShowLicense,
    ShowVersion,
    RunTool { name: Seq<char>, forwarded_args: Seq<Seq<char>> },
    ToolHelp { name: Seq<char> },
    ToolParameters { name: Seq<char> },
    Toolbox { name: Seq<char> },
    ListTools { keywords: Seq<Seq<char>> },
    ViewCode { name: Seq<char> },
    DefaultListing,
}

impl View for Command {
    type V = CommandView;

    open spec fn view(&self) -> CommandView {
        match self {
            Command::ShowHelp => CommandView::ShowHelp,
            Command::ShowLicense => CommandView::ShowLicense,
            Command::ShowVersion => CommandView::ShowVersion,
            Command::RunTool { name, forwarded_args } => CommandView::RunTool {
                name: name@,
                forwarded_args: forwarded_args.deep_view(),
            },
            Command::ToolHelp { name } => CommandView::ToolHelp { name: name@ },
            Command::ToolParameters { name } => CommandView::ToolParameters { name: name@ },
            Command::Toolbox { name } => CommandView::Toolbox { name: name@ },
            Command::ListTools { keywords } => CommandView::ListTools {
                keywords: keywords.deep_view(),
            },
            Command::ViewCode { name } => CommandView::ViewCode { name: name@ },
            Command::DefaultListing => CommandView::DefaultListing,
        }
    }
}

impl CommandView {
    /// The number of kinds of command that `self` belongs to.
    pub open spec fn kinds(self) -> nat {
        let one = |b: bool| -> nat { if b { 1nat } else { 0nat } };
        one(self is ShowHelp) + one(self is ShowLicense) + one(self is ShowVersion) + one(
            self is RunTool,
        ) + one(self is ToolHelp) + one(self is ToolParameters) + one(self is Toolbox) + one(
            self is ListTools,
        ) + one(self is ViewCode) + one(self is DefaultListing)
    }
}

/// The model of a command that may be absent.
pub open spec fn view_of(command: Option<Command>) -> Option<CommandView> {
    match command {
        Some(c) => Some(c@),
        None => None,
    }
}

/// A copy of `strings`.
pub fn copy_strings(strings: &Vec<String>) -> (copy: Vec<String>)
    ensures
        copy.deep_view() == strings.deep_view(),
{
    let mut copy: Vec<String> = Vec::new();
    let mut i: usize = 0;
    while i < strings.len()
        invariant
            i <= strings.len(),
            copy.len() == i,
            forall|j: int| 0 <= j < i ==> copy@[j]@ == strings@[j]@,
        decreases strings.len() - i,
    {
        copy.push(strings[i].clone());
        i += 1;
    }
    proof {
        assert(copy.deep_view() =~= strings.deep_view());
    }
    copy
}

} // verus!
