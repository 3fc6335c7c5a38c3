//! What the front end does with a resolution: the texts it prints, the one tool backend it
//! builds and the one call it makes on it, in order.

use crate::command::{Command, CommandView};
use crate::resolve::{Resolution, ResolutionView};
use vstd::prelude::*;

verus! {

/// One thing that the front end does.
#[derive(Debug, Clone, PartialEq, Eq)]
pub enum Step {
    /// Print the version text.
    PrintVersion,
    /// Print the help text.
    PrintHelp,
    /// Print the license text.
    PrintLicense,
    /// Build the tool backend for this working directory and verbosity.
    ConstructBackend { working_dir: String, verbose: bool },
    /// Ask the backend to run a tool.
    RunTool { name: String, args: Vec<String> },
    /// Ask the backend for a tool's help.
    ToolHelp { name: String },
    /// Ask the backend for a tool's parameters.
    ToolParameters { name: String },
    /// Ask the backend for a tool's toolbox.
    Toolbox { name: String },
    /// Ask the backend to list all tools.
    ListTools,
    /// Ask the backend to list the tools that match the keywords.
    ListToolsWithKeywords { keywords: Vec<String> },
    /// Ask the backend for a tool's source code.
    GetToolSourceCode { name: String },
}

/// The mathematical model of a [`Step`].
pub enum StepView {
    PrintVersion,
    PrintHelp,
    PrintLicense,
    ConstructBackend { working_dir: Seq<char>, verbose: bool },
    RunTool { name: Seq<char>, args: Seq<Seq<char>> },
    ToolHelp { name: Seq<char> },
    ToolParameters { name: Seq<char> },
    Toolbox { name: Seq<char> },
    ListTools,
    ListToolsWithKeywords { keywords: Seq<Seq<char>> },
    GetToolSourceCode { name: Seq<char> },
}

impl View for Step {
    type V = StepView;

    open spec fn view(&self) -> StepView {
        match self {
            Step::PrintVersion => StepView::PrintVersion,
            Step::PrintHelp => StepView::PrintHelp,
            Step::PrintLicense => StepView::PrintLicense,
            Step::ConstructBackend { working_dir, verbose } => StepView::ConstructBackend {
                working_dir: working_dir@,
                verbose: *verbose,
            },
            Step::RunTool { name, args } => StepView::RunTool {
                name: name@,
                args: args.deep_view(),
            },
            Step::ToolHelp { name } => StepView::ToolHelp { name: name@ },
            Step::ToolParameters { name } => StepView::ToolParameters { name: name@ },
            Step::Toolbox { name } => StepView::Toolbox { name: name@ },
            Step::ListTools => StepView::ListTools,
            Step::ListToolsWithKeywords { keywords } => StepView::ListToolsWithKeywords {
                keywords: keywords.deep_view(),
            },
            Step::GetToolSourceCode { name } => StepView::GetToolSourceCode { name: name@ },
        }
    }
}

/// The models of the steps of `steps`, in order.
pub open spec fn views_of(steps: Seq<Step>) -> Seq<StepView> {
    steps.map_values(|s: Step| s@)
}

/// The one call on the backend that `command` stands for; none for the commands that only
/// print a text.
pub open spec fn backend_call(command: CommandView) -> Option<StepView> {
    match command {
        CommandView::ShowHelp | CommandView::ShowLicense | CommandView::ShowVersion => None,
        CommandView::RunTool { name, forwarded_args } => Some(
            StepView::RunTool { name, args: forwarded_args },
        ),
        CommandView::ToolHelp { name } => Some(StepView::ToolHelp { name }),
        CommandView::ToolParameters { name } => Some(StepView::ToolParameters { name }),
        CommandView::Toolbox { name } => Some(StepView::Toolbox { name }),
        CommandView::ListTools { keywords } => if keywords.len() == 0 {
            Some(StepView::ListTools)
        } else {
            Some(StepView::ListToolsWithKeywords { keywords })
        },
        CommandView::ViewCode { name } => Some(StepView::GetToolSourceCode { name }),
        CommandView::DefaultListing => Some(StepView::ListTools),
    }
}

/// The steps for `resolution`, in order.
///
/// A help, license or version command prints its text and builds no backend. The default
/// listing prints the version, then the help, builds the backend and lists all tools. Every
/// other command builds the backend and makes its one call. Without a command the backend is
/// built and nothing is asked of it.
pub open spec fn plan_spec(resolution: ResolutionView) -> Seq<StepView> {
    let construct = StepView::ConstructBackend {
        working_dir: resolution.state.working_dir,
        verbose: resolution.state.verbose,
    };
    match resolution.command {
        Some(CommandView::ShowHelp) => seq![StepView::PrintHelp],
        Some(CommandView::ShowLicense) => seq![StepView::PrintLicense],
        Some(CommandView::ShowVersion) => seq![StepView::PrintVersion],
        Some(CommandView::DefaultListing) => seq![
            StepView::PrintVersion,
            StepView::PrintHelp,
            construct,
            StepView::ListTools,
        ],
        Some(command) => seq![construct, backend_call(command)->0],
        None => seq![construct],
    }
}

/// Lays out the steps for `resolution`, in order.
pub fn plan(resolution: Resolution) -> (steps: Vec<Step>)
    ensures
        views_of(steps@) == plan_spec(resolution@),
{
    let mut steps: Vec<Step> = Vec::new();
    let construct = Step::ConstructBackend {
        working_dir: resolution.state.working_dir,
        verbose: resolution.state.verbose,
    };
    match resolution.command {
        Some(Command::ShowHelp) => {
            steps.push(Step::PrintHelp);
        },
        Some(Command::ShowLicense) => {
            steps.push(Step::PrintLicense);
        },
        Some(Command::ShowVersion) => {
            steps.push(Step::PrintVersion);
        },
        Some(Command::DefaultListing) => {
            steps.push(Step::PrintVersion);
            steps.push(Step::PrintHelp);
            steps.push(construct);
            steps.push(Step::ListTools);
        },
        Some(Command::RunTool { name, forwarded_args }) => {
            steps.push(construct);
            steps.push(Step::RunTool { name, args: forwarded_args });
        },
        Some(Command::ToolHelp { name }) => {
            steps.push(construct);
            steps.push(Step::ToolHelp { name });
        },
        Some(Command::ToolParameters { name }) => {
            steps.push(construct);
            steps.push(Step::ToolParameters { name });
        },
        Some(Command::Toolbox { name }) => {
            steps.push(construct);
            steps.push(Step::Toolbox { name });
        },
        Some(Command::ListTools { keywords }) => {
            steps.push(construct);
            if keywords.len() == 0 {
                steps.push(Step::ListTools);
            } else {
                steps.push(Step::ListToolsWithKeywords { keywords });
            }
        },
        Some(Command::ViewCode { name }) => {
            steps.push(construct);
            steps.push(Step::GetToolSourceCode { name });
        },
        None => {
            steps.push(construct);
        },
    }
    proof {
        assert(views_of(steps@) =~= plan_spec(resolution@));
    }
    steps
}

} // verus!
