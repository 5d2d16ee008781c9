//! The decisions of a project scaffolder, apart from what carries them out.
//!
//! A run asks the user a few questions, writes the build files of a Gradle project and
//! has Gradle generate its wrapper. This library holds what is decided on the way: which
//! question comes next, what an answer means, what goes into which file and which command
//! is run. It touches neither terminal nor disk. It hands out one [`action::Action`] at a
//! time and takes back the [`action::Event`] that reports on it, so that a program around
//! it has nothing to do but carry the actions out.

use crate::action::{Action, ActionView};
use crate::session::{launch, Session, SessionView};
use crate::text::same_text;
use vstd::prelude::*;
use vstd::string::*;

pub mod action;
pub mod scaffold;
pub mod session;
pub mod text;

verus! {

/// A project configuration, passed in to scaffolds.
#[derive(Debug, Clone, PartialEq)]
pub struct ProjectConfiguration {
    /// The project name.
    pub name: String,
    /// The directory of the project, as it was given on the command line.
    pub directory: String,
}

/// The mathematical value of a [`ProjectConfiguration`].
pub struct ProjectView {
    pub name: Seq<char>,
    pub directory: Seq<char>,
}

impl View for ProjectConfiguration {
    type V = ProjectView;

    open spec fn view(&self) -> ProjectView {
        ProjectView { name: self.name@, directory: self.directory@ }
    }
}

impl DeepView for ProjectConfiguration {
    type V = ProjectView;

    open spec fn deep_view(&self) -> ProjectView {
        self.view()
    }
}

/// What an answer to a yes/no question says: `y` and `true` say yes, `n` and `false` say
/// no, and any other answer says neither.
pub open spec fn bool_answer(answer: Seq<char>) -> Option<bool> {
    if answer == "y"@ || answer == "true"@ {
        Some(true)
    } else if answer == "n"@ || answer == "false"@ {
        Some(false)
    } else {
        None
    }
}

/// Reads the answer to a simple yes/no question. `None` means that the answer is no
/// answer, so that the question has to be put again.
pub fn prompt_bool(answer: &str) -> (reading: Option<bool>)
    ensures
        reading == bool_answer(answer@),
{
    proof {
        reveal_strlit("y");
        reveal_strlit("n");
        reveal_strlit("true");
        reveal_strlit("false");
        assert("y"@.len() == 1 && "n"@.len() == 1 && "true"@.len() == 4 && "false"@.len() == 5);
        assert("y"@[0] != "n"@[0]);
    }
    if same_text(answer, "y") {
        Some(true)
    } else if same_text(answer, "n") {
        Some(false)
    } else if same_text(answer, "true") {
        Some(true)
    } else if same_text(answer, "false") {
        Some(false)
    } else {
        None
    }
}

/// The project that a command line and a name describe: its directory is the first
/// argument after the name of the program. A command line without such an argument
/// describes no project.
pub open spec fn project_of(args: Seq<Seq<char>>, name: Seq<char>) -> Option<ProjectView> {
    if args.len() > 1 {
        Some(ProjectView { name, directory: args[1] })
    } else {
        None
    }
}

/// The end of a run whose command line names no directory.
pub open spec fn usage() -> ActionView {
    ActionView::Abort { message: "Usage: scaffed <directory>"@ }
}

/// How the run for a project starts: its directory is made sure of before anything else.
pub open spec fn run_spec(project: ProjectView) -> (SessionView, ActionView) {
    (
        SessionView::Preparing { project },
        ActionView::CreateDirectory { directory: project.directory },
    )
}

/// Gets the project directory from the command line and returns the configuration object
/// for the project of the given name.
pub fn get_project(args: &Vec<String>, name: String) -> (project: Option<ProjectConfiguration>)
    ensures
        project.deep_view() == project_of(args.deep_view(), name@),
{
    if args.len() > 1 {
        Some(ProjectConfiguration { name, directory: args[1].clone() })
    } else {
        None
    }
}

/// Runs scaffed for a given project configuration: opens the session that sets the
/// project up, which first asks for the project directory.
pub fn run(project: ProjectConfiguration) -> (start: (Session, Action))
    ensures
        (start.0@, start.1@) == run_spec(project@),
{
    let directory = project.directory.clone();
    (Session::Preparing { project }, Action::CreateDirectory { directory })
}

/// Opens the session that gets the project from the command line and runs scaffed for it.
/// A command line that names no directory ends the run before anything is asked.
pub fn get_project_and_run(args: Vec<String>) -> (start: (Session, Action))
    ensures
        (start.0@, start.1@) == launch(args.deep_view()),
{
    if args.len() > 1 {
        (
            Session::Naming { args },
            Action::Prompt { title: String::from_str("What is the name of the project?") },
        )
    } else {
        (Session::Closed, Action::Abort { message: String::from_str("Usage: scaffed <directory>") })
    }
}

} // verus!
