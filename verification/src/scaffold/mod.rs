use crate::action::{Action, Event};
use crate::ProjectConfiguration;
use vstd::prelude::*;

pub mod gradle;

verus! {

/// An empty scaffold configuration.
#[derive(Debug, Clone, Copy, PartialEq, Eq, Structural)]
pub struct EmptyConfig;

/// Where the gathering of a configuration stands after an event.
#[derive(Debug, Clone, PartialEq)]
pub enum Configure<P, C> {
    /// More is to be learnt: `action` is asked for next, and `progress` is handed back
    /// together with the event that answers it.
    Ask { progress: P, action: Action },
    /// Everything is known.
    Done { config: C },
    /// The project cannot be set up on this system: the program prints `message` and
    /// leaves with exit code `status`. Nothing more is asked.
    Abort { message: String, status: i32 },
}

/// The mathematical value of a [`Configure`].
pub enum ConfigureView<P, C> {
    Ask { progress: P, action: crate::action::ActionView },
    Done { config: C },
    Abort { message: Seq<char>, status: i32 },
}

impl<P: View, C: View> View for Configure<P, C> {
    type V = ConfigureView<P::V, C::V>;

    open spec fn view(&self) -> ConfigureView<P::V, C::V> {
        match self {
            Configure::Ask { progress, action } => ConfigureView::Ask {
                progress: progress@,
                action: action@,
            },
            Configure::Done { config } => ConfigureView::Done { config: config@ },
            Configure::Abort { message, status } => ConfigureView::Abort {
                message: message@,
                status: *status,
            },
        }
    }
}

/// Something that can scaffold a project. It works in two phases that follow each other:
/// first a configuration is gathered, by questions to the user and checks of the system,
/// then the configuration is applied to the project directory.
pub trait Scaffold {
    /// What the scaffold has to know before it can set a project up.
    type Config;

    /// How far the gathering of a configuration has come.
    type Progress;

    /// Opens the gathering of a configuration for the given project: the progress before
    /// anything is known, and the first thing to ask for. Gathering changes nothing in
    /// the file system.
    fn begin(&self, project: &ProjectConfiguration) -> (opening: (Self::Progress, Action))
        ensures
            !opening.1@.changes_files(),
            !opening.1@.is_final(),
    ;

    /// Get the configuration of this scaffold for the given project, one step at a time:
    /// takes in the event that answers the action asked for last. Gathering changes
    /// nothing in the file system.
    fn configure(
        &self,
        project: &ProjectConfiguration,
        progress: Self::Progress,
        event: Event,
    ) -> (step: Configure<Self::Progress, Self::Config>)
        ensures
            step matches Configure::Ask { action, .. } ==> !action@.changes_files()
                && !action@.is_final(),
    ;

    /// Scaffold the given project: the actions that apply the configuration, in the order
    /// in which they are to be carried out. Nothing is asked of the user any more.
    fn scaffold(&self, project: &ProjectConfiguration, config: &Self::Config) -> (plan: Vec<
        Action,
    >)
        ensures
            forall|i: int|
                0 <= i < plan.len() ==> !(#[trigger] plan[i])@.is_prompt() && !plan[i]@.is_final(),
    ;
}

} // verus!
