use crate::action::{Action, ActionView, Event, EventView};
use crate::scaffold::gradle::{
    blank_config, configure_spec, question, setup_plan, GradleConfiguration,
    GradleConfigurationView, GradleProgress, GradleProgressView, GradleScaffold, GradleStage,
};
use crate::scaffold::{Configure, ConfigureView, Scaffold};
use crate::{get_project, project_of, run, run_spec, usage, ProjectConfiguration, ProjectView};
use vstd::prelude::*;
use vstd::string::*;

verus! {

/// A run of the scaffolder, as far as it has come. A run asks for one [`Action`] at a time;
/// [`Session::resume`] takes the [`Event`] that reports on it and asks for the next.
#[derive(Debug, Clone, PartialEq)]
pub enum Session {
    /// The command line is known and the name of the project is asked for.
    Naming { args: Vec<String> },
    /// The project is known and its directory is being made sure of.
    Preparing { project: ProjectConfiguration },
    /// The configuration is gathered.
    Configuring { project: ProjectConfiguration, progress: GradleProgress },
    /// The configuration is applied: `done` of the actions that set the project up have
    /// been carried out.
    Scaffolding { project: ProjectConfiguration, config: GradleConfiguration, done: usize },
    /// The run is over.
    Closed,
}

/// The mathematical value of a [`Session`].
pub enum SessionView {
    Naming { args: Seq<Seq<char>> },
    Preparing { project: ProjectView },
    Configuring { project: ProjectView, progress: GradleProgressView },
    Scaffolding { project: ProjectView, config: GradleConfigurationView, done: nat },
    Closed,
}

impl View for Session {
    type V = SessionView;

    open spec fn view(&self) -> SessionView {
        match self {
            Session::Naming { args } => SessionView::Naming { args: args.deep_view() },
            Session::Preparing { project } => SessionView::Preparing { project: project@ },
            Session::Configuring { project, progress } => SessionView::Configuring {
                project: project@,
                progress: progress@,
            },
            Session::Scaffolding { project, config, done } => SessionView::Scaffolding {
                project: project@,
                config: config@,
                done: *done as nat,
            },
            Session::Closed => SessionView::Closed,
        }
    }
}

/// The question for the name of the project.
pub open spec fn name_question() -> ActionView {
    ActionView::Prompt { title: "What is the name of the project?"@ }
}

/// How a run starts from a command line: with the question for the name of the project,
/// or, where the command line names no directory, with the usage message and nothing else.
pub open spec fn launch(args: Seq<Seq<char>>) -> (SessionView, ActionView) {
    if args.len() > 1 {
        (SessionView::Naming { args }, name_question())
    } else {
        (SessionView::Closed, usage())
    }
}

/// The run at the point where `done` of the actions that set the project up have been
/// carried out: the next of them is asked for, or the run is over.
pub open spec fn scaffolding(project: ProjectView, config: GradleConfigurationView, done: nat) -> (
    SessionView,
    ActionView,
) {
    let plan = setup_plan(project, config);
    if done < plan.len() {
        (SessionView::Scaffolding { project, config, done }, plan[done as int])
    } else {
        (SessionView::Closed, ActionView::Finished)
    }
}

/// The action that a session has asked for and waits to hear of.
pub open spec fn pending(session: SessionView) -> ActionView {
    match session {
        SessionView::Naming { .. } => name_question(),
        SessionView::Preparing { project } => run_spec(project).1,
        SessionView::Configuring { progress, .. } => question(progress.stage),
        SessionView::Scaffolding { project, config, done } => scaffolding(project, config, done).1,
        SessionView::Closed => ActionView::Finished,
    }
}

/// How a run goes on after an event: the session that follows and the action that it asks
/// for.
///
/// A run goes through its phases in one order and never back: the name of the project, its
/// directory, the gathering of the configuration, and the actions that apply it. An event
/// that is not the kind of report that the session waits for changes nothing: the same
/// action is asked for again. Once the run is over nothing is asked for any more.
pub open spec fn resume_spec(session: SessionView, event: EventView) -> (SessionView, ActionView) {
    match session {
        SessionView::Naming { args } => match event {
            EventView::Answer { text } => match project_of(args, text) {
                Some(project) => run_spec(project),
                None => (SessionView::Closed, usage()),
            },
            _ => (session, pending(session)),
        },
        SessionView::Preparing { project } => match event {
            EventView::Done => (
                SessionView::Configuring {
                    project,
                    progress: GradleProgressView {
                        stage: GradleStage::Install,
                        config: blank_config(),
                    },
                },
                question(GradleStage::Install),
            ),
            _ => (session, pending(session)),
        },
        SessionView::Configuring { project, progress } => match configure_spec(progress, event) {
            ConfigureView::Ask { progress, action } => (
                SessionView::Configuring { project, progress },
                action,
            ),
            ConfigureView::Done { config } => scaffolding(project, config, 0),
            ConfigureView::Abort { message, status } => (
                SessionView::Closed,
                ActionView::Exit { message, status },
            ),
        },
        SessionView::Scaffolding { project, config, done } => {
            let plan = setup_plan(project, config);
            if done < plan.len() && event.answers(plan[done as int]) {
                scaffolding(project, config, done + 1)
            } else {
                scaffolding(project, config, done)
            }
        },
        SessionView::Closed => (SessionView::Closed, ActionView::Finished),
    }
}

/// The run at the point where `done` of the actions of `plan` have been carried out.
fn scaffold_from(
    project: ProjectConfiguration,
    config: GradleConfiguration,
    plan: Vec<Action>,
    done: usize,
) -> (next: (Session, Action))
    requires
        plan.deep_view() == setup_plan(project@, config@),
    ensures
        (next.0@, next.1@) == scaffolding(project@, config@, done as nat),
{
    let ghost actions = plan.deep_view();
    let mut plan = plan;
    if done < plan.len() {
        let action = plan.remove(done);
        proof {
            assert(action@ == actions[done as int]);
        }
        (Session::Scaffolding { project, config, done }, action)
    } else {
        (Session::Closed, Action::Finished)
    }
}

impl Session {
    /// Takes in what came of the action that was asked for last, and asks for the next.
    pub fn resume(self, event: Event) -> (next: (Session, Action))
        ensures
            (next.0@, next.1@) == resume_spec(self@, event@),
    {
        match self {
            Session::Naming { args } => match event {
                Event::Answer { text } => match get_project(&args, text) {
                    Some(project) => run(project),
                    None => (
                        Session::Closed,
                        Action::Abort { message: String::from_str("Usage: scaffed <directory>") },
                    ),
                },
                _ => (
                    Session::Naming { args },
                    Action::Prompt { title: String::from_str("What is the name of the project?") },
                ),
            },
            Session::Preparing { project } => match event {
                Event::Done => {
                    let (progress, action) = GradleScaffold.begin(&project);
                    (Session::Configuring { project, progress }, action)
                },
                _ => run(project),
            },
            Session::Configuring { project, progress } => {
                match GradleScaffold.configure(&project, progress, event) {
                    Configure::Ask { progress, action } => (
                        Session::Configuring { project, progress },
                        action,
                    ),
                    Configure::Done { config } => {
                        let plan = GradleScaffold.scaffold(&project, &config);
                        scaffold_from(project, config, plan, 0)
                    },
                    Configure::Abort { message, status } => (
                        Session::Closed,
                        Action::Exit { message, status },
                    ),
                }
            },
            Session::Scaffolding { project, config, done } => {
                let plan = GradleScaffold.scaffold(&project, &config);
                if done < plan.len() && event.answers(&plan[done]) {
                    proof {
                        assert(plan[done as int]@ == plan.deep_view()[done as int]);
                    }
                    scaffold_from(project, config, plan, done + 1)
                } else {
                    proof {
                        if done < plan.len() {
                            assert(plan[done as int]@ == plan.deep_view()[done as int]);
                        }
                    }
                    scaffold_from(project, config, plan, done)
                }
            },
            Session::Closed => (Session::Closed, Action::Finished),
        }
    }
}

/// The phase that a run is in, counted from the first.
pub open spec fn phase(session: SessionView) -> nat {
    match session {
        SessionView::Naming { .. } => 0,
        SessionView::Preparing { .. } => 1,
        SessionView::Configuring { .. } => 2,
        SessionView::Scaffolding { .. } => 3,
        SessionView::Closed => 4,
    }
}

/// A run never goes back: an event leaves it in its phase or takes it to a later one.
/// Within the gathering of the configuration no question returns that was answered, and
/// while the configuration is applied no action is carried out twice. A project is set up
/// only with a configuration that the gathering has completed.
pub proof fn lemma_run_never_goes_back(session: SessionView, event: EventView)
    ensures
        phase(session) <= phase(resume_spec(session, event).0),
        session is Configuring && resume_spec(session, event).0 is Configuring
            ==> session->progress.stage.position() <= resume_spec(
            session,
            event,
        ).0->progress.stage.position(),
        session is Scaffolding && resume_spec(session, event).0 is Scaffolding ==> session->done
            <= resume_spec(session, event).0->done,
        resume_spec(session, event).0 is Scaffolding && !(session is Scaffolding) ==> {
            &&& session is Configuring
            &&& configure_spec(session->progress, event) == ConfigureView::<
                GradleProgressView,
                GradleConfigurationView,
            >::Done { config: resume_spec(session, event).0->config }
        },
{
}

/// The actions that a session asks for, one after the other, as the events come in.
pub open spec fn transcript(session: SessionView, events: Seq<EventView>) -> Seq<ActionView>
    decreases events.len(),
{
    if events.len() == 0 {
        Seq::<ActionView>::empty()
    } else {
        let next = resume_spec(session, events.first());
        seq![next.1] + transcript(next.0, events.drop_first())
    }
}

/// A run that is over stays over: whatever is reported to it, it asks for nothing.
pub proof fn lemma_closed_session_asks_nothing(events: Seq<EventView>)
    ensures
        transcript(SessionView::Closed, events).len() == events.len(),
        forall|i: int|
            0 <= i < events.len() ==> #[trigger] transcript(SessionView::Closed, events)[i]
                == ActionView::Finished,
    decreases events.len(),
{
    if events.len() > 0 {
        lemma_closed_session_asks_nothing(events.drop_first());
    }
}

/// Without Gradle nothing is asked of the user. The gathering of a configuration opens
/// with the check for Gradle, which is no question; and where that check fails, the run
/// ends with the message that Gradle is missing and exit code 1, and no prompt follows,
/// whatever is reported afterwards.
pub proof fn lemma_missing_gradle_ends_run(
    project: ProjectView,
    config: GradleConfigurationView,
    later: Seq<EventView>,
)
    ensures
        !question(GradleStage::Install).is_prompt(),
        ({
            let checking = SessionView::Configuring {
                project,
                progress: GradleProgressView { stage: GradleStage::Install, config },
            };
            let failed = resume_spec(checking, EventView::Exited { success: false });
            &&& failed.0 == SessionView::Closed
            &&& failed.1 == ActionView::Exit {
                message: "No Gradle system install found!"@,
                status: 1,
            }
            &&& forall|i: int|
                0 <= i < later.len() ==> !(#[trigger] transcript(failed.0, later)[i]).is_prompt()
        }),
{
    lemma_closed_session_asks_nothing(later);
}

/// What a run asks for depends on the command line and on the events alone: two runs with
/// the same command line and the same events ask for the same actions, and so write the
/// same files with the same content.
pub proof fn lemma_same_events_same_actions(
    first: Seq<Seq<char>>,
    second: Seq<Seq<char>>,
    events: Seq<EventView>,
    again: Seq<EventView>,
)
    requires
        first == second,
        events == again,
    ensures
        launch(first) == launch(second),
        transcript(launch(first).0, events) == transcript(launch(second).0, again),
{
}

/// The files of a project are its name and its language put into fixed text: two
/// configurations of one language give the same plan for projects of one name and
/// directory, but for the Gradle version that the wrapper is asked for.
pub proof fn lemma_files_depend_on_name_and_language(
    project: ProjectView,
    first: GradleConfigurationView,
    second: GradleConfigurationView,
)
    requires
        first.language == second.language,
    ensures
        setup_plan(project, first)[0] == setup_plan(project, second)[0],
        setup_plan(project, first)[1] == setup_plan(project, second)[1],
        first.gradle_version == second.gradle_version ==> setup_plan(project, first) == setup_plan(
            project,
            second,
        ),
{
}

} // verus!
