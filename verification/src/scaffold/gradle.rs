use crate::action::{Action, ActionView, Event, EventView};
use crate::scaffold::{Configure, ConfigureView, Scaffold};
use crate::text::{
    ascii_lowercase, lemma_same_letters_as_lowercase_word, lowercase_of, occurs_at, same_letters,
    same_text, split, split_spec, to_lowercase,
};
use crate::{bool_answer, prompt_bool, ProjectConfiguration, ProjectView};
use vstd::prelude::*;
use vstd::string::*;
use vstd::utf8::is_ascii_chars;

verus! {

/// A type of language to use for Gradle.
/// Currently only supports Java and Kotlin.
#[derive(Debug, Clone, Copy, PartialEq, Eq, Structural)]
pub enum GradleLanguageType {
    Kotlin,
    Java,
    Unspecified,
}

impl GradleLanguageType {
    /// The name under which the language is shown and offered.
    pub open spec fn label(self) -> Seq<char> {
        match self {
            GradleLanguageType::Kotlin => "Kotlin"@,
            GradleLanguageType::Java => "Java"@,
            GradleLanguageType::Unspecified => "Unspecified"@,
        }
    }

    /// The language that a text in small letters names: `kotlin` and `kt` name Kotlin,
    /// `java` and `j` name Java, and every other text names none.
    pub open spec fn of_lowercase(lowered: Seq<char>) -> GradleLanguageType {
        if lowered == "kotlin"@ || lowered == "kt"@ {
            GradleLanguageType::Kotlin
        } else if lowered == "java"@ || lowered == "j"@ {
            GradleLanguageType::Java
        } else {
            GradleLanguageType::Unspecified
        }
    }

    /// The language that `input` names, whatever the case of its letters.
    pub open spec fn parse_spec(input: Seq<char>) -> GradleLanguageType {
        Self::of_lowercase(lowercase_of(input))
    }

    /// The name of the language, as it is shown to the user.
    pub fn to_string(&self) -> (name: String)
        ensures
            name@ == self.label(),
    {
        match self {
            GradleLanguageType::Kotlin => String::from_str("Kotlin"),
            GradleLanguageType::Java => String::from_str("Java"),
            GradleLanguageType::Unspecified => String::from_str("Unspecified"),
        }
    }

    /// Reads a language from a text that has been put into small letters already.
    pub fn from_lowercase(lowered: &str) -> (language: GradleLanguageType)
        ensures
            language == Self::of_lowercase(lowered@),
    {
        if same_text(lowered, "kotlin") || same_text(lowered, "kt") {
            GradleLanguageType::Kotlin
        } else if same_text(lowered, "java") || same_text(lowered, "j") {
            GradleLanguageType::Java
        } else {
            GradleLanguageType::Unspecified
        }
    }

    /// Parses a language value from a string input. Letter case is ignored, and an input
    /// that names no language gives `Unspecified`.
    pub fn parse(input: String) -> (language: GradleLanguageType)
        ensures
            language == Self::parse_spec(input@),
            is_ascii_chars(input@) ==> language == Self::of_lowercase(ascii_lowercase(input@)),
    {
        let lowered = to_lowercase(input.as_str());
        Self::from_lowercase(lowered.as_str())
    }

    /// The plugin that a build file names for the language. No language, no plugin.
    pub open spec fn plugin_spec(self) -> Seq<char> {
        match self {
            GradleLanguageType::Kotlin => "kotlin(\"jvm\") version \"2.1.10\""@,
            GradleLanguageType::Java => "java"@,
            GradleLanguageType::Unspecified => ""@,
        }
    }

    /// The plugin declaration of the language, as a build file spells it.
    pub fn plugin(&self) -> (declaration: &'static str)
        ensures
            declaration@ == self.plugin_spec(),
    {
        match self {
            GradleLanguageType::Kotlin => "kotlin(\"jvm\") version \"2.1.10\"",
            GradleLanguageType::Java => "java",
            GradleLanguageType::Unspecified => "",
        }
    }
}

/// Scaffold configuration for a Gradle scaffold.
#[derive(Debug, Clone, PartialEq)]
pub struct GradleConfiguration {
    /// The Gradle version.
    pub gradle_version: String,
    /// The module group.
    pub group: String,
    /// The module version.
    pub version: String,
    /// The language to scaffold for, or `Unspecified`.
    pub language: GradleLanguageType,
    /// Whether this is a multi-module project.
    pub multi: bool,
    /// The subprojects, if `multi` is true, otherwise `None`.
    pub subprojects: Option<Vec<String>>,
}

/// The mathematical value of a [`GradleConfiguration`].
pub struct GradleConfigurationView {
    pub gradle_version: Seq<char>,
    pub group: Seq<char>,
    pub version: Seq<char>,
    pub language: GradleLanguageType,
    pub multi: bool,
    pub subprojects: Option<Seq<Seq<char>>>,
}

impl GradleConfigurationView {
    /// Subprojects are listed exactly for a multi-module project.
    pub open spec fn well_formed(self) -> bool {
        self.multi <==> self.subprojects is Some
    }
}

impl View for GradleConfiguration {
    type V = GradleConfigurationView;

    open spec fn view(&self) -> GradleConfigurationView {
        GradleConfigurationView {
            gradle_version: self.gradle_version@,
            group: self.group@,
            version: self.version@,
            language: self.language,
            multi: self.multi,
            subprojects: self.subprojects.deep_view(),
        }
    }
}

/// The text of the build file for a language: a plugin block that names the plugin of the
/// language and nothing else, or no text at all where no language was chosen.
pub open spec fn build_script(language: GradleLanguageType) -> Seq<char> {
    match language {
        GradleLanguageType::Unspecified => Seq::<char>::empty(),
        _ => "plugins {\n    "@ + language.plugin_spec() + "\n}"@,
    }
}

/// The text of the settings file: the one line that names the root project.
pub open spec fn settings_script(name: Seq<char>) -> Seq<char> {
    "rootProject.name = \""@ + name + "\""@
}

/// The command that tells whether Gradle is installed: it succeeds exactly when the shell
/// finds `gradle` on the search path.
pub open spec fn install_check() -> ActionView {
    ActionView::Command {
        command: "bash"@,
        args: seq!["-c"@, "command -v gradle"@],
        cwd: None,
        silent: true,
    }
}

/// The command that has Gradle write its wrapper for `gradle_version` into `directory`.
pub open spec fn wrapper_command(directory: Seq<char>, gradle_version: Seq<char>) -> ActionView {
    ActionView::Command {
        command: "gradle"@,
        args: seq!["wrapper"@, "--gradle-version"@, gradle_version],
        cwd: Some(directory),
        silent: false,
    }
}

/// The write of the settings file of `project`.
pub open spec fn settings_write(project: ProjectView) -> ActionView {
    ActionView::WriteFile {
        directory: project.directory,
        file: "settings.gradle.kts"@,
        content: settings_script(project.name),
        failure: "Failed writing buildsettings"@,
    }
}

/// The write of the build file of `project` for `language`.
pub open spec fn build_write(project: ProjectView, language: GradleLanguageType) -> ActionView {
    ActionView::WriteFile {
        directory: project.directory,
        file: "build.gradle.kts"@,
        content: build_script(language),
        failure: "Failed writing buildscript"@,
    }
}

/// What sets a project up, in the order in which it is done: the settings file, the build
/// file, then the Gradle wrapper. The layout is that of a single module whatever the
/// configuration says of subprojects.
pub open spec fn setup_plan(project: ProjectView, config: GradleConfigurationView) -> Seq<
    ActionView,
> {
    seq![
        settings_write(project),
        build_write(project, config.language),
        wrapper_command(project.directory, config.gradle_version),
    ]
}

/// Ends the line that `content` is at.
fn push_linebreak(content: &mut String)
    ensures
        final(content)@ == old(content)@ + "\n"@,
{
    content.append("\n");
}

/// A scaffold for Gradle projects.
pub struct GradleScaffold;

impl GradleScaffold {
    /// The build file of the project: a plugin block for the chosen language.
    pub fn setup_buildscripts(
        &self,
        project: &ProjectConfiguration,
        config: &GradleConfiguration,
    ) -> (action: Action)
        ensures
            action@ == build_write(project@, config@.language),
    {
        let mut content = String::new();
        match config.language {
            GradleLanguageType::Unspecified => {},
            _ => {
                content.append("plugins {");
                push_linebreak(&mut content);
                content.append("    ");
                content.append(config.language.plugin());
                push_linebreak(&mut content);
                content.append("}");
                proof {
                    reveal_strlit("plugins {");
                    reveal_strlit("\n");
                    reveal_strlit("    ");
                    reveal_strlit("}");
                    reveal_strlit("plugins {\n    ");
                    reveal_strlit("\n}");
                    assert("plugins {"@ + "\n"@ + "    "@ =~= "plugins {\n    "@);
                    assert("\n"@ + "}"@ =~= "\n}"@);
                    assert(content@ =~= build_script(config.language));
                }
            },
        }
        Action::WriteFile {
            directory: project.directory.clone(),
            file: String::from_str("build.gradle.kts"),
            content,
            failure: String::from_str("Failed writing buildscript"),
        }
    }

    /// The settings file of the project, which holds its name.
    pub fn setup_buildsettings(&self, project: &ProjectConfiguration) -> (action: Action)
        ensures
            action@ == settings_write(project@),
    {
        let mut content = String::from_str("rootProject.name = \"");
        content.append(project.name.as_str());
        content.append("\"");
        Action::WriteFile {
            directory: project.directory.clone(),
            file: String::from_str("settings.gradle.kts"),
            content,
            failure: String::from_str("Failed writing buildsettings"),
        }
    }

    /// The call of Gradle that writes the wrapper for the chosen version. It runs in the
    /// project directory and its output is shown.
    pub fn run_wrapper(&self, project: &ProjectConfiguration, config: &GradleConfiguration) -> (action:
        Action)
        ensures
            action@ == wrapper_command(project@.directory, config@.gradle_version),
    {
        let mut args: Vec<String> = Vec::new();
        args.push(String::from_str("wrapper"));
        args.push(String::from_str("--gradle-version"));
        args.push(config.gradle_version.clone());
        proof {
            assert(args.deep_view() =~= seq![
                "wrapper"@,
                "--gradle-version"@,
                config@.gradle_version,
            ]);
        }
        Action::Command {
            command: String::from_str("gradle"),
            args,
            cwd: Some(project.directory.clone()),
            silent: false,
        }
    }

    /// Everything that sets the project up, in order.
    pub fn setup_project(&self, project: &ProjectConfiguration, config: &GradleConfiguration) -> (plan:
        Vec<Action>)
        ensures
            plan.deep_view() == setup_plan(project@, config@),
    {
        let mut plan: Vec<Action> = Vec::new();
        plan.push(self.setup_buildsettings(project));
        plan.push(self.setup_buildscripts(project, config));
        plan.push(self.run_wrapper(project, config));
        proof {
            assert(plan.deep_view() =~= setup_plan(project@, config@));
        }
        plan
    }

    /// The command whose success shows that Gradle is installed on this system. It runs
    /// wherever the program runs, and its output is not shown.
    pub fn check_for_system_install(&self) -> (action: Action)
        ensures
            action@ == install_check(),
    {
        let mut args: Vec<String> = Vec::new();
        args.push(String::from_str("-c"));
        args.push(String::from_str("command -v gradle"));
        proof {
            assert(args.deep_view() =~= seq!["-c"@, "command -v gradle"@]);
        }
        Action::Command { command: String::from_str("bash"), args, cwd: None, silent: true }
    }
}

/// The question that the gathering of a Gradle configuration waits on.
#[derive(Debug, Clone, Copy, PartialEq, Eq, Structural)]
pub enum GradleStage {
    /// Is Gradle installed on this system?
    Install,
    /// Which version of Gradle is the wrapper to use?
    GradleVersion,
    /// What is the group of the module?
    Group,
    /// What is the version of the module?
    Version,
    /// In which language is the project written?
    Language,
    /// Does the project have several modules?
    Multi,
    /// What are the subprojects called?
    Subprojects,
}

impl GradleStage {
    /// The place of the question among the questions, counted from the first.
    pub open spec fn position(self) -> nat {
        match self {
            GradleStage::Install => 0,
            GradleStage::GradleVersion => 1,
            GradleStage::Group => 2,
            GradleStage::Version => 3,
            GradleStage::Language => 4,
            GradleStage::Multi => 5,
            GradleStage::Subprojects => 6,
        }
    }
}

/// A Gradle configuration in the making: the question that is open, and the configuration
/// as far as the answers to the earlier questions have filled it.
#[derive(Debug, Clone, PartialEq)]
pub struct GradleProgress {
    pub stage: GradleStage,
    pub config: GradleConfiguration,
}

/// The mathematical value of a [`GradleProgress`].
pub struct GradleProgressView {
    pub stage: GradleStage,
    pub config: GradleConfigurationView,
}

impl View for GradleProgress {
    type V = GradleProgressView;

    open spec fn view(&self) -> GradleProgressView {
        GradleProgressView { stage: self.stage, config: self.config@ }
    }
}

/// The configuration before any question is answered: no text, no language, one module.
pub open spec fn blank_config() -> GradleConfigurationView {
    GradleConfigurationView {
        gradle_version: Seq::<char>::empty(),
        group: Seq::<char>::empty(),
        version: Seq::<char>::empty(),
        language: GradleLanguageType::Unspecified,
        multi: false,
        subprojects: None,
    }
}

/// The languages on offer, by their names and in the order in which they are listed.
pub open spec fn language_options() -> Seq<Seq<char>> {
    seq![
        GradleLanguageType::Java.label(),
        GradleLanguageType::Kotlin.label(),
        GradleLanguageType::Unspecified.label(),
    ]
}

/// The action by which the question of a stage is put.
pub open spec fn question(stage: GradleStage) -> ActionView {
    match stage {
        GradleStage::Install => install_check(),
        GradleStage::GradleVersion => ActionView::Prompt {
            title: "What Gradle version would you like to use?"@,
        },
        GradleStage::Group => ActionView::Prompt { title: "What group ID would you like to use?"@ },
        GradleStage::Version => ActionView::Prompt {
            title: "What version would you like your project to use?"@,
        },
        GradleStage::Language => ActionView::PromptOptions {
            title: "What language would you like to use?"@,
            options: language_options(),
        },
        GradleStage::Multi => ActionView::PromptBool {
            title: "Would you like to use multiple modules?"@,
        },
        GradleStage::Subprojects => ActionView::Prompt {
            title: "What are the names of the subprojects? (Seperated with a comma)"@,
        },
    }
}

/// The step that puts the question of `stage`, with `config` as what is known so far.
pub open spec fn ask(stage: GradleStage, config: GradleConfigurationView) -> ConfigureView<
    GradleProgressView,
    GradleConfigurationView,
> {
    ConfigureView::Ask {
        progress: GradleProgressView { stage, config },
        action: question(stage),
    }
}

/// How the gathering of a Gradle configuration goes on after an event.
///
/// The questions follow each other in a fixed order: the check for Gradle, the Gradle
/// version, the group, the module version, the language, and whether there are several
/// modules; the names of the subprojects are asked for only if there are. Without Gradle
/// the gathering is given up with exit code 1 before anything is asked of the user. An
/// answer to the yes/no question that says neither has the question put again, and so has
/// an event that does not answer the open question at all.
pub open spec fn configure_spec(progress: GradleProgressView, event: EventView) -> ConfigureView<
    GradleProgressView,
    GradleConfigurationView,
> {
    let config = progress.config;
    match (progress.stage, event) {
        (GradleStage::Install, EventView::Exited { success }) => if success {
            ask(GradleStage::GradleVersion, config)
        } else {
            ConfigureView::Abort { message: "No Gradle system install found!"@, status: 1 }
        },
        (GradleStage::GradleVersion, EventView::Answer { text }) => ask(
            GradleStage::Group,
            GradleConfigurationView { gradle_version: text, ..config },
        ),
        (GradleStage::Group, EventView::Answer { text }) => ask(
            GradleStage::Version,
            GradleConfigurationView { group: text, ..config },
        ),
        (GradleStage::Version, EventView::Answer { text }) => ask(
            GradleStage::Language,
            GradleConfigurationView { version: text, ..config },
        ),
        (GradleStage::Language, EventView::Answer { text }) => ask(
            GradleStage::Multi,
            GradleConfigurationView { language: GradleLanguageType::parse_spec(text), ..config },
        ),
        (GradleStage::Multi, EventView::Answer { text }) => match bool_answer(text) {
            Some(true) => ask(GradleStage::Subprojects, config),
            Some(false) => ConfigureView::Done {
                config: GradleConfigurationView { multi: false, subprojects: None, ..config },
            },
            None => ask(GradleStage::Multi, config),
        },
        (GradleStage::Subprojects, EventView::Answer { text }) => ConfigureView::Done {
            config: GradleConfigurationView {
                multi: true,
                subprojects: Some(split_spec(text, ',')),
                ..config
            },
        },
        _ => ask(progress.stage, config),
    }
}

impl GradleScaffold {
    /// The action that puts the question of a stage.
    pub fn request(&self, stage: GradleStage) -> (action: Action)
        ensures
            action@ == question(stage),
    {
        match stage {
            GradleStage::Install => self.check_for_system_install(),
            GradleStage::GradleVersion => Action::Prompt {
                title: String::from_str("What Gradle version would you like to use?"),
            },
            GradleStage::Group => Action::Prompt {
                title: String::from_str("What group ID would you like to use?"),
            },
            GradleStage::Version => Action::Prompt {
                title: String::from_str("What version would you like your project to use?"),
            },
            GradleStage::Language => {
                let mut options: Vec<String> = Vec::new();
                options.push(GradleLanguageType::Java.to_string());
                options.push(GradleLanguageType::Kotlin.to_string());
                options.push(GradleLanguageType::Unspecified.to_string());
                proof {
                    assert(options.deep_view() =~= language_options());
                }
                Action::PromptOptions {
                    title: String::from_str("What language would you like to use?"),
                    options,
                }
            },
            GradleStage::Multi => Action::PromptBool {
                title: String::from_str("Would you like to use multiple modules?"),
            },
            GradleStage::Subprojects => Action::Prompt {
                title: String::from_str(
                    "What are the names of the subprojects? (Seperated with a comma)",
                ),
            },
        }
    }

    /// The step that puts the question of `stage`.
    fn ask(&self, stage: GradleStage, config: GradleConfiguration) -> (step: Configure<
        GradleProgress,
        GradleConfiguration,
    >)
        ensures
            step@ == ask(stage, config@),
    {
        Configure::Ask { progress: GradleProgress { stage, config }, action: self.request(stage) }
    }
}

impl Scaffold for GradleScaffold {
    type Config = GradleConfiguration;

    type Progress = GradleProgress;

    fn begin(&self, _project: &ProjectConfiguration) -> (opening: (GradleProgress, Action))
        ensures
            opening.0@ == (GradleProgressView { stage: GradleStage::Install, config: blank_config() }),
            opening.1@ == question(GradleStage::Install),
    {
        let config = GradleConfiguration {
            gradle_version: String::new(),
            group: String::new(),
            version: String::new(),
            language: GradleLanguageType::Unspecified,
            multi: false,
            subprojects: None,
        };
        (GradleProgress { stage: GradleStage::Install, config }, self.request(GradleStage::Install))
    }

    fn configure(
        &self,
        _project: &ProjectConfiguration,
        progress: GradleProgress,
        event: Event,
    ) -> (step: Configure<GradleProgress, GradleConfiguration>)
        ensures
            step@ == configure_spec(progress@, event@),
            step matches Configure::Done { config } ==> config@.well_formed(),
    {
        let GradleProgress { stage, config } = progress;
        match stage {
            GradleStage::Install => match event {
                Event::Exited { success } => {
                    if success {
                        self.ask(GradleStage::GradleVersion, config)
                    } else {
                        Configure::Abort {
                            message: String::from_str("No Gradle system install found!"),
                            status: 1,
                        }
                    }
                },
                _ => self.ask(stage, config),
            },
            GradleStage::GradleVersion => match event {
                Event::Answer { text } => {
                    let mut config = config;
                    config.gradle_version = text;
                    self.ask(GradleStage::Group, config)
                },
                _ => self.ask(stage, config),
            },
            GradleStage::Group => match event {
                Event::Answer { text } => {
                    let mut config = config;
                    config.group = text;
                    self.ask(GradleStage::Version, config)
                },
                _ => self.ask(stage, config),
            },
            GradleStage::Version => match event {
                Event::Answer { text } => {
                    let mut config = config;
                    config.version = text;
                    self.ask(GradleStage::Language, config)
                },
                _ => self.ask(stage, config),
            },
            GradleStage::Language => match event {
                Event::Answer { text } => {
                    let mut config = config;
                    config.language = GradleLanguageType::parse(text);
                    self.ask(GradleStage::Multi, config)
                },
                _ => self.ask(stage, config),
            },
            GradleStage::Multi => match event {
                Event::Answer { text } => match prompt_bool(text.as_str()) {
                    Some(true) => self.ask(GradleStage::Subprojects, config),
                    Some(false) => {
                        let mut config = config;
                        config.multi = false;
                        config.subprojects = None;
                        Configure::Done { config }
                    },
                    None => self.ask(stage, config),
                },
                _ => self.ask(stage, config),
            },
            GradleStage::Subprojects => match event {
                Event::Answer { text } => {
                    let mut config = config;
                    config.multi = true;
                    config.subprojects = Some(split(text.as_str(), ','));
                    Configure::Done { config }
                },
                _ => self.ask(stage, config),
            },
        }
    }

    fn scaffold(&self, project: &ProjectConfiguration, config: &GradleConfiguration) -> (plan: Vec<
        Action,
    >)
        ensures
            plan.deep_view() == setup_plan(project@, config@),
    {
        let plan = self.setup_project(project, config);
        proof {
            assert forall|i: int| 0 <= i < plan.len() implies !(#[trigger] plan[i])@.is_prompt()
                && !plan[i]@.is_final() by {
                assert(plan.deep_view().len() == 3);
                assert(plan.deep_view()[i] == plan[i]@);
                assert(plan[i]@ == setup_plan(project@, config@)[i]);
            }
        }
        plan
    }
}

/// Parsing does not look at letter case: a text of plain letters names Kotlin exactly when
/// it is `kotlin` or `kt` in some mix of capital and small letters, Java exactly when it is
/// `java` or `j` in some such mix, and no language in every other case.
pub proof fn lemma_parse_ignores_letter_case(input: Seq<char>)
    ensures
        GradleLanguageType::of_lowercase(ascii_lowercase(input)) is Kotlin <==> same_letters(
            input,
            "kotlin"@,
        ) || same_letters(input, "kt"@),
        GradleLanguageType::of_lowercase(ascii_lowercase(input)) is Java <==> same_letters(
            input,
            "java"@,
        ) || same_letters(input, "j"@),
        GradleLanguageType::of_lowercase(ascii_lowercase(input)) is Unspecified <==> !(
            same_letters(input, "kotlin"@) || same_letters(input, "kt"@) || same_letters(
                input,
                "java"@,
            ) || same_letters(input, "j"@)),
{
    reveal_strlit("kotlin");
    reveal_strlit("kt");
    reveal_strlit("java");
    reveal_strlit("j");
    assert(ascii_lowercase("kotlin"@) =~= "kotlin"@);
    assert(ascii_lowercase("kt"@) =~= "kt"@);
    assert(ascii_lowercase("java"@) =~= "java"@);
    assert(ascii_lowercase("j"@) =~= "j"@);
    lemma_same_letters_as_lowercase_word(input, "kotlin"@);
    lemma_same_letters_as_lowercase_word(input, "kt"@);
    lemma_same_letters_as_lowercase_word(input, "java"@);
    lemma_same_letters_as_lowercase_word(input, "j"@);
}

/// Each language is read back from the name under which it is offered.
pub proof fn lemma_label_names_language(language: GradleLanguageType)
    ensures
        is_ascii_chars(language.label()),
        GradleLanguageType::of_lowercase(ascii_lowercase(language.label())) == language,
{
    reveal_strlit("Kotlin");
    reveal_strlit("Java");
    reveal_strlit("Unspecified");
    reveal_strlit("kotlin");
    reveal_strlit("kt");
    reveal_strlit("java");
    reveal_strlit("j");
    assert(ascii_lowercase("Kotlin"@) =~= "kotlin"@);
    assert(ascii_lowercase("Java"@) =~= "java"@);
    assert(ascii_lowercase("Unspecified"@).len() == 11);
}

/// The questions are put in their order, each at most one step after the one before: an
/// event takes the gathering to the next question or leaves it where it is, and never
/// takes it back.
pub proof fn lemma_questions_keep_their_order(progress: GradleProgressView, event: EventView)
    ensures
        configure_spec(progress, event) matches ConfigureView::Ask { progress: later, action } ==> {
            &&& progress.stage.position() <= later.stage.position() <= progress.stage.position() + 1
            &&& action == question(later.stage)
        },
{
}

/// A configuration that comes out of the gathering lists subprojects exactly when it is
/// for several modules; and then the list is the answer to the question for their names,
/// split at its commas, with nothing trimmed. Until then what has been gathered keeps
/// that shape.
pub proof fn lemma_subprojects_follow_multi(progress: GradleProgressView, event: EventView)
    ensures
        match configure_spec(progress, event) {
            ConfigureView::Done { config } => {
                &&& config.well_formed()
                &&& event is Answer
                &&& config.multi ==> config.subprojects == Some(split_spec(event->text, ','))
                &&& config.multi <==> progress.stage == GradleStage::Subprojects
            },
            ConfigureView::Ask { progress: later, .. } => progress.config.well_formed()
                ==> later.config.well_formed(),
            ConfigureView::Abort { .. } => true,
        },
{
}

/// The build file, letter by letter: nothing for no language, and for Java and for Kotlin a
/// plugin block with the one plugin of the language in it.
pub proof fn lemma_build_script_texts()
    ensures
        build_script(GradleLanguageType::Unspecified).len() == 0,
        build_script(GradleLanguageType::Java) == "plugins {\n    java\n}"@,
        build_script(GradleLanguageType::Kotlin)
            == "plugins {\n    kotlin(\"jvm\") version \"2.1.10\"\n}"@,
{
    reveal_strlit("plugins {\n    ");
    reveal_strlit("\n}");
    reveal_strlit("java");
    reveal_strlit("kotlin(\"jvm\") version \"2.1.10\"");
    reveal_strlit("plugins {\n    java\n}");
    reveal_strlit("plugins {\n    kotlin(\"jvm\") version \"2.1.10\"\n}");
    assert(build_script(GradleLanguageType::Java) =~= "plugins {\n    java\n}"@);
    assert(build_script(GradleLanguageType::Kotlin)
        =~= "plugins {\n    kotlin(\"jvm\") version \"2.1.10\"\n}"@);
}

/// The offset at which the settings file holds the name of the project.
pub open spec fn name_offset() -> int {
    20
}

/// The settings file holds the name of the project at one fixed place, whatever the name
/// is: after twenty characters that are the same for every project, and before a closing
/// quote that ends the file.
pub proof fn lemma_settings_hold_name(name: Seq<char>)
    ensures
        occurs_at(settings_script(name), name, name_offset()),
        settings_script(name).len() == name_offset() + name.len() + 1,
        settings_script(name).subrange(0, name_offset()) == "rootProject.name = \""@,
        settings_script(name).subrange(name_offset() + name.len(), settings_script(name).len() as int)
            == "\""@,
{
    reveal_strlit("rootProject.name = \"");
    reveal_strlit("\"");
    let text = settings_script(name);
    assert(text.subrange(20, 20 + name.len() as int) =~= name);
    assert(text.subrange(0, 20) =~= "rootProject.name = \""@);
    assert(text.subrange(20 + name.len() as int, text.len() as int) =~= "\""@);
}

/// The fixed text with which the settings file begins.
pub open spec fn settings_head() -> Seq<char> {
    "rootProject.name = \""@
}

/// The name begins with the last `overlap` characters of the fixed text and goes on by
/// repeating itself at that distance, so that a copy of it starts inside the fixed text
/// and runs over into the place of the name.
pub open spec fn runs_over(name: Seq<char>, overlap: int) -> bool {
    &&& 1 <= overlap <= name_offset()
    &&& overlap < name.len()
    &&& forall|j: int|
        0 <= j < overlap ==> #[trigger] name[j] == settings_head()[name_offset() - overlap + j]
    &&& forall|j: int| overlap <= j < name.len() ==> #[trigger] name[j] == name[j - overlap]
}

/// The name is such that the fixed text of the settings file makes up a second copy of
/// it: the name stands inside the fixed text (as `name` and `root` do, and the empty
/// name), or a copy of it starts there and runs over into the name itself (as for a name
/// made of two double quotes).
pub open spec fn name_repeats(name: Seq<char>) -> bool {
    ||| exists|at: int| 0 <= at < name_offset() && #[trigger] occurs_at(settings_head(), name, at)
    ||| exists|overlap: int| #[trigger] runs_over(name, overlap)
}

/// A text whose every character equals the next one, and whose last is a double quote,
/// is made of double quotes.
proof fn lemma_quotes_all_the_way(name: Seq<char>, at: int)
    requires
        0 <= at < name.len(),
        forall|j: int| 0 <= j < name.len() - 1 ==> #[trigger] name[j] == name[j + 1],
        name.last() == '"',
    ensures
        name[at] == '"',
    decreases name.len() - at,
{
    if at < name.len() - 1 {
        lemma_quotes_all_the_way(name, at + 1);
    }
}

/// The settings file, character by character: the fixed text, the name, a double quote.
proof fn lemma_settings_characters(name: Seq<char>)
    ensures
        settings_head().len() == name_offset(),
        settings_head()[name_offset() - 1] == '"',
        settings_script(name).len() == name_offset() + name.len() + 1,
        forall|i: int|
            0 <= i < name_offset() ==> #[trigger] settings_script(name)[i] == settings_head()[i],
        forall|i: int|
            0 <= i < name.len() ==> #[trigger] settings_script(name)[name_offset() + i] == name[i],
        settings_script(name)[name_offset() + name.len()] == '"',
{
    reveal_strlit("rootProject.name = \"");
    reveal_strlit("\"");
}

/// A name that the fixed text repeats is found in the settings file at a second place.
proof fn lemma_repeated_name_is_found_twice(name: Seq<char>)
    requires
        name_repeats(name),
    ensures
        exists|at: int| at != name_offset() && #[trigger] occurs_at(settings_script(name), name, at),
{
    let text = settings_script(name);
    let head = settings_head();
    let n = name.len() as int;
    lemma_settings_characters(name);
    if exists|at: int| 0 <= at < name_offset() && #[trigger] occurs_at(head, name, at) {
        let at = choose|at: int| 0 <= at < name_offset() && #[trigger] occurs_at(head, name, at);
        assert forall|j: int| 0 <= j < n implies text.subrange(at, at + n)[j] == name[j] by {
            assert(head.subrange(at, at + n)[j] == name[j]);
            assert(text[at + j] == head[at + j]);
        }
        assert(text.subrange(at, at + n) =~= name);
        assert(occurs_at(text, name, at));
    } else {
        let overlap = choose|overlap: int| #[trigger] runs_over(name, overlap);
        let at = name_offset() - overlap;
        assert forall|j: int| 0 <= j < n implies text.subrange(at, at + n)[j] == name[j] by {
            if j < overlap {
                assert(text[at + j] == head[at + j]);
            } else {
                assert(text[name_offset() + (j - overlap)] == name[j - overlap]);
            }
        }
        assert(text.subrange(at, at + n) =~= name);
        assert(occurs_at(text, name, at));
    }
}

/// A name that is found in the settings file at a second place is one that the fixed
/// text repeats.
proof fn lemma_second_place_is_a_repeat(name: Seq<char>, at: int)
    requires
        at != name_offset(),
        occurs_at(settings_script(name), name, at),
    ensures
        name_repeats(name),
{
    let text = settings_script(name);
    let head = settings_head();
    let n = name.len() as int;
    lemma_settings_characters(name);
    assert forall|j: int| 0 <= j < n implies #[trigger] text[at + j] == name[j] by {
        assert(text.subrange(at, at + n)[j] == name[j]);
    }
    if at + n <= name_offset() {
        assert forall|j: int| 0 <= j < n implies head.subrange(at, at + n)[j] == name[j] by {
            assert(text[at + j] == name[j]);
            assert(text[at + j] == head[at + j]);
        }
        assert(head.subrange(at, at + n) =~= name);
        assert(occurs_at(head, name, at));
    } else if at < name_offset() {
        let overlap = name_offset() - at;
        assert forall|j: int| 0 <= j < overlap implies #[trigger] name[j] == head[name_offset()
            - overlap + j] by {
            assert(text[at + j] == name[j]);
            assert(text[at + j] == head[at + j]);
        }
        assert forall|j: int| overlap <= j < n implies #[trigger] name[j] == name[j - overlap] by {
            assert(text[at + j] == name[j]);
            assert(text[name_offset() + (j - overlap)] == name[j - overlap]);
        }
        assert(runs_over(name, overlap));
    } else if n == 0 {
        assert(head.subrange(0, 0) =~= name);
        assert(occurs_at(head, name, 0));
    } else {
        assert(at == name_offset() + 1);
        assert forall|j: int| 0 <= j < n - 1 implies #[trigger] name[j] == name[j + 1] by {
            assert(text[at + j] == name[j]);
            assert(text[name_offset() + (j + 1)] == name[j + 1]);
        }
        assert(name.last() == '"') by {
            assert(text[at + (n - 1)] == name[n - 1]);
        }
        assert forall|j: int| 0 <= j < n implies name[j] == '"' by {
            lemma_quotes_all_the_way(name, j);
        }
        if n == 1 {
            assert(head.subrange(name_offset() - 1, name_offset()) =~= name);
            assert(occurs_at(head, name, name_offset() - 1));
        } else {
            assert(runs_over(name, 1));
        }
    }
}

/// The settings file holds the name of the project exactly once, at its fixed place,
/// for every name but those that the fixed text of the file repeats; for those, and for
/// no others, the name is found at a second place too.
pub proof fn lemma_settings_hold_name_once(name: Seq<char>)
    ensures
        name_repeats(name) <==> exists|at: int|
            at != name_offset() && #[trigger] occurs_at(settings_script(name), name, at),
        !name_repeats(name) ==> forall|at: int| #[trigger]
            occurs_at(settings_script(name), name, at) <==> at == name_offset(),
{
    lemma_settings_hold_name(name);
    if name_repeats(name) {
        lemma_repeated_name_is_found_twice(name);
    }
    assert forall|at: int|
        at != name_offset() && #[trigger] occurs_at(
            settings_script(name),
            name,
            at,
        ) implies name_repeats(name) by {
        lemma_second_place_is_a_repeat(name, at);
    }
}

} // verus!
