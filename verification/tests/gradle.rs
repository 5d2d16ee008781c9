use scaffed::action::{Action, Event};
use scaffed::scaffold::gradle::{
    GradleConfiguration, GradleLanguageType, GradleProgress, GradleScaffold, GradleStage,
};
use scaffed::scaffold::{Configure, Scaffold};
use scaffed::ProjectConfiguration;

fn project(name: &str) -> ProjectConfiguration {
    ProjectConfiguration { name: name.to_string(), directory: "work/demo".to_string() }
}

fn config(language: GradleLanguageType) -> GradleConfiguration {
    GradleConfiguration {
        gradle_version: "8.12".to_string(),
        group: "org.example".to_string(),
        version: "1.0.0".to_string(),
        language,
        multi: false,
        subprojects: None,
    }
}

fn blank() -> GradleConfiguration {
    GradleConfiguration {
        gradle_version: String::new(),
        group: String::new(),
        version: String::new(),
        language: GradleLanguageType::Unspecified,
        multi: false,
        subprojects: None,
    }
}

fn answer(text: &str) -> Event {
    Event::Answer { text: text.to_string() }
}

fn prompt(title: &str) -> Action {
    Action::Prompt { title: title.to_string() }
}

fn content_of(action: Action) -> String {
    match action {
        Action::WriteFile { content, .. } => content,
        other => panic!("not a write: {:?}", other),
    }
}

fn occurrences(text: &str, word: &str) -> usize {
    text.char_indices().filter(|(at, _)| text[*at..].starts_with(word)).count()
}

#[test]
fn build_file_is_empty_without_language() {
    let action =
        GradleScaffold.setup_buildscripts(&project("demo"), &config(GradleLanguageType::Unspecified));
    assert_eq!(
        action,
        Action::WriteFile {
            directory: "work/demo".to_string(),
            file: "build.gradle.kts".to_string(),
            content: String::new(),
            failure: "Failed writing buildscript".to_string(),
        }
    );
}

#[test]
fn build_file_for_java() {
    let action =
        GradleScaffold.setup_buildscripts(&project("demo"), &config(GradleLanguageType::Java));
    assert_eq!(
        action,
        Action::WriteFile {
            directory: "work/demo".to_string(),
            file: "build.gradle.kts".to_string(),
            content: "plugins {\n    java\n}".to_string(),
            failure: "Failed writing buildscript".to_string(),
        }
    );
}

#[test]
fn build_file_for_kotlin() {
    let action =
        GradleScaffold.setup_buildscripts(&project("demo"), &config(GradleLanguageType::Kotlin));
    assert_eq!(
        content_of(action),
        "plugins {\n    kotlin(\"jvm\") version \"2.1.10\"\n}"
    );
}

#[test]
fn build_file_has_one_module_even_with_subprojects() {
    let mut multi = config(GradleLanguageType::Java);
    multi.multi = true;
    multi.subprojects = Some(vec!["core".to_string(), "api".to_string()]);
    assert_eq!(
        GradleScaffold.setup_buildscripts(&project("demo"), &multi),
        GradleScaffold.setup_buildscripts(&project("demo"), &config(GradleLanguageType::Java))
    );
}

#[test]
fn settings_file_names_the_project() {
    assert_eq!(
        GradleScaffold.setup_buildsettings(&project("demo")),
        Action::WriteFile {
            directory: "work/demo".to_string(),
            file: "settings.gradle.kts".to_string(),
            content: "rootProject.name = \"demo\"".to_string(),
            failure: "Failed writing buildsettings".to_string(),
        }
    );
}

#[test]
fn settings_file_holds_the_name_once() {
    for name in ["demo", "my project", "x-1", "日本語"] {
        let content = content_of(GradleScaffold.setup_buildsettings(&project(name)));
        assert_eq!(occurrences(&content, name), 1);
        assert_eq!(content.find(name), Some(20));
    }
}

#[test]
fn settings_file_takes_any_name_as_it_is() {
    assert_eq!(
        content_of(GradleScaffold.setup_buildsettings(&project(""))),
        "rootProject.name = \"\""
    );
    assert_eq!(
        content_of(GradleScaffold.setup_buildsettings(&project("a \"b\""))),
        "rootProject.name = \"a \"b\"\""
    );
    // A name that the fixed text holds too is found more than once.
    let content = content_of(GradleScaffold.setup_buildsettings(&project("name")));
    assert_eq!(content, "rootProject.name = \"name\"");
    assert_eq!(occurrences(&content, "name"), 2);
}

#[test]
fn wrapper_runs_in_the_project_directory() {
    assert_eq!(
        GradleScaffold.run_wrapper(&project("demo"), &config(GradleLanguageType::Java)),
        Action::Command {
            command: "gradle".to_string(),
            args: vec![
                "wrapper".to_string(),
                "--gradle-version".to_string(),
                "8.12".to_string(),
            ],
            cwd: Some("work/demo".to_string()),
            silent: false,
        }
    );
}

#[test]
fn install_check_is_silent() {
    assert_eq!(
        GradleScaffold.check_for_system_install(),
        Action::Command {
            command: "bash".to_string(),
            args: vec!["-c".to_string(), "command -v gradle".to_string()],
            cwd: None,
            silent: true,
        }
    );
}

#[test]
fn setup_writes_settings_then_build_then_wrapper() {
    let project = project("demo");
    let config = config(GradleLanguageType::Kotlin);
    let plan = GradleScaffold.setup_project(&project, &config);
    assert_eq!(
        plan,
        vec![
            GradleScaffold.setup_buildsettings(&project),
            GradleScaffold.setup_buildscripts(&project, &config),
            GradleScaffold.run_wrapper(&project, &config),
        ]
    );
    assert_eq!(GradleScaffold.scaffold(&project, &config), plan);
}

#[test]
fn scaffold_asks_nothing_of_the_user() {
    let plan = GradleScaffold.scaffold(&project("demo"), &config(GradleLanguageType::Java));
    assert_eq!(plan.len(), 3);
    for action in &plan {
        assert!(!action.is_prompt());
    }
}

#[test]
fn gathering_opens_with_the_install_check() {
    let (progress, action) = GradleScaffold.begin(&project("demo"));
    assert_eq!(progress, GradleProgress { stage: GradleStage::Install, config: blank() });
    assert_eq!(action, GradleScaffold.check_for_system_install());
    assert!(!action.is_prompt());
    assert!(!action.changes_files());
}

#[test]
fn questions_of_each_stage() {
    assert_eq!(
        GradleScaffold.request(GradleStage::Install),
        GradleScaffold.check_for_system_install()
    );
    assert_eq!(
        GradleScaffold.request(GradleStage::GradleVersion),
        prompt("What Gradle version would you like to use?")
    );
    assert_eq!(
        GradleScaffold.request(GradleStage::Group),
        prompt("What group ID would you like to use?")
    );
    assert_eq!(
        GradleScaffold.request(GradleStage::Version),
        prompt("What version would you like your project to use?")
    );
    assert_eq!(
        GradleScaffold.request(GradleStage::Language),
        Action::PromptOptions {
            title: "What language would you like to use?".to_string(),
            options: vec!["Java".to_string(), "Kotlin".to_string(), "Unspecified".to_string()],
        }
    );
    assert_eq!(
        GradleScaffold.request(GradleStage::Multi),
        Action::PromptBool { title: "Would you like to use multiple modules?".to_string() }
    );
    assert_eq!(
        GradleScaffold.request(GradleStage::Subprojects),
        prompt("What are the names of the subprojects? (Seperated with a comma)")
    );
}

#[test]
fn missing_gradle_aborts_with_status_one() {
    let (progress, _) = GradleScaffold.begin(&project("demo"));
    assert_eq!(
        GradleScaffold.configure(&project("demo"), progress, Event::Exited { success: false }),
        Configure::Abort { message: "No Gradle system install found!".to_string(), status: 1 }
    );
}

fn gather(events: Vec<Event>) -> (Vec<Action>, Option<GradleConfiguration>) {
    let project = project("demo");
    let (mut progress, first) = GradleScaffold.begin(&project);
    let mut asked = vec![first];
    for event in events {
        match GradleScaffold.configure(&project, progress, event) {
            Configure::Ask { progress: next, action } => {
                progress = next;
                asked.push(action);
            }
            Configure::Done { config } => return (asked, Some(config)),
            Configure::Abort { .. } => return (asked, None),
        }
    }
    (asked, None)
}

#[test]
fn questions_come_in_order_for_one_module() {
    let (asked, config) = gather(vec![
        Event::Exited { success: true },
        answer("8.12"),
        answer("org.example"),
        answer("1.0.0"),
        answer("Kotlin"),
        answer("n"),
    ]);
    assert_eq!(
        asked,
        vec![
            GradleScaffold.request(GradleStage::Install),
            GradleScaffold.request(GradleStage::GradleVersion),
            GradleScaffold.request(GradleStage::Group),
            GradleScaffold.request(GradleStage::Version),
            GradleScaffold.request(GradleStage::Language),
            GradleScaffold.request(GradleStage::Multi),
        ]
    );
    assert_eq!(config, Some(config_of(GradleLanguageType::Kotlin, None)));
}

fn config_of(language: GradleLanguageType, subprojects: Option<Vec<String>>) -> GradleConfiguration {
    GradleConfiguration {
        gradle_version: "8.12".to_string(),
        group: "org.example".to_string(),
        version: "1.0.0".to_string(),
        language,
        multi: subprojects.is_some(),
        subprojects,
    }
}

#[test]
fn subprojects_are_asked_for_several_modules() {
    let (asked, config) = gather(vec![
        Event::Exited { success: true },
        answer("8.12"),
        answer("org.example"),
        answer("1.0.0"),
        answer("Java"),
        answer("y"),
        answer("a,b,c"),
    ]);
    assert_eq!(asked.len(), 7);
    assert_eq!(asked[6], GradleScaffold.request(GradleStage::Subprojects));
    assert_eq!(
        config,
        Some(config_of(
            GradleLanguageType::Java,
            Some(vec!["a".to_string(), "b".to_string(), "c".to_string()])
        ))
    );
}

#[test]
fn subproject_names_are_not_trimmed() {
    let (_, config) = gather(vec![
        Event::Exited { success: true },
        answer("8.12"),
        answer("org.example"),
        answer("1.0.0"),
        answer("Unspecified"),
        answer("true"),
        answer("a, b"),
    ]);
    assert_eq!(
        config,
        Some(config_of(
            GradleLanguageType::Unspecified,
            Some(vec!["a".to_string(), " b".to_string()])
        ))
    );
}

#[test]
fn yes_no_question_is_put_again_until_answered() {
    let (asked, config) = gather(vec![
        Event::Exited { success: true },
        answer("8.12"),
        answer("org.example"),
        answer("1.0.0"),
        answer("java"),
        answer("yes"),
        answer("N"),
        answer("false"),
    ]);
    assert_eq!(asked.len(), 8);
    assert_eq!(asked[5], GradleScaffold.request(GradleStage::Multi));
    assert_eq!(asked[6], GradleScaffold.request(GradleStage::Multi));
    assert_eq!(asked[7], GradleScaffold.request(GradleStage::Multi));
    assert_eq!(config, Some(config_of(GradleLanguageType::Java, None)));
}

#[test]
fn event_of_the_wrong_kind_changes_nothing() {
    let project = project("demo");
    let progress = GradleProgress {
        stage: GradleStage::Group,
        config: config(GradleLanguageType::Unspecified),
    };
    for event in [Event::Done, Event::Exited { success: true }, Event::Exited { success: false }] {
        assert_eq!(
            GradleScaffold.configure(&project, progress.clone(), event),
            Configure::Ask {
                progress: progress.clone(),
                action: GradleScaffold.request(GradleStage::Group),
            }
        );
    }
    let checking = GradleProgress { stage: GradleStage::Install, config: blank() };
    assert_eq!(
        GradleScaffold.configure(&project, checking.clone(), answer("8.12")),
        Configure::Ask { progress: checking, action: GradleScaffold.check_for_system_install() }
    );
}

#[test]
fn gathering_changes_no_files() {
    let (asked, _) = gather(vec![
        Event::Exited { success: true },
        answer("8.12"),
        answer("org.example"),
        answer("1.0.0"),
        answer("kt"),
        answer("y"),
        answer("core,api"),
    ]);
    for action in &asked {
        assert!(!action.changes_files());
    }
}
