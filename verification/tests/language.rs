use scaffed::scaffold::gradle::GradleLanguageType;

fn parse(input: &str) -> GradleLanguageType {
    GradleLanguageType::parse(input.to_string())
}

#[test]
fn parses_kotlin_aliases() {
    assert_eq!(parse("kotlin"), GradleLanguageType::Kotlin);
    assert_eq!(parse("kt"), GradleLanguageType::Kotlin);
}

#[test]
fn parses_java_aliases() {
    assert_eq!(parse("java"), GradleLanguageType::Java);
    assert_eq!(parse("j"), GradleLanguageType::Java);
}

#[test]
fn parse_ignores_letter_case() {
    assert_eq!(parse("KOTLIN"), GradleLanguageType::Kotlin);
    assert_eq!(parse("Kotlin"), GradleLanguageType::Kotlin);
    assert_eq!(parse("kOtLiN"), GradleLanguageType::Kotlin);
    assert_eq!(parse("KT"), GradleLanguageType::Kotlin);
    assert_eq!(parse("Kt"), GradleLanguageType::Kotlin);
    assert_eq!(parse("JAVA"), GradleLanguageType::Java);
    assert_eq!(parse("Java"), GradleLanguageType::Java);
    assert_eq!(parse("jAvA"), GradleLanguageType::Java);
    assert_eq!(parse("J"), GradleLanguageType::Java);
}

#[test]
fn parse_follows_unicode_lowercase() {
    // The Kelvin sign is a capital letter whose small letter is `k`.
    assert_eq!(parse("\u{212A}otlin"), GradleLanguageType::Kotlin);
    assert_eq!(parse("\u{212A}T"), GradleLanguageType::Kotlin);
}

#[test]
fn parse_gives_unspecified_for_anything_else() {
    assert_eq!(parse(""), GradleLanguageType::Unspecified);
    assert_eq!(parse("unspecified"), GradleLanguageType::Unspecified);
    assert_eq!(parse("Unspecified"), GradleLanguageType::Unspecified);
    assert_eq!(parse("scala"), GradleLanguageType::Unspecified);
    assert_eq!(parse("kotlin "), GradleLanguageType::Unspecified);
    assert_eq!(parse(" java"), GradleLanguageType::Unspecified);
    assert_eq!(parse("k"), GradleLanguageType::Unspecified);
    assert_eq!(parse("javascript"), GradleLanguageType::Unspecified);
    assert_eq!(parse("jv"), GradleLanguageType::Unspecified);
}

#[test]
fn from_lowercase_reads_small_letters_only() {
    assert_eq!(GradleLanguageType::from_lowercase("kotlin"), GradleLanguageType::Kotlin);
    assert_eq!(GradleLanguageType::from_lowercase("kt"), GradleLanguageType::Kotlin);
    assert_eq!(GradleLanguageType::from_lowercase("java"), GradleLanguageType::Java);
    assert_eq!(GradleLanguageType::from_lowercase("j"), GradleLanguageType::Java);
    assert_eq!(GradleLanguageType::from_lowercase("Kotlin"), GradleLanguageType::Unspecified);
    assert_eq!(GradleLanguageType::from_lowercase("JAVA"), GradleLanguageType::Unspecified);
    assert_eq!(GradleLanguageType::from_lowercase(""), GradleLanguageType::Unspecified);
}

#[test]
fn languages_are_shown_by_name() {
    assert_eq!(GradleLanguageType::Kotlin.to_string(), "Kotlin");
    assert_eq!(GradleLanguageType::Java.to_string(), "Java");
    assert_eq!(GradleLanguageType::Unspecified.to_string(), "Unspecified");
}

#[test]
fn shown_name_parses_back() {
    for language in [
        GradleLanguageType::Kotlin,
        GradleLanguageType::Java,
        GradleLanguageType::Unspecified,
    ] {
        assert_eq!(GradleLanguageType::parse(language.to_string()), language);
    }
}

#[test]
fn plugin_declarations() {
    assert_eq!(GradleLanguageType::Java.plugin(), "java");
    assert_eq!(GradleLanguageType::Kotlin.plugin(), "kotlin(\"jvm\") version \"2.1.10\"");
    assert_eq!(GradleLanguageType::Unspecified.plugin(), "");
}
