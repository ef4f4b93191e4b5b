use lastchange::deps::{lookup_dependencies, DepsError};

const SAMPLE: &str = r#"
["main.c"]
dependencies = ["a.h", "b.h"]

["other.c"]
note = "no dependencies key"

["odd.c"]
dependencies = "not an array"
"#;

#[test]
fn entry_with_dependencies() {
    let r = lookup_dependencies(SAMPLE, "main.c").unwrap();
    assert_eq!(r, Some(vec!["a.h".to_string(), "b.h".to_string()]));
}

#[test]
fn entry_without_dependencies_key() {
    let r = lookup_dependencies(SAMPLE, "other.c").unwrap();
    assert_eq!(r, None);
}

#[test]
fn entry_whose_dependencies_are_not_an_array() {
    let r = lookup_dependencies(SAMPLE, "odd.c").unwrap();
    assert_eq!(r, None);
}

#[test]
fn missing_entry() {
    let r = lookup_dependencies(SAMPLE, "absent.c").unwrap();
    assert_eq!(r, None);
}

#[test]
fn empty_text_has_no_entries() {
    let r = lookup_dependencies("", "main.c").unwrap();
    assert_eq!(r, None);
}

#[test]
fn empty_dependency_list() {
    let text = "[\"lone.c\"]\ndependencies = []\n";
    let r = lookup_dependencies(text, "lone.c").unwrap();
    assert_eq!(r, Some(Vec::new()));
}

#[test]
fn non_string_dependency_is_rejected() {
    let text = "[\"main.c\"]\ndependencies = [\"a.h\", 3]\n";
    let r = lookup_dependencies(text, "main.c");
    assert_eq!(r, Err(DepsError::NonStringDependency));
}

#[test]
fn invalid_toml_is_rejected() {
    let r = lookup_dependencies("not = = toml", "main.c");
    assert_eq!(r, Err(DepsError::Unparsable));
}

#[test]
fn error_messages() {
    assert_eq!(DepsError::Unparsable.message(), "Failed to parse .deps.toml");
    assert_eq!(
        DepsError::NonStringDependency.message(),
        "dependency was not a string"
    );
}
