use personalities::LoadError;
use personalities::Personality;
use personalities::PersonalityLoader;

#[test]
fn test_load_personalities() {
    let loader = PersonalityLoader::from_embedded();
    assert_eq!(loader.count(), 117);

    // Test specific personalities exist
    assert!(loader.get("linus").is_some());
    assert!(loader.get("ada").is_some());
    assert!(loader.get("hanzo").is_some());
}

#[test]
fn test_filter_by_tags() {
    let loader = PersonalityLoader::from_embedded();
    let pioneers = loader.filter_by_tags(&["pioneer".to_string()]);
    assert!(!pioneers.is_empty());
    assert!(pioneers.iter().any(|p| p.name == "ada"));
}

fn doc_of_three() -> &'static str {
    r#"[
      {"name": "ada", "programmer": "Ada Lovelace", "description": "first",
       "tools": ["engine"], "tags": ["pioneer", "mathematics"]},
      {"name": "linus", "programmer": "Linus Torvalds", "description": "kernel",
       "philosophy": "Talk is cheap.",
       "tools": ["git", "make"], "tags": ["kernel"],
       "environment": {"EDITOR": "vi", "SHELL": "sh"}},
      {"name": "grace", "programmer": "Grace Hopper", "description": "compilers",
       "tools": [], "tags": ["pioneer", "compilers"]}
    ]"#
}

#[test]
fn count_is_number_of_distinct_names() {
    let loader = PersonalityLoader::from_json_str(doc_of_three()).unwrap();
    assert_eq!(loader.count(), 3);
}

#[test]
fn get_returns_the_loaded_record() {
    let loader = PersonalityLoader::from_json_str(doc_of_three()).unwrap();
    let expected = Personality {
        name: "linus".to_string(),
        programmer: "Linus Torvalds".to_string(),
        description: "kernel".to_string(),
        philosophy: Some("Talk is cheap.".to_string()),
        tools: vec!["git".to_string(), "make".to_string()],
        tags: vec!["kernel".to_string()],
        environment: Some(vec![
            ("EDITOR".to_string(), "vi".to_string()),
            ("SHELL".to_string(), "sh".to_string()),
        ]),
    };
    assert_eq!(loader.get("linus"), Some(&expected));
    assert_eq!(loader.get("nobody"), None);
}

#[test]
fn get_names_matches_count_and_keys() {
    let loader = PersonalityLoader::from_json_str(doc_of_three()).unwrap();
    let mut names = loader.get_names();
    names.sort();
    assert_eq!(names, vec!["ada".to_string(), "grace".to_string(), "linus".to_string()]);
    assert_eq!(loader.get_names().len(), loader.count());
}

#[test]
fn filter_by_tags_is_the_matching_subset() {
    let loader = PersonalityLoader::from_json_str(doc_of_three()).unwrap();
    let pioneers = loader.filter_by_tags(&["pioneer".to_string()]);
    let mut names: Vec<&str> = pioneers.iter().map(|p| p.name.as_str()).collect();
    names.sort();
    assert_eq!(names, vec!["ada", "grace"]);

    let expected: Vec<&Personality> = loader
        .get_all()
        .into_iter()
        .filter(|p| p.tags.iter().any(|t| t == "pioneer"))
        .collect();
    let mut expected_names: Vec<&str> = expected.iter().map(|p| p.name.as_str()).collect();
    expected_names.sort();
    assert_eq!(names, expected_names);
}

#[test]
fn filter_by_no_tags_is_empty() {
    let loader = PersonalityLoader::from_json_str(doc_of_three()).unwrap();
    let none: &[String] = &[];
    assert!(loader.filter_by_tags(none).is_empty());
}

#[test]
fn filter_matches_any_of_several_tags() {
    let loader = PersonalityLoader::from_json_str(doc_of_three()).unwrap();
    let hits = loader.filter_by_tags(&["kernel".to_string(), "compilers".to_string()]);
    let mut names: Vec<&str> = hits.iter().map(|p| p.name.as_str()).collect();
    names.sort();
    assert_eq!(names, vec!["grace", "linus"]);
}

#[test]
fn duplicate_names_collapse_last_seen_wins() {
    let doc = r#"[
      {"name": "ada", "programmer": "first author", "description": "early",
       "tools": [], "tags": ["a"]},
      {"name": "grace", "programmer": "Grace Hopper", "description": "compilers",
       "tools": [], "tags": []},
      {"name": "ada", "programmer": "second author", "description": "late",
       "tools": ["engine"], "tags": ["b"]}
    ]"#;
    let loader = PersonalityLoader::from_json_str(doc).unwrap();
    assert_eq!(loader.count(), 2);
    let ada = loader.get("ada").unwrap();
    assert_eq!(ada.programmer, "second author");
    assert_eq!(ada.description, "late");
    assert_eq!(ada.tags, vec!["b".to_string()]);
}

#[test]
fn not_json_is_a_parse_error() {
    assert_eq!(PersonalityLoader::from_json_str("not json").unwrap_err(), LoadError::ParseError);
}

#[test]
fn missing_required_fields_is_a_parse_error() {
    assert_eq!(
        PersonalityLoader::from_json_str(r#"[{"name": "x"}]"#).unwrap_err(),
        LoadError::ParseError
    );
}

#[test]
fn wrong_field_type_is_a_parse_error() {
    let doc = r#"[{"name": "x", "programmer": "y", "description": "z",
                   "tools": "not a list", "tags": []}]"#;
    assert_eq!(PersonalityLoader::from_json_str(doc).unwrap_err(), LoadError::ParseError);
}

#[test]
fn unknown_field_is_a_parse_error() {
    let doc = r#"[{"name": "x", "programmer": "y", "description": "z",
                   "tools": [], "tags": [], "age": "41"}]"#;
    assert_eq!(PersonalityLoader::from_json_str(doc).unwrap_err(), LoadError::ParseError);
}

#[test]
fn trailing_text_is_a_parse_error() {
    assert_eq!(PersonalityLoader::from_json_str("[] extra").unwrap_err(), LoadError::ParseError);
}

#[test]
fn empty_array_is_an_empty_catalog() {
    let loader = PersonalityLoader::from_json_str("  [ ]  ").unwrap();
    assert_eq!(loader.count(), 0);
    assert!(loader.get_all().is_empty());
    assert!(loader.get_names().is_empty());
}

#[test]
fn string_escapes_are_decoded() {
    let doc = r#"[{"name": "esc", "programmer": "a\"b\\c\/d", "description": "line\nbreak\ttab",
                   "philosophy": "A\u00e9", "tools": [], "tags": []}]"#;
    let loader = PersonalityLoader::from_json_str(doc).unwrap();
    let rec = loader.get("esc").unwrap();
    assert_eq!(rec.programmer, "a\"b\\c/d");
    assert_eq!(rec.description, "line\nbreak\ttab");
    assert_eq!(rec.philosophy.as_deref(), Some("A\u{e9}"));
}

#[test]
fn non_ascii_text_loads_unescaped() {
    let doc = r#"[{"name": "café", "programmer": "Ada Ágústsdóttir", "description": "snømåking",
                   "tools": ["çédille"], "tags": ["日本語"]}]"#;
    let loader = PersonalityLoader::from_json_str(doc).unwrap();
    assert_eq!(loader.count(), 1);
    let rec = loader.get("café").unwrap();
    assert_eq!(rec.programmer, "Ada Ágústsdóttir");
    assert_eq!(rec.tags, vec!["日本語".to_string()]);
    let hits = loader.filter_by_tags(&["日本語".to_string()]);
    assert_eq!(hits.len(), 1);
}

#[test]
fn surrogate_pair_escape_is_decoded() {
    let doc = r#"[{"name": "emoji", "programmer": "p", "description": "grin \uD83D\uDE00 here",
                   "tools": [], "tags": []}]"#;
    let loader = PersonalityLoader::from_json_str(doc).unwrap();
    let rec = loader.get("emoji").unwrap();
    assert_eq!(rec.description, "grin \u{1F600} here");
}

#[test]
fn lone_surrogate_escape_is_a_parse_error() {
    let high_alone = r#"[{"name": "x", "programmer": "\uD83D oops", "description": "d",
                          "tools": [], "tags": []}]"#;
    assert_eq!(PersonalityLoader::from_json_str(high_alone).unwrap_err(), LoadError::ParseError);
    let low_first = r#"[{"name": "x", "programmer": "\uDE00 oops", "description": "d",
                         "tools": [], "tags": []}]"#;
    assert_eq!(PersonalityLoader::from_json_str(low_first).unwrap_err(), LoadError::ParseError);
}

#[test]
fn repeated_member_key_is_a_parse_error() {
    let doc = r#"[{"name": "x", "name": "y", "programmer": "p", "description": "d",
                   "tools": [], "tags": []}]"#;
    assert_eq!(PersonalityLoader::from_json_str(doc).unwrap_err(), LoadError::ParseError);
}

#[test]
fn null_optional_fields_count_as_absent() {
    let doc = r#"[{"name": "x", "programmer": "p", "description": "d",
                   "philosophy": null, "tools": [], "tags": [], "environment": null}]"#;
    let loader = PersonalityLoader::from_json_str(doc).unwrap();
    let rec = loader.get("x").unwrap();
    assert_eq!(rec.philosophy, None);
    assert_eq!(rec.environment, None);
}

#[test]
fn null_required_field_is_a_parse_error() {
    let doc = r#"[{"name": "x", "programmer": null, "description": "d",
                   "tools": [], "tags": []}]"#;
    assert_eq!(PersonalityLoader::from_json_str(doc).unwrap_err(), LoadError::ParseError);
}

#[test]
fn bad_escape_is_a_parse_error() {
    let doc = r#"[{"name": "x", "programmer": "bad \q escape", "description": "z",
                   "tools": [], "tags": []}]"#;
    assert_eq!(PersonalityLoader::from_json_str(doc).unwrap_err(), LoadError::ParseError);
}

#[test]
fn repeated_environment_key_keeps_the_last_value() {
    let doc = r#"[{"name": "x", "programmer": "y", "description": "z",
                   "tools": [], "tags": [],
                   "environment": {"EDITOR": "ed", "EDITOR": "vi"}}]"#;
    let loader = PersonalityLoader::from_json_str(doc).unwrap();
    let rec = loader.get("x").unwrap();
    assert_eq!(
        rec.environment,
        Some(vec![("EDITOR".to_string(), "vi".to_string())])
    );
}

#[test]
fn get_all_returns_every_record() {
    let loader = PersonalityLoader::from_json_str(doc_of_three()).unwrap();
    let all = loader.get_all();
    assert_eq!(all.len(), 3);
    let mut names: Vec<&str> = all.iter().map(|p| p.name.as_str()).collect();
    names.sort();
    assert_eq!(names, vec!["ada", "grace", "linus"]);
}

#[test]
fn embedded_default_and_convenience_loads_agree() {
    assert_eq!(PersonalityLoader::default().count(), 117);
    assert_eq!(personalities::load_personalities().count(), 117);
}

#[test]
fn embedded_pioneer_filter_holds_known_records() {
    let loader = personalities::load_personalities();
    let pioneers = loader.filter_by_tags(&["pioneer".to_string()]);
    assert!(pioneers.iter().any(|p| p.name == "ada"));
    assert!(pioneers.iter().any(|p| p.name == "grace"));
    assert!(pioneers.iter().all(|p| p.tags.iter().any(|t| t == "pioneer")));
}
