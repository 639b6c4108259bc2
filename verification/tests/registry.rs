use locale_registry::BuildError;
use locale_registry::LocaleSource;
use locale_registry::TranslationSet;
use locale_registry::build_registry;
use locale_registry::default_tag;
use locale_registry::locale_entries;

fn source(tag: &str, path: &str, content: Option<&str>) -> LocaleSource {
    LocaleSource {
        tag: tag.to_owned(),
        path: path.to_owned(),
        content: content.map(|c| c.to_owned()),
    }
}

fn pairs(set: &TranslationSet) -> Vec<(String, String)> {
    set.entries().clone()
}

fn pair(k: &str, v: &str) -> (String, String) {
    (k.to_owned(), v.to_owned())
}

#[test]
fn build_with_two_valid_files_keeps_each_tag_apart() {
    let sources = vec![
        source("en-US", "locales/en.json", Some(r#"{"hello":"Hello"}"#)),
        source("en-GB", "locales/en_GB.json", Some(r#"{"hello":"Hello, mate"}"#)),
    ];
    let registry = build_registry("en-US", &sources).unwrap();
    assert_eq!(pairs(registry.lookup("en-GB")), vec![pair("hello", "Hello, mate")]);
    assert_eq!(pairs(registry.lookup("en-US")), vec![pair("hello", "Hello")]);
}

#[test]
fn undeclared_tag_falls_back_to_the_default_set() {
    let sources = vec![
        source("en-US", "locales/en.json", Some(r#"{"hello":"Hello"}"#)),
        source("fr-FR", "locales/fr.json", Some(r#"{"hello":"Bonjour"}"#)),
    ];
    let registry = build_registry("en-US", &sources).unwrap();
    assert_eq!(pairs(registry.lookup("xx-XX")), pairs(registry.lookup("en-US")));
    assert_eq!(pairs(registry.lookup("xx-XX")), vec![pair("hello", "Hello")]);
}

#[test]
fn tags_sharing_one_text_hold_identical_sets() {
    let es = r#"{"hello":"Hola","bye":"Adios"}"#;
    let sources = vec![
        source("en-US", "locales/en.json", Some(r#"{"hello":"Hello","bye":"Bye"}"#)),
        source("es-ES", "locales/es.json", Some(es)),
        source("es-MX", "locales/es.json", Some(es)),
    ];
    let registry = build_registry("en-US", &sources).unwrap();
    assert_eq!(pairs(registry.lookup("es-ES")), pairs(registry.lookup("es-MX")));
}

#[test]
fn every_declared_tag_yields_a_nonempty_set() {
    let sources = vec![
        source("en-US", "locales/en.json", Some(r#"{"hello":"Hello"}"#)),
        source("cs-CZ", "locales/cs.json", Some(r#"{"hello":"Ahoj"}"#)),
        source("hu-HU", "locales/hu.json", Some(r#"{"hello":"Szia"}"#)),
    ];
    let registry = build_registry("en-US", &sources).unwrap();
    for tag in ["en-US", "cs-CZ", "hu-HU"] {
        assert!(registry.contains_tag(tag));
        assert!(!registry.lookup(tag).is_empty());
    }
}

#[test]
fn a_missing_file_fails_the_build_and_names_its_path() {
    let sources = vec![
        source("en-US", "locales/en.json", Some(r#"{"hello":"Hello"}"#)),
        source("fr-FR", "locales/fr.json", None),
    ];
    let error = build_registry("en-US", &sources).unwrap_err();
    assert_eq!(error, BuildError::MissingFile { path: "locales/fr.json".to_owned() });
}

#[test]
fn a_malformed_document_fails_the_build_and_names_its_path() {
    let sources = vec![
        source("en-US", "locales/en.json", Some(r#"{"hello":"Hello"}"#)),
        source("pl-PL", "locales/pl.json", Some(r#"{"hello": nonsense}"#)),
    ];
    let error = build_registry("en-US", &sources).unwrap_err();
    assert_eq!(error, BuildError::InvalidJson { path: "locales/pl.json".to_owned() });
}

#[test]
fn a_document_that_is_no_object_fails_the_build() {
    let sources = vec![source("en-US", "locales/en.json", Some(r#"["hello"]"#))];
    let error = build_registry("en-US", &sources).unwrap_err();
    assert_eq!(error, BuildError::InvalidJson { path: "locales/en.json".to_owned() });
}

#[test]
fn a_repeated_tag_fails_the_build() {
    let sources = vec![
        source("en-US", "locales/en.json", Some(r#"{"hello":"Hello"}"#)),
        source("en-US", "locales/en_US.json", Some(r#"{"hello":"Howdy"}"#)),
    ];
    let error = build_registry("en-US", &sources).unwrap_err();
    assert_eq!(error, BuildError::DuplicateTag { tag: "en-US".to_owned() });
}

#[test]
fn a_repeated_tag_is_refused_before_its_file_is_even_consulted() {
    let sources = vec![
        source("en-US", "locales/en.json", Some(r#"{"hello":"Hello"}"#)),
        source("en-US", "locales/en_US.json", None),
    ];
    let error = build_registry("en-US", &sources).unwrap_err();
    assert_eq!(error, BuildError::DuplicateTag { tag: "en-US".to_owned() });
}

#[test]
fn an_undeclared_default_tag_fails_the_build() {
    let sources = vec![source("fr-FR", "locales/fr.json", Some(r#"{"hello":"Bonjour"}"#))];
    let error = build_registry("en-US", &sources).unwrap_err();
    assert_eq!(error, BuildError::DefaultTagNotFound);
}

#[test]
fn the_first_faulty_source_decides_the_error() {
    let sources = vec![
        source("fr-FR", "locales/fr.json", None),
        source("en-US", "locales/en.json", Some(r#"{"hello": nonsense}"#)),
    ];
    let error = build_registry("en-US", &sources).unwrap_err();
    assert_eq!(error, BuildError::MissingFile { path: "locales/fr.json".to_owned() });
}

#[test]
fn parsing_keeps_string_values_bare_and_renders_the_rest_as_json() {
    let text = r#"{"b":"x","a":1,"c":{"k":true},"d":[1,2]}"#;
    let sources = vec![source("en-US", "locales/en.json", Some(text))];
    let registry = build_registry("en-US", &sources).unwrap();
    let set = registry.lookup("en-US");
    assert_eq!(
        pairs(set),
        vec![pair("a", "1"), pair("b", "x"), pair("c", r#"{"k":true}"#), pair("d", "[1,2]")]
    );
    assert_eq!(set.len(), 4);
    assert_eq!(set.get("b"), Some(&"x".to_owned()));
    assert_eq!(set.get("hello"), None);
}

#[test]
fn an_empty_object_builds_an_empty_set() {
    let sources = vec![source("en-US", "locales/en.json", Some("{}"))];
    let registry = build_registry("en-US", &sources).unwrap();
    assert!(registry.lookup("en-US").is_empty());
    assert_eq!(registry.lookup("en-US").len(), 0);
}

#[test]
fn registry_reports_its_tags_and_default() {
    let sources = vec![
        source("en-US", "locales/en.json", Some(r#"{"hello":"Hello"}"#)),
        source("ja-JP", "locales/ja.json", Some(r#"{"hello":"Konnichiwa"}"#)),
    ];
    let registry = build_registry("en-US", &sources).unwrap();
    assert_eq!(registry.len(), 2);
    assert_eq!(registry.get_default_tag(), "en-US");
    assert_eq!(registry.tags(), &vec!["en-US".to_owned(), "ja-JP".to_owned()]);
    assert!(registry.contains_tag("ja-JP"));
    assert!(!registry.contains_tag("xx-XX"));
}

#[test]
fn translation_sets_can_be_assembled_directly() {
    let set = TranslationSet::from_entries(vec![pair("hello", "Hello")]);
    assert_eq!(set.len(), 1);
    assert!(!set.is_empty());
    assert_eq!(set.get("hello"), Some(&"Hello".to_owned()));
    assert_eq!(pairs(&set), vec![pair("hello", "Hello")]);
}

#[test]
fn the_declared_table_lists_every_supported_tag_once() {
    let entries = locale_entries();
    assert_eq!(entries.len(), 50);
    assert_eq!(entries[0], pair("ar-AE", "locales/ar.json"));
    assert_eq!(entries[49], pair("zh-TW", "locales/zh_TW.json"));
    for (i, (tag, _)) in entries.iter().enumerate() {
        for (other, _) in entries.iter().skip(i + 1) {
            assert_ne!(tag, other);
        }
    }
    assert_eq!(default_tag(), "en-US");
    assert!(entries.iter().any(|(tag, path)| tag == "en-US" && path == "locales/en.json"));
}

#[test]
fn the_declared_table_keeps_the_capitalised_paths_verbatim() {
    let entries = locale_entries();
    for wanted in ["de-LI", "de-LU"] {
        let (_, path) = entries.iter().find(|(tag, _)| tag == wanted).unwrap();
        assert_eq!(path, "Locales/de.json");
    }
    let (_, path) = entries.iter().find(|(tag, _)| tag == "de-DE").unwrap();
    assert_eq!(path, "locales/de.json");
}

#[test]
fn the_whole_declared_table_builds_when_every_document_is_served() {
    let entries = locale_entries();
    let sources: Vec<LocaleSource> = entries
        .iter()
        .map(|(tag, path)| {
            let text = format!(r#"{{"path":"{}"}}"#, path);
            source(tag, path, Some(&text))
        })
        .collect();
    let registry = build_registry(&default_tag(), &sources).unwrap();
    assert_eq!(registry.len(), 50);
    for (tag, path) in &entries {
        assert!(registry.contains_tag(tag));
        let set = registry.lookup(tag);
        assert!(!set.is_empty());
        assert_eq!(set.get("path"), Some(path));
    }
    assert_eq!(pairs(registry.lookup("es-ES")), pairs(registry.lookup("es-MX")));
    assert_eq!(pairs(registry.lookup("xx-XX")), pairs(registry.lookup("en-US")));
}
