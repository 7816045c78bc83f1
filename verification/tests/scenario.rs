use cc_pio::{
    configure, configure_from_output, parse, select, translate, ConfigureError, FetchError, Field, Json, Language,
    SelectError, TranslateError,
};

const DOCUMENT: &str = r#"{"esp32":{"libsource_dirs":["/a"],"defines":["X","Y=1"],"includes":{"g":["/inc"]},"cc_flags":["-O2"],"cxx_flags":["-std=c++17"],"cc_path":"/bin/cc","cxx_path":"/bin/c++"}}"#;

fn shown(build: &cc::Build) -> String {
    format!("{:?}", build)
}

fn holds(build: &cc::Build, part: &str) -> bool {
    shown(build).contains(part)
}

fn text(value: &str) -> Json {
    Json::Text(value.to_string())
}

fn texts(values: &[&str]) -> Json {
    Json::Array(values.iter().map(|value| text(value)).collect())
}

fn object(entries: Vec<(&str, Json)>) -> Json {
    Json::Object(entries.into_iter().map(|(key, value)| (key.to_string(), value)).collect())
}

fn record() -> Json {
    object(vec![
        ("libsource_dirs", texts(&["/a"])),
        ("defines", texts(&["X", "Y=1"])),
        ("includes", object(vec![("g", texts(&["/inc"]))])),
        ("cc_flags", texts(&["-O2"])),
        ("cxx_flags", texts(&["-std=c++17"])),
        ("cc_path", text("/bin/cc")),
        ("cxx_path", text("/bin/c++")),
    ])
}

fn without(record: Json, key: &str) -> Json {
    match record {
        Json::Object(entries) => Json::Object(entries.into_iter().filter(|(name, _)| name != key).collect()),
        other => other,
    }
}

fn with(record: Json, key: &str, value: Json) -> Json {
    match without(record, key) {
        Json::Object(mut entries) => {
            entries.push((key.to_string(), value));
            Json::Object(entries)
        },
        other => other,
    }
}

#[test]
fn parse_reads_the_document() {
    assert_eq!(parse(DOCUMENT), Ok(object(vec![("esp32", record())])));
}

#[test]
fn end_to_end_cpp() {
    let mut build = cc::Build::new();
    let result = configure_from_output(DOCUMENT.as_bytes().to_vec(), Language::Cpp, &mut build);
    assert_eq!(result, Ok("esp32".to_string()));
    assert!(holds(&build, r#" flags: [IfSupported("-L/a"), Always("-std=c++17")],"#));
    assert!(holds(&build, r#" definitions: [("X", None), ("Y", Some("1"))],"#));
    assert!(holds(&build, r#"include_directories: ["/inc"],"#));
    assert!(holds(&build, r#" compiler: Some("/bin/c++"),"#));
}

#[test]
fn end_to_end_c() {
    let mut build = cc::Build::new();
    let result = configure_from_output(DOCUMENT.as_bytes().to_vec(), Language::C, &mut build);
    assert_eq!(result, Ok("esp32".to_string()));
    assert!(holds(&build, r#" flags: [IfSupported("-L/a"), Always("-O2")],"#));
    assert!(holds(&build, r#" definitions: [("X", None), ("Y", Some("1"))],"#));
    assert!(holds(&build, r#"include_directories: ["/inc"],"#));
    assert!(holds(&build, r#" compiler: Some("/bin/cc"),"#));
}

#[test]
fn language_from_flag() {
    assert_eq!(Language::from_cpp(true), Language::Cpp);
    assert_eq!(Language::from_cpp(false), Language::C);
}

#[test]
fn cpp_reads_nothing_of_c() {
    let changed = with(with(record(), "cc_flags", texts(&["-Os", "-g"])), "cc_path", text("/opt/cc"));
    let mut first = cc::Build::new();
    let mut second = cc::Build::new();
    assert_eq!(translate(&record(), Language::Cpp, &mut first), Ok(()));
    assert_eq!(translate(&changed, Language::Cpp, &mut second), Ok(()));
    assert_eq!(shown(&first), shown(&second));
    assert!(!holds(&second, "-Os"));
    assert!(!holds(&second, "/opt/cc"));
}

#[test]
fn cpp_tolerates_missing_c_fields() {
    let stripped = without(without(record(), "cc_flags"), "cc_path");
    let mut build = cc::Build::new();
    assert_eq!(translate(&stripped, Language::Cpp, &mut build), Ok(()));
    assert!(holds(&build, r#" compiler: Some("/bin/c++"),"#));
}

#[test]
fn c_reads_nothing_of_cpp() {
    let changed = with(with(record(), "cxx_flags", Json::Null), "cxx_path", Json::Bool(true));
    let mut first = cc::Build::new();
    let mut second = cc::Build::new();
    assert_eq!(translate(&record(), Language::C, &mut first), Ok(()));
    assert_eq!(translate(&changed, Language::C, &mut second), Ok(()));
    assert_eq!(shown(&first), shown(&second));
    assert!(!holds(&second, "c++"));
}

#[test]
fn translation_appends_to_what_is_there() {
    let mut build = cc::Build::new();
    build.flag("-Wall").define("OLD", "0").compiler("/old/cc");
    build.includes(Some("/old/inc"));
    assert_eq!(translate(&record(), Language::C, &mut build), Ok(()));
    assert!(holds(&build, r#" flags: [Always("-Wall"), IfSupported("-L/a"), Always("-O2")],"#));
    assert!(holds(&build, r#" definitions: [("OLD", Some("0")), ("X", None), ("Y", Some("1"))],"#));
    assert!(holds(&build, r#"include_directories: ["/old/inc", "/inc"],"#));
    assert!(holds(&build, r#" compiler: Some("/bin/cc"),"#));
}

#[test]
fn a_second_translation_replaces_the_compiler() {
    let mut build = cc::Build::new();
    assert_eq!(translate(&record(), Language::C, &mut build), Ok(()));
    assert_eq!(translate(&record(), Language::Cpp, &mut build), Ok(()));
    assert!(holds(&build, r#" compiler: Some("/bin/c++"),"#));
    assert!(!holds(&build, r#"Some("/bin/cc")"#));
}

#[test]
fn library_directories_become_optional_flags() {
    let mut build = cc::Build::new();
    let changed = with(record(), "libsource_dirs", texts(&["/a", "", "rel/b c"]));
    assert_eq!(translate(&changed, Language::C, &mut build), Ok(()));
    assert!(holds(
        &build,
        r#" flags: [IfSupported("-L/a"), IfSupported("-L"), IfSupported("-Lrel/b c"), Always("-O2")],"#
    ));
}

#[test]
fn include_groups_keep_document_order() {
    let document = r#"{"env":{"libsource_dirs":[],"defines":[],"includes":{"z":["/z1","/z2"],"empty":[],"a":["/a1"],"m":["/m1","/z1"]},"cc_flags":[],"cxx_flags":[],"cc_path":"cc","cxx_path":"c++"}}"#;
    let mut build = cc::Build::new();
    let result = configure_from_output(document.as_bytes().to_vec(), Language::C, &mut build);
    assert_eq!(result, Ok("env".to_string()));
    assert!(holds(&build, r#"include_directories: ["/z1", "/z2", "/a1", "/m1", "/z1"],"#));
    assert!(holds(&build, r#" flags: [],"#));
    assert!(holds(&build, r#" definitions: [],"#));
}

#[test]
fn include_group_names_are_not_recorded() {
    let mut build = cc::Build::new();
    let changed = with(record(), "includes", object(vec![("GROUPNAME", texts(&["/x"]))]));
    assert_eq!(translate(&changed, Language::C, &mut build), Ok(()));
    assert!(!holds(&build, "GROUPNAME"));
    assert!(holds(&build, r#"include_directories: ["/x"],"#));
}

#[test]
fn defines_split_at_first_and_last_separator() {
    let mut build = cc::Build::new();
    let changed = with(record(), "defines", texts(&["PLAIN", "K=V", "A=B=C", "E=", "=", "P=/x=y/z"]));
    assert_eq!(translate(&changed, Language::C, &mut build), Ok(()));
    assert!(holds(
        &build,
        r#" definitions: [("PLAIN", None), ("K", Some("V")), ("A", Some("C")), ("E", Some("")), ("", Some("")), ("P", Some("y/z"))],"#
    ));
}

#[test]
fn array_document_is_not_an_object() {
    let mut build = cc::Build::new();
    build.flag("-Wall");
    let before = shown(&build);
    let result = configure_from_output(b"[1, 2]".to_vec(), Language::Cpp, &mut build);
    assert_eq!(result, Err(ConfigureError::Select(SelectError::NotAnObject)));
    assert_eq!(shown(&build), before);
    assert_eq!(select(Json::Array(vec![])), Err(SelectError::NotAnObject));
    assert_eq!(select(Json::Null), Err(SelectError::NotAnObject));
    assert_eq!(select(text("esp32")), Err(SelectError::NotAnObject));
}

#[test]
fn empty_document_has_no_environment() {
    let mut build = cc::Build::new();
    let before = shown(&build);
    let result = configure_from_output(b"{}".to_vec(), Language::C, &mut build);
    assert_eq!(result, Err(ConfigureError::Select(SelectError::NoEnvironment)));
    assert_eq!(shown(&build), before);
}

#[test]
fn output_that_is_not_utf8() {
    let mut build = cc::Build::new();
    let before = shown(&build);
    let result = configure_from_output(vec![b'{', 0xff, b'}'], Language::C, &mut build);
    assert_eq!(result, Err(ConfigureError::Fetch(FetchError::InvalidEncoding)));
    assert_eq!(shown(&build), before);
}

#[test]
fn output_that_is_not_json() {
    let mut build = cc::Build::new();
    let before = shown(&build);
    let result = configure_from_output(b"{\"esp32\": ".to_vec(), Language::C, &mut build);
    assert_eq!(result, Err(ConfigureError::Fetch(FetchError::MalformedMetadata)));
    assert_eq!(shown(&build), before);
    assert_eq!(parse(""), Err(FetchError::MalformedMetadata));
    assert_eq!(parse("{} trailing"), Err(FetchError::MalformedMetadata));
}

#[test]
fn select_takes_the_first_environment() {
    let document = parse(r#"{"uno":{"x":1},"esp32":{"x":2},"due":{"x":3}}"#).unwrap();
    let (name, record) = select(document).unwrap();
    assert_eq!(name, "uno");
    assert_eq!(record, object(vec![("x", Json::Number("1".to_string()))]));
}

#[test]
fn select_returns_an_entry_of_the_document() {
    let document = object(vec![("b", text("second")), ("a", text("first"))]);
    assert_eq!(select(document), Ok(("b".to_string(), text("second"))));
}

#[test]
fn configure_names_the_environment() {
    let mut build = cc::Build::new();
    let document = object(vec![("nano", record()), ("other", Json::Null)]);
    assert_eq!(configure(document, Language::Cpp, &mut build), Ok("nano".to_string()));
    assert!(holds(&build, r#" compiler: Some("/bin/c++"),"#));
}

#[test]
fn missing_defines_keeps_library_flags() {
    let mut build = cc::Build::new();
    let result = translate(&without(record(), "defines"), Language::Cpp, &mut build);
    assert_eq!(result, Err(TranslateError::SchemaMismatch { field: Field::Defines }));
    assert_eq!(Field::Defines.name(), "defines");
    assert!(holds(&build, r#" flags: [IfSupported("-L/a")],"#));
    assert!(holds(&build, r#" definitions: [],"#));
    assert!(holds(&build, r#"include_directories: [],"#));
    assert!(holds(&build, r#" compiler: None,"#));
}

#[test]
fn missing_environment_fields_through_configure() {
    let mut build = cc::Build::new();
    let document = object(vec![("esp32", without(record(), "defines"))]);
    let result = configure(document, Language::Cpp, &mut build);
    assert_eq!(
        result,
        Err(ConfigureError::Translate(TranslateError::SchemaMismatch { field: Field::Defines }))
    );
    assert!(holds(&build, r#" flags: [IfSupported("-L/a")],"#));
}

#[test]
fn each_missing_field_is_reported() {
    let cases = [
        ("libsource_dirs", Language::C, Field::LibsourceDirs),
        ("defines", Language::C, Field::Defines),
        ("includes", Language::C, Field::Includes),
        ("cc_flags", Language::C, Field::CcFlags),
        ("cc_path", Language::C, Field::CcPath),
        ("cxx_flags", Language::Cpp, Field::CxxFlags),
        ("cxx_path", Language::Cpp, Field::CxxPath),
    ];
    for (key, language, field) in cases {
        let mut build = cc::Build::new();
        let result = translate(&without(record(), key), language, &mut build);
        assert_eq!(result, Err(TranslateError::SchemaMismatch { field }));
        assert_eq!(field.name(), key);
    }
}

#[test]
fn each_misshapen_field_is_reported() {
    let cases = [
        ("libsource_dirs", text("/a"), Field::LibsourceDirs),
        ("libsource_dirs", Json::Array(vec![text("/a"), Json::Null]), Field::LibsourceDirs),
        ("defines", object(vec![]), Field::Defines),
        ("defines", Json::Array(vec![Json::Number("1".to_string())]), Field::Defines),
        ("includes", texts(&["/inc"]), Field::Includes),
        ("includes", object(vec![("g", text("/inc"))]), Field::Includes),
        ("includes", object(vec![("g", texts(&["/inc"])), ("h", Json::Array(vec![Json::Bool(false)]))]), Field::Includes),
        ("cxx_flags", Json::Null, Field::CxxFlags),
        ("cxx_path", texts(&["/bin/c++"]), Field::CxxPath),
    ];
    for (key, value, field) in cases {
        let mut build = cc::Build::new();
        let result = translate(&with(record(), key, value), Language::Cpp, &mut build);
        assert_eq!(result, Err(TranslateError::SchemaMismatch { field }));
    }
}

#[test]
fn a_misshapen_field_adds_nothing_of_itself() {
    let mut build = cc::Build::new();
    let changed = with(record(), "includes", object(vec![("g", texts(&["/inc"])), ("h", Json::Null)]));
    let result = translate(&changed, Language::Cpp, &mut build);
    assert_eq!(result, Err(TranslateError::SchemaMismatch { field: Field::Includes }));
    assert!(holds(&build, r#" flags: [IfSupported("-L/a")],"#));
    assert!(holds(&build, r#" definitions: [("X", None), ("Y", Some("1"))],"#));
    assert!(holds(&build, r#"include_directories: [],"#));
    assert!(holds(&build, r#" compiler: None,"#));
}

#[test]
fn a_bad_compiler_path_keeps_the_flags() {
    let mut build = cc::Build::new();
    let result = translate(&with(record(), "cxx_path", Json::Null), Language::Cpp, &mut build);
    assert_eq!(result, Err(TranslateError::SchemaMismatch { field: Field::CxxPath }));
    assert!(holds(&build, r#" flags: [IfSupported("-L/a"), Always("-std=c++17")],"#));
    assert!(holds(&build, r#"include_directories: ["/inc"],"#));
    assert!(holds(&build, r#" compiler: None,"#));
}

#[test]
fn a_record_that_is_no_object_lacks_every_field() {
    for record in [Json::Null, texts(&["defines"]), text("libsource_dirs")] {
        let mut build = cc::Build::new();
        let before = shown(&build);
        let result = translate(&record, Language::C, &mut build);
        assert_eq!(result, Err(TranslateError::SchemaMismatch { field: Field::LibsourceDirs }));
        assert_eq!(shown(&build), before);
    }
}

#[test]
fn unused_fields_are_ignored() {
    let mut plain = cc::Build::new();
    let mut extra = cc::Build::new();
    let more = with(with(record(), "build_type", text("release")), "env_name", Json::Number("7".to_string()));
    assert_eq!(translate(&record(), Language::Cpp, &mut plain), Ok(()));
    assert_eq!(translate(&more, Language::Cpp, &mut extra), Ok(()));
    assert_eq!(shown(&plain), shown(&extra));
}
