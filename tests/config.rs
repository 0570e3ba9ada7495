use north::config::{EnvSourceOptions, FileSourceOptions, KeyCase};
use north::env::{build_document, process_env_values, process_envs};
use north::json::JsonValue;
use north::merge::{merge_json, merge_values};
use north::source::{apply_outcome, file_path_for, resolve_outcomes, ConfigError, SourceOutcome};

fn from_serde(v: &serde_json::Value) -> JsonValue {
    match v {
        serde_json::Value::Null => JsonValue::Null,
        serde_json::Value::Bool(b) => JsonValue::Bool(*b),
        serde_json::Value::Number(n) => JsonValue::Number(n.to_string()),
        serde_json::Value::String(s) => JsonValue::String(s.clone()),
        serde_json::Value::Array(a) => JsonValue::Array(a.iter().map(from_serde).collect()),
        serde_json::Value::Object(m) => {
            JsonValue::Object(m.iter().map(|(k, v)| (k.clone(), from_serde(v))).collect())
        }
    }
}

fn to_serde(v: &JsonValue) -> serde_json::Value {
    match v {
        JsonValue::Null => serde_json::Value::Null,
        JsonValue::Bool(b) => serde_json::Value::Bool(*b),
        JsonValue::Number(n) => serde_json::from_str(n).unwrap(),
        JsonValue::String(s) => serde_json::Value::String(s.clone()),
        JsonValue::Array(a) => serde_json::Value::Array(a.iter().map(to_serde).collect()),
        JsonValue::Object(es) => {
            let mut m = serde_json::Map::new();
            for (k, v) in es {
                m.insert(k.clone(), to_serde(v));
            }
            serde_json::Value::Object(m)
        }
    }
}

fn parse(text: &str) -> JsonValue {
    from_serde(&serde_json::from_str(text).unwrap())
}

fn text(v: &JsonValue) -> String {
    to_serde(v).to_string()
}

fn get<'a>(v: &'a JsonValue, key: &str) -> &'a JsonValue {
    match v {
        JsonValue::Object(es) => &es.iter().find(|(k, _)| k == key).unwrap().1,
        _ => panic!("not an object"),
    }
}

fn string_at<'a>(v: &'a JsonValue, key: &str) -> &'a str {
    match get(v, key) {
        JsonValue::String(s) => s.as_str(),
        _ => panic!("not a string"),
    }
}

fn vars(pairs: &[(&str, &str)]) -> Vec<(String, String)> {
    pairs.iter().map(|(k, v)| (k.to_string(), v.to_string())).collect()
}

#[test]
fn can_merge_two_valid_jsons() {
    let mut a = parse(
        r#"{"title":"This is a title","person":{"firstName":"John","lastName":"Doe"},"cities":["london","paris"]}"#,
    );
    let b = parse(r#"{"title":"This is another title","person":{"firstName":"Jane"},"cities":["colombo"]}"#);
    a.merge(b);
    let expected = parse(
        r#"{"title":"This is another title","person":{"firstName":"Jane","lastName":"Doe"},"cities":["london","paris","colombo"]}"#,
    );
    assert!(a.same_as(&expected));
}

#[test]
fn it_should_merge_array_string() {
    let mut first = parse(r#"["a","b"]"#);
    let second = parse(r#"["b","c"]"#);
    first.merge(second);
    assert_eq!(r#"["a","b","c"]"#, text(&first));
}

#[test]
fn it_should_merge_array_object() {
    let mut first = parse(r#"[{"value":"a"},{"value":"b"}]"#);
    let second = parse(r#"[{"value":"b"},{"value":"c"}]"#);
    first.merge(second);
    assert_eq!(r#"[{"value":"a"},{"value":"b"},{"value":"c"}]"#, text(&first));
}

#[test]
fn it_should_merge_object() {
    let mut first = parse(r#"{"value1":"a","value2":"b"}"#);
    let second = parse(r#"{"value1":"a","value2":"c","value3":"d"}"#);
    first.merge(second);
    assert_eq!(r#"{"value1":"a","value2":"c","value3":"d"}"#, text(&first));
}

#[test]
fn it_should_merge_string() {
    let mut value_a = JsonValue::String("a".to_string());
    let value_b = JsonValue::String("b".to_string());
    value_a.merge(value_b.deep_clone());
    assert_eq!(text(&value_b), text(&value_a));
}

#[test]
fn it_should_merge_an_array_in_a_specifique_field_path() {
    let mut value_a = parse(r#"{"my_array":[{"a":"t"}]}"#);
    let value_b = parse(r#"["b","c"]"#);
    value_a.merge_in("/my_array", value_b);
    assert_eq!(r#"{"my_array":[{"a":"t"},"b","c"]}"#, text(&value_a));
}

#[test]
fn it_should_merge_an_object_in_a_specifique_field_path() {
    let mut value_a = parse(r#"{"my_array":[{"a":"t"}]}"#);
    let value_b = parse(r#"{"b":"c"}"#);
    value_a.merge_in("/my_array", value_b);
    assert_eq!(r#"{"my_array":[{"a":"t"},{"b":"c"}]}"#, text(&value_a));
}

#[test]
fn it_should_merge_in_an_object_in_specifique_path_position() {
    let mut value_a = parse(r#"{"my_array":[{"a":"t"}]}"#);
    let value_b = parse(r#"{"b":"c"}"#);
    value_a.merge_in("/my_array/0", value_b);
    assert_eq!(r#"{"my_array":[{"a":"t","b":"c"}]}"#, text(&value_a));
}

#[test]
fn it_should_merge_an_array_in_specifique_path_position() {
    let mut value_a = parse(r#"{"my_array":[{"a":"t"}]}"#);
    let value_b = parse(r#"{"b":"c"}"#);
    value_a.merge_in("/my_array/1", value_b);
    assert_eq!(r#"{"my_array":[{"a":"t"},{"b":"c"}]}"#, text(&value_a));
}

#[test]
fn it_should_merge_in_root_array() {
    let mut value = parse(r#"["value"]"#);
    value.merge_in("/", parse(r#"["new_value"]"#));
    assert_eq!(r#"["value","new_value"]"#, text(&value));
}

#[test]
fn it_should_merge_in_root_object() {
    let mut value = parse(r#"{"field":"value"}"#);
    value.merge_in("/", parse(r#"{"field2":"value2"}"#));
    assert_eq!(r#"{"field":"value","field2":"value2"}"#, text(&value));
}

#[test]
fn it_should_merge_null_in_specifique_path() {
    let mut value = parse(r#"{"field":{"child":"value"}}"#);
    value.merge_in("/field", JsonValue::Null);
    assert_eq!(r#"{"field":null}"#, text(&value));
}

#[test]
fn merge_keeps_non_adjacent_duplicates() {
    let r = merge_values(parse(r#"["a","b"]"#), parse(r#"["a","c"]"#));
    assert_eq!(r#"["a","b","a","c"]"#, text(&r));
}

#[test]
fn merge_collapses_duplicates_at_the_joint() {
    let r = merge_values(parse(r#"["a","b"]"#), parse(r#"["b","c"]"#));
    assert_eq!(r#"["a","b","c"]"#, text(&r));
}

#[test]
fn merge_collapses_repeats_inside_the_first_array() {
    let r = merge_values(parse(r#"["a","a","b"]"#), parse(r#"[]"#));
    assert_eq!(r#"["a","b"]"#, text(&r));
}

#[test]
fn merge_array_into_object_replaces_it() {
    let r = merge_values(parse(r#"{"field1":"value1"}"#), parse(r#"["value2","value3"]"#));
    assert_eq!(r#"["value2","value3"]"#, text(&r));
}

#[test]
fn merge_object_into_array_appends_it() {
    let r = merge_values(parse(r#"[]"#), parse(r#"{"field1":"value1"}"#));
    assert_eq!(r#"[{"field1":"value1"}]"#, text(&r));
}

#[test]
fn merge_object_into_array_collapses_an_equal_last_element() {
    let r = merge_values(parse(r#"[{"a":1,"b":2}]"#), parse(r#"{"b":2,"a":1}"#));
    assert_eq!(r#"[{"a":1,"b":2}]"#, text(&r));
}

#[test]
fn merge_scalar_pairs_take_the_incoming_value() {
    let r = merge_values(parse("1"), parse("true"));
    assert_eq!("true", text(&r));
    let r = merge_values(parse(r#"{"a":1}"#), JsonValue::Null);
    assert_eq!("null", text(&r));
    let r = merge_values(JsonValue::Null, parse(r#"{"a":1}"#));
    assert_eq!(r#"{"a":1}"#, text(&r));
}

#[test]
fn merge_objects_recursively_keeps_other_keys() {
    let r = merge_values(
        parse(r#"{"a":{"x":1,"y":2},"b":3}"#),
        parse(r#"{"a":{"y":5,"z":6},"c":7}"#),
    );
    assert_eq!(r#"{"a":{"x":1,"y":5,"z":6},"b":3,"c":7}"#, text(&r));
}

#[test]
fn merge_in_path_into_nested_element() {
    let mut value = parse(r#"{"my_array":[{"a":"t"}]}"#);
    value.merge_in("/my_array/0/a", parse(r#"{"b":"c"}"#));
    assert_eq!(r#"{"my_array":[{"a":{"b":"c"}}]}"#, text(&value));
}

#[test]
fn merge_in_field_of_root_array_appends_an_object() {
    let mut value = parse(r#"[{"array1":[{"field":"value1"}]}]"#);
    value.merge_in("/other_field", JsonValue::String("value".to_string()));
    assert_eq!(r#"[{"array1":[{"field":"value1"}]},{"other_field":"value"}]"#, text(&value));
}

#[test]
fn merge_in_builds_missing_objects() {
    let mut value = JsonValue::Null;
    value.merge_in("/field", JsonValue::String("value".to_string()));
    value.merge_in("/object", parse("{}"));
    value.merge_in("/array", parse("[]"));
    assert_eq!(r#"{"array":[],"field":"value","object":{}}"#, text(&value));
}

#[test]
fn merge_in_deep_missing_path() {
    let mut value = parse(r#"{"a":1}"#);
    value.merge_in("/b/c/d", parse("2"));
    assert_eq!(r#"{"a":1,"b":{"c":{"d":2}}}"#, text(&value));
}

#[test]
fn merge_in_numeric_segment_on_scalar_makes_array() {
    let mut value = parse(r#""text""#);
    value.merge_in("/0", parse(r#""x""#));
    assert_eq!(r#"["x"]"#, text(&value));
}

#[test]
fn merge_in_escaped_key() {
    let mut value = parse(r#"{"a/b":1}"#);
    value.merge_in("/a~1b", parse("2"));
    assert_eq!(r#"{"a/b":2}"#, text(&value));
}

#[test]
fn merge_in_empty_pointer_merges_at_root() {
    let mut value = parse(r#"{"a":1}"#);
    value.merge_in("", parse(r#"{"b":2}"#));
    assert_eq!(r#"{"a":1,"b":2}"#, text(&value));
}

#[test]
fn env_flattening_nests_by_separator() {
    let doc = process_envs(&vars(&[("NORTH_NESTED__FOO", "env_foo")]), &EnvSourceOptions::default());
    assert_eq!(r#"{"nested":{"foo":"env_foo"}}"#, text(&doc));
}

#[test]
fn env_flattening_ignores_other_keys() {
    let doc = process_envs(
        &vars(&[("PATH", "/bin"), ("NORTH_HOST", "address"), ("OTHER_NORTH_X", "1")]),
        &EnvSourceOptions::default(),
    );
    assert_eq!(r#"{"host":"address"}"#, text(&doc));
}

#[test]
fn env_flattening_without_matching_keys_is_null() {
    let doc = process_envs(&vars(&[("PATH", "/bin")]), &EnvSourceOptions::default());
    assert_eq!("null", text(&doc));
}

#[test]
fn env_flattening_converts_segment_case() {
    let doc = process_envs(&vars(&[("NORTH_SOME_THING__OTHER_KEY", "v")]), &EnvSourceOptions::default());
    assert_eq!(r#"{"some_thing":{"other_key":"v"}}"#, text(&doc));
    let mut opts = EnvSourceOptions::default();
    opts.key_case = Some(KeyCase::Camel);
    let doc = process_envs(&vars(&[("NORTH_SOME_THING__OTHER_KEY", "v")]), &opts);
    assert_eq!(r#"{"someThing":{"otherKey":"v"}}"#, text(&doc));
}

#[test]
fn env_flattening_later_keys_overwrite_leaves() {
    let doc = process_envs(
        &vars(&[("NORTH_A__B", "1"), ("NORTH_A__C", "2"), ("NORTH_A__B", "3")]),
        &EnvSourceOptions::default(),
    );
    assert_eq!(r#"{"a":{"b":"3","c":"2"}}"#, text(&doc));
}

#[test]
fn env_flattening_keeps_parsed_values() {
    let values = vec![("NORTH_PORT".to_string(), parse("8080")), ("NORTH_TAGS".to_string(), parse(r#"["a"]"#))];
    let doc = process_env_values(values, &EnvSourceOptions::default());
    assert_eq!(r#"{"port":8080,"tags":["a"]}"#, text(&doc));
}

#[test]
fn build_document_sets_each_leaf() {
    let entries = vec![
        (vec!["a".to_string(), "b".to_string()], parse("1")),
        (vec!["a".to_string(), "c".to_string()], parse("2")),
        (vec!["d".to_string()], parse("3")),
    ];
    assert_eq!(r#"{"a":{"b":1,"c":2},"d":3}"#, text(&build_document(entries)));
}

#[test]
fn read_deep_config_from_env_sources_default_prefix() {
    let env = vars(&[("NORTH_HOST", "address"), ("NORTH_NESTED__FOO", "env foo"), ("NORTH_NESTED__BAR", "env bar")]);
    let doc = process_envs(&env, &EnvSourceOptions::default());
    let config = resolve_outcomes(vec![SourceOutcome::Env(doc)]).ok().unwrap();
    assert_eq!(string_at(&config, "host"), "address");
    assert_eq!(string_at(get(&config, "nested"), "foo"), "env foo");
    assert_eq!(string_at(get(&config, "nested"), "bar"), "env bar");
}

#[test]
fn read_deep_config_from_env_sources_custom_prefix() {
    let env = vars(&[
        ("TESTNORTH_HOST", "address"),
        ("TESTNORTH_NESTED__FOO", "env foo 2"),
        ("TESTNORTH_NESTED__BAR", "env bar 2"),
    ]);
    let mut env_opts = EnvSourceOptions::default();
    env_opts.prefix = Some("TESTNORTH".to_string());
    let doc = process_envs(&env, &env_opts);
    let config = resolve_outcomes(vec![SourceOutcome::Env(doc)]).ok().unwrap();
    assert_eq!(string_at(&config, "host"), "address");
    assert_eq!(string_at(get(&config, "nested"), "foo"), "env foo 2");
    assert_eq!(string_at(get(&config, "nested"), "bar"), "env bar 2");
}

#[test]
fn merge_env_and_file_sources() {
    let env = vars(&[("NORTH_HOST", "address"), ("NORTH_NESTED__FOO", "env foo")]);
    let release = parse(r#"{"host":"127.0.0.1","nested":{"foo":"foo","bar":"env bar"}}"#);
    let debug = parse(r#"{"host":"0.0.0.245","nested":{"foo":"Well its foo"}}"#);
    let doc = process_envs(&env, &EnvSourceOptions::default());
    let config = resolve_outcomes(vec![SourceOutcome::File(release), SourceOutcome::File(debug), SourceOutcome::Env(doc)])
        .ok()
        .unwrap();
    assert_eq!(string_at(&config, "host"), "address");
    assert_eq!(string_at(get(&config, "nested"), "foo"), "env foo");
    assert_eq!(string_at(get(&config, "nested"), "bar"), "env bar");
}

#[test]
fn last_source_wins_end_to_end() {
    let base = parse(r#"{"host":"0.0.0.0"}"#);
    let over = parse(r#"{"host":"0.0.0.5"}"#);
    let env = process_envs(&vars(&[("NORTH_HOST", "address")]), &EnvSourceOptions::default());
    let config = resolve_outcomes(vec![SourceOutcome::File(base), SourceOutcome::File(over), SourceOutcome::Env(env)])
        .ok()
        .unwrap();
    assert_eq!(string_at(&config, "host"), "address");
}

#[test]
fn missing_file_aborts_unless_skipped() {
    let r = resolve_outcomes(vec![
        SourceOutcome::File(parse(r#"{"a":1}"#)),
        SourceOutcome::MissingFile("nope.json".to_string(), false),
        SourceOutcome::File(parse(r#"{"b":2}"#)),
    ]);
    match r {
        Err(ConfigError::FileNotFound(p)) => assert_eq!(p, "nope.json"),
        _ => panic!("expected a missing file error"),
    }
    let r = resolve_outcomes(vec![
        SourceOutcome::File(parse(r#"{"a":1}"#)),
        SourceOutcome::MissingFile("nope.json".to_string(), true),
    ]);
    assert_eq!(r#"{"a":1}"#, text(&r.ok().unwrap()));
}

#[test]
fn apply_outcome_leaves_accumulator_on_skip() {
    let mut acc = parse(r#"{"a":1}"#);
    assert!(apply_outcome(&mut acc, SourceOutcome::MissingFile("x".to_string(), true)).is_ok());
    assert_eq!(r#"{"a":1}"#, text(&acc));
    assert!(apply_outcome(&mut acc, SourceOutcome::MissingFile("x".to_string(), false)).is_err());
    assert_eq!(r#"{"a":1}"#, text(&acc));
}

#[test]
fn custom_sources_contribute_objects_only() {
    let r = resolve_outcomes(vec![
        SourceOutcome::File(parse(r#"{"a":1}"#)),
        SourceOutcome::Custom(Ok(parse(r#"["x"]"#))),
        SourceOutcome::Custom(Err("down".to_string())),
        SourceOutcome::Custom(Ok(parse(r#"{"b":2}"#))),
    ]);
    assert_eq!(r#"{"a":1,"b":2}"#, text(&r.ok().unwrap()));
}

#[test]
fn null_documents_contribute_nothing() {
    let r = resolve_outcomes(vec![SourceOutcome::File(parse(r#"{"a":1}"#)), SourceOutcome::Env(JsonValue::Null)]);
    assert_eq!(r#"{"a":1}"#, text(&r.ok().unwrap()));
}

#[test]
fn resolving_twice_gives_equal_documents() {
    let make = || {
        vec![
            SourceOutcome::File(parse(r#"{"host":"0.0.0.0","list":[1,2]}"#)),
            SourceOutcome::Env(process_envs(&vars(&[("NORTH_HOST", "h")]), &EnvSourceOptions::default())),
        ]
    };
    let a = resolve_outcomes(make()).ok().unwrap();
    let b = resolve_outcomes(make()).ok().unwrap();
    assert!(a.same_as(&b));
    assert_eq!(text(&a), text(&b));
}

#[test]
fn file_path_substitutes_profile() {
    assert_eq!(file_path_for("configs/test.{{env}}.json", true, true), "configs/test.release.json");
    assert_eq!(file_path_for("configs/test.{{env}}.json", true, false), "configs/test.debug.json");
    assert_eq!(file_path_for("configs/test.{{env}}.json", false, true), "configs/test.{{env}}.json");
    let opts = FileSourceOptions::default();
    assert!(opts.enabled_environment && !opts.skip_on_error);
}

#[test]
fn config_error_message_names_the_path() {
    let e = ConfigError::FileNotFound("a.json".to_string());
    assert_eq!(e.message(), "No file found in path: a.json");
}

#[test]
fn merge_json_overlays_in_place() {
    let mut a = parse(r#"{"title":"a","cities":["london"]}"#);
    merge_json(&mut a, parse(r#"{"title":"b","cities":["paris"]}"#));
    assert_eq!(r#"{"cities":["london","paris"],"title":"b"}"#, text(&a));
}

#[test]
fn merge_in_escaped_key_is_created_unescaped() {
    let mut value = parse("{}");
    value.merge_in("/a~1b", parse(r#"{"x":1}"#));
    value.merge_in("/a~1b", parse(r#"{"y":2}"#));
    assert_eq!(r#"{"a/b":{"x":1,"y":2}}"#, text(&value));
}
