use config_playground::model::{Group, Layer, Scalar};
use config_playground::resolve::{resolve, resolve_layers, OptionalSettings, ResolveError};
use config_playground::settings::{DeserializeError, Field, Settings};
use config_playground::sources::BASELINE;

const BASE: &str = "somebool = false\nsomestring = \"base\"\nsomesecret = \"hidden\"\n\n[somestruct]\nsomeint = 1\n";

fn vars(pairs: &[(&str, &str)]) -> Vec<(String, String)> {
    pairs.iter().map(|(k, v)| (k.to_string(), v.to_string())).collect()
}

fn set(s: &str) -> OptionalSettings {
    OptionalSettings { somestring: Some(s.to_string()) }
}

fn ok(r: Result<Settings, ResolveError>) -> Settings {
    match r {
        Ok(s) => s,
        Err(e) => panic!("resolution failed: {:?}", e),
    }
}

fn deser_err(r: Result<Settings, ResolveError>) -> DeserializeError {
    match r {
        Err(ResolveError::Deserialization(d)) => d,
        Err(e) => panic!("wrong error: {:?}", e),
        Ok(_) => panic!("resolution succeeded"),
    }
}

#[test]
fn all_four_layers_resolve_by_priority() {
    let env = vars(&[("CONFIG_PLAYGROUND__SOMESTRUCT__SOMEINT", "42")]);
    let s = ok(resolve(BASE, Some("somestring = \"runtime\"\n"), &env, &set("override")));
    assert_eq!(s.somebool, false);
    assert_eq!(s.somestring, "override");
    assert_eq!(s.somestruct.someint, 42);
    assert_eq!(s.someoptionalstring, None);
    assert_eq!(s.somesecret.expose_secret(), "hidden");
}

#[test]
fn baseline_string_used_without_runtime_or_override() {
    let s = ok(resolve(BASE, None, &vars(&[]), &OptionalSettings::none()));
    assert_eq!(s.somestring, "base");
}

#[test]
fn non_numeric_environment_integer_fails() {
    let env = vars(&[("CONFIG_PLAYGROUND__SOMESTRUCT__SOMEINT", "abc")]);
    let e = deser_err(resolve(BASE, None, &env, &OptionalSettings::none()));
    assert_eq!(e, DeserializeError::InvalidValue(Field::Someint));
}

#[test]
fn baseline_alone_gives_baseline_values() {
    let s = ok(resolve(BASE, None, &vars(&[]), &OptionalSettings::none()));
    assert_eq!(s.somebool, false);
    assert_eq!(s.somestring, "base");
    assert_eq!(s.somesecret.expose_secret(), "hidden");
    assert_eq!(s.somestruct.someint, 1);
    assert_eq!(s.someoptionalstring, None);
}

#[test]
fn shipped_baseline_resolves() {
    let s = ok(resolve(BASELINE, None, &vars(&[]), &OptionalSettings::none()));
    assert_eq!(s.somestring, "base");
    assert_eq!(s.somestruct.someint, 1);
}

#[test]
fn runtime_file_wins_and_baseline_keys_stay() {
    let rt = "somebool = true\n[somestruct]\nsomeint = 7\n";
    let s = ok(resolve(BASE, Some(rt), &vars(&[]), &OptionalSettings::none()));
    assert_eq!(s.somebool, true);
    assert_eq!(s.somestruct.someint, 7);
    assert_eq!(s.somestring, "base");
    assert_eq!(s.somesecret.expose_secret(), "hidden");
}

#[test]
fn environment_wins_over_runtime_file() {
    let rt = "somestring = \"runtime\"\nsomebool = false\n";
    let env = vars(&[
        ("CONFIG_PLAYGROUND__SOMESTRING", "from env"),
        ("CONFIG_PLAYGROUND__SOMEBOOL", "Yes"),
        ("CONFIG_PLAYGROUND__SOMEOPTIONALSTRING", "present"),
        ("OTHER_APP__SOMESTRING", "ignored"),
    ]);
    let s = ok(resolve(BASE, Some(rt), &env, &OptionalSettings::none()));
    assert_eq!(s.somestring, "from env");
    assert_eq!(s.somebool, true);
    assert_eq!(s.someoptionalstring, Some("present".to_string()));
}

#[test]
fn environment_bool_that_is_no_word_fails() {
    let env = vars(&[("CONFIG_PLAYGROUND__SOMEBOOL", "maybe")]);
    let e = deser_err(resolve(BASE, None, &env, &OptionalSettings::none()));
    assert_eq!(e, DeserializeError::InvalidValue(Field::Somebool));
}

#[test]
fn environment_integer_with_plus_sign_reads() {
    let env = vars(&[("CONFIG_PLAYGROUND__SOMESTRUCT__SOMEINT", "+18446744073709551615")]);
    let s = ok(resolve(BASE, None, &env, &OptionalSettings::none()));
    assert_eq!(s.somestruct.someint, u64::MAX);
}

#[test]
fn environment_integer_overflow_fails() {
    let env = vars(&[("CONFIG_PLAYGROUND__SOMESTRUCT__SOMEINT", "18446744073709551616")]);
    let e = deser_err(resolve(BASE, None, &env, &OptionalSettings::none()));
    assert_eq!(e, DeserializeError::InvalidValue(Field::Someint));
}

#[test]
fn unset_override_keeps_lower_value() {
    let s = ok(resolve(BASE, Some("somestring = \"runtime\"\n"), &vars(&[]), &OptionalSettings::none()));
    assert_eq!(s.somestring, "runtime");
}

#[test]
fn set_override_wins_over_environment() {
    let env = vars(&[("CONFIG_PLAYGROUND__SOMESTRING", "from env")]);
    let s = ok(resolve(BASE, None, &env, &set("cli")));
    assert_eq!(s.somestring, "cli");
}

#[test]
fn resolving_twice_gives_the_same_settings() {
    let env = vars(&[("CONFIG_PLAYGROUND__SOMESTRUCT__SOMEINT", "5")]);
    let a = ok(resolve(BASE, Some("somebool = true\n"), &env, &set("x")));
    let b = ok(resolve(BASE, Some("somebool = true\n"), &env, &set("x")));
    assert_eq!(a.somebool, b.somebool);
    assert_eq!(a.somestring, b.somestring);
    assert_eq!(a.somesecret.expose_secret(), b.somesecret.expose_secret());
    assert_eq!(a.somestruct.someint, b.somestruct.someint);
    assert_eq!(a.someoptionalstring, b.someoptionalstring);
}

#[test]
fn malformed_baseline_is_a_baseline_error() {
    let r = resolve("somebool = = false", None, &vars(&[]), &OptionalSettings::none());
    assert!(matches!(r, Err(ResolveError::BaselineParse(_))));
}

#[test]
fn malformed_runtime_file_is_a_runtime_error() {
    let r = resolve(BASE, Some("[somestruct"), &vars(&[]), &OptionalSettings::none());
    assert!(matches!(r, Err(ResolveError::RuntimeFileParse(_))));
}

#[test]
fn missing_required_field_fails() {
    let base = "somebool = false\nsomesecret = \"s\"\n[somestruct]\nsomeint = 1\n";
    let e = deser_err(resolve(base, None, &vars(&[]), &OptionalSettings::none()));
    assert_eq!(e, DeserializeError::MissingField(Field::Somestring));
}

#[test]
fn missing_nested_field_fails() {
    let base = "somebool = false\nsomestring = \"a\"\nsomesecret = \"s\"\n[somestruct]\nother = 1\n";
    let e = deser_err(resolve(base, None, &vars(&[]), &OptionalSettings::none()));
    assert_eq!(e, DeserializeError::MissingField(Field::Someint));
}

#[test]
fn negative_integer_fails() {
    let e = deser_err(resolve(BASE, Some("[somestruct]\nsomeint = -3\n"), &vars(&[]), &OptionalSettings::none()));
    assert_eq!(e, DeserializeError::InvalidValue(Field::Someint));
}

#[test]
fn scalar_in_place_of_nested_table_fails() {
    let e = deser_err(resolve(BASE, Some("somestruct = 3\n"), &vars(&[]), &OptionalSettings::none()));
    assert_eq!(e, DeserializeError::InvalidValue(Field::Somestruct));
}

#[test]
fn integer_and_bool_read_as_text() {
    let s = ok(resolve(BASE, Some("somestring = -12\nsomeoptionalstring = true\n"), &vars(&[]), &OptionalSettings::none()));
    assert_eq!(s.somestring, "-12");
    assert_eq!(s.someoptionalstring, Some("true".to_string()));
}

#[test]
fn integer_reads_as_bool() {
    let s = ok(resolve(BASE, Some("somebool = 2\n"), &vars(&[]), &OptionalSettings::none()));
    assert_eq!(s.somebool, true);
}

#[test]
fn table_for_text_field_fails() {
    let e = deser_err(resolve(BASE, Some("[somesecret]\na = 1\n"), &vars(&[]), &OptionalSettings::none()));
    assert_eq!(e, DeserializeError::InvalidValue(Field::Somesecret));
}

fn text(s: &str) -> Option<Scalar> {
    Some(Scalar::Text(s.to_string()))
}

#[test]
fn layers_merge_nested_tables_key_by_key() {
    let mut base = Layer::empty();
    base.somebool = Some(Scalar::Bool(true));
    base.somestring = text("a");
    base.somesecret = text("b");
    base.somestruct = Some(Group::Table { someint: Some(Scalar::Int(3)) });
    let mut env = Layer::empty();
    env.somestruct = Some(Group::Table { someint: None });
    let s = resolve_layers(base, None, env, &OptionalSettings::none()).unwrap();
    assert_eq!(s.somestruct.someint, 3);
    assert_eq!(s.somebool, true);
}

#[test]
fn override_layer_holds_only_set_fields() {
    let l = OptionalSettings::none().to_layer();
    assert!(l.somestring.is_none());
    let l = set("v").to_layer();
    assert!(matches!(l.somestring, Some(Scalar::Text(ref t)) if t == "v"));
}

#[test]
fn environment_names_match_ignoring_case() {
    let env = vars(&[("config_playground__SomeStruct__someint", "9"), ("CONFIG_PLAYGROUNDSOMEBOOL", "true")]);
    let s = ok(resolve(BASE, None, &env, &OptionalSettings::none()));
    assert_eq!(s.somestruct.someint, 9);
    assert_eq!(s.somebool, false);
}
