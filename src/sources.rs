use vstd::prelude::*;

use crate::model::{Group, Layer, Scalar};
use crate::text::lower_of;

verus! {

#[verifier::external_type_specification]
#[verifier::external_body]
pub struct ExConfig(config::Config);

/// The prefix of the environment variables that the settings read: the
/// application's name in upper-case snake form.
pub const ENV_PREFIX: &'static str = "CONFIG_PLAYGROUND";

/// The compiled-in baseline document: a value for every required field.
pub const BASELINE: &'static str = "somebool = false\nsomestring = \"base\"\nsomesecret = \"change-me\"\n\n[somestruct]\nsomeint = 1\n";

/// The separator between nested keys in an environment variable's name.
pub const ENV_SEPARATOR: &'static str = "__";

/// What a parsed configuration holds, by dotted key path.
pub uninterp spec fn config_entries(c: config::Config) -> Map<Seq<char>, Scalar>;

/// What a configuration holds under `key`, if anything.
pub open spec fn entry(m: Map<Seq<char>, Scalar>, key: Seq<char>) -> Option<Scalar> {
    if m.contains_key(key) {
        Some(m[key])
    } else {
        None
    }
}

/// The group under `somestruct`: a table brings what it holds under
/// `somestruct.someint`.
pub open spec fn group_of(m: Map<Seq<char>, Scalar>) -> Option<Group> {
    match entry(m, "somestruct"@) {
        None => None,
        Some(Scalar::Table) => Some(Group::Table { someint: entry(m, "somestruct.someint"@) }),
        Some(s) => Some(Group::Value(s)),
    }
}

/// The layer that a configuration's entries make.
pub open spec fn layer_of(m: Map<Seq<char>, Scalar>) -> Layer {
    Layer {
        somebool: entry(m, "somebool"@),
        somestring: entry(m, "somestring"@),
        somesecret: entry(m, "somesecret"@),
        somestruct: group_of(m),
        someoptionalstring: entry(m, "someoptionalstring"@),
    }
}

/// The entries that a parse of a TOML text can give: empty when the text
/// is malformed. Top-level keys are applied in an order that is not fixed,
/// so a text whose keys overlap once read as dotted paths has more than one.
pub uninterp spec fn toml_outcomes(text: Seq<char>) -> Set<Map<Seq<char>, Scalar>>;

/// Whether a TOML text parses.
pub open spec fn parses(text: Seq<char>) -> bool {
    toml_outcomes(text) != Set::<Map<Seq<char>, Scalar>>::empty()
}

/// Relies on `config::Config::builder`, `config::File::from_str` with
/// `config::FileFormat::Toml` and `build`: parses a TOML document, or fails
/// when it is malformed; whether it fails depends on the text alone.
#[verifier::external_body]
pub(crate) fn parse_toml(text: &str) -> (r: Result<config::Config, config::ConfigError>)
    ensures
        r is Ok <==> parses(text@),
        r matches Ok(c) ==> toml_outcomes(text@).contains(config_entries(c)),
{
    config::Config::builder().add_source(
        config::File::from_str(text, config::FileFormat::Toml),
    ).build()
}

/// Whether `p` begins `s`.
pub open spec fn starts_with(s: Seq<char>, p: Seq<char>) -> bool {
    p.len() <= s.len() && s.take(p.len() as int) == p
}

/// `s` with each occurrence of `sep`, from the left and without overlap,
/// turned into a dot.
pub open spec fn dotted(s: Seq<char>, sep: Seq<char>) -> Seq<char>
    decreases s.len(),
{
    if s.len() == 0 || sep.len() == 0 {
        s
    } else if starts_with(s, sep) {
        seq!['.'] + dotted(s.skip(sep.len() as int), sep)
    } else {
        seq![s[0]] + dotted(s.skip(1), sep)
    }
}

/// The key that a variable's name stands for: its lower-cased form with the
/// lower-cased prefix and separator taken off and the remaining separators
/// turned into dots; `None` when the name lacks the prefix.
pub open spec fn env_key(name: Seq<char>, prefix: Seq<char>, sep: Seq<char>) -> Option<Seq<char>> {
    let lowered = lower_of(name);
    let pattern = lower_of(prefix + sep);
    if starts_with(lowered, pattern) {
        Some(dotted(lowered.skip(pattern.len() as int), sep))
    } else {
        None
    }
}

/// The text of the variable whose name stands for `key`, if there is one.
pub open spec fn env_value(vars: Seq<(String, String)>, prefix: Seq<char>, sep: Seq<char>, key: Seq<char>) -> Option<Scalar> {
    if exists|i: int| 0 <= i < vars.len() && env_key(vars[i].0@, prefix, sep) == Some(key) {
        let i = choose|i: int| 0 <= i < vars.len() && env_key(vars[i].0@, prefix, sep) == Some(key);
        Some(Scalar::Text(vars[i].1))
    } else {
        None
    }
}

/// Whether `key` lies below `top` as a child or an element.
pub open spec fn below(key: Seq<char>, top: Seq<char>) -> bool {
    starts_with(key, top.push('.')) || starts_with(key, top.push('['))
}

/// Whether a key would give one of the settings' names a shape other than
/// a single value (or, for `somestruct`, a table holding only `someint`).
pub open spec fn reshapes(key: Seq<char>) -> bool {
    key == "somestruct"@ || below(key, "somebool"@) || below(key, "somestring"@) || below(
        key,
        "somesecret"@,
    ) || below(key, "someoptionalstring"@) || (below(key, "somestruct"@) && key
        != "somestruct.someint"@)
}

/// Whether the variables fix one value per key: no two prefixed variables
/// stand for the same key, and no key reshapes a name that the settings read.
pub open spec fn env_unambiguous(vars: Seq<(String, String)>, prefix: Seq<char>, sep: Seq<char>) -> bool {
    &&& forall|i: int, j: int|
        0 <= i < vars.len() && 0 <= j < vars.len() && i != j && (#[trigger] env_key(
            vars[i].0@,
            prefix,
            sep,
        )) is Some ==> env_key(vars[i].0@, prefix, sep) != #[trigger] env_key(vars[j].0@, prefix, sep)
    &&& forall|i: int|
        0 <= i < vars.len() ==> (#[trigger] env_key(vars[i].0@, prefix, sep) matches Some(k) ==> !reshapes(k))
}

/// The layer that the variables make.
pub open spec fn env_layer(vars: Seq<(String, String)>, prefix: Seq<char>, sep: Seq<char>) -> Layer {
    Layer {
        somebool: env_value(vars, prefix, sep, "somebool"@),
        somestring: env_value(vars, prefix, sep, "somestring"@),
        somesecret: env_value(vars, prefix, sep, "somesecret"@),
        somestruct: match env_value(vars, prefix, sep, "somestruct.someint"@) {
            Some(v) => Some(Group::Table { someint: Some(v) }),
            None => None,
        },
        someoptionalstring: env_value(vars, prefix, sep, "someoptionalstring"@),
    }
}

/// Relies on `config::Environment::with_prefix`, `separator` and `source`,
/// and on `build`: keeps the variables whose lower-cased name starts with the
/// lower-cased prefix and separator, takes that part off, turns the other
/// separators into dots, nests each value as text at that path, and fails
/// only on a value that is not Unicode, which a `String` never is.
#[verifier::external_body]
pub(crate) fn parse_environment(vars: &Vec<(String, String)>, prefix: &str, separator: &str) -> (r:
    Result<config::Config, config::ConfigError>)
    ensures
        r is Ok,
        r matches Ok(c) ==> (env_unambiguous(vars@, prefix@, separator@) ==> layer_of(
            config_entries(c),
        ) == env_layer(vars@, prefix@, separator@)),
{
    let source = vars.iter().cloned().collect::<config::Map<String, String>>();
    config::Config::builder().add_source(
        config::Environment::with_prefix(prefix).separator(separator).source(Some(source)),
    ).build()
}

/// Relies on `config::Config::get::<config::Value>`: the value under a
/// dotted key path, when there is one, by its kind.
#[verifier::external_body]
pub(crate) fn config_entry(c: &config::Config, key: &str) -> (r: Option<Scalar>)
    ensures
        r == entry(config_entries(*c), key@),
{
    c.get::<config::Value>(key).ok().map(|v| match v.kind {
        config::ValueKind::Boolean(b) => Scalar::Bool(b),
        config::ValueKind::I64(i) => Scalar::Int(i),
        config::ValueKind::String(s) => Scalar::Text(s),
        config::ValueKind::Table(_) => Scalar::Table,
        config::ValueKind::Nil => Scalar::Nil,
        config::ValueKind::I128(_) | config::ValueKind::U64(_) | config::ValueKind::U128(_)
        | config::ValueKind::Float(_) | config::ValueKind::Array(_) => Scalar::Other,
    })
}

/// Reads the keys of the settings out of a parsed configuration.
pub fn read_layer(c: &config::Config) -> (r: Layer)
    ensures
        r == layer_of(config_entries(*c)),
{
    let somestruct = match config_entry(c, "somestruct") {
        None => None,
        Some(Scalar::Table) => Some(Group::Table { someint: config_entry(c, "somestruct.someint") }),
        Some(s) => Some(Group::Value(s)),
    };
    Layer {
        somebool: config_entry(c, "somebool"),
        somestring: config_entry(c, "somestring"),
        somesecret: config_entry(c, "somesecret"),
        somestruct,
        someoptionalstring: config_entry(c, "someoptionalstring"),
    }
}

} // verus!
