use vstd::prelude::*;

use crate::model::{empty_layer, layer_over, Group, Layer, Scalar};
use crate::resolve::{overrides_layer, resolved, stacked, OptionalSettings};
use crate::convert::bool_of;
use crate::settings::{u64_of, result_view, settings_of, Field, Settings};
use crate::settings::DeserializeError;

verus! {

/// What a layer holds under a field's key; a table under `somestruct` shows
/// as `Scalar::Table`, and `someint` is read inside such a table.
pub open spec fn value_at(l: Layer, f: Field) -> Option<Scalar> {
    match f {
        Field::Somebool => l.somebool,
        Field::Somestring => l.somestring,
        Field::Somesecret => l.somesecret,
        Field::Someoptionalstring => l.someoptionalstring,
        Field::Somestruct => match l.somestruct {
            Some(Group::Table { .. }) => Some(Scalar::Table),
            Some(Group::Value(s)) => Some(s),
            None => None,
        },
        Field::Someint => match l.somestruct {
            Some(Group::Table { someint }) => someint,
            _ => None,
        },
    }
}

/// Whether `l` puts a value that is not a table under `somestruct`, which
/// hides every nested key below it.
pub open spec fn hides_nested(l: Layer, f: Field) -> bool {
    f == Field::Someint && l.somestruct matches Some(Group::Value(_))
}

/// Merging is key by key: a key held by the higher layer takes its value;
/// a key it does not hold, and does not hide under a non-table, keeps the
/// lower layer's value.
pub proof fn lemma_merge_by_key(lower: Layer, higher: Layer, f: Field)
    ensures
        value_at(higher, f) is Some ==> value_at(layer_over(lower, higher), f) == value_at(higher, f),
        value_at(higher, f) is None && !hides_nested(higher, f) ==> value_at(
            layer_over(lower, higher),
            f,
        ) == value_at(lower, f),
{
}

/// With no runtime file, no environment variables and no overrides, the
/// settings are those that the baseline makes by itself.
pub proof fn lemma_baseline_alone(base: Layer)
    ensures
        resolved(base, None, empty_layer(), OptionalSettings { somestring: None }) == settings_of(base),
{
    assert(stacked(base, None, empty_layer(), OptionalSettings { somestring: None }) == base);
}

/// Without environment variables or overrides, a key that the runtime file
/// holds takes the runtime file's value, and a key held only by the
/// baseline keeps the baseline's value.
pub proof fn lemma_runtime_over_baseline(base: Layer, runtime: Layer, f: Field)
    ensures
        ({
            let l = stacked(base, Some(runtime), empty_layer(), OptionalSettings { somestring: None });
            &&& value_at(runtime, f) is Some ==> value_at(l, f) == value_at(runtime, f)
            &&& value_at(runtime, f) is None && !hides_nested(runtime, f) ==> value_at(l, f)
                == value_at(base, f)
        }),
{
    let o = OptionalSettings { somestring: None };
    assert(stacked(base, Some(runtime), empty_layer(), o) == layer_over(base, runtime));
    lemma_merge_by_key(base, runtime, f);
}

/// A key that the environment holds overrides the baseline and the runtime
/// file; only a set override of `somestring` is above it.
pub proof fn lemma_environment_wins(base: Layer, runtime: Option<Layer>, env: Layer, o: OptionalSettings, f: Field)
    requires
        value_at(env, f) is Some,
        !(f == Field::Somestring && o.somestring is Some),
    ensures
        value_at(stacked(base, runtime, env, o), f) == value_at(env, f),
{
    let below = layer_over(base, crate::resolve::runtime_or_empty(runtime));
    lemma_merge_by_key(below, env, f);
    lemma_merge_by_key(layer_over(below, env), overrides_layer(o), f);
}

/// A value in the environment that cannot be read as its field's type makes
/// resolution fail, unless an override of `somestring` hides it.
pub proof fn lemma_malformed_environment_fails(
    base: Layer,
    runtime: Option<Layer>,
    env: Layer,
    o: OptionalSettings,
    f: Field,
    s: Scalar,
)
    requires
        value_at(env, f) == Some(s),
        (f == Field::Somebool && bool_of(s) is None) || (f == Field::Someint && u64_of(s) is None),
    ensures
        resolved(base, runtime, env, o) is Err,
{
    lemma_environment_wins(base, runtime, env, o, f);
}

/// An override that is not set leaves the merged layer as the lower sources
/// make it; one that is set holds `somestring` over every lower source,
/// changes no other key, and settings that resolve carry it.
pub proof fn lemma_overrides(base: Layer, runtime: Option<Layer>, env: Layer, o: OptionalSettings)
    ensures
        o.somestring is None ==> stacked(base, runtime, env, o) == layer_over(
            layer_over(base, crate::resolve::runtime_or_empty(runtime)),
            env,
        ),
        o.somestring matches Some(t) ==> value_at(stacked(base, runtime, env, o), Field::Somestring)
            == Some(Scalar::Text(t)),
        o.somestring matches Some(t) ==> stacked(base, runtime, env, o) == (Layer {
            somestring: Some(Scalar::Text(t)),
            ..stacked(base, runtime, env, OptionalSettings { somestring: None })
        }),
        o.somestring matches Some(t) ==> (resolved(base, runtime, env, o) matches Ok(v) ==> v.somestring
            == t@),
{
}

/// Resolving twice from the same layers and overrides gives the same
/// settings, or the same error.
pub proof fn lemma_resolve_deterministic(
    base: Layer,
    runtime: Option<Layer>,
    env: Layer,
    o: OptionalSettings,
    first: Result<Settings, DeserializeError>,
    second: Result<Settings, DeserializeError>,
)
    requires
        result_view(first) == resolved(base, runtime, env, o),
        result_view(second) == resolved(base, runtime, env, o),
    ensures
        result_view(first) == result_view(second),
{
}

} // verus!
