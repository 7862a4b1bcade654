use vstd::prelude::*;

use crate::model::{empty_layer, layer_over, Layer, Scalar};
use crate::settings::{result_view, settings_of, DeserializeError, Settings, SettingsView};
use crate::sources::{
    config_entries, env_layer, env_unambiguous, layer_of, parse_environment, parse_toml, read_layer,
    parses, toml_outcomes, ENV_PREFIX, ENV_SEPARATOR,
};

verus! {

/// Settings that the caller may supply; an unset field contributes no key.
pub struct OptionalSettings {
    pub somestring: Option<String>,
}

/// Why resolution failed, by the stage that failed.
#[derive(Debug)]
pub enum ResolveError {
    /// The baseline document is not valid TOML.
    BaselineParse(config::ConfigError),
    /// The runtime document is not valid TOML.
    RuntimeFileParse(config::ConfigError),
    /// The environment variables do not make a configuration.
    EnvironmentParse(config::ConfigError),
    /// The merged layer does not make settings.
    Deserialization(DeserializeError),
}

/// The layer that the caller's overrides make: only set fields are held.
pub open spec fn overrides_layer(o: OptionalSettings) -> Layer {
    Layer {
        somestring: match o.somestring {
            Some(s) => Some(Scalar::Text(s)),
            None => None,
        },
        ..empty_layer()
    }
}

/// The runtime layer, where there is a runtime document.
pub open spec fn runtime_or_empty(runtime: Option<Layer>) -> Layer {
    match runtime {
        Some(l) => l,
        None => empty_layer(),
    }
}

/// All four layers merged, from lowest to highest priority.
pub open spec fn stacked(base: Layer, runtime: Option<Layer>, env: Layer, o: OptionalSettings) -> Layer {
    layer_over(layer_over(layer_over(base, runtime_or_empty(runtime)), env), overrides_layer(o))
}

/// The settings that the four layers resolve to.
pub open spec fn resolved(base: Layer, runtime: Option<Layer>, env: Layer, o: OptionalSettings) -> Result<SettingsView, DeserializeError> {
    settings_of(stacked(base, runtime, env, o))
}

impl OptionalSettings {
    /// Overrides that set nothing.
    pub fn none() -> (r: OptionalSettings)
        ensures
            r.somestring is None,
    {
        OptionalSettings { somestring: None }
    }

    /// The layer that these overrides make: unset fields are left out.
    pub fn to_layer(&self) -> (r: Layer)
        ensures
            r == overrides_layer(*self),
    {
        let somestring = match &self.somestring {
            Some(s) => Some(Scalar::Text(s.clone())),
            None => None,
        };
        Layer {
            somebool: None,
            somestring,
            somesecret: None,
            somestruct: None,
            someoptionalstring: None,
        }
    }
}

/// Merges the baseline, the runtime layer if any, the environment and the
/// caller's overrides, in that order of priority, and reads the settings.
pub fn resolve_layers(base: Layer, runtime: Option<Layer>, env: Layer, overrides: &OptionalSettings) -> (r:
    Result<Settings, DeserializeError>)
    ensures
        result_view(r) == resolved(base, runtime, env, *overrides),
{
    let with_runtime = match runtime {
        Some(l) => base.merge(l),
        None => base.merge(Layer::empty()),
    };
    let merged = with_runtime.merge(env).merge(overrides.to_layer());
    Settings::from_layer(&merged)
}

/// Whether the runtime text, if there is one, parses.
pub open spec fn runtime_parses(runtime: Option<&str>) -> bool {
    match runtime {
        Some(t) => parses(t@),
        None => true,
    }
}

/// Whether `m` is what a parse of the runtime text can give: nothing where
/// there is no runtime text.
pub open spec fn runtime_outcome(runtime: Option<&str>, m: Option<Map<Seq<char>, Scalar>>) -> bool {
    match (runtime, m) {
        (None, None) => true,
        (Some(t), Some(m)) => toml_outcomes(t@).contains(m),
        _ => false,
    }
}

/// The runtime layer that parsed entries make.
pub open spec fn runtime_layer(m: Option<Map<Seq<char>, Scalar>>) -> Option<Layer> {
    match m {
        Some(m) => Some(layer_of(m)),
        None => None,
    }
}

/// What a result of `resolve` says of the settings, when it got as far as
/// reading them.
pub open spec fn outcome(r: Result<Settings, ResolveError>) -> Option<Result<SettingsView, DeserializeError>> {
    match r {
        Ok(s) => Some(Ok(s@)),
        Err(ResolveError::Deserialization(d)) => Some(Err(d)),
        Err(_) => None,
    }
}

/// Resolves settings from the baseline TOML text, the runtime TOML text when
/// there is a runtime file, the process's environment variables as name and
/// value pairs, and the caller's overrides. A malformed baseline fails first,
/// then a malformed runtime text; otherwise the result is what the layers
/// that the texts parse to resolve to, with the environment's layer read by
/// its naming rule wherever the variables fix one value per key.
pub fn resolve(
    baseline: &str,
    runtime: Option<&str>,
    env_vars: &Vec<(String, String)>,
    overrides: &OptionalSettings,
) -> (r: Result<Settings, ResolveError>)
    ensures
        r matches Err(ResolveError::BaselineParse(_)) <==> !parses(baseline@),
        r matches Err(ResolveError::RuntimeFileParse(_)) <==> parses(baseline@) && !runtime_parses(
            runtime,
        ),
        !(r matches Err(ResolveError::EnvironmentParse(_))),
        parses(baseline@) && runtime_parses(runtime) && env_unambiguous(
            env_vars@,
            ENV_PREFIX@,
            ENV_SEPARATOR@,
        ) ==> exists|mb: Map<Seq<char>, Scalar>, mr: Option<Map<Seq<char>, Scalar>>|
            toml_outcomes(baseline@).contains(mb) && runtime_outcome(runtime, mr) && outcome(r)
                == Some(
                resolved(
                    layer_of(mb),
                    runtime_layer(mr),
                    env_layer(env_vars@, ENV_PREFIX@, ENV_SEPARATOR@),
                    *overrides,
                ),
            ),
        parses(baseline@) && runtime_parses(runtime) ==> exists|
            mb: Map<Seq<char>, Scalar>,
            mr: Option<Map<Seq<char>, Scalar>>,
            e: config::Config,
        |
            toml_outcomes(baseline@).contains(mb) && runtime_outcome(runtime, mr) && outcome(r)
                == Some(resolved(layer_of(mb), runtime_layer(mr), layer_of(config_entries(e)), *overrides)),
{
    let base_cfg = match parse_toml(baseline) {
        Ok(c) => c,
        Err(e) => return Err(ResolveError::BaselineParse(e)),
    };
    let runtime_cfg = match runtime {
        Some(text) => match parse_toml(text) {
            Ok(c) => Some(c),
            Err(e) => return Err(ResolveError::RuntimeFileParse(e)),
        },
        None => None,
    };
    let env_cfg = match parse_environment(env_vars, ENV_PREFIX, ENV_SEPARATOR) {
        Ok(c) => c,
        Err(e) => return Err(ResolveError::EnvironmentParse(e)),
    };
    let rt = match &runtime_cfg {
        Some(c) => Some(read_layer(c)),
        None => None,
    };
    let ghost mb = config_entries(base_cfg);
    let ghost mr = match runtime_cfg {
        Some(c) => Some(config_entries(c)),
        None => None,
    };
    let ghost ge = env_cfg;
    assert(rt == runtime_layer(mr));
    assert(runtime_outcome(runtime, mr));
    let r = match resolve_layers(read_layer(&base_cfg), rt, read_layer(&env_cfg), overrides) {
        Ok(s) => Ok(s),
        Err(d) => Err(ResolveError::Deserialization(d)),
    };
    assert(outcome(r) == Some(
        resolved(layer_of(mb), runtime_layer(mr), layer_of(config_entries(ge)), *overrides),
    ));
    r
}

} // verus!
