use vstd::prelude::*;

use crate::model::Scalar;
use crate::text::{bool_text, bool_word, int_text, lower_of};

verus! {

#[verifier::external_type_specification]
#[verifier::external_body]
pub struct ExConfigError(config::ConfigError);

/// The value that a `Result` holds when it is `Ok`.
pub open spec fn ok_of<T, E>(r: Result<T, E>) -> Option<T> {
    match r {
        Ok(v) => Some(v),
        Err(_) => None,
    }
}

/// The boolean that a value stands for: booleans as they are, integers by
/// whether they differ from zero, texts by their lower-case word.
pub open spec fn bool_of(s: Scalar) -> Option<bool> {
    match s {
        Scalar::Bool(b) => Some(b),
        Scalar::Int(i) => Some(i != 0),
        Scalar::Text(t) => bool_word(lower_of(t@)),
        _ => None,
    }
}

/// The text that a value stands for: texts as they are, booleans and
/// integers as they are written; no text for the other kinds.
pub open spec fn text_of(s: Scalar) -> Option<Seq<char>> {
    match s {
        Scalar::Text(t) => Some(t@),
        Scalar::Bool(b) => Some(bool_text(b)),
        Scalar::Int(i) => Some(int_text(i as int)),
        _ => None,
    }
}

/// Relies on `config::Value::into_bool`: booleans as they are, integers by
/// whether they differ from zero, a text by its lower-case form being one of
/// `1 true on yes` or `0 false off no`; every other kind fails.
#[verifier::external_body]
pub(crate) fn value_into_bool(s: &Scalar) -> (r: Result<bool, config::ConfigError>)
    ensures
        s matches Scalar::Text(t) ==> ok_of(r) == bool_word(lower_of(t@)),
        !(s is Text) ==> ok_of(r) == bool_of(*s),
{
    let kind = match s {
        Scalar::Bool(b) => config::ValueKind::Boolean(*b),
        Scalar::Int(i) => config::ValueKind::I64(*i),
        Scalar::Text(t) => config::ValueKind::String(t.clone()),
        Scalar::Table => config::ValueKind::Table(config::Map::new()),
        Scalar::Nil => config::ValueKind::Nil,
        Scalar::Other => config::ValueKind::Array(Vec::new()),
    };
    config::Value::new(None, kind).into_bool()
}

/// Relies on `config::Value::into_string`: a text as it is, a boolean or an
/// integer as `to_string` writes it; a table, an array or nil fails.
#[verifier::external_body]
pub(crate) fn value_into_string(s: &Scalar) -> (r: Result<String, config::ConfigError>)
    ensures
        r matches Ok(t) ==> text_of(*s) == Some(t@),
        r is Err <==> text_of(*s) is None,
{
    let kind = match s {
        Scalar::Bool(b) => config::ValueKind::Boolean(*b),
        Scalar::Int(i) => config::ValueKind::I64(*i),
        Scalar::Text(t) => config::ValueKind::String(t.clone()),
        Scalar::Table => config::ValueKind::Table(config::Map::new()),
        Scalar::Nil => config::ValueKind::Nil,
        Scalar::Other => config::ValueKind::Array(Vec::new()),
    };
    config::Value::new(None, kind).into_string()
}

} // verus!
