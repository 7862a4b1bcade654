use vstd::prelude::*;

use crate::convert::{bool_of, text_of, value_into_bool, value_into_string};
use crate::model::{Group, Layer, Scalar};
use crate::text::{u64_text, parse_u64};

verus! {

/// A text that is read only through `expose_secret`; it has no `Debug`, so
/// it never shows up in printed settings.
#[derive(Clone)]
pub struct SecretText {
    value: String,
}

impl View for SecretText {
    type V = Seq<char>;

    closed spec fn view(&self) -> Seq<char> {
        self.value@
    }
}

impl SecretText {
    /// Wraps a text.
    pub fn new(value: String) -> (r: SecretText)
        ensures
            r@ == value@,
    {
        SecretText { value }
    }

    /// The wrapped text.
    pub fn expose_secret(&self) -> (r: &String)
        ensures
            r@ == self@,
    {
        &self.value
    }
}

/// The nested record under `somestruct`.
#[derive(Clone)]
pub struct SomeStructSettings {
    pub someint: u64,
}

/// The resolved settings.
#[derive(Clone)]
pub struct Settings {
    pub somebool: bool,
    pub somestring: String,
    pub somesecret: SecretText,
    pub somestruct: SomeStructSettings,
    pub someoptionalstring: Option<String>,
}

/// The settings as plain values.
pub struct SettingsView {
    pub somebool: bool,
    pub somestring: Seq<char>,
    pub somesecret: Seq<char>,
    pub someint: u64,
    pub someoptionalstring: Option<Seq<char>>,
}

pub open spec fn opt_view(o: Option<String>) -> Option<Seq<char>> {
    match o {
        Some(s) => Some(s@),
        None => None,
    }
}

impl View for Settings {
    type V = SettingsView;

    open spec fn view(&self) -> SettingsView {
        SettingsView {
            somebool: self.somebool,
            somestring: self.somestring@,
            somesecret: self.somesecret@,
            someint: self.somestruct.someint,
            someoptionalstring: opt_view(self.someoptionalstring),
        }
    }
}

/// A field of the settings.
#[derive(PartialEq, Eq, Structural, Clone, Copy, Debug)]
pub enum Field {
    Somebool,
    Somestring,
    Somesecret,
    Somestruct,
    Someint,
    Someoptionalstring,
}

/// Why a merged layer does not make settings.
#[derive(PartialEq, Eq, Structural, Clone, Copy, Debug)]
pub enum DeserializeError {
    /// A required field is held by no layer.
    MissingField(Field),
    /// A field holds a value that cannot be read as the field's type.
    InvalidValue(Field),
}

/// The `u64` that a value stands for: a non-negative integer, or a text that
/// writes one.
pub open spec fn u64_of(s: Scalar) -> Option<u64> {
    match s {
        Scalar::Int(i) => if i >= 0 {
            Some(i as u64)
        } else {
            None
        },
        Scalar::Text(t) => u64_text(t@),
        _ => None,
    }
}

/// A required field read with `read`.
pub open spec fn required<T>(v: Option<Scalar>, f: Field, read: spec_fn(Scalar) -> Option<T>) -> Result<T, DeserializeError> {
    match v {
        None => Err(DeserializeError::MissingField(f)),
        Some(s) => match read(s) {
            Some(x) => Ok(x),
            None => Err(DeserializeError::InvalidValue(f)),
        },
    }
}

/// `someint`, read through the group under `somestruct`.
pub open spec fn someint_of(g: Option<Group>) -> Result<u64, DeserializeError> {
    match g {
        None => Err(DeserializeError::MissingField(Field::Somestruct)),
        Some(Group::Value(_)) => Err(DeserializeError::InvalidValue(Field::Somestruct)),
        Some(Group::Table { someint }) => required(someint, Field::Someint, |s| u64_of(s)),
    }
}

/// The optional field: absent or nil gives `None`.
pub open spec fn optional_text_of(v: Option<Scalar>) -> Result<Option<Seq<char>>, DeserializeError> {
    match v {
        None => Ok(None),
        Some(Scalar::Nil) => Ok(None),
        Some(s) => match text_of(s) {
            Some(t) => Ok(Some(t)),
            None => Err(DeserializeError::InvalidValue(Field::Someoptionalstring)),
        },
    }
}

/// The settings that a merged layer makes, or the first failing field in
/// declaration order.
pub open spec fn settings_of(l: Layer) -> Result<SettingsView, DeserializeError> {
    let b = required(l.somebool, Field::Somebool, |s| bool_of(s));
    let st = required(l.somestring, Field::Somestring, |s| text_of(s));
    let se = required(l.somesecret, Field::Somesecret, |s| text_of(s));
    let i = someint_of(l.somestruct);
    let o = optional_text_of(l.someoptionalstring);
    if b is Err {
        Err(b->Err_0)
    } else if st is Err {
        Err(st->Err_0)
    } else if se is Err {
        Err(se->Err_0)
    } else if i is Err {
        Err(i->Err_0)
    } else if o is Err {
        Err(o->Err_0)
    } else {
        Ok(
            SettingsView {
                somebool: b->Ok_0,
                somestring: st->Ok_0,
                somesecret: se->Ok_0,
                someint: i->Ok_0,
                someoptionalstring: o->Ok_0,
            },
        )
    }
}

/// The view of a result of settings.
pub open spec fn result_view<E>(r: Result<Settings, E>) -> Result<SettingsView, E> {
    match r {
        Ok(s) => Ok(s@),
        Err(e) => Err(e),
    }
}

fn read_bool(v: &Option<Scalar>, f: Field) -> (r: Result<bool, DeserializeError>)
    ensures
        r == required(*v, f, |s| bool_of(s)),
{
    match v {
        None => Err(DeserializeError::MissingField(f)),
        Some(s) => match value_into_bool(s) {
            Ok(b) => Ok(b),
            Err(_) => Err(DeserializeError::InvalidValue(f)),
        },
    }
}

fn read_text(v: &Option<Scalar>, f: Field) -> (r: Result<String, DeserializeError>)
    ensures
        r matches Ok(t) ==> required(*v, f, |s| text_of(s)) == Ok::<Seq<char>, DeserializeError>(t@),
        r matches Err(e) ==> required(*v, f, |s| text_of(s)) == Err::<Seq<char>, DeserializeError>(e),
{
    match v {
        None => Err(DeserializeError::MissingField(f)),
        Some(s) => match value_into_string(s) {
            Ok(t) => Ok(t),
            Err(_) => Err(DeserializeError::InvalidValue(f)),
        },
    }
}

fn read_u64(s: &Scalar) -> (r: Option<u64>)
    ensures
        r == u64_of(*s),
{
    match s {
        Scalar::Int(i) => if *i >= 0 {
            Some(*i as u64)
        } else {
            None
        },
        Scalar::Text(t) => parse_u64(t.as_str()),
        _ => None,
    }
}

fn read_someint(g: &Option<Group>) -> (r: Result<u64, DeserializeError>)
    ensures
        r == someint_of(*g),
{
    match g {
        None => Err(DeserializeError::MissingField(Field::Somestruct)),
        Some(Group::Value(_)) => Err(DeserializeError::InvalidValue(Field::Somestruct)),
        Some(Group::Table { someint: None }) => Err(DeserializeError::MissingField(Field::Someint)),
        Some(Group::Table { someint: Some(s) }) => match read_u64(s) {
            Some(n) => Ok(n),
            None => Err(DeserializeError::InvalidValue(Field::Someint)),
        },
    }
}

fn read_optional_text(v: &Option<Scalar>) -> (r: Result<Option<String>, DeserializeError>)
    ensures
        r matches Ok(o) ==> optional_text_of(*v) == Ok::<Option<Seq<char>>, DeserializeError>(opt_view(o)),
        r matches Err(e) ==> optional_text_of(*v) == Err::<Option<Seq<char>>, DeserializeError>(e),
{
    match v {
        None => Ok(None),
        Some(Scalar::Nil) => Ok(None),
        Some(s) => match value_into_string(s) {
            Ok(t) => Ok(Some(t)),
            Err(_) => Err(DeserializeError::InvalidValue(Field::Someoptionalstring)),
        },
    }
}

impl Settings {
    /// Reads typed settings out of a merged layer: each required field must be
    /// held and readable as its type, and the first field that is not, in
    /// declaration order, is the error.
    pub fn from_layer(l: &Layer) -> (r: Result<Settings, DeserializeError>)
        ensures
            result_view(r) == settings_of(*l),
    {
        let somebool = match read_bool(&l.somebool, Field::Somebool) {
            Ok(b) => b,
            Err(e) => return Err(e),
        };
        let somestring = match read_text(&l.somestring, Field::Somestring) {
            Ok(t) => t,
            Err(e) => return Err(e),
        };
        let secret = match read_text(&l.somesecret, Field::Somesecret) {
            Ok(t) => t,
            Err(e) => return Err(e),
        };
        let someint = match read_someint(&l.somestruct) {
            Ok(n) => n,
            Err(e) => return Err(e),
        };
        let someoptionalstring = match read_optional_text(&l.someoptionalstring) {
            Ok(o) => o,
            Err(e) => return Err(e),
        };
        Ok(
            Settings {
                somebool,
                somestring,
                somesecret: SecretText::new(secret),
                somestruct: SomeStructSettings { someint },
                someoptionalstring,
            },
        )
    }
}

} // verus!
