use vstd::prelude::*;

verus! {

/// A value found under one key of a source, in the kinds the settings read.
#[derive(Clone, Debug)]
pub enum Scalar {
    Bool(bool),
    Int(i64),
    Text(String),
    /// A nested table; its own keys are read separately.
    Table,
    /// An explicit empty value.
    Nil,
    /// Any other kind of value (array, float, wider integer).
    Other,
}

/// What a layer holds under the key `somestruct`.
#[derive(Clone, Debug)]
pub enum Group {
    /// A table, with what it holds under `someint`.
    Table { someint: Option<Scalar> },
    /// A value that is not a table.
    Value(Scalar),
}

/// One source's contribution: `None` where the source does not hold the key.
#[derive(Clone, Debug)]
pub struct Layer {
    pub somebool: Option<Scalar>,
    pub somestring: Option<Scalar>,
    pub somesecret: Option<Scalar>,
    pub somestruct: Option<Group>,
    pub someoptionalstring: Option<Scalar>,
}

/// The value of a key after `higher` is laid over `lower`.
pub open spec fn over<T>(lower: Option<T>, higher: Option<T>) -> Option<T> {
    if higher is Some {
        higher
    } else {
        lower
    }
}

/// `somestruct` after `higher` is laid over `lower`: two tables merge key by
/// key, anything else in `higher` replaces what was below.
pub open spec fn group_over(lower: Option<Group>, higher: Option<Group>) -> Option<Group> {
    match (lower, higher) {
        (Some(Group::Table { someint: lo }), Some(Group::Table { someint: hi })) => Some(
            Group::Table { someint: over(lo, hi) },
        ),
        _ => over(lower, higher),
    }
}

/// The layer that results from laying `higher` over `lower`.
pub open spec fn layer_over(lower: Layer, higher: Layer) -> Layer {
    Layer {
        somebool: over(lower.somebool, higher.somebool),
        somestring: over(lower.somestring, higher.somestring),
        somesecret: over(lower.somesecret, higher.somesecret),
        somestruct: group_over(lower.somestruct, higher.somestruct),
        someoptionalstring: over(lower.someoptionalstring, higher.someoptionalstring),
    }
}

/// The layer that holds no key.
pub open spec fn empty_layer() -> Layer {
    Layer {
        somebool: None,
        somestring: None,
        somesecret: None,
        somestruct: None,
        someoptionalstring: None,
    }
}

fn pick<T>(lower: Option<T>, higher: Option<T>) -> (r: Option<T>)
    ensures
        r == over(lower, higher),
{
    match higher {
        Some(v) => Some(v),
        None => lower,
    }
}

impl Layer {
    /// A layer that holds no key.
    pub fn empty() -> (r: Layer)
        ensures
            r == empty_layer(),
    {
        Layer {
            somebool: None,
            somestring: None,
            somesecret: None,
            somestruct: None,
            someoptionalstring: None,
        }
    }

    /// Lays `higher` over `self`: each key that `higher` holds wins, nested
    /// tables merge key by key.
    pub fn merge(self, higher: Layer) -> (r: Layer)
        ensures
            r == layer_over(self, higher),
    {
        let somestruct = match (self.somestruct, higher.somestruct) {
            (Some(Group::Table { someint: lo }), Some(Group::Table { someint: hi })) => Some(
                Group::Table { someint: pick(lo, hi) },
            ),
            (lo, hi) => pick(lo, hi),
        };
        Layer {
            somebool: pick(self.somebool, higher.somebool),
            somestring: pick(self.somestring, higher.somestring),
            somesecret: pick(self.somesecret, higher.somesecret),
            somestruct,
            someoptionalstring: pick(self.someoptionalstring, higher.someoptionalstring),
        }
    }
}

} // verus!
