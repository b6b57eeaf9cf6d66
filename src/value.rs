use vstd::prelude::*;

verus! {

/// The key part of a record identifier.
#[derive(Debug)]
pub enum Id {
    Number(i64),
    Text(String),
}

/// One end of a key range.
#[derive(Debug)]
pub enum Bound {
    Included(Id),
    Excluded(Id),
    Unbounded,
}

/// A query-language value as this layer sees it.
#[derive(Debug)]
pub enum Value {
    /// The "no value" sentinel.
    NoValue,
    Null,
    Bool(bool),
    Number(i64),
    Strand(String),
    /// A single identified record: table and key.
    Thing(String, Id),
    /// A whole table.
    Table(String),
    /// The records of a table whose keys lie between two bounds.
    Range(String, Bound, Bound),
    Array(Vec<Value>),
    Object(Vec<(String, Value)>),
}

} // verus!
