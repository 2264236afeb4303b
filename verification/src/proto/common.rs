//! Attribute and instrumentation-library shapes shared by all signal kinds.

use vstd::prelude::*;

verus! {

/// A value that can be any one of the protocol's primitive or composite
/// kinds. A double-precision value is carried as its raw IEEE-754 bit
/// pattern: the bridge never interprets payload numbers, it only moves them.
pub enum AnyValue {
    /// A UTF-8 string value
    StringValue(String),
    /// A boolean value
    BoolValue(bool),
    /// A signed 64-bit integer value
    IntValue(i64),
    /// A double-precision value, as its raw IEEE-754 bit pattern
    DoubleValue(u64),
    /// An ordered list of values
    ArrayValue(ArrayValue),
    /// A list of key-value pairs
    KvlistValue(KeyValueList),
}

/// An ordered list of [`AnyValue`]s.
pub struct ArrayValue {
    /// The values in the list
    pub values: Vec<AnyValue>,
}

/// A list of [`KeyValue`] pairs.
pub struct KeyValueList {
    /// The pairs in the list
    pub values: Vec<KeyValue>,
}

/// A key together with an arbitrarily typed value.
pub struct KeyValue {
    /// The attribute's key
    pub key: String,
    /// The attribute's value, if set
    pub value: Option<AnyValue>,
}

/// A key together with a string value.
pub struct StringKeyValue {
    /// The label's key
    pub key: String,
    /// The label's value
    pub value: String,
}

/// The name and version of the instrumentation library that produced a batch
/// of telemetry records. An unset name means the library is unknown.
pub struct InstrumentationLibrary {
    /// The library's name; empty when unknown
    pub name: String,
    /// The library's version; empty when unset
    pub version: String,
}

} // verus!
