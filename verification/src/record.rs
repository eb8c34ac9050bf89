//! The record model: the canonical unit of data moved through every
//! connector. A record is an ordered collection of named fields; each field
//! carries a value and a type tag, and the `Ignore` tag marks a field that
//! must never be materialized to a backing store.

use vstd::prelude::*;
use crate::strutil::str_eq;
use crate::text::{i64_dec, i64_to_string};

verus! {

/// The type tag of a field. `Ignore` marks a field that sinks and exporters
/// must skip.
#[derive(Debug, Clone, Copy, PartialEq, Eq, Structural)]
pub enum DataType {
    Chars,
    Digit,
    Time,
    Ignore,
}

/// A field's value: text, a signed number, or a timestamp in nanoseconds
/// since the epoch.
#[derive(Debug, Clone, PartialEq, Eq)]
pub enum Value {
    Chars(String),
    Digit(i64),
    Time(i64),
}

/// The string rendering of a value, as it is materialized into statements
/// and payloads.
pub open spec fn rendered_value(v: Value) -> Seq<char> {
    match v {
        Value::Chars(s) => s@,
        Value::Digit(d) => i64_dec(d as int),
        Value::Time(t) => i64_dec(t as int),
    }
}

/// One named, typed field of a record.
#[derive(Debug, Clone, PartialEq, Eq)]
pub struct DataField {
    pub name: String,
    pub value: Value,
    pub meta: DataType,
}

impl DataField {
    /// A text field.
    pub fn from_chars(name: &str, value: &str) -> (r: DataField)
        ensures
            r.name@ == name@,
            r.value is Chars,
            rendered_value(r.value) == value@,
            r.meta == DataType::Chars,
    {
        DataField { name: name.to_owned(), value: Value::Chars(value.to_owned()), meta: DataType::Chars }
    }

    /// A numeric field.
    pub fn from_digit(name: &str, value: i64) -> (r: DataField)
        ensures
            r.name@ == name@,
            r.value == Value::Digit(value),
            r.meta == DataType::Digit,
    {
        DataField { name: name.to_owned(), value: Value::Digit(value), meta: DataType::Digit }
    }

    /// A timestamp field, in nanoseconds since the epoch.
    pub fn from_time(name: &str, nanos: i64) -> (r: DataField)
        ensures
            r.name@ == name@,
            r.value == Value::Time(nanos),
            r.meta == DataType::Time,
    {
        DataField { name: name.to_owned(), value: Value::Time(nanos), meta: DataType::Time }
    }

    /// The field's name.
    pub fn get_name(&self) -> (r: &str)
        ensures
            r@ == self.name@,
    {
        self.name.as_str()
    }

    /// The field's value.
    pub fn get_value(&self) -> (r: &Value)
        ensures
            *r == self.value,
    {
        &self.value
    }

    /// The field's type tag.
    pub fn get_meta(&self) -> (r: DataType)
        ensures
            r == self.meta,
    {
        self.meta
    }

    /// The string rendering of the field's value.
    pub fn rendered(&self) -> (r: String)
        ensures
            r@ == rendered_value(self.value),
    {
        match &self.value {
            Value::Chars(s) => s.clone(),
            Value::Digit(d) => i64_to_string(*d),
            Value::Time(t) => i64_to_string(*t),
        }
    }
}

/// The first field with the given name, searching from the front.
pub open spec fn lookup_field(items: Seq<DataField>, name: Seq<char>) -> Option<DataField>
    decreases items.len(),
{
    if items.len() == 0 {
        None
    } else if items[0].name@ == name {
        Some(items[0])
    } else {
        lookup_field(items.drop_first(), name)
    }
}

/// An ordered collection of named fields; immutable once handed to a sink.
#[derive(Debug, Clone, PartialEq, Eq)]
pub struct DataRecord {
    pub items: Vec<DataField>,
}

impl DataRecord {
    /// An empty record.
    pub fn new() -> (r: DataRecord)
        ensures
            r.items@ == Seq::<DataField>::empty(),
    {
        DataRecord { items: Vec::new() }
    }

    /// Appends one field at the end.
    pub fn append(&mut self, field: DataField)
        ensures
            final(self).items@ == old(self).items@.push(field),
    {
        self.items.push(field);
    }

    /// The first field with the given name, if any.
    pub fn get2(&self, name: &str) -> (r: Option<&DataField>)
        ensures
            match r {
                Some(f) => lookup_field(self.items@, name@) == Some(*f),
                None => lookup_field(self.items@, name@) is None,
            },
    {
        let mut i: usize = 0;
        proof {
            assert(self.items@.skip(0) =~= self.items@);
        }
        while i < self.items.len()
            invariant
                i <= self.items@.len(),
                lookup_field(self.items@, name@) == lookup_field(self.items@.skip(i as int), name@),
            decreases self.items@.len() - i,
        {
            proof {
                assert(self.items@.skip(i as int)[0] == self.items@[i as int]);
                assert(self.items@.skip(i as int).drop_first() =~= self.items@.skip(i + 1));
            }
            if string_eq_str(&self.items[i].name, name) {
                return Some(&self.items[i]);
            }
            i = i + 1;
        }
        proof {
            assert(self.items@.skip(self.items@.len() as int) =~= Seq::<DataField>::empty());
        }
        None
    }
}

/// The text of the first field with the given name, when that field holds
/// text.
pub open spec fn chars_of(items: Seq<DataField>, name: Seq<char>) -> Option<Seq<char>> {
    match lookup_field(items, name) {
        Some(f) => match f.value {
            Value::Chars(s) => Some(s@),
            _ => None,
        },
        None => None,
    }
}

/// The text of the first field with the given name, or empty when the
/// record has no such text field.
pub open spec fn chars_or_empty(items: Seq<DataField>, name: Seq<char>) -> Seq<char> {
    match chars_of(items, name) {
        Some(s) => s,
        None => Seq::empty(),
    }
}

/// The number of the first field with the given name, when that field holds
/// a number.
pub open spec fn digit_of(items: Seq<DataField>, name: Seq<char>) -> Option<i64> {
    match lookup_field(items, name) {
        Some(f) => match f.value {
            Value::Digit(d) => Some(d),
            _ => None,
        },
        None => None,
    }
}

/// The number of the first field with the given name, or zero.
pub open spec fn digit_or_zero(items: Seq<DataField>, name: Seq<char>) -> i64 {
    match digit_of(items, name) {
        Some(d) => d,
        None => 0,
    }
}

impl DataRecord {
    /// The text of the first field with the given name, when it holds text.
    pub fn get_chars(&self, name: &str) -> (r: Option<String>)
        ensures
            match r {
                Some(s) => chars_of(self.items@, name@) == Some(s@),
                None => chars_of(self.items@, name@) is None,
            },
    {
        match self.get2(name) {
            Some(f) => match &f.value {
                Value::Chars(s) => Some(s.clone()),
                _ => None,
            },
            None => None,
        }
    }

    /// The text of the first field with the given name, or empty.
    pub fn chars_field_or_empty(&self, name: &str) -> (r: String)
        ensures
            r@ == chars_or_empty(self.items@, name@),
    {
        match self.get_chars(name) {
            Some(s) => s,
            None => String::new(),
        }
    }

    /// The number of the first field with the given name, when it holds one.
    pub fn get_digit(&self, name: &str) -> (r: Option<i64>)
        ensures
            match r {
                Some(d) => digit_of(self.items@, name@) == Some(d),
                None => digit_of(self.items@, name@) is None,
            },
    {
        match self.get2(name) {
            Some(f) => match &f.value {
                Value::Digit(d) => Some(*d),
                _ => None,
            },
            None => None,
        }
    }
}

impl Default for DataRecord {
    /// An empty record.
    fn default() -> (r: DataRecord)
        ensures
            r.items@ == Seq::<DataField>::empty(),
    {
        DataRecord::new()
    }
}

/// Compares a `String` with a `&str` by contents.
pub fn string_eq_str(a: &String, b: &str) -> (r: bool)
    ensures
        r == (a@ == b@),
{
    str_eq(a.as_str(), b)
}

} // verus!
