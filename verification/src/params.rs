//! The flat key-value parameter map every connector is configured from.
//! Values are a closed set of shapes: text, an integer, a flag, or a list
//! of values; factories validate this map once, before any resource is
//! acquired.

use vstd::prelude::*;
use crate::strutil::str_eq;

verus! {

/// One configuration value.
pub enum ParamValue {
    Text(String),
    Int(i64),
    Flag(bool),
    List(Vec<ParamValue>),
}

impl ParamValue {
    /// The text of a `Text` value.
    pub fn as_text(&self) -> (r: Option<&String>)
        ensures
            match r {
                Some(s) => *self == ParamValue::Text(*s),
                None => !(self is Text),
            },
    {
        match self {
            ParamValue::Text(s) => Some(s),
            _ => None,
        }
    }

    /// The number of an `Int` value.
    pub fn as_int(&self) -> (r: Option<i64>)
        ensures
            match r {
                Some(v) => *self == ParamValue::Int(v),
                None => !(self is Int),
            },
    {
        match self {
            ParamValue::Int(v) => Some(*v),
            _ => None,
        }
    }

    /// The entries of a `List` value.
    pub fn as_list(&self) -> (r: Option<&Vec<ParamValue>>)
        ensures
            match r {
                Some(vs) => *self == ParamValue::List(*vs),
                None => !(self is List),
            },
    {
        match self {
            ParamValue::List(vs) => Some(vs),
            _ => None,
        }
    }
}

/// The value a key holds: the last entry with that key, so a later insert
/// overrides an earlier one.
pub open spec fn param_lookup(entries: Seq<(String, ParamValue)>, key: Seq<char>) -> Option<
    ParamValue,
>
    decreases entries.len(),
{
    if entries.len() == 0 {
        None
    } else if entries.last().0@ == key {
        Some(entries.last().1)
    } else {
        param_lookup(entries.drop_last(), key)
    }
}

/// Whether a map's entry at a position carries the given key and text.
pub open spec fn entry_is_text(
    entries: Seq<(String, ParamValue)>,
    j: int,
    key: Seq<char>,
    value: Seq<char>,
) -> bool {
    &&& entries[j].0@ == key
    &&& entries[j].1 matches ParamValue::Text(s) && s@ == value
}

/// Whether a map's entry at a position carries the given key and number.
pub open spec fn entry_is_int(
    entries: Seq<(String, ParamValue)>,
    j: int,
    key: Seq<char>,
    value: int,
) -> bool {
    &&& entries[j].0@ == key
    &&& entries[j].1 matches ParamValue::Int(i) && i == value
}

/// A flat key-value parameter map.
pub struct ParamMap {
    pub entries: Vec<(String, ParamValue)>,
}

impl ParamMap {
    /// An empty map.
    pub fn new() -> (r: ParamMap)
        ensures
            r.entries@ == Seq::<(String, ParamValue)>::empty(),
    {
        ParamMap { entries: Vec::new() }
    }

    /// Sets a key, overriding an earlier value for the same key.
    pub fn insert(&mut self, key: &str, value: ParamValue)
        ensures
            final(self).entries@.len() == old(self).entries@.len() + 1,
            final(self).entries@.last().0@ == key@,
            final(self).entries@.last().1 == value,
            final(self).entries@.drop_last() == old(self).entries@,
            param_lookup(final(self).entries@, key@) == Some(value),
    {
        self.entries.push((key.to_owned(), value));
        proof {
            assert(self.entries@.last().0@ == key@);
        }
    }

    /// The value a key holds, if any.
    pub fn get(&self, key: &str) -> (r: Option<&ParamValue>)
        ensures
            match r {
                Some(v) => param_lookup(self.entries@, key@) == Some(*v),
                None => param_lookup(self.entries@, key@) is None,
            },
    {
        let mut i: usize = self.entries.len();
        proof {
            assert(self.entries@.take(self.entries@.len() as int) =~= self.entries@);
        }
        while i > 0
            invariant
                i <= self.entries@.len(),
                param_lookup(self.entries@, key@) == param_lookup(
                    self.entries@.take(i as int),
                    key@,
                ),
            decreases i,
        {
            proof {
                assert(self.entries@.take(i as int).last() == self.entries@[i - 1]);
                assert(self.entries@.take(i as int).drop_last() =~= self.entries@.take(i - 1));
            }
            if str_eq(self.entries[i - 1].0.as_str(), key) {
                return Some(&self.entries[i - 1].1);
            }
            i = i - 1;
        }
        proof {
            assert(self.entries@.take(0) =~= Seq::<(String, ParamValue)>::empty());
        }
        None
    }

    /// The text a key holds, if the key is present and holds text.
    pub fn get_text(&self, key: &str) -> (r: Option<&String>)
        ensures
            match r {
                Some(s) => param_lookup(self.entries@, key@) == Some(ParamValue::Text(*s)),
                None => match param_lookup(self.entries@, key@) {
                    Some(v) => !(v is Text),
                    None => true,
                },
            },
    {
        match self.get(key) {
            Some(v) => v.as_text(),
            None => None,
        }
    }

    /// The number a key holds, if the key is present and holds a number.
    pub fn get_int(&self, key: &str) -> (r: Option<i64>)
        ensures
            match r {
                Some(n) => param_lookup(self.entries@, key@) == Some(ParamValue::Int(n)),
                None => match param_lookup(self.entries@, key@) {
                    Some(v) => !(v is Int),
                    None => true,
                },
            },
    {
        match self.get(key) {
            Some(v) => v.as_int(),
            None => None,
        }
    }
}

} // verus!
