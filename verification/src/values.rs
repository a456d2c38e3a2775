//! Query values, as far as the index node reads them.

use vstd::prelude::*;

verus! {

/// A value of a query or of its result.
#[derive(Debug, PartialEq, Eq)]
pub enum Value {
    /// A variable, by its name.
    Variable(String),
    /// A whole number.
    Int(i64),
    /// A floating-point number, by the bits that encode it.
    Float(u64),
    /// A string.
    String(String),
    /// A truth value.
    Boolean(bool),
    /// No value.
    Null,
    /// A name of an enumeration.
    Enum(String),
    /// A list of values.
    List(Vec<Value>),
    /// The fields of an object: names with their values. Where a name
    /// occurs twice, the first occurrence counts.
    Object(Vec<(String, Value)>),
}

/// The value under `key` in `entries`: that of the first entry with this
/// name.
pub open spec fn lookup(entries: Seq<(String, Value)>, key: Seq<char>) -> Option<Value>
    decreases entries.len(),
{
    if entries.len() == 0 {
        None
    } else if entries[0].0@ == key {
        Some(entries[0].1)
    } else {
        lookup(entries.skip(1), key)
    }
}

impl Value {
    /// The field `key` of an object; `None` for a missing field and for
    /// anything that is not an object.
    pub open spec fn field(self, key: Seq<char>) -> Option<Value> {
        match self {
            Value::Object(entries) => lookup(entries@, key),
            _ => None,
        }
    }

    /// The items of a list; `None` for anything that is not a list.
    pub open spec fn items(self) -> Option<Seq<Value>> {
        match self {
            Value::List(values) => Some(values@),
            _ => None,
        }
    }

    /// The field `key` of an object; `None` for a missing field and for
    /// anything that is not an object.
    pub fn get(&self, key: &str) -> (value: Option<&Value>)
        ensures
            self.field(key@) == match value {
                Some(found) => Some(*found),
                None => None,
            },
    {
        match self {
            Value::Object(entries) => {
                let wanted = key.to_owned();
                let mut i: usize = 0;
                assert(entries@.skip(0) == entries@);
                while i < entries.len()
                    invariant
                        i <= entries.len(),
                        self.field(key@) == lookup(entries@, key@),
                        wanted@ == key@,
                        lookup(entries@, key@) == lookup(entries@.skip(i as int), key@),
                    decreases entries.len() - i,
                {
                    assert(entries@.skip(i as int)[0] == entries@[i as int]);
                    assert(entries@.skip(i as int).skip(1) == entries@.skip(i + 1));
                    if entries[i].0 == wanted {
                        return Some(&entries[i].1);
                    }
                    i += 1;
                }
                None
            },
            _ => None,
        }
    }

    /// Takes the field `key` out of an object; `None` for a missing field
    /// and for anything that is not an object.
    pub fn take(self, key: &str) -> (value: Option<Value>)
        ensures
            value == self.field(key@),
    {
        match self {
            Value::Object(entries) => {
                let mut entries = entries;
                let wanted = key.to_owned();
                let mut i: usize = 0;
                assert(entries@.skip(0) == entries@);
                while i < entries.len()
                    invariant
                        i <= entries.len(),
                        wanted@ == key@,
                        self.field(key@) == lookup(entries@, key@),
                        lookup(entries@, key@) == lookup(entries@.skip(i as int), key@),
                    decreases entries.len() - i,
                {
                    assert(entries@.skip(i as int)[0] == entries@[i as int]);
                    assert(entries@.skip(i as int).skip(1) == entries@.skip(i + 1));
                    if entries[i].0 == wanted {
                        let entry = entries.swap_remove(i);
                        return Some(entry.1);
                    }
                    i += 1;
                }
                None
            },
            _ => None,
        }
    }

    /// The items of a list; `None` for anything that is not a list.
    pub fn values(&self) -> (values: Option<&Vec<Value>>)
        ensures
            self.items() == match values {
                Some(list) => Some(list@),
                None => None,
            },
    {
        match self {
            Value::List(values) => Some(values),
            _ => None,
        }
    }
}

} // verus!
