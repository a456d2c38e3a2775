//! A configuration property that is decided at most once.

use vstd::prelude::*;

verus! {

/// What is known of one property of a retry configuration.
#[derive(Debug, PartialEq, Eq)]
pub enum RetryConfigProperty<V> {
    /// Property was explicitly set
    Value(V),
    /// Property was explicitly unset
    Clear,
    /// Property was not explicitly set or unset
    Unknown,
}

impl<V> RetryConfigProperty<V> {
    /// The property has been set or cleared. A decided property accepts
    /// neither `set` nor `clear`.
    pub open spec fn decided(&self) -> bool {
        !(self is Unknown)
    }

    /// The value that `unwrap` gives for this property.
    pub open spec fn value(&self) -> Option<V> {
        match *self {
            RetryConfigProperty::Value(v) => Some(v),
            RetryConfigProperty::Clear => None,
            RetryConfigProperty::Unknown => None,
        }
    }

    /// Whether the property has been set or cleared.
    pub fn is_decided(&self) -> (decided: bool)
        ensures
            decided == self.decided(),
    {
        match self {
            RetryConfigProperty::Unknown => false,
            _ => true,
        }
    }

    /// Sets the property, which must not have been decided before.
    pub fn set(&mut self, v: V)
        requires
            !old(self).decided(),
        ensures
            *final(self) == RetryConfigProperty::Value(v),
    {
        *self = RetryConfigProperty::Value(v);
    }

    /// Clears the property, which must not have been decided before.
    pub fn clear(&mut self)
        requires
            !old(self).decided(),
        ensures
            *final(self) == RetryConfigProperty::<V>::Clear,
    {
        *self = RetryConfigProperty::Clear;
    }

    /// The value of a decided property: `Some` where it was set, `None`
    /// where it was cleared.
    pub fn unwrap(self) -> (value: Option<V>)
        requires
            self.decided(),
        ensures
            value == self.value(),
            value is Some <==> self is Value,
    {
        match self {
            RetryConfigProperty::Value(v) => Some(v),
            _ => None,
        }
    }
}

/// Deciding is final: once a property has been set or cleared, whatever the
/// value, it is decided, so that no second `set` or `clear` is accepted,
/// whether or not it agrees with the first.
pub proof fn lemma_decided_once<V>(property: RetryConfigProperty<V>)
    requires
        property is Value || property is Clear,
    ensures
        property.decided(),
{
}

} // verus!
