//! Change-tracking record values: the tri-state field wrapper and the
//! conversion of a loaded record into its active form.

use vstd::prelude::*;

use crate::query::Value;

verus! {

/// A tri-state wrapper for one field of an active record.
///
/// Lifecycle: converting a freshly loaded record initializes every field
/// `Unchanged`; explicit mutation moves a field to `Assigned`; clearing moves
/// it to `NotSet`, excluding it from any write.
pub enum ActiveModelValue<T> {
    /// A new pending value.
    Assigned(T),
    /// The loaded value; no write needed.
    Unchanged(T),
    /// No value; excluded from any write.
    NotSet,
}

impl<T> ActiveModelValue<T> {
    /// The value held, if any.
    pub fn get(&self) -> (r: Option<&T>)
        ensures
            match self {
                ActiveModelValue::Assigned(e) => r == Some(e),
                ActiveModelValue::Unchanged(e) => r == Some(e),
                ActiveModelValue::NotSet => r is None,
            },
    {
        match self {
            ActiveModelValue::Assigned(e) => Some(e),
            ActiveModelValue::Unchanged(e) => Some(e),
            ActiveModelValue::NotSet => None,
        }
    }

    /// Store a new pending value.
    pub fn set(&mut self, value: T)
        ensures
            *final(self) == ActiveModelValue::Assigned(value),
    {
        *self = ActiveModelValue::Assigned(value);
    }

    /// Exclude this field from any write.
    pub fn clear(&mut self)
        ensures
            *final(self) == ActiveModelValue::<T>::NotSet,
    {
        *self = ActiveModelValue::NotSet;
    }

    /// Mark a pending value as loaded: an `Assigned` value becomes `Unchanged`;
    /// the other states are left as they are.
    pub fn mark_unchanged(&mut self)
        ensures
            *old(self) matches ActiveModelValue::Assigned(e) ==> *final(self)
                == ActiveModelValue::Unchanged(e),
            !(*old(self) matches ActiveModelValue::Assigned(_)) ==> *final(self) == *old(self),
    {
        let mut taken = ActiveModelValue::NotSet;
        core::mem::swap(self, &mut taken);
        match taken {
            ActiveModelValue::Assigned(e) => {
                *self = ActiveModelValue::Unchanged(e);
            },
            other => {
                *self = other;
            },
        }
    }
}

/// Convert a freshly loaded record — its field values in column order — to
/// active form: every field comes out `Unchanged`, holding the loaded value.
pub fn into_active(values: Vec<Value>) -> (r: Vec<ActiveModelValue<Value>>)
    ensures
        r@.len() == values@.len(),
        forall|i: int|
            0 <= i < r@.len() ==> r@[i] == ActiveModelValue::Unchanged(values@[i]),
{
    let mut out: Vec<ActiveModelValue<Value>> = Vec::new();
    let mut i: usize = 0;
    while i < values.len()
        invariant
            i <= values.len(),
            out@.len() == i,
            forall|k: int| 0 <= k < i ==> out@[k] == ActiveModelValue::Unchanged(values@[k]),
        decreases values.len() - i,
    {
        out.push(ActiveModelValue::Unchanged(values[i].clone()));
        i = i + 1;
    }
    out
}

} // verus!
