use crate::common::field::{Field, FieldValue};
use crate::common::int_field::IntField;
use crate::common::string_field::StringField;
use vstd::prelude::*;

verus! {

/// Recovery of the concrete variant behind a column value. To ask for the
/// variant that the value is not gives `None`.
pub trait Downcast {
    /// What the value is.
    spec fn value(&self) -> FieldValue;

    /// The integer value behind `self`, where it is one.
    fn as_int_field(&self) -> (r: Option<&IntField>)
        ensures
            r is Some <==> self.value() is Int,
            r is Some ==> FieldValue::Int(r->Some_0@) == self.value(),
    ;

    /// The string value behind `self`, where it is one.
    fn as_string_field(&self) -> (r: Option<&StringField>)
        ensures
            r is Some <==> self.value() is Str,
            r is Some ==> FieldValue::Str(r->Some_0@) == self.value(),
    ;
}

impl Downcast for Field {
    open spec fn value(&self) -> FieldValue {
        self@
    }

    fn as_int_field(&self) -> (r: Option<&IntField>) {
        match self {
            Field::Int(f) => Some(f),
            Field::Str(_) => None,
        }
    }

    fn as_string_field(&self) -> (r: Option<&StringField>) {
        match self {
            Field::Int(_) => None,
            Field::Str(f) => Some(f),
        }
    }
}

impl Downcast for IntField {
    open spec fn value(&self) -> FieldValue {
        FieldValue::Int(self@)
    }

    fn as_int_field(&self) -> (r: Option<&IntField>) {
        Some(self)
    }

    fn as_string_field(&self) -> (r: Option<&StringField>) {
        None
    }
}

impl Downcast for StringField {
    open spec fn value(&self) -> FieldValue {
        FieldValue::Str(self@)
    }

    fn as_int_field(&self) -> (r: Option<&IntField>) {
        None
    }

    fn as_string_field(&self) -> (r: Option<&StringField>) {
        Some(self)
    }
}

} // verus!
