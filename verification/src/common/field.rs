use super::error::DbError;
use super::int_field::{lemma_int_order, IntField};
use super::predicate::Op;
use super::string_field::{lemma_string_order, StringField, StringValue};
use super::text::decimal;
use super::ty::Type;
use vstd::prelude::*;

verus! {

/// What a column value is: a number, or a text with its capacity.
pub enum FieldValue {
    Int(i32),
    Str(StringValue),
}

impl FieldValue {
    /// The type of column that takes this value.
    pub open spec fn ty(self) -> Type {
        match self {
            FieldValue::Int(_) => Type::Int,
            FieldValue::Str(_) => Type::Str,
        }
    }

    /// A text fits its capacity; a number always does.
    pub open spec fn fits(self) -> bool {
        match self {
            FieldValue::Int(_) => true,
            FieldValue::Str(s) => s.fits(),
        }
    }

    /// The relation `op` between two values of the same variant. Values of
    /// different variants stand in no relation.
    pub open spec fn holds(self, op: Op, other: FieldValue) -> bool {
        match (self, other) {
            (FieldValue::Int(a), FieldValue::Int(b)) => (IntField { value: a }).holds(
                op,
                IntField { value: b },
            ),
            (FieldValue::Str(a), FieldValue::Str(b)) => a.holds(op, b),
            _ => false,
        }
    }

    /// The stored form of the value.
    pub open spec fn wire(self) -> Seq<u8> {
        match self {
            FieldValue::Int(a) => (IntField { value: a }).wire(),
            FieldValue::Str(s) => s.wire(),
        }
    }

    /// The number of bytes in the stored form: four for a number, the
    /// capacity and four for a text.
    pub open spec fn wire_len(self) -> nat {
        match self {
            FieldValue::Int(_) => 4,
            FieldValue::Str(s) => s.capacity + 4,
        }
    }

    /// The text under which the value is shown.
    pub open spec fn shown(self) -> Seq<char> {
        match self {
            FieldValue::Int(a) => decimal(a as int),
            FieldValue::Str(s) => s.text,
        }
    }

    /// The hash of the value.
    pub open spec fn digest(self) -> u64 {
        match self {
            FieldValue::Int(a) => (IntField { value: a }).digest(),
            FieldValue::Str(s) => s.digest(),
        }
    }

    /// Two values are equal where they are of one variant and hold the
    /// same number or the same text.
    pub open spec fn same(self, other: FieldValue) -> bool {
        match (self, other) {
            (FieldValue::Int(a), FieldValue::Int(b)) => a == b,
            (FieldValue::Str(a), FieldValue::Str(b)) => a.text == b.text,
            _ => false,
        }
    }
}

/// Of two values of one variant exactly one of `LessThan`, `Equals` and
/// `GreaterThan` holds, `NotEquals` is the negation of `Equals`, and each
/// of the two `OrEq` relations is the strict one or `Equals`. Between
/// numbers `Like` is `Equals`.
pub proof fn lemma_field_order(a: FieldValue, b: FieldValue)
    requires
        a.ty() == b.ty(),
    ensures
        a.holds(Op::LessThan, b) || a.holds(Op::Equals, b) || a.holds(Op::GreaterThan, b),
        !(a.holds(Op::LessThan, b) && a.holds(Op::Equals, b)),
        !(a.holds(Op::LessThan, b) && a.holds(Op::GreaterThan, b)),
        !(a.holds(Op::Equals, b) && a.holds(Op::GreaterThan, b)),
        a.holds(Op::GreaterThanOrEq, b) == (a.holds(Op::GreaterThan, b) || a.holds(Op::Equals, b)),
        a.holds(Op::LessThanOrEq, b) == (a.holds(Op::LessThan, b) || a.holds(Op::Equals, b)),
        a.holds(Op::NotEquals, b) == !a.holds(Op::Equals, b),
        a.holds(Op::Equals, b) == a.same(b),
        a is Int ==> a.holds(Op::Like, b) == a.holds(Op::Equals, b),
{
    match (a, b) {
        (FieldValue::Int(x), FieldValue::Int(y)) => {
            lemma_int_order(IntField { value: x }, IntField { value: y });
        },
        (FieldValue::Str(x), FieldValue::Str(y)) => {
            lemma_string_order(x, y);
        },
        _ => {},
    }
}

/// Equal values have equal hashes.
pub proof fn lemma_field_digest(a: FieldValue, b: FieldValue)
    requires
        a.same(b),
    ensures
        a.digest() == b.digest(),
{
}

/// A column value of either variant.
#[derive(Debug)]
pub enum Field {
    Int(IntField),
    Str(StringField),
}

impl View for Field {
    type V = FieldValue;

    open spec fn view(&self) -> FieldValue {
        match self {
            Field::Int(f) => FieldValue::Int(f@),
            Field::Str(f) => FieldValue::Str(f@),
        }
    }
}

impl Field {
    /// The stored form of this value. Its length does not depend on the
    /// number or on the length of the text.
    pub fn serialize(&self) -> (out: Vec<u8>)
        ensures
            out@ == self@.wire(),
            out@.len() == self@.wire_len(),
    {
        match self {
            Field::Int(f) => f.serialize(),
            Field::Str(f) => f.serialize(),
        }
    }

    /// Tests the relation `op` between this value and `other`. Values of
    /// different variants cannot be compared.
    pub fn compare(&self, op: Op, other: &Field) -> (r: Result<bool, DbError>)
        ensures
            r is Ok <==> self@.ty() == other@.ty(),
            r is Ok ==> r->Ok_0 == self@.holds(op, other@),
            r is Err ==> r->Err_0 == DbError::TypeMismatch,
    {
        match (self, other) {
            (Field::Int(a), Field::Int(b)) => Ok(a.compare(op, b)),
            (Field::Str(a), Field::Str(b)) => Ok(a.compare(op, b)),
            _ => Err(DbError::TypeMismatch),
        }
    }

    /// The type of column that takes this value.
    pub fn get_type(&self) -> (t: Type)
        ensures
            t == self@.ty(),
    {
        match self {
            Field::Int(f) => f.get_type(),
            Field::Str(f) => f.get_type(),
        }
    }

    /// A hash of the value: the same for equal values.
    pub fn hash_code(&self) -> (h: u64)
        ensures
            h == self@.digest(),
    {
        match self {
            Field::Int(f) => f.hash_code(),
            Field::Str(f) => f.hash_code(),
        }
    }

    /// Tests whether the two values are of one variant and hold the same
    /// number or text.
    pub fn equals(&self, other: &Field) -> (r: bool)
        ensures
            r == self@.same(other@),
    {
        match (self, other) {
            (Field::Int(a), Field::Int(b)) => a.equals(b),
            (Field::Str(a), Field::Str(b)) => a.equals(b),
            _ => false,
        }
    }

    /// The value as it is shown: a number in decimal, a text as it is.
    pub fn to_string(&self) -> (s: String)
        ensures
            s@ == self@.shown(),
    {
        match self {
            Field::Int(f) => f.to_string(),
            Field::Str(f) => f.to_string(),
        }
    }
}

} // verus!
