use super::error::DbError;
use super::field::{Field, FieldValue};
use super::text::{decimal, push_decimal};
use crate::table::tuple::Tuple;
use vstd::prelude::*;

verus! {

/// The comparison operators a predicate can apply.
#[derive(PartialEq, Eq, Clone, Copy, Debug, Structural)]
pub enum Op {
    Equals,
    GreaterThan,
    LessThan,
    LessThanOrEq,
    GreaterThanOrEq,
    Like,
    NotEquals,
}

impl Op {
    /// The integer under which this operator is written into a stored plan.
    pub open spec fn code(self) -> int {
        match self {
            Op::Equals => 0,
            Op::GreaterThan => 1,
            Op::LessThan => 2,
            Op::LessThanOrEq => 3,
            Op::GreaterThanOrEq => 4,
            Op::Like => 5,
            Op::NotEquals => 6,
        }
    }

    /// The operator with the given code, if there is one.
    pub open spec fn from_code(i: int) -> Option<Op> {
        if i == 0 {
            Some(Op::Equals)
        } else if i == 1 {
            Some(Op::GreaterThan)
        } else if i == 2 {
            Some(Op::LessThan)
        } else if i == 3 {
            Some(Op::LessThanOrEq)
        } else if i == 4 {
            Some(Op::GreaterThanOrEq)
        } else if i == 5 {
            Some(Op::Like)
        } else if i == 6 {
            Some(Op::NotEquals)
        } else {
            None
        }
    }

    /// The symbol under which this operator is shown.
    pub open spec fn symbol(self) -> Seq<char> {
        match self {
            Op::Equals => seq!['='],
            Op::GreaterThan => seq!['>'],
            Op::LessThan => seq!['<'],
            Op::LessThanOrEq => seq!['<', '='],
            Op::GreaterThanOrEq => seq!['>', '='],
            Op::Like => seq!['L', 'I', 'K', 'E'],
            Op::NotEquals => seq!['<', '>'],
        }
    }

    /// Looks an operator up by its code.
    pub fn get_op(i: i32) -> (r: Option<Op>)
        ensures
            r == Op::from_code(i as int),
            r is Some <==> 0 <= i <= 6,
            r is Some ==> r->Some_0.code() == i,
    {
        match i {
            0 => Some(Self::Equals),
            1 => Some(Self::GreaterThan),
            2 => Some(Self::LessThan),
            3 => Some(Self::LessThanOrEq),
            4 => Some(Self::GreaterThanOrEq),
            5 => Some(Self::Like),
            6 => Some(Self::NotEquals),
            _ => None,
        }
    }

    /// The code of this operator.
    pub fn get_code(&self) -> (i: i32)
        ensures
            i == self.code(),
    {
        match self {
            Self::Equals => 0,
            Self::GreaterThan => 1,
            Self::LessThan => 2,
            Self::LessThanOrEq => 3,
            Self::GreaterThanOrEq => 4,
            Self::Like => 5,
            Self::NotEquals => 6,
        }
    }

    /// The display symbol of this operator.
    pub fn to_string(&self) -> (s: String)
        ensures
            s@ == self.symbol(),
    {
        proof {
            reveal_strlit("=");
            reveal_strlit(">");
            reveal_strlit("<");
            reveal_strlit("<=");
            reveal_strlit(">=");
            reveal_strlit("LIKE");
            reveal_strlit("<>");
        }
        let s = match self {
            Self::Equals => String::from_str("="),
            Self::GreaterThan => String::from_str(">"),
            Self::LessThan => String::from_str("<"),
            Self::LessThanOrEq => String::from_str("<="),
            Self::GreaterThanOrEq => String::from_str(">="),
            Self::Like => String::from_str("LIKE"),
            Self::NotEquals => String::from_str("<>"),
        };
        assert(s@ =~= self.symbol());
        s
    }

    /// Codes and operators correspond one to one: every operator is
    /// found again under its own code, and a code that names an operator
    /// is the code of that operator and lies between 0 and 6.
    pub proof fn lemma_code_bijection(op: Op, i: int)
        ensures
            Op::from_code(op.code()) == Some(op),
            0 <= op.code() <= 6,
            Op::from_code(i) is Some <==> 0 <= i <= 6,
            Op::from_code(i) == Some(op) <==> op.code() == i,
    {
    }
}

/// What a predicate is: the place of the column it reads, the operator,
/// and the value it compares with.
pub struct PredicateValue {
    pub field: int,
    pub op: Op,
    pub operand: FieldValue,
}

impl PredicateValue {
    /// The predicate can be put to the values of a row: the row has a
    /// value at the predicate's place, of the variant of the operand.
    pub open spec fn applies(self, fields: Seq<FieldValue>) -> bool {
        &&& 0 <= self.field < fields.len()
        &&& fields[self.field].ty() == self.operand.ty()
    }

    /// What the predicate says of the values of a row to which it
    /// applies: whether the value at its place stands in its relation to
    /// the operand.
    pub open spec fn accepts(self, fields: Seq<FieldValue>) -> bool
        recommends
            self.applies(fields),
    {
        fields[self.field].holds(self.op, self.operand)
    }

    /// The text under which a predicate is shown.
    pub open spec fn shown(self) -> Seq<char> {
        seq!['f', ' ', '=', ' '] + decimal(self.field) + seq![' ', 'o', 'p', ' ', '=', ' ']
            + self.op.symbol() + seq![' ', 'o', 'p', 'e', 'r', 'a', 'n', 'd', ' ', '=', ' ']
            + self.operand.shown()
    }
}

/// A test of one column of a row against a fixed value.
#[derive(Debug)]
pub struct Predicate {
    /// The place, in the rows put to the test, of the column to compare.
    field: i32,
    /// The relation to test.
    op: Op,
    /// The value to compare the column with.
    operand: Field,
}

impl View for Predicate {
    type V = PredicateValue;

    closed spec fn view(&self) -> PredicateValue {
        PredicateValue { field: self.field as int, op: self.op, operand: self.operand@ }
    }
}

impl Predicate {
    pub fn new(field: i32, op: Op, operand: Field) -> (r: Self)
        ensures
            r@ == (PredicateValue { field: field as int, op, operand: operand@ }),
    {
        Self { field, op, operand }
    }

    pub fn get_operand(&self) -> (r: Option<&Field>)
        ensures
            r is Some,
            r->Some_0@ == self@.operand,
    {
        Some(&self.operand)
    }

    pub fn get_field(&self) -> (i: i32)
        ensures
            i == self@.field,
    {
        self.field
    }

    pub fn get_op(&self) -> (r: Option<Op>)
        ensures
            r == Some(self@.op),
    {
        Some(self.op)
    }

    /// Puts the row to the test. A row that has no value at the
    /// predicate's place, or one of another variant than the operand, is
    /// refused.
    pub fn filter(&self, t: Tuple) -> (r: Result<bool, DbError>)
        ensures
            r is Ok <==> self@.applies(t@.fields),
            r is Ok ==> r->Ok_0 == self@.accepts(t@.fields),
            r is Err ==> r->Err_0 == DbError::TypeMismatch,
    {
        if self.field < 0 {
            return Err(DbError::TypeMismatch);
        }
        match t.get_field(self.field as usize) {
            Some(f) => f.compare(self.op, &self.operand),
            None => Err(DbError::TypeMismatch),
        }
    }

    /// The predicate as it is shown: the place of its column, its
    /// operator and its operand.
    pub fn to_string(&self) -> (s: String)
        ensures
            s@ == self@.shown(),
    {
        proof {
            reveal_strlit("f = ");
            reveal_strlit(" op = ");
            reveal_strlit(" operand = ");
        }
        let mut s = String::from_str("f = ");
        push_decimal(&mut s, self.field);
        s.append(" op = ");
        s.append(self.op.to_string().as_str());
        s.append(" operand = ");
        s.append(self.operand.to_string().as_str());
        assert(s@ =~= self@.shown());
        s
    }
}

} // verus!
