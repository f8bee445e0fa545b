use super::predicate::Op;
use super::text::{decimal, push_decimal};
use super::ty::Type;
use super::wire::{be_bytes, be_value, lemma_be_value_of_bytes, put_i32};
use std::collections::hash_map::DefaultHasher;
use std::hash::Hasher;
use vstd::prelude::*;
use vstd::std_specs::hash::DefaultHasherAdditionalSpecFns;

verus! {

/// A column value that holds one 32-bit signed integer.
#[derive(PartialEq, Eq, Debug, Clone, Copy, Structural)]
pub struct IntField {
    pub value: i32,
}

impl View for IntField {
    type V = i32;

    open spec fn view(&self) -> i32 {
        self.value
    }
}

impl IntField {
    /// What `compare` answers: the named relation between the two numbers.
    /// `Like` on numbers is equality.
    pub open spec fn holds(self, op: Op, other: IntField) -> bool {
        match op {
            Op::Equals => self@ == other@,
            Op::GreaterThan => self@ > other@,
            Op::GreaterThanOrEq => self@ >= other@,
            Op::LessThan => self@ < other@,
            Op::LessThanOrEq => self@ <= other@,
            Op::Like => self@ == other@,
            Op::NotEquals => self@ != other@,
        }
    }

    /// The stored form of this value: four bytes, most significant first.
    pub open spec fn wire(self) -> Seq<u8> {
        be_bytes(self@ as int)
    }

    /// What `hash_code` answers: the standard hasher's digest of the
    /// stored form.
    pub open spec fn digest(self) -> u64 {
        DefaultHasher::spec_finish(seq![self.wire()])
    }

    pub fn new(value: i32) -> (r: Self)
        ensures
            r@ == value,
    {
        Self { value }
    }

    pub fn get_value(&self) -> (v: i32)
        ensures
            v == self@,
    {
        self.value
    }

    /// The stored form of this value.
    pub fn serialize(&self) -> (out: Vec<u8>)
        ensures
            out@ == self.wire(),
            out@.len() == Type::Int.byte_len(),
            be_value(out@) == self@,
    {
        proof {
            lemma_be_value_of_bytes(self@);
        }
        let mut out: Vec<u8> = Vec::new();
        put_i32(&mut out, self.value);
        assert(out@ =~= self.wire());
        out
    }

    /// Tests the relation `op` between this value and `other`.
    pub fn compare(&self, op: Op, other: &Self) -> (r: bool)
        ensures
            r == self.holds(op, *other),
    {
        match op {
            Op::Equals => self.value == other.value,
            Op::GreaterThan => self.value > other.value,
            Op::GreaterThanOrEq => self.value >= other.value,
            Op::LessThan => self.value < other.value,
            Op::LessThanOrEq => self.value <= other.value,
            Op::Like => self.value == other.value,
            Op::NotEquals => self.value != other.value,
        }
    }

    pub fn equals(&self, other: &Self) -> (r: bool)
        ensures
            r == (self@ == other@),
    {
        self.value == other.value
    }

    pub fn get_type(&self) -> (t: Type)
        ensures
            t == Type::Int,
    {
        Type::Int
    }

    /// The number in decimal notation.
    pub fn to_string(&self) -> (s: String)
        ensures
            s@ == decimal(self@ as int),
    {
        let mut s = String::new();
        push_decimal(&mut s, self.value);
        assert(s@ =~= decimal(self@ as int));
        s
    }

    /// A hash of the number: the same for equal numbers.
    pub fn hash_code(&self) -> (h: u64)
        ensures
            h == self.digest(),
    {
        let mut s = DefaultHasher::new();
        let bytes = self.serialize();
        s.write(bytes.as_slice());
        assert(s@ =~= seq![self.wire()]);
        s.finish()
    }
}

/// Of two numbers exactly one of `LessThan`, `Equals` and `GreaterThan`
/// holds, and the other relations are made of these three: `Like` is
/// `Equals`, `NotEquals` is its negation, and each of the two `OrEq`
/// relations is the strict one or `Equals`.
pub proof fn lemma_int_order(a: IntField, b: IntField)
    ensures
        a.holds(Op::LessThan, b) || a.holds(Op::Equals, b) || a.holds(Op::GreaterThan, b),
        !(a.holds(Op::LessThan, b) && a.holds(Op::Equals, b)),
        !(a.holds(Op::LessThan, b) && a.holds(Op::GreaterThan, b)),
        !(a.holds(Op::Equals, b) && a.holds(Op::GreaterThan, b)),
        a.holds(Op::GreaterThanOrEq, b) == (a.holds(Op::GreaterThan, b) || a.holds(Op::Equals, b)),
        a.holds(Op::LessThanOrEq, b) == (a.holds(Op::LessThan, b) || a.holds(Op::Equals, b)),
        a.holds(Op::NotEquals, b) == !a.holds(Op::Equals, b),
        a.holds(Op::Like, b) == a.holds(Op::Equals, b),
{
}

/// A number that was stored is read back as itself: its stored form has
/// four bytes, and they stand for that number.
pub proof fn lemma_int_round_trip(a: IntField)
    ensures
        a.wire().len() == 4,
        be_value(a.wire()) == a@,
{
    lemma_be_value_of_bytes(a@);
}

/// Equal numbers have equal hashes.
pub proof fn lemma_int_digest(a: IntField, b: IntField)
    requires
        a@ == b@,
    ensures
        a.digest() == b.digest(),
{
}

} // verus!
