use super::error::DbError;
use super::int_field::IntField;
use super::string_field::{is_wire, wire_text, StringField, StringValue};
use super::wire::{be_value, get_i32};
use vstd::prelude::*;

verus! {

/// The capacity, in bytes, of a string column.
pub const STRING_LEN: usize = 128;

/// The type of a column.
#[derive(PartialEq, Eq, Copy, Clone, Debug, Structural)]
pub enum Type {
    Int,
    Str,
}

impl Type {
    /// The number of bytes that a value of this type takes when stored:
    /// four for an integer, the string capacity and a four-byte length
    /// prefix for a string.
    pub open spec fn byte_len(self) -> int {
        match self {
            Type::Int => 4,
            Type::Str => STRING_LEN + 4,
        }
    }

    /// The name under which this type is shown.
    pub open spec fn name(self) -> Seq<char> {
        match self {
            Type::Int => seq!['I', 'n', 't'],
            Type::Str => seq!['S', 't', 'r'],
        }
    }

    /// The number of bytes that a value of this type takes when stored.
    pub fn len(&self) -> (n: i32)
        ensures
            n == self.byte_len(),
    {
        match self {
            Self::Int => 4,
            Self::Str => 132,
        }
    }

    /// The name of this type.
    pub fn to_string(&self) -> (s: String)
        ensures
            s@ == self.name(),
    {
        proof {
            reveal_strlit("Int");
            reveal_strlit("Str");
        }
        let s = match self {
            Self::Int => String::from_str("Int"),
            Self::Str => String::from_str("Str"),
        };
        assert(s@ =~= self.name());
        s
    }

    /// Reads an integer value from its stored form: exactly four bytes,
    /// most significant first. Any other number of bytes is refused.
    pub fn parse_int(bytes: &[u8]) -> (r: Result<IntField, DbError>)
        ensures
            r is Ok <==> bytes@.len() == 4,
            r is Ok ==> r->Ok_0@ == be_value(bytes@),
            r is Err ==> r->Err_0 == DbError::DecodeError,
    {
        if bytes.len() != 4 {
            return Err(DbError::DecodeError);
        }
        assert(bytes@.subrange(0, 4) =~= bytes@);
        Ok(IntField::new(get_i32(bytes, 0)))
    }

    /// Reads a string value of the standard capacity from its stored form.
    /// Bytes that are not the stored form of such a value are refused.
    pub fn parse_str(bytes: &[u8]) -> (r: Result<StringField, DbError>)
        ensures
            r is Ok <==> is_wire(bytes@, STRING_LEN as nat),
            r is Ok ==> r->Ok_0@ == (StringValue {
                text: wire_text(bytes@),
                capacity: STRING_LEN as nat,
            }),
            r is Err ==> r->Err_0 == DbError::DecodeError,
    {
        StringField::parse(bytes, STRING_LEN)
    }
}

} // verus!
