use super::error::DbError;
use super::fit::{byte_len, is_longest_fit, lemma_cut_at_boundary, lemma_fit_whole};
use super::predicate::Op;
use super::text::{
    chars_of, contains_text, lemma_lex_trichotomy, lex_less, lex_lt, text_contains,
};
use super::ty::Type;
use super::wire::{be_bytes, be_value, get_i32, lemma_be_bytes_of_value, lemma_be_value_of_bytes, put_i32, zeros};
use std::collections::hash_map::DefaultHasher;
use std::hash::Hasher;
use vstd::prelude::*;
use vstd::slice::slice_subrange;
use vstd::std_specs::hash::DefaultHasherAdditionalSpecFns;
use vstd::utf8::*;

verus! {

/// The largest capacity a string value can have: its length is stored in
/// a four-byte signed prefix.
pub const MAX_CAPACITY: usize = 0x7fff_ffff;

/// What a string value is: its text, and the number of bytes set aside
/// for it when stored.
pub struct StringValue {
    pub text: Seq<char>,
    pub capacity: nat,
}

impl StringValue {
    /// The text takes no more bytes than the capacity, and the capacity
    /// can be written in the length prefix.
    pub open spec fn fits(self) -> bool {
        byte_len(self.text) <= self.capacity <= MAX_CAPACITY
    }

    /// The stored form: the length of the text in bytes as a four-byte
    /// prefix, the text in UTF-8, and zero bytes up to the capacity.
    pub open spec fn wire(self) -> Seq<u8> {
        be_bytes(byte_len(self.text) as int) + encode_utf8(self.text) + zeros(
            (self.capacity - byte_len(self.text)) as nat,
        )
    }

    /// What `compare` answers: the named relation between the two texts,
    /// in dictionary order. `Like` holds where the other text occurs in
    /// this one.
    pub open spec fn holds(self, op: Op, other: StringValue) -> bool {
        match op {
            Op::Equals => self.text == other.text,
            Op::GreaterThan => lex_lt(other.text, self.text),
            Op::GreaterThanOrEq => lex_lt(other.text, self.text) || self.text == other.text,
            Op::LessThan => lex_lt(self.text, other.text),
            Op::LessThanOrEq => lex_lt(self.text, other.text) || self.text == other.text,
            Op::Like => contains_text(self.text, other.text),
            Op::NotEquals => self.text != other.text,
        }
    }

    /// What `hash_code` answers: the standard hasher's digest of the text
    /// in UTF-8.
    pub open spec fn digest(self) -> u64 {
        DefaultHasher::spec_finish(seq![encode_utf8(self.text)])
    }
}

/// The length that the prefix of a stored string announces.
pub open spec fn wire_len(b: Seq<u8>) -> int {
    be_value(b.subrange(0, 4))
}

/// `b` is the stored form of a string value of capacity `cap`: it has the
/// four prefix bytes and `cap` more, the prefix announces a length within
/// the capacity, that many bytes are well-formed UTF-8, and all that
/// follow are zero.
pub open spec fn is_wire(b: Seq<u8>, cap: nat) -> bool {
    &&& b.len() == cap + 4
    &&& 0 <= wire_len(b) <= cap
    &&& valid_utf8(b.subrange(4, 4 + wire_len(b)))
    &&& forall|i: int| 4 + wire_len(b) <= i < b.len() ==> b[i] == 0
}

/// The text that a stored string holds.
pub open spec fn wire_text(b: Seq<u8>) -> Seq<char> {
    decode_utf8(b.subrange(4, 4 + wire_len(b)))
}

/// A stored string value, read back, is the value that was stored.
pub proof fn lemma_wire_round_trip(v: StringValue)
    requires
        v.fits(),
    ensures
        v.wire().len() == v.capacity + 4,
        is_wire(v.wire(), v.capacity),
        wire_text(v.wire()) == v.text,
{
    broadcast use encode_utf8_valid_utf8, encode_utf8_decode_utf8;

    let n = byte_len(v.text) as int;
    let b = v.wire();
    lemma_be_value_of_bytes(n as i32);
    assert(b.subrange(0, 4) =~= be_bytes(n));
    assert(b.subrange(4, 4 + n) =~= encode_utf8(v.text));
}

/// Bytes that are the stored form of a string are what storing the text
/// they hold gives: no two byte strings stand for the same value.
pub proof fn lemma_wire_of_text(b: Seq<u8>, cap: nat)
    requires
        is_wire(b, cap),
        cap <= MAX_CAPACITY,
    ensures
        (StringValue { text: wire_text(b), capacity: cap }).fits(),
        (StringValue { text: wire_text(b), capacity: cap }).wire() == b,
{
    broadcast use decode_utf8_encode_utf8;

    let n = wire_len(b);
    let v = StringValue { text: wire_text(b), capacity: cap };
    assert(encode_utf8(v.text) == b.subrange(4, 4 + n));
    lemma_be_bytes_of_value(b.subrange(0, 4));
    assert(v.wire() =~= b);
}

/// Of two texts exactly one of `LessThan`, `Equals` and `GreaterThan`
/// holds, and the other ordering relations are made of these three:
/// `NotEquals` is the negation of `Equals`, and each of the two `OrEq`
/// relations is the strict one or `Equals`.
pub proof fn lemma_string_order(a: StringValue, b: StringValue)
    ensures
        a.holds(Op::LessThan, b) || a.holds(Op::Equals, b) || a.holds(Op::GreaterThan, b),
        !(a.holds(Op::LessThan, b) && a.holds(Op::Equals, b)),
        !(a.holds(Op::LessThan, b) && a.holds(Op::GreaterThan, b)),
        !(a.holds(Op::Equals, b) && a.holds(Op::GreaterThan, b)),
        a.holds(Op::GreaterThanOrEq, b) == (a.holds(Op::GreaterThan, b) || a.holds(Op::Equals, b)),
        a.holds(Op::LessThanOrEq, b) == (a.holds(Op::LessThan, b) || a.holds(Op::Equals, b)),
        a.holds(Op::NotEquals, b) == !a.holds(Op::Equals, b),
{
    lemma_lex_trichotomy(a.text, b.text);
}

/// Equal texts have equal hashes, whatever their capacities.
pub proof fn lemma_string_digest(a: StringValue, b: StringValue)
    requires
        a.text == b.text,
    ensures
        a.digest() == b.digest(),
{
}

/// A column value that holds a text of bounded length.
#[derive(Debug)]
pub struct StringField {
    value: String,
    max_size: usize,
}

impl View for StringField {
    type V = StringValue;

    closed spec fn view(&self) -> StringValue {
        StringValue { text: self.value@, capacity: self.max_size as nat }
    }
}

/// `std::str::from_utf8`: the bytes are taken as a text exactly where they
/// are well-formed UTF-8, and the text is then the one they encode.
#[verifier::external_body]
fn utf8_text(bytes: &[u8]) -> (r: Option<&str>)
    ensures
        r is Some <==> valid_utf8(bytes@),
        r is Some ==> r->Some_0@ == decode_utf8(bytes@),
{
    match std::str::from_utf8(bytes) {
        Ok(s) => Some(s),
        Err(_) => None,
    }
}

impl StringField {
    #[verifier::type_invariant]
    closed spec fn inv(&self) -> bool {
        self@.fits()
    }

    /// A value of capacity `max_size` that holds `value`, cut to the
    /// longest run of its leading characters that fits in the capacity.
    pub fn new(value: String, max_size: usize) -> (r: Self)
        requires
            max_size <= MAX_CAPACITY,
        ensures
            r@.capacity == max_size,
            is_longest_fit(r@.text, value@, max_size as nat),
            r@.fits(),
    {
        broadcast use encode_utf8_valid_utf8;

        let s = value.as_str();
        if s.as_bytes().len() <= max_size {
            proof {
                lemma_fit_whole(value@, max_size as nat);
            }
            return Self { value, max_size };
        }
        let mut k: usize = max_size;
        while !s.is_char_boundary(k)
            invariant
                k <= max_size < encode_utf8(s@).len(),
                s@ == value@,
                valid_utf8(encode_utf8(s@)),
                forall|j: int| k < j <= max_size ==> !is_char_boundary(encode_utf8(s@), j),
            decreases k,
        {
            proof {
                is_char_boundary_start_end_of_seq(encode_utf8(s@));
            }
            k -= 1;
        }
        let (head, _) = s.split_at(k);
        proof {
            lemma_cut_at_boundary(head@, value@, max_size as nat, k as int);
        }
        Self { value: head.to_owned(), max_size }
    }

    /// The text of this value.
    pub fn get_value(&self) -> (s: String)
        ensures
            s@ == self@.text,
    {
        self.value.clone()
    }

    /// The capacity of this value in bytes.
    pub fn get_max_size(&self) -> (n: usize)
        ensures
            n == self@.capacity,
            self@.fits(),
    {
        proof {
            use_type_invariant(self);
        }
        self.max_size
    }

    /// The stored form of this value: always four bytes more than the
    /// capacity, whatever the length of the text.
    pub fn serialize(&self) -> (out: Vec<u8>)
        ensures
            out@ == self@.wire(),
            out@.len() == self@.capacity + 4,
            is_wire(out@, self@.capacity),
            wire_text(out@) == self@.text,
    {
        proof {
            use_type_invariant(self);
            lemma_wire_round_trip(self@);
        }
        let bytes = self.value.as_str().as_bytes();
        let n: usize = bytes.len();
        let mut out: Vec<u8> = Vec::new();
        put_i32(&mut out, n as i32);
        let mut i: usize = 0;
        while i < n
            invariant
                i <= n == bytes@.len(),
                out@ == be_bytes(n as int) + bytes@.take(i as int),
            decreases n - i,
        {
            out.push(bytes[i]);
            i += 1;
            assert(out@ =~= be_bytes(n as int) + bytes@.take(i as int));
        }
        assert(bytes@.take(n as int) =~= bytes@);
        let mut j: usize = n;
        while j < self.max_size
            invariant
                n <= j <= self.max_size,
                out@ == be_bytes(n as int) + bytes@ + zeros((j - n) as nat),
            decreases self.max_size - j,
        {
            out.push(0);
            j += 1;
            assert(out@ =~= be_bytes(n as int) + bytes@ + zeros((j - n) as nat));
        }
        out
    }

    /// Reads a string value of capacity `max_size` from its stored form.
    /// Bytes that are not the stored form of such a value are refused.
    pub fn parse(bytes: &[u8], max_size: usize) -> (r: Result<StringField, DbError>)
        requires
            max_size <= MAX_CAPACITY,
        ensures
            r is Ok <==> is_wire(bytes@, max_size as nat),
            r is Ok ==> r->Ok_0@ == (StringValue {
                text: wire_text(bytes@),
                capacity: max_size as nat,
            }),
            r is Ok ==> r->Ok_0@.fits(),
            r is Err ==> r->Err_0 == DbError::DecodeError,
    {
        if bytes.len() < 4 || bytes.len() - 4 != max_size {
            return Err(DbError::DecodeError);
        }
        let len = get_i32(bytes, 0);
        if len < 0 || len as usize > max_size {
            return Err(DbError::DecodeError);
        }
        let n: usize = len as usize;
        let mut i: usize = 4 + n;
        while i < bytes.len()
            invariant
                4 + n <= i <= bytes.len(),
                n == wire_len(bytes@),
                forall|k: int| 4 + n <= k < i ==> bytes@[k] == 0,
            decreases bytes.len() - i,
        {
            if bytes[i] != 0 {
                assert(bytes@[i as int] != 0);
                return Err(DbError::DecodeError);
            }
            i += 1;
        }
        match utf8_text(slice_subrange(bytes, 4, 4 + n)) {
            Some(s) => {
                proof {
                    lemma_wire_of_text(bytes@, max_size as nat);
                }
                Ok(Self { value: s.to_owned(), max_size })
            },
            None => Err(DbError::DecodeError),
        }
    }

    /// Tests the relation `op` between this text and that of `other`.
    pub fn compare(&self, op: Op, other: &Self) -> (r: bool)
        ensures
            r == self@.holds(op, other@),
    {
        match op {
            Op::Equals => self.value == other.value,
            Op::NotEquals => self.value != other.value,
            Op::Like => {
                let a = chars_of(self.value.as_str());
                let b = chars_of(other.value.as_str());
                text_contains(a.as_slice(), b.as_slice())
            },
            Op::LessThan => {
                let a = chars_of(self.value.as_str());
                let b = chars_of(other.value.as_str());
                lex_less(a.as_slice(), b.as_slice())
            },
            Op::GreaterThan => {
                let a = chars_of(self.value.as_str());
                let b = chars_of(other.value.as_str());
                lex_less(b.as_slice(), a.as_slice())
            },
            Op::LessThanOrEq => {
                let a = chars_of(self.value.as_str());
                let b = chars_of(other.value.as_str());
                lex_less(a.as_slice(), b.as_slice()) || self.value == other.value
            },
            Op::GreaterThanOrEq => {
                let a = chars_of(self.value.as_str());
                let b = chars_of(other.value.as_str());
                lex_less(b.as_slice(), a.as_slice()) || self.value == other.value
            },
        }
    }

    /// Two string values are equal where their texts are.
    pub fn equals(&self, other: &Self) -> (r: bool)
        ensures
            r == (self@.text == other@.text),
    {
        self.value == other.value
    }

    pub fn get_type(&self) -> (t: Type)
        ensures
            t == Type::Str,
    {
        Type::Str
    }

    /// The text of this value.
    pub fn to_string(&self) -> (s: String)
        ensures
            s@ == self@.text,
    {
        self.value.clone()
    }

    /// A hash of the text: the same for equal texts.
    pub fn hash_code(&self) -> (h: u64)
        ensures
            h == self@.digest(),
    {
        let mut s = DefaultHasher::new();
        s.write(self.value.as_str().as_bytes());
        assert(s@ =~= seq![encode_utf8(self@.text)]);
        s.finish()
    }
}

} // verus!
