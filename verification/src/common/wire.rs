use vstd::prelude::*;

verus! {

/// The number between 0 and 2^32 that has the bits of a 32-bit signed
/// integer in two's complement.
pub open spec fn unsigned(v: int) -> int {
    if v < 0 {
        v + 0x1_0000_0000
    } else {
        v
    }
}

/// The 32-bit signed integer that has the bits of a number between 0 and
/// 2^32.
pub open spec fn signed(n: int) -> int {
    if n >= 0x8000_0000 {
        n - 0x1_0000_0000
    } else {
        n
    }
}

/// The four bytes that stand for a 32-bit signed integer, most significant
/// byte first, negative numbers in two's complement.
pub open spec fn be_bytes(v: int) -> Seq<u8> {
    let n = unsigned(v);
    seq![
        (n / 0x100_0000) as u8,
        ((n / 0x1_0000) % 0x100) as u8,
        ((n / 0x100) % 0x100) as u8,
        (n % 0x100) as u8,
    ]
}

/// The integer that four bytes stand for, read as `be_bytes` writes them.
pub open spec fn be_value(b: Seq<u8>) -> int
    recommends
        b.len() == 4,
{
    signed(b[0] * 0x100_0000 + b[1] * 0x1_0000 + b[2] * 0x100 + b[3])
}

/// A run of `n` zero bytes.
pub open spec fn zeros(n: nat) -> Seq<u8> {
    Seq::new(n, |i: int| 0u8)
}

/// Reading back what was written gives the number that was written.
pub proof fn lemma_be_value_of_bytes(v: i32)
    ensures
        be_bytes(v as int).len() == 4,
        be_value(be_bytes(v as int)) == v,
{
}

/// Any four bytes are the encoding of the 32-bit number they are read as.
pub proof fn lemma_be_bytes_of_value(b: Seq<u8>)
    requires
        b.len() == 4,
    ensures
        i32::MIN <= be_value(b) <= i32::MAX,
        be_bytes(be_value(b)) == b,
{
    let n = b[0] * 0x100_0000 + b[1] * 0x1_0000 + b[2] * 0x100 + b[3];
    assert(n / 0x100 == b[0] * 0x1_0000 + b[1] * 0x100 + b[2]);
    assert(n / 0x1_0000 == b[0] * 0x100 + b[1]);
    assert(n / 0x100_0000 == b[0]);
    assert(n % 0x100 == b[3]);
    assert((n / 0x100) % 0x100 == b[2]);
    assert((n / 0x1_0000) % 0x100 == b[1]);
    let back = be_bytes(be_value(b));
    assert(back[0] == b[0] && back[1] == b[1] && back[2] == b[2] && back[3] == b[3]);
    assert(back =~= b);
}

/// Appends the four-byte encoding of `v` to `out`.
pub fn put_i32(out: &mut Vec<u8>, v: i32)
    ensures
        final(out)@ == old(out)@ + be_bytes(v as int),
{
    let n: i64 = if v < 0 {
        v as i64 + 0x1_0000_0000
    } else {
        v as i64
    };
    out.push((n / 0x100_0000) as u8);
    out.push(((n / 0x1_0000) % 0x100) as u8);
    out.push(((n / 0x100) % 0x100) as u8);
    out.push((n % 0x100) as u8);
    assert(out@ =~= old(out)@ + be_bytes(v as int));
}

/// Reads the 32-bit integer that the four bytes from `at` on stand for.
pub fn get_i32(bytes: &[u8], at: usize) -> (v: i32)
    requires
        at + 4 <= bytes.len(),
    ensures
        v == be_value(bytes@.subrange(at as int, at + 4)),
{
    let n: i64 = bytes[at] as i64 * 0x100_0000 + bytes[at + 1] as i64 * 0x1_0000 + bytes[at
        + 2] as i64 * 0x100 + bytes[at + 3] as i64;
    if n >= 0x8000_0000 {
        (n - 0x1_0000_0000) as i32
    } else {
        n as i32
    }
}

} // verus!
