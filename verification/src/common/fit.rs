use vstd::prelude::*;
use vstd::utf8::*;

verus! {

/// The number of bytes that a text takes in UTF-8.
pub open spec fn byte_len(t: Seq<char>) -> nat {
    encode_utf8(t).len()
}

/// `p` is what is left of `t` when it is cut to `cap` bytes without
/// splitting a character: `p` is a prefix of `t`, it takes at most `cap`
/// bytes, and with one more character of `t` it would take more.
pub open spec fn is_longest_fit(p: Seq<char>, t: Seq<char>, cap: nat) -> bool {
    &&& p.len() <= t.len()
    &&& p == t.take(p.len() as int)
    &&& byte_len(p) <= cap
    &&& p.len() < t.len() ==> byte_len(t.take(p.len() as int + 1)) > cap
}

/// Every character takes between one and four bytes.
pub proof fn lemma_scalar_len(c: char)
    ensures
        1 <= encode_scalar(c as u32).len() <= 4,
{
}

/// The bytes of two texts written one after the other are the bytes of the
/// first followed by the bytes of the second.
pub proof fn lemma_encode_concat(a: Seq<char>, b: Seq<char>)
    ensures
        encode_utf8(a + b) == encode_utf8(a) + encode_utf8(b),
    decreases a.len(),
{
    if a.len() == 0 {
        assert(a + b =~= b);
        assert(encode_utf8(a) + encode_utf8(b) =~= encode_utf8(b));
    } else {
        assert((a + b).drop_first() =~= a.drop_first() + b);
        lemma_encode_concat(a.drop_first(), b);
        assert(encode_utf8(a + b) =~= encode_utf8(a) + encode_utf8(b));
    }
}

/// A longer prefix of a text takes at least as many bytes as a shorter one,
/// and more where it is strictly longer.
pub proof fn lemma_byte_len_monotone(t: Seq<char>, i: int, j: int)
    requires
        0 <= i <= j <= t.len(),
    ensures
        byte_len(t.take(i)) <= byte_len(t.take(j)),
        i < j ==> byte_len(t.take(i)) < byte_len(t.take(j)),
{
    let rest = t.subrange(i, j);
    assert(t.take(j) =~= t.take(i) + rest);
    lemma_encode_concat(t.take(i), rest);
    if i < j {
        lemma_scalar_len(rest[0]);
    }
}

/// In the bytes of a text, the place where a prefix of the text ends is a
/// character boundary.
pub proof fn lemma_boundary_after_prefix(a: Seq<char>, b: Seq<char>)
    ensures
        is_char_boundary(encode_utf8(a + b), byte_len(a) as int),
    decreases a.len(),
{
    broadcast use encode_utf8_valid_utf8;

    let bytes = encode_utf8(a + b);
    if a.len() == 0 {
    } else {
        lemma_scalar_len(a[0]);
        encode_utf8_first_scalar(a + b);
        assert((a + b).drop_first() =~= a.drop_first() + b);
        assert(pop_first_scalar(bytes) =~= encode_utf8(a.drop_first() + b));
        lemma_boundary_after_prefix(a.drop_first(), b);
    }
}

/// Cutting a text to a capacity has one result only.
pub proof fn lemma_longest_fit_unique(p: Seq<char>, q: Seq<char>, t: Seq<char>, cap: nat)
    requires
        is_longest_fit(p, t, cap),
        is_longest_fit(q, t, cap),
    ensures
        p == q,
{
    if p.len() < q.len() {
        lemma_byte_len_monotone(t, p.len() as int + 1, q.len() as int);
    } else if q.len() < p.len() {
        lemma_byte_len_monotone(t, q.len() as int + 1, p.len() as int);
    }
}

/// A text that fits is left whole.
pub proof fn lemma_fit_whole(t: Seq<char>, cap: nat)
    requires
        byte_len(t) <= cap,
    ensures
        is_longest_fit(t, t, cap),
{
    assert(t.take(t.len() as int) =~= t);
}

/// Where the bytes of a text are cut at the last character boundary that
/// is not beyond `cap`, what stands before the cut is the text cut to
/// `cap` bytes.
pub proof fn lemma_cut_at_boundary(p: Seq<char>, t: Seq<char>, cap: nat, k: int)
    requires
        0 <= k <= cap < byte_len(t),
        is_char_boundary(encode_utf8(t), k),
        forall|j: int| k < j <= cap ==> !is_char_boundary(encode_utf8(t), j),
        encode_utf8(p) == encode_utf8(t).subrange(0, k),
    ensures
        is_longest_fit(p, t, cap),
{
    broadcast use encode_utf8_valid_utf8, encode_utf8_decode_utf8;

    let bytes = encode_utf8(t);
    let rest = decode_utf8(bytes.subrange(k, bytes.len() as int));
    decode_utf8_split(bytes, k);
    assert(decode_utf8(bytes) == t);
    assert(decode_utf8(encode_utf8(p)) == p);
    assert(t =~= p + rest);
    assert(p =~= t.take(p.len() as int));
    if p.len() == t.len() {
        assert(t =~= p);
    } else {
        let n = p.len() as int;
        let p1 = t.take(n + 1);
        let tail = t.skip(n + 1);
        assert(t =~= p1 + tail);
        lemma_byte_len_monotone(t, n, n + 1);
        lemma_boundary_after_prefix(p1, tail);
    }
}

} // verus!
