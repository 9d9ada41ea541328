//! Text as bytes: fixed-size fields, checking UTF-8, and cutting text at
//! ASCII bytes.

use vstd::prelude::*;
use vstd::string::StringSliceAdditionalSpecFns;
use vstd::utf8::{
    is_char_boundary_iff_not_is_continuation_byte, length_of_first_scalar, pop_first_scalar,
    valid_utf8, valid_utf8_split,
};

verus! {

/// `text` cut or padded with zeros to exactly `n` bytes.
pub open spec fn padded(text: Seq<u8>, n: nat) -> Seq<u8> {
    Seq::new(
        n,
        |i: int|
            if i < text.len() {
                text[i]
            } else {
                0u8
            },
    )
}

/// `text` in a field of `N` bytes: cut where it is longer, padded with zeros
/// where it is shorter.
pub fn fixed_field<const N: usize>(text: &[u8]) -> (field: [u8; N])
    ensures
        field@ == padded(text@, N as nat),
{
    let mut field: [u8; N] = [0u8; N];
    let mut i: usize = 0;
    while i < N && i < text.len()
        invariant
            i <= N,
            i <= text.len(),
            forall|k: int| 0 <= k < i ==> field@[k] == text@[k],
            forall|k: int| i <= k < N ==> field@[k] == 0u8,
        decreases N - i,
    {
        field[i] = text[i];
        i = i + 1;
    }
    assert(field@ =~= padded(text@, N as nat));
    field
}

/// Calls `core::str::from_utf8`: the bytes as text when they are valid
/// UTF-8, which is then the same bytes; nothing when they are not.
#[verifier::external_body]
pub(crate) fn utf8_str<'a>(bytes: &'a [u8]) -> (r: Option<&'a str>)
    ensures
        r is Some <==> valid_utf8(bytes@),
        r is Some ==> r->Some_0.spec_bytes() == bytes@,
{
    core::str::from_utf8(bytes).ok()
}

/// The bytes of a text are valid UTF-8.
pub proof fn lemma_str_is_utf8(s: &str)
    ensures
        valid_utf8(s.spec_bytes()),
{
    vstd::utf8::encode_utf8_valid_utf8(s@);
}

/// Valid UTF-8 cut at an ASCII byte stays valid on both sides, with the
/// byte and without it.
pub proof fn lemma_cut_at_ascii(bytes: Seq<u8>, i: int)
    requires
        valid_utf8(bytes),
        0 <= i < bytes.len(),
        bytes[i] < 0x80,
    ensures
        valid_utf8(bytes.subrange(0, i)),
        valid_utf8(bytes.subrange(i, bytes.len() as int)),
        valid_utf8(bytes.subrange(i + 1, bytes.len() as int)),
        valid_utf8(bytes.subrange(0, i + 1)),
{
    is_char_boundary_iff_not_is_continuation_byte(bytes, i);
    valid_utf8_split(bytes, i);
    let tail = bytes.subrange(i, bytes.len() as int);
    assert(tail[0] == bytes[i]);
    assert(length_of_first_scalar(tail) == 1);
    assert(pop_first_scalar(tail) =~= bytes.subrange(i + 1, bytes.len() as int));
    let one = tail.subrange(0, 1);
    assert(one[0] == bytes[i]);
    assert(length_of_first_scalar(one) == 1);
    assert(pop_first_scalar(one) =~= Seq::<u8>::empty());
    assert(valid_utf8(one)) by {
        reveal_with_fuel(valid_utf8, 2);
    }
    vstd::utf8::valid_utf8_concat(bytes.subrange(0, i), one);
    assert(bytes.subrange(0, i) + one =~= bytes.subrange(0, i + 1));
}

/// A piece of valid UTF-8 between two cuts that each are an end of the
/// text or stand next to an ASCII byte is valid UTF-8.
pub proof fn lemma_piece_is_utf8(bytes: Seq<u8>, from: int, to: int)
    requires
        valid_utf8(bytes),
        0 <= from <= to <= bytes.len(),
        from == 0 || from == bytes.len() || bytes[from - 1] < 0x80 || bytes[from] < 0x80,
        to == 0 || to == bytes.len() || bytes[to] < 0x80 || bytes[to - 1] < 0x80,
    ensures
        valid_utf8(bytes.subrange(from, to)),
{
    let head = bytes.subrange(0, to);
    assert(valid_utf8(head)) by {
        if to == bytes.len() {
            assert(head =~= bytes);
        } else if to == 0 {
            assert(head =~= Seq::<u8>::empty());
        } else if bytes[to] < 0x80 {
            lemma_cut_at_ascii(bytes, to);
        } else {
            lemma_cut_at_ascii(bytes, to - 1);
        }
    }
    if from == 0 {
        assert(bytes.subrange(from, to) =~= head);
    } else if from == to {
        assert(bytes.subrange(from, to) =~= Seq::<u8>::empty());
    } else if bytes[from - 1] < 0x80 {
        lemma_cut_at_ascii(head, from - 1);
        assert(head.subrange(from, head.len() as int) =~= bytes.subrange(from, to));
    } else {
        lemma_cut_at_ascii(head, from);
        assert(head.subrange(from, head.len() as int) =~= bytes.subrange(from, to));
    }
}

/// The text between `from` and `to` of `s`, where both cuts are an end of
/// the text or stand next to an ASCII byte.
pub fn piece<'a>(s: &'a str, from: usize, to: usize) -> (r: &'a str)
    requires
        from <= to <= s.spec_bytes().len(),
        from == 0 || from == s.spec_bytes().len() || s.spec_bytes()[from - 1] < 0x80
            || s.spec_bytes()[from as int] < 0x80,
        to == 0 || to == s.spec_bytes().len() || s.spec_bytes()[to as int] < 0x80
            || s.spec_bytes()[to - 1] < 0x80,
    ensures
        r.spec_bytes() == s.spec_bytes().subrange(from as int, to as int),
{
    proof {
        lemma_str_is_utf8(s);
        lemma_piece_is_utf8(s.spec_bytes(), from as int, to as int);
    }
    let bytes: &'a [u8] = s.as_bytes();
    match utf8_str(vstd::slice::slice_subrange(bytes, from, to)) {
        Some(t) => t,
        None => s,
    }
}

} // verus!
