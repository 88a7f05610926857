//! The terminator-byte discipline for text that crosses a C-style boundary.
//!
//! Outbound text must be free of embedded terminator (zero) bytes and is
//! carried as a copy with one terminator byte appended; inbound text is
//! whatever stands before the first terminator byte of the buffer. Both
//! directions are stated over the byte sequences they move.

use vstd::prelude::*;

verus! {

/// Whether the byte sequence holds an embedded terminator (zero) byte.
pub open spec fn has_nul(s: Seq<u8>) -> bool {
    exists|i: int| 0 <= i < s.len() && s[i] == 0
}

/// Whether the text holds an embedded terminator character.
pub open spec fn has_nul_char(s: Seq<char>) -> bool {
    exists|i: int| 0 <= i < s.len() && s[i] == '\0'
}

/// The length of the longest terminator-free prefix: the index of the first
/// zero byte, or the whole length when there is none.
pub open spec fn first_nul(s: Seq<u8>) -> int
    decreases s.len(),
{
    if s.len() == 0 {
        0
    } else if s[0] == 0 {
        0
    } else {
        1 + first_nul(s.drop_first())
    }
}

/// Any index with only non-zero bytes before it, and a zero byte at it unless
/// it is the whole length, is `first_nul`.
pub proof fn lemma_first_nul_unique(s: Seq<u8>, i: int)
    requires
        0 <= i <= s.len(),
        forall|j: int| 0 <= j < i ==> s[j] != 0,
        i < s.len() ==> s[i] == 0,
    ensures
        first_nul(s) == i,
    decreases s.len(),
{
    if s.len() == 0 {
    } else if s[0] == 0 {
        assert(i == 0);
    } else {
        assert(i >= 1);
        let t = s.drop_first();
        assert(forall|j: int| 0 <= j < i - 1 ==> t[j] != 0);
        assert(i - 1 < t.len() ==> t[i - 1] == 0);
        lemma_first_nul_unique(t, i - 1);
    }
}

/// Convert outbound text to the boundary-safe form: a copy of the bytes with
/// one terminator byte appended. Text that itself holds a terminator byte
/// cannot cross the boundary and yields `None`; this is the one failure the
/// marshalling layer detects by itself.
pub fn to_boundary(data: &Vec<u8>) -> (r: Option<Vec<u8>>)
    ensures
        r is Some <==> !has_nul(data@),
        r is Some ==> r->Some_0@ == data@.push(0u8),
{
    let mut out: Vec<u8> = Vec::new();
    let mut i: usize = 0;
    while i < data.len()
        invariant
            0 <= i <= data@.len(),
            out@ == data@.take(i as int),
            forall|j: int| 0 <= j < i ==> data@[j] != 0,
        decreases data@.len() - i,
    {
        let b = data[i];
        if b == 0 {
            assert(has_nul(data@)) by {
                assert(data@[i as int] == 0);
            }
            return None;
        }
        out.push(b);
        proof {
            assert(out@ =~= data@.take(i + 1 as int));
        }
        i += 1;
    }
    out.push(0);
    proof {
        assert(data@.take(data@.len() as int) =~= data@);
        assert(out@ =~= data@.push(0u8));
    }
    Some(out)
}

/// Read inbound text out of the boundary-safe form: the bytes standing before
/// the first terminator byte, exactly as a reader of a terminated buffer
/// would see them. A buffer without any terminator byte reads as a whole.
pub fn from_boundary(buf: &Vec<u8>) -> (r: Vec<u8>)
    ensures
        r@ == buf@.take(first_nul(buf@)),
        !has_nul(r@),
{
    let mut out: Vec<u8> = Vec::new();
    let mut i: usize = 0;
    while i < buf.len() && buf[i] != 0
        invariant
            0 <= i <= buf@.len(),
            out@ == buf@.take(i as int),
            forall|j: int| 0 <= j < i ==> buf@[j] != 0,
        decreases buf@.len() - i,
    {
        out.push(buf[i]);
        proof {
            assert(out@ =~= buf@.take(i + 1 as int));
        }
        i += 1;
    }
    proof {
        lemma_first_nul_unique(buf@, i as int);
        assert(!has_nul(out@)) by {
            assert(forall|j: int| 0 <= j < out@.len() ==> out@[j] != 0);
        }
    }
    out
}

/// Round trip: text free of embedded terminator bytes is preserved exactly by
/// marshalling into the boundary-safe form and reading it back out.
pub proof fn lemma_boundary_round_trip(data: Seq<u8>)
    requires
        !has_nul(data),
    ensures
        first_nul(data.push(0u8)) == data.len(),
        data.push(0u8).take(first_nul(data.push(0u8))) == data,
{
    let b = data.push(0u8);
    assert(forall|j: int| 0 <= j < data.len() ==> data[j] != 0);
    assert(forall|j: int| 0 <= j < data.len() ==> b[j] != 0);
    lemma_first_nul_unique(b, data.len() as int);
    assert(b.take(data.len() as int) =~= data);
}

} // verus!
