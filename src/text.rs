//! Byte-level facts about strings: their UTF-8 length, equality, and the
//! position of a byte within them.
use vstd::prelude::*;
use vstd::utf8::encode_utf8;

verus! {

/// The number of bytes in the UTF-8 encoding of `s`.
#[verifier::opaque]
pub open spec fn byte_len(s: Seq<char>) -> nat {
    encode_utf8(s).len()
}

/// The UTF-8 encoding of a concatenation is the concatenation of the encodings.
pub proof fn lemma_encode_concat(a: Seq<char>, b: Seq<char>)
    ensures
        encode_utf8(a + b) == encode_utf8(a) + encode_utf8(b),
    decreases a.len(),
{
    if a.len() == 0 {
        assert(a + b =~= b);
        assert(encode_utf8(a) =~= Seq::<u8>::empty());
        assert(encode_utf8(a) + encode_utf8(b) =~= encode_utf8(b));
    } else {
        assert((a + b).drop_first() =~= a.drop_first() + b);
        assert((a + b)[0] == a[0]);
        lemma_encode_concat(a.drop_first(), b);
        let head = vstd::utf8::encode_scalar(a[0] as u32);
        assert(encode_utf8(a + b) =~= head + encode_utf8(a.drop_first() + b));
        assert(head + (encode_utf8(a.drop_first()) + encode_utf8(b)) =~= (head + encode_utf8(
            a.drop_first(),
        )) + encode_utf8(b));
    }
}

/// Byte lengths add up over a concatenation.
pub proof fn lemma_byte_len_concat(a: Seq<char>, b: Seq<char>)
    ensures
        byte_len(a + b) == byte_len(a) + byte_len(b),
{
    reveal(byte_len);
    lemma_encode_concat(a, b);
}

/// The UTF-8 length of `s`, in bytes.
pub fn byte_count(s: &str) -> (n: usize)
    ensures
        n == byte_len(s@),
{
    reveal(byte_len);
    s.as_bytes().len()
}

/// Whether the two strings hold the same characters.
pub fn same_text(a: &str, b: &str) -> (r: bool)
    ensures
        r == (a@ == b@),
{
    let x = a.as_bytes();
    let y = b.as_bytes();
    proof {
        vstd::utf8::encode_utf8_decode_utf8(a@);
        vstd::utf8::encode_utf8_decode_utf8(b@);
    }
    if x.len() != y.len() {
        return false;
    }
    let mut i: usize = 0;
    while i < x.len()
        invariant
            x@ == encode_utf8(a@),
            y@ == encode_utf8(b@),
            x@.len() == y@.len(),
            i <= x@.len(),
            forall|j: int| 0 <= j < i ==> x@[j] == y@[j],
        decreases x@.len() - i,
    {
        if x[i] != y[i] {
            return false;
        }
        i = i + 1;
    }
    assert(x@ =~= y@);
    true
}

/// The position of the first occurrence of `b` in `bytes`, if there is one.
pub open spec fn first_index_of(bytes: Seq<u8>, b: u8) -> Option<int> {
    if exists|i: int| 0 <= i < bytes.len() && bytes[i] == b {
        Some(
            choose|i: int|
                0 <= i < bytes.len() && bytes[i] == b && forall|j: int|
                    0 <= j < i ==> bytes[j] != b,
        )
    } else {
        None
    }
}

/// The position of the first `b` in `bytes`.
pub fn find_byte(bytes: &[u8], b: u8) -> (r: Option<usize>)
    ensures
        match first_index_of(bytes@, b) {
            Some(i) => r matches Some(p) && p == i,
            None => r is None,
        },
{
    let mut i: usize = 0;
    while i < bytes.len()
        invariant
            i <= bytes@.len(),
            forall|j: int| 0 <= j < i ==> bytes@[j] != b,
        decreases bytes@.len() - i,
    {
        if bytes[i] == b {
            let ghost k = i as int;
            assert(exists|c: int|
                0 <= c < bytes@.len() && bytes@[c] == b && forall|j: int|
                    0 <= j < c ==> bytes@[j] != b) by {
                assert(0 <= k < bytes@.len() && bytes@[k] == b && forall|j: int|
                    0 <= j < k ==> bytes@[j] != b);
            }
            let ghost c = first_index_of(bytes@, b)->0;
            assert(c == k) by {
                if c < k {
                    assert(bytes@[c] != b);
                } else if k < c {
                    assert(bytes@[k] != b);
                }
            }
            return Some(i);
        }
        i = i + 1;
    }
    None
}

} // verus!
