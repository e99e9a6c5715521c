//! Comparison of byte strings.

use vstd::prelude::*;

verus! {

/// The ASCII lowercase form of a byte.
pub open spec fn lower(byte: u8) -> u8 {
    if 65 <= byte <= 90 {
        (byte + 32) as u8
    } else {
        byte
    }
}

/// The ASCII lowercase form of a byte string.
pub open spec fn lowercase(bytes: Seq<u8>) -> Seq<u8> {
    Seq::new(bytes.len(), |i: int| lower(bytes[i]))
}

/// Whether two byte strings differ at most in ASCII case.
pub open spec fn same_ignoring_case(a: Seq<u8>, b: Seq<u8>) -> bool {
    lowercase(a) == lowercase(b)
}

/// The ASCII lowercase form of a byte.
pub fn to_lower(byte: u8) -> (result: u8)
    ensures
        result == lower(byte),
{
    if 65 <= byte && byte <= 90 {
        byte + 32
    } else {
        byte
    }
}

/// Whether two byte strings are equal.
pub fn equal(a: &[u8], b: &[u8]) -> (result: bool)
    ensures
        result == (a@ == b@),
{
    if a.len() != b.len() {
        return false;
    }
    let mut index: usize = 0;
    while index < a.len()
        invariant
            index <= a@.len(),
            a@.len() == b@.len(),
            forall|i: int| 0 <= i < index ==> a@[i] == b@[i],
        decreases a@.len() - index,
    {
        if a[index] != b[index] {
            return false;
        }
        index = index + 1;
    }
    assert(a@ =~= b@);
    true
}

/// Whether two byte strings differ at most in ASCII case.
pub fn equal_ignoring_case(a: &[u8], b: &[u8]) -> (result: bool)
    ensures
        result == same_ignoring_case(a@, b@),
{
    if a.len() != b.len() {
        assert(lowercase(a@).len() != lowercase(b@).len());
        return false;
    }
    let mut index: usize = 0;
    while index < a.len()
        invariant
            index <= a@.len(),
            a@.len() == b@.len(),
            forall|i: int| 0 <= i < index ==> lower(#[trigger] a@[i]) == lower(b@[i]),
        decreases a@.len() - index,
    {
        if to_lower(a[index]) != to_lower(b[index]) {
            assert(lowercase(a@)[index as int] != lowercase(b@)[index as int]);
            return false;
        }
        index = index + 1;
    }
    assert(lowercase(a@) =~= lowercase(b@));
    true
}

} // verus!
