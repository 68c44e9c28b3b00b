//! Certificates and keys as text in PEM.

use vstd::prelude::*;

verus! {

/// How many dashes bytes hold.
pub open spec fn dashes(bytes: Seq<u8>) -> nat
    decreases bytes.len(),
{
    if bytes.len() == 0 {
        0
    } else {
        dashes(bytes.drop_last()) + if bytes.last() == 0x2d {
            1nat
        } else {
            0nat
        }
    }
}

/// Whether the dashes of a text can be counted in an `i32`, as the parser does that TLS is set up
/// with.
pub open spec fn has_countable_dashes(pem: Seq<char>) -> bool {
    dashes(vstd::utf8::encode_utf8(pem)) <= i32::MAX
}

/// Whether the dashes of a text can be counted in an `i32`.
pub fn dashes_are_countable(pem: &String) -> (countable: bool)
    ensures
        countable == has_countable_dashes(pem@),
{
    let bytes: &[u8] = pem.as_str().as_bytes();
    assert(bytes@ == vstd::utf8::encode_utf8(pem@));
    let mut count: usize = 0;
    for i in 0..bytes.len()
        invariant
            count == dashes(bytes@.take(i as int)),
            count <= i,
    {
        proof {
            assert(bytes@.take(i + 1).drop_last() =~= bytes@.take(i as int));
        }
        if bytes[i] == 0x2d {
            count = count + 1;
        }
    }
    assert(bytes@.take(bytes@.len() as int) =~= bytes@);
    count <= i32::MAX as usize
}

} // verus!
