//! The ACPI checksum rule: a table is valid when all of its bytes add up to
//! zero modulo 256.

use vstd::prelude::*;

verus! {

/// The sum of all bytes of `s`, as a mathematical integer.
pub open spec fn byte_sum(s: Seq<u8>) -> nat
    decreases s.len(),
{
    if s.len() == 0 {
        0
    } else {
        byte_sum(s.drop_last()) + s.last() as nat
    }
}

/// `s` carries a valid ACPI checksum.
pub open spec fn checksum_valid(s: Seq<u8>) -> bool {
    byte_sum(s) % 256 == 0
}

/// Adds up `bytes` with wrapping (modulo 256) arithmetic.
pub fn wrapping_byte_sum(bytes: &[u8]) -> (sum: u8)
    ensures
        sum == byte_sum(bytes@) % 256,
{
    let mut sum: u8 = 0;
    let mut i: usize = 0;
    while i < bytes.len()
        invariant
            i <= bytes@.len(),
            sum == byte_sum(bytes@.subrange(0, i as int)) % 256,
        decreases bytes@.len() - i,
    {
        let b = bytes[i];
        proof {
            let pre = bytes@.subrange(0, i as int);
            let next = bytes@.subrange(0, i + 1);
            assert(next.drop_last() =~= pre);
            assert(next.last() == b);
        }
        sum = sum.wrapping_add(b);
        i = i + 1;
    }
    proof {
        assert(bytes@.subrange(0, bytes@.len() as int) =~= bytes@);
    }
    sum
}

} // verus!
