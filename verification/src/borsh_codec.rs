//! Borsh for byte arrays.

use vstd::prelude::*;

verus! {

/// Calls `borsh::to_vec` on a byte array. Borsh writes an array of a fixed length as its
/// elements alone, and a byte as itself; writing to a vector does not fail.
#[verifier::external_body]
pub(crate) fn borsh_write<const N: usize>(bytes: &[u8; N]) -> (form: Vec<u8>)
    ensures
        form@ == bytes@,
{
    borsh::to_vec(bytes).unwrap()
}

/// Calls `borsh::BorshDeserialize::deserialize` for a byte array. It takes the array from
/// the front of the input, which goes on behind it, and fails on an input that is shorter
/// than the array.
#[verifier::external_body]
pub(crate) fn borsh_read<const N: usize>(input: &[u8]) -> (r: Option<([u8; N], &[u8])>)
    ensures
        r is Some <==> input@.len() >= N,
        r matches Some((bytes, rest)) ==> {
            &&& bytes@ == input@.take(N as int)
            &&& rest@ == input@.skip(N as int)
        },
{
    let mut rest = input;
    let bytes = <[u8; N] as borsh::BorshDeserialize>::deserialize(&mut rest).ok()?;
    Some((bytes, rest))
}

} // verus!
