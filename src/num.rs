//! A 32-bit count that can never be zero, and its SCALE decoding.

use vstd::prelude::*;

verus! {

/// A `u32` that is known to be at least one.
#[derive(Clone, Copy, Debug, PartialEq, Eq, Structural, PartialOrd, Ord, Hash)]
pub struct NonZeroU32 {
    value: u32,
}

/// Why a byte string does not decode into a `NonZeroU32`.
#[derive(Clone, Copy, Debug, PartialEq, Eq, Structural)]
pub enum DecodeError {
    /// Fewer than four bytes were given.
    NotEnoughData,
    /// The four bytes encode the number zero.
    Zero,
}

/// The number held by four bytes in little-endian order.
pub open spec fn le_u32(b: Seq<u8>) -> int
    recommends
        b.len() == 4,
{
    b[0] + 256 * b[1] + 65536 * b[2] + 16777216 * b[3]
}

impl View for NonZeroU32 {
    type V = u32;

    closed spec fn view(&self) -> u32 {
        self.value
    }
}

impl NonZeroU32 {
    #[verifier::type_invariant]
    spec fn positive(self) -> bool {
        self.value != 0
    }

    /// `Some` holding `n` when `n` is not zero, `None` otherwise.
    pub fn new(n: u32) -> (r: Option<NonZeroU32>)
        ensures
            r is None <==> n == 0,
            r matches Some(x) ==> x@ == n,
    {
        if n != 0 {
            Some(NonZeroU32 { value: n })
        } else {
            None
        }
    }

    /// Wraps `n`, which the caller knows to be non-zero.
    pub fn new_unchecked(n: u32) -> (r: NonZeroU32)
        requires
            n != 0,
        ensures
            r@ == n,
    {
        NonZeroU32 { value: n }
    }

    /// The underlying number.
    pub fn get(&self) -> (r: u32)
        ensures
            r == self@,
            r > 0,
    {
        proof {
            use_type_invariant(self);
        }
        self.value
    }

    /// Decodes the SCALE encoding of a `u32` (four little-endian bytes at the front of
    /// `bytes`) and refuses the value zero.
    pub fn decode(bytes: &[u8]) -> (r: Result<NonZeroU32, DecodeError>)
        ensures
            bytes@.len() < 4 <==> r == Err::<NonZeroU32, DecodeError>(DecodeError::NotEnoughData),
            bytes@.len() >= 4 && le_u32(bytes@.take(4)) == 0 <==> r == Err::<NonZeroU32, DecodeError>(
                DecodeError::Zero,
            ),
            r matches Ok(n) ==> n@ == le_u32(bytes@.take(4)),
    {
        match decode_u32(bytes) {
            Ok(v) => match NonZeroU32::new(v) {
                Some(n) => Ok(n),
                None => Err(DecodeError::Zero),
            },
            Err(_) => Err(DecodeError::NotEnoughData),
        }
    }
}

#[verifier::external_type_specification]
#[verifier::external_body]
pub struct ExCodecError(parity_scale_codec::Error);

/// Relies on `parity_scale_codec::Decode` for `u32` read from a byte slice: it takes the
/// first four bytes as a little-endian number and fails when fewer than four are there.
#[verifier::external_body]
fn decode_u32(bytes: &[u8]) -> (r: Result<u32, parity_scale_codec::Error>)
    ensures
        r is Ok <==> bytes@.len() >= 4,
        r matches Ok(v) ==> v == le_u32(bytes@.take(4)),
{
    <u32 as parity_scale_codec::Decode>::decode(&mut &bytes[..])
}

} // verus!
