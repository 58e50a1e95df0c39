//! Random draws from a `nanorand` generator.

use nanorand::Pcg64;
use nanorand::Rng;
use vstd::prelude::*;

verus! {

/// The generator type of `nanorand`. Its state is private to that crate, so nothing is
/// known here of a value of this type.
#[verifier::external_type_specification]
#[verifier::external_body]
pub struct ExPcg64(nanorand::Pcg64);

/// `Pcg64::new_seed` makes a generator from a seed. It returns for every seed; nothing
/// is claimed of the generator it returns.
pub assume_specification[ nanorand::Pcg64::new_seed ](seed: u128) -> (rng: nanorand::Pcg64)
;

/// Draws one byte with `Rng::generate`. `nanorand` cuts the byte out of the generator's
/// 64-bit output in the byte order of the machine, so the value differs between
/// machines and nothing is claimed of it.
#[verifier::external_body]
fn next_byte(rng: &mut Pcg64) -> (byte: u8) {
    rng.generate()
}

/// Where a byte falls in `min..max`: its remainder by the width of the range, counted
/// from `min`.
pub open spec fn spec_scale_to_range(byte: u8, min: u8, max: u8) -> int {
    byte as int % (max - min) + min
}

/// Brings a byte into `min..max`.
pub fn scale_to_range(byte: u8, min: u8, max: u8) -> (scaled: u8)
    requires
        min < max,
    ensures
        scaled == spec_scale_to_range(byte, min, max),
        min <= scaled < max,
{
    byte % (max - min) + min
}

/// Generates a random number between `min` (included) and `max` (excluded): one byte
/// is drawn from the generator and brought into the range by `scale_to_range`.
pub fn random_range(rng: &mut Pcg64, min: u8, max: u8) -> (drawn: u8)
    requires
        min < max,
    ensures
        min <= drawn < max,
        exists|byte: u8| drawn == #[trigger] spec_scale_to_range(byte, min, max),
{
    let byte = next_byte(rng);
    scale_to_range(byte, min, max)
}

} // verus!
