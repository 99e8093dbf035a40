//! Verification-code generation: six random decimal digits.

use vstd::prelude::*;

verus! {

use vstd::string::StringExecFns;
use crate::text::digit_char;
use crate::text::dec_digits;

/// `c` is one of the ten decimal digit characters.
pub open spec fn is_dec_digit(c: char) -> bool {
    48 <= c as u32 <= 57
}

/// Relies on `rand::Rng::gen_range` over `0..10` on the thread-local
/// generator: the sample always lies in the half-open range. The value is
/// random, so nothing more is promised of it.
#[verifier::external_body]
fn random_digit() -> (r: u64)
    ensures
        r < 10,
{
    rand::Rng::gen_range(&mut rand::thread_rng(), 0..10u64)
}

/// Draw a fresh six-digit verification code. Whatever the generator
/// returns, the code is six decimal digit characters.
pub fn generate_code() -> (r: String)
    ensures
        r@.len() == 6,
        forall|i: int| 0 <= i < r@.len() ==> is_dec_digit(#[trigger] r@[i]),
{
    let mut s = String::new();
    let mut i: usize = 0;
    while i < 6
        invariant
            s@.len() == i,
            i <= 6,
            forall|j: int| 0 <= j < s@.len() ==> is_dec_digit(#[trigger] s@[j]),
        decreases 6 - i,
    {
        let d = random_digit();
        let piece = crate::text::u64_to_dec(d);
        proof {
            assert(dec_digits(d as nat) =~= seq![digit_char(d as nat)]);
        }
        s.append(piece.as_str());
        i += 1;
    }
    s
}

} // verus!
