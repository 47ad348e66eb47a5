//! Randomly drawn colors.

use vstd::prelude::*;
use crate::color::Color;

verus! {

/// The random number generator; nothing is seen inside it.
#[verifier::external_type_specification]
#[verifier::external_body]
pub struct ExRng(fastrand::Rng);

/// `fastrand::Rng::new` makes a generator whose seed comes from the thread's
/// own generator. Nothing is claimed of it.
#[verifier::external_body]
fn new_generator() -> (rng: fastrand::Rng) {
    fastrand::Rng::new()
}

/// `fastrand::Rng::u8` over the full range: any byte may come back, and the
/// generator moves on. Nothing is claimed of the byte.
#[verifier::external_body]
fn random_byte(rng: &mut fastrand::Rng) -> (byte: u8) {
    rng.u8(..)
}

/// Draws `count` opaque colors. Which colors they are is left open.
pub fn random_colors(count: usize) -> (colors: Vec<Color>)
    ensures
        colors@.len() == count,
        forall|k: int| 0 <= k < count ==> (#[trigger] colors@[k]).a == 255,
{
    let mut rng = new_generator();
    let mut colors: Vec<Color> = Vec::new();
    let mut k: usize = 0;
    while k < count
        invariant
            k <= count,
            colors@.len() == k,
            forall|j: int| 0 <= j < k ==> (#[trigger] colors@[j]).a == 255,
        decreases count - k,
    {
        let r = random_byte(&mut rng);
        let g = random_byte(&mut rng);
        let b = random_byte(&mut rng);
        colors.push(Color::new(r, g, b));
        k = k + 1;
    }
    colors
}

} // verus!
