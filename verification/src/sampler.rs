use crate::fixed::{lemma_product_within, saturate, saturated, scale_product, scaled_product};
use rand::Rng;
use vstd::prelude::*;

verus! {

/// A uniform draw `k` stands for the fraction `k / UNIFORM_DENOMINATOR`.
pub const UNIFORM_DENOMINATOR: u64 = 0x20_0000_0000_0000;

/// The uniform draw that 64 random bits give: the 53 most significant of
/// them, read as the numerator of a fraction in (0, 1). Bits that give zero
/// give no draw: the draw is to be made again.
pub open spec fn uniform_of(bits: u64) -> Option<u64> {
    if bits / 2048 == 0 {
        None
    } else {
        Some(bits / 2048)
    }
}

/// 64 bits from the generator of the current thread: `Rng::gen` for `u64` on
/// `rand::thread_rng()`. Nothing is claimed of the bits. The generator
/// panics where the operating system fails it: if it gets no seed on its
/// first use in a thread, if reseeding fails (after every 64 KiB of output
/// and after a fork), or if its fork handler cannot be registered.
#[verifier::external_body]
fn random_bits() -> (bits: u64) {
    rand::thread_rng().gen::<u64>()
}

/// Reads 64 random bits as a uniform draw, if they give one.
pub fn uniform_numerator(bits: u64) -> (draw: Option<u64>)
    ensures
        draw == uniform_of(bits),
        draw is None <==> bits < 2048,
        draw matches Some(k) ==> 0 < k < UNIFORM_DENOMINATOR,
{
    let k: u64 = bits / 2048;
    if k == 0 {
        None
    } else {
        Some(k)
    }
}

/// Draws once from the generator of the current thread. The draw is missing
/// where the generator gave zero; whoever needs a draw tries again.
pub fn try_draw_uniform() -> (draw: Option<u64>)
    ensures
        draw matches Some(k) ==> 0 < k < UNIFORM_DENOMINATOR,
{
    uniform_numerator(random_bits())
}

/// A draw from the normal distribution of the given mean and standard
/// deviation, made of the standard-normal draw `z`: `mean + std_dev * z`.
pub open spec fn scaled_draw(mean: int, std_dev: int, z: int) -> int {
    saturated(mean + scaled_product(std_dev, z))
}

/// Turns a standard-normal draw into a draw of the given mean and standard
/// deviation. All three are counted in millionths, and so is the result.
pub fn sample_normal(mean: i64, std_dev: i64, z: i64) -> (draw: i64)
    ensures
        draw == scaled_draw(mean as int, std_dev as int, z as int),
        std_dev == 0 ==> draw == mean,
{
    let spread: i128 = scale_product(std_dev, z as i128);
    proof {
        if std_dev == 0 {
            lemma_product_within(std_dev as int, z as int, 0, 0x8000_0000_0000_0000);
        }
    }
    saturate(mean as i128 + spread)
}

} // verus!
