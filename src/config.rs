use vstd::prelude::*;

verus! {

/// The smallest block the spectrum transform accepts.
pub const MIN_TRANSFORM_SIZE: usize = 2;

/// The largest block the spectrum transform accepts.
pub const MAX_TRANSFORM_SIZE: usize = 32768;

/// `n` is a power of two: one, or an even number whose half is a power of two.
pub open spec fn is_power_of_two(n: nat) -> bool
    decreases n,
{
    if n == 1 {
        true
    } else if n == 0 || n % 2 == 1 {
        false
    } else {
        is_power_of_two(n / 2)
    }
}

/// A block length that the spectrum transform can process.
pub open spec fn supported_transform_size(n: nat) -> bool {
    &&& MIN_TRANSFORM_SIZE <= n <= MAX_TRANSFORM_SIZE
    &&& is_power_of_two(n)
}

/// Whether `n` is a power of two, by halving while it stays even.
pub fn power_of_two(n: usize) -> (r: bool)
    ensures
        r == is_power_of_two(n as nat),
{
    let mut m: usize = n;
    while m > 1 && m % 2 == 0
        invariant
            is_power_of_two(m as nat) == is_power_of_two(n as nat),
        decreases m,
    {
        m = m / 2;
    }
    m == 1
}

/// Whether the spectrum transform can process blocks of `n` samples.
pub fn is_supported_transform_size(n: usize) -> (r: bool)
    ensures
        r == supported_transform_size(n as nat),
{
    MIN_TRANSFORM_SIZE <= n && n <= MAX_TRANSFORM_SIZE && power_of_two(n)
}

} // verus!
