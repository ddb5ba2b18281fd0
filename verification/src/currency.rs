use vstd::prelude::*;

verus! {

/// A conversion from values of type `A` to values of type `B`.
pub trait Convert<A, B> {
    /// Whether `b` is the result of converting `a`.
    spec fn converts_to(a: A, b: B) -> bool;

    /// Converts `a`; each implementation says through `converts_to` what the
    /// result is.
    fn convert(a: A) -> (b: B)
        ensures
            Self::converts_to(a, b),
    ;
}

/// How currency amounts stand for votes: a `u64` amount is its own vote
/// weight, and amounts move between `u64` and `u128` as plain integers.
pub struct CurrencyToVoteHandler;

/// The number of distinct `u64` values.
pub open spec fn u64_modulus() -> int {
    0x1_0000_0000_0000_0000
}

/// A `u128` amount cut down to its low 64 bits.
pub open spec fn low_bits(x: u128) -> u64 {
    (x as int % u64_modulus()) as u64
}

impl Convert<u64, u64> for CurrencyToVoteHandler {
    /// A `u64` amount is kept as it is.
    open spec fn converts_to(x: u64, r: u64) -> bool {
        r == x
    }

    fn convert(x: u64) -> (r: u64) {
        x
    }
}

impl Convert<u128, u64> for CurrencyToVoteHandler {
    /// A `u128` amount keeps its low 64 bits: the value itself when it fits in
    /// a `u64`, and the value modulo 2^64 when it does not.
    open spec fn converts_to(x: u128, r: u64) -> bool {
        r == low_bits(x)
    }

    fn convert(x: u128) -> (r: u64) {
        let r = x as u64;
        assert(r == x % 0x1_0000_0000_0000_0000) by (bit_vector)
            requires
                r == x as u64,
        ;
        r
    }
}

impl Convert<u128, u128> for CurrencyToVoteHandler {
    /// A `u128` amount is kept as it is.
    open spec fn converts_to(x: u128, r: u128) -> bool {
        r == x
    }

    fn convert(x: u128) -> (r: u128) {
        x
    }
}

impl Convert<u64, u128> for CurrencyToVoteHandler {
    /// A `u64` amount is widened to `u128` with its value unchanged.
    open spec fn converts_to(x: u64, r: u128) -> bool {
        r == x
    }

    fn convert(x: u64) -> (r: u128) {
        x as u128
    }
}

/// Converting a `u64` amount to a `u64` vote weight gives the amount itself,
/// for every amount.
pub proof fn lemma_u64_to_u64_is_identity(x: u64, r: u64)
    requires
        <CurrencyToVoteHandler as Convert<u64, u64>>::converts_to(x, r),
    ensures
        r == x,
{
}

/// Converting a `u128` amount to a `u128` gives the amount itself, for every
/// amount.
pub proof fn lemma_u128_to_u128_is_identity(x: u128, r: u128)
    requires
        <CurrencyToVoteHandler as Convert<u128, u128>>::converts_to(x, r),
    ensures
        r == x,
{
}

/// Widening a `u64` amount to `u128` keeps its value, for every amount.
pub proof fn lemma_u64_to_u128_keeps_value(x: u64, r: u128)
    requires
        <CurrencyToVoteHandler as Convert<u64, u128>>::converts_to(x, r),
    ensures
        r as int == x as int,
{
}

/// Cutting a `u128` amount down to `u64` keeps its remainder modulo 2^64, for
/// every amount: an amount that fits in a `u64` comes out unchanged.
pub proof fn lemma_u128_to_u64_keeps_remainder(x: u128, r: u64)
    requires
        <CurrencyToVoteHandler as Convert<u128, u64>>::converts_to(x, r),
    ensures
        r as int == x as int % 18_446_744_073_709_551_616,
        x as int <= 18_446_744_073_709_551_615 ==> r as int == x as int,
{
}

/// Converting a `u64` amount to `u128` and the result back to `u64` gives the
/// amount back, whatever the two results are as long as each is a conversion
/// result.
pub proof fn lemma_u64_round_trip(x: u64, wide: u128, back: u64)
    requires
        <CurrencyToVoteHandler as Convert<u64, u128>>::converts_to(x, wide),
        <CurrencyToVoteHandler as Convert<u128, u64>>::converts_to(wide, back),
    ensures
        back == x,
{
}

/// Widening a `u64` amount to `u128` and cutting it back down gives the
/// amount back.
pub proof fn lemma_widen_then_narrow(x: u64)
    ensures
        low_bits(x as u128) == x,
{
}

/// A `u128` amount that fits in a `u64` survives being cut down and widened
/// again; any larger amount does not.
pub proof fn lemma_narrow_then_widen(x: u128)
    ensures
        (low_bits(x) as u128 == x) <==> x <= u64::MAX,
{
}

} // verus!
