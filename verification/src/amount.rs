//! Exact-decimal scaling of user-supplied token amounts into integer base units.
//!
//! A user-facing amount is a nonnegative decimal number of tokens. The scaler
//! separates its magnitude from its sub-unit fraction: the integer part is
//! applied by exact integer multiplication, and the fractional part is treated
//! as the reciprocal of a small integer (its nearest-integer reciprocal), which
//! is applied by integer division. The conversion is exact whenever the
//! fractional part is a clean reciprocal (0.5, 0.25, 0.1, ...); other
//! fractions round to the nearest such reciprocal, a documented precision
//! boundary of this scheme.

use vstd::prelude::*;

verus! {

/// Base units per whole token: the chain's smallest indivisible denomination.
pub const CREDO_PER_CTC: u128 = 1_000_000_000_000_000_000;

/// A nonnegative decimal scale factor, decomposed the way the scaler reads it.
///
/// A factor `f` is carried as its integer part `whole == trunc(f)` together
/// with `frac_divisor`, the nearest integer to the reciprocal of its
/// fractional part `f - trunc(f)`. A zero fractional part has an unbounded
/// reciprocal, which saturates to `u128::MAX`, so the fractional contribution
/// `value / frac_divisor` is zero for every value below `u128::MAX`.
/// `negative` records whether the decimal the factor came from was below zero;
/// the scaler refuses such a factor outright.
#[derive(Clone, Copy, Debug, PartialEq, Eq, Structural)]
pub struct Factor {
    pub negative: bool,
    pub whole: u128,
    pub frac_divisor: u128,
}

impl Factor {
    /// A factor's reciprocal divisor is at least one: the fractional part lies
    /// in `[0, 1)`, so its reciprocal exceeds one (or saturates when zero).
    pub open spec fn wf(self) -> bool {
        self.frac_divisor >= 1
    }
}

/// What scaling a value by a decomposed factor yields: the exact product with
/// the integer part, plus the value divided by the fractional part's
/// reciprocal divisor.
pub open spec fn scale_spec(value: u128, whole: u128, frac_divisor: u128) -> int
    recommends
        frac_divisor >= 1,
{
    value * whole + value as int / frac_divisor as int
}

/// An amount of indivisible base units, as carried on the wire.
#[derive(Clone, Copy, Debug, PartialEq, Eq, Structural)]
pub struct Ctc(pub u128);

/// The scaler's precondition: the factor is nonnegative and well formed, and
/// the scaled result fits in 128 bits.
pub open spec fn scale_pre(value: u128, f: Factor) -> bool {
    &&& !f.negative
    &&& f.wf()
    &&& scale_spec(value, f.whole, f.frac_divisor) <= u128::MAX
}

/// Scale `value` by the decomposed decimal factor `by`.
///
/// The factor must be nonnegative: a negative amount is a caller error,
/// rejected by assertion before any scaling, so it is excluded here outright.
/// The result must fit in 128 bits.
pub fn scale(value: u128, by: &Factor) -> (r: u128)
    requires
        scale_pre(value, *by),
    ensures
        r == scale_spec(value, by.whole, by.frac_divisor),
{
    let whole_part: u128 = value * by.whole;
    let frac_part: u128 = value / by.frac_divisor;
    whole_part + frac_part
}

/// Convert a decomposed decimal token amount into base units, scaling by
/// [`CREDO_PER_CTC`].
pub fn ctc_frac(amount: &Factor) -> (r: Ctc)
    requires
        scale_pre(CREDO_PER_CTC, *amount),
    ensures
        r.0 == scale_spec(CREDO_PER_CTC, amount.whole, amount.frac_divisor),
{
    Ctc(scale(CREDO_PER_CTC, amount))
}

/// Law: a negative factor never meets the scaler's precondition, whatever the
/// value and whatever the rest of the factor — no call of [`scale`] or
/// [`ctc_frac`] on one verifies, so neither ever returns a value for one.
pub proof fn lemma_negative_factor_refused(value: u128, f: Factor)
    requires
        f.negative,
    ensures
        !scale_pre(value, f),
{
}

} // verus!
