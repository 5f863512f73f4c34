//! Depreciation of used equipment, in exact integer arithmetic.
//!
//! A price is a whole number of currency units and a percentage is a whole
//! number of hundredths of a percent. Every price that this module hands out
//! is the floor of the exact rational value: nothing is rounded up or to the
//! nearest unit.
//!
//! The exponential curve has no rational value between its end points, so
//! the rule answers `None` there: the caller evaluates the decay itself,
//! hands it over as a [`Factor`] and lets [`Factor::apply`] round it.

use vstd::prelude::*;
use vstd::arithmetic::div_mod::{lemma_div_is_ordered, lemma_div_multiples_vanish_quotient};

verus! {

/// The number of hundredths of a percent in the whole.
pub const FULL_SHARE: u32 = 10000;

/// The number of plateaus of the stepped curve.
pub const STEP_COUNT: u32 = 6;

/// Why a price could not be computed.
#[derive(Clone, Copy, Debug, PartialEq, Eq, Structural)]
pub enum PricingError {
    /// The rule has no hours of full depreciation, a floor above one hundred
    /// percent, or an exponential curve with a floor of zero.
    InvalidRule,
}

/// The shape of the decline of a price over the hours of use.
#[derive(Clone, Copy, Debug, PartialEq, Eq, Structural)]
pub enum DepreciationCurve {
    Linear,
    Exponential,
    Stepped,
}

/// A share of a whole, in hundredths of a percent.
#[derive(Clone, Copy, Debug, PartialEq, Eq, Structural)]
pub struct Percentage {
    pub hundredths: u32,
}

impl Percentage {
    /// At most one hundred percent.
    pub open spec fn is_valid(&self) -> bool {
        self.hundredths <= FULL_SHARE
    }

    /// The share given in hundredths of a percent, if it is at most the whole.
    pub fn new(hundredths: u32) -> (made: Option<Percentage>)
        ensures
            made == if hundredths <= FULL_SHARE {
                Some(Percentage { hundredths })
            } else {
                None::<Percentage>
            },
    {
        if hundredths <= FULL_SHARE {
            Some(Percentage { hundredths })
        } else {
            None
        }
    }

    /// The share given in whole percent, if it is at most one hundred.
    pub fn from_percent(percent: u32) -> (made: Option<Percentage>)
        ensures
            made == if percent <= 100 {
                Some(Percentage { hundredths: (percent * 100) as u32 })
            } else {
                None::<Percentage>
            },
    {
        if percent <= 100 {
            Some(Percentage { hundredths: percent * 100 })
        } else {
            None
        }
    }

    /// The test that [`Percentage::is_valid`] states.
    pub fn check(&self) -> (valid: bool)
        ensures
            valid == self.is_valid(),
    {
        self.hundredths <= FULL_SHARE
    }
}

/// The floor of `amount * numerator / denominator`.
pub open spec fn scaled(amount: int, numerator: int, denominator: int) -> int {
    amount * numerator / denominator
}

/// The plateau that `usage_hours` falls on, of six equal ones that divide the
/// hours before `full_hours`.
pub open spec fn step_at(usage_hours: int, full_hours: int) -> int {
    let step = STEP_COUNT * usage_hours / full_hours;
    if step > STEP_COUNT - 1 {
        STEP_COUNT - 1
    } else {
        step
    }
}

/// The part of a price that is kept, as an exact fraction between zero and
/// one.
#[derive(Clone, Copy, Debug, PartialEq, Eq, Structural)]
pub struct Factor {
    pub numerator: u64,
    pub denominator: u64,
}

impl Factor {
    /// The fraction is defined and at most one.
    pub open spec fn is_valid(&self) -> bool {
        0 < self.denominator && self.numerator <= self.denominator
    }

    /// The price that is left of `original_price`, rounded down.
    pub open spec fn price_of(&self, original_price: int) -> int {
        scaled(original_price, self.numerator as int, self.denominator as int)
    }

    /// The fraction is not larger than `other`, both being valid.
    pub open spec fn at_most(&self, other: Factor) -> bool {
        self.numerator * other.denominator <= other.numerator * self.denominator
    }

    /// The test that [`Factor::is_valid`] states.
    pub fn check(&self) -> (valid: bool)
        ensures
            valid == self.is_valid(),
    {
        0 < self.denominator && self.numerator <= self.denominator
    }

    /// Applies the factor to a price and rounds down to a whole unit.
    pub fn apply(&self, original_price: u32) -> (price: u32)
        requires
            self.is_valid(),
        ensures
            price == self.price_of(original_price as int),
            price <= original_price,
    {
        let amount: u128 = original_price as u128;
        let numerator: u128 = self.numerator as u128;
        let denominator: u128 = self.denominator as u128;
        proof {
            lemma_scaled_bounds(amount as int, numerator as int, denominator as int);
            assert(amount * numerator <= 0xffff_ffff * 0xffff_ffff_ffff_ffff) by (nonlinear_arith)
                requires
                    amount <= 0xffff_ffff,
                    numerator <= 0xffff_ffff_ffff_ffff,
            ;
        }
        let price: u128 = amount * numerator / denominator;
        price as u32
    }
}

/// How the price of one package declines with the hours of use.
#[derive(Clone, Copy, Debug, PartialEq, Eq, Structural)]
pub struct DepreciationRule {
    /// The package that the rule belongs to.
    pub package_id: u128,
    /// The share of the original price that is left after full depreciation.
    pub final_depreciated_percentage: Percentage,
    /// The hours of use at which that floor is reached.
    pub full_depreciation_hours: u32,
    pub depreciation_curve: DepreciationCurve,
}

impl DepreciationRule {
    /// The floor is at most one hundred percent and is reached after a
    /// positive number of hours; an exponential curve, which never reaches
    /// zero, has a positive floor.
    pub open spec fn is_valid(&self) -> bool {
        &&& self.final_depreciated_percentage.is_valid()
        &&& self.full_depreciation_hours > 0
        &&& (self.depreciation_curve is Exponential
            ==> self.final_depreciated_percentage.hundredths > 0)
    }

    /// The part of the floor that is still to be lost, in hundredths of a
    /// percent of the original price.
    pub open spec fn span(&self) -> int {
        FULL_SHARE - self.final_depreciated_percentage.hundredths
    }

    /// The part of the original price that is kept after `usage_hours`.
    ///
    /// Unused equipment keeps all of it; from the hours of full depreciation
    /// on it keeps the floor. Between the two the linear curve loses the span
    /// in proportion to the hours, and the stepped curve loses one sixth of
    /// it with each plateau passed. The exponential curve has no rational
    /// value there.
    pub open spec fn factor_at(&self, usage_hours: int) -> Option<Factor> {
        let full = self.full_depreciation_hours as int;
        if usage_hours <= 0 {
            Some(Factor { numerator: 1, denominator: 1 })
        } else if usage_hours >= full {
            Some(
                Factor {
                    numerator: self.final_depreciated_percentage.hundredths as u64,
                    denominator: FULL_SHARE as u64,
                },
            )
        } else {
            match self.depreciation_curve {
                DepreciationCurve::Linear => Some(
                    Factor {
                        numerator: (FULL_SHARE * full - self.span() * usage_hours) as u64,
                        denominator: (FULL_SHARE * full) as u64,
                    },
                ),
                DepreciationCurve::Exponential => None,
                DepreciationCurve::Stepped => Some(
                    Factor {
                        numerator: (FULL_SHARE * STEP_COUNT - self.span() * step_at(
                            usage_hours,
                            full,
                        )) as u64,
                        denominator: (FULL_SHARE * STEP_COUNT) as u64,
                    },
                ),
            }
        }
    }

    /// The price of equipment that cost `original_price` when new, after
    /// `usage_hours`: the kept part of the price, rounded down.
    pub open spec fn depreciated_price(&self, original_price: int, usage_hours: int) -> Option<
        int,
    > {
        match self.factor_at(usage_hours) {
            Some(factor) => Some(factor.price_of(original_price)),
            None => None,
        }
    }

    /// The price after full depreciation: the floor's share of the original
    /// price, rounded down.
    pub open spec fn floor_price(&self, original_price: int) -> int {
        scaled(
            original_price,
            self.final_depreciated_percentage.hundredths as int,
            FULL_SHARE as int,
        )
    }

    /// The floor as a fraction of the original price.
    pub open spec fn floor_factor(&self) -> Factor {
        Factor {
            numerator: self.final_depreciated_percentage.hundredths as u64,
            denominator: FULL_SHARE as u64,
        }
    }

    /// The price after `usage_hours` on every curve, where `decay` is the
    /// part that the exponential curve keeps at those hours: the price that
    /// the rule gives, and `decay` of the original price, rounded down, where
    /// it gives none.
    pub open spec fn depreciated_price_given(
        &self,
        original_price: int,
        usage_hours: int,
        decay: Factor,
    ) -> int {
        match self.depreciated_price(original_price, usage_hours) {
            Some(amount) => amount,
            None => decay.price_of(original_price),
        }
    }

    /// Whether the curve has a rational value at `usage_hours`.
    pub open spec fn is_rational_at(&self, usage_hours: int) -> bool {
        ||| !(self.depreciation_curve is Exponential)
        ||| usage_hours <= 0
        ||| usage_hours >= self.full_depreciation_hours
    }

    /// Makes a rule, or refuses the values that [`DepreciationRule::is_valid`]
    /// excludes.
    pub fn new(
        package_id: u128,
        final_depreciated_percentage: Percentage,
        full_depreciation_hours: u32,
        depreciation_curve: DepreciationCurve,
    ) -> (made: Result<DepreciationRule, PricingError>)
        ensures
            ({
                let rule = DepreciationRule {
                    package_id,
                    final_depreciated_percentage,
                    full_depreciation_hours,
                    depreciation_curve,
                };
                made == if rule.is_valid() {
                    Ok::<DepreciationRule, PricingError>(rule)
                } else {
                    Err::<DepreciationRule, PricingError>(PricingError::InvalidRule)
                }
            }),
    {
        let rule = DepreciationRule {
            package_id,
            final_depreciated_percentage,
            full_depreciation_hours,
            depreciation_curve,
        };
        match rule.validate() {
            Ok(()) => Ok(rule),
            Err(error) => Err(error),
        }
    }

    /// Accepts the rule exactly if it is valid.
    pub fn validate(&self) -> (checked: Result<(), PricingError>)
        ensures
            checked == if self.is_valid() {
                Ok::<(), PricingError>(())
            } else {
                Err::<(), PricingError>(PricingError::InvalidRule)
            },
    {
        if !self.final_depreciated_percentage.check() {
            return Err(PricingError::InvalidRule);
        }
        if self.full_depreciation_hours == 0 {
            return Err(PricingError::InvalidRule);
        }
        match self.depreciation_curve {
            DepreciationCurve::Exponential => {
                if self.final_depreciated_percentage.hundredths == 0 {
                    return Err(PricingError::InvalidRule);
                }
            },
            _ => {},
        }
        Ok(())
    }

    /// The part of the original price that is kept after `usage_hours`, or
    /// `None` where the exponential curve has no rational value.
    pub fn depreciation_factor(&self, usage_hours: u32) -> (factor: Option<Factor>)
        requires
            self.is_valid(),
        ensures
            factor == self.factor_at(usage_hours as int),
            factor is Some <==> self.is_rational_at(usage_hours as int),
            factor matches Some(kept) ==> kept.is_valid(),
    {
        let share: u64 = self.final_depreciated_percentage.hundredths as u64;
        let full: u64 = self.full_depreciation_hours as u64;
        let whole: u64 = FULL_SHARE as u64;
        if usage_hours == 0 {
            return Some(Factor { numerator: 1, denominator: 1 });
        }
        if usage_hours >= self.full_depreciation_hours {
            return Some(Factor { numerator: share, denominator: whole });
        }
        let span: u64 = whole - share;
        let used: u64 = usage_hours as u64;
        match self.depreciation_curve {
            DepreciationCurve::Linear => {
                proof {
                    assert(span * used <= whole * full) by (nonlinear_arith)
                        requires
                            span <= whole,
                            used <= full,
                    ;
                    assert(whole * full <= 10000 * 0xffff_ffff) by (nonlinear_arith)
                        requires
                            whole == 10000,
                            full <= 0xffff_ffff,
                    ;
                }
                let denominator: u64 = whole * full;
                let lost: u64 = span * used;
                Some(Factor { numerator: denominator - lost, denominator })
            },
            DepreciationCurve::Exponential => None,
            DepreciationCurve::Stepped => {
                let steps: u64 = STEP_COUNT as u64;
                let reached: u64 = steps * used / full;
                let step: u64 = if reached > steps - 1 {
                    steps - 1
                } else {
                    reached
                };
                proof {
                    assert(span * step <= whole * steps) by (nonlinear_arith)
                        requires
                            span <= whole,
                            step <= steps,
                    ;
                    assert(span * step <= 60000) by (nonlinear_arith)
                        requires
                            span <= 10000,
                            step <= 5,
                    ;
                }
                let denominator: u64 = whole * steps;
                let lost: u64 = span * step;
                Some(Factor { numerator: denominator - lost, denominator })
            },
        }
    }

    /// The price of equipment that cost `original_price` when new, after
    /// `usage_hours` of use, rounded down to a whole unit; `None` exactly
    /// where the exponential curve has no rational value, which is strictly
    /// between no use and full depreciation.
    pub fn calculate_depreciated_price(&self, original_price: u32, usage_hours: u32) -> (price:
        Option<u32>)
        requires
            self.is_valid(),
        ensures
            price is Some <==> self.is_rational_at(usage_hours as int),
            match price {
                Some(amount) => self.depreciated_price(original_price as int, usage_hours as int)
                    == Some(amount as int),
                None => self.depreciated_price(original_price as int, usage_hours as int)
                    is None,
            },
            usage_hours == 0 ==> price == Some(original_price),
            usage_hours >= self.full_depreciation_hours ==> price == Some(
                self.floor_price(original_price as int) as u32,
            ),
            price matches Some(amount) ==> self.floor_price(original_price as int) <= amount
                <= original_price,
    {
        proof {
            law_unused_keeps_price(*self, original_price as int);
            law_price_within_bounds(*self, original_price as int, usage_hours as int);
        }
        match self.depreciation_factor(usage_hours) {
            Some(factor) => Some(factor.apply(original_price)),
            None => None,
        }
    }

    /// The price after `usage_hours` on every curve: as
    /// [`DepreciationRule::calculate_depreciated_price`] where the curve has
    /// a rational value, and else `decay`, the value of the exponential curve
    /// that the caller has evaluated, applied to the price and rounded down.
    pub fn depreciated_price_with(
        &self,
        original_price: u32,
        usage_hours: u32,
        decay: Factor,
    ) -> (price: u32)
        requires
            self.is_valid(),
            decay.is_valid(),
        ensures
            price == self.depreciated_price_given(
                original_price as int,
                usage_hours as int,
                decay,
            ),
            price <= original_price,
    {
        match self.calculate_depreciated_price(original_price, usage_hours) {
            Some(amount) => amount,
            None => decay.apply(original_price),
        }
    }

    /// As [`DepreciationRule::calculate_depreciated_price`], for a rule that
    /// was not validated: an invalid rule is refused, and the caller shows
    /// the original price.
    pub fn checked_depreciated_price(&self, original_price: u32, usage_hours: u32) -> (price:
        Result<Option<u32>, PricingError>)
        ensures
            price is Ok <==> self.is_valid(),
            price matches Err(error) ==> error == PricingError::InvalidRule,
            price matches Ok(Some(amount)) ==> self.depreciated_price(
                original_price as int,
                usage_hours as int,
            ) == Some(amount as int),
            price matches Ok(None) ==> self.depreciated_price(
                original_price as int,
                usage_hours as int,
            ) is None,
    {
        match self.validate() {
            Ok(()) => Ok(self.calculate_depreciated_price(original_price, usage_hours)),
            Err(error) => Err(error),
        }
    }
}

/// A fraction of at most one, applied to an amount that is not negative and
/// rounded down, gives an amount between zero and the first.
pub proof fn lemma_scaled_bounds(amount: int, numerator: int, denominator: int)
    requires
        0 <= amount,
        0 <= numerator <= denominator,
        0 < denominator,
    ensures
        0 <= scaled(amount, numerator, denominator) <= amount,
{
    assert(0 <= amount * numerator <= amount * denominator) by (nonlinear_arith)
        requires
            0 <= amount,
            0 <= numerator <= denominator,
    ;
    lemma_div_is_ordered(0, amount * numerator, denominator);
    lemma_div_is_ordered(amount * numerator, amount * denominator, denominator);
    assert(amount * denominator / denominator == amount) by (nonlinear_arith)
        requires
            0 < denominator,
    ;
}

/// Of two fractions, the one that is not larger gives the price that is not
/// larger: `n1 / d1 <= n2 / d2` is stated as `n1 * d2 <= n2 * d1`.
pub proof fn lemma_scaled_ordered(amount: int, n1: int, d1: int, n2: int, d2: int)
    requires
        0 <= amount,
        0 <= n1,
        0 <= n2,
        0 < d1,
        0 < d2,
        n1 * d2 <= n2 * d1,
    ensures
        scaled(amount, n1, d1) <= scaled(amount, n2, d2),
{
    // Bring both fractions to the denominator d1 * d2.
    lemma_div_multiples_vanish_quotient(d2, amount * n1, d1);
    lemma_div_multiples_vanish_quotient(d1, amount * n2, d2);
    assert(d2 * (amount * n1) == amount * (n1 * d2)) by (nonlinear_arith);
    assert(d1 * (amount * n2) == amount * (n2 * d1)) by (nonlinear_arith);
    assert(d2 * d1 == d1 * d2) by (nonlinear_arith);
    assert(0 < d1 * d2) by (nonlinear_arith)
        requires
            0 < d1,
            0 < d2,
    ;
    assert(amount * (n1 * d2) <= amount * (n2 * d1)) by (nonlinear_arith)
        requires
            0 <= amount,
            n1 * d2 <= n2 * d1,
    ;
    lemma_div_is_ordered(amount * (n1 * d2), amount * (n2 * d1), d1 * d2);
}

/// Where a valid rule has a factor, the factor is a fraction between the
/// floor and one, and its two parts are the integers that the definition
/// names, without any wrapping.
proof fn lemma_factor_shape(rule: DepreciationRule, usage_hours: int)
    requires
        rule.is_valid(),
    ensures
        rule.factor_at(usage_hours) is Some <==> rule.is_rational_at(usage_hours),
        rule.factor_at(usage_hours) matches Some(kept) ==> {
            &&& kept.is_valid()
            &&& rule.final_depreciated_percentage.hundredths * kept.denominator
                <= kept.numerator * FULL_SHARE
        },
        rule.factor_at(usage_hours) matches Some(kept) ==> 0 < usage_hours
            < rule.full_depreciation_hours ==> {
            &&& rule.depreciation_curve is Linear ==> {
                &&& kept.denominator == FULL_SHARE * rule.full_depreciation_hours
                &&& kept.numerator == FULL_SHARE * rule.full_depreciation_hours - rule.span()
                    * usage_hours
            }
            &&& rule.depreciation_curve is Stepped ==> {
                &&& kept.denominator == FULL_SHARE * STEP_COUNT
                &&& kept.numerator == FULL_SHARE * STEP_COUNT - rule.span() * step_at(
                    usage_hours,
                    rule.full_depreciation_hours as int,
                )
                &&& 0 <= step_at(usage_hours, rule.full_depreciation_hours as int) <= STEP_COUNT
                    - 1
            }
        },
{
    let full = rule.full_depreciation_hours as int;
    let share = rule.final_depreciated_percentage.hundredths as int;
    let span = rule.span();
    if 0 < usage_hours < full {
        match rule.depreciation_curve {
            DepreciationCurve::Linear => {
                assert(0 <= span * usage_hours <= span * full) by (nonlinear_arith)
                    requires
                        0 <= span,
                        0 < usage_hours < full,
                ;
                assert(span * full == 10000 * full - share * full) by (nonlinear_arith)
                    requires
                        span == 10000 - share,
                ;
                assert(0 <= share * full) by (nonlinear_arith)
                    requires
                        0 <= share,
                        0 < full,
                ;
                assert(10000 * full <= 10000 * 0xffff_ffff) by (nonlinear_arith)
                    requires
                        full <= 0xffff_ffff,
                ;
                let kept = rule.factor_at(usage_hours)->0;
                assert(kept.denominator == 10000 * full);
                assert(kept.numerator == 10000 * full - span * usage_hours);
                assert(share * (10000 * full) <= (10000 * full - span * usage_hours) * 10000)
                    by (nonlinear_arith)
                    requires
                        span * usage_hours <= 10000 * full - share * full,
                        0 <= share,
                ;
            },
            DepreciationCurve::Exponential => {},
            DepreciationCurve::Stepped => {
                let step = step_at(usage_hours, full);
                assert(0 <= 6 * usage_hours / full) by (nonlinear_arith)
                    requires
                        0 < usage_hours,
                        0 < full,
                ;
                assert(0 <= step <= 5);
                assert(0 <= span * step <= span * 5) by (nonlinear_arith)
                    requires
                        0 <= span,
                        0 <= step <= 5,
                ;
                let kept = rule.factor_at(usage_hours)->0;
                assert(kept.denominator == 60000);
                assert(kept.numerator == 60000 - span * step);
            },
        }
    }
}

/// The prices between no use and full depreciation, written out: the linear
/// curve keeps the whole less the span in proportion to the hours, the
/// stepped curve the whole less one sixth of the span for each plateau
/// passed, and both are rounded down.
pub proof fn law_curve_formulas(rule: DepreciationRule, original_price: int, usage_hours: int)
    requires
        rule.is_valid(),
        0 < usage_hours < rule.full_depreciation_hours,
    ensures
        rule.depreciation_curve is Linear ==> rule.depreciated_price(original_price, usage_hours)
            == Some(
            original_price * (FULL_SHARE * rule.full_depreciation_hours - rule.span() * usage_hours)
                / (FULL_SHARE * rule.full_depreciation_hours),
        ),
        rule.depreciation_curve is Stepped ==> rule.depreciated_price(original_price, usage_hours)
            == Some(
            original_price * (FULL_SHARE * STEP_COUNT - rule.span() * (STEP_COUNT * usage_hours
                / (rule.full_depreciation_hours as int))) / (FULL_SHARE * STEP_COUNT),
        ),
        rule.depreciation_curve is Exponential ==> rule.depreciated_price(
            original_price,
            usage_hours,
        ) is None,
{
    lemma_factor_shape(rule, usage_hours);
    let full = rule.full_depreciation_hours as int;
    assert(STEP_COUNT * usage_hours / full <= STEP_COUNT - 1) by {
        assert(6 * usage_hours / full < 6) by (nonlinear_arith)
            requires
                0 < usage_hours < full,
        ;
    }
}

/// Equipment that was never used keeps its price, whatever the rule.
pub proof fn law_unused_keeps_price(rule: DepreciationRule, original_price: int)
    requires
        rule.is_valid(),
        0 <= original_price,
    ensures
        rule.depreciated_price(original_price, 0) == Some(original_price),
{
    assert(original_price * 1 / 1 == original_price);
}

/// From the hours of full depreciation on the price is the floor's share of
/// the original price, rounded down, whatever the curve: further use changes
/// nothing.
pub proof fn law_floor_from_threshold_on(
    rule: DepreciationRule,
    original_price: int,
    usage_hours: int,
    later_hours: int,
)
    requires
        rule.is_valid(),
        0 <= original_price,
        rule.full_depreciation_hours <= usage_hours <= later_hours,
    ensures
        rule.depreciated_price(original_price, usage_hours) == Some(
            rule.floor_price(original_price),
        ),
        rule.depreciated_price(original_price, later_hours) == rule.depreciated_price(
            original_price,
            usage_hours,
        ),
{
}

/// A price that the rule gives lies between the floor's share of the
/// original price, rounded down, and the original price.
pub proof fn law_price_within_bounds(rule: DepreciationRule, original_price: int, usage_hours: int)
    requires
        rule.is_valid(),
        0 <= original_price,
    ensures
        rule.depreciated_price(original_price, usage_hours) matches Some(price) ==> rule.floor_price(
            original_price,
        ) <= price <= original_price,
{
    lemma_factor_shape(rule, usage_hours);
    if let Some(kept) = rule.factor_at(usage_hours) {
        lemma_scaled_bounds(original_price, kept.numerator as int, kept.denominator as int);
        lemma_scaled_ordered(
            original_price,
            rule.final_depreciated_percentage.hundredths as int,
            FULL_SHARE as int,
            kept.numerator as int,
            kept.denominator as int,
        );
    }
}

/// More use never raises the price: of two prices that one rule gives for
/// one original price, the one after more hours is not the larger. This
/// holds of the linear and the stepped curve at all hours, and of the
/// exponential curve at the hours at which it has a rational value.
pub proof fn law_price_non_increasing(
    rule: DepreciationRule,
    original_price: int,
    usage_hours: int,
    later_hours: int,
)
    requires
        rule.is_valid(),
        0 <= original_price,
        0 <= usage_hours <= later_hours,
    ensures
        rule.depreciated_price(original_price, usage_hours) matches Some(before)
            ==> rule.depreciated_price(original_price, later_hours) matches Some(after) ==> after
            <= before,
{
    let full = rule.full_depreciation_hours as int;
    let span = rule.span();
    law_price_within_bounds(rule, original_price, usage_hours);
    law_price_within_bounds(rule, original_price, later_hours);
    law_unused_keeps_price(rule, original_price);
    lemma_factor_shape(rule, usage_hours);
    lemma_factor_shape(rule, later_hours);
    if 0 < usage_hours && later_hours < full {
        match rule.depreciation_curve {
            DepreciationCurve::Linear => {
                let denominator = FULL_SHARE * full;
                assert(span * usage_hours <= span * later_hours) by (nonlinear_arith)
                    requires
                        0 <= span,
                        usage_hours <= later_hours,
                ;
                assert(0 < denominator);
                assert((denominator - span * later_hours) * denominator <= (denominator - span
                    * usage_hours) * denominator) by (nonlinear_arith)
                    requires
                        span * usage_hours <= span * later_hours,
                        0 < denominator,
                ;
                lemma_scaled_ordered(
                    original_price,
                    denominator - span * later_hours,
                    denominator,
                    denominator - span * usage_hours,
                    denominator,
                );
            },
            DepreciationCurve::Exponential => {},
            DepreciationCurve::Stepped => {
                let denominator = FULL_SHARE * STEP_COUNT;
                let step = step_at(usage_hours, full);
                let later_step = step_at(later_hours, full);
                lemma_div_is_ordered(STEP_COUNT * usage_hours, STEP_COUNT * later_hours, full);
                assert(step <= later_step);
                assert(span * step <= span * later_step) by (nonlinear_arith)
                    requires
                        0 <= span,
                        step <= later_step,
                ;
                assert((denominator - span * later_step) * denominator <= (denominator - span
                    * step) * denominator) by (nonlinear_arith)
                    requires
                        span * step <= span * later_step,
                        0 < denominator,
                ;
                lemma_scaled_ordered(
                    original_price,
                    denominator - span * later_step,
                    denominator,
                    denominator - span * step,
                    denominator,
                );
            },
        }
    }
}

/// More use never raises the price on the exponential curve either, as long
/// as the decay that the caller evaluates does what the curve does: it lies
/// between the floor and the whole and does not grow with the hours.
pub proof fn law_decayed_price_non_increasing(
    rule: DepreciationRule,
    original_price: int,
    usage_hours: int,
    later_hours: int,
    decay: Factor,
    later_decay: Factor,
)
    requires
        rule.is_valid(),
        0 <= original_price,
        0 <= usage_hours <= later_hours,
        decay.is_valid(),
        later_decay.is_valid(),
        rule.floor_factor().at_most(decay),
        rule.floor_factor().at_most(later_decay),
        later_decay.at_most(decay),
    ensures
        rule.depreciated_price_given(original_price, later_hours, later_decay)
            <= rule.depreciated_price_given(original_price, usage_hours, decay),
        rule.floor_price(original_price) <= rule.depreciated_price_given(
            original_price,
            usage_hours,
            decay,
        ) <= original_price,
{
    let floor = rule.floor_factor();
    law_price_non_increasing(rule, original_price, usage_hours, later_hours);
    law_price_within_bounds(rule, original_price, usage_hours);
    law_price_within_bounds(rule, original_price, later_hours);
    law_unused_keeps_price(rule, original_price);
    lemma_factor_shape(rule, usage_hours);
    lemma_factor_shape(rule, later_hours);
    lemma_scaled_bounds(original_price, decay.numerator as int, decay.denominator as int);
    lemma_scaled_bounds(
        original_price,
        later_decay.numerator as int,
        later_decay.denominator as int,
    );
    lemma_scaled_ordered(
        original_price,
        floor.numerator as int,
        floor.denominator as int,
        decay.numerator as int,
        decay.denominator as int,
    );
    lemma_scaled_ordered(
        original_price,
        floor.numerator as int,
        floor.denominator as int,
        later_decay.numerator as int,
        later_decay.denominator as int,
    );
    lemma_scaled_ordered(
        original_price,
        later_decay.numerator as int,
        later_decay.denominator as int,
        decay.numerator as int,
        decay.denominator as int,
    );
}

} // verus!
