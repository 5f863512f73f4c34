use qapish::pricing::{
    DepreciationCurve, DepreciationRule, Factor, Percentage, PricingError, FULL_SHARE, STEP_COUNT,
};

fn rule(curve: DepreciationCurve) -> DepreciationRule {
    DepreciationRule {
        package_id: 1,
        final_depreciated_percentage: Percentage { hundredths: 2500 },
        full_depreciation_hours: 26280,
        depreciation_curve: curve,
    }
}

const CURVES: [DepreciationCurve; 3] = [
    DepreciationCurve::Linear,
    DepreciationCurve::Exponential,
    DepreciationCurve::Stepped,
];

#[test]
fn constants_are_the_whole_and_six_steps() {
    assert_eq!(FULL_SHARE, 10000);
    assert_eq!(STEP_COUNT, 6);
}

#[test]
fn linear_midpoint_keeps_five_eighths() {
    let price = rule(DepreciationCurve::Linear).calculate_depreciated_price(3000, 13140);
    assert_eq!(price, Some(1875));
}

#[test]
fn linear_price_is_rounded_down() {
    // 3000 * (1 - 0.75 * 10000 / 26280) = 2143.83...
    let price = rule(DepreciationCurve::Linear).calculate_depreciated_price(3000, 10000);
    assert_eq!(price, Some(2143));
}

#[test]
fn stepped_midpoint_is_on_the_fourth_plateau() {
    let price = rule(DepreciationCurve::Stepped).calculate_depreciated_price(3000, 13140);
    assert_eq!(price, Some(1875));
}

#[test]
fn stepped_price_differs_from_linear_off_the_boundary() {
    let price = rule(DepreciationCurve::Stepped).calculate_depreciated_price(3000, 10000);
    assert_eq!(price, Some(2250));
}

#[test]
fn stepped_plateaus_hold_their_price() {
    let stepped = rule(DepreciationCurve::Stepped);
    // One plateau is 4380 hours wide.
    assert_eq!(stepped.calculate_depreciated_price(3000, 1), Some(3000));
    assert_eq!(stepped.calculate_depreciated_price(3000, 4379), Some(3000));
    assert_eq!(stepped.calculate_depreciated_price(3000, 4380), Some(2625));
    assert_eq!(stepped.calculate_depreciated_price(3000, 8759), Some(2625));
    assert_eq!(stepped.calculate_depreciated_price(3000, 8760), Some(2250));
    assert_eq!(stepped.calculate_depreciated_price(3000, 21900), Some(1125));
    assert_eq!(stepped.calculate_depreciated_price(3000, 26279), Some(1125));
    assert_eq!(stepped.calculate_depreciated_price(3000, 26280), Some(750));
}

#[test]
fn threshold_gives_the_floor_on_every_curve() {
    for curve in CURVES {
        assert_eq!(rule(curve).calculate_depreciated_price(3000, 26280), Some(750));
    }
}

#[test]
fn beyond_the_threshold_the_price_stays_at_the_floor() {
    for curve in CURVES {
        for hours in [26280u32, 26281, 50000, u32::MAX] {
            assert_eq!(rule(curve).calculate_depreciated_price(3001, hours), Some(750));
        }
    }
}

#[test]
fn unused_equipment_keeps_its_price() {
    for curve in CURVES {
        for price in [0u32, 1, 3000, u32::MAX] {
            assert_eq!(rule(curve).calculate_depreciated_price(price, 0), Some(price));
        }
    }
}

#[test]
fn exponential_curve_has_no_value_between_its_ends() {
    let exponential = rule(DepreciationCurve::Exponential);
    assert_eq!(exponential.calculate_depreciated_price(3000, 1), None);
    assert_eq!(exponential.calculate_depreciated_price(3000, 13140), None);
    assert_eq!(exponential.calculate_depreciated_price(3000, 26279), None);
    assert_eq!(exponential.depreciation_factor(13140), None);
}

#[test]
fn exponential_decay_is_taken_from_the_caller() {
    let exponential = rule(DepreciationCurve::Exponential);
    // The square root of one quarter is one half.
    let decay = Factor { numerator: 1, denominator: 2 };
    assert_eq!(exponential.depreciated_price_with(3001, 13140, decay), 1500);
    assert_eq!(exponential.depreciated_price_with(3001, 0, decay), 3001);
    assert_eq!(exponential.depreciated_price_with(3001, 26280, decay), 750);
    let linear = rule(DepreciationCurve::Linear);
    assert_eq!(linear.depreciated_price_with(3000, 13140, decay), 1875);
}

#[test]
fn price_never_rises_with_use() {
    for curve in [DepreciationCurve::Linear, DepreciationCurve::Stepped] {
        let rule = rule(curve);
        let mut before = rule.calculate_depreciated_price(2999, 0).unwrap();
        let mut hours = 0u32;
        while hours <= 30000 {
            let after = rule.calculate_depreciated_price(2999, hours).unwrap();
            assert!(after <= before, "{:?} at {}", curve, hours);
            before = after;
            hours += 37;
        }
    }
}

#[test]
fn price_stays_between_floor_and_original() {
    for curve in [DepreciationCurve::Linear, DepreciationCurve::Stepped] {
        let rule = rule(curve);
        let mut hours = 0u32;
        while hours <= 30000 {
            let price = rule.calculate_depreciated_price(2999, hours).unwrap();
            assert!(749 <= price && price <= 2999);
            hours += 101;
        }
    }
}

#[test]
fn largest_inputs_do_not_overflow() {
    let rule = DepreciationRule {
        package_id: u128::MAX,
        final_depreciated_percentage: Percentage { hundredths: 1 },
        full_depreciation_hours: u32::MAX,
        depreciation_curve: DepreciationCurve::Linear,
    };
    // 1 - 0.9999 * (u32::MAX - 1) / u32::MAX of u32::MAX, rounded down.
    assert_eq!(rule.calculate_depreciated_price(u32::MAX, u32::MAX - 1), Some(429497));
    assert_eq!(rule.calculate_depreciated_price(u32::MAX, u32::MAX), Some(429496));
    assert_eq!(rule.calculate_depreciated_price(u32::MAX, 1), Some(4294967294));
}

#[test]
fn floor_of_zero_and_of_the_whole() {
    let mut rule = rule(DepreciationCurve::Linear);
    rule.final_depreciated_percentage = Percentage { hundredths: 0 };
    assert_eq!(rule.calculate_depreciated_price(3000, 26280), Some(0));
    assert_eq!(rule.calculate_depreciated_price(3000, 13140), Some(1500));
    rule.final_depreciated_percentage = Percentage { hundredths: 10000 };
    assert_eq!(rule.calculate_depreciated_price(3000, 13140), Some(3000));
    assert_eq!(rule.calculate_depreciated_price(3000, 26280), Some(3000));
}

#[test]
fn fractional_floor_is_exact() {
    let mut rule = rule(DepreciationCurve::Linear);
    rule.final_depreciated_percentage = Percentage { hundredths: 3333 };
    assert_eq!(rule.calculate_depreciated_price(3000, 26280), Some(999));
    assert_eq!(rule.calculate_depreciated_price(10000, 30000), Some(3333));
}

#[test]
fn factor_of_each_branch() {
    let linear = rule(DepreciationCurve::Linear);
    assert_eq!(linear.depreciation_factor(0), Some(Factor { numerator: 1, denominator: 1 }));
    assert_eq!(
        linear.depreciation_factor(26280),
        Some(Factor { numerator: 2500, denominator: 10000 })
    );
    assert_eq!(
        linear.depreciation_factor(13140),
        Some(Factor { numerator: 262_800_000 - 7500 * 13140, denominator: 262_800_000 })
    );
    let stepped = rule(DepreciationCurve::Stepped);
    assert_eq!(
        stepped.depreciation_factor(10000),
        Some(Factor { numerator: 60000 - 7500 * 2, denominator: 60000 })
    );
}

#[test]
fn factor_rounds_down() {
    let third = Factor { numerator: 1, denominator: 3 };
    assert!(third.check());
    assert_eq!(third.apply(10), 3);
    assert_eq!(third.apply(2), 0);
    let whole = Factor { numerator: u64::MAX, denominator: u64::MAX };
    assert_eq!(whole.apply(u32::MAX), u32::MAX);
    assert!(!Factor { numerator: 2, denominator: 1 }.check());
    assert!(!Factor { numerator: 0, denominator: 0 }.check());
}

#[test]
fn percentage_is_at_most_the_whole() {
    assert_eq!(Percentage::new(2550), Some(Percentage { hundredths: 2550 }));
    assert_eq!(Percentage::new(10000), Some(Percentage { hundredths: 10000 }));
    assert_eq!(Percentage::new(10001), None);
    assert_eq!(Percentage::from_percent(25), Some(Percentage { hundredths: 2500 }));
    assert_eq!(Percentage::from_percent(100), Some(Percentage { hundredths: 10000 }));
    assert_eq!(Percentage::from_percent(101), None);
    assert!(Percentage { hundredths: 0 }.check());
    assert!(!Percentage { hundredths: 10001 }.check());
}

#[test]
fn rule_without_hours_is_invalid() {
    let mut rule = rule(DepreciationCurve::Linear);
    rule.full_depreciation_hours = 0;
    assert_eq!(rule.validate(), Err(PricingError::InvalidRule));
    assert_eq!(rule.checked_depreciated_price(3000, 10), Err(PricingError::InvalidRule));
}

#[test]
fn rule_with_floor_above_the_whole_is_invalid() {
    let mut rule = rule(DepreciationCurve::Stepped);
    rule.final_depreciated_percentage = Percentage { hundredths: 10001 };
    assert_eq!(rule.validate(), Err(PricingError::InvalidRule));
    assert_eq!(rule.checked_depreciated_price(3000, 0), Err(PricingError::InvalidRule));
}

#[test]
fn exponential_rule_with_floor_of_zero_is_invalid() {
    let made = DepreciationRule::new(
        9,
        Percentage { hundredths: 0 },
        26280,
        DepreciationCurve::Exponential,
    );
    assert_eq!(made, Err(PricingError::InvalidRule));
    let linear = DepreciationRule::new(9, Percentage { hundredths: 0 }, 26280, DepreciationCurve::Linear);
    assert!(linear.is_ok());
}

#[test]
fn valid_rule_is_made_and_priced() {
    let made = DepreciationRule::new(
        1,
        Percentage { hundredths: 2500 },
        26280,
        DepreciationCurve::Linear,
    );
    assert_eq!(made, Ok(rule(DepreciationCurve::Linear)));
    let rule = made.unwrap();
    assert_eq!(rule.validate(), Ok(()));
    assert_eq!(rule.checked_depreciated_price(3000, 13140), Ok(Some(1875)));
    let exponential = DepreciationRule { depreciation_curve: DepreciationCurve::Exponential, ..rule };
    assert_eq!(exponential.checked_depreciated_price(3000, 13140), Ok(None));
}

/// The part that the exponential curve keeps, evaluated in floating point.
fn decay(rule: &DepreciationRule, usage_hours: u32) -> Factor {
    let scale = 9_007_199_254_740_992.0_f64;
    let ratio = usage_hours as f64 / rule.full_depreciation_hours as f64;
    let floor = rule.final_depreciated_percentage.hundredths as f64 / 10000.0;
    let kept = (floor.ln() * ratio).exp().clamp(0.0, 1.0);
    Factor { numerator: (kept * scale) as u64, denominator: scale as u64 }
}

#[test]
fn exponential_price_at_the_midpoint() {
    let rule = rule(DepreciationCurve::Exponential);
    let kept = decay(&rule, 13140);
    assert!(kept.check());
    // The square root of one quarter of 3000, give or take the last bit.
    let price = rule.depreciated_price_with(3000, 13140, kept);
    assert!(price == 1500 || price == 1499);
}

#[test]
fn exponential_price_never_rises_with_use() {
    let rule = rule(DepreciationCurve::Exponential);
    let mut before = 3000;
    let mut hours = 0u32;
    while hours <= 30000 {
        let after = rule.depreciated_price_with(3000, hours, decay(&rule, hours));
        assert!(after <= before, "at {}", hours);
        assert!(750 <= after && after <= 3000);
        before = after;
        hours += 53;
    }
    assert_eq!(before, 750);
}
