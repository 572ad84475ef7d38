use dsa5_analyzer::character::{ApCalculator, CostCurve};

#[test]
fn generic_curve_is_linear_up_to_twelve() {
    assert_eq!(ApCalculator::talent_value_to_ap_cost(0, 1), 0);
    assert_eq!(ApCalculator::talent_value_to_ap_cost(1, 3), 3);
    assert_eq!(ApCalculator::talent_value_to_ap_cost(12, 1), 12);
    assert_eq!(ApCalculator::talent_value_to_ap_cost(12, 4), 48);
}

#[test]
fn generic_curve_rises_above_twelve() {
    assert_eq!(ApCalculator::talent_value_to_ap_cost(13, 1), 14);
    assert_eq!(ApCalculator::talent_value_to_ap_cost(14, 1), 17);
    assert_eq!(ApCalculator::talent_value_to_ap_cost(15, 1), 21);
    assert_eq!(ApCalculator::talent_value_to_ap_cost(13, 4), 56);
    assert_eq!(ApCalculator::talent_value_to_ap_cost(14, 2), 34);
}

#[test]
fn generic_curve_marginal_costs_rise_by_the_multiplier() {
    for multiplier in 1..=4 {
        for value in 13..40 {
            let step = ApCalculator::talent_value_to_ap_cost(value, multiplier)
                - ApCalculator::talent_value_to_ap_cost(value - 1, multiplier);
            assert_eq!(step, multiplier * (value - 12 + 1));
        }
    }
}

#[test]
fn generic_curve_of_negative_value_is_zero() {
    assert_eq!(ApCalculator::talent_value_to_ap_cost(-1, 1), 0);
    assert_eq!(ApCalculator::talent_value_to_ap_cost(-500, 4), 0);
    assert_eq!(ApCalculator::talent_value_to_ap_cost(i32::MIN, 4), 0);
}

#[test]
fn cost_above_twelve_sums_the_rising_steps() {
    assert_eq!(ApCalculator::cost_above_12(0, 3), 0);
    assert_eq!(ApCalculator::cost_above_12(-4, 3), 0);
    assert_eq!(ApCalculator::cost_above_12(1, 1), 2);
    assert_eq!(ApCalculator::cost_above_12(2, 1), 5);
    assert_eq!(ApCalculator::cost_above_12(3, 2), 18);
}

#[test]
fn combat_skill_curve_is_free_up_to_six() {
    for multiplier in [-3, 0, 1, 2, 3, 4, 1000] {
        assert_eq!(ApCalculator::combat_skill_talent_value_to_ap_cost(6, multiplier), 0);
        assert_eq!(ApCalculator::combat_skill_talent_value_to_ap_cost(0, multiplier), 0);
        assert_eq!(ApCalculator::combat_skill_talent_value_to_ap_cost(-7, multiplier), 0);
    }
}

#[test]
fn combat_skill_curve_counts_from_six() {
    assert_eq!(ApCalculator::combat_skill_talent_value_to_ap_cost(8, 1), 2);
    assert_eq!(ApCalculator::combat_skill_talent_value_to_ap_cost(7, 3), 3);
    assert_eq!(ApCalculator::combat_skill_talent_value_to_ap_cost(12, 2), 12);
    assert_eq!(ApCalculator::combat_skill_talent_value_to_ap_cost(13, 2), 16);
}

#[test]
fn learned_ability_curve_adds_the_learning_cost() {
    assert_eq!(ApCalculator::learned_ability_talent_value_to_ap_cost(0, 1), 1);
    assert_eq!(ApCalculator::learned_ability_talent_value_to_ap_cost(0, 4), 4);
    assert_eq!(ApCalculator::learned_ability_talent_value_to_ap_cost(5, 2), 12);
    assert_eq!(ApCalculator::learned_ability_talent_value_to_ap_cost(13, 2), 30);
    assert_eq!(ApCalculator::learned_ability_talent_value_to_ap_cost(-1, 3), 3);
}

#[test]
fn characteristic_curve_values() {
    assert_eq!(ApCalculator::characteristic_to_ap_cost(8), Ok(0));
    assert_eq!(ApCalculator::characteristic_to_ap_cost(10), Ok(30));
    assert_eq!(ApCalculator::characteristic_to_ap_cost(14), Ok(90));
    assert_eq!(ApCalculator::characteristic_to_ap_cost(15), Ok(120));
    assert_eq!(ApCalculator::characteristic_to_ap_cost(16), Ok(165));
    assert_eq!(ApCalculator::characteristic_to_ap_cost(17), Ok(225));
}

#[test]
fn characteristic_curve_below_eight_is_out_of_range() {
    assert_eq!(
        ApCalculator::characteristic_to_ap_cost(7),
        Err("Value must be greater or equal 8")
    );
    assert!(ApCalculator::characteristic_to_ap_cost(0).is_err());
    assert!(ApCalculator::characteristic_to_ap_cost(-20).is_err());
    assert!(ApCalculator::characteristic_to_ap_cost(i32::MIN).is_err());
}

#[test]
fn checked_characteristic_cost_takes_initial_and_advances() {
    assert_eq!(ApCalculator::checked_characteristic_cost(8, 2), Some(30));
    assert_eq!(ApCalculator::checked_characteristic_cost(12, 3), Some(120));
    assert_eq!(ApCalculator::checked_characteristic_cost(5, 2), Some(0));
    assert_eq!(ApCalculator::checked_characteristic_cost(i32::MIN, -1), Some(0));
    assert_eq!(ApCalculator::checked_characteristic_cost(i32::MAX, i32::MAX), None);
    assert_eq!(ApCalculator::checked_characteristic_cost(i32::MAX, 0), None);
    // the largest nominal value whose cost is a 32-bit integer
    assert_eq!(ApCalculator::checked_characteristic_cost(16933, 0), Some(2147274975));
    assert_eq!(ApCalculator::checked_characteristic_cost(16934, 0), None);
}

#[test]
fn grade_letters_give_multipliers() {
    assert_eq!(ApCalculator::stf_to_multiplier("A"), Some(1));
    assert_eq!(ApCalculator::stf_to_multiplier("B"), Some(2));
    assert_eq!(ApCalculator::stf_to_multiplier("C"), Some(3));
    assert_eq!(ApCalculator::stf_to_multiplier("D"), Some(4));
    assert_eq!(ApCalculator::stf_to_multiplier("a"), Some(1));
    assert_eq!(ApCalculator::stf_to_multiplier("b"), Some(2));
    assert_eq!(ApCalculator::stf_to_multiplier("c"), Some(3));
    assert_eq!(ApCalculator::stf_to_multiplier("d"), Some(4));
}

#[test]
fn other_grades_give_no_multiplier() {
    for grade in ["", "E", "e", "AB", " A", "A ", "1", "\u{e4}", "\u{c4}", "Aa"] {
        assert_eq!(ApCalculator::stf_to_multiplier(grade), None, "{:?}", grade);
    }
}

#[test]
fn grade_multiplier_agrees_with_upper_casing() {
    for code in 0..=0x10ffff_u32 {
        if let Some(c) = char::from_u32(code) {
            let text = c.to_string();
            let expected = match text.to_uppercase().as_str() {
                "A" => Some(1),
                "B" => Some(2),
                "C" => Some(3),
                "D" => Some(4),
                _ => None,
            };
            assert_eq!(ApCalculator::stf_to_multiplier(&text), expected, "{:?}", c);
        }
    }
}

#[test]
fn checked_curve_cost_matches_the_curves() {
    assert_eq!(ApCalculator::checked_curve_cost(CostCurve::Talent, 14, 1), Some(17));
    assert_eq!(ApCalculator::checked_curve_cost(CostCurve::CombatSkill, 8, 1), Some(2));
    assert_eq!(ApCalculator::checked_curve_cost(CostCurve::CombatSkill, 6, 4), Some(0));
    assert_eq!(ApCalculator::checked_curve_cost(CostCurve::LearnedAbility, 0, 1), Some(1));
}

#[test]
fn checked_curve_cost_reports_what_does_not_fit() {
    assert_eq!(ApCalculator::checked_curve_cost(CostCurve::Talent, i32::MAX, 4), None);
    assert_eq!(ApCalculator::checked_curve_cost(CostCurve::Talent, i32::MAX, 0), Some(0));
    assert_eq!(ApCalculator::checked_curve_cost(CostCurve::Talent, 12, i32::MAX), None);
    assert_eq!(ApCalculator::checked_curve_cost(CostCurve::Talent, 1, i32::MAX), Some(i32::MAX));
    assert_eq!(ApCalculator::checked_curve_cost(CostCurve::Talent, 1, i32::MIN), Some(i32::MIN));
    assert_eq!(ApCalculator::checked_curve_cost(CostCurve::LearnedAbility, 0, i32::MAX), Some(i32::MAX));
    assert_eq!(ApCalculator::checked_curve_cost(CostCurve::LearnedAbility, 1, i32::MAX), None);
}
