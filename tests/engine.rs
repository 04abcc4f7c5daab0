use uk_tax::tax::{calculate, calculate_for_range, BaseSalaryRange, DomainError, InputData};
use uk_tax::tax_impl::{
    get_annual_bonus, get_national_insurance, get_pension_contribution, get_pension_tax_relief,
    get_personal_allowance, get_tax_value,
};

fn no_modifiers() -> InputData {
    InputData::new(0, 0, 0)
}

#[test]
fn negative_total_income_is_refused() {
    assert_eq!(get_personal_allowance(-1), Err(DomainError::NegativeTotalIncome));
    let data = InputData::new(0, -200_000, 0);
    assert_eq!(calculate(100_000, &data).unwrap_err(), DomainError::NegativeTotalIncome);
    assert_eq!(calculate(-1, &no_modifiers()).unwrap_err(), DomainError::NegativeTotalIncome);
}

#[test]
fn allowance_is_full_below_taper_and_zero_above() {
    assert_eq!(get_personal_allowance(0), Ok(1_257_000));
    assert_eq!(get_personal_allowance(10_000_000), Ok(1_257_000));
    assert_eq!(get_personal_allowance(12_514_000), Ok(0));
    assert_eq!(get_personal_allowance(12_514_100), Ok(0));
    assert_eq!(get_personal_allowance(50_000_000), Ok(0));
}

#[test]
fn allowance_never_rises_and_has_no_jump_in_taper() {
    let mut previous = get_personal_allowance(10_000_000).unwrap();
    let mut income: i64 = 10_000_001;
    while income <= 12_520_000 {
        let allowance = get_personal_allowance(income).unwrap();
        assert!(allowance <= previous);
        assert!(previous - allowance <= 1);
        previous = allowance;
        income += 1;
    }
}

#[test]
fn allowance_rounds_half_penny_up() {
    assert_eq!(get_personal_allowance(10_000_001), Ok(1_257_000));
    assert_eq!(get_personal_allowance(10_000_003), Ok(1_256_999));
}

#[test]
fn tax_is_never_negative_with_own_allowance() {
    let incomes = [0, 1, 500_000, 1_257_000, 5_027_100, 10_000_000, 11_000_001, 12_514_000];
    for income in incomes {
        let allowance = get_personal_allowance(income).unwrap();
        assert!(get_tax_value(income, allowance) >= 0);
    }
}

#[test]
fn tax_is_continuous_at_thresholds() {
    let allowance = 1_257_000;
    for threshold in [1_257_000, 5_027_100, 12_514_000] {
        let below = get_tax_value(threshold - 100, allowance);
        let at = get_tax_value(threshold, allowance);
        let above = get_tax_value(threshold + 100, allowance);
        assert!(at - below <= 45);
        assert!(above - at <= 45);
        assert!(below <= at && at <= above);
    }
    assert_eq!(get_tax_value(5_027_200, allowance) - get_tax_value(5_027_100, allowance), 40);
    assert_eq!(get_tax_value(12_514_100, allowance) - get_tax_value(12_514_000, allowance), 45);
    assert_eq!(get_tax_value(1_257_100, allowance) - get_tax_value(1_257_000, allowance), 20);
}

#[test]
fn tax_with_reduced_allowance() {
    assert_eq!(get_tax_value(1_000_000, 1_000_000), 51_400);
    assert_eq!(get_tax_value(1_000_000, 1_257_000), 0);
}

#[test]
fn no_national_insurance_up_to_primary_threshold() {
    assert_eq!(get_national_insurance(1_257_600), 0);
    assert_eq!(get_national_insurance(0), 0);
    assert_eq!(get_national_insurance(-5_000_000), 0);
    assert_eq!(get_national_insurance(1_257_700), 8);
}

#[test]
fn national_insurance_scenarios() {
    assert_eq!(get_national_insurance(2_400_000), 91_392);
    assert_eq!(get_national_insurance(7_200_000), 345_000);
}

#[test]
fn relief_is_at_least_basic_rate() {
    for income in [0, 1_000_000, 5_200_000, 13_000_000, 100_000_000] {
        for contribution in [0, 1, 99, 520_000, 1_300_000, 10_000_000] {
            assert!(get_pension_tax_relief(income, contribution) >= contribution / 5);
        }
    }
}

#[test]
fn relief_scenarios() {
    assert_eq!(get_pension_tax_relief(5_200_000, 520_000), 138_580);
    assert_eq!(get_pension_tax_relief(13_000_000, 1_300_000), 641_500);
    assert_eq!(get_pension_tax_relief(5_200_000, 0), 0);
}

#[test]
fn bonus_and_pension_are_fractions_of_base_salary() {
    let data = InputData::new(500, 0, 1_000);
    assert_eq!(get_annual_bonus(3_000_000, &data), 300_000);
    assert_eq!(get_pension_contribution(3_000_000, &data), 150_000);
    assert_eq!(get_annual_bonus(-3, &InputData::new(0, 0, 5_000)), -2);
}

#[test]
fn calculate_scenarios() {
    let data = no_modifiers();
    assert_eq!(calculate(2_257_000, &data).unwrap().tax_value, 200_000);
    assert_eq!(calculate(6_027_100, &data).unwrap().tax_value, 1_154_020);
    assert_eq!(calculate(13_514_000, &data).unwrap().tax_value, 4_450_180);
}

#[test]
fn calculate_fills_every_field() {
    let data = InputData::new(1_000, 50_000, 2_000);
    let r = calculate(5_000_000, &data).unwrap();
    assert_eq!(r.base_salary, 5_000_000);
    assert_eq!(r.annual_bonus, 1_000_000);
    assert_eq!(r.other_income, 50_000);
    assert_eq!(r.pension_contribution, 500_000);
    assert_eq!(r.total_income(), 6_050_000);
    assert_eq!(r.tax_value, get_tax_value(6_050_000, 1_257_000));
    assert_eq!(r.national_insurance, get_national_insurance(6_050_000));
    assert_eq!(r.pension_tax_relief, get_pension_tax_relief(6_050_000, 500_000));
    assert_eq!(
        r.take_home(),
        6_050_000 - r.tax_value as i128 - r.national_insurance as i128 - 500_000
            + r.pension_tax_relief as i128
    );
}

#[test]
fn empty_sweep_yields_nothing() {
    let out = calculate_for_range(BaseSalaryRange::new(0, 0, 1), &no_modifiers()).unwrap();
    assert_eq!(out.len(), 0);
    assert!(out.base_salary().is_empty());
}

#[test]
fn sweep_stops_before_end() {
    let mut range = BaseSalaryRange::new(100, 400, 100);
    assert_eq!(range.next(), Some(100));
    assert_eq!(range.next(), Some(200));
    assert_eq!(range.next(), Some(300));
    assert_eq!(range.next(), None);
    assert_eq!(range.next(), None);
}

#[test]
fn sweep_columns() {
    let data = no_modifiers();
    let out = calculate_for_range(BaseSalaryRange::new(0, 13_000_000, 2_257_000), &data).unwrap();
    assert_eq!(out.len(), 6);
    assert_eq!(out.base_salary(), vec![0, 2_257_000, 4_514_000, 6_771_000, 9_028_000, 11_285_000]);
    assert_eq!(out.total_income(), out.base_salary());
    assert_eq!(out.tax_value()[1], 200_000);
    assert_eq!(out.at(1).tax_value, 200_000);
    let after_tax = out.income_after_tax();
    for i in 0..out.len() {
        assert_eq!(after_tax[i], out.at(i).take_home());
    }
}

#[test]
fn sweep_refuses_negative_total_income() {
    let data = InputData::new(0, 0, 0);
    let r = calculate_for_range(BaseSalaryRange::new(-100, 100, 50), &data);
    assert_eq!(r.err(), Some(DomainError::NegativeTotalIncome));
}
