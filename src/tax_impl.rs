//! The income calculator and the tax engine: allowance, income tax, National
//! Insurance and pension relief for one total income.
use vstd::prelude::*;

use crate::brackets::{
    div_floor, national_insurance, national_insurance_exact, pension_tax_relief,
    pension_tax_relief_exact, personal_allowance, tax_owed, tax_owed_exact, ADDITIONAL_RATE,
    ADDITIONAL_THRESHOLD, BASIC_RATE, BASIC_THRESHOLD, BASIS_POINTS, HIGHER_RATE,
    HIGHER_THRESHOLD, MONTHS_PER_YEAR, NI_PRIMARY_RATE, NI_PRIMARY_THRESHOLD, NI_UPPER_RATE,
    NI_UPPER_THRESHOLD, PERCENT, PERSONAL_ALLOWANCE, TAPER_START,
};
use crate::tax::{DomainError, InputData};

verus! {

/// `part` basis points of `amount`, rounded down.
pub open spec fn basis_points_of(amount: int, part: int) -> int {
    amount * part / BASIS_POINTS as int
}

pub open spec fn annual_bonus(base_salary: int, data: InputData) -> int {
    basis_points_of(base_salary, data.annual_bonus as int)
}

pub open spec fn pension_contribution(base_salary: int, data: InputData) -> int {
    basis_points_of(base_salary, data.pension_contribution as int)
}

pub open spec fn total_income(base_salary: int, data: InputData) -> int {
    base_salary + annual_bonus(base_salary, data) + data.other_income
}

/// The amounts derived from a base salary fit the integer type that holds
/// them.
pub open spec fn amounts_fit(base_salary: int, data: InputData) -> bool {
    &&& i64::MIN <= annual_bonus(base_salary, data) <= i64::MAX
    &&& i64::MIN <= pension_contribution(base_salary, data) <= i64::MAX
    &&& i64::MIN <= total_income(base_salary, data) <= i64::MAX
}

/// `amount` times a rate in percent, widened so that nothing overflows.
fn times_rate(amount: i128, rate: i64) -> (r: i128)
    requires
        -0x1_0000_0000_0000_0000_0000 < amount < 0x1_0000_0000_0000_0000_0000,
        0 <= rate <= PERCENT,
    ensures
        r == amount * rate,
{
    proof {
        assert(-0x1_0000_0000_0000_0000_0000 * 100 <= amount * rate <= 0x1_0000_0000_0000_0000_0000
            * 100) by (nonlinear_arith)
            requires
                -0x1_0000_0000_0000_0000_0000 < amount < 0x1_0000_0000_0000_0000_0000,
                0 <= rate <= 100,
        ;
    }
    amount * rate as i128
}

fn fraction_of(amount: i64, part: u32) -> (r: i128)
    ensures
        r == basis_points_of(amount as int, part as int),
{
    proof {
        assert(i64::MIN * 0x1_0000_0000 <= amount * part <= i64::MAX * 0x1_0000_0000)
            by (nonlinear_arith)
            requires
                i64::MIN <= amount <= i64::MAX,
                0 <= part < 0x1_0000_0000,
        ;
    }
    div_floor(amount as i128 * part as i128, BASIS_POINTS as i128)
}

/// The bonus paid on a base salary.
pub fn get_annual_bonus(base_salary: i64, data: &InputData) -> (r: i64)
    requires
        i64::MIN <= annual_bonus(base_salary as int, *data) <= i64::MAX,
    ensures
        r == annual_bonus(base_salary as int, *data),
{
    fraction_of(base_salary, data.annual_bonus) as i64
}

/// The base salary, its bonus and the other income together.
pub fn get_total_income(base_salary: i64, data: &InputData) -> (r: i64)
    requires
        amounts_fit(base_salary as int, *data),
    ensures
        r == total_income(base_salary as int, *data),
{
    let total = base_salary as i128 + get_annual_bonus(base_salary, data) as i128
        + data.other_income as i128;
    total as i64
}

/// The part of a base salary paid into the pension.
pub fn get_pension_contribution(base_salary: i64, data: &InputData) -> (r: i64)
    requires
        i64::MIN <= pension_contribution(base_salary as int, *data) <= i64::MAX,
    ensures
        r == pension_contribution(base_salary as int, *data),
{
    fraction_of(base_salary, data.pension_contribution) as i64
}

/// The personal allowance for a total income; a negative income is refused.
pub fn get_personal_allowance(total_income: i64) -> (r: Result<i64, DomainError>)
    ensures
        total_income < 0 ==> r == Err::<i64, DomainError>(DomainError::NegativeTotalIncome),
        total_income >= 0 ==> r == Ok::<i64, DomainError>(
            personal_allowance(total_income as int) as i64,
        ),
        total_income >= 0 ==> 0 <= personal_allowance(total_income as int) <= PERSONAL_ALLOWANCE,
{
    if total_income < 0 {
        Err(DomainError::NegativeTotalIncome)
    } else if total_income <= TAPER_START {
        Ok(PERSONAL_ALLOWANCE)
    } else if total_income > ADDITIONAL_THRESHOLD {
        Ok(0)
    } else {
        Ok(PERSONAL_ALLOWANCE - (total_income - TAPER_START) / 2)
    }
}

/// Income tax on a total income with the given personal allowance, walking
/// the bands from the highest down; each slice of income is taxed once.
pub fn get_tax_value(total_income: i64, personal_allowance: i64) -> (r: i64)
    ensures
        r == tax_owed(total_income as int, personal_allowance as int),
{
    let total = total_income as i128;
    let mut tax: i128 = 0;
    let mut income_to_tax: i128 = total;
    if total > ADDITIONAL_THRESHOLD as i128 {
        tax = tax + times_rate(income_to_tax - ADDITIONAL_THRESHOLD as i128, ADDITIONAL_RATE);
        income_to_tax = ADDITIONAL_THRESHOLD as i128;
    }
    if total > HIGHER_THRESHOLD as i128 {
        tax = tax + times_rate(income_to_tax - HIGHER_THRESHOLD as i128, HIGHER_RATE);
        income_to_tax = HIGHER_THRESHOLD as i128;
    }
    if total > BASIC_THRESHOLD as i128 {
        tax = tax + times_rate(income_to_tax - BASIC_THRESHOLD as i128, BASIC_RATE);
    }
    tax = tax + times_rate(BASIC_THRESHOLD as i128 - personal_allowance as i128, BASIC_RATE);
    assert(tax == tax_owed_exact(total_income as int, personal_allowance as int));
    let r = div_floor(tax, PERCENT as i128);
    r as i64
}

/// Annual National Insurance: a twelfth of the income goes through the
/// monthly bands, highest first, each slice at its rate, and the monthly sum
/// is multiplied by twelve. The bands are scaled to the year instead, which
/// is exact and equal.
pub fn get_national_insurance(total_income: i64) -> (r: i64)
    ensures
        r == national_insurance(total_income as int),
        r >= 0,
{
    let mut income: i128 = total_income as i128;
    let mut contribution: i128 = 0;
    assert(MONTHS_PER_YEAR * NI_UPPER_THRESHOLD == 5_026_800);
    assert(MONTHS_PER_YEAR * NI_PRIMARY_THRESHOLD == 1_257_600);
    let upper = MONTHS_PER_YEAR as i128 * NI_UPPER_THRESHOLD as i128;
    if income > upper {
        contribution = contribution + times_rate(income - upper, NI_UPPER_RATE);
        income = upper;
    }
    let primary = MONTHS_PER_YEAR as i128 * NI_PRIMARY_THRESHOLD as i128;
    if income > primary {
        contribution = contribution + times_rate(income - primary, NI_PRIMARY_RATE);
    }
    assert(contribution == national_insurance_exact(total_income as int));
    (contribution / PERCENT as i128) as i64
}

/// Pension tax relief: the basic rate on the whole contribution, and for each
/// band above the basic rate that the income reaches, the extra rate on the
/// smaller of the income in that band and the contribution.
pub fn get_pension_tax_relief(total_income: i64, pension_contribution: i64) -> (r: i64)
    ensures
        r == pension_tax_relief(total_income as int, pension_contribution as int),
{
    let contribution = pension_contribution as i128;
    let mut income: i128 = total_income as i128;
    let mut relief: i128 = times_rate(contribution, BASIC_RATE);
    if income > ADDITIONAL_THRESHOLD as i128 {
        let extra_rate = ADDITIONAL_RATE - BASIC_RATE;
        let by_income = times_rate(income - ADDITIONAL_THRESHOLD as i128, extra_rate);
        let by_contribution = times_rate(contribution, extra_rate);
        relief = relief + if by_income <= by_contribution {
            by_income
        } else {
            by_contribution
        };
        income = ADDITIONAL_THRESHOLD as i128;
    }
    if income > HIGHER_THRESHOLD as i128 {
        let extra_rate = HIGHER_RATE - BASIC_RATE;
        let by_income = times_rate(income - HIGHER_THRESHOLD as i128, extra_rate);
        let by_contribution = times_rate(contribution, extra_rate);
        relief = relief + if by_income <= by_contribution {
            by_income
        } else {
            by_contribution
        };
    }
    assert(relief == pension_tax_relief_exact(total_income as int, pension_contribution as int));
    let r = div_floor(relief, PERCENT as i128);
    r as i64
}

} // verus!
