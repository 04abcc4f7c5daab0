//! Properties that hold across all inputs of the tax engine.
use vstd::prelude::*;

use crate::brackets::{
    national_insurance, pension_tax_relief, personal_allowance, tax_owed, tax_owed_exact,
    ADDITIONAL_RATE, ADDITIONAL_THRESHOLD,
    BASIC_RATE, BASIC_THRESHOLD, HIGHER_RATE, HIGHER_THRESHOLD, MONTHS_PER_YEAR,
    NI_PRIMARY_THRESHOLD, PERCENT, PERSONAL_ALLOWANCE, TAPER_START,
};

verus! {

/// The personal allowance is the full allowance up to the taper start, zero
/// above the additional-rate threshold, and in between it never rises and
/// falls by at most one penny for every two pence of income (rounded up), so
/// it has no jump.
pub proof fn personal_allowance_shape(t1: int, t2: int)
    requires
        0 <= t1 <= t2,
    ensures
        t2 <= TAPER_START ==> personal_allowance(t1) == PERSONAL_ALLOWANCE && personal_allowance(
            t2,
        ) == PERSONAL_ALLOWANCE,
        t1 > ADDITIONAL_THRESHOLD ==> personal_allowance(t1) == 0 && personal_allowance(t2) == 0,
        t1 >= TAPER_START ==> personal_allowance(t2) <= personal_allowance(t1),
        t1 >= TAPER_START ==> personal_allowance(t1) - personal_allowance(t2) <= (t2 - t1 + 1) / 2,
{
}

/// With the allowance that belongs to it, the income tax on a non-negative
/// income is never negative.
pub proof fn tax_owed_non_negative(total_income: int)
    requires
        total_income >= 0,
    ensures
        tax_owed(total_income, personal_allowance(total_income)) >= 0,
{
}

/// For a fixed allowance, the exact income tax (in hundredths of a penny) is
/// linear on each closed band, with the band's rate as slope. Neighbouring
/// bands share their boundary, so the tax has no jump at any threshold.
pub proof fn tax_owed_piecewise_linear(t1: int, t2: int, allowance: int)
    requires
        t1 <= t2,
    ensures
        t2 <= BASIC_THRESHOLD ==> tax_owed_exact(t2, allowance) == tax_owed_exact(t1, allowance),
        BASIC_THRESHOLD <= t1 && t2 <= HIGHER_THRESHOLD ==> tax_owed_exact(t2, allowance)
            - tax_owed_exact(t1, allowance) == BASIC_RATE * (t2 - t1),
        HIGHER_THRESHOLD <= t1 && t2 <= ADDITIONAL_THRESHOLD ==> tax_owed_exact(t2, allowance)
            - tax_owed_exact(t1, allowance) == HIGHER_RATE * (t2 - t1),
        ADDITIONAL_THRESHOLD <= t1 ==> tax_owed_exact(t2, allowance) - tax_owed_exact(
            t1,
            allowance,
        ) == ADDITIONAL_RATE * (t2 - t1),
{
}

/// No National Insurance is due on an income whose monthly share is at most
/// the primary threshold.
pub proof fn no_national_insurance_below_primary(total_income: int)
    requires
        total_income <= MONTHS_PER_YEAR * NI_PRIMARY_THRESHOLD,
    ensures
        national_insurance(total_income) == 0,
{
}

/// The relief on a non-negative contribution is at least the basic rate on
/// it (rounded down to the penny).
pub proof fn relief_at_least_basic_rate(total_income: int, contribution: int)
    requires
        contribution >= 0,
    ensures
        pension_tax_relief(total_income, contribution) >= contribution * BASIC_RATE
            / PERCENT as int,
{
}

} // verus!
