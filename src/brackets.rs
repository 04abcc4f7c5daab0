//! The tax bands and rates, and the mathematical model of each computation.
use vstd::prelude::*;

verus! {

/// Full personal allowance, in pence.
pub const PERSONAL_ALLOWANCE: i64 = 1_257_000;

/// Income above which the personal allowance tapers away, in pence.
pub const TAPER_START: i64 = 10_000_000;

/// Annual income tax bands, highest first: threshold in pence, rate in percent.
pub const ADDITIONAL_THRESHOLD: i64 = 12_514_000;
pub const ADDITIONAL_RATE: i64 = 45;
pub const HIGHER_THRESHOLD: i64 = 5_027_100;
pub const HIGHER_RATE: i64 = 40;
pub const BASIC_THRESHOLD: i64 = 1_257_000;
pub const BASIC_RATE: i64 = 20;

/// Monthly National Insurance bands, highest first: threshold in pence, rate
/// in percent.
pub const NI_UPPER_THRESHOLD: i64 = 418_900;
pub const NI_UPPER_RATE: i64 = 2;
pub const NI_PRIMARY_THRESHOLD: i64 = 104_800;
pub const NI_PRIMARY_RATE: i64 = 8;

pub const MONTHS_PER_YEAR: i64 = 12;

/// Percent per unit.
pub const PERCENT: i64 = 100;

/// Basis points per unit.
pub const BASIS_POINTS: i64 = 10_000;

/// The part of `t` that lies above `lo`.
pub open spec fn above(t: int, lo: int) -> int {
    if t > lo {
        t - lo
    } else {
        0
    }
}

/// The part of `t` that lies between `lo` and `hi`.
pub open spec fn between(t: int, lo: int, hi: int) -> int {
    if t <= lo {
        0
    } else if t <= hi {
        t - lo
    } else {
        hi - lo
    }
}

pub open spec fn min_int(a: int, b: int) -> int {
    if a <= b {
        a
    } else {
        b
    }
}

/// Personal allowance for a non-negative total income: full up to the taper
/// start, then one penny less for every two pence of income (the half penny
/// rounded in the taxpayer's favour), and nothing above the additional-rate
/// threshold.
pub open spec fn personal_allowance(total_income: int) -> int {
    if total_income <= TAPER_START {
        PERSONAL_ALLOWANCE as int
    } else if total_income > ADDITIONAL_THRESHOLD {
        0
    } else {
        PERSONAL_ALLOWANCE - (total_income - TAPER_START) / 2
    }
}

/// Income tax in hundredths of a penny: each band's slice of the income at
/// its rate, and the part of the basic band that the allowance no longer
/// covers at the basic rate.
pub open spec fn tax_owed_exact(total_income: int, allowance: int) -> int {
    ADDITIONAL_RATE * above(total_income, ADDITIONAL_THRESHOLD as int)
        + HIGHER_RATE * between(total_income, HIGHER_THRESHOLD as int, ADDITIONAL_THRESHOLD as int)
        + BASIC_RATE * between(total_income, BASIC_THRESHOLD as int, HIGHER_THRESHOLD as int)
        + BASIC_RATE * (BASIC_THRESHOLD - allowance)
}

/// Income tax in pence, rounded down.
pub open spec fn tax_owed(total_income: int, allowance: int) -> int {
    tax_owed_exact(total_income, allowance) / PERCENT as int
}

/// Annual National Insurance in hundredths of a penny. The monthly bands,
/// applied to a twelfth of the income and multiplied back by twelve, are the
/// same as the bands times twelve applied to the annual income.
pub open spec fn national_insurance_exact(total_income: int) -> int {
    NI_UPPER_RATE * above(total_income, MONTHS_PER_YEAR * NI_UPPER_THRESHOLD)
        + NI_PRIMARY_RATE * between(
        total_income,
        MONTHS_PER_YEAR * NI_PRIMARY_THRESHOLD,
        MONTHS_PER_YEAR * NI_UPPER_THRESHOLD,
    )
}

/// Annual National Insurance in pence, rounded down.
pub open spec fn national_insurance(total_income: int) -> int {
    national_insurance_exact(total_income) / PERCENT as int
}

/// Extra relief, in hundredths of a penny, for one band whose rate is above
/// the basic rate, given the income still to be considered: the extra rate on
/// the smaller of the income in that band and the contribution.
pub open spec fn extra_relief(income: int, contribution: int, threshold: int, rate: int) -> int {
    if income > threshold {
        min_int((income - threshold) * (rate - BASIC_RATE), contribution * (rate - BASIC_RATE))
    } else {
        0
    }
}

/// Pension tax relief in hundredths of a penny: the basic rate on the whole
/// contribution, and the extra relief of the additional and higher bands.
pub open spec fn pension_tax_relief_exact(total_income: int, contribution: int) -> int {
    BASIC_RATE * contribution
        + extra_relief(
        total_income,
        contribution,
        ADDITIONAL_THRESHOLD as int,
        ADDITIONAL_RATE as int,
    )
        + extra_relief(
        min_int(total_income, ADDITIONAL_THRESHOLD as int),
        contribution,
        HIGHER_THRESHOLD as int,
        HIGHER_RATE as int,
    )
}

/// Pension tax relief in pence, rounded down.
pub open spec fn pension_tax_relief(total_income: int, contribution: int) -> int {
    pension_tax_relief_exact(total_income, contribution) / PERCENT as int
}

/// `a / d` rounded down, for any sign of `a`.
pub fn div_floor(a: i128, d: i128) -> (r: i128)
    requires
        d > 0,
        a > i128::MIN,
    ensures
        r == a / d,
{
    if a >= 0 {
        a / d
    } else {
        let q = (-a) / d;
        let m = (-a) % d;
        proof {
            assert(d * q + m == -(a as int)) by (nonlinear_arith)
                requires
                    q as int == (-(a as int)) / (d as int),
                    m as int == (-(a as int)) % (d as int),
                    d > 0,
            ;
        }
        if m == 0 {
            proof {
                assert(a == d * (-q) + 0) by (nonlinear_arith)
                    requires
                        d * q + m == -(a as int),
                        m == 0,
                ;
                vstd::arithmetic::div_mod::lemma_fundamental_div_mod_converse(
                    a as int,
                    d as int,
                    -q as int,
                    0,
                );
            }
            -q
        } else {
            proof {
                assert(a == d * (-q - 1) + (d - m)) by (nonlinear_arith)
                    requires
                        d * q + m == -(a as int),
                ;
                vstd::arithmetic::div_mod::lemma_fundamental_div_mod_converse(
                    a as int,
                    d as int,
                    -q - 1,
                    d - m,
                );
            }
            -q - 1
        }
    }
}

} // verus!
