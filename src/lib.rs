//! UK income tax, National Insurance and pension tax relief for a base salary
//! and a few modifiers, over single salaries and swept salary ranges.
//!
//! Every amount of money is an integer count of pence; fractions of the base
//! salary are integer counts of basis points (hundredths of a percent).
//! Pension contributions are not deducted from taxable income: relief on them
//! is granted as a separate credit.
pub mod brackets;
pub mod laws;
pub mod tax;
pub mod tax_impl;
