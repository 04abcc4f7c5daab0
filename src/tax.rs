//! Single-salary calculation, salary sweeps and their results.
use vstd::prelude::*;

use crate::brackets::{national_insurance, pension_tax_relief, personal_allowance, tax_owed};
use crate::tax_impl::{
    amounts_fit, annual_bonus, get_annual_bonus, get_national_insurance,
    get_pension_contribution, get_pension_tax_relief, get_personal_allowance, get_tax_value,
    get_total_income, pension_contribution, total_income,
};

verus! {

/// The only failure: a total income below zero.
#[derive(Clone, Copy, Debug, PartialEq, Eq, Structural)]
pub enum DomainError {
    NegativeTotalIncome,
}

/// Modifiers applied to every base salary.
#[derive(Clone, Copy, Debug)]
pub struct InputData {
    /// part of the base salary paid into the pension, in basis points
    pub pension_contribution: u32,
    /// other income, in pence
    pub other_income: i64,
    /// bonus as a part of the base salary, in basis points
    pub annual_bonus: u32,
}

impl InputData {
    pub fn new(pension_contribution: u32, other_income: i64, annual_bonus: u32) -> (r: Self)
        ensures
            r.pension_contribution == pension_contribution,
            r.other_income == other_income,
            r.annual_bonus == annual_bonus,
    {
        InputData { pension_contribution, other_income, annual_bonus }
    }
}

/// Everything computed for one base salary, in pence.
#[derive(Clone, Copy, Debug)]
pub struct TaxData {
    pub base_salary: i64,
    pub annual_bonus: i64,
    pub other_income: i64,
    pub tax_value: i64,
    pub national_insurance: i64,
    pub pension_contribution: i64,
    pub pension_tax_relief: i64,
}

impl TaxData {
    pub open spec fn total_income_spec(self) -> int {
        self.base_salary + self.annual_bonus + self.other_income
    }

    pub open spec fn take_home_spec(self) -> int {
        self.total_income_spec() - self.tax_value - self.national_insurance
            - self.pension_contribution + self.pension_tax_relief
    }

    /// Base salary, bonus and other income together, widened so that the sum
    /// cannot overflow.
    pub fn total_income(&self) -> (r: i128)
        ensures
            r == self.total_income_spec(),
    {
        self.base_salary as i128 + self.annual_bonus as i128 + self.other_income as i128
    }

    /// What is left of the total income after tax, National Insurance and the
    /// pension contribution, with the pension relief added back.
    pub fn take_home(&self) -> (r: i128)
        ensures
            r == self.take_home_spec(),
    {
        self.total_income() - self.tax_value as i128 - self.national_insurance as i128
            - self.pension_contribution as i128 + self.pension_tax_relief as i128
    }
}

/// The result for a base salary whose total income is not negative.
pub open spec fn tax_data(base_salary: int, data: InputData) -> TaxData {
    let total = total_income(base_salary, data);
    let contribution = pension_contribution(base_salary, data);
    TaxData {
        base_salary: base_salary as i64,
        annual_bonus: annual_bonus(base_salary, data) as i64,
        other_income: data.other_income,
        tax_value: tax_owed(total, personal_allowance(total)) as i64,
        national_insurance: national_insurance(total) as i64,
        pension_contribution: contribution as i64,
        pension_tax_relief: pension_tax_relief(total, contribution) as i64,
    }
}

/// The outcome of a calculation: refused when the total income is negative.
pub open spec fn calculation(base_salary: int, data: InputData) -> Result<TaxData, DomainError> {
    if total_income(base_salary, data) < 0 {
        Err(DomainError::NegativeTotalIncome)
    } else {
        Ok(tax_data(base_salary, data))
    }
}

/// Tax, National Insurance, pension contribution and relief for one base
/// salary. Income tax is charged on the whole total income; the pension
/// contribution earns relief instead of reducing taxable income.
pub fn calculate(base_salary: i64, data: &InputData) -> (r: Result<TaxData, DomainError>)
    requires
        amounts_fit(base_salary as int, *data),
    ensures
        r == calculation(base_salary as int, *data),
{
    let total_income = get_total_income(base_salary, data);
    let personal_allowance = match get_personal_allowance(total_income) {
        Ok(a) => a,
        Err(e) => {
            return Err(e);
        },
    };
    let tax_value = get_tax_value(total_income, personal_allowance);
    let national_insurance = get_national_insurance(total_income);
    let pension_contribution = get_pension_contribution(base_salary, data);
    let pension_tax_relief = get_pension_tax_relief(total_income, pension_contribution);
    Ok(
        TaxData {
            base_salary,
            annual_bonus: get_annual_bonus(base_salary, data),
            other_income: data.other_income,
            tax_value,
            national_insurance,
            pension_contribution,
            pension_tax_relief,
        },
    )
}

/// The `k`th value of a sweep from `start` by `step`.
#[verifier::opaque]
pub open spec fn sweep_value(start: int, step: int, k: int) -> int {
    start + step * k
}

/// A sweep of base salaries `start + step * i` for `i = 0, 1, ...` while the
/// value stays below `end`. It is consumed as it is read: a fresh one is
/// needed to read the sweep again.
pub struct BaseSalaryRange {
    start: i64,
    end: i64,
    step: i64,
    current: u64,
}

impl BaseSalaryRange {
    pub closed spec fn start(&self) -> int {
        self.start as int
    }

    pub closed spec fn end(&self) -> int {
        self.end as int
    }

    pub closed spec fn step(&self) -> int {
        self.step as int
    }

    /// How many values have been read.
    pub closed spec fn current(&self) -> int {
        self.current as int
    }

    /// The `k`th value of the sweep, counted from its start.
    pub open spec fn value(&self, k: int) -> int {
        sweep_value(self.start(), self.step(), k)
    }

    /// Consecutive values are one step apart.
    pub proof fn lemma_value_next(&self, k: int)
        ensures
            self.value(k + 1) == self.value(k) + self.step(),
    {
        reveal(sweep_value);
        assert(self.step() * (k + 1) == self.step() * k + self.step()) by (nonlinear_arith);
    }

    /// Values never decrease along the sweep.
    pub proof fn lemma_value_monotone(&self, k1: int, k2: int)
        requires
            self.wf(),
            k1 <= k2,
        ensures
            self.value(k1) <= self.value(k2),
    {
        reveal(sweep_value);
        assert(self.step() * k1 <= self.step() * k2) by (nonlinear_arith)
            requires
                self.step() > 0,
                k1 <= k2,
        ;
    }

    /// Every value before one below the end is below the end too.
    pub proof fn lemma_below_end(&self, first: int, last: int)
        requires
            self.wf(),
            self.value(last) < self.end(),
        ensures
            forall|k: int| first <= k <= last ==> #[trigger] self.value(k) < self.end(),
    {
        assert forall|k: int| first <= k <= last implies #[trigger] self.value(k) < self.end() by {
            self.lemma_value_monotone(k, last);
        }
    }

    /// The step is positive, so the sweep ends, and every value read so far
    /// was below the end.
    pub closed spec fn wf(&self) -> bool {
        &&& self.step > 0
        &&& (self.current == 0 || self.start + self.step * (self.current - 1) < self.end)
    }

    pub fn new(start: i64, end: i64, step: i64) -> (r: Self)
        requires
            step > 0,
        ensures
            r.wf(),
            r.start() == start,
            r.end() == end,
            r.step() == step,
            r.current() == 0,
    {
        BaseSalaryRange { start, end, step, current: 0 }
    }

    /// The next base salary, or `None` once the sweep has reached its end.
    pub fn next(&mut self) -> (r: Option<i64>)
        requires
            old(self).wf(),
        ensures
            final(self).wf(),
            final(self).start() == old(self).start(),
            final(self).end() == old(self).end(),
            final(self).step() == old(self).step(),
            old(self).value(old(self).current()) < old(self).end() ==> r is Some && r->Some_0
                == old(self).value(old(self).current()) && final(self).current() == old(
                self,
            ).current() + 1,
            old(self).value(old(self).current()) >= old(self).end() ==> r == None::<i64>
                && final(self).current() == old(self).current(),
    {
        proof {
            reveal(sweep_value);
            if self.current > 0 {
                assert(self.step * (self.current - 1) < self.end - self.start);
                assert(self.step * self.current < 0x3_0000_0000_0000_0000) by (nonlinear_arith)
                    requires
                        self.step * (self.current - 1) < self.end - self.start,
                        self.end - self.start < 0x1_0000_0000_0000_0000,
                        0 < self.step < 0x1_0000_0000_0000_0000,
                ;
            }
        }
        let value = self.start as i128 + self.step as i128 * self.current as i128;
        if value < self.end as i128 {
            proof {
                assert(self.current < 0xffff_ffff_ffff_ffff) by (nonlinear_arith)
                    requires
                        self.step * self.current < self.end - self.start,
                        self.end - self.start < 0x1_0000_0000_0000_0000,
                        self.step >= 1,
                        self.current >= 0,
                ;
            }
            self.current = self.current + 1;
            Some(value as i64)
        } else {
            None
        }
    }
}

/// The results of a sweep, one per base salary, in order.
pub struct OutputData {
    data: Vec<TaxData>,
}

impl View for OutputData {
    type V = Seq<TaxData>;

    closed spec fn view(&self) -> Seq<TaxData> {
        self.data@
    }
}

impl OutputData {
    /// One number per result, in order, as `extractor` gives it.
    fn extract_data<F>(&self, extractor: F) -> (r: Vec<i128>)
        where
            F: Fn(&TaxData) -> i128,
        requires
            forall|d: &TaxData| extractor.requires((d,)),
        ensures
            r@.len() == self@.len(),
            forall|i: int|
                0 <= i < self@.len() ==> extractor.ensures((&self@[i],), #[trigger] r@[i]),
    {
        let mut r: Vec<i128> = Vec::new();
        let mut i: usize = 0;
        while i < self.data.len()
            invariant
                i <= self.data@.len(),
                r@.len() == i,
                forall|d: &TaxData| extractor.requires((d,)),
                forall|j: int|
                    0 <= j < i ==> extractor.ensures((&self.data@[j],), #[trigger] r@[j]),
            decreases self.data@.len() - i,
        {
            r.push(extractor(&self.data[i]));
            i = i + 1;
        }
        r
    }

    pub fn base_salary(&self) -> (r: Vec<i128>)
        ensures
            r@.len() == self@.len(),
            forall|i: int| 0 <= i < self@.len() ==> #[trigger] r@[i] == self@[i].base_salary,
    {
        self.extract_data(|d: &TaxData| -> (v: i128)
            ensures
                v == d.base_salary,
            { d.base_salary as i128 })
    }

    pub fn total_income(&self) -> (r: Vec<i128>)
        ensures
            r@.len() == self@.len(),
            forall|i: int|
                0 <= i < self@.len() ==> #[trigger] r@[i] == self@[i].total_income_spec(),
    {
        self.extract_data(|d: &TaxData| -> (v: i128)
            ensures
                v == d.total_income_spec(),
            { d.total_income() })
    }

    pub fn tax_value(&self) -> (r: Vec<i128>)
        ensures
            r@.len() == self@.len(),
            forall|i: int| 0 <= i < self@.len() ==> #[trigger] r@[i] == self@[i].tax_value,
    {
        self.extract_data(|d: &TaxData| -> (v: i128)
            ensures
                v == d.tax_value,
            { d.tax_value as i128 })
    }

    pub fn income_after_tax(&self) -> (r: Vec<i128>)
        ensures
            r@.len() == self@.len(),
            forall|i: int| 0 <= i < self@.len() ==> #[trigger] r@[i] == self@[i].take_home_spec(),
    {
        self.extract_data(|d: &TaxData| -> (v: i128)
            ensures
                v == d.take_home_spec(),
            { d.take_home() })
    }

    pub fn len(&self) -> (r: usize)
        ensures
            r == self@.len(),
    {
        self.data.len()
    }

    pub fn at(&self, index: usize) -> (r: TaxData)
        requires
            index < self@.len(),
        ensures
            r == self@[index as int],
    {
        self.data[index]
    }
}

/// Every value of the sweep from the one it stands at on, while below the end,
/// has amounts that fit.
pub open spec fn sweep_fits(range: &BaseSalaryRange, data: InputData) -> bool {
    forall|k: int|
        k >= range.current() && #[trigger] range.value(k) < range.end() ==> amounts_fit(
            range.value(k),
            data,
        )
}

/// Some value of the sweep below the end has a negative total income.
pub open spec fn sweep_refused(range: &BaseSalaryRange, data: InputData) -> bool {
    exists|k: int|
        k >= range.current() && #[trigger] range.value(k) < range.end() && total_income(
            range.value(k),
            data,
        ) < 0
}

/// Calculates every base salary of the sweep, in order. The first one with a
/// negative total income ends it with an error.
pub fn calculate_for_range(range: BaseSalaryRange, data: &InputData) -> (r: Result<
    OutputData,
    DomainError,
>)
    requires
        range.wf(),
        sweep_fits(&range, *data),
    ensures
        sweep_refused(&range, *data) <==> r is Err,
        r is Err ==> r->Err_0 == DomainError::NegativeTotalIncome,
        r is Ok ==> ({
            let out = r->Ok_0@;
            let c = range.current();
            &&& range.value(c + out.len()) >= range.end()
            &&& forall|i: int|
                0 <= i < out.len() ==> range.value(c + i) < range.end()
                    && calculation(range.value(c + i), *data) == Ok::<
                    TaxData,
                    DomainError,
                >(#[trigger] out[i])
        }),
{
    let mut cursor = range;
    let mut out: Vec<TaxData> = Vec::new();
    loop
        invariant
            range.wf(),
            sweep_fits(&range, *data),
            cursor.wf(),
            cursor.start() == range.start(),
            cursor.end() == range.end(),
            cursor.step() == range.step(),
            cursor.current() == range.current() + out@.len(),
            out@.len() > 0 ==> range.value(range.current() + out@.len() - 1) < range.end(),
            forall|i: int|
                0 <= i < out@.len() ==> calculation(range.value(range.current() + i), *data)
                    == Ok::<TaxData, DomainError>(#[trigger] out@[i]),
        decreases
                if cursor.value(cursor.current()) < cursor.end() {
                    cursor.end() - cursor.value(cursor.current())
                } else {
                    0
                },
    {
        let ghost n = out@.len();
        proof {
            range.lemma_value_next(range.current() + n);
        }
        let next = cursor.next();
        if next.is_none() {
            proof {
                assert(range.value(range.current() + n) == cursor.value(cursor.current()));
                assert forall|k: int|
                    k >= range.current() && #[trigger] range.value(k) < range.end() implies
                    total_income(range.value(k), *data) >= 0 by {
                    if k >= range.current() + n {
                        range.lemma_value_monotone(range.current() + n, k);
                    } else {
                        let i = k - range.current();
                        assert(calculation(range.value(range.current() + i), *data)
                            == Ok::<TaxData, DomainError>(out@[i]));
                    }
                }
            }
            let output = OutputData { data: out };
            assert(output@ == out@);
            proof {
                if n > 0 {
                    range.lemma_below_end(range.current(), range.current() + n - 1);
                }
            }
            return Ok(output);
        }
        let s = next.unwrap();
        let d = match calculate(s, data) {
            Ok(d) => d,
            Err(e) => {
                return Err(e);
            },
        };
        let ghost before = out@;
        out.push(d);
        assert(forall|i: int| 0 <= i < n ==> #[trigger] out@[i] == before[i]);
    }
}

} // verus!
