//! Tax strategies: one per employee classification.
use crate::money::{divide_rounded, lemma_rounded_quotient_bounds, lemma_rounded_quotient_scale, rounded_quotient, MAX_NUMERATOR};
use vstd::prelude::*;

verus! {

/// Largest gross amount, in sen, that a tax strategy accepts.
pub const MAX_TAXABLE: u128 = 0x100_0000_0000_0000_0000_0000_0000;

/// Upper bound, in sen, of the 5% bracket of annual gross.
pub const BRACKET_LOW: u128 = 5_400_000_000;

/// Upper bound, in sen, of the 15% bracket of annual gross.
pub const BRACKET_MIDDLE: u128 = 25_000_000_000;

/// Upper bound, in sen, of the 25% bracket of annual gross.
pub const BRACKET_HIGH: u128 = 50_000_000_000;

/// The percentage that applies to the whole of an annual gross amount:
/// each bracket bound is inclusive and the first match wins.
pub open spec fn fulltime_rate_percent(annual_gross: int) -> int {
    if annual_gross <= BRACKET_LOW {
        5
    } else if annual_gross <= BRACKET_MIDDLE {
        15
    } else if annual_gross <= BRACKET_HIGH {
        25
    } else {
        30
    }
}

/// Tax on an annual full-time gross: its bracket's rate applied to the whole amount.
pub open spec fn fulltime_tax(annual_gross: int) -> int {
    rounded_quotient(annual_gross * fulltime_rate_percent(annual_gross), 100)
}

/// Tax on a contract gross: a flat 2.5%.
pub open spec fn contract_tax(gross: int) -> int {
    rounded_quotient(gross * 25, 1000)
}

/// Maps a gross amount (in sen) to a tax amount (in sen).
pub trait Tax {
    spec fn tax_of(&self, gross_salary: int) -> int;

    fn calculate_tax(&self, gross_salary: u128) -> (r: u128)
        requires
            gross_salary <= MAX_TAXABLE,
        ensures
            r == self.tax_of(gross_salary as int),
            r <= gross_salary,
    ;
}

/// Progressive tax applied to an annualised full-time gross.
#[derive(Debug, Clone, Copy)]
pub struct FulltimeTax;

/// Flat-rate tax applied to a monthly contract gross.
#[derive(Debug, Clone, Copy)]
pub struct ContractTax;

impl Tax for FulltimeTax {
    open spec fn tax_of(&self, gross_salary: int) -> int {
        fulltime_tax(gross_salary)
    }

    fn calculate_tax(&self, gross_salary: u128) -> (r: u128) {
        let percent: u128 = if gross_salary <= BRACKET_LOW {
            5
        } else if gross_salary <= BRACKET_MIDDLE {
            15
        } else if gross_salary <= BRACKET_HIGH {
            25
        } else {
            30
        };
        proof {
            lemma_fulltime_tax_bounds(gross_salary as int);
        }
        assert(percent == fulltime_rate_percent(gross_salary as int));
        let amount = gross_salary * percent;
        assert(amount as int == gross_salary as int * fulltime_rate_percent(gross_salary as int));
        divide_rounded(amount, 100)
    }
}

impl Tax for ContractTax {
    open spec fn tax_of(&self, gross_salary: int) -> int {
        contract_tax(gross_salary)
    }

    fn calculate_tax(&self, gross_salary: u128) -> (r: u128) {
        proof {
            lemma_contract_tax_bounds(gross_salary as int);
        }
        let amount = gross_salary * 25;
        assert(amount as int == gross_salary as int * 25);
        divide_rounded(amount, 1000)
    }
}

/// The full-time tax never exceeds 30% of the amount, plus half a sen.
pub proof fn lemma_fulltime_tax_bounds(annual_gross: int)
    requires
        0 <= annual_gross,
    ensures
        0 <= fulltime_tax(annual_gross),
        200 * fulltime_tax(annual_gross) <= 60 * annual_gross + 100,
        fulltime_tax(annual_gross) <= annual_gross,
{
    let p = fulltime_rate_percent(annual_gross);
    assert(0 <= annual_gross * p <= annual_gross * 30) by (nonlinear_arith)
        requires
            0 <= annual_gross,
            5 <= p <= 30,
    ;
    lemma_rounded_quotient_bounds(annual_gross * p, 100);
}

/// The contract tax is non-negative and never exceeds the amount taxed.
pub proof fn lemma_contract_tax_bounds(gross: int)
    requires
        0 <= gross,
    ensures
        0 <= contract_tax(gross),
        2000 * contract_tax(gross) <= 50 * gross + 1000,
        contract_tax(gross) <= gross,
{
    lemma_rounded_quotient_bounds(gross * 25, 1000);
}

/// Annual full-time gross bracket bounds are inclusive: an amount at a bound
/// is taxed at the lower bracket's rate, one sen above it at the next one.
pub proof fn lemma_fulltime_brackets_inclusive()
    ensures
        fulltime_rate_percent(BRACKET_LOW as int) == 5,
        fulltime_rate_percent(BRACKET_LOW as int + 1) == 15,
        fulltime_rate_percent(BRACKET_MIDDLE as int) == 15,
        fulltime_rate_percent(BRACKET_MIDDLE as int + 1) == 25,
        fulltime_rate_percent(BRACKET_HIGH as int) == 25,
        fulltime_rate_percent(BRACKET_HIGH as int + 1) == 30,
        fulltime_tax(BRACKET_LOW as int) == 270_000_000,
        fulltime_tax(BRACKET_LOW as int + 1) == 810_000_000,
{
    assert((2 * (5_400_000_000 * 5) + 100) / 200 == 270_000_000int);
    assert((2 * (5_400_000_001 * 15) + 100) / 200 == 810_000_000int);
}

/// Contract tax is a flat 2.5% of the gross at every amount, with no bracket:
/// it is the gross divided by 40, rounded to the sen (so 40 times the tax is
/// within 20 sen of the gross), and exact on multiples of 40 sen.
pub proof fn lemma_contract_tax_is_flat(gross: int)
    requires
        0 <= gross,
    ensures
        contract_tax(gross) == rounded_quotient(gross, 40),
        gross - 20 < 40 * contract_tax(gross) <= gross + 20,
        contract_tax(40 * gross) == gross,
{
    lemma_rounded_quotient_scale(gross, 40, 25);
    lemma_rounded_quotient_bounds(gross, 40);
    assert(25 * gross == gross * 25);
    assert(25 * 40 == 1000);
    let g40 = 40 * gross;
    lemma_rounded_quotient_scale(g40, 40, 25);
    assert(rounded_quotient(g40, 40) == (80 * gross + 40) / 80);
    assert((80 * gross + 40) / 80 == gross) by (nonlinear_arith)
        requires
            gross >= 0,
    ;
    assert(25 * g40 == g40 * 25);
}

} // verus!
