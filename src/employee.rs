//! Employees of the two classifications and their pay rules.
use crate::money::{divide_rounded, lemma_rounded_quotient_bounds, rounded_quotient};
use crate::tax::{
    contract_tax, fulltime_tax, lemma_contract_tax_bounds, lemma_fulltime_tax_bounds, ContractTax,
    FulltimeTax, Tax,
};
use vstd::prelude::*;

verus! {

/// How often an allowance is paid.
#[derive(Debug, Clone, Copy, PartialEq, Eq, Structural)]
pub enum AllowancePeriod {
    Monthly,
    Yearly,
    PerProject,
}

/// The period named by an already lower-cased token.
pub open spec fn period_of_token(t: Seq<char>) -> Option<AllowancePeriod> {
    if t == "monthly"@ {
        Some(AllowancePeriod::Monthly)
    } else if t == "yearly"@ {
        Some(AllowancePeriod::Yearly)
    } else if t == "per_project"@ {
        Some(AllowancePeriod::PerProject)
    } else {
        None
    }
}

/// The lower-case form of a string, as `str::to_lowercase` gives it.
pub uninterp spec fn lower_of(s: Seq<char>) -> Seq<char>;

/// Relies on `str::to_lowercase`: the result depends on the characters alone.
#[verifier::external_body]
fn lowercase(s: &str) -> (r: String)
    ensures
        r@ == lower_of(s@),
{
    s.to_lowercase()
}

impl AllowancePeriod {
    /// Parses a token, ignoring case: "monthly", "yearly" or "per_project".
    pub fn from_str(s: &str) -> (r: Option<AllowancePeriod>)
        ensures
            r == period_of_token(lower_of(s@)),
    {
        let lowered = lowercase(s);
        AllowancePeriod::from_lowercase(lowered.as_str())
    }

    /// Parses a token that is already lower case.
    pub fn from_lowercase(s: &str) -> (r: Option<AllowancePeriod>)
        ensures
            r == period_of_token(s@),
    {
        let token = s.to_owned();
        if token == "monthly".to_owned() {
            Some(AllowancePeriod::Monthly)
        } else if token == "yearly".to_owned() {
            Some(AllowancePeriod::Yearly)
        } else if token == "per_project".to_owned() {
            Some(AllowancePeriod::PerProject)
        } else {
            None
        }
    }
}

/// Standard monthly work time, in hundredths of an hour (173 hours).
pub const STANDARD_MONTHLY_HOURS: u32 = 17_300;

/// Overtime pay is hours/100 × (base/173) × 3/2, so its divisor is 173 × 100 × 2.
pub const OVERTIME_DIVISOR: u128 = 34_600;

/// Every gross amount stays below this bound (2^100 sen).
pub const GROSS_LIMIT: u128 = 0x10_0000_0000_0000_0000_0000_0000;

/// Hours worked beyond the standard monthly hours, in hundredths of an hour.
pub open spec fn overtime_hours(work_hour: int) -> int {
    if work_hour > STANDARD_MONTHLY_HOURS {
        work_hour - STANDARD_MONTHLY_HOURS
    } else {
        0
    }
}

/// Overtime hours paid at one and a half times the hourly share (base / 173) of the salary.
pub open spec fn overtime_pay(work_hour: int, base_salary: int) -> int {
    rounded_quotient(overtime_hours(work_hour) * base_salary * 3, OVERTIME_DIVISOR as int)
}

/// A full-time allowance as a monthly amount: a per-project allowance is not part of it.
pub open spec fn fulltime_monthly_allowance(amount: int, period: AllowancePeriod) -> int {
    match period {
        AllowancePeriod::Monthly => amount,
        AllowancePeriod::Yearly => rounded_quotient(amount, 12),
        AllowancePeriod::PerProject => 0,
    }
}

/// A contract allowance as a monthly amount: a per-project allowance counts in full.
pub open spec fn contract_monthly_allowance(amount: int, period: AllowancePeriod) -> int {
    match period {
        AllowancePeriod::Monthly => amount,
        AllowancePeriod::Yearly => rounded_quotient(amount, 12),
        AllowancePeriod::PerProject => amount,
    }
}

/// Full-time deductions on a monthly gross: the tax of the annualised gross
/// spread over twelve months, 1% health and 2% employment insurance.
pub open spec fn fulltime_deduction(gross: int) -> int {
    rounded_quotient(fulltime_tax(12 * gross), 12) + rounded_quotient(gross, 100)
        + rounded_quotient(2 * gross, 100)
}

/// Why an employee could not be constructed.
#[derive(Debug, Clone, Copy, PartialEq, Eq, Structural)]
pub enum EmployeeError {
    EmptyEmployeeId,
    NonPositiveBaseSalary,
    NonPositiveHourlyRate,
}

/// What every employee classification offers. Amounts are in sen, hours in
/// hundredths of an hour.
pub trait Employee {
    spec fn id_view(&self) -> Seq<char>;

    spec fn gross_of(&self) -> int;

    spec fn deduction_of(&self) -> int;

    spec fn hours_view(&self) -> u32;

    spec fn allowance_view(&self) -> u64;

    spec fn period_view(&self) -> AllowancePeriod;

    spec fn type_label(&self) -> Seq<char>;

    fn employee_id(&self) -> (r: &str)
        ensures
            r@ == self.id_view(),
    ;

    fn work_hour(&self) -> (r: u32)
        ensures
            r == self.hours_view(),
    ;

    fn tunjangan(&self) -> (r: u64)
        ensures
            r == self.allowance_view(),
    ;

    fn periode_tunjangan(&self) -> (r: &AllowancePeriod)
        ensures
            *r == self.period_view(),
    ;

    fn calculate_gross(&self) -> (r: u128)
        ensures
            r == self.gross_of(),
            r < GROSS_LIMIT,
    ;

    fn calculate_deduction(&self) -> (r: u128)
        ensures
            r == self.deduction_of(),
            r <= self.gross_of(),
    ;

    fn calculate_net(&self) -> (r: u128)
        ensures
            r == self.gross_of() - self.deduction_of(),
    ;

    fn employee_type(&self) -> (r: &str)
        ensures
            r@ == self.type_label(),
    ;
}

/// A salaried employee.
#[derive(Debug, Clone)]
pub struct FulltimeEmployee {
    pub employee_id: String,
    /// Hours worked this month, in hundredths of an hour.
    pub work_hour: u32,
    /// Allowance in sen, paid every `periode_tunjangan`.
    pub tunjangan: u64,
    pub periode_tunjangan: AllowancePeriod,
    /// Monthly salary in sen.
    pub base_salary: u64,
}

impl FulltimeEmployee {
    pub open spec fn wf(&self) -> bool {
        self.employee_id@.len() > 0 && self.base_salary > 0
    }

    /// Monthly gross: salary, overtime and the monthly share of the allowance.
    pub open spec fn gross_spec(&self) -> int {
        self.base_salary + overtime_pay(self.work_hour as int, self.base_salary as int)
            + fulltime_monthly_allowance(self.tunjangan as int, self.periode_tunjangan)
    }

    /// Builds an employee; refuses an empty id or a zero salary.
    pub fn new(
        employee_id: String,
        work_hour: u32,
        tunjangan: u64,
        periode_tunjangan: AllowancePeriod,
        base_salary: u64,
    ) -> (r: Result<Self, EmployeeError>)
        ensures
            employee_id@.len() == 0 ==> r == Err::<Self, EmployeeError>(
                EmployeeError::EmptyEmployeeId,
            ),
            employee_id@.len() > 0 && base_salary == 0 ==> r == Err::<Self, EmployeeError>(
                EmployeeError::NonPositiveBaseSalary,
            ),
            employee_id@.len() > 0 && base_salary > 0 ==> r == Ok::<Self, EmployeeError>(
                (FulltimeEmployee {
                    employee_id,
                    work_hour,
                    tunjangan,
                    periode_tunjangan,
                    base_salary,
                }),
            ),
            r is Ok ==> r->Ok_0.wf(),
    {
        if employee_id.as_str().is_empty() {
            Err(EmployeeError::EmptyEmployeeId)
        } else if base_salary == 0 {
            Err(EmployeeError::NonPositiveBaseSalary)
        } else {
            Ok(FulltimeEmployee { employee_id, work_hour, tunjangan, periode_tunjangan, base_salary })
        }
    }

    /// The monthly salary, in sen.
    pub fn base_salary(&self) -> (r: u64)
        ensures
            r == self.base_salary,
    {
        self.base_salary
    }

    pub(crate) fn snapshot(&self) -> (r: Self)
        ensures
            r == *self,
    {
        FulltimeEmployee {
            employee_id: self.employee_id.clone(),
            work_hour: self.work_hour,
            tunjangan: self.tunjangan,
            periode_tunjangan: self.periode_tunjangan,
            base_salary: self.base_salary,
        }
    }

    /// Overtime pay, in sen.
    pub fn overtime_pay(&self) -> (r: u128)
        ensures
            r == overtime_pay(self.work_hour as int, self.base_salary as int),
    {
        let hours: u128 = if self.work_hour > STANDARD_MONTHLY_HOURS {
            (self.work_hour - STANDARD_MONTHLY_HOURS) as u128
        } else {
            0
        };
        let base = self.base_salary as u128;
        assert(hours * base <= 0x1_0000_0000_0000_0000_0000_0000) by (nonlinear_arith)
            requires
                hours <= 0xFFFF_FFFF,
                base <= 0xFFFF_FFFF_FFFF_FFFF,
        ;
        divide_rounded(hours * base * 3, OVERTIME_DIVISOR)
    }
}

impl Employee for FulltimeEmployee {
    open spec fn id_view(&self) -> Seq<char> {
        self.employee_id@
    }

    open spec fn gross_of(&self) -> int {
        self.gross_spec()
    }

    open spec fn deduction_of(&self) -> int {
        fulltime_deduction(self.gross_spec())
    }

    open spec fn hours_view(&self) -> u32 {
        self.work_hour
    }

    open spec fn allowance_view(&self) -> u64 {
        self.tunjangan
    }

    open spec fn period_view(&self) -> AllowancePeriod {
        self.periode_tunjangan
    }

    open spec fn type_label(&self) -> Seq<char> {
        "FulltimeEmployee"@
    }

    fn employee_id(&self) -> (r: &str) {
        self.employee_id.as_str()
    }

    fn work_hour(&self) -> (r: u32) {
        self.work_hour
    }

    fn tunjangan(&self) -> (r: u64) {
        self.tunjangan
    }

    fn periode_tunjangan(&self) -> (r: &AllowancePeriod) {
        &self.periode_tunjangan
    }

    fn calculate_gross(&self) -> (r: u128) {
        let overtime = self.overtime_pay();
        let amount = self.tunjangan as u128;
        let allowance: u128 = match self.periode_tunjangan {
            AllowancePeriod::Monthly => amount,
            AllowancePeriod::Yearly => divide_rounded(amount, 12),
            AllowancePeriod::PerProject => 0,
        };
        proof {
            lemma_fulltime_gross_bound(self);
        }
        self.base_salary as u128 + overtime + allowance
    }

    fn calculate_deduction(&self) -> (r: u128) {
        let gross = self.calculate_gross();
        let annual_tax = FulltimeTax.calculate_tax(gross * 12);
        let tax = divide_rounded(annual_tax, 12);
        let health = divide_rounded(gross, 100);
        let employment = divide_rounded(gross * 2, 100);
        proof {
            lemma_fulltime_deduction_bound(gross as int);
        }
        tax + health + employment
    }

    fn calculate_net(&self) -> (r: u128) {
        self.calculate_gross() - self.calculate_deduction()
    }

    fn employee_type(&self) -> (r: &str) {
        "FulltimeEmployee"
    }
}

/// An employee paid by the hour.
#[derive(Debug, Clone)]
pub struct ContractEmployee {
    pub employee_id: String,
    /// Hours worked this month, in hundredths of an hour.
    pub work_hour: u32,
    /// Allowance in sen, paid every `periode_tunjangan`.
    pub tunjangan: u64,
    pub periode_tunjangan: AllowancePeriod,
    /// Pay for one hour of work, in sen.
    pub hourly_rate: u64,
}

impl ContractEmployee {
    pub open spec fn wf(&self) -> bool {
        self.employee_id@.len() > 0 && self.hourly_rate > 0
    }

    /// Pay for the hours worked, in sen.
    pub open spec fn base_pay_spec(&self) -> int {
        rounded_quotient(self.work_hour * self.hourly_rate, 100)
    }

    /// Monthly gross: pay for the hours worked and the allowance.
    pub open spec fn gross_spec(&self) -> int {
        self.base_pay_spec() + contract_monthly_allowance(
            self.tunjangan as int,
            self.periode_tunjangan,
        )
    }

    /// Builds an employee; refuses an empty id or a zero hourly rate.
    pub fn new(
        employee_id: String,
        work_hour: u32,
        tunjangan: u64,
        periode_tunjangan: AllowancePeriod,
        hourly_rate: u64,
    ) -> (r: Result<Self, EmployeeError>)
        ensures
            employee_id@.len() == 0 ==> r == Err::<Self, EmployeeError>(
                EmployeeError::EmptyEmployeeId,
            ),
            employee_id@.len() > 0 && hourly_rate == 0 ==> r == Err::<Self, EmployeeError>(
                EmployeeError::NonPositiveHourlyRate,
            ),
            employee_id@.len() > 0 && hourly_rate > 0 ==> r == Ok::<Self, EmployeeError>(
                (ContractEmployee {
                    employee_id,
                    work_hour,
                    tunjangan,
                    periode_tunjangan,
                    hourly_rate,
                }),
            ),
            r is Ok ==> r->Ok_0.wf(),
    {
        if employee_id.as_str().is_empty() {
            Err(EmployeeError::EmptyEmployeeId)
        } else if hourly_rate == 0 {
            Err(EmployeeError::NonPositiveHourlyRate)
        } else {
            Ok(ContractEmployee { employee_id, work_hour, tunjangan, periode_tunjangan, hourly_rate })
        }
    }

    /// The pay for one hour, in sen.
    pub fn hourly_rate(&self) -> (r: u64)
        ensures
            r == self.hourly_rate,
    {
        self.hourly_rate
    }

    pub(crate) fn snapshot(&self) -> (r: Self)
        ensures
            r == *self,
    {
        ContractEmployee {
            employee_id: self.employee_id.clone(),
            work_hour: self.work_hour,
            tunjangan: self.tunjangan,
            periode_tunjangan: self.periode_tunjangan,
            hourly_rate: self.hourly_rate,
        }
    }

    /// Pay for the hours worked, in sen.
    pub fn base_pay(&self) -> (r: u128)
        ensures
            r == self.base_pay_spec(),
            r <= 0x1_0000_0000_0000_0000_0000_0000,
    {
        let hours = self.work_hour as u128;
        let rate = self.hourly_rate as u128;
        assert(hours * rate <= 0x1_0000_0000_0000_0000_0000_0000) by (nonlinear_arith)
            requires
                hours <= 0xFFFF_FFFF,
                rate <= 0xFFFF_FFFF_FFFF_FFFF,
        ;
        proof {
            lemma_rounded_quotient_bounds((hours * rate) as int, 100);
        }
        divide_rounded(hours * rate, 100)
    }
}

impl Employee for ContractEmployee {
    open spec fn id_view(&self) -> Seq<char> {
        self.employee_id@
    }

    open spec fn gross_of(&self) -> int {
        self.gross_spec()
    }

    open spec fn deduction_of(&self) -> int {
        contract_tax(self.gross_spec())
    }

    open spec fn hours_view(&self) -> u32 {
        self.work_hour
    }

    open spec fn allowance_view(&self) -> u64 {
        self.tunjangan
    }

    open spec fn period_view(&self) -> AllowancePeriod {
        self.periode_tunjangan
    }

    open spec fn type_label(&self) -> Seq<char> {
        "ContractEmployee"@
    }

    fn employee_id(&self) -> (r: &str) {
        self.employee_id.as_str()
    }

    fn work_hour(&self) -> (r: u32) {
        self.work_hour
    }

    fn tunjangan(&self) -> (r: u64) {
        self.tunjangan
    }

    fn periode_tunjangan(&self) -> (r: &AllowancePeriod) {
        &self.periode_tunjangan
    }

    fn calculate_gross(&self) -> (r: u128) {
        let base_pay = self.base_pay();
        let amount = self.tunjangan as u128;
        let allowance: u128 = match self.periode_tunjangan {
            AllowancePeriod::Monthly => amount,
            AllowancePeriod::Yearly => divide_rounded(amount, 12),
            AllowancePeriod::PerProject => amount,
        };
        proof {
            lemma_rounded_quotient_bounds(amount as int, 12);
        }
        base_pay + allowance
    }

    fn calculate_deduction(&self) -> (r: u128) {
        let gross = self.calculate_gross();
        proof {
            lemma_contract_tax_bounds(gross as int);
        }
        ContractTax.calculate_tax(gross)
    }

    fn calculate_net(&self) -> (r: u128) {
        self.calculate_gross() - self.calculate_deduction()
    }

    fn employee_type(&self) -> (r: &str) {
        "ContractEmployee"
    }
}

/// A contract gross stays below `GROSS_LIMIT`.
pub proof fn lemma_contract_gross_bound(e: &ContractEmployee)
    ensures
        0 <= e.gross_spec() < GROSS_LIMIT,
{
    let h = e.work_hour as int;
    let r = e.hourly_rate as int;
    assert(0 <= h * r <= 0x1_0000_0000_0000_0000_0000_0000) by (nonlinear_arith)
        requires
            0 <= h <= 0xFFFF_FFFF,
            0 <= r <= 0xFFFF_FFFF_FFFF_FFFF,
    ;
    lemma_rounded_quotient_bounds(h * r, 100);
    lemma_rounded_quotient_bounds(e.tunjangan as int, 12);
}

/// A full-time gross stays below `GROSS_LIMIT`.
pub proof fn lemma_fulltime_gross_bound(e: &FulltimeEmployee)
    ensures
        0 <= e.gross_spec() < GROSS_LIMIT,
{
    let h = overtime_hours(e.work_hour as int);
    let b = e.base_salary as int;
    assert(0 <= h * b * 3 <= 0x3_0000_0000_0000_0000_0000_0000) by (nonlinear_arith)
        requires
            0 <= h <= 0xFFFF_FFFF,
            0 <= b <= 0xFFFF_FFFF_FFFF_FFFF,
    ;
    lemma_rounded_quotient_bounds(h * b * 3, OVERTIME_DIVISOR as int);
    lemma_rounded_quotient_bounds(e.tunjangan as int, 12);
}

/// Full-time deductions are non-negative and never exceed the gross.
pub proof fn lemma_fulltime_deduction_bound(gross: int)
    requires
        0 <= gross,
    ensures
        0 <= fulltime_deduction(gross) <= gross,
{
    let t = fulltime_tax(12 * gross);
    lemma_fulltime_tax_bounds(12 * gross);
    lemma_rounded_quotient_bounds(t, 12);
    lemma_rounded_quotient_bounds(gross, 100);
    lemma_rounded_quotient_bounds(2 * gross, 100);
}

/// No overtime is paid for work within the standard monthly hours.
pub proof fn lemma_no_overtime_within_standard_hours(work_hour: int, base_salary: int)
    requires
        0 <= work_hour <= STANDARD_MONTHLY_HOURS,
        0 <= base_salary,
    ensures
        overtime_hours(work_hour) == 0,
        overtime_pay(work_hour, base_salary) == 0,
{
    lemma_rounded_quotient_bounds(0, OVERTIME_DIVISOR as int);
}

/// A yearly allowance counts one twelfth per month in both classifications;
/// a per-project allowance counts nothing for full-time employees and in full
/// for contract employees.
pub proof fn lemma_allowance_normalization(amount: int, months: int)
    requires
        0 <= amount,
        0 <= months,
    ensures
        fulltime_monthly_allowance(12 * months, AllowancePeriod::Yearly) == months,
        contract_monthly_allowance(12 * months, AllowancePeriod::Yearly) == months,
        fulltime_monthly_allowance(amount, AllowancePeriod::Monthly) == amount,
        contract_monthly_allowance(amount, AllowancePeriod::Monthly) == amount,
        fulltime_monthly_allowance(amount, AllowancePeriod::PerProject) == 0,
        contract_monthly_allowance(amount, AllowancePeriod::PerProject) == amount,
{
    assert((2 * (12 * months) + 12) / 24 == months) by (nonlinear_arith)
        requires
            0 <= months,
    ;
}

} // verus!
