//! The payroll ledger: immutable payroll records in processing order.
use crate::employee::{
    lemma_contract_gross_bound, lemma_fulltime_deduction_bound, lemma_fulltime_gross_bound,
    AllowancePeriod, ContractEmployee, Employee, FulltimeEmployee, GROSS_LIMIT,
};
use crate::tax::lemma_contract_tax_bounds;
use vstd::prelude::*;

verus! {

/// An employee of either classification.
#[derive(Debug, Clone)]
pub enum EmployeeData {
    Fulltime(FulltimeEmployee),
    Contract(ContractEmployee),
}

impl EmployeeData {
    pub(crate) fn snapshot(&self) -> (r: Self)
        ensures
            r == *self,
    {
        match self {
            EmployeeData::Fulltime(e) => EmployeeData::Fulltime(e.snapshot()),
            EmployeeData::Contract(e) => EmployeeData::Contract(e.snapshot()),
        }
    }
}

impl Employee for EmployeeData {
    open spec fn id_view(&self) -> Seq<char> {
        match self {
            EmployeeData::Fulltime(e) => e.id_view(),
            EmployeeData::Contract(e) => e.id_view(),
        }
    }

    open spec fn gross_of(&self) -> int {
        match self {
            EmployeeData::Fulltime(e) => e.gross_of(),
            EmployeeData::Contract(e) => e.gross_of(),
        }
    }

    open spec fn deduction_of(&self) -> int {
        match self {
            EmployeeData::Fulltime(e) => e.deduction_of(),
            EmployeeData::Contract(e) => e.deduction_of(),
        }
    }

    open spec fn hours_view(&self) -> u32 {
        match self {
            EmployeeData::Fulltime(e) => e.hours_view(),
            EmployeeData::Contract(e) => e.hours_view(),
        }
    }

    open spec fn allowance_view(&self) -> u64 {
        match self {
            EmployeeData::Fulltime(e) => e.allowance_view(),
            EmployeeData::Contract(e) => e.allowance_view(),
        }
    }

    open spec fn period_view(&self) -> AllowancePeriod {
        match self {
            EmployeeData::Fulltime(e) => e.period_view(),
            EmployeeData::Contract(e) => e.period_view(),
        }
    }

    open spec fn type_label(&self) -> Seq<char> {
        match self {
            EmployeeData::Fulltime(e) => e.type_label(),
            EmployeeData::Contract(e) => e.type_label(),
        }
    }

    fn employee_id(&self) -> (r: &str) {
        match self {
            EmployeeData::Fulltime(e) => e.employee_id(),
            EmployeeData::Contract(e) => e.employee_id(),
        }
    }

    fn work_hour(&self) -> (r: u32) {
        match self {
            EmployeeData::Fulltime(e) => e.work_hour(),
            EmployeeData::Contract(e) => e.work_hour(),
        }
    }

    fn tunjangan(&self) -> (r: u64) {
        match self {
            EmployeeData::Fulltime(e) => e.tunjangan(),
            EmployeeData::Contract(e) => e.tunjangan(),
        }
    }

    fn periode_tunjangan(&self) -> (r: &AllowancePeriod) {
        match self {
            EmployeeData::Fulltime(e) => e.periode_tunjangan(),
            EmployeeData::Contract(e) => e.periode_tunjangan(),
        }
    }

    fn calculate_gross(&self) -> (r: u128) {
        match self {
            EmployeeData::Fulltime(e) => e.calculate_gross(),
            EmployeeData::Contract(e) => e.calculate_gross(),
        }
    }

    fn calculate_deduction(&self) -> (r: u128) {
        match self {
            EmployeeData::Fulltime(e) => e.calculate_deduction(),
            EmployeeData::Contract(e) => e.calculate_deduction(),
        }
    }

    fn calculate_net(&self) -> (r: u128) {
        match self {
            EmployeeData::Fulltime(e) => e.calculate_net(),
            EmployeeData::Contract(e) => e.calculate_net(),
        }
    }

    fn employee_type(&self) -> (r: &str) {
        match self {
            EmployeeData::Fulltime(e) => e.employee_type(),
            EmployeeData::Contract(e) => e.employee_type(),
        }
    }
}

/// Relies on std's `SystemTime::now` and chrono's `From<SystemTime>` for
/// `DateTime<Utc>` with `DateTime::timestamp`: the current UTC time, as whole
/// seconds since the Unix epoch, negative for a clock set before 1970. Nothing
/// is known of the value.
#[verifier::external_body]
fn now_timestamp() -> (r: i64) {
    chrono::DateTime::<chrono::Utc>::from(std::time::SystemTime::now()).timestamp()
}

/// A processed payroll: a snapshot of the employee and the amounts computed
/// for it, in sen, frozen when the record was made.
#[derive(Debug, Clone)]
pub struct PayrollData {
    pub employee: EmployeeData,
    pub pay_period: String,
    /// When the record was made, in seconds since the Unix epoch (UTC).
    pub processed_date: i64,
    pub gross_salary: u128,
    pub deductions: u128,
    pub net_salary: u128,
}

impl PayrollData {
    /// The record holds the employee's own amounts.
    pub open spec fn computed_for(&self, employee: EmployeeData, pay_period: Seq<char>) -> bool {
        &&& self.employee == employee
        &&& self.pay_period@ == pay_period
        &&& self.gross_salary == employee.gross_of()
        &&& self.deductions == employee.deduction_of()
        &&& self.net_salary == employee.gross_of() - employee.deduction_of()
    }

    /// Net pay is gross pay less deductions.
    pub open spec fn balanced(&self) -> bool {
        &&& self.deductions <= self.gross_salary
        &&& self.net_salary == self.gross_salary - self.deductions
    }

    /// Computes the record of `employee` for `pay_period`, stamped with the current time.
    pub fn new(employee: EmployeeData, pay_period: String) -> (r: Self)
        ensures
            r.computed_for(employee, pay_period@),
            r.balanced(),
    {
        let now = now_timestamp();
        PayrollData::new_at(employee, pay_period, now)
    }

    /// Computes the record of `employee` for `pay_period`, stamped with `processed_date`.
    pub fn new_at(employee: EmployeeData, pay_period: String, processed_date: i64) -> (r: Self)
        ensures
            r.computed_for(employee, pay_period@),
            r.processed_date == processed_date,
            r.balanced(),
    {
        let gross_salary = employee.calculate_gross();
        let deductions = employee.calculate_deduction();
        let net_salary = employee.calculate_net();
        PayrollData { employee, pay_period, processed_date, gross_salary, deductions, net_salary }
    }

    pub(crate) fn snapshot(&self) -> (r: Self)
        ensures
            r == *self,
    {
        PayrollData {
            employee: self.employee.snapshot(),
            pay_period: self.pay_period.clone(),
            processed_date: self.processed_date,
            gross_salary: self.gross_salary,
            deductions: self.deductions,
            net_salary: self.net_salary,
        }
    }
}

/// The records of `records` whose employee has id `id`, in their order.
pub open spec fn records_of(records: Seq<PayrollData>, id: Seq<char>) -> Seq<PayrollData> {
    records.filter(|p: PayrollData| p.employee.id_view() == id)
}

/// The ledger: every processed payroll, in processing order.
#[derive(Debug, Default)]
pub struct Payroll {
    pub payroll_records: Vec<PayrollData>,
}

impl Payroll {
    /// Every record of the ledger is balanced.
    pub open spec fn wf(&self) -> bool {
        forall|i: int|
            0 <= i < self.payroll_records@.len() ==> #[trigger] self.payroll_records@[i].balanced()
    }

    /// An empty ledger.
    pub fn new() -> (r: Self)
        ensures
            r.payroll_records@ == Seq::<PayrollData>::empty(),
            r.wf(),
    {
        Payroll { payroll_records: Vec::new() }
    }

    /// Records the payroll of `employee` for `pay_period`, stamped with the
    /// current time, and returns a copy of the record.
    pub fn process_payroll(&mut self, employee: EmployeeData, pay_period: String) -> (r: PayrollData)
        ensures
            r.computed_for(employee, pay_period@),
            r.balanced(),
            final(self).payroll_records@ == old(self).payroll_records@.push(r),
            old(self).wf() ==> final(self).wf(),
    {
        let now = now_timestamp();
        self.process_payroll_at(employee, pay_period, now)
    }

    /// Records the payroll of `employee` for `pay_period`, stamped with
    /// `processed_date`, and returns a copy of the record.
    pub fn process_payroll_at(
        &mut self,
        employee: EmployeeData,
        pay_period: String,
        processed_date: i64,
    ) -> (r: PayrollData)
        ensures
            r.computed_for(employee, pay_period@),
            r.processed_date == processed_date,
            r.balanced(),
            final(self).payroll_records@ == old(self).payroll_records@.push(r),
            old(self).wf() ==> final(self).wf(),
    {
        let payroll_data = PayrollData::new_at(employee, pay_period, processed_date);
        self.payroll_records.push(payroll_data.snapshot());
        proof {
            let s = self.payroll_records@;
            assert forall|i: int| 0 <= i < s.len() && old(self).wf() implies #[trigger] s[i].balanced() by {
                if i < s.len() - 1 {
                    assert(s[i] == old(self).payroll_records@[i]);
                }
            }
        }
        payroll_data
    }

    /// Every record, in processing order. Two calls with no processing in
    /// between give the same sequence: the ledger itself.
    pub fn get_payroll_records(&self) -> (r: &Vec<PayrollData>)
        ensures
            *r == self.payroll_records,
            r@ == self.payroll_records@,
    {
        &self.payroll_records
    }

    /// The records of the employee with id `employee_id` (exact match), in processing order.
    pub fn get_employee_payroll(&self, employee_id: &str) -> (r: Vec<&PayrollData>)
        ensures
            r@.map_values(|p: &PayrollData| *p) == records_of(self.payroll_records@, employee_id@),
    {
        let target = employee_id.to_owned();
        let mut found: Vec<&PayrollData> = Vec::new();
        let n = self.payroll_records.len();
        let ghost all = self.payroll_records@;
        let mut i: usize = 0;
        while i < n
            invariant
                n == all.len(),
                all == self.payroll_records@,
                target@ == employee_id@,
                0 <= i <= n,
                found@.map_values(|p: &PayrollData| *p) == records_of(all.subrange(0, i as int), target@),
            decreases n - i,
        {
            let record = &self.payroll_records[i];
            let id = record.employee.employee_id().to_owned();
            let ghost before = found@.map_values(|p: &PayrollData| *p);
            if id == target {
                found.push(record);
            }
            proof {
                broadcast use Seq::lemma_filter_push;

                let prefix = all.subrange(0, i as int + 1);
                assert(prefix == all.subrange(0, i as int).push(*record));
                assert(found@.map_values(|p: &PayrollData| *p) =~= records_of(prefix, target@));
            }
            i = i + 1;
        }
        assert(all.subrange(0, n as int) == all);
        found
    }
}

/// Processing a record extends the history of its employee by that record,
/// at the end, and leaves every other employee's history as it was.
pub proof fn lemma_history_appends(records: Seq<PayrollData>, record: PayrollData, id: Seq<char>)
    ensures
        records_of(records.push(record), id) == if record.employee.id_view() == id {
            records_of(records, id).push(record)
        } else {
            records_of(records, id)
        },
{
    broadcast use Seq::lemma_filter_push;

}

/// The history of an employee is an order-preserving selection of the ledger:
/// the returned indices increase strictly, and the `k`-th record of the history
/// is the record at the `k`-th index, whose employee has id `id`.
pub proof fn lemma_history_indices(records: Seq<PayrollData>, id: Seq<char>) -> (idx: Seq<int>)
    ensures
        idx.len() == records_of(records, id).len(),
        forall|k: int, l: int| 0 <= k < l < idx.len() ==> idx[k] < idx[l],
        forall|k: int|
            0 <= k < idx.len() ==> {
                &&& 0 <= #[trigger] idx[k] < records.len()
                &&& records_of(records, id)[k] == records[idx[k]]
                &&& records[idx[k]].employee.id_view() == id
            },
    decreases records.len(),
{
    broadcast use Seq::lemma_filter_push;

    if records.len() == 0 {
        assert(records_of(records, id) =~= Seq::<PayrollData>::empty()) by {
            reveal(Seq::filter);
        }
        Seq::empty()
    } else {
        let rest = records.drop_last();
        let last = records.last();
        let before = lemma_history_indices(rest, id);
        assert(records == rest.push(last));
        if last.employee.id_view() == id {
            let idx = before.push(records.len() - 1);
            assert forall|k: int| 0 <= k < idx.len() implies {
                &&& 0 <= #[trigger] idx[k] < records.len()
                &&& records_of(records, id)[k] == records[idx[k]]
                &&& records[idx[k]].employee.id_view() == id
            } by {
                if k < before.len() {
                    assert(idx[k] == before[k]);
                }
            }
            idx
        } else {
            before
        }
    }
}

/// Every employee's net pay is its gross pay less its deductions, and the
/// deductions never exceed the gross: so is every record computed for it.
pub proof fn lemma_net_is_gross_less_deductions(
    employee: EmployeeData,
    pay_period: Seq<char>,
    record: PayrollData,
)
    requires
        record.computed_for(employee, pay_period),
    ensures
        0 <= employee.deduction_of() <= employee.gross_of() < GROSS_LIMIT,
        record.balanced(),
{
    match employee {
        EmployeeData::Fulltime(e) => {
            lemma_fulltime_gross_bound(&e);
            lemma_fulltime_deduction_bound(e.gross_spec());
        },
        EmployeeData::Contract(e) => {
            lemma_contract_gross_bound(&e);
            lemma_contract_tax_bounds(e.gross_spec());
        },
    }
}

/// Sum of one column of `records`, the column chosen by `amount`.
pub open spec fn column_total(records: Seq<PayrollData>, amount: spec_fn(PayrollData) -> int) -> int
    decreases records.len(),
{
    if records.len() == 0 {
        0
    } else {
        column_total(records.drop_last(), amount) + amount(records.last())
    }
}

pub open spec fn gross_column() -> spec_fn(PayrollData) -> int {
    |p: PayrollData| p.gross_salary as int
}

pub open spec fn net_column() -> spec_fn(PayrollData) -> int {
    |p: PayrollData| p.net_salary as int
}

pub open spec fn deductions_column() -> spec_fn(PayrollData) -> int {
    |p: PayrollData| p.deductions as int
}

/// A column total of a prefix never exceeds that of the whole sequence.
proof fn lemma_column_total_prefix(
    records: Seq<PayrollData>,
    amount: spec_fn(PayrollData) -> int,
    j: int,
)
    requires
        0 <= j <= records.len(),
        forall|p: PayrollData| 0 <= #[trigger] amount(p),
    ensures
        column_total(records.subrange(0, j), amount) <= column_total(records, amount),
    decreases records.len(),
{
    if j == records.len() {
        assert(records.subrange(0, j) == records);
    } else {
        let rest = records.drop_last();
        lemma_column_total_prefix(rest, amount, j);
        assert(rest.subrange(0, j) == records.subrange(0, j));
        assert(0 <= amount(records.last()));
    }
}

/// Totals over a set of payroll records, in sen.
#[derive(Debug, Clone, Copy, PartialEq, Eq, Structural)]
pub struct PayrollTotals {
    pub total_gross: u128,
    pub total_net: u128,
    pub total_deductions: u128,
}

/// Summaries of payroll records for display.
pub struct PayrollPresentation;

impl PayrollPresentation {
    /// Total gross, net and deductions over `records`; `None` when a total
    /// does not fit in a `u128`.
    pub fn summarize(records: &Vec<PayrollData>) -> (r: Option<PayrollTotals>)
        ensures
            column_total(records@, gross_column()) <= u128::MAX
                && column_total(records@, net_column()) <= u128::MAX
                && column_total(records@, deductions_column()) <= u128::MAX ==> r == Some(
                (PayrollTotals {
                    total_gross: column_total(records@, gross_column()) as u128,
                    total_net: column_total(records@, net_column()) as u128,
                    total_deductions: column_total(records@, deductions_column()) as u128,
                }),
            ),
            r is None <==> column_total(records@, gross_column()) > u128::MAX
                || column_total(records@, net_column()) > u128::MAX
                || column_total(records@, deductions_column()) > u128::MAX,
    {
        let ghost all = records@;
        let n = records.len();
        let mut gross: u128 = 0;
        let mut net: u128 = 0;
        let mut deductions: u128 = 0;
        let mut i: usize = 0;
        while i < n
            invariant
                n == all.len(),
                all == records@,
                0 <= i <= n,
                gross == column_total(all.subrange(0, i as int), gross_column()),
                net == column_total(all.subrange(0, i as int), net_column()),
                deductions == column_total(all.subrange(0, i as int), deductions_column()),
            decreases n - i,
        {
            let record = &records[i];
            let ghost next = all.subrange(0, i as int + 1);
            proof {
                assert(next.drop_last() == all.subrange(0, i as int));
                assert(next.last() == *record);
            }
            let g = gross.checked_add(record.gross_salary);
            let t = net.checked_add(record.net_salary);
            let d = deductions.checked_add(record.deductions);
            match (g, t, d) {
                (Some(g), Some(t), Some(d)) => {
                    gross = g;
                    net = t;
                    deductions = d;
                },
                _ => {
                    proof {
                        lemma_column_total_prefix(all, gross_column(), i as int + 1);
                        lemma_column_total_prefix(all, net_column(), i as int + 1);
                        lemma_column_total_prefix(all, deductions_column(), i as int + 1);
                    }
                    return None;
                },
            }
            i = i + 1;
        }
        assert(all.subrange(0, n as int) == all);
        Some(PayrollTotals { total_gross: gross, total_net: net, total_deductions: deductions })
    }
}

} // verus!
