//! Payroll computation for full-time and contract employees.
//!
//! Amounts of money are whole numbers of sen (one hundredth of a rupiah) and
//! work hours are whole numbers of hundredths of an hour.
pub mod money;
pub mod tax;
pub mod employee;
pub mod payroll;

pub use employee::{AllowancePeriod, ContractEmployee, Employee, EmployeeError, FulltimeEmployee};
pub use payroll::{EmployeeData, Payroll, PayrollData, PayrollPresentation, PayrollTotals};
pub use tax::{ContractTax, FulltimeTax, Tax};

use vstd::prelude::*;

verus! {

} // verus!
