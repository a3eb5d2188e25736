use payroll_engine::{
    AllowancePeriod, ContractEmployee, ContractTax, Employee, EmployeeError, FulltimeEmployee,
    FulltimeTax, Tax,
};

fn fulltime(hours: u32, allowance: u64, period: AllowancePeriod, base: u64) -> FulltimeEmployee {
    FulltimeEmployee::new("FT-1".to_string(), hours, allowance, period, base).unwrap()
}

fn contract(hours: u32, allowance: u64, period: AllowancePeriod, rate: u64) -> ContractEmployee {
    ContractEmployee::new("CT-1".to_string(), hours, allowance, period, rate).unwrap()
}

#[test]
fn allowance_period_parses_any_case() {
    assert_eq!(AllowancePeriod::from_str("monthly"), Some(AllowancePeriod::Monthly));
    assert_eq!(AllowancePeriod::from_str("MONTHLY"), Some(AllowancePeriod::Monthly));
    assert_eq!(AllowancePeriod::from_str("Yearly"), Some(AllowancePeriod::Yearly));
    assert_eq!(AllowancePeriod::from_str("Per_Project"), Some(AllowancePeriod::PerProject));
}

#[test]
fn allowance_period_rejects_unknown_tokens() {
    assert_eq!(AllowancePeriod::from_str("weekly"), None);
    assert_eq!(AllowancePeriod::from_str(""), None);
    assert_eq!(AllowancePeriod::from_str("per project"), None);
    assert_eq!(AllowancePeriod::from_lowercase("Monthly"), None);
    assert_eq!(AllowancePeriod::from_lowercase("yearly"), Some(AllowancePeriod::Yearly));
}

#[test]
fn construction_refuses_invalid_fields() {
    let r = FulltimeEmployee::new(String::new(), 0, 0, AllowancePeriod::Monthly, 100);
    assert_eq!(r.unwrap_err(), EmployeeError::EmptyEmployeeId);
    let r = FulltimeEmployee::new("A".to_string(), 0, 0, AllowancePeriod::Monthly, 0);
    assert_eq!(r.unwrap_err(), EmployeeError::NonPositiveBaseSalary);
    let r = ContractEmployee::new(String::new(), 0, 0, AllowancePeriod::Monthly, 0);
    assert_eq!(r.unwrap_err(), EmployeeError::EmptyEmployeeId);
    let r = ContractEmployee::new("B".to_string(), 0, 0, AllowancePeriod::Monthly, 0);
    assert_eq!(r.unwrap_err(), EmployeeError::NonPositiveHourlyRate);
}

#[test]
fn construction_keeps_fields() {
    let e = fulltime(17_000, 5, AllowancePeriod::Yearly, 900);
    assert_eq!(e.employee_id(), "FT-1");
    assert_eq!(Employee::work_hour(&e), 17_000);
    assert_eq!(Employee::tunjangan(&e), 5);
    assert_eq!(*Employee::periode_tunjangan(&e), AllowancePeriod::Yearly);
    assert_eq!(e.base_salary(), 900);
    assert_eq!(e.employee_type(), "FulltimeEmployee");
    let c = contract(1, 2, AllowancePeriod::PerProject, 3);
    assert_eq!(c.hourly_rate(), 3);
    assert_eq!(c.employee_type(), "ContractEmployee");
}

#[test]
fn no_overtime_within_standard_hours() {
    for hours in [0u32, 100, 16_000, 17_299, 17_300] {
        let e = fulltime(hours, 0, AllowancePeriod::Monthly, 1_000_000_000);
        assert_eq!(e.overtime_pay(), 0);
        assert_eq!(e.calculate_gross(), 1_000_000_000);
    }
    let e = fulltime(17_301, 0, AllowancePeriod::Monthly, 1_000_000_000);
    assert!(e.overtime_pay() > 0);
}

#[test]
fn fulltime_example_with_overtime() {
    let e = fulltime(18_000, 120_000_000, AllowancePeriod::Monthly, 1_000_000_000);
    assert_eq!(e.overtime_pay(), 60_693_642);
    assert_eq!(e.calculate_gross(), 1_180_693_642);
    assert_eq!(e.calculate_deduction(), 212_524_855);
    assert_eq!(e.calculate_net(), 968_168_787);
}

#[test]
fn contract_example_per_project() {
    let c = contract(10_000, 60_000_000, AllowancePeriod::PerProject, 5_000_000);
    assert_eq!(c.base_pay(), 500_000_000);
    assert_eq!(c.calculate_gross(), 560_000_000);
    assert_eq!(c.calculate_deduction(), 14_000_000);
    assert_eq!(c.calculate_net(), 546_000_000);
}

#[test]
fn allowance_normalization() {
    let yearly = 1_200_000_000;
    let e = fulltime(0, yearly, AllowancePeriod::Yearly, 500_000_000);
    assert_eq!(e.calculate_gross(), 600_000_000);
    let c = contract(0, yearly, AllowancePeriod::Yearly, 1);
    assert_eq!(c.calculate_gross(), 100_000_000);
    let e = fulltime(0, 7_000, AllowancePeriod::PerProject, 500_000_000);
    assert_eq!(e.calculate_gross(), 500_000_000);
    let c = contract(0, 7_000, AllowancePeriod::PerProject, 1);
    assert_eq!(c.calculate_gross(), 7_000);
    let c = contract(0, 7_000, AllowancePeriod::Monthly, 1);
    assert_eq!(c.calculate_gross(), 7_000);
}

#[test]
fn fulltime_tax_bracket_bounds_are_inclusive() {
    assert_eq!(FulltimeTax.calculate_tax(5_400_000_000), 270_000_000);
    assert_eq!(FulltimeTax.calculate_tax(5_400_000_001), 810_000_000);
    assert_eq!(FulltimeTax.calculate_tax(25_000_000_000), 3_750_000_000);
    assert_eq!(FulltimeTax.calculate_tax(25_000_000_001), 6_250_000_000);
    assert_eq!(FulltimeTax.calculate_tax(50_000_000_000), 12_500_000_000);
    assert_eq!(FulltimeTax.calculate_tax(50_000_000_001), 15_000_000_000);
    assert_eq!(FulltimeTax.calculate_tax(0), 0);
}

#[test]
fn fulltime_deduction_at_lowest_bracket_bound() {
    let e = fulltime(0, 0, AllowancePeriod::Monthly, 450_000_000);
    assert_eq!(e.calculate_gross(), 450_000_000);
    assert_eq!(e.calculate_deduction(), 36_000_000);
    assert_eq!(e.calculate_net(), 414_000_000);
}

#[test]
fn contract_tax_is_flat() {
    assert_eq!(ContractTax.calculate_tax(560_000_000), 14_000_000);
    assert_eq!(ContractTax.calculate_tax(40), 1);
    assert_eq!(ContractTax.calculate_tax(400_000_000_000), 10_000_000_000);
    assert_eq!(ContractTax.calculate_tax(20), 1);
    assert_eq!(ContractTax.calculate_tax(19), 0);
    assert_eq!(ContractTax.calculate_tax(0), 0);
}

#[test]
fn extreme_inputs_do_not_overflow() {
    let e = fulltime(u32::MAX, u64::MAX, AllowancePeriod::Monthly, u64::MAX);
    assert_eq!(e.calculate_net(), e.calculate_gross() - e.calculate_deduction());
    let c = contract(u32::MAX, u64::MAX, AllowancePeriod::PerProject, u64::MAX);
    assert_eq!(c.calculate_net(), c.calculate_gross() - c.calculate_deduction());
}
