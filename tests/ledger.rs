use payroll_engine::{
    AllowancePeriod, ContractEmployee, Employee, EmployeeData, FulltimeEmployee, Payroll,
    PayrollData, PayrollPresentation, PayrollTotals,
};

fn ft(id: &str, base: u64) -> EmployeeData {
    EmployeeData::Fulltime(
        FulltimeEmployee::new(id.to_string(), 18_000, 120_000_000, AllowancePeriod::Monthly, base)
            .unwrap(),
    )
}

fn ct(id: &str) -> EmployeeData {
    EmployeeData::Contract(
        ContractEmployee::new(id.to_string(), 10_000, 60_000_000, AllowancePeriod::PerProject, 5_000_000)
            .unwrap(),
    )
}

#[test]
fn record_snapshots_amounts() {
    let r = PayrollData::new_at(ct("C1"), "September 2024".to_string(), 1_727_000_000);
    assert_eq!(r.pay_period, "September 2024");
    assert_eq!(r.processed_date, 1_727_000_000);
    assert_eq!(r.gross_salary, 560_000_000);
    assert_eq!(r.deductions, 14_000_000);
    assert_eq!(r.net_salary, 546_000_000);
    assert_eq!(r.employee.employee_id(), "C1");
    assert_eq!(r.employee.employee_type(), "ContractEmployee");
}

#[test]
fn every_record_balances() {
    let mut p = Payroll::new();
    p.process_payroll_at(ft("A", 1_000_000_000), "Jan".to_string(), 1);
    p.process_payroll_at(ct("B"), "Jan".to_string(), 2);
    p.process_payroll_at(ft("C", 1), "Jan".to_string(), 3);
    p.process_payroll_at(ft("D", 99_999_999_999), "Jan".to_string(), 4);
    for r in p.get_payroll_records() {
        assert_eq!(r.net_salary, r.gross_salary - r.deductions);
    }
}

#[test]
fn processing_appends_in_order() {
    let mut p = Payroll::new();
    assert!(p.get_payroll_records().is_empty());
    let first = p.process_payroll_at(ft("A", 1_000_000_000), "Jan".to_string(), 10);
    let second = p.process_payroll_at(ct("B"), "Jan".to_string(), 20);
    let records = p.get_payroll_records();
    assert_eq!(records.len(), 2);
    assert_eq!(records[0].processed_date, 10);
    assert_eq!(records[1].processed_date, 20);
    assert_eq!(first.gross_salary, 1_180_693_642);
    assert_eq!(second.gross_salary, 560_000_000);
}

#[test]
fn employee_history_keeps_order_and_matches_exactly() {
    let mut p = Payroll::new();
    p.process_payroll_at(ft("A", 1_000_000_000), "Jan".to_string(), 1);
    p.process_payroll_at(ct("B"), "Jan".to_string(), 2);
    p.process_payroll_at(ft("A", 2_000_000_000), "Feb".to_string(), 3);
    p.process_payroll_at(ft("AA", 1_000_000_000), "Feb".to_string(), 4);
    p.process_payroll_at(ft("a", 1_000_000_000), "Feb".to_string(), 5);
    let history = p.get_employee_payroll("A");
    assert_eq!(history.len(), 2);
    assert_eq!(history[0].processed_date, 1);
    assert_eq!(history[0].pay_period, "Jan");
    assert_eq!(history[1].processed_date, 3);
    assert_eq!(history[1].pay_period, "Feb");
    assert_eq!(p.get_employee_payroll("B").len(), 1);
    assert!(p.get_employee_payroll("Z").is_empty());
    assert!(p.get_employee_payroll("").is_empty());
}

#[test]
fn querying_twice_gives_equal_sequences() {
    let mut p = Payroll::new();
    p.process_payroll_at(ft("A", 1_000_000_000), "Jan".to_string(), 1);
    p.process_payroll_at(ct("B"), "Jan".to_string(), 2);
    let a: Vec<(i64, u128)> = p.get_payroll_records().iter().map(|r| (r.processed_date, r.net_salary)).collect();
    let b: Vec<(i64, u128)> = p.get_payroll_records().iter().map(|r| (r.processed_date, r.net_salary)).collect();
    assert_eq!(a, b);
}

#[test]
fn processing_stamps_current_time() {
    let mut p = Payroll::new();
    let r = p.process_payroll(ct("B"), "Oct".to_string());
    assert!(r.processed_date > 1_600_000_000);
    assert_eq!(r.net_salary, 546_000_000);
    assert_eq!(p.get_payroll_records().len(), 1);
    let d = PayrollData::new(ct("C"), "Oct".to_string());
    assert!(d.processed_date > 1_600_000_000);
}

#[test]
fn totals_sum_every_record() {
    let mut p = Payroll::new();
    assert_eq!(
        PayrollPresentation::summarize(p.get_payroll_records()),
        Some(PayrollTotals { total_gross: 0, total_net: 0, total_deductions: 0 })
    );
    p.process_payroll_at(ft("A", 1_000_000_000), "Jan".to_string(), 1);
    p.process_payroll_at(ct("B"), "Jan".to_string(), 2);
    let t = PayrollPresentation::summarize(p.get_payroll_records()).unwrap();
    assert_eq!(t.total_gross, 1_180_693_642 + 560_000_000);
    assert_eq!(t.total_net, 968_168_787 + 546_000_000);
    assert_eq!(t.total_deductions, 212_524_855 + 14_000_000);
}

#[test]
fn totals_report_overflow() {
    let mut big = PayrollData::new_at(ct("B"), "Jan".to_string(), 1);
    big.gross_salary = u128::MAX;
    big.net_salary = u128::MAX;
    big.deductions = 0;
    let records = vec![big.clone(), big];
    assert_eq!(PayrollPresentation::summarize(&records), None);
}

#[test]
fn employee_data_exposes_fields_through_the_trait() {
    let e = ft("A", 1_000_000_000);
    assert_eq!(e.work_hour(), 18_000);
    assert_eq!(e.tunjangan(), 120_000_000);
    assert_eq!(*e.periode_tunjangan(), AllowancePeriod::Monthly);
    assert_eq!(e.employee_type(), "FulltimeEmployee");
    assert_eq!(ct("B").employee_type(), "ContractEmployee");
}
