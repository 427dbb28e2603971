use ecom_api::dashboard::{checked_dashboard_totals, checked_profit_sum, checked_sales_sum};
use ecom_api::dashboard::{
    clean_phone, dashboard_totals, is_admin_view, phone_suffix, plan_dashboard, PartnerScope,
    ProfitRow, TransactionRow, TransactionScope,
};

#[test]
fn phone_matching() {
    assert_eq!(clean_phone("+62 812-3456-7890"), "6281234567890");
    assert_eq!(phone_suffix("6281234567890"), "%234567890");
    assert_eq!(phone_suffix("12345"), "%12345");
}

#[test]
fn admin_view_needs_scope_and_rights() {
    assert!(is_admin_view("admin", Some(1), None));
    assert!(is_admin_view("admin", Some(0), Some("admin".to_string())));
    assert!(!is_admin_view("admin", Some(0), Some("user".to_string())));
    assert!(!is_admin_view("user", Some(3), Some("admin".to_string())));
    assert!(!is_admin_view("admin", None, None));
}

#[test]
fn dashboard_plans() {
    let p = plan_dashboard(true, "admin", None);
    assert_eq!((p.transactions, p.profits, p.resellers), (TransactionScope::All, PartnerScope::All, PartnerScope::All));
    let p = plan_dashboard(false, "admin", Some("0812-345".to_string()));
    assert_eq!(p.transactions, TransactionScope::ResellerLinked);
    assert_eq!(p.profits, PartnerScope::ByPhone);
    assert_eq!((p.clean_phone.as_str(), p.suffix.as_str()), ("0812345", "%0812345"));
    let p = plan_dashboard(false, "admin", Some("n/a".to_string()));
    assert_eq!((p.transactions, p.profits), (TransactionScope::Nothing, PartnerScope::Nothing));
    let p = plan_dashboard(false, "", None);
    assert_eq!((p.transactions, p.resellers), (TransactionScope::Personal, PartnerScope::Nothing));
}

#[test]
fn totals() {
    let tx = |a: i64| TransactionRow {
        transaction_id: "t".to_string(),
        whatsapp_id: None,
        product_name: None,
        variant_name: None,
        amount: a,
        created_at: String::new(),
    };
    let pr = |a: i64| ProfitRow { transaction_id: "t".to_string(), reseller_wa: None, profit_amount: a, created_at: String::new() };
    let t = dashboard_totals(&vec![tx(1000), tx(2500), tx(-500)], &vec![pr(100), pr(50)]);
    assert_eq!((t.total_orders, t.total_sales, t.total_profit), (3, 3000, 150));
    let t = dashboard_totals(&vec![], &vec![]);
    assert_eq!((t.total_orders, t.total_sales, t.total_profit), (0, 0, 0));
}

#[test]
fn checked_totals_refuse_overflowing_sums() {
    let t = |amount: i64| TransactionRow {
        transaction_id: "T".to_string(),
        whatsapp_id: None,
        product_name: None,
        variant_name: None,
        amount,
        created_at: String::new(),
    };
    let p = |profit_amount: i64| ProfitRow {
        transaction_id: "T".to_string(),
        reseller_wa: None,
        profit_amount,
        created_at: String::new(),
    };
    let ok = checked_dashboard_totals(&vec![t(1000), t(2500)], &vec![p(100), p(-20)]).unwrap();
    assert_eq!((ok.total_orders, ok.total_sales, ok.total_profit), (2, 3500, 80));
    assert_eq!(checked_sales_sum(&vec![t(i64::MAX), t(1)]), None);
    assert_eq!(checked_sales_sum(&vec![t(i64::MAX), t(-1)]), Some(i64::MAX - 1));
    assert_eq!(checked_profit_sum(&vec![p(i64::MIN), p(-1)]), None);
    assert!(checked_dashboard_totals(&vec![t(i64::MAX), t(i64::MAX)], &vec![]).is_none());
    assert!(checked_dashboard_totals(&vec![], &vec![]).is_some());
}
