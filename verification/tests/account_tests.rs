use ecom_api::account::{normalize_user_settings, stored_user_settings, UserSettingsRequest};

#[test]
fn missing_settings_are_empty() {
    let req = UserSettingsRequest {
        name: "Ani".to_string(),
        phone: Some("0812".to_string()),
        recovery_email_1: None,
        recovery_email_2: None,
        bank_name: Some("BCA".to_string()),
        bank_account_number: None,
        bank_account_holder: None,
    };
    let s = normalize_user_settings(req);
    assert_eq!(s.name, "Ani");
    assert_eq!(s.phone, "0812");
    assert_eq!(s.recovery_email_1, "");
    assert_eq!(s.bank_name, "BCA");
    assert_eq!(s.bank_account_holder, "");
    let row = stored_user_settings(None, None, Some("r@x.id".to_string()), None, None, None, None);
    assert_eq!(row.name, "");
    assert_eq!(row.recovery_email_1, "r@x.id");
}
