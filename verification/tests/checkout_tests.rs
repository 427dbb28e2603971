use ecom_api::checkout::{
    accepts_provider, bot_order_table, checkout_error_message, checkout_receipt,
    payment_notification, plan_checkout, qris_description, BotOrderTable, CheckoutError,
    CheckoutRequest, GatewayReply,
};

fn req(provider: &str, variant: &str, target: &str, amount: i64) -> CheckoutRequest {
    CheckoutRequest {
        provider: provider.to_string(),
        product_code: Some("ML".to_string()),
        variant_code: variant.to_string(),
        product_name: Some("Mobile Legends".to_string()),
        variant_name: None,
        target: target.to_string(),
        amount,
        whatsapp_id: None,
    }
}

#[test]
fn checkout_requires_all_fields() {
    for r in [req("", "V", "T", 1), req("portalpulsa", "", "T", 1), req("portalpulsa", "V", "", 1), req("portalpulsa", "V", "T", 0)] {
        assert_eq!(plan_checkout(r).err(), Some(CheckoutError::MissingFields));
    }
    assert_eq!(checkout_error_message(CheckoutError::MissingFields), "Provider, variant_code, target, and amount are required");
    assert_eq!(plan_checkout(req("acme", "V", "T", 5)).err(), Some(CheckoutError::UnknownProvider));
    assert_eq!(checkout_error_message(CheckoutError::UnknownProvider), "Unknown provider");
}

#[test]
fn accepted_providers_and_defaults() {
    for p in ["koalastore", "portalpulsa", "sslstore", "miraclegaming", "mymall", "manual", "digiflazz", ""] {
        assert!(accepts_provider(p));
    }
    assert!(!accepts_provider("KoalaStore"));
    assert!(!accepts_provider("acme"));
    let plan = plan_checkout(req("miraclegaming", "V1", "12345", 15000)).ok().unwrap();
    assert_eq!(plan.provider, "miraclegaming");
    assert_eq!(plan.whatsapp_id, "12345");
    assert_eq!(plan.variant_name, "");
    assert_eq!(qris_description(&plan), "WEB-ML-12345");
}

#[test]
fn koalastore_orders_are_paid_through_buatqris() {
    let plan = plan_checkout(req("koalastore", "V1", "0812", 15000)).ok().unwrap();
    assert_eq!(plan.provider, "koalastore");
    assert_eq!(qris_description(&plan), "WEB-ML-0812");
}

#[test]
fn receipts_and_failures() {
    let plan = plan_checkout(req("koalastore", "V1", "0812", 15000)).ok().unwrap();
    let ok = checkout_receipt(
        &plan,
        GatewayReply { success: true, message: None, data: Some((Some("TX1".to_string()), Some("RAW QR".to_string()))) },
        15500,
    )
    .ok()
    .unwrap();
    assert_eq!(ok.transaction_id, "TX1");
    assert_eq!(ok.amount, 15500);
    assert_eq!(ok.provider, "koalastore");
    assert_eq!(ok.qr_image_url, "https://api.qrserver.com/v1/create-qr-code/?size=300x300&data=RAW%20QR");
    let no_qr = checkout_receipt(&plan, GatewayReply { success: true, message: None, data: Some((None, None)) }, 1).ok().unwrap();
    assert_eq!((no_qr.transaction_id.as_str(), no_qr.qr_image_url.as_str()), ("", ""));
    let err = checkout_receipt(&plan, GatewayReply { success: false, message: None, data: None }, 1).err().unwrap();
    assert_eq!(err, "Failed to generate QRIS");
    let plan2 = plan_checkout(req("sslstore", "V1", "a@b.c", 15000)).ok().unwrap();
    let err = checkout_receipt(&plan2, GatewayReply { success: true, message: None, data: None }, 1).err().unwrap();
    assert_eq!(err, "Failed to generate QRIS");
    let err = checkout_receipt(&plan2, GatewayReply { success: false, message: Some("saldo".to_string()), data: None }, 1).err().unwrap();
    assert_eq!(err, "saldo");
    let ok = checkout_receipt(&plan2, GatewayReply { success: true, message: None, data: Some((Some("Q".to_string()), None)) }, 7).ok().unwrap();
    assert_eq!(ok.provider, "sslstore");
}

#[test]
fn notifications_and_bot_tables() {
    assert_eq!(
        payment_notification("Netflix", "1 Bulan", 45000),
        "Menunggu pembayaran untuk Netflix (1 Bulan) sebesar Rp 45000"
    );
    assert_eq!(bot_order_table("portalpulsa"), Some(BotOrderTable::PortalPulsa));
    assert_eq!(bot_order_table("sslstore"), Some(BotOrderTable::SslStore));
    assert_eq!(bot_order_table("miraclegaming"), Some(BotOrderTable::MiracleGaming));
    assert_eq!(bot_order_table("manual"), None);
    assert_eq!(bot_order_table("koalastore"), None);
}
