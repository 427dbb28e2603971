use ecom_api::order_status::{
    koala_failure_message, koala_order_status, parse_pulsa_output, parse_ssl_output,
    state_to_string, KoalaOrder, OrderState,
};

#[test]
fn pulsa_paid_output_gives_serial_number() {
    let out = "  Halo\n𝗣𝗘𝗠𝗕𝗔𝗬𝗔𝗥𝗔𝗡 𝗗𝗜𝗧𝗘𝗥𝗜𝗠𝗔 & 𝗦𝗨𝗞𝗦𝗘𝗦\n— 𝘀 𝗻 / 𝘃 𝗼 𝘂 𝗰 𝗵 𝗲 𝗲 𝗿 🌟 :\n*SN-12345*  \nterima kasih\n";
    let r = parse_pulsa_output(out);
    assert_eq!(r.status, OrderState::Paid);
    assert_eq!(r.sn.as_deref(), Some("SN-12345"));
    assert_eq!(r.message, out.trim());
    assert!(r.link.is_none() && r.stock_data.is_none());
}

#[test]
fn pulsa_caption_and_missing_serial() {
    let r = parse_pulsa_output("log line\nCAPTION: first\nCAPTION: Pesanan sukses");
    assert_eq!(r.status, OrderState::Paid);
    assert_eq!(r.sn.as_deref(), Some("Sukses dikirim!"));
    assert_eq!(r.message, " Pesanan sukses");
    let r = parse_pulsa_output("x — 𝘀 𝗻 / 𝘃 𝗼 𝘂 𝗰 𝗵 𝗲 𝗲 𝗿 🌟 : CAPTION:");
    assert_eq!(r.sn.as_deref(), Some("Sukses dikirim!"));
}

#[test]
fn pulsa_other_states() {
    assert_eq!(parse_pulsa_output("[x] Transaksi Gagal").status, OrderState::Failed);
    assert_eq!(parse_pulsa_output("[*] Transaksi Sedang Diproses").status, OrderState::Processing);
    let r = parse_pulsa_output("  menunggu  ");
    assert_eq!(r.status, OrderState::Pending);
    assert_eq!(r.message, "menunggu");
    assert!(r.sn.is_none());
    assert_eq!(state_to_string(OrderState::Processing), "processing");
}

#[test]
fn ssl_paid_output_gives_first_link() {
    let r = parse_ssl_output("𝗣𝗘𝗠𝗕𝗔𝗬𝗔𝗥𝗔𝗡 𝗗𝗜𝗧𝗘𝗥𝗜𝗠𝗔\nUnduh:xhttp://no https://ssl.example/cert?id=1 http://second");
    assert_eq!(r.status, OrderState::Paid);
    assert_eq!(r.link.as_deref(), Some("https://ssl.example/cert?id=1"));
    let r = parse_ssl_output("CAPTION: tanpa tautan");
    assert_eq!(r.status, OrderState::Paid);
    assert!(r.link.is_none());
    assert_eq!(r.message, " tanpa tautan");
    let r = parse_ssl_output("[x] Transaksi Gagal https://x");
    assert_eq!(r.status, OrderState::Failed);
    assert!(r.link.is_none());
}

fn order(id: Option<&str>, status: Option<&str>, items: Option<Vec<Option<Vec<Option<String>>>>>) -> KoalaOrder {
    KoalaOrder { transaction_id: id.map(|s| s.to_string()), status: status.map(|s| s.to_string()), items }
}

#[test]
fn koala_orders() {
    let orders = vec![
        order(Some("A"), Some("failed"), None),
        order(Some("B"), Some("paid"), Some(vec![Some(vec![Some("user:pass".to_string())])])),
        order(Some("B"), Some("pending"), None),
        order(None, Some("paid"), None),
        order(Some("C"), None, None),
        order(Some("D"), Some("paid"), Some(vec![])),
    ];
    let b = koala_order_status(&orders, "B");
    assert_eq!(b.status, OrderState::Paid);
    assert_eq!(b.stock_data.as_deref(), Some("user:pass"));
    assert_eq!(b.message, "Order data retrieved successfully");
    assert_eq!(koala_order_status(&orders, "A").status, OrderState::Failed);
    assert_eq!(koala_order_status(&orders, "C").status, OrderState::Pending);
    let d = koala_order_status(&orders, "D");
    assert_eq!(d.status, OrderState::Paid);
    assert!(d.stock_data.is_none());
    assert_eq!(koala_order_status(&orders, "Z").status, OrderState::Pending);
    assert_eq!(koala_failure_message(None), "Failed to retrieve order status");
}
