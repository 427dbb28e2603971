use ecom_api::wallet::{topup_entry_description, validate_withdrawal_request};
use ecom_api::wallet::{
    decide_withdrawal, gateway_status, topup_created, topup_error_message, topup_gateway_error,
    topup_local_reply, topup_poll_decision, validate_topup_amount, withdrawal_error_message,
    EntryKind, TopupAction, TopupError, TopupRecord, TopupStatus, Wallet, WithdrawalError,
    WithdrawalRequest,
};

fn request(amount: i64, name: &str, account: &str, holder: &str) -> WithdrawalRequest {
    WithdrawalRequest {
        amount,
        bank_name: name.to_string(),
        bank_account: account.to_string(),
        bank_holder: holder.to_string(),
    }
}

fn pending(trx: &str, amount: i64) -> TopupRecord {
    TopupRecord { trx_id: trx.to_string(), amount, total_amount: amount + 123, status: TopupStatus::Pending }
}

#[test]
fn topup_minimum_is_ten_thousand() {
    assert_eq!(validate_topup_amount(9999), Err(TopupError::AmountTooSmall));
    assert_eq!(validate_topup_amount(10000), Ok(()));
    assert_eq!(topup_error_message(TopupError::AmountTooSmall), "Jumlah top-up minimal Rp 10.000");
}

#[test]
fn withdrawal_decisions_and_messages() {
    let ok = decide_withdrawal(50000, &request(20000, "BCA", "123", "Ani")).ok().unwrap();
    assert_eq!(ok.new_balance, 30000);
    assert_eq!(ok.history_amount, -20000);
    assert_eq!(ok.description, "Penarikan ke BCA - 123");
    assert_eq!(
        decide_withdrawal(50000, &request(5000, "BCA", "123", "Ani")).err(),
        Some(WithdrawalError::AmountTooSmall)
    );
    assert_eq!(
        decide_withdrawal(50000, &request(20000, "", "123", "Ani")).err(),
        Some(WithdrawalError::IncompleteBankData)
    );
    assert_eq!(
        decide_withdrawal(15000, &request(20000, "BCA", "123", "Ani")).err(),
        Some(WithdrawalError::InsufficientBalance { balance: 15000 })
    );
    assert_eq!(
        withdrawal_error_message(WithdrawalError::InsufficientBalance { balance: 15000 }),
        "Saldo tidak mencukupi. Saldo Anda: Rp 15000"
    );
    assert_eq!(withdrawal_error_message(WithdrawalError::AmountTooSmall), "Jumlah penarikan minimal Rp 10.000");
    assert_eq!(withdrawal_error_message(WithdrawalError::IncompleteBankData), "Data rekening bank tidak lengkap");
}

#[test]
fn local_reply_for_final_topups() {
    let mut t = pending("T1", 20000);
    assert!(topup_local_reply(Some(&t)).is_none());
    t.status = TopupStatus::Success;
    let r = topup_local_reply(Some(&t)).unwrap();
    assert_eq!(r.status, "success");
    assert_eq!(r.message, "Pembayaran telah terkonfirmasi");
    assert_eq!(r.amount, Some(20000));
    t.status = TopupStatus::Expired;
    let r = topup_local_reply(Some(&t)).unwrap();
    assert_eq!(r.status, "expired");
    assert_eq!(r.message, "Transaksi kadaluarsa / gagal");
    assert!(topup_local_reply(None).is_none());
}

#[test]
fn poll_decisions() {
    let t = pending("T1", 20000);
    let (a, r) = topup_poll_decision(Some(&t), "success");
    assert_eq!(a, TopupAction::Credit { amount: 20000 });
    assert_eq!(r.message, "Pembayaran berhasil! Saldo telah dikreditkan.");
    let (a, r) = topup_poll_decision(Some(&t), "expired");
    assert_eq!(a, TopupAction::Mark { status: TopupStatus::Expired });
    assert_eq!(r.message, "QR Code kadaluarsa");
    let (a, r) = topup_poll_decision(Some(&t), "failed");
    assert_eq!(a, TopupAction::Mark { status: TopupStatus::Failed });
    assert_eq!(r.message, "Pembayaran gagal");
    let (a, r) = topup_poll_decision(Some(&t), "pending");
    assert_eq!(a, TopupAction::Keep);
    assert_eq!(r.message, "Menunggu pembayaran");
    let (a, r) = topup_poll_decision(None, "weird");
    assert_eq!(a, TopupAction::Keep);
    assert_eq!(r.status, "weird");
    assert_eq!(r.message, "Status tidak diketahui");
    let (a, _) = topup_poll_decision(None, "success");
    assert_eq!(a, TopupAction::Keep);
}

#[test]
fn gateway_status_fallbacks() {
    assert_eq!(gateway_status(Some("paid".to_string()), Some("x".to_string())), "paid");
    assert_eq!(gateway_status(None, Some("expired".to_string())), "expired");
    assert_eq!(gateway_status(None, None), "pending");
}

#[test]
fn topup_gateway_data_defaults() {
    let c = topup_created(Some("TRX9".to_string()), None, Some("https://pay".to_string()), None, 25000);
    assert_eq!(c.trx_id, "TRX9");
    assert_eq!(c.qr_url, "");
    assert_eq!(c.payment_url, "https://pay");
    assert_eq!(c.total_amount, 25000);
    assert_eq!(topup_created(None, None, None, Some(25123), 25000).total_amount, 25123);
    assert_eq!(topup_gateway_error(None), "Gagal membuat QRIS");
    assert_eq!(topup_gateway_error(Some("limit".to_string())), "limit");
}

#[test]
fn topup_is_credited_exactly_once() {
    let mut w = Wallet::new("a@b.c".to_string());
    assert_eq!(w.record_topup("T1".to_string(), 20000, 20111), Ok(()));
    assert_eq!(w.record_topup("T1".to_string(), 99999, 99999), Ok(()));
    assert_eq!(w.topups.len(), 1);
    assert_eq!(w.topups[0].amount, 20000);
    assert_eq!(w.record_topup("T2".to_string(), 5000, 5000), Err(TopupError::AmountTooSmall));
    let r = w.check_topup("T1", "pending");
    assert_eq!(r.status, "pending");
    assert_eq!(w.balance, 0);
    let r = w.check_topup("T1", "success");
    assert_eq!(r.status, "success");
    assert_eq!(w.balance, 20000);
    assert_eq!(w.history.len(), 1);
    assert_eq!(w.history[0].kind, EntryKind::Topup);
    assert_eq!(w.history[0].description, "Top-up via QRIS #T1");
    assert_eq!(w.history[0].ref_id.as_deref(), Some("T1"));
    let r = w.check_topup("T1", "success");
    assert_eq!(r.message, "Pembayaran telah terkonfirmasi");
    assert_eq!(r.amount, Some(20000));
    assert_eq!(w.balance, 20000);
    assert_eq!(w.history.len(), 1);
}

#[test]
fn expired_topup_is_never_credited() {
    let mut w = Wallet::new("a@b.c".to_string());
    w.record_topup("T1".to_string(), 20000, 20000).unwrap();
    w.check_topup("T1", "expired");
    assert_eq!(w.topups[0].status, TopupStatus::Expired);
    let r = w.check_topup("T1", "success");
    assert_eq!(r.status, "expired");
    assert_eq!(w.balance, 0);
}

#[test]
fn withdrawal_keeps_balance_and_history_together() {
    let mut w = Wallet::new("a@b.c".to_string());
    w.record_topup("T1".to_string(), 50000, 50000).unwrap();
    w.check_topup("T1", "success");
    assert_eq!(w.withdraw(request(60000, "BCA", "1", "A")), Err(WithdrawalError::InsufficientBalance { balance: 50000 }));
    assert_eq!(w.balance, 50000);
    assert_eq!(w.withdraw(request(30000, "BCA", "1", "A")), Ok(20000));
    assert_eq!(w.balance, 20000);
    assert_eq!(w.withdrawals.len(), 1);
    let sum: i64 = w.history.iter().map(|e| e.amount).sum();
    assert_eq!(sum, w.balance);
}

#[test]
fn withdrawal_request_checks_before_the_balance() {
    assert_eq!(validate_withdrawal_request(&request(9999, "", "", "")), Err(WithdrawalError::AmountTooSmall));
    assert_eq!(validate_withdrawal_request(&request(10000, "BCA", "", "Ani")), Err(WithdrawalError::IncompleteBankData));
    assert_eq!(validate_withdrawal_request(&request(10000, "BCA", "1", "Ani")), Ok(()));
}

#[test]
fn topup_history_description() {
    assert_eq!(topup_entry_description("TRX42"), "Top-up via QRIS #TRX42");
}

#[test]
fn server_topup_and_withdrawal_paths_match_the_wallet_model() {
    let mut w = Wallet::new("a@b.c".to_string());
    w.record_topup("T9".to_string(), 30000, 30100).unwrap();
    // The server asks the stored row first, then decides on the gateway's answer.
    assert!(topup_local_reply(Some(&w.topups[0])).is_none());
    let (action, reply) = topup_poll_decision(Some(&w.topups[0]), "success");
    assert_eq!(action, TopupAction::Credit { amount: 30000 });
    let model_reply = w.check_topup("T9", "success");
    assert_eq!((model_reply.status, model_reply.message), (reply.status, reply.message));
    assert_eq!(w.balance, 30000);
    assert_eq!(w.history[0].description, topup_entry_description("T9"));
    let plan = decide_withdrawal(w.balance, &request(20000, "BCA", "123", "Ani")).ok().unwrap();
    assert_eq!(w.withdraw(request(20000, "BCA", "123", "Ani")), Ok(plan.new_balance));
    assert_eq!(w.history[1].amount, plan.history_amount);
    assert_eq!(w.history[1].description, plan.description);
}
