//! The balance ("saldo") of one account: QRIS top-ups, withdrawals to a bank
//! account, and the history that records every change of the balance.

use vstd::prelude::*;
use crate::text::{decimal, extend_chars, extend_str, from_chars, i64_decimal, str_eq, to_chars};

verus! {

broadcast use vstd::string::group_string_axioms;

/// The smallest top-up accepted, in rupiah.
pub const MIN_TOPUP: i64 = 10000;

/// The smallest withdrawal accepted, in rupiah.
pub const MIN_WITHDRAWAL: i64 = 10000;

/// The state of a top-up request as the database keeps it.
#[derive(PartialEq, Eq, Structural, Clone, Copy, Debug)]
pub enum TopupStatus {
    Pending,
    Success,
    Expired,
    Failed,
}

/// One row of `topup_requests` for this account.
pub struct TopupRecord {
    pub trx_id: String,
    pub amount: i64,
    pub total_amount: i64,
    pub status: TopupStatus,
}

/// What a history row records.
#[derive(PartialEq, Eq, Structural, Clone, Copy, Debug)]
pub enum EntryKind {
    Topup,
    Withdrawal,
}

/// One row of `wallet_history`.
pub struct WalletEntry {
    pub kind: EntryKind,
    pub amount: i64,
    pub description: String,
    pub ref_id: Option<String>,
}

/// One row of `withdrawal_requests` (every new request is pending).
pub struct WithdrawalRecord {
    pub amount: i64,
    pub bank_name: String,
    pub bank_account: String,
    pub bank_holder: String,
}

/// The body of a withdrawal request.
pub struct WithdrawalRequest {
    pub amount: i64,
    pub bank_name: String,
    pub bank_account: String,
    pub bank_holder: String,
}

/// Why a withdrawal is refused.
#[derive(PartialEq, Eq, Structural, Clone, Copy, Debug)]
pub enum WithdrawalError {
    AmountTooSmall,
    IncompleteBankData,
    InsufficientBalance { balance: i64 },
}

/// Why a top-up is refused.
#[derive(PartialEq, Eq, Structural, Clone, Copy, Debug)]
pub enum TopupError {
    AmountTooSmall,
}

/// What an accepted withdrawal writes: the new balance, the signed amount of
/// the history row, and its description.
pub struct WithdrawalPlan {
    pub new_balance: i64,
    pub history_amount: i64,
    pub description: String,
}

/// The answer to a top-up status check.
pub struct TopupReply {
    pub status: String,
    pub message: String,
    pub amount: Option<i64>,
}

/// The change that a top-up status check makes to the stored data.
#[derive(PartialEq, Eq, Structural, Clone, Copy, Debug)]
pub enum TopupAction {
    /// Nothing is written.
    Keep,
    /// The request becomes successful and its amount is added to the balance,
    /// with a history row.
    Credit { amount: i64 },
    /// The request is marked with the given final status.
    Mark { status: TopupStatus },
}

// ---------------------------------------------------------------------------
// Specifications
// ---------------------------------------------------------------------------

/// The text stored in the database for a top-up status.
pub open spec fn status_text(s: TopupStatus) -> Seq<char> {
    match s {
        TopupStatus::Pending => "pending"@,
        TopupStatus::Success => "success"@,
        TopupStatus::Expired => "expired"@,
        TopupStatus::Failed => "failed"@,
    }
}

/// The description of a withdrawal history row.
pub open spec fn withdrawal_description(bank_name: Seq<char>, bank_account: Seq<char>) -> Seq<
    char,
> {
    "Penarikan ke "@ + bank_name + " - "@ + bank_account
}

/// The description of a top-up history row.
pub open spec fn topup_description(trx_id: Seq<char>) -> Seq<char> {
    "Top-up via QRIS #"@ + trx_id
}

/// The decision on a withdrawal request against the current balance.
pub open spec fn withdrawal_outcome(
    balance: int,
    amount: int,
    bank_name: Seq<char>,
    bank_account: Seq<char>,
    bank_holder: Seq<char>,
) -> Result<int, WithdrawalError> {
    if amount < MIN_WITHDRAWAL {
        Err(WithdrawalError::AmountTooSmall)
    } else if bank_name.len() == 0 || bank_account.len() == 0 || bank_holder.len() == 0 {
        Err(WithdrawalError::IncompleteBankData)
    } else if balance < amount {
        Err(WithdrawalError::InsufficientBalance { balance: balance as i64 })
    } else {
        Ok(balance - amount)
    }
}

/// The message shown for a polled status that is not final.
pub open spec fn poll_message(api_status: Seq<char>) -> Seq<char> {
    if api_status == "pending"@ {
        "Menunggu pembayaran"@
    } else if api_status == "expired"@ {
        "QR Code kadaluarsa"@
    } else if api_status == "failed"@ {
        "Pembayaran gagal"@
    } else {
        "Status tidak diketahui"@
    }
}

// ---------------------------------------------------------------------------
// Decisions on plain values
// ---------------------------------------------------------------------------

/// The text stored for a top-up status.
pub fn status_to_string(s: TopupStatus) -> (r: String)
    ensures
        r@ == status_text(s),
{
    match s {
        TopupStatus::Pending => String::from_str("pending"),
        TopupStatus::Success => String::from_str("success"),
        TopupStatus::Expired => String::from_str("expired"),
        TopupStatus::Failed => String::from_str("failed"),
    }
}

/// The status that a stored text stands for; anything else is left out.
pub fn parse_status(s: &str) -> (r: Option<TopupStatus>)
    ensures
        match r {
            Some(st) => status_text(st) == s@,
            None => forall|st: TopupStatus| status_text(st) != s@,
        },
{
    if str_eq(s, "pending") {
        Some(TopupStatus::Pending)
    } else if str_eq(s, "success") {
        Some(TopupStatus::Success)
    } else if str_eq(s, "expired") {
        Some(TopupStatus::Expired)
    } else if str_eq(s, "failed") {
        Some(TopupStatus::Failed)
    } else {
        None
    }
}

/// Checks the amount of a new top-up: at least `MIN_TOPUP`.
pub fn validate_topup_amount(amount: i64) -> (r: Result<(), TopupError>)
    ensures
        r is Ok <==> amount >= MIN_TOPUP,
        r is Err ==> r == Err::<(), TopupError>(TopupError::AmountTooSmall),
{
    if amount < MIN_TOPUP {
        Err(TopupError::AmountTooSmall)
    } else {
        Ok(())
    }
}

/// The text that the client is shown for a refused withdrawal.
pub fn withdrawal_error_message(e: WithdrawalError) -> (m: String)
    ensures
        m@ == match e {
            WithdrawalError::AmountTooSmall => "Jumlah penarikan minimal Rp 10.000"@,
            WithdrawalError::IncompleteBankData => "Data rekening bank tidak lengkap"@,
            WithdrawalError::InsufficientBalance { balance } => "Saldo tidak mencukupi. Saldo Anda: Rp "@
                + decimal(balance as int),
        },
{
    match e {
        WithdrawalError::AmountTooSmall => String::from_str("Jumlah penarikan minimal Rp 10.000"),
        WithdrawalError::IncompleteBankData => String::from_str("Data rekening bank tidak lengkap"),
        WithdrawalError::InsufficientBalance { balance } => {
            let mut v = to_chars("Saldo tidak mencukupi. Saldo Anda: Rp ");
            let d = i64_decimal(balance);
            extend_chars(&mut v, d.as_slice());
            from_chars(v.as_slice())
        },
    }
}

/// The text that the client is shown for a refused top-up.
pub fn topup_error_message(e: TopupError) -> (m: String)
    ensures
        m@ == match e {
            TopupError::AmountTooSmall => "Jumlah top-up minimal Rp 10.000"@,
        },
{
    match e {
        TopupError::AmountTooSmall => String::from_str("Jumlah top-up minimal Rp 10.000"),
    }
}

/// Decides a withdrawal request against the current balance: the amount must
/// be at least `MIN_WITHDRAWAL`, the three bank fields non-empty, and the
/// balance must cover the amount, which is then deducted at once.
pub fn decide_withdrawal(balance: i64, req: &WithdrawalRequest) -> (r: Result<
    WithdrawalPlan,
    WithdrawalError,
>)
    ensures
        match (r, withdrawal_outcome(
            balance as int,
            req.amount as int,
            req.bank_name@,
            req.bank_account@,
            req.bank_holder@,
        )) {
            (Ok(plan), Ok(nb)) => {
                &&& plan.new_balance == nb
                &&& plan.history_amount == -req.amount
                &&& plan.description@ == withdrawal_description(
                    req.bank_name@,
                    req.bank_account@,
                )
            },
            (Err(e1), Err(e2)) => e1 == e2,
            _ => false,
        },
{
    match validate_withdrawal_request(req) {
        Ok(()) => {},
        Err(e) => return Err(e),
    }
    if balance < req.amount {
        return Err(WithdrawalError::InsufficientBalance { balance });
    }
    let mut d = to_chars("Penarikan ke ");
    extend_str(&mut d, req.bank_name.as_str());
    extend_str(&mut d, " - ");
    extend_str(&mut d, req.bank_account.as_str());
    Ok(WithdrawalPlan {
        new_balance: balance - req.amount,
        history_amount: -req.amount,
        description: from_chars(d.as_slice()),
    })
}

/// The checks on a withdrawal request that need no balance: the amount is
/// at least `MIN_WITHDRAWAL` and the bank name, account and holder are all
/// given (checked in that order).
pub fn validate_withdrawal_request(req: &WithdrawalRequest) -> (r: Result<(), WithdrawalError>)
    ensures
        req.amount < MIN_WITHDRAWAL ==> r == Err::<(), WithdrawalError>(WithdrawalError::AmountTooSmall),
        req.amount >= MIN_WITHDRAWAL && (req.bank_name@.len() == 0 || req.bank_account@.len() == 0
            || req.bank_holder@.len() == 0) ==> r == Err::<(), WithdrawalError>(
            WithdrawalError::IncompleteBankData,
        ),
        req.amount >= MIN_WITHDRAWAL && req.bank_name@.len() > 0 && req.bank_account@.len() > 0
            && req.bank_holder@.len() > 0 ==> r is Ok,
{
    if req.amount < MIN_WITHDRAWAL {
        return Err(WithdrawalError::AmountTooSmall);
    }
    if req.bank_name.as_str().unicode_len() == 0 || req.bank_account.as_str().unicode_len() == 0
        || req.bank_holder.as_str().unicode_len() == 0 {
        return Err(WithdrawalError::IncompleteBankData);
    }
    Ok(())
}

/// The answer that the stored top-up alone gives, before the payment
/// gateway is asked: a successful request is confirmed, an expired or failed
/// one is reported as such; otherwise (unknown or pending) the gateway must
/// be asked and `None` is returned.
pub fn topup_local_reply(local: Option<&TopupRecord>) -> (r: Option<TopupReply>)
    ensures
        match r {
            Some(rep) => local_reply_of(record_view(local)) == Some(rep@),
            None => local_reply_of(record_view(local)) is None,
        },
        match local {
            Some(t) => match t.status {
                TopupStatus::Success => {
                    &&& r matches Some(rep)
                    &&& rep.status@ == "success"@
                    &&& rep.message@ == "Pembayaran telah terkonfirmasi"@
                    &&& rep.amount == Some(t.amount)
                },
                TopupStatus::Expired | TopupStatus::Failed => {
                    &&& r matches Some(rep)
                    &&& rep.status@ == status_text(t.status)
                    &&& rep.message@ == "Transaksi kadaluarsa / gagal"@
                    &&& rep.amount == Some(t.amount)
                },
                TopupStatus::Pending => r is None,
            },
            None => r is None,
        },
{
    match local {
        Some(t) => match t.status {
            TopupStatus::Success => Some(
                TopupReply {
                    status: String::from_str("success"),
                    message: String::from_str("Pembayaran telah terkonfirmasi"),
                    amount: Some(t.amount),
                },
            ),
            TopupStatus::Expired | TopupStatus::Failed => Some(
                TopupReply {
                    status: status_to_string(t.status),
                    message: String::from_str("Transaksi kadaluarsa / gagal"),
                    amount: Some(t.amount),
                },
            ),
            TopupStatus::Pending => None,
        },
        None => None,
    }
}

/// The status reported by the payment gateway: the one under `data`, else
/// the top-level one, else `"pending"`.
pub fn gateway_status(data_status: Option<String>, top_status: Option<String>) -> (r: String)
    ensures
        r@ == match (data_status, top_status) {
            (Some(d), _) => d@,
            (None, Some(t)) => t@,
            (None, None) => "pending"@,
        },
{
    match data_status {
        Some(d) => d,
        None => match top_status {
            Some(t) => t,
            None => String::from_str("pending"),
        },
    }
}

/// The decision after the payment gateway reported `api_status` for a
/// top-up: on `"success"` the request is credited (unless the stored request
/// is missing or already successful) and confirmed; on `"expired"` or
/// `"failed"` it is marked so; any status is echoed with its message.
pub fn topup_poll_decision(local: Option<&TopupRecord>, api_status: &str) -> (r: (
    TopupAction,
    TopupReply,
))
    ensures
        (r.0, r.1@) == poll_decision_of(record_view(local), api_status@),
        api_status@ == "success"@ ==> {
            &&& r.0 == match local {
                Some(t) => if t.status == TopupStatus::Success {
                    TopupAction::Keep
                } else {
                    TopupAction::Credit { amount: t.amount }
                },
                None => TopupAction::Keep,
            }
            &&& r.1.status@ == "success"@
            &&& r.1.message@ == "Pembayaran berhasil! Saldo telah dikreditkan."@
            &&& r.1.amount is None
        },
        api_status@ != "success"@ ==> {
            &&& r.0 == if api_status@ == "expired"@ {
                TopupAction::Mark { status: TopupStatus::Expired }
            } else if api_status@ == "failed"@ {
                TopupAction::Mark { status: TopupStatus::Failed }
            } else {
                TopupAction::Keep
            }
            &&& r.1.status@ == api_status@
            &&& r.1.message@ == poll_message(api_status@)
            &&& r.1.amount is None
        },
{
    if str_eq(api_status, "success") {
        let action = match local {
            Some(t) => if t.status == TopupStatus::Success {
                TopupAction::Keep
            } else {
                TopupAction::Credit { amount: t.amount }
            },
            None => TopupAction::Keep,
        };
        return (
            action,
            TopupReply {
                status: String::from_str("success"),
                message: String::from_str("Pembayaran berhasil! Saldo telah dikreditkan."),
                amount: None,
            },
        );
    }
    let action = if str_eq(api_status, "expired") {
        TopupAction::Mark { status: TopupStatus::Expired }
    } else if str_eq(api_status, "failed") {
        TopupAction::Mark { status: TopupStatus::Failed }
    } else {
        TopupAction::Keep
    };
    let message = if str_eq(api_status, "pending") {
        String::from_str("Menunggu pembayaran")
    } else if str_eq(api_status, "expired") {
        String::from_str("QR Code kadaluarsa")
    } else if str_eq(api_status, "failed") {
        String::from_str("Pembayaran gagal")
    } else {
        String::from_str("Status tidak diketahui")
    };
    (action, TopupReply { status: String::from_str(api_status), message, amount: None })
}

/// A top-up request as the payment gateway created it.
pub struct TopupCreated {
    pub trx_id: String,
    pub qr_url: String,
    pub payment_url: String,
    pub total_amount: i64,
}

/// The top-up request to record from the gateway's data: missing texts are
/// empty and a missing total is the requested amount.
pub fn topup_created(
    trx_id: Option<String>,
    qr_url: Option<String>,
    payment_url: Option<String>,
    total_amount: Option<i64>,
    amount: i64,
) -> (r: TopupCreated)
    ensures
        r.trx_id@ == match trx_id {
            Some(s) => s@,
            None => Seq::<char>::empty(),
        },
        r.qr_url@ == match qr_url {
            Some(s) => s@,
            None => Seq::<char>::empty(),
        },
        r.payment_url@ == match payment_url {
            Some(s) => s@,
            None => Seq::<char>::empty(),
        },
        r.total_amount == match total_amount {
            Some(t) => t,
            None => amount,
        },
{
    TopupCreated {
        trx_id: match trx_id {
            Some(s) => s,
            None => String::new(),
        },
        qr_url: match qr_url {
            Some(s) => s,
            None => String::new(),
        },
        payment_url: match payment_url {
            Some(s) => s,
            None => String::new(),
        },
        total_amount: match total_amount {
            Some(t) => t,
            None => amount,
        },
    }
}

/// The description of the history row of a credited top-up.
pub fn topup_entry_description(trx_id: &str) -> (r: String)
    ensures
        r@ == topup_description(trx_id@),
{
    let mut d = to_chars("Top-up via QRIS #");
    extend_str(&mut d, trx_id);
    from_chars(d.as_slice())
}

/// The error shown when the gateway refused to create a top-up QRIS: its
/// message, or a fixed one.
pub fn topup_gateway_error(message: Option<String>) -> (r: String)
    ensures
        r@ == match message {
            Some(m) => m@,
            None => "Gagal membuat QRIS"@,
        },
{
    match message {
        Some(m) => m,
        None => String::from_str("Gagal membuat QRIS"),
    }
}

// ---------------------------------------------------------------------------
// Abstract model of the wallet of one account
// ---------------------------------------------------------------------------

/// A history row, as plain values.
pub struct EntryView {
    pub kind: EntryKind,
    pub amount: int,
    pub description: Seq<char>,
    pub ref_id: Option<Seq<char>>,
}

/// A top-up request, as plain values.
pub struct TopupView {
    pub trx_id: Seq<char>,
    pub amount: int,
    pub total_amount: int,
    pub status: TopupStatus,
}

/// A withdrawal request, as plain values.
pub struct WithdrawalView {
    pub amount: int,
    pub bank_name: Seq<char>,
    pub bank_account: Seq<char>,
    pub bank_holder: Seq<char>,
}

/// The answer to a status check, as plain values.
pub struct ReplyView {
    pub status: Seq<char>,
    pub message: Seq<char>,
    pub amount: Option<int>,
}

/// The wallet data of one account, as plain values.
pub struct WalletView {
    pub email: Seq<char>,
    pub balance: int,
    pub history: Seq<EntryView>,
    pub topups: Seq<TopupView>,
    pub withdrawals: Seq<WithdrawalView>,
}

impl View for WalletEntry {
    type V = EntryView;

    open spec fn view(&self) -> EntryView {
        EntryView {
            kind: self.kind,
            amount: self.amount as int,
            description: self.description@,
            ref_id: match self.ref_id {
                Some(r) => Some(r@),
                None => None,
            },
        }
    }
}

impl View for TopupRecord {
    type V = TopupView;

    open spec fn view(&self) -> TopupView {
        TopupView {
            trx_id: self.trx_id@,
            amount: self.amount as int,
            total_amount: self.total_amount as int,
            status: self.status,
        }
    }
}

impl View for WithdrawalRecord {
    type V = WithdrawalView;

    open spec fn view(&self) -> WithdrawalView {
        WithdrawalView {
            amount: self.amount as int,
            bank_name: self.bank_name@,
            bank_account: self.bank_account@,
            bank_holder: self.bank_holder@,
        }
    }
}

impl View for TopupReply {
    type V = ReplyView;

    open spec fn view(&self) -> ReplyView {
        ReplyView {
            status: self.status@,
            message: self.message@,
            amount: match self.amount {
                Some(a) => Some(a as int),
                None => None,
            },
        }
    }
}

/// The reply for a status that the payment gateway reported.
pub open spec fn poll_reply(api_status: Seq<char>) -> ReplyView {
    if api_status == "success"@ {
        ReplyView {
            status: "success"@,
            message: "Pembayaran berhasil! Saldo telah dikreditkan."@,
            amount: None,
        }
    } else {
        ReplyView { status: api_status, message: poll_message(api_status), amount: None }
    }
}

/// The stored top-up, as plain values.
pub open spec fn record_view(local: Option<&TopupRecord>) -> Option<TopupView> {
    match local {
        Some(t) => Some(t@),
        None => None,
    }
}

/// The answer that the stored top-up alone gives (see `topup_local_reply`).
pub open spec fn local_reply_of(local: Option<TopupView>) -> Option<ReplyView> {
    match local {
        Some(t) => match t.status {
            TopupStatus::Success => Some(
                ReplyView {
                    status: "success"@,
                    message: "Pembayaran telah terkonfirmasi"@,
                    amount: Some(t.amount),
                },
            ),
            TopupStatus::Expired | TopupStatus::Failed => Some(
                ReplyView {
                    status: status_text(t.status),
                    message: "Transaksi kadaluarsa / gagal"@,
                    amount: Some(t.amount),
                },
            ),
            TopupStatus::Pending => None,
        },
        None => None,
    }
}

/// The decision after the gateway reported `api_status` (see
/// `topup_poll_decision`).
pub open spec fn poll_decision_of(local: Option<TopupView>, api_status: Seq<char>) -> (
    TopupAction,
    ReplyView,
) {
    let action = if api_status == "success"@ {
        match local {
            Some(t) => if t.status == TopupStatus::Success {
                TopupAction::Keep
            } else {
                TopupAction::Credit { amount: t.amount as i64 }
            },
            None => TopupAction::Keep,
        }
    } else if api_status == "expired"@ {
        TopupAction::Mark { status: TopupStatus::Expired }
    } else if api_status == "failed"@ {
        TopupAction::Mark { status: TopupStatus::Failed }
    } else {
        TopupAction::Keep
    };
    (action, poll_reply(api_status))
}

/// The rows of the account after the server wrote a decision on its top-up
/// `trx`: a credit makes the request successful, adds its amount to the
/// balance and records a history row; a mark sets the final status; a
/// decision on a top-up that the account does not hold writes none of its
/// rows.
pub open spec fn apply_action(w: WalletView, trx: Seq<char>, a: TopupAction) -> WalletView {
    match w.topup_index(trx) {
        Some(i) => match a {
            TopupAction::Keep => w,
            TopupAction::Credit { amount: _ } => w.credit(i),
            TopupAction::Mark { status } => w.mark(i, status),
        },
        None => w,
    }
}

/// A history row that credits the top-up `trx`.
pub open spec fn is_credit_of(e: EntryView, trx: Seq<char>) -> bool {
    e.kind == EntryKind::Topup && e.ref_id == Some(trx)
}

/// How many history rows credit the top-up `trx`.
pub open spec fn credits_for(h: Seq<EntryView>, trx: Seq<char>) -> nat
    decreases h.len(),
{
    if h.len() == 0 {
        0
    } else {
        credits_for(h.drop_last(), trx) + if is_credit_of(h.last(), trx) {
            1nat
        } else {
            0nat
        }
    }
}

/// The sum of the signed amounts of the history rows.
pub open spec fn sum_amounts(h: Seq<EntryView>) -> int
    decreases h.len(),
{
    if h.len() == 0 {
        0
    } else {
        sum_amounts(h.drop_last()) + h.last().amount
    }
}

impl WalletView {
    /// What every operation keeps: the balance is never negative and is the
    /// sum of the history; top-up ids are unique and every top-up is at least
    /// `MIN_TOPUP`; every credit row belongs to a stored top-up; a top-up has
    /// been credited exactly once if it is successful and never otherwise.
    pub open spec fn wf(self) -> bool {
        &&& 0 <= self.balance <= i64::MAX
        &&& self.balance == sum_amounts(self.history)
        &&& forall|i: int, j: int|
            0 <= i < j < self.topups.len() ==> self.topups[i].trx_id != self.topups[j].trx_id
        &&& forall|i: int| 0 <= i < self.topups.len() ==> #[trigger] self.topups[i].amount >= MIN_TOPUP
        &&& forall|i: int|
            0 <= i < self.topups.len() ==> credits_for(self.history, #[trigger] self.topups[i].trx_id)
                == if self.topups[i].status == TopupStatus::Success {
                1nat
            } else {
                0nat
            }
        &&& forall|k: int|
            0 <= k < self.history.len() && #[trigger] self.history[k].kind == EntryKind::Topup
                ==> exists|i: int|
                0 <= i < self.topups.len() && is_credit_of(self.history[k], #[trigger] self.topups[i].trx_id)
    }

    /// The position of the top-up `trx`, if it is stored.
    pub open spec fn topup_index(self, trx: Seq<char>) -> Option<int> {
        if exists|i: int| 0 <= i < self.topups.len() && self.topups[i].trx_id == trx {
            Some(choose|i: int| 0 <= i < self.topups.len() && self.topups[i].trx_id == trx)
        } else {
            None
        }
    }

    /// Crediting the top-up `trx` keeps the balance within `i64`.
    pub open spec fn credit_fits(self, trx: Seq<char>) -> bool {
        match self.topup_index(trx) {
            Some(i) => self.balance + self.topups[i].amount <= i64::MAX,
            None => true,
        }
    }

    /// A wallet with no rows yet.
    pub open spec fn empty(email: Seq<char>) -> WalletView {
        WalletView {
            email,
            balance: 0,
            history: Seq::empty(),
            topups: Seq::empty(),
            withdrawals: Seq::empty(),
        }
    }

    /// Recording a top-up request that the payment gateway accepted. A
    /// request whose id is already stored is not stored again (the table's
    /// id is unique), and the request is still answered as accepted.
    pub open spec fn record_topup(self, trx: Seq<char>, amount: int, total_amount: int) -> (
        WalletView,
        Result<(), TopupError>,
    ) {
        if amount < MIN_TOPUP {
            (self, Err(TopupError::AmountTooSmall))
        } else if self.topup_index(trx) is Some {
            (self, Ok(()))
        } else {
            (
                WalletView {
                    topups: self.topups.push(
                        TopupView { trx_id: trx, amount, total_amount, status: TopupStatus::Pending },
                    ),
                    ..self
                },
                Ok(()),
            )
        }
    }

    /// Crediting the top-up at `i`: it becomes successful, its amount joins
    /// the balance, and a history row records it.
    pub open spec fn credit(self, i: int) -> WalletView {
        let t = self.topups[i];
        WalletView {
            balance: self.balance + t.amount,
            history: self.history.push(
                EntryView {
                    kind: EntryKind::Topup,
                    amount: t.amount,
                    description: topup_description(t.trx_id),
                    ref_id: Some(t.trx_id),
                },
            ),
            topups: self.topups.update(i, TopupView { status: TopupStatus::Success, ..t }),
            ..self
        }
    }

    /// Marking the top-up at `i` with a final status.
    pub open spec fn mark(self, i: int, status: TopupStatus) -> WalletView {
        WalletView { topups: self.topups.update(i, TopupView { status, ..self.topups[i] }), ..self }
    }

    /// A status check of the top-up `trx` after the gateway reported
    /// `api_status`.
    pub open spec fn check_topup(self, trx: Seq<char>, api_status: Seq<char>) -> (
        WalletView,
        ReplyView,
    ) {
        match self.topup_index(trx) {
            None => (self, poll_reply(api_status)),
            Some(i) => {
                let t = self.topups[i];
                match t.status {
                    TopupStatus::Success => (
                        self,
                        ReplyView {
                            status: "success"@,
                            message: "Pembayaran telah terkonfirmasi"@,
                            amount: Some(t.amount),
                        },
                    ),
                    TopupStatus::Expired | TopupStatus::Failed => (
                        self,
                        ReplyView {
                            status: status_text(t.status),
                            message: "Transaksi kadaluarsa / gagal"@,
                            amount: Some(t.amount),
                        },
                    ),
                    TopupStatus::Pending => if api_status == "success"@ {
                        (self.credit(i), poll_reply(api_status))
                    } else if api_status == "expired"@ {
                        (self.mark(i, TopupStatus::Expired), poll_reply(api_status))
                    } else if api_status == "failed"@ {
                        (self.mark(i, TopupStatus::Failed), poll_reply(api_status))
                    } else {
                        (self, poll_reply(api_status))
                    },
                }
            },
        }
    }

    /// A withdrawal request against this wallet.
    pub open spec fn withdraw(
        self,
        amount: int,
        bank_name: Seq<char>,
        bank_account: Seq<char>,
        bank_holder: Seq<char>,
    ) -> (WalletView, Result<int, WithdrawalError>) {
        match withdrawal_outcome(self.balance, amount, bank_name, bank_account, bank_holder) {
            Ok(nb) => (
                WalletView {
                    balance: nb,
                    history: self.history.push(
                        EntryView {
                            kind: EntryKind::Withdrawal,
                            amount: -amount,
                            description: withdrawal_description(bank_name, bank_account),
                            ref_id: None,
                        },
                    ),
                    withdrawals: self.withdrawals.push(
                        WithdrawalView { amount, bank_name, bank_account, bank_holder },
                    ),
                    ..self
                },
                Ok(nb),
            ),
            Err(e) => (self, Err(e)),
        }
    }
}

// ---------------------------------------------------------------------------
// Proofs that the operations keep the invariant
// ---------------------------------------------------------------------------

proof fn lemma_push_sums(h: Seq<EntryView>, e: EntryView, trx: Seq<char>)
    ensures
        sum_amounts(h.push(e)) == sum_amounts(h) + e.amount,
        credits_for(h.push(e), trx) == credits_for(h, trx) + if is_credit_of(e, trx) {
            1nat
        } else {
            0nat
        },
{
    assert(h.push(e).drop_last() =~= h);
}

/// With no credit row pointing at an id that is not stored, a fresh id has no
/// credit rows.
proof fn lemma_no_credit_rows(h: Seq<EntryView>, trx: Seq<char>, topups: Seq<TopupView>)
    requires
        forall|i: int| 0 <= i < topups.len() ==> topups[i].trx_id != trx,
        forall|k: int|
            0 <= k < h.len() && #[trigger] h[k].kind == EntryKind::Topup ==> exists|i: int|
                0 <= i < topups.len() && is_credit_of(h[k], #[trigger] topups[i].trx_id),
    ensures
        credits_for(h, trx) == 0,
    decreases h.len(),
{
    if h.len() > 0 {
        let hl = h.drop_last();
        assert forall|k: int| 0 <= k < hl.len() && #[trigger] hl[k].kind == EntryKind::Topup implies exists|i: int|
            0 <= i < topups.len() && is_credit_of(hl[k], #[trigger] topups[i].trx_id) by {
            assert(hl[k] == h[k]);
        }
        lemma_no_credit_rows(hl, trx, topups);
        if is_credit_of(h.last(), trx) {
            let k = h.len() - 1;
            assert(h[k].kind == EntryKind::Topup);
            let i = choose|i: int| 0 <= i < topups.len() && is_credit_of(h[k], #[trigger] topups[i].trx_id);
        }
    }
}

proof fn lemma_topup_index(w: WalletView, trx: Seq<char>)
    requires
        w.wf(),
    ensures
        match w.topup_index(trx) {
            Some(i) => 0 <= i < w.topups.len() && w.topups[i].trx_id == trx,
            None => forall|j: int| 0 <= j < w.topups.len() ==> w.topups[j].trx_id != trx,
        },
{
}

proof fn lemma_record_keeps_wf(w: WalletView, trx: Seq<char>, amount: int, total_amount: int)
    requires
        w.wf(),
    ensures
        w.record_topup(trx, amount, total_amount).0.wf(),
{
    if amount >= MIN_TOPUP && w.topup_index(trx) is None {
        let w2 = w.record_topup(trx, amount, total_amount).0;
        lemma_topup_index(w, trx);
        lemma_no_credit_rows(w.history, trx, w.topups);
        assert forall|k: int|
            0 <= k < w2.history.len() && #[trigger] w2.history[k].kind == EntryKind::Topup
            implies exists|i: int|
            0 <= i < w2.topups.len() && is_credit_of(w2.history[k], #[trigger] w2.topups[i].trx_id) by {
            let i = choose|i: int| 0 <= i < w.topups.len() && is_credit_of(w.history[k], #[trigger] w.topups[i].trx_id);
            assert(w2.topups[i] == w.topups[i]);
        }
        assert forall|i: int| 0 <= i < w2.topups.len() implies credits_for(w2.history, #[trigger] w2.topups[i].trx_id)
            == if w2.topups[i].status == TopupStatus::Success { 1nat } else { 0nat } by {
            if i < w.topups.len() {
                assert(w2.topups[i] == w.topups[i]);
            }
        }
        assert forall|i: int| 0 <= i < w2.topups.len() implies #[trigger] w2.topups[i].amount >= MIN_TOPUP by {
            if i < w.topups.len() {
                assert(w2.topups[i] == w.topups[i]);
            }
        }
    }
}

proof fn lemma_mark_keeps_wf(w: WalletView, i: int, status: TopupStatus)
    requires
        w.wf(),
        0 <= i < w.topups.len(),
        w.topups[i].status == TopupStatus::Pending,
        status != TopupStatus::Success,
    ensures
        w.mark(i, status).wf(),
{
    let w2 = w.mark(i, status);
    assert forall|k: int|
        0 <= k < w2.history.len() && #[trigger] w2.history[k].kind == EntryKind::Topup
        implies exists|j: int|
        0 <= j < w2.topups.len() && is_credit_of(w2.history[k], #[trigger] w2.topups[j].trx_id) by {
        let j = choose|j: int| 0 <= j < w.topups.len() && is_credit_of(w.history[k], #[trigger] w.topups[j].trx_id);
        assert(w2.topups[j].trx_id == w.topups[j].trx_id);
    }
    assert forall|a: int, b: int| 0 <= a < b < w2.topups.len() implies w2.topups[a].trx_id != w2.topups[b].trx_id by {
        assert(w2.topups[a].trx_id == w.topups[a].trx_id);
        assert(w2.topups[b].trx_id == w.topups[b].trx_id);
    }
    assert forall|a: int| 0 <= a < w2.topups.len() implies credits_for(w2.history, #[trigger] w2.topups[a].trx_id)
        == if w2.topups[a].status == TopupStatus::Success { 1nat } else { 0nat } by {
        assert(w2.topups[a].trx_id == w.topups[a].trx_id);
    }
    assert forall|a: int| 0 <= a < w2.topups.len() implies #[trigger] w2.topups[a].amount >= MIN_TOPUP by {
        assert(w2.topups[a].amount == w.topups[a].amount);
    }
}

#[verifier::spinoff_prover]
proof fn lemma_credit_keeps_wf(w: WalletView, i: int)
    requires
        w.wf(),
        0 <= i < w.topups.len(),
        w.topups[i].status == TopupStatus::Pending,
        w.balance + w.topups[i].amount <= i64::MAX,
    ensures
        w.credit(i).wf(),
{
    let w2 = w.credit(i);
    let t = w.topups[i];
    let e = w2.history.last();
    assert(w2.history == w.history.push(e));
    assert forall|trx: Seq<char>| true implies credits_for(w2.history, trx) == credits_for(w.history, trx)
        + if is_credit_of(e, trx) { 1nat } else { 0nat } && sum_amounts(w2.history) == sum_amounts(w.history) + e.amount by {
        lemma_push_sums(w.history, e, trx);
    }
    assert forall|a: int| 0 <= a < w2.topups.len() implies credits_for(w2.history, #[trigger] w2.topups[a].trx_id)
        == if w2.topups[a].status == TopupStatus::Success { 1nat } else { 0nat } by {
        assert(w2.topups[a].trx_id == w.topups[a].trx_id);
        if a != i {
            assert(w.topups[a].trx_id != w.topups[i].trx_id);
        }
    }
    assert forall|k: int|
        0 <= k < w2.history.len() && #[trigger] w2.history[k].kind == EntryKind::Topup
        implies exists|j: int|
        0 <= j < w2.topups.len() && is_credit_of(w2.history[k], #[trigger] w2.topups[j].trx_id) by {
        if k < w.history.len() {
            assert(w2.history[k] == w.history[k]);
            let j = choose|j: int| 0 <= j < w.topups.len() && is_credit_of(w.history[k], #[trigger] w.topups[j].trx_id);
            assert(w2.topups[j].trx_id == w.topups[j].trx_id);
        } else {
            assert(is_credit_of(w2.history[k], w2.topups[i].trx_id));
        }
    }
    assert forall|a: int, b: int| 0 <= a < b < w2.topups.len() implies w2.topups[a].trx_id != w2.topups[b].trx_id by {
        assert(w2.topups[a].trx_id == w.topups[a].trx_id);
        assert(w2.topups[b].trx_id == w.topups[b].trx_id);
    }
    assert forall|a: int| 0 <= a < w2.topups.len() implies #[trigger] w2.topups[a].amount >= MIN_TOPUP by {
        assert(w2.topups[a].amount == w.topups[a].amount);
    }
}

proof fn lemma_withdraw_keeps_wf(
    w: WalletView,
    amount: int,
    bank_name: Seq<char>,
    bank_account: Seq<char>,
    bank_holder: Seq<char>,
)
    requires
        w.wf(),
    ensures
        w.withdraw(amount, bank_name, bank_account, bank_holder).0.wf(),
{
    if withdrawal_outcome(w.balance, amount, bank_name, bank_account, bank_holder) is Ok {
        let w2 = w.withdraw(amount, bank_name, bank_account, bank_holder).0;
        let e = w2.history.last();
        assert(w2.history == w.history.push(e));
        assert forall|trx: Seq<char>| true implies credits_for(w2.history, trx) == credits_for(w.history, trx)
            && sum_amounts(w2.history) == sum_amounts(w.history) + e.amount by {
            lemma_push_sums(w.history, e, trx);
        }
        assert forall|k: int|
            0 <= k < w2.history.len() && #[trigger] w2.history[k].kind == EntryKind::Topup
            implies exists|j: int|
            0 <= j < w2.topups.len() && is_credit_of(w2.history[k], #[trigger] w2.topups[j].trx_id) by {
            assert(k < w.history.len());
            assert(w2.history[k] == w.history[k]);
            let j = choose|j: int| 0 <= j < w.topups.len() && is_credit_of(w.history[k], #[trigger] w.topups[j].trx_id);
            assert(w2.topups[j] == w.topups[j]);
        }
        assert(0 <= w2.balance <= i64::MAX);
        lemma_push_sums(w.history, e, Seq::empty());
        assert(w2.topups == w.topups);
        assert forall|i: int| 0 <= i < w2.topups.len() implies credits_for(w2.history, #[trigger] w2.topups[i].trx_id)
                == if w2.topups[i].status == TopupStatus::Success { 1nat } else { 0nat } by {
            lemma_push_sums(w.history, e, w2.topups[i].trx_id);
        }
    }
}

/// Law: every operation on a wallet keeps its invariant — the balance stays
/// non-negative and equal to the sum of the history, and each successful
/// top-up is credited exactly once.
pub proof fn law_operations_keep_invariant(
    w: WalletView,
    trx: Seq<char>,
    api_status: Seq<char>,
    amount: int,
    total_amount: int,
    bank_name: Seq<char>,
    bank_account: Seq<char>,
    bank_holder: Seq<char>,
)
    requires
        w.wf(),
        w.credit_fits(trx),
    ensures
        w.record_topup(trx, amount, total_amount).0.wf(),
        w.check_topup(trx, api_status).0.wf(),
        w.withdraw(amount, bank_name, bank_account, bank_holder).0.wf(),
{
    lemma_record_keeps_wf(w, trx, amount, total_amount);
    lemma_withdraw_keeps_wf(w, amount, bank_name, bank_account, bank_holder);
    lemma_topup_index(w, trx);
    if let Some(i) = w.topup_index(trx) {
        if w.topups[i].status == TopupStatus::Pending {
            if api_status == "success"@ {
                lemma_credit_keeps_wf(w, i);
            } else if api_status == "expired"@ {
                lemma_mark_keeps_wf(w, i, TopupStatus::Expired);
            } else if api_status == "failed"@ {
                lemma_mark_keeps_wf(w, i, TopupStatus::Failed);
            }
        }
    }
}

/// Law: a successful payment is credited exactly once. The first check that
/// sees the gateway report success adds the amount to the balance; every
/// later check of the same top-up, whatever the gateway says, changes nothing
/// and confirms the amount.
pub proof fn law_topup_credited_once(w: WalletView, trx: Seq<char>, later_status: Seq<char>)
    requires
        w.wf(),
        w.credit_fits(trx),
        w.topup_index(trx) matches Some(i) && w.topups[i].status == TopupStatus::Pending,
    ensures
        ({
            let i = w.topup_index(trx).unwrap();
            let (w1, r1) = w.check_topup(trx, "success"@);
            let (w2, r2) = w1.check_topup(trx, later_status);
            &&& w1.balance == w.balance + w.topups[i].amount
            &&& r1.status == "success"@
            &&& w2 == w1
            &&& r2.status == "success"@
            &&& r2.amount == Some(w.topups[i].amount)
        }),
{
    let i = w.topup_index(trx).unwrap();
    lemma_topup_index(w, trx);
    lemma_credit_keeps_wf(w, i);
    let w1 = w.credit(i);
    lemma_topup_index(w1, trx);
    assert(w1.topups[i].trx_id == trx);
    let j = w1.topup_index(trx).unwrap();
    if j != i {
        assert(w1.topups[j].trx_id == w1.topups[i].trx_id);
    }
}

/// Law: once a top-up is successful, expired or failed, checking it again
/// changes nothing and reports the stored status and amount.
pub proof fn law_final_topup_is_stable(w: WalletView, trx: Seq<char>, api_status: Seq<char>)
    requires
        w.wf(),
        w.topup_index(trx) matches Some(i) && w.topups[i].status != TopupStatus::Pending,
    ensures
        ({
            let i = w.topup_index(trx).unwrap();
            let (w1, r) = w.check_topup(trx, api_status);
            &&& w1 == w
            &&& r.status == status_text(w.topups[i].status)
            &&& r.amount == Some(w.topups[i].amount)
        }),
{
}

/// Law: the status check that the server runs on the stored rows — the
/// stored answer when the top-up is final, else the gateway decision
/// applied to the rows — is the wallet's `check_topup`, so the laws on
/// `check_topup` speak of it.
pub proof fn law_server_topup_check_is_model(w: WalletView, trx: Seq<char>, api_status: Seq<char>)
    requires
        w.wf(),
    ensures
        ({
            let local = match w.topup_index(trx) {
                Some(i) => Some(w.topups[i]),
                None => None,
            };
            match local_reply_of(local) {
                Some(rep) => w.check_topup(trx, api_status) == (w, rep),
                None => w.check_topup(trx, api_status) == (
                    apply_action(w, trx, poll_decision_of(local, api_status).0),
                    poll_decision_of(local, api_status).1,
                ),
            }
        }),
{
}

/// The rows of the account after the server wrote an accepted withdrawal:
/// the amount leaves the balance, a pending withdrawal is recorded, and a
/// history row with the signed amount and description of the plan.
pub open spec fn apply_withdrawal(
    w: WalletView,
    amount: int,
    bank_name: Seq<char>,
    bank_account: Seq<char>,
    bank_holder: Seq<char>,
    history_amount: int,
    description: Seq<char>,
) -> WalletView {
    WalletView {
        balance: w.balance - amount,
        history: w.history.push(
            EntryView { kind: EntryKind::Withdrawal, amount: history_amount, description, ref_id: None },
        ),
        withdrawals: w.withdrawals.push(WithdrawalView { amount, bank_name, bank_account, bank_holder }),
        ..w
    }
}

/// Law: the withdrawal that the server runs — refuse as
/// `decide_withdrawal` refuses, else write its plan (history amount minus
/// the amount, the withdrawal description) — is the wallet's `withdraw`,
/// so the laws on `withdraw` speak of it.
pub proof fn law_server_withdrawal_is_model(
    w: WalletView,
    amount: int,
    bank_name: Seq<char>,
    bank_account: Seq<char>,
    bank_holder: Seq<char>,
)
    ensures
        match withdrawal_outcome(w.balance, amount, bank_name, bank_account, bank_holder) {
            Ok(nb) => {
                &&& nb == w.balance - amount
                &&& w.withdraw(amount, bank_name, bank_account, bank_holder) == (
                    apply_withdrawal(
                        w,
                        amount,
                        bank_name,
                        bank_account,
                        bank_holder,
                        -amount,
                        withdrawal_description(bank_name, bank_account),
                    ),
                    Ok::<int, WithdrawalError>(nb),
                )
            },
            Err(e) => w.withdraw(amount, bank_name, bank_account, bank_holder) == (
                w,
                Err::<int, WithdrawalError>(e),
            ),
        },
{
}

/// Law: a withdrawal is accepted exactly when the amount is at least
/// `MIN_WITHDRAWAL`, the bank data is complete and the balance covers the
/// amount; it then lowers the balance by the amount and never below zero,
/// and a refused one leaves the wallet as it was.
pub proof fn law_withdrawal_within_balance(
    w: WalletView,
    amount: int,
    bank_name: Seq<char>,
    bank_account: Seq<char>,
    bank_holder: Seq<char>,
)
    requires
        w.wf(),
    ensures
        ({
            let (w1, r) = w.withdraw(amount, bank_name, bank_account, bank_holder);
            &&& r is Ok <==> (amount >= MIN_WITHDRAWAL && bank_name.len() > 0 && bank_account.len()
                > 0 && bank_holder.len() > 0 && amount <= w.balance)
            &&& r is Ok ==> w1.balance == w.balance - amount && w1.balance >= 0
            &&& r is Err ==> w1 == w
            &&& w1.balance == sum_amounts(w1.history)
        }),
{
    lemma_withdraw_keeps_wf(w, amount, bank_name, bank_account, bank_holder);
}

// ---------------------------------------------------------------------------
// The wallet of one account
// ---------------------------------------------------------------------------

/// The stored wallet data of one account: the balance row, the history rows,
/// the top-up requests and the withdrawal requests.
pub struct Wallet {
    pub email: String,
    pub balance: i64,
    pub history: Vec<WalletEntry>,
    pub topups: Vec<TopupRecord>,
    pub withdrawals: Vec<WithdrawalRecord>,
}

impl View for Wallet {
    type V = WalletView;

    open spec fn view(&self) -> WalletView {
        WalletView {
            email: self.email@,
            balance: self.balance as int,
            history: self.history@.map_values(|e: WalletEntry| e@),
            topups: self.topups@.map_values(|t: TopupRecord| t@),
            withdrawals: self.withdrawals@.map_values(|d: WithdrawalRecord| d@),
        }
    }
}

impl Wallet {
    /// A new wallet for `email`, with balance 0 and no rows.
    pub fn new(email: String) -> (w: Wallet)
        ensures
            w@ == WalletView::empty(email@),
            w@.wf(),
    {
        let w = Wallet {
            email,
            balance: 0,
            history: Vec::new(),
            topups: Vec::new(),
            withdrawals: Vec::new(),
        };
        assert(w@.history =~= Seq::<EntryView>::empty());
        assert(w@.topups =~= Seq::<TopupView>::empty());
        assert(w@.withdrawals =~= Seq::<WithdrawalView>::empty());
        w
    }

    /// The position of the top-up `trx_id`, if it is stored.
    pub fn find_topup(&self, trx_id: &str) -> (r: Option<usize>)
        requires
            self@.wf(),
        ensures
            match r {
                Some(i) => self@.topup_index(trx_id@) == Some(i as int),
                None => self@.topup_index(trx_id@) is None,
            },
    {
        let n = self.topups.len();
        for i in 0..n
            invariant
                n == self.topups@.len(),
                self@.wf(),
                forall|j: int| 0 <= j < i ==> self@.topups[j].trx_id != trx_id@,
        {
            assert(self@.topups[i as int] == self.topups@[i as int]@);
            if str_eq(self.topups[i].trx_id.as_str(), trx_id) {
                proof {
                    let c = choose|k: int| 0 <= k < self@.topups.len() && self@.topups[k].trx_id == trx_id@;
                    if c > i {
                        assert(self@.topups[i as int].trx_id != self@.topups[c].trx_id);
                    }
                }
                return Some(i);
            }
        }
        None
    }

    /// Records a top-up request that the payment gateway accepted, as
    /// pending; refused when the amount is below `MIN_TOPUP`; an id already
    /// stored leaves the wallet as it was and is still accepted.
    pub fn record_topup(&mut self, trx_id: String, amount: i64, total_amount: i64) -> (r: Result<
        (),
        TopupError,
    >)
        requires
            old(self)@.wf(),
        ensures
            (final(self)@, r) == old(self)@.record_topup(trx_id@, amount as int, total_amount as int),
            final(self)@.wf(),
    {
        proof {
            lemma_record_keeps_wf(self@, trx_id@, amount as int, total_amount as int);
        }
        if amount < MIN_TOPUP {
            return Err(TopupError::AmountTooSmall);
        }
        if self.find_topup(trx_id.as_str()).is_some() {
            return Ok(());
        }
        let ghost old_v = self@;
        let rec = TopupRecord { trx_id, amount, total_amount, status: TopupStatus::Pending };
        self.topups.push(rec);
        assert(self@.topups =~= old_v.topups.push(rec@));
        Ok(())
    }

    /// Answers a status check of the top-up `trx_id` once the payment gateway
    /// has reported `api_status`, and applies the decision.
    pub fn check_topup(&mut self, trx_id: &str, api_status: &str) -> (r: TopupReply)
        requires
            old(self)@.wf(),
            old(self)@.credit_fits(trx_id@),
        ensures
            (final(self)@, r@) == old(self)@.check_topup(trx_id@, api_status@),
            final(self)@.wf(),
    {
        proof {
            law_operations_keep_invariant(self@, trx_id@, api_status@, 0, 0, Seq::empty(), Seq::empty(), Seq::empty());
        }
        let idx = self.find_topup(trx_id);
        match idx {
            None => {
                let (_action, reply) = topup_poll_decision(None, api_status);
                reply
            },
            Some(i) => {
                assert(self@.topups[i as int] == self.topups@[i as int]@);
                let local = topup_local_reply(Some(&self.topups[i]));
                if let Some(rep) = local {
                    return rep;
                }
                let (action, reply) = topup_poll_decision(Some(&self.topups[i]), api_status);
                match action {
                    TopupAction::Keep => {},
                    TopupAction::Credit { amount } => {
                        self.credit_topup(i);
                    },
                    TopupAction::Mark { status } => {
                        self.mark_topup(i, status);
                    },
                }
                reply
            },
        }
    }

    /// Marks the top-up at `i` with `status`.
    fn mark_topup(&mut self, i: usize, status: TopupStatus)
        requires
            i < old(self).topups@.len(),
        ensures
            final(self)@ == old(self)@.mark(i as int, status),
    {
        let ghost old_v = self@;
        let t = TopupRecord {
            trx_id: self.topups[i].trx_id.clone(),
            amount: self.topups[i].amount,
            total_amount: self.topups[i].total_amount,
            status,
        };
        self.topups.set(i, t);
        assert(self@.topups =~= old_v.mark(i as int, status).topups);
    }

    /// Credits the top-up at `i`.
    fn credit_topup(&mut self, i: usize)
        requires
            i < old(self).topups@.len(),
            0 <= old(self).balance,
            0 <= old(self).topups@[i as int].amount,
            old(self).balance + old(self).topups@[i as int].amount <= i64::MAX,
        ensures
            final(self)@ == old(self)@.credit(i as int),
    {
        let ghost old_v = self@;
        let amount = self.topups[i].amount;
        let trx_id = self.topups[i].trx_id.clone();
        let e = WalletEntry {
            kind: EntryKind::Topup,
            amount,
            description: topup_entry_description(trx_id.as_str()),
            ref_id: Some(trx_id.clone()),
        };
        let t = TopupRecord {
            trx_id,
            amount,
            total_amount: self.topups[i].total_amount,
            status: TopupStatus::Success,
        };
        self.topups.set(i, t);
        self.history.push(e);
        self.balance = self.balance + amount;
        assert(self@.topups =~= old_v.credit(i as int).topups);
        assert(self@.history =~= old_v.credit(i as int).history);
    }

    /// Applies a withdrawal request: when `decide_withdrawal` accepts it, the
    /// amount leaves the balance at once, a pending withdrawal and a history
    /// row of minus the amount are recorded, and the new balance is returned;
    /// otherwise nothing changes.
    pub fn withdraw(&mut self, req: WithdrawalRequest) -> (r: Result<i64, WithdrawalError>)
        requires
            old(self)@.wf(),
        ensures
            (final(self)@, match r {
                Ok(nb) => Ok(nb as int),
                Err(e) => Err(e),
            }) == old(self)@.withdraw(
                req.amount as int,
                req.bank_name@,
                req.bank_account@,
                req.bank_holder@,
            ),
            final(self)@.wf(),
    {
        proof {
            lemma_withdraw_keeps_wf(self@, req.amount as int, req.bank_name@, req.bank_account@, req.bank_holder@);
        }
        let plan = match decide_withdrawal(self.balance, &req) {
            Ok(p) => p,
            Err(e) => return Err(e),
        };
        let ghost old_v = self@;
        let e = WalletEntry {
            kind: EntryKind::Withdrawal,
            amount: plan.history_amount,
            description: plan.description,
            ref_id: None,
        };
        self.history.push(e);
        self.balance = plan.new_balance;
        let rec = WithdrawalRecord {
            amount: req.amount,
            bank_name: req.bank_name,
            bank_account: req.bank_account,
            bank_holder: req.bank_holder,
        };
        self.withdrawals.push(rec);
        let ghost target = old_v.withdraw(req.amount as int, req.bank_name@, req.bank_account@, req.bank_holder@).0;
        assert(self@.history =~= target.history);
        assert(self@.withdrawals =~= target.withdrawals);
        Ok(plan.new_balance)
    }
}

} // verus!
