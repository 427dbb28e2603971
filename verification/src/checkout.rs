//! Checkout: which orders are accepted, what is sent to BuatQRIS (through
//! which every order is paid), and what is recorded and answered once it
//! replied.

use vstd::prelude::*;
use crate::redirect::{percent_encode, qr_image_url};
use crate::text::{decimal, extend_chars, extend_str, from_chars, i64_decimal, str_eq, to_chars};
use vstd::utf8::encode_utf8;

verus! {

broadcast use vstd::string::group_string_axioms;

/// The body of a checkout request.
pub struct CheckoutRequest {
    pub provider: String,
    pub product_code: Option<String>,
    pub variant_code: String,
    pub product_name: Option<String>,
    pub variant_name: Option<String>,
    pub target: String,
    pub amount: i64,
    pub whatsapp_id: Option<String>,
}

/// Why a checkout is refused before any gateway is asked.
#[derive(PartialEq, Eq, Structural, Clone, Copy, Debug)]
pub enum CheckoutError {
    MissingFields,
    UnknownProvider,
}

/// The providers whose orders are accepted; every one of them is paid with
/// a QRIS that BuatQRIS makes.
pub open spec fn is_qris_provider(p: Seq<char>) -> bool {
    ||| p == "koalastore"@
    ||| p == "portalpulsa"@
    ||| p == "sslstore"@
    ||| p == "miraclegaming"@
    ||| p == "mymall"@
    ||| p == "manual"@
    ||| p == "digiflazz"@
    ||| p.len() == 0
}


/// A checkout order once checked, with its defaults filled in.
pub struct CheckoutPlan {
    pub provider: String,
    pub product_code: String,
    pub variant_code: String,
    pub product_name: String,
    pub variant_name: String,
    pub target: String,
    pub amount: i64,
    pub whatsapp_id: String,
}

/// The text of an optional field, empty when it is missing.
pub open spec fn or_empty(o: Option<String>) -> Seq<char> {
    match o {
        Some(s) => s@,
        None => Seq::empty(),
    }
}

fn take_or_empty(o: Option<String>) -> (r: String)
    ensures
        r@ == or_empty(o),
{
    match o {
        Some(s) => s,
        None => String::new(),
    }
}

/// The message of a refused checkout.
pub fn checkout_error_message(e: CheckoutError) -> (m: String)
    ensures
        m@ == match e {
            CheckoutError::MissingFields => "Provider, variant_code, target, and amount are required"@,
            CheckoutError::UnknownProvider => "Unknown provider"@,
        },
{
    match e {
        CheckoutError::MissingFields => String::from_str(
            "Provider, variant_code, target, and amount are required",
        ),
        CheckoutError::UnknownProvider => String::from_str("Unknown provider"),
    }
}

/// Whether orders of a provider are accepted (and paid through BuatQRIS).
pub fn accepts_provider(provider: &str) -> (r: bool)
    ensures
        r == is_qris_provider(provider@),
{
    str_eq(provider, "koalastore") || str_eq(provider, "portalpulsa") || str_eq(
        provider,
        "sslstore",
    ) || str_eq(provider, "miraclegaming") || str_eq(provider, "mymall") || str_eq(
        provider,
        "manual",
    ) || str_eq(provider, "digiflazz") || provider.unicode_len() == 0
}

/// Checks a checkout request: provider, variant code and target must be
/// non-empty and the amount positive, and the provider must be accepted;
/// the missing names default to empty and the WhatsApp id to the
/// target.
pub fn plan_checkout(req: CheckoutRequest) -> (r: Result<CheckoutPlan, CheckoutError>)
    ensures
        (req.provider@.len() == 0 || req.variant_code@.len() == 0 || req.amount <= 0
            || req.target@.len() == 0) ==> r == Err::<CheckoutPlan, CheckoutError>(
            CheckoutError::MissingFields,
        ),
        !(req.provider@.len() == 0 || req.variant_code@.len() == 0 || req.amount <= 0
            || req.target@.len() == 0) ==> if !is_qris_provider(req.provider@) {
            r == Err::<CheckoutPlan, CheckoutError>(CheckoutError::UnknownProvider)
        } else {
            r matches Ok(p) && {
                &&& p.provider@ == req.provider@
                &&& p.product_code@ == or_empty(req.product_code)
                &&& p.variant_code@ == req.variant_code@
                &&& p.product_name@ == or_empty(req.product_name)
                &&& p.variant_name@ == or_empty(req.variant_name)
                &&& p.target@ == req.target@
                &&& p.amount == req.amount
                &&& p.whatsapp_id@ == match req.whatsapp_id {
                    Some(w) => w@,
                    None => req.target@,
                }
            }
        },
{
    if req.provider.as_str().unicode_len() == 0 || req.variant_code.as_str().unicode_len() == 0
        || req.amount <= 0 || req.target.as_str().unicode_len() == 0 {
        return Err(CheckoutError::MissingFields);
    }
    if !accepts_provider(req.provider.as_str()) {
        return Err(CheckoutError::UnknownProvider);
    }
    let whatsapp_id = match req.whatsapp_id {
        Some(w) => w,
        None => req.target.clone(),
    };
    Ok(
        CheckoutPlan {
            provider: req.provider,
            product_code: take_or_empty(req.product_code),
            variant_code: req.variant_code,
            product_name: take_or_empty(req.product_name),
            variant_name: take_or_empty(req.variant_name),
            target: req.target,
            amount: req.amount,
            whatsapp_id,
        },
    )
}

/// The description that a BuatQRIS payment carries: `WEB-<product>-<target>`.
pub fn qris_description(plan: &CheckoutPlan) -> (r: String)
    ensures
        r@ == "WEB-"@ + plan.product_code@ + "-"@ + plan.target@,
{
    let mut v = to_chars("WEB-");
    extend_str(&mut v, plan.product_code.as_str());
    extend_str(&mut v, "-");
    extend_str(&mut v, plan.target.as_str());
    from_chars(v.as_slice())
}

/// The notification text of a new order awaiting payment.
pub open spec fn payment_notice(product_name: Seq<char>, variant_name: Seq<char>, total: int) -> Seq<
    char,
> {
    "Menunggu pembayaran untuk "@ + product_name + " ("@ + variant_name + ") sebesar Rp "@ + decimal(
        total,
    )
}

/// The notification text of a new order awaiting payment.
pub fn payment_notification(product_name: &str, variant_name: &str, total: i64) -> (r: String)
    ensures
        r@ == payment_notice(product_name@, variant_name@, total as int),
{
    let mut v = to_chars("Menunggu pembayaran untuk ");
    extend_str(&mut v, product_name);
    extend_str(&mut v, " (");
    extend_str(&mut v, variant_name);
    extend_str(&mut v, ") sebesar Rp ");
    let d = i64_decimal(total);
    extend_chars(&mut v, d.as_slice());
    from_chars(v.as_slice())
}

/// What a payment gateway answered to a checkout, read into plain values:
/// whether it succeeded, its message, and its data (transaction id and raw
/// QRIS payload) when present.
pub struct GatewayReply {
    pub success: bool,
    pub message: Option<String>,
    pub data: Option<(Option<String>, Option<String>)>,
}

/// What a successful checkout answers and records.
pub struct CheckoutReceipt {
    pub transaction_id: String,
    pub qr_image_url: String,
    pub amount: i64,
    pub provider: String,
}

/// The QR image link for an optional raw payload.
pub open spec fn qr_link(raw: Seq<char>) -> Seq<char> {
    if raw.len() == 0 {
        Seq::empty()
    } else {
        "https://api.qrserver.com/v1/create-qr-code/?size=300x300&data="@ + percent_encode(
            encode_utf8(raw),
        )
    }
}

/// The outcome of a checkout once the gateway replied: with success and
/// data, the receipt (transaction id and raw payload default to empty, the
/// amount is BuatQRIS's total `total`, the provider the order's);
/// otherwise BuatQRIS's message or `Failed to generate QRIS`.
pub fn checkout_receipt(plan: &CheckoutPlan, reply: GatewayReply, total: i64) -> (r: Result<
    CheckoutReceipt,
    String,
>)
    ensures
        match (reply.data, reply.success) {
            (Some((trx, raw)), true) => r matches Ok(rec) && {
                &&& rec.transaction_id@ == or_empty(trx)
                &&& rec.qr_image_url@ == qr_link(or_empty(raw))
                &&& rec.amount == total
                &&& rec.provider@ == plan.provider@
            },
            _ => r matches Err(m) && m@ == match reply.message {
                Some(x) => x@,
                None => "Failed to generate QRIS"@,
            },
        },
{
    match reply.data {
        Some((trx, raw)) => {
            if reply.success {
                let raw_text = take_or_empty(raw);
                let qr = qr_image_url(raw_text.as_str());
                let provider = plan.provider.clone();
                return Ok(
                    CheckoutReceipt {
                        transaction_id: take_or_empty(trx),
                        qr_image_url: qr,
                        amount: total,
                        provider,
                    },
                );
            }
        },
        None => {},
    }
    match reply.message {
        Some(m) => Err(m),
        None => Err(String::from_str("Failed to generate QRIS")),
    }
}

/// The order table of the bot database that a BuatQRIS order is copied to.
#[derive(PartialEq, Eq, Structural, Clone, Copy, Debug)]
pub enum BotOrderTable {
    PortalPulsa,
    SslStore,
    MiracleGaming,
}

/// The bot order table of a provider, if its orders are copied there.
pub fn bot_order_table(provider: &str) -> (r: Option<BotOrderTable>)
    ensures
        r == if provider@ == "portalpulsa"@ {
            Some(BotOrderTable::PortalPulsa)
        } else if provider@ == "sslstore"@ {
            Some(BotOrderTable::SslStore)
        } else if provider@ == "miraclegaming"@ {
            Some(BotOrderTable::MiracleGaming)
        } else {
            None::<BotOrderTable>
        },
{
    if str_eq(provider, "portalpulsa") {
        Some(BotOrderTable::PortalPulsa)
    } else if str_eq(provider, "sslstore") {
        Some(BotOrderTable::SslStore)
    } else if str_eq(provider, "miraclegaming") {
        Some(BotOrderTable::MiracleGaming)
    } else {
        None
    }
}

/// The validity, in months, recorded for an SSL certificate order.
pub const SSL_VALIDITY_MONTHS: i64 = 12;

} // verus!
