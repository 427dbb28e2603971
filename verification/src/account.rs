//! Account settings that a signed-in user saves and reads back.

use vstd::prelude::*;

verus! {

/// The account settings a user submits; only the name is required.
pub struct UserSettingsRequest {
    pub name: String,
    pub phone: Option<String>,
    pub recovery_email_1: Option<String>,
    pub recovery_email_2: Option<String>,
    pub bank_name: Option<String>,
    pub bank_account_number: Option<String>,
    pub bank_account_holder: Option<String>,
}

/// The account settings as stored and shown: missing texts are empty.
pub struct UserSettings {
    pub name: String,
    pub phone: String,
    pub recovery_email_1: String,
    pub recovery_email_2: String,
    pub bank_name: String,
    pub bank_account_number: String,
    pub bank_account_holder: String,
}

/// The text of an optional field, empty when it is missing.
pub open spec fn or_empty(o: Option<String>) -> Seq<char> {
    match o {
        Some(s) => s@,
        None => Seq::empty(),
    }
}

fn text_or_empty(o: Option<String>) -> (r: String)
    ensures
        r@ == or_empty(o),
{
    match o {
        Some(s) => s,
        None => String::new(),
    }
}

/// The settings to store for a request: the name as given, every missing
/// field empty.
pub fn normalize_user_settings(req: UserSettingsRequest) -> (r: UserSettings)
    ensures
        r.name@ == req.name@,
        r.phone@ == or_empty(req.phone),
        r.recovery_email_1@ == or_empty(req.recovery_email_1),
        r.recovery_email_2@ == or_empty(req.recovery_email_2),
        r.bank_name@ == or_empty(req.bank_name),
        r.bank_account_number@ == or_empty(req.bank_account_number),
        r.bank_account_holder@ == or_empty(req.bank_account_holder),
{
    UserSettings {
        name: req.name,
        phone: text_or_empty(req.phone),
        recovery_email_1: text_or_empty(req.recovery_email_1),
        recovery_email_2: text_or_empty(req.recovery_email_2),
        bank_name: text_or_empty(req.bank_name),
        bank_account_number: text_or_empty(req.bank_account_number),
        bank_account_holder: text_or_empty(req.bank_account_holder),
    }
}

/// The settings shown for a stored account row, whose columns but the name
/// may be empty (`NULL`): the name too is shown empty when it is missing.
pub fn stored_user_settings(
    name: Option<String>,
    phone: Option<String>,
    recovery_email_1: Option<String>,
    recovery_email_2: Option<String>,
    bank_name: Option<String>,
    bank_account_number: Option<String>,
    bank_account_holder: Option<String>,
) -> (r: UserSettings)
    ensures
        r.name@ == or_empty(name),
        r.phone@ == or_empty(phone),
        r.recovery_email_1@ == or_empty(recovery_email_1),
        r.recovery_email_2@ == or_empty(recovery_email_2),
        r.bank_name@ == or_empty(bank_name),
        r.bank_account_number@ == or_empty(bank_account_number),
        r.bank_account_holder@ == or_empty(bank_account_holder),
{
    UserSettings {
        name: text_or_empty(name),
        phone: text_or_empty(phone),
        recovery_email_1: text_or_empty(recovery_email_1),
        recovery_email_2: text_or_empty(recovery_email_2),
        bank_name: text_or_empty(bank_name),
        bank_account_number: text_or_empty(bank_account_number),
        bank_account_holder: text_or_empty(bank_account_holder),
    }
}

} // verus!
