//! Logins: administrator credentials, Google and Discord sign-in, and the
//! accounts that they create or refresh.

use vstd::prelude::*;
use crate::text::{contains_str, extend_str, from_chars, has_sub, str_eq, to_chars};

verus! {

broadcast use vstd::string::group_string_axioms;

/// Whether a request body is JSON (by its `Content-Type`); otherwise it is
/// read as a URL-encoded form.
pub fn is_json_body(content_type: &str) -> (r: bool)
    ensures
        r == has_sub(content_type@, "application/json"@),
{
    contains_str(content_type, "application/json")
}

/// The username and password of a login form, missing ones empty (a body
/// that could not be read counts as both missing).
pub fn login_credentials(fields: Option<(Option<String>, Option<String>)>) -> (r: (String, String))
    ensures
        match fields {
            Some((u, p)) => r.0@ == match u {
                Some(x) => x@,
                None => Seq::<char>::empty(),
            } && r.1@ == match p {
                Some(x) => x@,
                None => Seq::<char>::empty(),
            },
            None => r.0@.len() == 0 && r.1@.len() == 0,
        },
{
    match fields {
        Some((u, p)) => {
            let user = match u {
                Some(x) => x,
                None => String::new(),
            };
            let pass = match p {
                Some(x) => x,
                None => String::new(),
            };
            (user, pass)
        },
        None => (String::new(), String::new()),
    }
}

/// Who signed in through an identity provider.
pub struct OAuthIdentity {
    pub email: String,
    pub name: String,
    pub avatar: String,
    pub provider: String,
    pub provider_id: String,
}

/// What Google's token check answered, read into plain values.
pub struct GoogleTokenInfo {
    pub email: Option<String>,
    pub name: Option<String>,
    pub picture: Option<String>,
    pub sub: Option<String>,
    pub aud: Option<String>,
}

/// Why a Google sign-in is refused after the token check.
#[derive(PartialEq, Eq, Structural, Clone, Copy, Debug)]
pub enum GoogleLoginError {
    ClientIdMismatch,
}

/// The text of an optional field, empty when it is missing.
pub open spec fn field_text(o: Option<String>) -> Seq<char> {
    match o {
        Some(s) => s@,
        None => Seq::empty(),
    }
}

fn field(o: Option<String>) -> (r: String)
    ensures
        r@ == field_text(o),
{
    match o {
        Some(s) => s,
        None => String::new(),
    }
}

/// The identity of a Google sign-in: refused unless the token was issued to
/// this application (`aud` equals `client_id`); missing fields are empty.
pub fn google_identity(info: GoogleTokenInfo, client_id: &str) -> (r: Result<
    OAuthIdentity,
    GoogleLoginError,
>)
    ensures
        match info.aud {
            Some(a) if a@ == client_id@ => r matches Ok(id) && {
                &&& id.email@ == field_text(info.email)
                &&& id.name@ == field_text(info.name)
                &&& id.avatar@ == field_text(info.picture)
                &&& id.provider@ == "google"@
                &&& id.provider_id@ == field_text(info.sub)
            },
            _ => r == Err::<OAuthIdentity, GoogleLoginError>(GoogleLoginError::ClientIdMismatch),
        },
{
    let ok = match &info.aud {
        Some(a) => str_eq(a.as_str(), client_id),
        None => false,
    };
    if !ok {
        return Err(GoogleLoginError::ClientIdMismatch);
    }
    Ok(
        OAuthIdentity {
            email: field(info.email),
            name: field(info.name),
            avatar: field(info.picture),
            provider: String::from_str("google"),
            provider_id: field(info.sub),
        },
    )
}

/// What Discord answered about the user, read into plain values.
pub struct DiscordUser {
    pub id: String,
    pub username: String,
    pub email: Option<String>,
    pub avatar: Option<String>,
}

/// The identity of a Discord sign-in: the email defaults to
/// `<username>@discord.com`, and the avatar is the CDN image of the avatar
/// hash when there is one.
pub fn discord_identity(user: DiscordUser) -> (r: OAuthIdentity)
    ensures
        r.email@ == match user.email {
            Some(e) => e@,
            None => user.username@ + "@discord.com"@,
        },
        r.name@ == user.username@,
        r.provider@ == "discord"@,
        r.provider_id@ == user.id@,
        r.avatar@ == if field_text(user.avatar).len() > 0 {
            "https://cdn.discordapp.com/avatars/"@ + user.id@ + "/"@ + field_text(user.avatar)
                + ".png"@
        } else {
            Seq::<char>::empty()
        },
{
    let email = match user.email {
        Some(e) => e,
        None => {
            let mut v = to_chars(user.username.as_str());
            extend_str(&mut v, "@discord.com");
            from_chars(v.as_slice())
        },
    };
    let hash = field(user.avatar);
    let avatar = if hash.as_str().unicode_len() > 0 {
        let mut v = to_chars("https://cdn.discordapp.com/avatars/");
        extend_str(&mut v, user.id.as_str());
        extend_str(&mut v, "/");
        extend_str(&mut v, hash.as_str());
        extend_str(&mut v, ".png");
        from_chars(v.as_slice())
    } else {
        String::new()
    };
    OAuthIdentity {
        email,
        name: user.username,
        avatar,
        provider: String::from_str("discord"),
        provider_id: user.id,
    }
}

/// Whether Discord sign-in runs as a demonstration: no real client secret
/// is configured (empty, or still the placeholder).
pub fn discord_is_demo(client_secret: &str) -> (r: bool)
    ensures
        r == (client_secret@ == "GANTI_DENGAN_CLIENT_SECRET_DISCORD_ANDA"@ || client_secret@.len()
            == 0),
{
    str_eq(client_secret, "GANTI_DENGAN_CLIENT_SECRET_DISCORD_ANDA") || client_secret.unicode_len()
        == 0
}

/// The account that a demonstration Discord sign-in uses.
pub fn discord_demo_account() -> (r: (String, String))
    ensures
        r.0@ == "discord_demo_user@discord.com"@,
        r.1@ == "Discord Demo"@,
{
    (String::from_str("discord_demo_user@discord.com"), String::from_str("Discord Demo"))
}

/// Whether a signed-in identity refreshes an existing account or creates one.
#[derive(PartialEq, Eq, Structural, Clone, Copy, Debug)]
pub enum AccountWrite {
    /// The account with this email gets the new name, avatar and provider.
    Refresh,
    /// A new account with role `user` is created.
    Create,
}

/// Refresh when accounts with the email exist (as counted), else create.
pub fn account_write(existing: i64) -> (r: AccountWrite)
    ensures
        r == if existing > 0 {
            AccountWrite::Refresh
        } else {
            AccountWrite::Create
        },
{
    if existing > 0 {
        AccountWrite::Refresh
    } else {
        AccountWrite::Create
    }
}

} // verus!
