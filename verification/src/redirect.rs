//! Where the client is sent: after a login, to a product page, to Discord,
//! and the QR image link of a payment.

use vstd::prelude::*;
use vstd::utf8::encode_utf8;
use crate::text::{extend_str, from_chars, has_sub, contains_str, to_chars};

verus! {

broadcast use vstd::string::group_string_axioms;

/// The dashboard of the production frontend, where logins end by default.
pub open spec fn production_dashboard() -> Seq<char> {
    "https://easymall.ilhampradani.me/dashboard"@
}

/// The parts of an absolute URL that `url::Url::parse` yields for `input`:
/// its scheme, its host (if it has one) and its authority; `None` when the
/// text is not an absolute URL.
pub uninterp spec fn url_parts(input: Seq<char>) -> Option<(Seq<char>, Option<Seq<char>>, Seq<char>)>;

/// `url::Url::parse`, followed by `Url::scheme`, `Url::host_str` and
/// `Url::authority`. Claimed: the result is `url_parts` of the input — the
/// parser's answer is named, not restated.
#[verifier::external_body]
fn parse_url(input: &str) -> (r: Option<(String, Option<String>, String)>)
    ensures
        match r {
            Some((scheme, host, authority)) => url_parts(input@) == Some(
                (
                    scheme@,
                    match host {
                        Some(h) => Some(h@),
                        None => None,
                    },
                    authority@,
                ),
            ),
            None => url_parts(input@) is None,
        },
{
    match url::Url::parse(input) {
        Ok(u) => Some(
            (u.scheme().to_string(), u.host_str().map(|h| h.to_string()), u.authority().to_string()),
        ),
        Err(_) => None,
    }
}

/// Where a login sends the browser back, given the parts of its `Referer`:
/// a local development host or a Vercel preview gets its own `/dashboard`,
/// everything else the production dashboard.
pub open spec fn redirect_for(parts: Option<(Seq<char>, Option<Seq<char>>, Seq<char>)>) -> Seq<char> {
    match parts {
        Some((scheme, Some(host), authority)) => if has_sub(host, "localhost"@) || has_sub(
            host,
            "127.0.0.1"@,
        ) || has_sub(host, "vercel.app"@) {
            scheme + "://"@ + authority + "/dashboard"@
        } else {
            production_dashboard()
        },
        _ => production_dashboard(),
    }
}

/// The redirect target for the given URL parts (see `redirect_for`).
pub fn redirect_from_parts(parts: Option<(String, Option<String>, String)>) -> (r: String)
    ensures
        r@ == redirect_for(
            match parts {
                Some((s, h, a)) => Some(
                    (
                        s@,
                        match h {
                            Some(x) => Some(x@),
                            None => None,
                        },
                        a@,
                    ),
                ),
                None => None,
            },
        ),
{
    match parts {
        Some((scheme, Some(host), authority)) => {
            let local = contains_str(host.as_str(), "localhost") || contains_str(
                host.as_str(),
                "127.0.0.1",
            ) || contains_str(host.as_str(), "vercel.app");
            if local {
                let mut v = to_chars(scheme.as_str());
                extend_str(&mut v, "://");
                extend_str(&mut v, authority.as_str());
                extend_str(&mut v, "/dashboard");
                from_chars(v.as_slice())
            } else {
                String::from_str("https://easymall.ilhampradani.me/dashboard")
            }
        },
        _ => String::from_str("https://easymall.ilhampradani.me/dashboard"),
    }
}

/// Where a login sends the browser back, given the request's `Referer`
/// header when it is readable text. (`_default_url` is not used: the
/// fallback is always the production dashboard.)
pub fn get_redirect_target(referer: Option<&str>, _default_url: &str) -> (r: String)
    ensures
        r@ == match referer {
            Some(text) => redirect_for(url_parts(text@)),
            None => production_dashboard(),
        },
{
    match referer {
        Some(text) => redirect_from_parts(parse_url(text)),
        None => String::from_str("https://easymall.ilhampradani.me/dashboard"),
    }
}

/// Where a product link with an optional code leads: its page, or the home
/// page when the code is missing or empty.
pub fn product_redirect(code: Option<String>) -> (r: String)
    ensures
        r@ == match code {
            Some(c) => if c@.len() > 0 {
                "/product/"@ + c@
            } else {
                "/"@
            },
            None => "/"@,
        },
{
    match code {
        Some(c) => {
            if c.as_str().unicode_len() > 0 {
                let mut v = to_chars("/product/");
                extend_str(&mut v, c.as_str());
                from_chars(v.as_slice())
            } else {
                String::from_str("/")
            }
        },
        None => String::from_str("/"),
    }
}

/// Whether a browser origin may call the API with credentials: local
/// development, Vercel previews, the server's address and the project's own
/// domains.
pub open spec fn origin_allowed(origin: Seq<char>) -> bool {
    has_sub(origin, "localhost"@) || has_sub(origin, "vercel.app"@) || has_sub(
        origin,
        "mijdigital.my"@,
    ) || has_sub(origin, "easymall.ilhampradani.me"@) || has_sub(origin, "139.59.122.230"@)
        || has_sub(origin, "ilhampradani.me"@)
}

/// The CORS rule on the `Origin` header (as text; unreadable counts as empty).
pub fn cors_origin_allowed(origin: &str) -> (r: bool)
    ensures
        r == origin_allowed(origin@),
{
    contains_str(origin, "localhost") || contains_str(origin, "vercel.app") || contains_str(
        origin,
        "mijdigital.my",
    ) || contains_str(origin, "easymall.ilhampradani.me") || contains_str(origin, "139.59.122.230")
        || contains_str(origin, "ilhampradani.me")
}

// ---------------------------------------------------------------------------
// Percent-encoding
// ---------------------------------------------------------------------------

/// A byte that `urlencoding` leaves as it is.
pub open spec fn is_unreserved(b: u8) -> bool {
    (48 <= b && b <= 57) || (65 <= b && b <= 90) || (97 <= b && b <= 122) || b == 45 || b == 46
        || b == 95 || b == 126
}

/// An upper-case hexadecimal digit.
pub open spec fn hex_upper(d: int) -> char {
    if d < 10 {
        (48 + d) as char
    } else {
        (55 + d) as char
    }
}

/// The percent-encoding of one byte: an unreserved byte stays as it is,
/// every other byte becomes `%` and two upper-case hexadecimal digits.
pub open spec fn encode_byte(c: u8) -> Seq<char> {
    if is_unreserved(c) {
        seq![c as char]
    } else {
        seq!['%', hex_upper(c as int / 16), hex_upper(c as int % 16)]
    }
}

/// The percent-encoding of bytes, byte by byte (what `urlencoding::encode`
/// does to the UTF-8 bytes of a text).
pub open spec fn percent_encode(b: Seq<u8>) -> Seq<char>
    decreases b.len(),
{
    if b.len() == 0 {
        Seq::empty()
    } else {
        percent_encode(b.drop_last()) + encode_byte(b.last())
    }
}

fn hex_upper_digit(d: u8) -> (c: char)
    requires
        d < 16,
    ensures
        c == hex_upper(d as int),
{
    if d < 10 {
        (d + 48) as char
    } else {
        (d + 55) as char
    }
}

/// Percent-encodes the UTF-8 bytes of `s`: every byte except ASCII letters,
/// digits and `-`, `.`, `_`, `~`.
pub fn url_encode(s: &str) -> (r: String)
    ensures
        r@ == percent_encode(encode_utf8(s@)),
{
    let b = s.as_bytes();
    let n = b.len();
    let mut v: Vec<char> = Vec::new();
    for i in 0..n
        invariant
            n == b@.len(),
            b@ == encode_utf8(s@),
            v@ == percent_encode(b@.take(i as int)),
    {
        assert(b@.take(i + 1).drop_last() =~= b@.take(i as int));
        let c = b[i];
        let ghost before = v@;
        if (48 <= c && c <= 57) || (65 <= c && c <= 90) || (97 <= c && c <= 122) || c == 45 || c
            == 46 || c == 95 || c == 126 {
            v.push(c as char);
        } else {
            v.push('%');
            v.push(hex_upper_digit(c / 16));
            v.push(hex_upper_digit(c % 16));
        }
        assert(v@ =~= before + encode_byte(c));
    }
    assert(b@.take(n as int) =~= b@);
    from_chars(v.as_slice())
}

/// The callback address that Discord is told to return to, on the host that
/// the request came to (`139.59.122.230:5002` when the request named none).
pub fn discord_redirect_uri(host: Option<&str>) -> (r: String)
    ensures
        r@ == "http://"@ + match host {
            Some(h) => h@,
            None => "139.59.122.230:5002"@,
        } + "/login/discord/callback"@,
{
    let mut v = to_chars("http://");
    match host {
        Some(h) => extend_str(&mut v, h),
        None => extend_str(&mut v, "139.59.122.230:5002"),
    }
    extend_str(&mut v, "/login/discord/callback");
    from_chars(v.as_slice())
}

/// The Discord authorization page for the application `client_id`, asking
/// to come back to `redirect_uri` (percent-encoded).
pub fn discord_authorize_url(client_id: &str, redirect_uri: &str) -> (r: String)
    ensures
        r@ == "https://discord.com/api/oauth2/authorize?client_id="@ + client_id@
            + "&redirect_uri="@ + percent_encode(encode_utf8(redirect_uri@))
            + "&response_type=code&scope=identify+email"@,
{
    let mut v = to_chars("https://discord.com/api/oauth2/authorize?client_id=");
    extend_str(&mut v, client_id);
    extend_str(&mut v, "&redirect_uri=");
    let enc = url_encode(redirect_uri);
    extend_str(&mut v, enc.as_str());
    extend_str(&mut v, "&response_type=code&scope=identify+email");
    from_chars(v.as_slice())
}

/// The QR image link for a raw QRIS payload: empty when there is no payload,
/// else the QR server link with the payload percent-encoded.
pub fn qr_image_url(raw_qris: &str) -> (r: String)
    ensures
        raw_qris@.len() == 0 ==> r@.len() == 0,
        raw_qris@.len() > 0 ==> r@ == "https://api.qrserver.com/v1/create-qr-code/?size=300x300&data="@
            + percent_encode(encode_utf8(raw_qris@)),
{
    if raw_qris.unicode_len() == 0 {
        return String::new();
    }
    let mut v = to_chars("https://api.qrserver.com/v1/create-qr-code/?size=300x300&data=");
    let enc = url_encode(raw_qris);
    extend_str(&mut v, enc.as_str());
    from_chars(v.as_slice())
}

} // verus!
