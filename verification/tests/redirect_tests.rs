use ecom_api::redirect::url_encode;
use ecom_api::redirect::cors_origin_allowed;
use ecom_api::redirect::{
    discord_authorize_url, discord_redirect_uri, get_redirect_target, product_redirect,
    qr_image_url, redirect_from_parts,
};

const PROD: &str = "https://easymall.ilhampradani.me/dashboard";

#[test]
fn login_redirects_follow_the_referer() {
    assert_eq!(get_redirect_target(Some("http://localhost:4321/login"), PROD), "http://localhost:4321/dashboard");
    assert_eq!(get_redirect_target(Some("http://127.0.0.1:5500/x"), PROD), "http://127.0.0.1:5500/dashboard");
    assert_eq!(
        get_redirect_target(Some("https://my-app.vercel.app/login"), PROD),
        "https://my-app.vercel.app/dashboard"
    );
    assert_eq!(get_redirect_target(Some("https://api.ilhampradani.me/login"), PROD), PROD);
    assert_eq!(get_redirect_target(Some("https://example.com/"), PROD), PROD);
    assert_eq!(get_redirect_target(Some("not a url"), PROD), PROD);
    assert_eq!(get_redirect_target(None, PROD), PROD);
}

#[test]
fn redirect_from_plain_parts() {
    let parts = Some(("http".to_string(), Some("localhost".to_string()), "user@localhost:3000".to_string()));
    assert_eq!(redirect_from_parts(parts), "http://user@localhost:3000/dashboard");
    assert_eq!(redirect_from_parts(Some(("data".to_string(), None, String::new()))), PROD);
    assert_eq!(redirect_from_parts(None), PROD);
}

#[test]
fn product_links() {
    assert_eq!(product_redirect(Some("NETFLIX".to_string())), "/product/NETFLIX");
    assert_eq!(product_redirect(Some(String::new())), "/");
    assert_eq!(product_redirect(None), "/");
}

#[test]
fn discord_links_are_percent_encoded() {
    let uri = discord_redirect_uri(Some("localhost:5002"));
    assert_eq!(uri, "http://localhost:5002/login/discord/callback");
    assert_eq!(discord_redirect_uri(None), "http://139.59.122.230:5002/login/discord/callback");
    assert_eq!(
        discord_authorize_url("123", &uri),
        "https://discord.com/api/oauth2/authorize?client_id=123&redirect_uri=http%3A%2F%2Flocalhost%3A5002%2Flogin%2Fdiscord%2Fcallback&response_type=code&scope=identify+email"
    );
}

#[test]
fn qr_links() {
    assert_eq!(qr_image_url(""), "");
    assert_eq!(
        qr_image_url("00020101021226 ab+c/é"),
        "https://api.qrserver.com/v1/create-qr-code/?size=300x300&data=00020101021226%20ab%2Bc%2F%C3%A9"
    );
}

#[test]
fn cors_accepts_the_project_origins_only() {
    assert!(cors_origin_allowed("http://localhost:4321"));
    assert!(cors_origin_allowed("https://preview-1.vercel.app"));
    assert!(cors_origin_allowed("https://mijdigital.my"));
    assert!(cors_origin_allowed("https://easymall.ilhampradani.me"));
    assert!(cors_origin_allowed("http://139.59.122.230:5002"));
    assert!(cors_origin_allowed("https://ilhampradani.me"));
    assert!(!cors_origin_allowed("https://evil.example.com"));
    assert!(!cors_origin_allowed(""));
}

#[test]
fn percent_encoding_keeps_only_unreserved_bytes() {
    assert_eq!(url_encode("aZ09-._~"), "aZ09-._~");
    assert_eq!(url_encode("a b/c?d=é"), "a%20b%2Fc%3Fd%3D%C3%A9");
    assert_eq!(url_encode(""), "");
}
