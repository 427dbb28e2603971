use ecom_api::login::{
    account_write, discord_demo_account, discord_identity, discord_is_demo, google_identity,
    is_json_body, login_credentials, AccountWrite, DiscordUser, GoogleLoginError, GoogleTokenInfo,
};

fn s(x: &str) -> Option<String> {
    Some(x.to_string())
}

#[test]
fn json_bodies_are_told_by_content_type() {
    assert!(is_json_body("application/json"));
    assert!(is_json_body("application/json; charset=utf-8"));
    assert!(!is_json_body("application/x-www-form-urlencoded"));
    assert!(!is_json_body(""));
}

#[test]
fn missing_credentials_are_empty() {
    assert_eq!(login_credentials(Some((s("admin"), s("pw")))), ("admin".to_string(), "pw".to_string()));
    assert_eq!(login_credentials(Some((s("admin"), None))), ("admin".to_string(), String::new()));
    assert_eq!(login_credentials(None), (String::new(), String::new()));
}

#[test]
fn google_token_must_be_ours() {
    let info = GoogleTokenInfo { email: s("a@gmail.com"), name: s("Ani"), picture: None, sub: s("42"), aud: s("cid") };
    let id = google_identity(info, "cid").ok().unwrap();
    assert_eq!(id.email, "a@gmail.com");
    assert_eq!(id.name, "Ani");
    assert_eq!(id.avatar, "");
    assert_eq!(id.provider, "google");
    assert_eq!(id.provider_id, "42");
    let other = GoogleTokenInfo { email: s("a@gmail.com"), name: None, picture: None, sub: None, aud: s("other") };
    assert_eq!(google_identity(other, "cid").err(), Some(GoogleLoginError::ClientIdMismatch));
    let none = GoogleTokenInfo { email: None, name: None, picture: None, sub: None, aud: None };
    assert_eq!(google_identity(none, "cid").err(), Some(GoogleLoginError::ClientIdMismatch));
}

#[test]
fn discord_identity_defaults() {
    let u = DiscordUser { id: "99".to_string(), username: "budi".to_string(), email: None, avatar: s("abc") };
    let id = discord_identity(u);
    assert_eq!(id.email, "budi@discord.com");
    assert_eq!(id.avatar, "https://cdn.discordapp.com/avatars/99/abc.png");
    assert_eq!(id.provider, "discord");
    assert_eq!(id.provider_id, "99");
    let u = DiscordUser { id: "1".to_string(), username: "c".to_string(), email: s("c@x.id"), avatar: None };
    let id = discord_identity(u);
    assert_eq!(id.email, "c@x.id");
    assert_eq!(id.avatar, "");
}

#[test]
fn discord_demo_mode_and_account_writes() {
    assert!(discord_is_demo(""));
    assert!(discord_is_demo("GANTI_DENGAN_CLIENT_SECRET_DISCORD_ANDA"));
    assert!(!discord_is_demo("real-secret"));
    assert_eq!(
        discord_demo_account(),
        ("discord_demo_user@discord.com".to_string(), "Discord Demo".to_string())
    );
    assert_eq!(account_write(1), AccountWrite::Refresh);
    assert_eq!(account_write(0), AccountWrite::Create);
}
