use ecom_api::api_keys::{api_key_material, new_api_key, to_hex, KEY_RANDOM_LEN};

#[test]
fn key_material_from_a_known_random_part() {
    let m = api_key_material("ABCDEFGHIJKLMNOPQRSTUVWXYZ012345", 30);
    assert_eq!(m.raw_key, "em_live_ABCDEFGHIJKLMNOPQRSTUVWXYZ012345");
    assert_eq!(m.key_hash, "96d5a65f7331b7be01340e37cf15ebd306dede52e7a4e72f1837a33cfdb35b97");
    assert_eq!(m.key_preview, "em_live_ABCDEFGH...****");
    assert_eq!(m.expiry_modifier, "+30 days");
}

#[test]
fn negative_duration_is_written_with_its_sign() {
    let m = api_key_material("abcdefgh", -7);
    assert_eq!(m.expiry_modifier, "+-7 days");
    assert_eq!(m.key_preview, "em_live_abcdefgh...****");
}

#[test]
fn hex_is_lower_case_two_digits_per_byte() {
    assert_eq!(to_hex(&[0x00, 0x0f, 0xa0, 0xff]), "000fa0ff");
    assert_eq!(to_hex(&[]), "");
}

#[test]
fn new_keys_are_random_alphanumeric() {
    let a = new_api_key(365);
    let b = new_api_key(365);
    assert_eq!(a.raw_key.len(), "em_live_".len() + KEY_RANDOM_LEN);
    assert!(a.raw_key.starts_with("em_live_"));
    assert!(a.raw_key["em_live_".len()..].chars().all(|c| c.is_ascii_alphanumeric()));
    assert_eq!(a.key_hash.len(), 64);
    assert_eq!(a.key_preview, format!("{}...****", &a.raw_key[..16]));
    assert_eq!(a.expiry_modifier, "+365 days");
    assert_ne!(a.raw_key, b.raw_key);
}
