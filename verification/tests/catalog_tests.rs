use ecom_api::catalog::{
    catalogue_cache_fresh,
    category_slug, category_slug_from_lower, default_store_info, empty_store_settings,
    fresh_upload_file_name, is_static_category, normalize_store_settings, prepare_product,
    product_error_message, store_slug, storefront_email, storefront_key_is_email, upload_field,
    upload_file_name, upload_size_ok, upload_url, ProductDraft, ProductError,
    StoreSettingsRequest, UploadField, MAX_IMAGE_BYTES,
};

fn draft(name: &str, price: i64) -> ProductDraft {
    ProductDraft {
        product_name: name.to_string(),
        variant_name: None,
        price,
        description: None,
        category: None,
        images: None,
        variants: None,
        status: None,
    }
}

#[test]
fn products_need_a_name_and_a_positive_price() {
    assert_eq!(prepare_product(draft("  ", 1000)).err(), Some(ProductError::InvalidNameOrPrice));
    assert_eq!(prepare_product(draft("Netflix", 0)).err(), Some(ProductError::InvalidNameOrPrice));
    assert_eq!(prepare_product(draft("Netflix", -5)).err(), Some(ProductError::InvalidNameOrPrice));
    assert_eq!(product_error_message(ProductError::InvalidNameOrPrice), "Product name and price must be valid");
    let p = prepare_product(draft("Netflix", 25000)).ok().unwrap();
    assert_eq!(p.category, "digital");
    assert_eq!(p.status, "published");
    assert!(p.images.is_empty());
    assert!(p.variants.is_empty());
    assert_eq!(p.price, 25000);
    let mut d = draft("Spotify", 1);
    d.category = Some("music".to_string());
    d.status = Some("draft".to_string());
    d.images = Some(vec!["/uploads/a.png".to_string()]);
    let p = prepare_product(d).ok().unwrap();
    assert_eq!(p.category, "music");
    assert_eq!(p.status, "draft");
    assert_eq!(p.images, vec!["/uploads/a.png".to_string()]);
}

#[test]
fn store_settings_defaults() {
    let req = StoreSettingsRequest {
        store_name: Some("Toko".to_string()),
        description: None,
        store_category: None,
        interests: None,
        show_email: Some(false),
        show_buttons: None,
        phone: None,
        instagram: None,
        facebook: None,
        tiktok: None,
        youtube: None,
        whatsapp: Some("0812".to_string()),
        is_visible: None,
    };
    let s = normalize_store_settings(req);
    assert_eq!(s.store_name, "Toko");
    assert_eq!(s.description, "");
    assert!(!s.show_email);
    assert!(s.show_buttons);
    assert!(s.is_visible);
    assert_eq!(s.whatsapp, "0812");
    let e = empty_store_settings();
    assert_eq!(e.store_name, "");
    assert!(e.show_email && e.show_buttons && e.is_visible);
}

#[test]
fn store_slugs() {
    assert_eq!(store_slug(Some("Toko Budi ABC"), Some(3)), Some("toko-budi-abc".to_string()));
    assert_eq!(store_slug(Some(""), Some(7)), Some("store-7".to_string()));
    assert_eq!(store_slug(None, Some(12)), Some("store-12".to_string()));
    assert_eq!(store_slug(None, None), None);
}

#[test]
fn storefront_keys_and_defaults() {
    assert!(storefront_key_is_email("a@b.com"));
    assert!(!storefront_key_is_email("toko-budi"));
    assert_eq!(storefront_email("a@b.com", Some("x@y.z".to_string())), "a@b.com");
    assert_eq!(storefront_email("toko-budi", Some("budi@x.com".to_string())), "budi@x.com");
    assert_eq!(storefront_email("toko-budi", None), "toko-budi");
    let info = default_store_info("budi@example.com");
    assert_eq!(info.store_name, "Mall budi");
    assert_eq!(info.store_category, "Lapak Digital");
    assert_eq!(info.verified, 0);
    assert_eq!(info.id, None);
    assert_eq!(default_store_info("noatsign").store_name, "Mall noatsign");
}

#[test]
fn catalogue_categories() {
    assert_eq!(category_slug(Some("Music Streaming")), "music");
    assert_eq!(category_slug(Some("PRODUCTIVITY apps")), "productivity");
    assert_eq!(category_slug(Some("Game Voucher")), "game");
    assert_eq!(category_slug(Some("Video")), "digital");
    assert_eq!(category_slug(None), "digital");
    assert_eq!(category_slug_from_lower(Some("music game")), "music");
    assert!(is_static_category("pulsa"));
    assert!(is_static_category("ssl"));
    assert!(!is_static_category("music"));
}

#[test]
fn image_uploads() {
    assert!(matches!(upload_field("title", "a.png"), UploadField::Skip));
    assert!(matches!(upload_field("image", "a.exe"), UploadField::BadType));
    match upload_field("file", "Photo.JPG") {
        UploadField::Image { ext } => assert_eq!(ext, "JPG"),
        _ => panic!("expected an image"),
    }
    match upload_field("image", "a.b.webp") {
        UploadField::Image { ext } => assert_eq!(ext, "webp"),
        _ => panic!("expected an image"),
    }
    assert!(upload_size_ok(MAX_IMAGE_BYTES));
    assert!(!upload_size_ok(MAX_IMAGE_BYTES + 1));
    assert_eq!(upload_file_name(1700000000, 42, "png"), "img_1700000000_42.png");
    assert_eq!(upload_url("img_1_2.png"), "/uploads/img_1_2.png");
    let f = fresh_upload_file_name("gif");
    assert!(f.starts_with("img_") && f.ends_with(".gif"));
}

#[test]
fn catalogue_is_cached_for_five_minutes() {
    assert!(catalogue_cache_fresh(0));
    assert!(catalogue_cache_fresh(299));
    assert!(!catalogue_cache_fresh(300));
    assert!(!catalogue_cache_fresh(u64::MAX));
}
