use ecom_api::cart::{plan_add_to_cart, AddCartRequest, Cart, CartChange};

fn add(code: &str, variant: Option<&str>, qty: Option<i64>) -> AddCartRequest {
    AddCartRequest {
        product_code: code.to_string(),
        product_name: format!("Product {}", code),
        variant_code: variant.map(|v| v.to_string()),
        variant_name: None,
        price: 1000,
        quantity: qty,
    }
}

#[test]
fn add_plan_increments_or_inserts() {
    match plan_add_to_cart(Some(9), add("P", None, None)) {
        CartChange::Increase { id, by } => assert_eq!((id, by), (9, 1)),
        _ => panic!("expected an increase"),
    }
    match plan_add_to_cart(None, add("P", Some("V"), Some(3))) {
        CartChange::Insert { product_code, quantity, variant_code, .. } => {
            assert_eq!(product_code, "P");
            assert_eq!(quantity, 3);
            assert_eq!(variant_code.as_deref(), Some("V"));
        }
        _ => panic!("expected an insert"),
    }
}

#[test]
fn same_product_and_variant_merge() {
    let mut c = Cart::new();
    c.add("a@x", add("P", None, Some(2)), "t0".to_string());
    c.add("a@x", add("P", Some(""), Some(3)), "t1".to_string());
    c.add("a@x", add("P", Some("V"), None), "t2".to_string());
    c.add("b@x", add("P", None, None), "t3".to_string());
    let mine = c.lines_of("a@x");
    assert_eq!(mine.len(), 2);
    assert_eq!(mine[0].quantity, 5);
    assert_eq!(mine[0].created_at, "t0");
    assert_eq!(mine[1].quantity, 1);
    assert_eq!(c.lines.len(), 3);
}

#[test]
fn delete_and_clear_stay_within_the_account() {
    let mut c = Cart::new();
    c.add("a@x", add("P", None, None), "t".to_string());
    c.add("b@x", add("Q", None, None), "t".to_string());
    let id_a = c.lines[0].id;
    let id_b = c.lines[1].id;
    c.delete(id_b, "a@x");
    assert_eq!(c.lines.len(), 2);
    c.delete(id_a, "a@x");
    assert_eq!(c.lines.len(), 1);
    c.add("a@x", add("R", None, None), "t".to_string());
    c.clear("a@x");
    assert!(c.lines_of("a@x").is_empty());
    assert_eq!(c.lines_of("b@x").len(), 1);
}

#[test]
fn server_add_path_matches_the_cart_model() {
    let mut cart = Cart::new();
    let request = |q: Option<i64>| AddCartRequest {
        product_code: "NF".to_string(),
        product_name: "Netflix".to_string(),
        variant_code: None,
        variant_name: None,
        price: 45000,
        quantity: q,
    };
    cart.add("a@x.id", request(Some(2)), "t0".to_string());
    // The server looks up the line's id, then writes what the plan says.
    let existing = cart.find("a@x.id", "NF", "").map(|i| cart.lines[i].id);
    let plan = plan_add_to_cart(existing, request(None));
    assert!(matches!(plan, CartChange::Increase { id, by: 1 } if Some(id) == existing));
    cart.add("a@x.id", request(None), "t1".to_string());
    assert_eq!(cart.lines.len(), 1);
    assert_eq!(cart.lines[0].quantity, 3);
}
