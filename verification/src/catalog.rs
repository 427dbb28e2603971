//! Products that users list for sale, their stores, the public storefront,
//! the catalogue categories, and product images.

use vstd::prelude::*;
use crate::text::{
    after_last, decimal, extend_chars, extend_str, from_chars, has_sub,
    i64_decimal, is_blank, slice_chars, split_last, str_eq, to_chars, trim,
};

verus! {

broadcast use vstd::string::group_string_axioms;

// ---------------------------------------------------------------------------
// Products listed by users
// ---------------------------------------------------------------------------

/// A variant of a listed product.
pub struct ProductVariant {
    pub name: String,
    pub price: i64,
}

/// A product as a user submits it.
pub struct ProductDraft {
    pub product_name: String,
    pub variant_name: Option<String>,
    pub price: i64,
    pub description: Option<String>,
    pub category: Option<String>,
    pub images: Option<Vec<String>>,
    pub variants: Option<Vec<ProductVariant>>,
    pub status: Option<String>,
}

/// A product ready to be stored: checked, with its defaults filled in.
pub struct ProductRecord {
    pub product_name: String,
    pub variant_name: Option<String>,
    pub price: i64,
    pub description: Option<String>,
    pub category: String,
    pub images: Vec<String>,
    pub variants: Vec<ProductVariant>,
    pub status: String,
}

/// Why a product is refused.
#[derive(PartialEq, Eq, Structural, Clone, Copy, Debug)]
pub enum ProductError {
    InvalidNameOrPrice,
}

/// The message of a refused product.
pub fn product_error_message(e: ProductError) -> (m: String)
    ensures
        m@ == "Product name and price must be valid"@,
{
    String::from_str("Product name and price must be valid")
}

/// Checks a submitted product — its name must not be blank and its price
/// must be positive — and fills in the defaults: category `digital`, status
/// `published`, no images and no variants.
pub fn prepare_product(draft: ProductDraft) -> (r: Result<ProductRecord, ProductError>)
    ensures
        r matches Ok(p) ==> p@ == prepared(draft),
        trim(draft.product_name@).len() == 0 || draft.price <= 0 ==> r == Err::<
            ProductRecord,
            ProductError,
        >(ProductError::InvalidNameOrPrice),
        !(trim(draft.product_name@).len() == 0 || draft.price <= 0) ==> (r matches Ok(p) && {
            &&& p.product_name == draft.product_name
            &&& p.variant_name == draft.variant_name
            &&& p.price == draft.price
            &&& p.description == draft.description
            &&& p.category@ == match draft.category {
                Some(c) => c@,
                None => "digital"@,
            }
            &&& p.status@ == match draft.status {
                Some(s) => s@,
                None => "published"@,
            }
            &&& p.images@.len() == match draft.images {
                Some(v) => v@.len(),
                None => 0,
            }
            &&& (draft.images matches Some(v) ==> p.images == v)
            &&& (draft.variants matches Some(v) ==> p.variants == v)
            &&& (draft.variants is None ==> p.variants@.len() == 0)
        }),
{
    if is_blank(draft.product_name.as_str()) || draft.price <= 0 {
        return Err(ProductError::InvalidNameOrPrice);
    }
    let category = match draft.category {
        Some(c) => c,
        None => String::from_str("digital"),
    };
    let status = match draft.status {
        Some(s) => s,
        None => String::from_str("published"),
    };
    let images = match draft.images {
        Some(v) => v,
        None => Vec::new(),
    };
    let variants = match draft.variants {
        Some(v) => v,
        None => Vec::new(),
    };
    assert(image_texts(images@) =~= match draft.images {
        Some(v) => image_texts(v@),
        None => Seq::<Seq<char>>::empty(),
    });
    assert(variant_values(variants@) =~= match draft.variants {
        Some(v) => variant_values(v@),
        None => Seq::<(Seq<char>, int)>::empty(),
    });
    Ok(
        ProductRecord {
            product_name: draft.product_name,
            variant_name: draft.variant_name,
            price: draft.price,
            description: draft.description,
            category,
            images,
            variants,
            status,
        },
    )
}

/// A listed product, as plain values (each variant as its name and price).
pub struct ProductView {
    pub product_name: Seq<char>,
    pub variant_name: Option<Seq<char>>,
    pub price: int,
    pub description: Option<Seq<char>>,
    pub category: Seq<char>,
    pub images: Seq<Seq<char>>,
    pub variants: Seq<(Seq<char>, int)>,
    pub status: Seq<char>,
}

/// An optional text as plain values.
pub open spec fn opt_text(o: Option<String>) -> Option<Seq<char>> {
    match o {
        Some(x) => Some(x@),
        None => None,
    }
}

/// The images of a product as plain values.
pub open spec fn image_texts(v: Seq<String>) -> Seq<Seq<char>> {
    v.map_values(|x: String| x@)
}

/// The variants of a product as plain values.
pub open spec fn variant_values(v: Seq<ProductVariant>) -> Seq<(Seq<char>, int)> {
    v.map_values(|x: ProductVariant| (x.name@, x.price as int))
}

impl View for ProductRecord {
    type V = ProductView;

    open spec fn view(&self) -> ProductView {
        ProductView {
            product_name: self.product_name@,
            variant_name: opt_text(self.variant_name),
            price: self.price as int,
            description: opt_text(self.description),
            category: self.category@,
            images: image_texts(self.images@),
            variants: variant_values(self.variants@),
            status: self.status@,
        }
    }
}

/// The product stored for an accepted submission: the defaults filled in.
pub open spec fn prepared(draft: ProductDraft) -> ProductView {
    ProductView {
        product_name: draft.product_name@,
        variant_name: opt_text(draft.variant_name),
        price: draft.price as int,
        description: opt_text(draft.description),
        category: match draft.category {
            Some(c) => c@,
            None => "digital"@,
        },
        images: match draft.images {
            Some(v) => image_texts(v@),
            None => Seq::empty(),
        },
        variants: match draft.variants {
            Some(v) => variant_values(v@),
            None => Seq::empty(),
        },
        status: match draft.status {
            Some(x) => x@,
            None => "published"@,
        },
    }
}

/// One row of the `product` table, as plain values.
pub struct ProductRow {
    pub id: int,
    pub email: Seq<char>,
    pub product: ProductView,
}

/// The `product` table, with the id the next row gets.
pub struct ProductTable {
    pub rows: Seq<ProductRow>,
    pub next_id: int,
}

impl ProductTable {
    /// Row ids are unique and below `next_id`.
    pub open spec fn wf(self) -> bool {
        &&& forall|i: int, j: int|
            #![trigger self.rows[i], self.rows[j]]
            0 <= i < j < self.rows.len() ==> self.rows[i].id != self.rows[j].id
        &&& forall|i: int| 0 <= i < self.rows.len() ==> #[trigger] self.rows[i].id < self.next_id
    }

    /// Adding a product of `email`: a row with the next id.
    pub open spec fn add(self, email: Seq<char>, p: ProductView) -> ProductTable {
        ProductTable {
            rows: self.rows.push(ProductRow { id: self.next_id, email, product: p }),
            next_id: self.next_id + 1,
        }
    }

    /// The row `id` of `email`, if there is one.
    pub open spec fn row_of(self, id: int, email: Seq<char>) -> Option<int> {
        if exists|i: int| 0 <= i < self.rows.len() && self.rows[i].id == id && self.rows[i].email == email {
            Some(choose|i: int| 0 <= i < self.rows.len() && self.rows[i].id == id && self.rows[i].email == email)
        } else {
            None
        }
    }

    /// Reading the product `id` of `email` (another account's product is
    /// not found).
    pub open spec fn read(self, id: int, email: Seq<char>) -> Option<ProductView> {
        match self.row_of(id, email) {
            Some(i) => Some(self.rows[i].product),
            None => None,
        }
    }
}

/// Law: a product read back right after it was added, under the id it got,
/// is the product as stored; another account does not find it; every other
/// product reads as before; and ids stay unique.
pub proof fn law_product_read_after_add(
    t: ProductTable,
    email: Seq<char>,
    other: Seq<char>,
    p: ProductView,
    id: int,
)
    requires
        t.wf(),
        email != other,
        id != t.next_id,
    ensures
        t.add(email, p).wf(),
        t.add(email, p).read(t.next_id, email) == Some(p),
        t.add(email, p).read(t.next_id, other) is None,
        t.add(email, p).read(id, email) == t.read(id, email),
        t.add(email, p).read(id, other) == t.read(id, other),
{
    let t2 = t.add(email, p);
    let n = t.rows.len() as int;
    assert(t2.rows[n].id == t.next_id && t2.rows[n].email == email);
    let k = t2.row_of(t.next_id, email).unwrap();
    if k != n {
        assert(t2.rows[k] == t.rows[k]);
    }
    if t2.row_of(t.next_id, other) is Some {
        let j = t2.row_of(t.next_id, other).unwrap();
        if j != n {
            assert(t2.rows[j] == t.rows[j]);
        }
    }
    lemma_read_other_id(t, email, p, id, email);
    lemma_read_other_id(t, email, p, id, other);
}

proof fn lemma_read_other_id(t: ProductTable, email: Seq<char>, p: ProductView, id: int, who: Seq<char>)
    requires
        t.wf(),
        id != t.next_id,
    ensures
        t.add(email, p).read(id, who) == t.read(id, who),
{
    let t2 = t.add(email, p);
    let n = t.rows.len() as int;
    if t.row_of(id, who) is Some {
        let i = t.row_of(id, who).unwrap();
        assert(t2.rows[i] == t.rows[i]);
        let k = t2.row_of(id, who).unwrap();
        assert(k != n);
        assert(t2.rows[k] == t.rows[k]);
        if k < i {
            assert(t.rows[k].id != t.rows[i].id);
        } else if k > i {
            assert(t.rows[i].id != t.rows[k].id);
        }
    } else {
        if t2.row_of(id, who) is Some {
            let k = t2.row_of(id, who).unwrap();
            assert(k != n);
            assert(t2.rows[k] == t.rows[k]);
        }
    }
}

// ---------------------------------------------------------------------------
// Store settings
// ---------------------------------------------------------------------------

/// The store settings a user submits; every field may be missing.
pub struct StoreSettingsRequest {
    pub store_name: Option<String>,
    pub description: Option<String>,
    pub store_category: Option<String>,
    pub interests: Option<String>,
    pub show_email: Option<bool>,
    pub show_buttons: Option<bool>,
    pub phone: Option<String>,
    pub instagram: Option<String>,
    pub facebook: Option<String>,
    pub tiktok: Option<String>,
    pub youtube: Option<String>,
    pub whatsapp: Option<String>,
    pub is_visible: Option<bool>,
}

/// The store settings as stored: missing texts are empty, missing switches on.
pub struct StoreSettings {
    pub store_name: String,
    pub description: String,
    pub store_category: String,
    pub interests: String,
    pub show_email: bool,
    pub show_buttons: bool,
    pub phone: String,
    pub instagram: String,
    pub facebook: String,
    pub tiktok: String,
    pub youtube: String,
    pub whatsapp: String,
    pub is_visible: bool,
}

/// The text of an optional field, empty when it is missing.
pub open spec fn text_or_empty(o: Option<String>) -> Seq<char> {
    match o {
        Some(s) => s@,
        None => Seq::empty(),
    }
}

/// A switch that is on when it is missing.
pub open spec fn on_unless_off(o: Option<bool>) -> bool {
    match o {
        Some(b) => b,
        None => true,
    }
}

fn text_of(o: Option<String>) -> (r: String)
    ensures
        r@ == text_or_empty(o),
{
    match o {
        Some(s) => s,
        None => String::new(),
    }
}

fn switch_of(o: Option<bool>) -> (r: bool)
    ensures
        r == on_unless_off(o),
{
    match o {
        Some(b) => b,
        None => true,
    }
}

/// Store settings, as plain values.
pub struct StoreSettingsView {
    pub store_name: Seq<char>,
    pub description: Seq<char>,
    pub store_category: Seq<char>,
    pub interests: Seq<char>,
    pub show_email: bool,
    pub show_buttons: bool,
    pub phone: Seq<char>,
    pub instagram: Seq<char>,
    pub facebook: Seq<char>,
    pub tiktok: Seq<char>,
    pub youtube: Seq<char>,
    pub whatsapp: Seq<char>,
    pub is_visible: bool,
}

impl View for StoreSettings {
    type V = StoreSettingsView;

    open spec fn view(&self) -> StoreSettingsView {
        StoreSettingsView {
            store_name: self.store_name@,
            description: self.description@,
            store_category: self.store_category@,
            interests: self.interests@,
            show_email: self.show_email,
            show_buttons: self.show_buttons,
            phone: self.phone@,
            instagram: self.instagram@,
            facebook: self.facebook@,
            tiktok: self.tiktok@,
            youtube: self.youtube@,
            whatsapp: self.whatsapp@,
            is_visible: self.is_visible,
        }
    }
}

/// The settings stored for a request: missing texts empty, missing switches
/// on.
pub open spec fn normalized_settings(req: StoreSettingsRequest) -> StoreSettingsView {
    StoreSettingsView {
        store_name: text_or_empty(req.store_name),
        description: text_or_empty(req.description),
        store_category: text_or_empty(req.store_category),
        interests: text_or_empty(req.interests),
        show_email: on_unless_off(req.show_email),
        show_buttons: on_unless_off(req.show_buttons),
        phone: text_or_empty(req.phone),
        instagram: text_or_empty(req.instagram),
        facebook: text_or_empty(req.facebook),
        tiktok: text_or_empty(req.tiktok),
        youtube: text_or_empty(req.youtube),
        whatsapp: text_or_empty(req.whatsapp),
        is_visible: on_unless_off(req.is_visible),
    }
}

/// The settings shown for an account without a saved store.
pub open spec fn empty_settings() -> StoreSettingsView {
    StoreSettingsView {
        store_name: Seq::empty(),
        description: Seq::empty(),
        store_category: Seq::empty(),
        interests: Seq::empty(),
        show_email: true,
        show_buttons: true,
        phone: Seq::empty(),
        instagram: Seq::empty(),
        facebook: Seq::empty(),
        tiktok: Seq::empty(),
        youtube: Seq::empty(),
        whatsapp: Seq::empty(),
        is_visible: true,
    }
}

/// The store settings to store for a request.
pub fn normalize_store_settings(req: StoreSettingsRequest) -> (r: StoreSettings)
    ensures
        r@ == normalized_settings(req),
        r.store_name@ == text_or_empty(req.store_name),
        r.description@ == text_or_empty(req.description),
        r.store_category@ == text_or_empty(req.store_category),
        r.interests@ == text_or_empty(req.interests),
        r.show_email == on_unless_off(req.show_email),
        r.show_buttons == on_unless_off(req.show_buttons),
        r.phone@ == text_or_empty(req.phone),
        r.instagram@ == text_or_empty(req.instagram),
        r.facebook@ == text_or_empty(req.facebook),
        r.tiktok@ == text_or_empty(req.tiktok),
        r.youtube@ == text_or_empty(req.youtube),
        r.whatsapp@ == text_or_empty(req.whatsapp),
        r.is_visible == on_unless_off(req.is_visible),
{
    StoreSettings {
        store_name: text_of(req.store_name),
        description: text_of(req.description),
        store_category: text_of(req.store_category),
        interests: text_of(req.interests),
        show_email: switch_of(req.show_email),
        show_buttons: switch_of(req.show_buttons),
        phone: text_of(req.phone),
        instagram: text_of(req.instagram),
        facebook: text_of(req.facebook),
        tiktok: text_of(req.tiktok),
        youtube: text_of(req.youtube),
        whatsapp: text_of(req.whatsapp),
        is_visible: switch_of(req.is_visible),
    }
}

/// The stored settings of a user who has not saved any yet.
pub fn empty_store_settings() -> (r: StoreSettings)
    ensures
        r@ == empty_settings(),
        r.store_name@.len() == 0 && r.description@.len() == 0 && r.store_category@.len() == 0
            && r.interests@.len() == 0 && r.phone@.len() == 0 && r.instagram@.len() == 0
            && r.facebook@.len() == 0 && r.tiktok@.len() == 0 && r.youtube@.len() == 0
            && r.whatsapp@.len() == 0,
        r.show_email && r.show_buttons && r.is_visible,
{
    StoreSettings {
        store_name: String::new(),
        description: String::new(),
        store_category: String::new(),
        interests: String::new(),
        show_email: true,
        show_buttons: true,
        phone: String::new(),
        instagram: String::new(),
        facebook: String::new(),
        tiktok: String::new(),
        youtube: String::new(),
        whatsapp: String::new(),
        is_visible: true,
    }
}

/// A character as SQLite's `LOWER` gives it: ASCII capitals become small
/// letters, everything else stays.
pub open spec fn sql_lower_char(c: char) -> char {
    if 'A' <= c && c <= 'Z' {
        ((c as int) + 32) as char
    } else {
        c
    }
}

/// The slug of a store name: spaces become `-` and ASCII capitals small
/// letters (`LOWER(REPLACE(store_name, ' ', '-'))`).
pub open spec fn slug_of_name(name: Seq<char>) -> Seq<char> {
    name.map_values(|c: char| if c == ' ' { '-' } else { sql_lower_char(c) })
}

/// The slug a store gets when it has none: from its name when the name is
/// non-empty, else `store-<id>` when it has an id.
pub fn store_slug(store_name: Option<&str>, id: Option<i64>) -> (r: Option<String>)
    ensures
        match r {
            Some(x) => slug_rule(
                match store_name {
                    Some(n) => n@,
                    None => Seq::<char>::empty(),
                },
                match id {
                    Some(i) => Some(i as int),
                    None => None,
                },
            ) == Some(x@),
            None => slug_rule(
                match store_name {
                    Some(n) => n@,
                    None => Seq::<char>::empty(),
                },
                match id {
                    Some(i) => Some(i as int),
                    None => None,
                },
            ) is None,
        },
        match store_name {
            Some(n) if n@.len() > 0 => r matches Some(s) && s@ == slug_of_name(n@),
            _ => match id {
                Some(i) => r matches Some(s) && s@ == "store-"@ + decimal(i as int),
                None => r is None,
            },
        },
{
    match store_name {
        Some(n) => {
            let c = to_chars(n);
            if c.len() > 0 {
                let mut v: Vec<char> = Vec::new();
                let len = c.len();
                for i in 0..len
                    invariant
                        len == c@.len(),
                        c@ == n@,
                        v@ == slug_of_name(c@.take(i as int)),
                {
                    let ch = c[i];
                    let out = if ch == ' ' {
                        '-'
                    } else if 'A' <= ch && ch <= 'Z' {
                        ((ch as u8) + 32) as char
                    } else {
                        ch
                    };
                    v.push(out);
                    assert(v@ =~= slug_of_name(c@.take(i + 1)));
                }
                assert(c@.take(len as int) =~= c@);
                return Some(from_chars(v.as_slice()));
            }
        },
        None => {},
    }
    match id {
        Some(i) => {
            let mut v = to_chars("store-");
            let d = i64_decimal(i);
            extend_chars(&mut v, d.as_slice());
            Some(from_chars(v.as_slice()))
        },
        None => None,
    }
}

/// The slug that a store gets (see `store_slug`): from its name when the
/// name is non-empty, else `store-<id>` when it has an id.
pub open spec fn slug_rule(name: Seq<char>, id: Option<int>) -> Option<Seq<char>> {
    if name.len() > 0 {
        Some(slug_of_name(name))
    } else {
        match id {
            Some(i) => Some("store-"@ + decimal(i)),
            None => None,
        }
    }
}

/// One row of the `stores` table with its `store_settings` switches, as
/// plain values.
pub struct StoreRow {
    pub settings: StoreSettingsView,
    pub verified: int,
    pub id: Option<int>,
    pub slug: Option<Seq<char>>,
}

/// What reading the store of an account gives.
pub struct StoreReadView {
    pub settings: StoreSettingsView,
    pub verified: int,
    pub id: Option<int>,
    pub slug: Seq<char>,
}

/// Saving the settings `s` of the store of `email`: the row is replaced,
/// keeping its verified mark (0 for a new store); the replaced row has no
/// id or slug, so it gets the id `id` that the table assigns and the slug of
/// `slug_rule`. (The other rows already have ids and slugs, which the table
/// creation assigns, so the two assignments touch only this row.)
pub open spec fn save_store(
    t: Map<Seq<char>, StoreRow>,
    email: Seq<char>,
    s: StoreSettingsView,
    id: int,
) -> Map<Seq<char>, StoreRow> {
    let verified = if t.contains_key(email) {
        t[email].verified
    } else {
        0
    };
    t.insert(email, StoreRow { settings: s, verified, id: Some(id), slug: slug_rule(s.store_name, Some(id)) })
}

/// Reading the store of `email`: its row, or the empty settings without id
/// or slug.
pub open spec fn read_store(t: Map<Seq<char>, StoreRow>, email: Seq<char>) -> StoreReadView {
    if t.contains_key(email) {
        let r = t[email];
        StoreReadView {
            settings: r.settings,
            verified: r.verified,
            id: r.id,
            slug: match r.slug {
                Some(x) => x,
                None => Seq::empty(),
            },
        }
    } else {
        StoreReadView { settings: empty_settings(), verified: 0, id: None, slug: Seq::empty() }
    }
}

/// Law: reading a store back after its settings were saved gives the
/// normalized settings (missing texts empty, missing switches on), an id,
/// the slug made from the name (or from the id when the name is empty), and
/// the verified mark it had; the stores of other accounts are unchanged.
pub proof fn law_store_read_after_save(
    t: Map<Seq<char>, StoreRow>,
    email: Seq<char>,
    other: Seq<char>,
    req: StoreSettingsRequest,
    id: int,
)
    requires
        email != other,
    ensures
        ({
            let s = normalized_settings(req);
            let back = read_store(save_store(t, email, s, id), email);
            &&& back.settings == s
            &&& back.id == Some(id)
            &&& back.slug == if s.store_name.len() > 0 {
                slug_of_name(s.store_name)
            } else {
                "store-"@ + decimal(id)
            }
            &&& back.verified == if t.contains_key(email) {
                t[email].verified
            } else {
                0
            }
        }),
        read_store(save_store(t, email, normalized_settings(req), id), other) == read_store(t, other),
{
}

// ---------------------------------------------------------------------------
// Public storefront
// ---------------------------------------------------------------------------

/// Whether a storefront key is an email, used as it is, rather than an id,
/// slug or store name to be looked up.
pub fn storefront_key_is_email(key: &str) -> (r: bool)
    ensures
        r == key@.contains('@'),
{
    let c = to_chars(key);
    let n = c.len();
    for i in 0..n
        invariant
            n == c@.len(),
            c@ == key@,
            forall|j: int| 0 <= j < i ==> c@[j] != '@',
    {
        if c[i] == '@' {
            return true;
        }
    }
    false
}

/// The email whose storefront is shown: the key itself when it is an email,
/// else the email that the lookup by id, slug or name found, else the key.
pub fn storefront_email(key: &str, found: Option<String>) -> (r: String)
    ensures
        r@ == if key@.contains('@') {
            key@
        } else {
            match found {
                Some(e) => e@,
                None => key@,
            }
        },
{
    if storefront_key_is_email(key) {
        String::from_str(key)
    } else {
        match found {
            Some(e) => e,
            None => String::from_str(key),
        }
    }
}

/// The part of an email before its first `@` (all of it without one).
pub open spec fn local_part(email: Seq<char>) -> Seq<char> {
    if email.contains('@') {
        let i = choose|i: int| 0 <= i < email.len() && email[i] == '@' && forall|j: int| 0 <= j < i ==> email[j] != '@';
        email.take(i)
    } else {
        email
    }
}

/// What a storefront shows about a store.
pub struct StoreInfo {
    pub description: String,
    pub store_category: String,
    pub interests: String,
    pub store_name: String,
    pub verified: i32,
    pub id: Option<i32>,
    pub slug: String,
    pub show_email: bool,
    pub show_buttons: bool,
}

/// The position of the first `@` of `c`, or its length when it has none.
fn first_at_sign(c: &[char]) -> (r: usize)
    ensures
        r <= c@.len(),
        forall|j: int| 0 <= j < r ==> c@[j] != '@',
        r < c@.len() ==> c@[r as int] == '@',
{
    let n = c.len();
    let mut i: usize = 0;
    while i < n
        invariant
            n == c@.len(),
            i <= n,
            forall|j: int| 0 <= j < i ==> c@[j] != '@',
        decreases n - i,
    {
        if c[i] == '@' {
            return i;
        }
        i = i + 1;
    }
    n
}

/// What a storefront shows for an email without a saved store: a welcome
/// text, the category `Lapak Digital`, and the name `Mall <local part>`.
pub fn default_store_info(email: &str) -> (r: StoreInfo)
    ensures
        r.description@ == "Selamat datang di lapak digital premium saya. Temukan layanan terbaik di sini!"@,
        r.store_category@ == "Lapak Digital"@,
        r.interests@.len() == 0,
        r.store_name@ == "Mall "@ + local_part(email@),
        r.verified == 0,
        r.id is None,
        r.slug@.len() == 0,
        r.show_email,
        r.show_buttons,
{
    let c = to_chars(email);
    let n = c.len();
    let end = first_at_sign(c.as_slice());
    proof {
        if end < n {
            assert(email@[end as int] == '@');
            assert(email@.contains('@'));
            let k = choose|k: int| 0 <= k < email@.len() && email@[k] == '@' && forall|j: int| 0 <= j < k ==> email@[j] != '@';
            if k > end {
                assert(email@[end as int] == '@');
            }
            assert(k == end);
        } else {
            assert(!email@.contains('@')) by {
                if email@.contains('@') {
                    let k = choose|k: int| 0 <= k < email@.len() && email@[k] == '@';
                    assert(email@[k] != '@');
                }
            }
        }
    }
    let local = slice_chars(c.as_slice(), 0, end);
    assert(end == n ==> local@ =~= email@);
    let mut name = to_chars("Mall ");
    extend_chars(&mut name, local.as_slice());
    StoreInfo {
        description: String::from_str(
            "Selamat datang di lapak digital premium saya. Temukan layanan terbaik di sini!",
        ),
        store_category: String::from_str("Lapak Digital"),
        interests: String::new(),
        store_name: from_chars(name.as_slice()),
        verified: 0,
        id: None,
        slug: String::new(),
        show_email: true,
        show_buttons: true,
    }
}

// ---------------------------------------------------------------------------
// Catalogue categories
// ---------------------------------------------------------------------------

/// The text in lower case as `str::to_lowercase` gives it (Unicode case
/// mapping).
pub uninterp spec fn lowercase(s: Seq<char>) -> Seq<char>;

/// `str::to_lowercase`. Claimed: the result is `lowercase` of the input; the
/// Unicode case mapping is named, not restated.
#[verifier::external_body]
fn to_lowercase(s: &str) -> (r: String)
    ensures
        r@ == lowercase(s@),
{
    s.to_lowercase()
}

/// The catalogue category of a KoalaStore product, from its category text in
/// lower case.
pub open spec fn category_slug_of_lower(lower: Option<Seq<char>>) -> Seq<char> {
    match lower {
        Some(c) => if has_sub(c, "music"@) {
            "music"@
        } else if has_sub(c, "productivity"@) {
            "productivity"@
        } else if has_sub(c, "game"@) {
            "game"@
        } else {
            "digital"@
        },
        None => "digital"@,
    }
}

/// `w` occurs in `c` at position `i`.
pub open spec fn word_at(c: Seq<char>, w: Seq<char>, i: int) -> bool {
    0 <= i && i + w.len() <= c.len() && c.subrange(i, i + w.len()) == w
}

/// Law: the category of a product is chosen by what its lower-cased category
/// text contains anywhere (not only at its start): `music` first, then
/// `productivity`, then `game`; a text containing none of them, or no text,
/// is `digital`.
pub proof fn law_category_by_contained_word(c: Seq<char>, i: int)
    ensures
        word_at(c, "music"@, i) ==> category_slug_of_lower(Some(c)) == "music"@,
        (forall|j: int| !#[trigger] word_at(c, "music"@, j)) && word_at(c, "productivity"@, i)
            ==> category_slug_of_lower(Some(c)) == "productivity"@,
        (forall|j: int| !#[trigger] word_at(c, "music"@, j)) && (forall|j: int|
            !#[trigger] word_at(c, "productivity"@, j)) && word_at(c, "game"@, i)
            ==> category_slug_of_lower(Some(c)) == "game"@,
        (forall|j: int| !#[trigger] word_at(c, "music"@, j)) && (forall|j: int|
            !#[trigger] word_at(c, "productivity"@, j)) && (forall|j: int|
            !#[trigger] word_at(c, "game"@, j)) ==> category_slug_of_lower(Some(c)) == "digital"@,
        category_slug_of_lower(None) == "digital"@,
{
    if word_at(c, "music"@, i) {
        assert(crate::text::occurs_at(c, "music"@, i));
    }
    if word_at(c, "productivity"@, i) {
        assert(crate::text::occurs_at(c, "productivity"@, i));
    }
    if word_at(c, "game"@, i) {
        assert(crate::text::occurs_at(c, "game"@, i));
    }
    if has_sub(c, "music"@) {
        let k = choose|k: int| crate::text::occurs_at(c, "music"@, k);
        assert(word_at(c, "music"@, k));
    }
    if has_sub(c, "productivity"@) {
        let k = choose|k: int| crate::text::occurs_at(c, "productivity"@, k);
        assert(word_at(c, "productivity"@, k));
    }
    if has_sub(c, "game"@) {
        let k = choose|k: int| crate::text::occurs_at(c, "game"@, k);
        assert(word_at(c, "game"@, k));
    }
}

/// The catalogue category of a product from its lower-cased category text.
pub fn category_slug_from_lower(lower: Option<&str>) -> (r: String)
    ensures
        r@ == category_slug_of_lower(match lower {
            Some(c) => Some(c@),
            None => None,
        }),
{
    match lower {
        Some(c) => {
            let cc = to_chars(c);
            let music = to_chars("music");
            let prod = to_chars("productivity");
            let game = to_chars("game");
            if crate::text::contains_chars(cc.as_slice(), music.as_slice()) {
                String::from_str("music")
            } else if crate::text::contains_chars(cc.as_slice(), prod.as_slice()) {
                String::from_str("productivity")
            } else if crate::text::contains_chars(cc.as_slice(), game.as_slice()) {
                String::from_str("game")
            } else {
                String::from_str("digital")
            }
        },
        None => String::from_str("digital"),
    }
}

/// The catalogue category of a KoalaStore product: `music`, `productivity`
/// or `game` when its category (in lower case) mentions it, else `digital`.
pub fn category_slug(category: Option<&str>) -> (r: String)
    ensures
        r@ == category_slug_of_lower(match category {
            Some(c) => Some(lowercase(c@)),
            None => None,
        }),
{
    match category {
        Some(c) => {
            let lower = to_lowercase(c);
            category_slug_from_lower(Some(lower.as_str()))
        },
        None => category_slug_from_lower(None),
    }
}

/// How long the assembled product catalogue is served from memory, in
/// seconds (five minutes).
pub const CATALOGUE_CACHE_SECONDS: u64 = 300;

/// Whether a catalogue assembled `age_secs` whole seconds ago is still served
/// from memory. (An age below five minutes has fewer than 300 whole seconds,
/// so this is the same test as comparing the exact age with five minutes.)
pub fn catalogue_cache_fresh(age_secs: u64) -> (r: bool)
    ensures
        r == (age_secs < CATALOGUE_CACHE_SECONDS),
{
    age_secs < CATALOGUE_CACHE_SECONDS
}

/// Whether a product of the fixed catalogue is listed: its category is
/// pulsa, data, PLN or SSL.
pub fn is_static_category(slug: &str) -> (r: bool)
    ensures
        r == (slug@ == "pulsa"@ || slug@ == "data"@ || slug@ == "pln"@ || slug@ == "ssl"@),
{
    str_eq(slug, "pulsa") || str_eq(slug, "data") || str_eq(slug, "pln") || str_eq(slug, "ssl")
}

// ---------------------------------------------------------------------------
// Product images
// ---------------------------------------------------------------------------

/// The largest image accepted, in bytes (5 MB).
pub const MAX_IMAGE_BYTES: usize = 5242880;

/// The extension of a file name: the text after its last `.` (all of it
/// when it has none).
pub open spec fn extension_of(file_name: Seq<char>) -> Seq<char> {
    after_last(file_name, "."@)
}

/// The image extensions accepted, in lower case.
pub open spec fn allowed_extension(lower_ext: Seq<char>) -> bool {
    lower_ext == "jpg"@ || lower_ext == "jpeg"@ || lower_ext == "png"@ || lower_ext == "webp"@
        || lower_ext == "gif"@
}

/// What is done with one field of an upload form.
pub enum UploadField {
    /// Not an image field: the next field is read.
    Skip,
    /// An image field whose file type is refused.
    BadType,
    /// An image field with an accepted extension (as written in the name).
    Image { ext: String },
}

/// Decides a form field: fields named `image` or `file` carry the image,
/// whose extension (in lower case) must be jpg, jpeg, png, webp or gif.
pub fn upload_field(field_name: &str, file_name: &str) -> (r: UploadField)
    ensures
        (field_name@ == "image"@ || field_name@ == "file"@) && ({
            let lower = lowercase(extension_of(file_name@));
            lower == "jpg"@ || lower == "jpeg"@ || lower == "png"@ || lower == "webp"@ || lower
                == "gif"@
        }) ==> (r matches UploadField::Image { ext: e } && e@ == extension_of(file_name@)),
        (field_name@ == "image"@ || field_name@ == "file"@) && !({
            let lower = lowercase(extension_of(file_name@));
            lower == "jpg"@ || lower == "jpeg"@ || lower == "png"@ || lower == "webp"@ || lower
                == "gif"@
        }) ==> r is BadType,
        !(field_name@ == "image"@ || field_name@ == "file"@) ==> r is Skip,
        (field_name@ == "image"@ || field_name@ == "file"@) ==> {
            let ext = extension_of(file_name@);
            if allowed_extension(lowercase(ext)) {
                r matches UploadField::Image { ext: e } && e@ == ext
            } else {
                r is BadType
            }
        },
{
    if !(str_eq(field_name, "image") || str_eq(field_name, "file")) {
        return UploadField::Skip;
    }
    let fc = to_chars(file_name);
    let dot = to_chars(".");
    let ext_chars = split_last(fc.as_slice(), dot.as_slice());
    let ext = from_chars(ext_chars.as_slice());
    let lower = to_lowercase(ext.as_str());
    let ok = str_eq(lower.as_str(), "jpg") || str_eq(lower.as_str(), "jpeg") || str_eq(
        lower.as_str(),
        "png",
    ) || str_eq(lower.as_str(), "webp") || str_eq(lower.as_str(), "gif");
    if ok {
        UploadField::Image { ext }
    } else {
        UploadField::BadType
    }
}

/// Law: an image field (named `image` or `file`) is accepted as an image,
/// keeping its extension as written, exactly when that extension in lower
/// case is `jpg`, `jpeg`, `png`, `webp` or `gif`; any other field is
/// skipped.
pub proof fn law_image_extensions(file_name: Seq<char>)
    ensures
        ({
            let lower = lowercase(extension_of(file_name));
            allowed_extension(lower) <==> (lower == "jpg"@ || lower == "jpeg"@ || lower == "png"@
                || lower == "webp"@ || lower == "gif"@)
        }),
        allowed_extension("jpg"@),
        allowed_extension("jpeg"@),
        allowed_extension("png"@),
        allowed_extension("webp"@),
        allowed_extension("gif"@),
{
}

/// Whether an image of `len` bytes is within the size limit.
pub fn upload_size_ok(len: usize) -> (r: bool)
    ensures
        r == (len <= MAX_IMAGE_BYTES),
{
    len <= MAX_IMAGE_BYTES
}

/// The stored file name of an image: `img_<timestamp>_<random>.<ext>`.
pub open spec fn image_file_name(timestamp: int, random: int, ext: Seq<char>) -> Seq<char> {
    "img_"@ + decimal(timestamp) + "_"@ + decimal(random) + "."@ + ext
}

/// The stored file name of an image.
pub fn upload_file_name(timestamp: i64, random: u32, ext: &str) -> (r: String)
    ensures
        r@ == image_file_name(timestamp as int, random as int, ext@),
{
    let mut v = to_chars("img_");
    let t = i64_decimal(timestamp);
    extend_chars(&mut v, t.as_slice());
    extend_str(&mut v, "_");
    let rd = i64_decimal(random as i64);
    extend_chars(&mut v, rd.as_slice());
    extend_str(&mut v, ".");
    extend_str(&mut v, ext);
    from_chars(v.as_slice())
}

/// `time::OffsetDateTime::now_utc().unix_timestamp()`: the current time in
/// seconds. Nothing is claimed of the value (it is the clock's).
#[verifier::external_body]
fn unix_now() -> i64 {
    time::OffsetDateTime::now_utc().unix_timestamp()
}

/// `rand::random::<u32>()`. Nothing is claimed of the value (it is chance).
#[verifier::external_body]
fn random_u32() -> u32 {
    rand::random::<u32>()
}

/// A fresh stored file name for an image with extension `ext`: the current
/// time and a random number.
pub fn fresh_upload_file_name(ext: &str) -> (r: String)
    ensures
        exists|t: i64, n: u32| r@ == image_file_name(t as int, n as int, ext@),
{
    let t = unix_now();
    let n = random_u32();
    let r = upload_file_name(t, n, ext);
    assert(r@ == image_file_name(t as int, n as int, ext@));
    r
}

/// The address at which a stored image is served.
pub fn upload_url(file_name: &str) -> (r: String)
    ensures
        r@ == "/uploads/"@ + file_name@,
{
    let mut v = to_chars("/uploads/");
    extend_str(&mut v, file_name);
    from_chars(v.as_slice())
}

} // verus!
