//! The shopping cart ("keranjang"): one line per product and variant of each
//! account, with a quantity.

use vstd::prelude::*;
use crate::text::str_eq;

verus! {

broadcast use vstd::string::group_string_axioms;

/// One line of the cart table.
pub struct CartItem {
    pub id: i64,
    pub email: String,
    pub product_code: String,
    pub product_name: String,
    pub variant_code: Option<String>,
    pub variant_name: Option<String>,
    pub price: i64,
    pub quantity: i64,
    pub created_at: String,
}

/// The body of an add-to-cart request.
pub struct AddCartRequest {
    pub product_code: String,
    pub product_name: String,
    pub variant_code: Option<String>,
    pub variant_name: Option<String>,
    pub price: i64,
    pub quantity: Option<i64>,
}

/// A cart line, as plain values.
pub struct LineView {
    pub id: int,
    pub email: Seq<char>,
    pub product_code: Seq<char>,
    pub product_name: Seq<char>,
    pub variant_code: Option<Seq<char>>,
    pub variant_name: Option<Seq<char>>,
    pub price: int,
    pub quantity: int,
    pub created_at: Seq<char>,
}

/// An optional text as plain values.
pub open spec fn opt_view(o: Option<String>) -> Option<Seq<char>> {
    match o {
        Some(s) => Some(s@),
        None => None,
    }
}

impl View for CartItem {
    type V = LineView;

    open spec fn view(&self) -> LineView {
        LineView {
            id: self.id as int,
            email: self.email@,
            product_code: self.product_code@,
            product_name: self.product_name@,
            variant_code: opt_view(self.variant_code),
            variant_name: opt_view(self.variant_name),
            price: self.price as int,
            quantity: self.quantity as int,
            created_at: self.created_at@,
        }
    }
}

/// The variant part of a line's key: a missing variant code counts as empty.
pub open spec fn variant_key(v: Option<Seq<char>>) -> Seq<char> {
    match v {
        Some(s) => s,
        None => Seq::empty(),
    }
}

/// The line belongs to `email` and holds the product `code` in the variant
/// `variant`.
pub open spec fn line_is(l: LineView, email: Seq<char>, code: Seq<char>, variant: Seq<char>) -> bool {
    l.email == email && l.product_code == code && variant_key(l.variant_code) == variant
}

/// Two lines hold the same product and variant of the same account.
pub open spec fn same_key(a: LineView, b: LineView) -> bool {
    line_is(b, a.email, a.product_code, variant_key(a.variant_code))
}

/// The elements of `s` that `keep` accepts, in order.
pub open spec fn retain<A>(s: Seq<A>, keep: spec_fn(A) -> bool) -> Seq<A>
    decreases s.len(),
{
    if s.len() == 0 {
        s
    } else if keep(s.last()) {
        retain(s.drop_last(), keep).push(s.last())
    } else {
        retain(s.drop_last(), keep)
    }
}

/// The cart table as plain values, with the id the next new line gets.
pub struct CartView {
    pub lines: Seq<LineView>,
    pub next_id: int,
}

/// The quantity that an add request adds (1 when it names none).
pub open spec fn requested_quantity(q: Option<i64>) -> int {
    match q {
        Some(n) => n as int,
        None => 1,
    }
}

impl CartView {
    /// Line ids are unique and below `next_id`, and no two lines hold the
    /// same product and variant of the same account.
    pub open spec fn wf(self) -> bool {
        &&& forall|i: int, j: int|
            #![trigger self.lines[i], self.lines[j]]
            0 <= i < j < self.lines.len() ==> self.lines[i].id != self.lines[j].id && !same_key(
                self.lines[i],
                self.lines[j],
            )
        &&& forall|i: int| 0 <= i < self.lines.len() ==> #[trigger] self.lines[i].id < self.next_id
        &&& 0 < self.next_id
    }

    /// The position of the line of `email` for product `code` and variant
    /// `variant`, if there is one.
    pub open spec fn find(self, email: Seq<char>, code: Seq<char>, variant: Seq<char>) -> Option<int> {
        if exists|i: int| 0 <= i < self.lines.len() && line_is(self.lines[i], email, code, variant) {
            Some(choose|i: int| 0 <= i < self.lines.len() && line_is(self.lines[i], email, code, variant))
        } else {
            None
        }
    }

    /// Adding to the cart of `email`: the quantity joins the existing line
    /// of that product and variant, or a new line is made.
    pub open spec fn add(
        self,
        email: Seq<char>,
        code: Seq<char>,
        name: Seq<char>,
        variant_code: Option<Seq<char>>,
        variant_name: Option<Seq<char>>,
        price: int,
        qty: int,
        now: Seq<char>,
    ) -> CartView {
        match self.find(email, code, variant_key(variant_code)) {
            Some(i) => CartView {
                lines: self.lines.update(
                    i,
                    LineView { quantity: self.lines[i].quantity + qty, ..self.lines[i] },
                ),
                ..self
            },
            None => CartView {
                lines: self.lines.push(
                    LineView {
                        id: self.next_id,
                        email,
                        product_code: code,
                        product_name: name,
                        variant_code,
                        variant_name,
                        price,
                        quantity: qty,
                        created_at: now,
                    },
                ),
                next_id: self.next_id + 1,
            },
        }
    }

    /// Removing the line `id` of `email` (nothing when it is another's).
    pub open spec fn delete(self, id: int, email: Seq<char>) -> CartView {
        CartView { lines: retain(self.lines, |l: LineView| !(l.id == id && l.email == email)), ..self }
    }

    /// Emptying the cart of `email`.
    pub open spec fn clear(self, email: Seq<char>) -> CartView {
        CartView { lines: retain(self.lines, |l: LineView| l.email != email), ..self }
    }

    /// The lines of `email`, in order.
    pub open spec fn lines_of(self, email: Seq<char>) -> Seq<LineView> {
        retain(self.lines, |l: LineView| l.email == email)
    }
}

// ---------------------------------------------------------------------------
// Lemmas on `retain`
// ---------------------------------------------------------------------------

/// `retain` keeps what holds of every element.
pub proof fn lemma_retain_all<A>(s: Seq<A>, keep: spec_fn(A) -> bool, pred: spec_fn(A) -> bool)
    requires
        forall|i: int| 0 <= i < s.len() ==> #[trigger] pred(s[i]),
    ensures
        forall|k: int| 0 <= k < retain(s, keep).len() ==> #[trigger] pred(retain(s, keep)[k]),
        forall|k: int| 0 <= k < retain(s, keep).len() ==> #[trigger] keep(retain(s, keep)[k]),
    decreases s.len(),
{
    if s.len() > 0 {
        let d = s.drop_last();
        assert forall|i: int| 0 <= i < d.len() implies #[trigger] pred(d[i]) by {
            assert(d[i] == s[i]);
        }
        lemma_retain_all(d, keep, pred);
        let rd = retain(d, keep);
        let r = retain(s, keep);
        if keep(s.last()) {
            assert(r == rd.push(s.last()));
            assert(pred(s[s.len() - 1]));
            assert forall|k: int| 0 <= k < r.len() implies #[trigger] pred(r[k]) && keep(r[k]) by {
                if k < rd.len() {
                    assert(r[k] == rd[k]);
                }
            }
        } else {
            assert(r == rd);
        }
    }
}

/// `retain` keeps a relation that holds of every ordered pair.
pub proof fn lemma_retain_pairwise<A>(s: Seq<A>, keep: spec_fn(A) -> bool, rel: spec_fn(A, A) -> bool)
    requires
        forall|i: int, j: int| 0 <= i < j < s.len() ==> #[trigger] rel(s[i], s[j]),
    ensures
        forall|i: int, j: int|
            0 <= i < j < retain(s, keep).len() ==> #[trigger] rel(retain(s, keep)[i], retain(s, keep)[j]),
    decreases s.len(),
{
    if s.len() > 0 {
        let d = s.drop_last();
        assert forall|i: int, j: int| 0 <= i < j < d.len() implies #[trigger] rel(d[i], d[j]) by {
            assert(d[i] == s[i] && d[j] == s[j]);
        }
        lemma_retain_pairwise(d, keep, rel);
        let rd = retain(d, keep);
        let r = retain(s, keep);
        if keep(s.last()) {
            let last = s.last();
            let before_last = |x: A| rel(x, last);
            assert forall|i: int| 0 <= i < d.len() implies #[trigger] before_last(d[i]) by {
                assert(d[i] == s[i]);
                assert(s[s.len() - 1] == last);
                assert(rel(s[i], s[s.len() - 1]));
            }
            lemma_retain_all(d, keep, before_last);
            assert(r == rd.push(last));
            assert forall|i: int, j: int| 0 <= i < j < r.len() implies #[trigger] rel(r[i], r[j]) by {
                assert(r[i] == rd[i]);
                if j < rd.len() {
                    assert(r[j] == rd[j]);
                } else {
                    assert(r[j] == last);
                    assert(before_last(rd[i]));
                }
            }
        } else {
            assert(r == rd);
        }
    }
}

/// Every element of the sequence that `keep` accepts is kept.
pub proof fn lemma_retain_keeps<A>(s: Seq<A>, keep: spec_fn(A) -> bool, i: int)
    requires
        0 <= i < s.len(),
        keep(s[i]),
    ensures
        exists|k: int| 0 <= k < retain(s, keep).len() && retain(s, keep)[k] == s[i],
    decreases s.len(),
{
    let d = s.drop_last();
    let r = retain(s, keep);
    let rd = retain(d, keep);
    if i == s.len() - 1 {
        assert(r == rd.push(s.last()));
        assert(r[rd.len() as int] == s[i]);
    } else {
        assert(d[i] == s[i]);
        lemma_retain_keeps(d, keep, i);
        let k = choose|k: int| 0 <= k < rd.len() && rd[k] == d[i];
        if keep(s.last()) {
            assert(r == rd.push(s.last()));
            assert(r[k] == rd[k]);
        } else {
            assert(r == rd);
        }
    }
}

/// Retaining twice, with a second test that implies the first, is retaining
/// once with the second.
pub proof fn lemma_retain_retain<A>(s: Seq<A>, p: spec_fn(A) -> bool, q: spec_fn(A) -> bool)
    requires
        forall|x: A| #[trigger] q(x) ==> p(x),
    ensures
        retain(retain(s, p), q) == retain(s, q),
    decreases s.len(),
{
    if s.len() > 0 {
        let d = s.drop_last();
        lemma_retain_retain(d, p, q);
        if p(s.last()) {
            let rp = retain(s, p);
            assert(rp.drop_last() =~= retain(d, p));
        }
    }
}

proof fn lemma_retain_keeps_wf(c: CartView, keep: spec_fn(LineView) -> bool)
    requires
        c.wf(),
    ensures
        (CartView { lines: retain(c.lines, keep), ..c }).wf(),
{
    let rel = |a: LineView, b: LineView| a.id != b.id && !same_key(a, b);
    assert forall|i: int, j: int| 0 <= i < j < c.lines.len() implies #[trigger] rel(c.lines[i], c.lines[j]) by {
    }
    lemma_retain_pairwise(c.lines, keep, rel);
    let below = |a: LineView| a.id < c.next_id;
    assert forall|i: int| 0 <= i < c.lines.len() implies #[trigger] below(c.lines[i]) by {
    }
    lemma_retain_all(c.lines, keep, below);
    let r = retain(c.lines, keep);
    assert forall|i: int, j: int| #![trigger r[i], r[j]] 0 <= i < j < r.len() implies r[i].id != r[j].id && !same_key(r[i], r[j]) by {
        assert(rel(r[i], r[j]));
    }
    assert forall|i: int| 0 <= i < r.len() implies #[trigger] r[i].id < c.next_id by {
        assert(below(r[i]));
    }
}

proof fn lemma_find(c: CartView, email: Seq<char>, code: Seq<char>, variant: Seq<char>)
    ensures
        match c.find(email, code, variant) {
            Some(i) => 0 <= i < c.lines.len() && line_is(c.lines[i], email, code, variant),
            None => forall|j: int| 0 <= j < c.lines.len() ==> !line_is(c.lines[j], email, code, variant),
        },
{
}

proof fn lemma_add_keeps_wf(
    c: CartView,
    email: Seq<char>,
    code: Seq<char>,
    name: Seq<char>,
    variant_code: Option<Seq<char>>,
    variant_name: Option<Seq<char>>,
    price: int,
    qty: int,
    now: Seq<char>,
)
    requires
        c.wf(),
    ensures
        c.add(email, code, name, variant_code, variant_name, price, qty, now).wf(),
{
    let c2 = c.add(email, code, name, variant_code, variant_name, price, qty, now);
    lemma_find(c, email, code, variant_key(variant_code));
    match c.find(email, code, variant_key(variant_code)) {
        Some(i) => {
            assert forall|a: int, b: int| 0 <= a < b < c2.lines.len() implies c2.lines[a].id != c2.lines[b].id
                && !same_key(c2.lines[a], c2.lines[b]) by {
                assert(c2.lines[a].id == c.lines[a].id && c2.lines[b].id == c.lines[b].id);
                assert(same_key(c2.lines[a], c2.lines[b]) == same_key(c.lines[a], c.lines[b]));
            }
            assert forall|a: int| 0 <= a < c2.lines.len() implies #[trigger] c2.lines[a].id < c2.next_id by {
                assert(c2.lines[a].id == c.lines[a].id);
            }
        },
        None => {
            let n = c.lines.len();
            assert forall|a: int, b: int| 0 <= a < b < c2.lines.len() implies c2.lines[a].id != c2.lines[b].id
                && !same_key(c2.lines[a], c2.lines[b]) by {
                if b == n {
                    assert(c2.lines[a] == c.lines[a]);
                    assert(c.lines[a].id < c.next_id);
                    assert(!line_is(c.lines[a], email, code, variant_key(variant_code)));
                } else {
                    assert(c2.lines[a] == c.lines[a] && c2.lines[b] == c.lines[b]);
                }
            }
            assert forall|a: int| 0 <= a < c2.lines.len() implies #[trigger] c2.lines[a].id < c2.next_id by {
                if a < n {
                    assert(c2.lines[a] == c.lines[a]);
                }
            }
        },
    }
}

// ---------------------------------------------------------------------------
// Laws
// ---------------------------------------------------------------------------

/// Law: adding, deleting and clearing keep the cart well formed — in
/// particular no account ever has two lines for the same product and
/// variant.
pub proof fn law_cart_keeps_invariant(
    c: CartView,
    email: Seq<char>,
    code: Seq<char>,
    name: Seq<char>,
    variant_code: Option<Seq<char>>,
    variant_name: Option<Seq<char>>,
    price: int,
    qty: int,
    now: Seq<char>,
    id: int,
)
    requires
        c.wf(),
    ensures
        c.add(email, code, name, variant_code, variant_name, price, qty, now).wf(),
        c.delete(id, email).wf(),
        c.clear(email).wf(),
{
    lemma_add_keeps_wf(c, email, code, name, variant_code, variant_name, price, qty, now);
    lemma_retain_keeps_wf(c, |l: LineView| !(l.id == id && l.email == email));
    lemma_retain_keeps_wf(c, |l: LineView| l.email != email);
}

/// Law: adding the same product and variant twice gives one line whose
/// quantity is the sum of both, not two lines.
pub proof fn law_cart_add_merges(
    c: CartView,
    email: Seq<char>,
    code: Seq<char>,
    name: Seq<char>,
    variant_code: Option<Seq<char>>,
    variant_name: Option<Seq<char>>,
    price: int,
    q1: int,
    q2: int,
    now: Seq<char>,
)
    requires
        c.wf(),
        c.find(email, code, variant_key(variant_code)) is None,
    ensures
        ({
            let c1 = c.add(email, code, name, variant_code, variant_name, price, q1, now);
            let c2 = c1.add(email, code, name, variant_code, variant_name, price, q2, now);
            &&& c2.lines.len() == c.lines.len() + 1
            &&& c2.find(email, code, variant_key(variant_code)) == Some(c.lines.len() as int)
            &&& c2.lines[c.lines.len() as int].quantity == q1 + q2
        }),
{
    let c1 = c.add(email, code, name, variant_code, variant_name, price, q1, now);
    lemma_add_keeps_wf(c, email, code, name, variant_code, variant_name, price, q1, now);
    let n = c.lines.len() as int;
    assert(line_is(c1.lines[n], email, code, variant_key(variant_code)));
    let i = c1.find(email, code, variant_key(variant_code)).unwrap();
    if i != n {
        assert(i < n);
        assert(c1.lines[i] == c.lines[i]);
    }
    let c2 = c1.add(email, code, name, variant_code, variant_name, price, q2, now);
    lemma_add_keeps_wf(c1, email, code, name, variant_code, variant_name, price, q2, now);
    assert(line_is(c2.lines[n], email, code, variant_key(variant_code)));
    let j = c2.find(email, code, variant_key(variant_code)).unwrap();
    if j != n {
        assert(c2.lines[j] == c1.lines[j]);
        assert(c1.lines[j] == c.lines[j]);
    }
}

/// Law: clearing the cart of an account leaves none of its lines and every
/// line of the other accounts as it was; deleting a line never touches the
/// lines of other accounts.
pub proof fn law_cart_removal_scoped(c: CartView, email: Seq<char>, other: Seq<char>, id: int)
    requires
        email != other,
    ensures
        c.clear(email).lines_of(email).len() == 0,
        c.clear(email).lines_of(other) == c.lines_of(other),
        c.delete(id, email).lines_of(other) == c.lines_of(other),
{
    let p_clear = |l: LineView| l.email != email;
    let p_del = |l: LineView| !(l.id == id && l.email == email);
    let q_other = |l: LineView| l.email == other;
    let q_mine = |l: LineView| l.email == email;
    lemma_retain_retain(c.lines, p_clear, q_other);
    lemma_retain_retain(c.lines, p_del, q_other);
    let rc = retain(c.lines, p_clear);
    lemma_retain_all(c.lines, p_clear, |l: LineView| true);
    let r = retain(rc, q_mine);
    lemma_retain_all(rc, q_mine, |l: LineView| true);
    if r.len() > 0 {
        assert(q_mine(r[0]));
        assert(r[0].email == email);
        assert forall|i: int| 0 <= i < rc.len() implies #[trigger] p_clear(rc[i]) by {}
        lemma_retain_all(rc, q_mine, p_clear);
        assert(p_clear(r[0]));
    }
}

// ---------------------------------------------------------------------------
// Executable decisions
// ---------------------------------------------------------------------------

/// What adding to the cart writes.
pub enum CartChange {
    /// The existing line `id` gets `by` more.
    Increase { id: i64, by: i64 },
    /// A new line is made.
    Insert {
        product_code: String,
        product_name: String,
        variant_code: Option<String>,
        variant_name: Option<String>,
        price: i64,
        quantity: i64,
    },
}

/// The variant key of a request: its variant code, or empty.
pub fn request_variant_key(variant_code: &Option<String>) -> (r: String)
    ensures
        r@ == variant_key(opt_view(*variant_code)),
{
    match variant_code {
        Some(v) => v.clone(),
        None => String::new(),
    }
}

/// The change that `plan_add_to_cart` decides for a lookup result and a
/// request.
pub open spec fn plan_of(existing: Option<i64>, req: AddCartRequest, r: CartChange) -> bool {
    match existing {
        Some(id) => r == CartChange::Increase { id, by: requested_quantity(req.quantity) as i64 },
        None => r matches CartChange::Insert { product_code, product_name, variant_code, variant_name, price, quantity }
            && product_code@ == req.product_code@ && product_name@ == req.product_name@
            && opt_view(variant_code) == opt_view(req.variant_code) && opt_view(variant_name)
            == opt_view(req.variant_name) && price == req.price && quantity == requested_quantity(req.quantity),
    }
}

/// What adding to the cart writes, given the id of the line that already
/// holds this product and variant for the account (if the lookup found one):
/// that line grows by the requested quantity (1 when none is named);
/// otherwise a new line is made.
pub fn plan_add_to_cart(existing: Option<i64>, req: AddCartRequest) -> (r: CartChange)
    ensures
        plan_of(existing, req, r),
{
    let qty = match req.quantity {
        Some(q) => q,
        None => 1,
    };
    match existing {
        Some(id) => CartChange::Increase { id, by: qty },
        None => CartChange::Insert {
            product_code: req.product_code,
            product_name: req.product_name,
            variant_code: req.variant_code,
            variant_name: req.variant_name,
            price: req.price,
            quantity: qty,
        },
    }
}

/// The cart table after the server wrote `change` for `email`, stamping a
/// new line with `now`: an increase adds to the quantity of the line with
/// that id; an insert appends a line with the next id.
pub open spec fn apply_change(c: CartView, email: Seq<char>, change: CartChange, now: Seq<char>) -> CartView {
    match change {
        CartChange::Increase { id, by } => CartView {
            lines: c.lines.map_values(
                |l: LineView|
                    if l.id == id as int {
                        LineView { quantity: l.quantity + by, ..l }
                    } else {
                        l
                    },
            ),
            ..c
        },
        CartChange::Insert { product_code, product_name, variant_code, variant_name, price, quantity } =>
            CartView {
            lines: c.lines.push(
                LineView {
                    id: c.next_id,
                    email,
                    product_code: product_code@,
                    product_name: product_name@,
                    variant_code: opt_view(variant_code),
                    variant_name: opt_view(variant_name),
                    price: price as int,
                    quantity: quantity as int,
                    created_at: now,
                },
            ),
            next_id: c.next_id + 1,
        },
    }
}

/// Law: the server's add-to-cart — look up the id of the account's line for
/// the product and variant, decide with `plan_add_to_cart`, write the
/// change — is the cart's `add`, so the laws on `add` speak of it.
pub proof fn law_server_add_is_model_add(
    c: CartView,
    email: Seq<char>,
    req: AddCartRequest,
    existing: Option<i64>,
    change: CartChange,
    now: Seq<char>,
)
    requires
        c.wf(),
        match (c.find(email, req.product_code@, variant_key(opt_view(req.variant_code))), existing) {
            (Some(i), Some(id)) => c.lines[i].id == id as int,
            (None, None) => true,
            _ => false,
        },
        plan_of(existing, req, change),
    ensures
        apply_change(c, email, change, now) == c.add(
            email,
            req.product_code@,
            req.product_name@,
            opt_view(req.variant_code),
            opt_view(req.variant_name),
            req.price as int,
            requested_quantity(req.quantity),
            now,
        ),
{
    lemma_find(c, email, req.product_code@, variant_key(opt_view(req.variant_code)));
    match c.find(email, req.product_code@, variant_key(opt_view(req.variant_code))) {
        Some(i) => {
            let id = existing.unwrap();
            let a = apply_change(c, email, change, now);
            let m = c.add(
                email,
                req.product_code@,
                req.product_name@,
                opt_view(req.variant_code),
                opt_view(req.variant_name),
                req.price as int,
                requested_quantity(req.quantity),
                now,
            );
            assert forall|k: int| 0 <= k < c.lines.len() && k != i implies c.lines[k].id != id as int by {
                if k < i {
                    assert(c.lines[k].id != c.lines[i].id);
                } else {
                    assert(c.lines[i].id != c.lines[k].id);
                }
            }
            assert(a.lines =~= m.lines);
        },
        None => {},
    }
}

/// Law: what the server writes for an add-to-cart request (the lookup's id,
/// then the change that `plan_add_to_cart` decides) either adds the
/// requested quantity to the one line of that account, product and variant
/// and adds no line, or appends exactly one line with the request's fields
/// and that quantity; the table keeps at most one line per account, product
/// and variant.
pub proof fn law_server_add_merges_or_inserts(
    c: CartView,
    email: Seq<char>,
    req: AddCartRequest,
    existing: Option<i64>,
    change: CartChange,
    now: Seq<char>,
)
    requires
        c.wf(),
        match (c.find(email, req.product_code@, variant_key(opt_view(req.variant_code))), existing) {
            (Some(i), Some(id)) => c.lines[i].id == id as int,
            (None, None) => true,
            _ => false,
        },
        plan_of(existing, req, change),
    ensures
        ({
            let c2 = apply_change(c, email, change, now);
            let q = requested_quantity(req.quantity);
            &&& c2.wf()
            &&& match c.find(email, req.product_code@, variant_key(opt_view(req.variant_code))) {
                Some(i) => {
                    &&& c2.lines.len() == c.lines.len()
                    &&& c2.lines[i] == LineView { quantity: c.lines[i].quantity + q, ..c.lines[i] }
                    &&& forall|k: int| 0 <= k < c.lines.len() && k != i ==> c2.lines[k] == c.lines[k]
                },
                None => {
                    &&& c2.lines.len() == c.lines.len() + 1
                    &&& c2.lines.take(c.lines.len() as int) == c.lines
                    &&& c2.lines.last() == LineView {
                        id: c.next_id,
                        email,
                        product_code: req.product_code@,
                        product_name: req.product_name@,
                        variant_code: opt_view(req.variant_code),
                        variant_name: opt_view(req.variant_name),
                        price: req.price as int,
                        quantity: q,
                        created_at: now,
                    }
                },
            }
        }),
{
    law_server_add_is_model_add(c, email, req, existing, change, now);
    lemma_add_keeps_wf(
        c,
        email,
        req.product_code@,
        req.product_name@,
        opt_view(req.variant_code),
        opt_view(req.variant_name),
        req.price as int,
        requested_quantity(req.quantity),
        now,
    );
    let c2 = apply_change(c, email, change, now);
    if c.find(email, req.product_code@, variant_key(opt_view(req.variant_code))) is None {
        assert(c2.lines.take(c.lines.len() as int) =~= c.lines);
    }
}

/// The cart table, with the id the next new line gets.
pub struct Cart {
    pub lines: Vec<CartItem>,
    pub next_id: i64,
}

impl View for Cart {
    type V = CartView;

    open spec fn view(&self) -> CartView {
        CartView { lines: self.lines@.map_values(|l: CartItem| l@), next_id: self.next_id as int }
    }
}

impl Cart {
    /// An empty cart table.
    pub fn new() -> (c: Cart)
        ensures
            c@.lines.len() == 0,
            c@.wf(),
    {
        Cart { lines: Vec::new(), next_id: 1 }
    }

    /// The position of the line of `email` for `code` and the variant key
    /// `variant`.
    pub fn find(&self, email: &str, code: &str, variant: &str) -> (r: Option<usize>)
        requires
            self@.wf(),
        ensures
            match r {
                Some(i) => self@.find(email@, code@, variant@) == Some(i as int),
                None => self@.find(email@, code@, variant@) is None,
            },
    {
        let n = self.lines.len();
        for i in 0..n
            invariant
                n == self.lines@.len(),
                self@.wf(),
                forall|j: int| 0 <= j < i ==> !line_is(self@.lines[j], email@, code@, variant@),
        {
            let l = &self.lines[i];
            assert(self@.lines[i as int] == l@);
            let vk = request_variant_key(&l.variant_code);
            if str_eq(l.email.as_str(), email) && str_eq(l.product_code.as_str(), code) && str_eq(
                vk.as_str(),
                variant,
            ) {
                proof {
                    let c = choose|k: int| 0 <= k < self@.lines.len() && line_is(self@.lines[k], email@, code@, variant@);
                    if c > i {
                        assert(same_key(self@.lines[i as int], self@.lines[c]));
                    }
                }
                return Some(i);
            }
        }
        None
    }

    /// Adds the request to the cart of `email`, stamping a new line with
    /// `now`.
    pub fn add(&mut self, email: &str, req: AddCartRequest, now: String) -> (r: CartChange)
        requires
            old(self)@.wf(),
            old(self).next_id < i64::MAX,
            match old(self)@.find(email@, req.product_code@, variant_key(opt_view(req.variant_code))) {
                Some(i) => i64::MIN <= old(self)@.lines[i].quantity + requested_quantity(req.quantity) <= i64::MAX,
                None => true,
            },
        ensures
            final(self)@ == old(self)@.add(
                email@,
                req.product_code@,
                req.product_name@,
                opt_view(req.variant_code),
                opt_view(req.variant_name),
                req.price as int,
                requested_quantity(req.quantity),
                now@,
            ),
            final(self)@.wf(),
    {
        proof {
            lemma_add_keeps_wf(
                self@,
                email@,
                req.product_code@,
                req.product_name@,
                opt_view(req.variant_code),
                opt_view(req.variant_name),
                req.price as int,
                requested_quantity(req.quantity),
                now@,
            );
        }
        let ghost target = self@.add(
            email@,
            req.product_code@,
            req.product_name@,
            opt_view(req.variant_code),
            opt_view(req.variant_name),
            req.price as int,
            requested_quantity(req.quantity),
            now@,
        );
        let ghost old_v = self@;
        let vk = request_variant_key(&req.variant_code);
        let found = self.find(email, req.product_code.as_str(), vk.as_str());
        let existing = match found {
            Some(i) => Some(self.lines[i].id),
            None => None,
        };
        let change = plan_add_to_cart(existing, req);
        match &change {
            CartChange::Increase { id: _, by } => {
                let i = found.unwrap();
                let old_line = &self.lines[i];
                assert(old_v.lines[i as int] == old_line@);
                let updated = CartItem {
                    id: old_line.id,
                    email: old_line.email.clone(),
                    product_code: old_line.product_code.clone(),
                    product_name: old_line.product_name.clone(),
                    variant_code: old_line.variant_code.clone(),
                    variant_name: old_line.variant_name.clone(),
                    price: old_line.price,
                    quantity: old_line.quantity + *by,
                    created_at: old_line.created_at.clone(),
                };
                self.lines.set(i, updated);
                assert(self@.lines =~= target.lines);
            },
            CartChange::Insert {
                product_code,
                product_name,
                variant_code,
                variant_name,
                price,
                quantity,
            } => {
                let line = CartItem {
                    id: self.next_id,
                    email: String::from_str(email),
                    product_code: product_code.clone(),
                    product_name: product_name.clone(),
                    variant_code: variant_code.clone(),
                    variant_name: variant_name.clone(),
                    price: *price,
                    quantity: *quantity,
                    created_at: now,
                };
                self.lines.push(line);
                self.next_id = self.next_id + 1;
                assert(self@.lines =~= target.lines);
            },
        }
        change
    }

    /// Copies of the lines that the selector `sel` keeps for `email`, in
    /// order.
    fn retained(&self, sel: LineSelector, email: &str) -> (r: Vec<CartItem>)
        ensures
            r@.map_values(|l: CartItem| l@) == retain(self@.lines, selects(sel, email@)),
    {
        let mut out: Vec<CartItem> = Vec::new();
        let n = self.lines.len();
        let ghost lv = self@.lines;
        for i in 0..n
            invariant
                n == self.lines@.len(),
                lv == self@.lines,
                out@.map_values(|l: CartItem| l@) == retain(lv.take(i as int), selects(sel, email@)),
        {
            let l = &self.lines[i];
            assert(lv.take(i + 1).drop_last() =~= lv.take(i as int));
            assert(lv.take(i + 1).last() == l@);
            let mine = str_eq(l.email.as_str(), email);
            let keep = match sel {
                LineSelector::AllBut(id) => !(l.id == id && mine),
                LineSelector::NotOwned => !mine,
                LineSelector::Owned => mine,
            };
            let ghost before = out@;
            if keep {
                out.push(l.copied());
                assert(out@.map_values(|l: CartItem| l@) =~= before.map_values(|l: CartItem| l@).push(l@));
            }
        }
        assert(lv.take(n as int) =~= lv);
        out
    }

    /// Removes the line `id` of `email`; a line of another account is left
    /// alone.
    pub fn delete(&mut self, id: i64, email: &str)
        requires
            old(self)@.wf(),
        ensures
            final(self)@ == old(self)@.delete(id as int, email@),
            final(self)@.wf(),
    {
        proof {
            law_cart_keeps_invariant(self@, email@, Seq::empty(), Seq::empty(), None, None, 0, 0, Seq::empty(), id as int);
        }
        let kept = self.retained(LineSelector::AllBut(id), email);
        self.lines = kept;
        assert(selects(LineSelector::AllBut(id), email@) == (|l: LineView| !(l.id == id as int && l.email == email@)));
    }

    /// Removes every line of `email`.
    pub fn clear(&mut self, email: &str)
        requires
            old(self)@.wf(),
        ensures
            final(self)@ == old(self)@.clear(email@),
            final(self)@.wf(),
    {
        proof {
            law_cart_keeps_invariant(self@, email@, Seq::empty(), Seq::empty(), None, None, 0, 0, Seq::empty(), 0);
        }
        let kept = self.retained(LineSelector::NotOwned, email);
        self.lines = kept;
        assert(selects(LineSelector::NotOwned, email@) == (|l: LineView| l.email != email@));
    }

    /// The lines of `email`, in order.
    pub fn lines_of(&self, email: &str) -> (r: Vec<CartItem>)
        ensures
            r@.map_values(|l: CartItem| l@) == self@.lines_of(email@),
    {
        let r = self.retained(LineSelector::Owned, email);
        assert(selects(LineSelector::Owned, email@) == (|l: LineView| l.email == email@));
        r
    }
}

/// Which lines a filter keeps.
#[derive(PartialEq, Eq, Structural, Clone, Copy, Debug)]
pub enum LineSelector {
    /// All but the line with this id of the account.
    AllBut(i64),
    /// The lines of other accounts.
    NotOwned,
    /// The lines of the account.
    Owned,
}

/// The test of a line selector for the account `email`.
pub open spec fn selects(sel: LineSelector, email: Seq<char>) -> spec_fn(LineView) -> bool {
    match sel {
        LineSelector::AllBut(id) => |l: LineView| !(l.id == id as int && l.email == email),
        LineSelector::NotOwned => |l: LineView| l.email != email,
        LineSelector::Owned => |l: LineView| l.email == email,
    }
}

impl CartItem {
    /// A copy of this line.
    pub fn copied(&self) -> (r: CartItem)
        ensures
            r@ == self@,
    {
        CartItem {
            id: self.id,
            email: self.email.clone(),
            product_code: self.product_code.clone(),
            product_name: self.product_name.clone(),
            variant_code: self.variant_code.clone(),
            variant_name: self.variant_name.clone(),
            price: self.price,
            quantity: self.quantity,
            created_at: self.created_at.clone(),
        }
    }
}

} // verus!
