//! The status of a paid order: read from the text that the bot's status
//! scripts print (Portal Pulsa, The SSL Store) or from KoalaStore's order
//! list.

use vstd::prelude::*;
use crate::text::{
    after_last, contains_chars, occurs_at, find_sub, first_occurrence, from_chars, has_sub, is_space,
    remove_char, slice_chars, space, split_last, starts_with, starts_with_chars, str_eq, to_chars,
    trim, trim_chars, without_char,
};

verus! {

broadcast use vstd::string::group_string_axioms;

/// The state of an order as the client is told it.
#[derive(PartialEq, Eq, Structural, Clone, Copy, Debug)]
pub enum OrderState {
    Pending,
    Paid,
    Failed,
    Processing,
}

/// The text of an order state.
pub open spec fn state_text(s: OrderState) -> Seq<char> {
    match s {
        OrderState::Pending => "pending"@,
        OrderState::Paid => "paid"@,
        OrderState::Failed => "failed"@,
        OrderState::Processing => "processing"@,
    }
}

/// The text of an order state.
pub fn state_to_string(s: OrderState) -> (r: String)
    ensures
        r@ == state_text(s),
{
    match s {
        OrderState::Pending => String::from_str("pending"),
        OrderState::Paid => String::from_str("paid"),
        OrderState::Failed => String::from_str("failed"),
        OrderState::Processing => String::from_str("processing"),
    }
}

/// What the client is told about an order (the amount is added from the
/// stored transaction).
pub struct OrderStatus {
    pub status: OrderState,
    pub message: String,
    pub sn: Option<String>,
    pub link: Option<String>,
    pub stock_data: Option<String>,
}

// ---------------------------------------------------------------------------
// Markers in the status scripts' output
// ---------------------------------------------------------------------------

/// Marks a Portal Pulsa payment that went through.
pub open spec fn pulsa_paid_mark() -> Seq<char> {
    "𝗣𝗘𝗠𝗕𝗔𝗬𝗔𝗥𝗔𝗡 𝗗𝗜𝗧𝗘𝗥𝗜𝗠𝗔 & 𝗦𝗨𝗞𝗦𝗘𝗦"@
}

/// Marks an SSL Store payment that went through.
pub open spec fn ssl_paid_mark() -> Seq<char> {
    "𝗣𝗘𝗠𝗕𝗔𝗬𝗔𝗥𝗔𝗡 𝗗𝗜𝗧𝗘𝗥𝗜𝗠𝗔"@
}

/// Starts the part of the output that is meant for the customer.
pub open spec fn caption_mark() -> Seq<char> {
    "CAPTION:"@
}

/// Marks a failed transaction.
pub open spec fn failed_mark() -> Seq<char> {
    "[x] Transaksi Gagal"@
}

/// Marks a transaction still in progress.
pub open spec fn processing_mark() -> Seq<char> {
    "[*] Transaksi Sedang Diproses"@
}

/// Heads the serial number (or voucher) section of a Portal Pulsa output.
pub open spec fn serial_mark() -> Seq<char> {
    "— 𝘀 𝗻 / 𝘃 𝗼 𝘂 𝗰 𝗵 𝗲 𝗲 𝗿 🌟 :"@
}

/// The state that a status output reports, given the marker of a payment
/// that went through.
pub open spec fn output_state(m: Seq<char>, paid_mark: Seq<char>) -> OrderState {
    if has_sub(m, paid_mark) || has_sub(m, caption_mark()) {
        OrderState::Paid
    } else if has_sub(m, failed_mark()) {
        OrderState::Failed
    } else if has_sub(m, processing_mark()) {
        OrderState::Processing
    } else {
        OrderState::Pending
    }
}

/// The second line of `s` as `str::lines` yields it (up to its line break;
/// a carriage return before the break is kept here, which the callers trim
/// away), or `None` when `s` has fewer than two lines.
pub open spec fn second_line(s: Seq<char>) -> Option<Seq<char>> {
    if has_sub(s, seq!['\n']) {
        let p = choose|p: int| first_occurrence(s, seq!['\n'], p);
        let rest = s.skip(p + 1);
        if rest.len() == 0 {
            None
        } else if has_sub(rest, seq!['\n']) {
            let q = choose|q: int| first_occurrence(rest, seq!['\n'], q);
            Some(rest.take(q))
        } else {
            Some(rest)
        }
    } else {
        None
    }
}

/// The serial number in a Portal Pulsa output: the line after the serial
/// heading, without `*` and trimmed; `Sukses dikirim!` when there is none.
pub open spec fn serial_number(m: Seq<char>) -> Seq<char> {
    if has_sub(m, serial_mark()) {
        let i = choose|i: int| first_occurrence(m, serial_mark(), i);
        match second_line(m.skip(i)) {
            Some(l) => trim(without_char(l, '*')),
            None => "Sukses dikirim!"@,
        }
    } else {
        "Sukses dikirim!"@
    }
}

/// `i` starts a white-space separated word of `s`.
pub open spec fn word_start(s: Seq<char>, i: int) -> bool {
    &&& 0 <= i < s.len()
    &&& !is_space(s[i])
    &&& (i == 0 || is_space(s[i - 1]))
}

/// Where the word that includes position `i` ends.
pub open spec fn word_end(s: Seq<char>, i: int) -> int
    decreases s.len() - i,
{
    if i < 0 || i >= s.len() || is_space(s[i]) {
        i
    } else {
        word_end(s, i + 1)
    }
}

/// The word starting at `i` is a web link.
pub open spec fn link_at(s: Seq<char>, i: int) -> bool {
    &&& word_start(s, i)
    &&& (starts_with(s.subrange(i, word_end(s, i)), "http://"@) || starts_with(
        s.subrange(i, word_end(s, i)),
        "https://"@,
    ))
}

/// The first word of `s` that is a web link (`split_whitespace` then the
/// first word starting with `http://` or `https://`).
pub open spec fn first_link(s: Seq<char>) -> Option<Seq<char>> {
    if exists|i: int| link_at(s, i) && forall|j: int| 0 <= j < i ==> !link_at(s, j) {
        let i = choose|i: int| link_at(s, i) && forall|j: int| 0 <= j < i ==> !link_at(s, j);
        Some(s.subrange(i, word_end(s, i)))
    } else {
        None
    }
}

/// What a Portal Pulsa status output reports: its state, the serial number
/// when paid, and the customer part of the text.
pub open spec fn pulsa_report(out: Seq<char>) -> (OrderState, Option<Seq<char>>, Seq<char>) {
    let m = trim(out);
    let st = output_state(m, pulsa_paid_mark());
    (
        st,
        if st == OrderState::Paid {
            Some(serial_number(m))
        } else {
            None
        },
        after_last(m, caption_mark()),
    )
}

/// What an SSL Store status output reports: its state, the first link when
/// paid, and the customer part of the text.
pub open spec fn ssl_report(out: Seq<char>) -> (OrderState, Option<Seq<char>>, Seq<char>) {
    let m = trim(out);
    let st = output_state(m, ssl_paid_mark());
    (
        st,
        if st == OrderState::Paid {
            first_link(m)
        } else {
            None
        },
        after_last(m, caption_mark()),
    )
}

// ---------------------------------------------------------------------------
// Reading the outputs
// ---------------------------------------------------------------------------

fn state_of_output(m: &[char], paid_mark: &str) -> (r: OrderState)
    ensures
        r == output_state(m@, paid_mark@),
{
    let paid = to_chars(paid_mark);
    let cap = to_chars("CAPTION:");
    let failed = to_chars("[x] Transaksi Gagal");
    let processing = to_chars("[*] Transaksi Sedang Diproses");
    if contains_chars(m, paid.as_slice()) || contains_chars(m, cap.as_slice()) {
        OrderState::Paid
    } else if contains_chars(m, failed.as_slice()) {
        OrderState::Failed
    } else if contains_chars(m, processing.as_slice()) {
        OrderState::Processing
    } else {
        OrderState::Pending
    }
}

proof fn first_occurrence_unique(s: Seq<char>, sub: Seq<char>, a: int, b: int)
    requires
        first_occurrence(s, sub, a),
        first_occurrence(s, sub, b),
    ensures
        a == b,
{
}

/// The second line of `s` (see `second_line`).
fn second_line_of(s: &[char]) -> (r: Option<Vec<char>>)
    ensures
        match (r, second_line(s@)) {
            (Some(a), Some(b)) => a@ == b,
            (None, None) => true,
            _ => false,
        },
{
    let nl = vec!['\n'];
    assert(nl@ == seq!['\n']);
    match find_sub(s, nl.as_slice()) {
        None => None,
        Some(p) => {
            proof {
                let c = choose|c: int| first_occurrence(s@, seq!['\n'], c);
                first_occurrence_unique(s@, seq!['\n'], c, p as int);
                assert(occurs_at(s@, nl@, p as int));
            }
            let sl = s.len();
            assert(p + 1 <= sl);
            let rest = slice_chars(s, p + 1, sl);
            assert(rest@ =~= s@.skip(p + 1));
            if rest.len() == 0 {
                return None;
            }
            match find_sub(rest.as_slice(), nl.as_slice()) {
                Some(q) => {
                    proof {
                        let c = choose|c: int| first_occurrence(rest@, seq!['\n'], c);
                        first_occurrence_unique(rest@, seq!['\n'], c, q as int);
                    }
                    let line = slice_chars(rest.as_slice(), 0, q);
                    assert(line@ =~= rest@.take(q as int));
                    Some(line)
                },
                None => Some(rest),
            }
        },
    }
}

/// The serial number in a (trimmed) Portal Pulsa output.
fn serial_of(m: &[char]) -> (r: Vec<char>)
    ensures
        r@ == serial_number(m@),
{
    let mark = to_chars("— 𝘀 𝗻 / 𝘃 𝗼 𝘂 𝗰 𝗵 𝗲 𝗲 𝗿 🌟 :");
    match find_sub(m, mark.as_slice()) {
        Some(i) => {
            proof {
                let c = choose|c: int| first_occurrence(m@, serial_mark(), c);
                first_occurrence_unique(m@, serial_mark(), c, i as int);
            }
            let sub = slice_chars(m, i, m.len());
            assert(sub@ =~= m@.skip(i as int));
            match second_line_of(sub.as_slice()) {
                Some(line) => {
                    let no_star = remove_char(line.as_slice(), '*');
                    trim_chars(no_star.as_slice())
                },
                None => to_chars("Sukses dikirim!"),
            }
        },
        None => to_chars("Sukses dikirim!"),
    }
}

/// Where the word at `i` ends.
fn word_end_at(s: &[char], i: usize) -> (j: usize)
    requires
        i <= s@.len(),
    ensures
        j as int == word_end(s@, i as int),
        i <= j <= s@.len(),
{
    let n = s.len();
    let mut j = i;
    while j < n && !space(s[j])
        invariant
            n == s@.len(),
            i <= j <= n,
            word_end(s@, i as int) == word_end(s@, j as int),
        decreases n - j,
    {
        j = j + 1;
    }
    j
}

/// The first web link among the words of `m`.
fn link_of(m: &[char]) -> (r: Option<Vec<char>>)
    ensures
        match (r, first_link(m@)) {
            (Some(a), Some(b)) => a@ == b,
            (None, None) => true,
            _ => false,
        },
{
    let http = to_chars("http://");
    let https = to_chars("https://");
    let n = m.len();
    for i in 0..n
        invariant
            n == m@.len(),
            http@ == "http://"@,
            https@ == "https://"@,
            forall|j: int| 0 <= j < i ==> !link_at(m@, j),
    {
        let starts = !space(m[i]) && (i == 0 || space(m[i - 1]));
        if starts {
            let e = word_end_at(m, i);
            let word = slice_chars(m, i, e);
            if starts_with_chars(word.as_slice(), http.as_slice()) || starts_with_chars(
                word.as_slice(),
                https.as_slice(),
            ) {
                proof {
                    assert(link_at(m@, i as int));
                    let c = choose|c: int| link_at(m@, c) && forall|j: int| 0 <= j < c ==> !link_at(m@, j);
                    if c < i {
                    } else if c > i {
                        assert(!link_at(m@, i as int));
                    }
                }
                return Some(word);
            }
        }
        assert(!link_at(m@, i as int));
    }
    proof {
        if exists|c: int| link_at(m@, c) && forall|j: int| 0 <= j < c ==> !link_at(m@, j) {
            let c = choose|c: int| link_at(m@, c) && forall|j: int| 0 <= j < c ==> !link_at(m@, j);
            assert(word_start(m@, c));
        }
    }
    None
}

/// Reads the output of the Portal Pulsa status script: the state, the serial
/// number when paid, and the text after the last `CAPTION:` as the message.
pub fn parse_pulsa_output(out: &str) -> (r: OrderStatus)
    ensures
        ({
            let (st, sn, msg) = pulsa_report(out@);
            &&& r.status == st
            &&& match (r.sn, sn) {
                (Some(a), Some(b)) => a@ == b,
                (None, None) => true,
                _ => false,
            }
            &&& r.message@ == msg
            &&& r.link is None
            &&& r.stock_data is None
        }),
{
    let raw = to_chars(out);
    let m = trim_chars(raw.as_slice());
    let status = state_of_output(m.as_slice(), "𝗣𝗘𝗠𝗕𝗔𝗬𝗔𝗥𝗔𝗡 𝗗𝗜𝗧𝗘𝗥𝗜𝗠𝗔 & 𝗦𝗨𝗞𝗦𝗘𝗦");
    let sn = if status == OrderState::Paid {
        let s = serial_of(m.as_slice());
        Some(from_chars(s.as_slice()))
    } else {
        None
    };
    let cap = to_chars("CAPTION:");
    let msg = split_last(m.as_slice(), cap.as_slice());
    OrderStatus { status, message: from_chars(msg.as_slice()), sn, link: None, stock_data: None }
}

/// Reads the output of the SSL Store status script: the state, the first web
/// link when paid, and the text after the last `CAPTION:` as the message.
pub fn parse_ssl_output(out: &str) -> (r: OrderStatus)
    ensures
        ({
            let (st, link, msg) = ssl_report(out@);
            &&& r.status == st
            &&& match (r.link, link) {
                (Some(a), Some(b)) => a@ == b,
                (None, None) => true,
                _ => false,
            }
            &&& r.message@ == msg
            &&& r.sn is None
            &&& r.stock_data is None
        }),
{
    let raw = to_chars(out);
    let m = trim_chars(raw.as_slice());
    let status = state_of_output(m.as_slice(), "𝗣𝗘𝗠𝗕𝗔𝗬𝗔𝗥𝗔𝗡 𝗗𝗜𝗧𝗘𝗥𝗜𝗠𝗔");
    let link = if status == OrderState::Paid {
        match link_of(m.as_slice()) {
            Some(w) => Some(from_chars(w.as_slice())),
            None => None,
        }
    } else {
        None
    };
    let cap = to_chars("CAPTION:");
    let msg = split_last(m.as_slice(), cap.as_slice());
    OrderStatus { status, message: from_chars(msg.as_slice()), sn: None, link, stock_data: None }
}

// ---------------------------------------------------------------------------
// KoalaStore orders
// ---------------------------------------------------------------------------

/// An order of KoalaStore's order list, read into plain values: its id, its
/// status, and for each item the `dataStock` of each of its stock entries.
pub struct KoalaOrder {
    pub transaction_id: Option<String>,
    pub status: Option<String>,
    pub items: Option<Vec<Option<Vec<Option<String>>>>>,
}

/// The order is the one with id `trx`.
pub open spec fn is_order(o: KoalaOrder, trx: Seq<char>) -> bool {
    o.transaction_id matches Some(t) && t@ == trx
}

/// The delivered stock of an order: the first stock entry of its first item.
pub open spec fn first_stock(o: KoalaOrder) -> Option<Seq<char>> {
    match o.items {
        Some(v) => if v@.len() > 0 {
            match v@[0] {
                Some(list) => if list@.len() > 0 {
                    match list@[0] {
                        Some(s) => Some(s@),
                        None => None,
                    }
                } else {
                    None
                },
                None => None,
            }
        } else {
            None
        },
        None => None,
    }
}

/// The state and stock reported for `trx` by KoalaStore's order list: the
/// first order with that id decides (`paid` with its stock, `pending`, or
/// anything else as failed); without such an order it is pending.
pub open spec fn koala_report(orders: Seq<KoalaOrder>, trx: Seq<char>) -> (OrderState, Option<Seq<char>>) {
    if exists|i: int| 0 <= i < orders.len() && is_order(orders[i], trx) && forall|j: int| 0 <= j < i ==> !is_order(orders[j], trx) {
        let i = choose|i: int| 0 <= i < orders.len() && is_order(orders[i], trx) && forall|j: int| 0 <= j < i ==> !is_order(orders[j], trx);
        let o = orders[i];
        let raw = match o.status {
            Some(s) => s@,
            None => "pending"@,
        };
        if raw == "paid"@ {
            (OrderState::Paid, first_stock(o))
        } else if raw == "pending"@ {
            (OrderState::Pending, None)
        } else {
            (OrderState::Failed, None)
        }
    } else {
        (OrderState::Pending, None)
    }
}

fn stock_of(o: &KoalaOrder) -> (r: Option<String>)
    ensures
        match (r, first_stock(*o)) {
            (Some(a), Some(b)) => a@ == b,
            (None, None) => true,
            _ => false,
        },
{
    match &o.items {
        Some(v) => {
            if v.len() > 0 {
                match &v[0] {
                    Some(list) => {
                        if list.len() > 0 {
                            match &list[0] {
                                Some(s) => Some(s.clone()),
                                None => None,
                            }
                        } else {
                            None
                        }
                    },
                    None => None,
                }
            } else {
                None
            }
        },
        None => None,
    }
}

/// The status of the KoalaStore order `trx`, read from the order list that
/// KoalaStore returned for it.
pub fn koala_order_status(orders: &Vec<KoalaOrder>, trx: &str) -> (r: OrderStatus)
    ensures
        ({
            let (st, stock) = koala_report(orders@, trx@);
            &&& r.status == st
            &&& match (r.stock_data, stock) {
                (Some(a), Some(b)) => a@ == b,
                (None, None) => true,
                _ => false,
            }
            &&& r.message@ == "Order data retrieved successfully"@
            &&& r.sn is None
            &&& r.link is None
        }),
{
    let n = orders.len();
    for i in 0..n
        invariant
            n == orders@.len(),
            forall|j: int| 0 <= j < i ==> !is_order(orders@[j], trx@),
    {
        let o = &orders[i];
        let found = match &o.transaction_id {
            Some(t) => str_eq(t.as_str(), trx),
            None => false,
        };
        if found {
            proof {
                assert(is_order(orders@[i as int], trx@));
                assert(0 <= i < orders@.len() && is_order(orders@[i as int], trx@) && forall|j: int| 0 <= j < i ==> !is_order(orders@[j], trx@));
                let c = choose|c: int| 0 <= c < orders@.len() && is_order(orders@[c], trx@) && forall|j: int| 0 <= j < c ==> !is_order(orders@[j], trx@);
                if c > i {
                    assert(!is_order(orders@[i as int], trx@));
                }
                assert(c == i);
            }
            let (status, stock) = match &o.status {
                Some(s) => {
                    if str_eq(s.as_str(), "paid") {
                        (OrderState::Paid, stock_of(o))
                    } else if str_eq(s.as_str(), "pending") {
                        (OrderState::Pending, None)
                    } else {
                        (OrderState::Failed, None)
                    }
                },
                None => (OrderState::Pending, None),
            };
            proof {
                reveal_strlit("paid");
                reveal_strlit("pending");
                // The two texts differ in length, so they differ.
                assert("pending"@.len() == 7);
                assert("paid"@.len() == 4);
                let o_spec = orders@[i as int];
                assert(*o == o_spec);
                assert(koala_report(orders@, trx@).0 == status);
            }
            return OrderStatus {
                status,
                message: String::from_str("Order data retrieved successfully"),
                sn: None,
                link: None,
                stock_data: stock,
            };
        }
    }
    OrderStatus {
        status: OrderState::Pending,
        message: String::from_str("Order data retrieved successfully"),
        sn: None,
        link: None,
        stock_data: None,
    }
}

/// Law: the status text of the first order with the id `trx` decides what
/// is reported: `paid` is paid, with the first stock entry of its first
/// item; `pending`, or no status at all, is pending; any other text is
/// failed. Only a paid order carries stock.
pub proof fn law_koala_status_text(orders: Seq<KoalaOrder>, trx: Seq<char>, i: int)
    requires
        0 <= i < orders.len(),
        orders[i].transaction_id matches Some(t) && t@ == trx,
        forall|j: int| 0 <= j < i ==> !(#[trigger] orders[j].transaction_id matches Some(t) && t@ == trx),
    ensures
        (orders[i].status matches Some(st) && st@ == "pending"@) ==> koala_report(orders, trx) == (
            OrderState::Pending,
            None::<Seq<char>>,
        ),
        orders[i].status is None ==> koala_report(orders, trx) == (OrderState::Pending, None::<Seq<char>>),
        (orders[i].status matches Some(st) && st@ == "paid"@) ==> koala_report(orders, trx) == (
            OrderState::Paid,
            first_stock(orders[i]),
        ),
        (orders[i].status matches Some(st) && st@ != "paid"@ && st@ != "pending"@) ==> koala_report(
            orders,
            trx,
        ) == (OrderState::Failed, None::<Seq<char>>),
{
    reveal_strlit("paid");
    reveal_strlit("pending");
    assert("pending"@.len() == 7);
    assert("paid"@.len() == 4);
    assert(is_order(orders[i], trx));
    let c = choose|c: int| 0 <= c < orders.len() && is_order(orders[c], trx) && forall|j: int| 0 <= j < c ==> !is_order(orders[j], trx);
    if c < i {
        assert(is_order(orders[c], trx));
    }
    if c > i {
        assert(!is_order(orders[i], trx));
    }
    assert(c == i);
}

/// Law: when no order in the list has the id `trx`, the order is reported
/// as pending, without stock.
pub proof fn law_koala_missing_order_is_pending(orders: Seq<KoalaOrder>, trx: Seq<char>)
    requires
        forall|j: int| 0 <= j < orders.len() ==> !(#[trigger] orders[j].transaction_id matches Some(t) && t@ == trx),
    ensures
        koala_report(orders, trx) == (OrderState::Pending, None::<Seq<char>>),
{
}

/// Law: the word that starts at `i` runs up to the next white space or the
/// end of the text: it is not empty, holds no white space, and is followed
/// by white space unless it ends the text.
pub proof fn law_word_extent(s: Seq<char>, i: int)
    requires
        0 <= i < s.len(),
        !is_space(s[i]),
    ensures
        i < word_end(s, i) <= s.len(),
        forall|k: int| i <= k < word_end(s, i) ==> !is_space(#[trigger] s[k]),
        word_end(s, i) == s.len() || is_space(s[word_end(s, i)]),
    decreases s.len() - i,
{
    if i + 1 < s.len() && !is_space(s[i + 1]) {
        law_word_extent(s, i + 1);
        assert forall|k: int| i <= k < word_end(s, i) implies !is_space(#[trigger] s[k]) by {
            if k > i {
                assert(i + 1 <= k < word_end(s, i + 1));
            }
        }
    } else {
        assert(word_end(s, i) == word_end(s, i + 1));
        assert(word_end(s, i + 1) == i + 1);
    }
}

/// Law: in a paid SSL Store output, the reported link is the first
/// white-space separated word of the (trimmed) output that begins with
/// `http://` or `https://`.
pub proof fn law_ssl_link_is_first_web_word(out: Seq<char>, i: int)
    requires
        output_state(trim(out), ssl_paid_mark()) == OrderState::Paid,
        word_start(trim(out), i),
        starts_with(trim(out).subrange(i, word_end(trim(out), i)), "http://"@) || starts_with(
            trim(out).subrange(i, word_end(trim(out), i)),
            "https://"@,
        ),
        forall|j: int|
            0 <= j < i && #[trigger] word_start(trim(out), j) ==> !starts_with(
                trim(out).subrange(j, word_end(trim(out), j)),
                "http://"@,
            ) && !starts_with(trim(out).subrange(j, word_end(trim(out), j)), "https://"@),
    ensures
        ssl_report(out).1 == Some(trim(out).subrange(i, word_end(trim(out), i))),
{
    let m = trim(out);
    assert(link_at(m, i));
    let c = choose|c: int| link_at(m, c) && forall|j: int| 0 <= j < c ==> !link_at(m, j);
    if c < i {
        assert(link_at(m, c));
        assert(word_start(m, c));
    }
    if c > i {
        assert(!link_at(m, i));
    }
    assert(c == i);
}

/// Law: a paid SSL Store output without any word that begins with
/// `http://` or `https://` reports no link.
pub proof fn law_ssl_no_web_word_no_link(out: Seq<char>)
    requires
        forall|j: int|
            #[trigger] word_start(trim(out), j) ==> !starts_with(
                trim(out).subrange(j, word_end(trim(out), j)),
                "http://"@,
            ) && !starts_with(trim(out).subrange(j, word_end(trim(out), j)), "https://"@),
    ensures
        ssl_report(out).1 is None,
{
    let m = trim(out);
    if exists|i: int| link_at(m, i) && forall|j: int| 0 <= j < i ==> !link_at(m, j) {
        let c = choose|c: int| link_at(m, c) && forall|j: int| 0 <= j < c ==> !link_at(m, j);
        assert(word_start(m, c));
    }
}

/// The message when KoalaStore's order list could not be used: its own
/// message, or a fixed one.
pub fn koala_failure_message(message: Option<String>) -> (r: String)
    ensures
        r@ == match message {
            Some(m) => m@,
            None => "Failed to retrieve order status"@,
        },
{
    match message {
        Some(m) => m,
        None => String::from_str("Failed to retrieve order status"),
    }
}

} // verus!
