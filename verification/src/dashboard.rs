//! The dashboard: who sees which records, how a reseller's phone number is
//! matched, and the totals shown above the tables.

use vstd::prelude::*;
use crate::text::{from_chars, is_digit, slice_chars, str_eq, to_chars};

verus! {

broadcast use vstd::string::group_string_axioms;

/// A transaction row shown on the dashboard.
pub struct TransactionRow {
    pub transaction_id: String,
    pub whatsapp_id: Option<String>,
    pub product_name: Option<String>,
    pub variant_name: Option<String>,
    pub amount: i64,
    pub created_at: String,
}

/// A reseller profit row shown on the dashboard.
pub struct ProfitRow {
    pub transaction_id: String,
    pub reseller_wa: Option<String>,
    pub profit_amount: i64,
    pub created_at: String,
}

/// Which transactions a dashboard lists.
#[derive(PartialEq, Eq, Structural, Clone, Copy, Debug)]
pub enum TransactionScope {
    /// Every transaction (administrators).
    All,
    /// The user's own ones and those that earned the reseller a profit.
    ResellerLinked,
    /// The user's own ones, by user id or email.
    Personal,
    /// None at all.
    Nothing,
}

/// Which profit and reseller rows a dashboard lists.
#[derive(PartialEq, Eq, Structural, Clone, Copy, Debug)]
pub enum PartnerScope {
    All,
    ByPhone,
    Nothing,
}

/// What a dashboard request loads.
pub struct DashboardPlan {
    pub is_admin: bool,
    pub transactions: TransactionScope,
    pub profits: PartnerScope,
    pub resellers: PartnerScope,
    /// The phone number with only its digits (empty without a phone).
    pub clean_phone: String,
    /// The `LIKE` pattern matching numbers that end in the same last nine
    /// digits (`%` and up to nine digits).
    pub suffix: String,
}

/// The digits of a phone number, in order.
pub open spec fn digits_of(s: Seq<char>) -> Seq<char>
    decreases s.len(),
{
    if s.len() == 0 {
        s
    } else if is_digit(s.last()) {
        digits_of(s.drop_last()).push(s.last())
    } else {
        digits_of(s.drop_last())
    }
}

/// The `LIKE` pattern for the last nine digits of a cleaned phone number.
pub open spec fn suffix_pattern(clean: Seq<char>) -> Seq<char> {
    if clean.len() > 9 {
        seq!['%'] + clean.skip(clean.len() - 9)
    } else {
        seq!['%'] + clean
    }
}

/// Whether the dashboard is the administrator view: asked for with scope
/// `admin`, and either the email is an administrator account or the user's
/// role is `admin`.
pub open spec fn admin_view(scope: Seq<char>, admin_accounts: Option<int>, role: Option<Seq<char>>) -> bool {
    scope == "admin"@ && ((admin_accounts matches Some(c) && c > 0) || role == Some("admin"@))
}

/// Law: cleaning a phone number keeps exactly its digits: the result holds
/// only digits, is no longer than the number, and a number of digits only
/// is kept as it is.
pub proof fn law_clean_phone_keeps_digits(s: Seq<char>)
    ensures
        forall|k: int| 0 <= k < digits_of(s).len() ==> is_digit(#[trigger] digits_of(s)[k]),
        digits_of(s).len() <= s.len(),
        (forall|k: int| 0 <= k < s.len() ==> is_digit(#[trigger] s[k])) ==> digits_of(s) == s,
    decreases s.len(),
{
    if s.len() > 0 {
        law_clean_phone_keeps_digits(s.drop_last());
        if forall|k: int| 0 <= k < s.len() ==> is_digit(#[trigger] s[k]) {
            assert forall|k: int| 0 <= k < s.drop_last().len() implies is_digit(#[trigger] s.drop_last()[k]) by {
                assert(s.drop_last()[k] == s[k]);
            }
            assert(is_digit(s[s.len() - 1]));
            assert(s.drop_last().push(s.last()) =~= s);
        }
        let d = digits_of(s.drop_last());
        if is_digit(s.last()) {
            assert forall|k: int| 0 <= k < d.push(s.last()).len() implies is_digit(#[trigger] d.push(s.last())[k]) by {
                if k < d.len() {
                    assert(d.push(s.last())[k] == d[k]);
                }
            }
        }
    }
}

/// Law: the pattern for a cleaned phone number is `%` followed by its last
/// nine digits, or by all of them when it has nine or fewer; so it is at
/// most ten characters long and ends with the number's last digits.
pub proof fn law_phone_suffix_last_nine(clean: Seq<char>)
    ensures
        suffix_pattern(clean).len() == 1 + if clean.len() > 9 {
            9
        } else {
            clean.len() as int
        },
        suffix_pattern(clean).len() <= 10,
        suffix_pattern(clean)[0] == '%',
        forall|k: int|
            0 <= k < suffix_pattern(clean).len() - 1 ==> #[trigger] suffix_pattern(clean)[suffix_pattern(
                clean,
            ).len() - 1 - k] == clean[clean.len() - 1 - k],
{
}

/// The digits of a phone number.
pub fn clean_phone(phone: &str) -> (r: String)
    ensures
        r@ == digits_of(phone@),
{
    let p = to_chars(phone);
    let mut v: Vec<char> = Vec::new();
    let n = p.len();
    for i in 0..n
        invariant
            n == p@.len(),
            p@ == phone@,
            v@ == digits_of(p@.take(i as int)),
    {
        assert(p@.take(i + 1).drop_last() =~= p@.take(i as int));
        if '0' <= p[i] && p[i] <= '9' {
            v.push(p[i]);
        }
    }
    assert(p@.take(n as int) =~= p@);
    from_chars(v.as_slice())
}

/// The `LIKE` pattern for the last nine digits of a cleaned phone number.
pub fn phone_suffix(clean: &str) -> (r: String)
    ensures
        r@ == suffix_pattern(clean@),
{
    let c = to_chars(clean);
    let mut v: Vec<char> = Vec::new();
    v.push('%');
    let n = c.len();
    let tail = if n > 9 {
        slice_chars(c.as_slice(), n - 9, n)
    } else {
        slice_chars(c.as_slice(), 0, n)
    };
    let mut i: usize = 0;
    let tn = tail.len();
    while i < tn
        invariant
            tn == tail@.len(),
            i <= tn,
            v@ == seq!['%'] + tail@.take(i as int),
        decreases tn - i,
    {
        v.push(tail[i]);
        assert(tail@.take(i + 1) == tail@.take(i as int).push(tail@[i as int]));
        i = i + 1;
    }
    assert(tail@.take(tn as int) =~= tail@);
    proof {
        if n > 9 {
            assert(tail@ =~= c@.skip(n - 9));
        } else {
            assert(tail@ =~= c@);
        }
    }
    from_chars(v.as_slice())
}

/// Whether the dashboard is the administrator view (see `admin_view`),
/// given the number of administrator accounts with the user's email and the
/// user's role, each when it could be read.
pub fn is_admin_view(scope: &str, admin_accounts: Option<i64>, role: Option<String>) -> (r: bool)
    ensures
        r == admin_view(scope@, match admin_accounts {
            Some(c) => Some(c as int),
            None => None,
        }, match role {
            Some(x) => Some(x@),
            None => None,
        }),
{
    if !str_eq(scope, "admin") {
        return false;
    }
    match admin_accounts {
        Some(c) => if c > 0 {
            return true;
        },
        None => {},
    }
    match role {
        Some(x) => str_eq(x.as_str(), "admin"),
        None => false,
    }
}

/// What a dashboard request loads: administrators see everything; other
/// users with scope `admin` see the transactions linked to them as resellers
/// (none without a phone number), others their own; profits and resellers
/// are matched by phone number when the user has one with digits.
pub fn plan_dashboard(is_admin: bool, scope: &str, phone: Option<String>) -> (r: DashboardPlan)
    ensures
        r.is_admin == is_admin,
        ({
            let clean = match phone {
                Some(p) => digits_of(p@),
                None => Seq::<char>::empty(),
            };
            let has_phone = clean.len() > 0;
            &&& r.clean_phone@ == clean
            &&& r.suffix@ == if has_phone {
                suffix_pattern(clean)
            } else {
                Seq::<char>::empty()
            }
            &&& if is_admin {
                &&& r.transactions == TransactionScope::All
                &&& r.profits == PartnerScope::All
                &&& r.resellers == PartnerScope::All
            } else {
                &&& r.transactions == if scope@ == "admin"@ {
                    if has_phone {
                        TransactionScope::ResellerLinked
                    } else {
                        TransactionScope::Nothing
                    }
                } else {
                    TransactionScope::Personal
                }
                &&& r.profits == if has_phone {
                    PartnerScope::ByPhone
                } else {
                    PartnerScope::Nothing
                }
                &&& r.resellers == r.profits
            }
        }),
{
    let clean = match phone {
        Some(p) => clean_phone(p.as_str()),
        None => String::new(),
    };
    let has_phone = clean.as_str().unicode_len() > 0;
    let suffix = if has_phone {
        phone_suffix(clean.as_str())
    } else {
        String::new()
    };
    if is_admin {
        return DashboardPlan {
            is_admin,
            transactions: TransactionScope::All,
            profits: PartnerScope::All,
            resellers: PartnerScope::All,
            clean_phone: clean,
            suffix,
        };
    }
    let transactions = if str_eq(scope, "admin") {
        if has_phone {
            TransactionScope::ResellerLinked
        } else {
            TransactionScope::Nothing
        }
    } else {
        TransactionScope::Personal
    };
    let partners = if has_phone {
        PartnerScope::ByPhone
    } else {
        PartnerScope::Nothing
    };
    DashboardPlan {
        is_admin,
        transactions,
        profits: partners,
        resellers: partners,
        clean_phone: clean,
        suffix,
    }
}

/// The sum of the transaction amounts.
pub open spec fn sales_sum(t: Seq<TransactionRow>) -> int
    decreases t.len(),
{
    if t.len() == 0 {
        0
    } else {
        sales_sum(t.drop_last()) + t.last().amount
    }
}

/// The sum of the profit amounts.
pub open spec fn profit_sum(p: Seq<ProfitRow>) -> int
    decreases p.len(),
{
    if p.len() == 0 {
        0
    } else {
        profit_sum(p.drop_last()) + p.last().profit_amount
    }
}

/// Every running sum of the transaction amounts fits in `i64`.
pub open spec fn sales_fit(t: Seq<TransactionRow>) -> bool {
    forall|k: int| 0 <= k <= t.len() ==> i64::MIN <= #[trigger] sales_sum(t.take(k)) <= i64::MAX
}

/// Every running sum of the profit amounts fits in `i64`.
pub open spec fn profits_fit(p: Seq<ProfitRow>) -> bool {
    forall|k: int| 0 <= k <= p.len() ==> i64::MIN <= #[trigger] profit_sum(p.take(k)) <= i64::MAX
}

/// The figures above the dashboard tables.
pub struct DashboardTotals {
    pub total_orders: i64,
    pub total_sales: i64,
    pub total_profit: i64,
}

/// The number of transactions and the sums of their amounts and of the
/// profits (the running sums must fit in `i64`, where the summation would
/// otherwise overflow).
pub fn dashboard_totals(transactions: &Vec<TransactionRow>, profits: &Vec<ProfitRow>) -> (r:
    DashboardTotals)
    requires
        transactions@.len() <= i64::MAX,
        sales_fit(transactions@),
        profits_fit(profits@),
    ensures
        r.total_orders == transactions@.len(),
        r.total_sales == sales_sum(transactions@),
        r.total_profit == profit_sum(profits@),
{
    let mut sales: i64 = 0;
    let n = transactions.len();
    assert(transactions@.take(0) =~= Seq::<TransactionRow>::empty());
    for i in 0..n
        invariant
            n == transactions@.len(),
            sales_fit(transactions@),
            sales == sales_sum(transactions@.take(i as int)),
    {
        assert(transactions@.take(i + 1).drop_last() =~= transactions@.take(i as int));
        assert(i64::MIN <= sales_sum(transactions@.take(i + 1)) <= i64::MAX);
        sales = sales + transactions[i].amount;
    }
    assert(transactions@.take(n as int) =~= transactions@);
    let mut profit: i64 = 0;
    let m = profits.len();
    assert(profits@.take(0) =~= Seq::<ProfitRow>::empty());
    for i in 0..m
        invariant
            m == profits@.len(),
            profits_fit(profits@),
            profit == profit_sum(profits@.take(i as int)),
    {
        assert(profits@.take(i + 1).drop_last() =~= profits@.take(i as int));
        assert(i64::MIN <= profit_sum(profits@.take(i + 1)) <= i64::MAX);
        profit = profit + profits[i].profit_amount;
    }
    assert(profits@.take(m as int) =~= profits@);
    DashboardTotals { total_orders: n as i64, total_sales: sales, total_profit: profit }
}


/// The sum of the transaction amounts when every running sum fits in `i64`,
/// else `None`.
pub fn checked_sales_sum(transactions: &Vec<TransactionRow>) -> (r: Option<i64>)
    ensures
        match r {
            Some(total) => sales_fit(transactions@) && total == sales_sum(transactions@),
            None => !sales_fit(transactions@),
        },
{
    let mut sales: i64 = 0;
    let n = transactions.len();
    assert(transactions@.take(0) =~= Seq::<TransactionRow>::empty());
    for i in 0..n
        invariant
            n == transactions@.len(),
            sales == sales_sum(transactions@.take(i as int)),
            forall|k: int| 0 <= k <= i ==> i64::MIN <= #[trigger] sales_sum(transactions@.take(k)) <= i64::MAX,
    {
        assert(transactions@.take(i + 1).drop_last() =~= transactions@.take(i as int));
        match sales.checked_add(transactions[i].amount) {
            Some(v) => {
                sales = v;
            },
            None => {
                assert(!(i64::MIN <= sales_sum(transactions@.take(i + 1)) <= i64::MAX));
                return None;
            },
        }
    }
    assert(transactions@.take(n as int) =~= transactions@);
    Some(sales)
}

/// The sum of the profit amounts when every running sum fits in `i64`,
/// else `None`.
pub fn checked_profit_sum(profits: &Vec<ProfitRow>) -> (r: Option<i64>)
    ensures
        match r {
            Some(total) => profits_fit(profits@) && total == profit_sum(profits@),
            None => !profits_fit(profits@),
        },
{
    let mut profit: i64 = 0;
    let m = profits.len();
    assert(profits@.take(0) =~= Seq::<ProfitRow>::empty());
    for i in 0..m
        invariant
            m == profits@.len(),
            profit == profit_sum(profits@.take(i as int)),
            forall|k: int| 0 <= k <= i ==> i64::MIN <= #[trigger] profit_sum(profits@.take(k)) <= i64::MAX,
    {
        assert(profits@.take(i + 1).drop_last() =~= profits@.take(i as int));
        match profit.checked_add(profits[i].profit_amount) {
            Some(v) => {
                profit = v;
            },
            None => {
                assert(!(i64::MIN <= profit_sum(profits@.take(i + 1)) <= i64::MAX));
                return None;
            },
        }
    }
    assert(profits@.take(m as int) =~= profits@);
    Some(profit)
}

/// The dashboard figures when they can be computed in `i64` (see
/// `dashboard_totals`), else `None`.
pub fn checked_dashboard_totals(transactions: &Vec<TransactionRow>, profits: &Vec<ProfitRow>) -> (r:
    Option<DashboardTotals>)
    ensures
        match r {
            Some(t) => {
                &&& transactions@.len() <= i64::MAX
                &&& sales_fit(transactions@)
                &&& profits_fit(profits@)
                &&& t.total_orders == transactions@.len()
                &&& t.total_sales == sales_sum(transactions@)
                &&& t.total_profit == profit_sum(profits@)
            },
            None => !(transactions@.len() <= i64::MAX && sales_fit(transactions@) && profits_fit(
                profits@,
            )),
        },
{
    if transactions.len() as u64 > i64::MAX as u64 {
        return None;
    }
    if checked_sales_sum(transactions).is_none() || checked_profit_sum(profits).is_none() {
        return None;
    }
    Some(dashboard_totals(transactions, profits))
}

} // verus!
