use vstd::prelude::*;

use crate::time::{parsed_instant, utc_instant_of, UtcInstant};

verus! {

/// Descriptions of donation rows start with this text.
pub const DONATION_PREFIX: &'static str = "Donation from";

/// Splits a donation description into donator and purpose.
pub const DONATION_PATTERN: &'static str = "Donation from (.*) - Purpose: (.*)";

/// A page of the ledger, newest row first; each row is
/// `[id, description, amount, timestamp]`.
pub struct TransactionsGrid {
    pub grid: Vec<Vec<String>>,
}

/// One ledger entry.
pub struct Transaction {
    pub id: String,
    pub description: String,
    pub amount: String,
    pub time: String,
}

/// Whether `s` begins with `prefix`.
pub open spec fn has_prefix(s: Seq<char>, prefix: Seq<char>) -> bool {
    prefix.len() <= s.len() && s.subrange(0, prefix.len() as int) == prefix
}

/// A row is a donation when its description carries the donation prefix.
pub open spec fn is_donation_row(row: Seq<String>) -> bool {
    has_prefix(row[1]@, DONATION_PREFIX@)
}

/// The transaction that a row of four cells stands for.
pub open spec fn transaction_of(row: Seq<String>) -> Transaction {
    Transaction { id: row[0], description: row[1], amount: row[2], time: row[3] }
}

/// The donation rows of a page as transactions, in page order.
pub open spec fn donations_of(rows: Seq<Vec<String>>) -> Seq<Transaction> {
    rows.filter(|r: Vec<String>| is_donation_row(r@)).map_values(|r: Vec<String>| transaction_of(r@))
}

/// Groups 1 and 2 of the leftmost match of a regular expression in a text;
/// `None` where the pattern does not compile or does not match.
pub uninterp spec fn two_groups_of(pattern: Seq<char>, text: Seq<char>) -> Option<(Seq<char>, Seq<char>)>;

/// The amount in hundredths that currency_rs reads from a formatted amount
/// (symbols and separators dropped), or `None` where it refuses the text.
pub uninterp spec fn amount_cents_of(s: Seq<char>) -> Option<i64>;

/// `n / d` rounded to the nearest integer, halves away from zero.
pub open spec fn round_div(n: int, d: int) -> int
    recommends
        d > 0,
{
    if n >= 0 {
        (2 * n + d) / (2 * d)
    } else {
        -((-2 * n + d) / (2 * d))
    }
}

/// Days of membership bought by an amount in hundredths: 90 days per 10
/// from 10 up, 60 days per 8 from 8 up, 30 days per 5 below that.
pub open spec fn days_for(cents: int) -> int {
    if cents >= 1000 {
        round_div(9 * cents, 100)
    } else if cents >= 800 {
        round_div(3 * cents, 40)
    } else {
        round_div(3 * cents, 50)
    }
}

fn round_div_exec(n: i128, d: i128) -> (r: i128)
    requires
        0 < d <= 100,
        -0x40_0000_0000_0000_0000 <= n <= 0x40_0000_0000_0000_0000,
    ensures
        r == round_div(n as int, d as int),
{
    if n >= 0 {
        (2 * n + d) / (2 * d)
    } else {
        let m: i128 = 0 - n;
        let q: i128 = (2 * m + d) / (2 * d);
        0 - q
    }
}

/// Days of membership bought by an amount in hundredths.
pub fn days_for_cents(cents: i64) -> (r: i64)
    ensures
        r == days_for(cents as int),
{
    let c: i128 = cents as i128;
    if c >= 1000 {
        let d = round_div_exec(9 * c, 100);
        assert(0 <= (2 * (9 * c) + 100) / 200 <= c) by (nonlinear_arith)
            requires
                c >= 1000,
        ;
        d as i64
    } else if c >= 800 {
        let d = round_div_exec(3 * c, 40);
        assert(0 <= (2 * (3 * c) + 40) / 80 <= c) by (nonlinear_arith)
            requires
                800 <= c,
        ;
        d as i64
    } else if c >= 0 {
        let d = round_div_exec(3 * c, 50);
        assert(0 <= (2 * (3 * c) + 50) / 100 <= c) by (nonlinear_arith)
            requires
                0 <= c,
        ;
        d as i64
    } else {
        let d = round_div_exec(3 * c, 50);
        assert(0 <= (-2 * (3 * c) + 50) / 100 <= -c) by (nonlinear_arith)
            requires
                c < 0,
        ;
        d as i64
    }
}

/// Whether `s` begins with `prefix`.
pub fn starts_with(s: &str, prefix: &str) -> (r: bool)
    ensures
        r == has_prefix(s@, prefix@),
{
    str_starts_with(s, prefix)
}

/// Relies on `str::starts_with` with a `&str` pattern: true exactly when
/// `prefix` is a prefix of `s`.
#[verifier::external_body]
fn str_starts_with(s: &str, prefix: &str) -> (r: bool)
    ensures
        r == (prefix@.len() <= s@.len() && s@.subrange(0, prefix@.len() as int) == prefix@),
{
    s.starts_with(prefix)
}

/// Relies on `regex::Regex::new` and `Regex::captures`: groups 1 and 2 of the
/// leftmost match (an unmatched group as empty text), or `None`.
#[verifier::external_body]
fn capture_two(pattern: &str, text: &str) -> (r: Option<(String, String)>)
    ensures
        match r {
            Some(p) => two_groups_of(pattern@, text@) == Some((p.0@, p.1@)),
            None => two_groups_of(pattern@, text@) is None,
        },
{
    let re = regex::Regex::new(pattern).ok()?;
    let caps = re.captures(text)?;
    let first = caps.get(1).map_or("", |m| m.as_str()).to_string();
    let second = caps.get(2).map_or("", |m| m.as_str()).to_string();
    Some((first, second))
}

/// Relies on `currency_rs::Currency::new_string` with default options and
/// `Currency::int_value`: the amount in hundredths, a whole number.
#[verifier::external_body]
fn parse_amount_cents(s: &str) -> (r: Option<i64>)
    ensures
        r == amount_cents_of(s@),
{
    match currency_rs::Currency::new_string(s, None) {
        Ok(c) => Some(c.int_value() as i64),
        Err(_) => None,
    }
}

impl TransactionsGrid {
    /// Every row has the four cells id, description, amount and timestamp.
    pub open spec fn wf(&self) -> bool {
        forall|i: int| 0 <= i < self.grid@.len() ==> #[trigger] self.grid@[i]@.len() >= 4
    }

    /// The donation rows, in page order.
    pub fn get_donations(&self) -> (r: Vec<Transaction>)
        requires
            self.wf(),
        ensures
            r@ == donations_of(self.grid@),
    {
        let mut r: Vec<Transaction> = Vec::new();
        let n = self.grid.len();
        let mut i: usize = 0;
        while i < n
            invariant
                self.wf(),
                n == self.grid@.len(),
                i <= n,
                r@ == donations_of(self.grid@.subrange(0, i as int)),
            decreases n - i,
        {
            let row = &self.grid[i];
            assert(row@.len() >= 4);
            let ghost pred = |r: Vec<String>| is_donation_row(r@);
            let ghost f = |r: Vec<String>| transaction_of(r@);
            proof {
                let pre = self.grid@.subrange(0, i as int);
                assert(self.grid@.subrange(0, i + 1) =~= pre.push(*row));
                pre.lemma_filter_push(*row, pred);
            }
            if starts_with(row[1].as_str(), DONATION_PREFIX) {
                r.push(Transaction {
                    id: row[0].clone(),
                    description: row[1].clone(),
                    amount: row[2].clone(),
                    time: row[3].clone(),
                });
                proof {
                    let fl = self.grid@.subrange(0, i as int).filter(pred);
                    assert(fl.push(*row).map_values(f) =~= fl.map_values(f).push(f(*row)));
                }
            }
            i += 1;
        }
        assert(self.grid@.subrange(0, n as int) =~= self.grid@);
        r
    }
}

impl Transaction {
    /// A copy with equal fields.
    pub fn duplicate(&self) -> (r: Transaction)
        ensures
            r == *self,
    {
        Transaction {
            id: self.id.clone(),
            description: self.description.clone(),
            amount: self.amount.clone(),
            time: self.time.clone(),
        }
    }

    /// Donator and purpose read from the description; ("Unknown", description)
    /// where the description does not have the donation form.
    pub fn get_donator_and_purpose(&self) -> (r: (String, String))
        ensures
            match two_groups_of(DONATION_PATTERN@, self.description@) {
                Some(p) => r.0@ == p.0 && r.1@ == p.1,
                None => r.0@ == "Unknown"@ && r.1@ == self.description@,
            },
    {
        match capture_two(DONATION_PATTERN, self.description.as_str()) {
            Some(p) => p,
            None => ("Unknown".to_owned(), self.description.clone()),
        }
    }

    /// The timestamp as a UTC instant, `None` where it does not parse.
    pub fn time_to_utc(&self) -> (r: Option<UtcInstant>)
        ensures
            r == parsed_instant(self.time@),
    {
        UtcInstant::parse(self.time.as_str())
    }

    /// The amount in hundredths, `None` where it does not parse.
    pub fn amount_to_cents(&self) -> (r: Option<i64>)
        ensures
            r == amount_cents_of(self.amount@),
    {
        parse_amount_cents(self.amount.as_str())
    }

    /// Days of membership that the amount buys, `None` where the amount
    /// does not parse.
    pub fn amount_to_days(&self) -> (r: Option<i64>)
        ensures
            match amount_cents_of(self.amount@) {
                Some(c) => r == Some(days_for(c as int) as i64) && days_for(c as int) == r->Some_0,
                None => r is None,
            },
    {
        match self.amount_to_cents() {
            Some(c) => Some(days_for_cents(c)),
            None => None,
        }
    }

    /// Unix second at which the membership bought by this donation ends:
    /// its timestamp plus the days that its amount buys. `None` where the
    /// timestamp or the amount does not parse, or the end does not fit an `i64`.
    pub fn membership_end(&self) -> (r: Option<i64>)
        ensures
            match (parsed_instant(self.time@), amount_cents_of(self.amount@)) {
                (Some(t), Some(c)) => {
                    let end = t.secs as int + days_for(c as int) * 86400;
                    if i64::MIN <= end <= i64::MAX {
                        r == Some(end as i64)
                    } else {
                        r is None
                    }
                },
                _ => r is None,
            },
    {
        let t = match self.time_to_utc() {
            Some(t) => t,
            None => return None,
        };
        let days = match self.amount_to_days() {
            Some(d) => d,
            None => return None,
        };
        let end: i128 = t.secs as i128 + days as i128 * 86400;
        if end < i64::MIN as i128 || end > i64::MAX as i128 {
            None
        } else {
            Some(end as i64)
        }
    }
}

} // verus!
