use vstd::prelude::*;

use crate::gportal_auth::GPortalAuth;
use crate::models::{donations_of, Transaction, TransactionsGrid};
use crate::time::{in_chrono_range, parsed_instant, rfc3339_of, UtcInstant};

verus! {

/// Why a poll of the ledger page failed.
pub enum DonationError {
    /// A donation row holds this timestamp, which does not parse.
    InvalidTimestamp(String),
}

/// Every timestamp of the rows parses.
pub open spec fn all_times_parse(d: Seq<Transaction>) -> bool {
    forall|i: int| 0 <= i < d.len() ==> (#[trigger] parsed_instant(d[i].time@)) is Some
}

/// The parsed timestamps of the rows, in row order.
pub open spec fn times_of(d: Seq<Transaction>) -> Seq<UtcInstant> {
    d.map_values(|t: Transaction| parsed_instant(t.time@)->Some_0)
}

/// Each row paired with its instant, in reverse of the given order.
pub open spec fn reversed_pairs(d: Seq<Transaction>, t: Seq<UtcInstant>) -> Seq<(Transaction, UtcInstant)> {
    d.zip_with(t).reverse()
}

/// The rows (newest first, with their instants `t`) strictly after the
/// baseline `b`, oldest first.
pub open spec fn newer_oldest_first(d: Seq<Transaction>, t: Seq<UtcInstant>, b: UtcInstant) -> Seq<Transaction> {
    reversed_pairs(d, t).filter(|p: (Transaction, UtcInstant)| p.1.spec_is_after(b)).map_values(
        |p: (Transaction, UtcInstant)| p.0,
    )
}

/// Where no row's instant lies after the baseline, nothing is reported.
pub proof fn lemma_nothing_after_baseline(d: Seq<Transaction>, t: Seq<UtcInstant>, b: UtcInstant)
    requires
        t.len() == d.len(),
        forall|i: int| 0 <= i < t.len() ==> !(#[trigger] t[i]).spec_is_after(b),
    ensures
        newer_oldest_first(d, t, b) == Seq::<Transaction>::empty(),
{
    broadcast use vstd::seq_lib::group_filter_ensures;

    let pred = |p: (Transaction, UtcInstant)| p.1.spec_is_after(b);
    let rp = reversed_pairs(d, t);
    let f = rp.filter(pred);
    if f.len() > 0 {
        assert(pred(f[0]));
        assert(f.contains(f[0]));
        rp.lemma_filter_contains_rev(pred, f[0]);
        let j = choose|j: int| 0 <= j < rp.len() && rp[j] == f[0];
        assert(rp[j].1 == t[d.len() - 1 - j]);
    }
    assert(newer_oldest_first(d, t, b) =~= Seq::<Transaction>::empty());
}

/// A row is reported exactly when its instant is strictly after the
/// baseline: each such row is in the result, and each reported row is one
/// of them.
pub proof fn lemma_reported_iff_after(d: Seq<Transaction>, t: Seq<UtcInstant>, b: UtcInstant)
    requires
        t.len() == d.len(),
    ensures
        forall|i: int|
            0 <= i < d.len() && (#[trigger] t[i]).spec_is_after(b) ==> newer_oldest_first(d, t, b).contains(d[i]),
        forall|x: Transaction|
            newer_oldest_first(d, t, b).contains(x) ==> exists|i: int|
                0 <= i < d.len() && d[i] == x && (#[trigger] t[i]).spec_is_after(b),
{
    broadcast use vstd::seq_lib::group_filter_ensures;

    let pred = |p: (Transaction, UtcInstant)| p.1.spec_is_after(b);
    let rp = reversed_pairs(d, t);
    let f = rp.filter(pred);
    let all = newer_oldest_first(d, t, b);
    let n = d.len();
    assert forall|i: int| 0 <= i < n && (#[trigger] t[i]).spec_is_after(b) implies all.contains(d[i]) by {
        assert(rp[n - 1 - i] == (d[i], t[i]));
        assert(pred(rp[n - 1 - i]));
        assert(f.contains(rp[n - 1 - i]));
        let k = choose|k: int| 0 <= k < f.len() && f[k] == rp[n - 1 - i];
        assert(all[k] == d[i]);
    }
    assert forall|x: Transaction| all.contains(x) implies exists|i: int|
        0 <= i < n && d[i] == x && (#[trigger] t[i]).spec_is_after(b) by {
        let k = choose|k: int| 0 <= k < all.len() && all[k] == x;
        assert(f[k].0 == x);
        assert(pred(f[k]));
        assert(f.contains(f[k]));
        rp.lemma_filter_contains_rev(pred, f[k]);
        let j = choose|j: int| 0 <= j < rp.len() && rp[j] == f[k];
        let i = n - 1 - j;
        assert(rp[j] == (d[i], t[i]));
    }
}

/// The instants of the rows' timestamps, or the first timestamp that does
/// not parse.
pub fn parse_times(d: &Vec<Transaction>) -> (r: Result<Vec<UtcInstant>, DonationError>)
    ensures
        match r {
            Ok(t) => all_times_parse(d@) && t@ == times_of(d@),
            Err(DonationError::InvalidTimestamp(s)) => !all_times_parse(d@)
                && exists|i: int| 0 <= i < d@.len() && d@[i].time == s && parsed_instant(s@) is None,
        },
{
    let mut t: Vec<UtcInstant> = Vec::new();
    let n = d.len();
    let mut i: usize = 0;
    while i < n
        invariant
            n == d@.len(),
            i <= n,
            t@.len() == i,
            forall|j: int| 0 <= j < i ==> parsed_instant(#[trigger] d@[j].time@) == Some(t@[j]),
        decreases n - i,
    {
        match d[i].time_to_utc() {
            Some(x) => t.push(x),
            None => {
                return Err(DonationError::InvalidTimestamp(d[i].time.clone()));
            },
        }
        i += 1;
    }
    assert(t@ =~= times_of(d@));
    Ok(t)
}

/// The rows strictly after `baseline`, oldest first, given the rows newest
/// first with their instants.
pub fn select_new(d: &Vec<Transaction>, t: &Vec<UtcInstant>, baseline: UtcInstant) -> (r: Vec<Transaction>)
    requires
        t@.len() == d@.len(),
    ensures
        r@ == newer_oldest_first(d@, t@, baseline),
{
    let n = d.len();
    let mut r: Vec<Transaction> = Vec::new();
    let mut i: usize = n;
    while i > 0
        invariant
            n == d@.len(),
            n == t@.len(),
            i <= n,
            r@ == newer_oldest_first(d@.subrange(i as int, n as int), t@.subrange(i as int, n as int), baseline),
        decreases i,
    {
        i -= 1;
        let ghost pred = |p: (Transaction, UtcInstant)| p.1.spec_is_after(baseline);
        let ghost f = |p: (Transaction, UtcInstant)| p.0;
        let ghost before = reversed_pairs(d@.subrange(i + 1, n as int), t@.subrange(i + 1, n as int));
        proof {
            let elem = (d@[i as int], t@[i as int]);
            assert(reversed_pairs(d@.subrange(i as int, n as int), t@.subrange(i as int, n as int))
                =~= before.push(elem));
            before.lemma_filter_push(elem, pred);
        }
        if t[i].is_after(baseline) {
            r.push(d[i].duplicate());
            proof {
                let fl = before.filter(pred);
                let elem = (d@[i as int], t@[i as int]);
                assert(fl.push(elem).map_values(f) =~= fl.map_values(f).push(elem.0));
            }
        }
    }
    assert(d@.subrange(0, n as int) =~= d@);
    assert(t@.subrange(0, n as int) =~= t@);
    r
}

/// Reports each donation once: holds the watermark, the instant up to which
/// donations count as processed.
pub struct GPortalDonations {
    pub auth: GPortalAuth,
    pub webhook_url: String,
    /// The persisted watermark, if one was read or set.
    pub last_fetch: Option<UtcInstant>,
    /// When the tracker was made; the baseline while no watermark exists.
    pub started: UtcInstant,
}

impl GPortalDonations {
    /// Rows at or before this instant are not new.
    pub open spec fn baseline(&self) -> UtcInstant {
        match self.last_fetch {
            Some(w) => w,
            None => self.started,
        }
    }

    /// A tracker made at `now` from the stored watermark text, if any; a
    /// missing or unparsable text leaves it without a watermark.
    pub fn new(auth: GPortalAuth, webhook_url: String, stored: Option<String>, now: UtcInstant) -> (r: Self)
        ensures
            r.auth == auth,
            r.webhook_url == webhook_url,
            r.started == now,
            r.last_fetch == match stored {
                Some(s) => parsed_instant(s@),
                None => None,
            },
            (match stored {
                Some(s) => parsed_instant(s@) is None,
                None => true,
            }) ==> r.baseline() == now,
    {
        let last_fetch = match &stored {
            Some(s) => UtcInstant::parse(s.as_str()),
            None => None,
        };
        GPortalDonations { auth, webhook_url, last_fetch, started: now }
    }

    /// The donations of `page` strictly after the baseline, oldest first;
    /// then the watermark becomes `now`. Where a donation's timestamp does
    /// not parse, fails and changes nothing.
    pub fn check_new_donations(&mut self, page: &TransactionsGrid, now: UtcInstant) -> (r: Result<Vec<Transaction>, DonationError>)
        requires
            page.wf(),
        ensures
            ({
                let d = donations_of(page.grid@);
                if all_times_parse(d) {
                    r matches Ok(v) && v@ == newer_oldest_first(d, times_of(d), old(self).baseline())
                        && final(self).last_fetch == Some(now)
                        && final(self).started == old(self).started
                        && final(self).auth == old(self).auth
                        && final(self).webhook_url == old(self).webhook_url
                } else {
                    r is Err && *final(self) == *old(self)
                }
            }),
    {
        let d = page.get_donations();
        let t = match parse_times(&d) {
            Ok(t) => t,
            Err(e) => return Err(e),
        };
        let baseline = match self.last_fetch {
            Some(w) => w,
            None => self.started,
        };
        let r = select_new(&d, &t, baseline);
        self.last_fetch = Some(now);
        Ok(r)
    }

    /// The text to persist for the watermark: the RFC 3339 text of the
    /// watermark; `None` without a watermark or where chrono does not
    /// represent it.
    pub fn watermark_text(&self) -> (r: Option<String>)
        ensures
            match self.last_fetch {
                Some(w) => match r {
                    Some(s) => rfc3339_of(w.secs, w.nanos) == Some(s@),
                    None => rfc3339_of(w.secs, w.nanos) is None,
                },
                None => r is None,
            },
            (self.last_fetch matches Some(w) && in_chrono_range(w.secs, w.nanos)) ==> r is Some,
    {
        match self.last_fetch {
            Some(w) => w.to_rfc3339(),
            None => None,
        }
    }
}

/// Polling an unchanged page again without the clock moving on reports
/// nothing: after a successful poll at `now` the baseline is `now`, and no
/// row of the page lies after it.
pub proof fn lemma_repeat_poll_reports_nothing(tracker: GPortalDonations, page: TransactionsGrid, now: UtcInstant)
    requires
        tracker.last_fetch == Some(now),
        all_times_parse(donations_of(page.grid@)),
        forall|i: int|
            0 <= i < donations_of(page.grid@).len() ==> !(#[trigger] times_of(donations_of(page.grid@))[i]).spec_is_after(now),
    ensures
        ({
            let d = donations_of(page.grid@);
            newer_oldest_first(d, times_of(d), tracker.baseline()) == Seq::<Transaction>::empty()
        }),
{
    let d = donations_of(page.grid@);
    lemma_nothing_after_baseline(d, times_of(d), now);
}

} // verus!
