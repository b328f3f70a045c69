//! The status lights and figures the client shows: the engine's realtime
//! and lag lights, its tick time, the stream output's lights, and the tabs.
use vstd::prelude::*;

use crate::protocol::PerformanceAccount;
use crate::protocol::PerformanceMetric;
use crate::protocol::StreamOutputLiveStatus;
use crate::protocol::TemporalWarningStatus;

verus! {

/// The CSS classes of the realtime light.
pub fn realtime_class(realtime: bool) -> (r: &'static str)
    ensures
        r@ == (if realtime { "status-light status-light-green-active"@ } else { "status-light"@ }),
{
    if realtime {
        "status-light status-light-green-active"
    } else {
        "status-light"
    }
}

/// The CSS classes of the lag light: lit while lagging, dim red for a while
/// after, off otherwise.
pub fn lag_class(lag: Option<TemporalWarningStatus>) -> (r: &'static str)
    ensures
        r@ == (match lag {
            None => "status-light"@,
            Some(TemporalWarningStatus::Active) => "status-light status-light-red-active"@,
            Some(TemporalWarningStatus::Recent) => "status-light status-light-red"@,
        }),
{
    match lag {
        None => "status-light",
        Some(TemporalWarningStatus::Active) => "status-light status-light-red-active",
        Some(TemporalWarningStatus::Recent) => "status-light status-light-red",
    }
}

/// The sum of the last tick times of the accounts.
pub open spec fn tick_time_sum(accounts: Seq<(PerformanceAccount, PerformanceMetric)>) -> nat
    decreases accounts.len(),
{
    if accounts.len() == 0 {
        0
    } else {
        tick_time_sum(accounts.drop_last()) + (accounts.last().1.last.0 as nat)
    }
}

proof fn lemma_tick_time_sum_prefix(accounts: Seq<(PerformanceAccount, PerformanceMetric)>, i: int)
    requires
        0 <= i <= accounts.len(),
    ensures
        tick_time_sum(accounts.take(i)) <= tick_time_sum(accounts),
    decreases accounts.len(),
{
    if i < accounts.len() {
        assert(accounts.drop_last().take(i) =~= accounts.take(i));
        lemma_tick_time_sum_prefix(accounts.drop_last(), i);
    } else {
        assert(accounts.take(i) =~= accounts);
    }
}

/// The engine's total tick time: the sum of every account's last tick time.
/// The sum must fit in 64 bits (summing stops the program otherwise).
pub fn total_tick_time(accounts: &Vec<(PerformanceAccount, PerformanceMetric)>) -> (r: u64)
    requires
        tick_time_sum(accounts@) <= u64::MAX,
    ensures
        r == tick_time_sum(accounts@),
{
    let mut total: u64 = 0;
    let mut i: usize = 0;
    while i < accounts.len()
        invariant
            i <= accounts@.len(),
            tick_time_sum(accounts@) <= u64::MAX,
            total == tick_time_sum(accounts@.take(i as int)),
        decreases accounts@.len() - i,
    {
        assert(accounts@.take(i + 1).drop_last() =~= accounts@.take(i as int));
        proof { lemma_tick_time_sum_prefix(accounts@, i + 1); }
        total = total + accounts[i].1.last.0;
        i = i + 1;
    }
    assert(accounts@.take(accounts@.len() as int) =~= accounts@);
    total
}

/// An account's last tick time, by which the accounts are ordered.
pub open spec fn account_tick(a: (PerformanceAccount, PerformanceMetric)) -> u64 {
    a.1.last.0
}

/// The accounts whose last tick time is `t`, in the order they come in.
pub open spec fn accounts_with_tick(s: Seq<(PerformanceAccount, PerformanceMetric)>, t: u64) -> Seq<(PerformanceAccount, PerformanceMetric)> {
    s.filter(|a: (PerformanceAccount, PerformanceMetric)| account_tick(a) == t)
}

/// Whether the accounts run from the longest last tick time to the shortest.
pub open spec fn slowest_first(s: Seq<(PerformanceAccount, PerformanceMetric)>) -> bool {
    forall|i: int, j: int| 0 <= i < j < s.len() ==> account_tick(#[trigger] s[i]) >= account_tick(#[trigger] s[j])
}

proof fn lemma_insert_keeps_ticks(
    s: Seq<(PerformanceAccount, PerformanceMetric)>,
    p: int,
    x: (PerformanceAccount, PerformanceMetric),
    t: u64,
)
    requires
        0 <= p <= s.len(),
        forall|q: int| p <= q < s.len() ==> account_tick(#[trigger] s[q]) < account_tick(x),
    ensures
        accounts_with_tick(s.insert(p, x), t) == (if account_tick(x) == t {
            accounts_with_tick(s, t).push(x)
        } else {
            accounts_with_tick(s, t)
        }),
{
    let pred = |a: (PerformanceAccount, PerformanceMetric)| account_tick(a) == t;
    let front = s.take(p);
    let back = s.skip(p);
    assert(s.insert(p, x) =~= front + seq![x] + back);
    assert(s =~= front + back);
    Seq::filter_distributes_over_add(front + seq![x], back, pred);
    Seq::filter_distributes_over_add(front, seq![x], pred);
    Seq::filter_distributes_over_add(front, back, pred);
    assert(seq![x] =~= Seq::<(PerformanceAccount, PerformanceMetric)>::empty().push(x));
    Seq::<(PerformanceAccount, PerformanceMetric)>::empty().lemma_filter_push(x, pred);
    assert(Seq::<(PerformanceAccount, PerformanceMetric)>::empty().filter(pred) =~= Seq::empty()) by {
        reveal(Seq::filter);
    }
    if account_tick(x) == t {
        assert(back.filter(pred).len() == 0) by {
            let npred = |a: (PerformanceAccount, PerformanceMetric)| !pred(a);
            assert forall|q: int| 0 <= q < back.len() implies #[trigger] npred(back[q]) by {
                assert(back[q] == s[p + q]);
            }
            back.lemma_all_neg_filter_empty(pred);
        }
        assert(back.filter(pred) =~= Seq::empty());
        assert(accounts_with_tick(s.insert(p, x), t) =~= front.filter(pred).push(x));
        assert(accounts_with_tick(s, t) =~= front.filter(pred));
    } else {
        assert(accounts_with_tick(s.insert(p, x), t) =~= front.filter(pred) + back.filter(pred));
    }
}

/// The accounts ordered from the longest last tick time to the shortest,
/// accounts with equal times staying in the order they came in: for every
/// tick time, the accounts with that time are the same and in the same order.
pub fn accounts_slowest_first(accounts: &Vec<(PerformanceAccount, PerformanceMetric)>) -> (r: Vec<(PerformanceAccount, PerformanceMetric)>)
    ensures
        slowest_first(r@),
        forall|t: u64| #[trigger] accounts_with_tick(r@, t) == accounts_with_tick(accounts@, t),
{
    let mut out: Vec<(PerformanceAccount, PerformanceMetric)> = Vec::new();
    let mut i: usize = 0;
    while i < accounts.len()
        invariant
            i <= accounts@.len(),
            slowest_first(out@),
            forall|t: u64| #[trigger] accounts_with_tick(out@, t) == accounts_with_tick(accounts@.take(i as int), t),
        decreases accounts@.len() - i,
    {
        let x = accounts[i];
        let tick = x.1.last.0;
        let mut p: usize = 0;
        while p < out.len() && out[p].1.last.0 >= tick
            invariant
                p <= out@.len(),
                forall|q: int| 0 <= q < p ==> account_tick(#[trigger] out@[q]) >= tick,
            decreases out@.len() - p,
        {
            p = p + 1;
        }
        let ghost before = out@;
        proof {
            assert forall|q: int| p <= q < before.len() implies account_tick(#[trigger] before[q]) < account_tick(x) by {
                assert(account_tick(before[p as int]) < tick);
                if q > p {
                    assert(account_tick(before[p as int]) >= account_tick(before[q]));
                }
            }
        }
        out.insert(p, x);
        proof {
            assert(accounts@.take(i + 1) =~= accounts@.take(i as int).push(x));
            assert forall|t: u64| #[trigger] accounts_with_tick(out@, t) == accounts_with_tick(accounts@.take(i + 1), t) by {
                lemma_insert_keeps_ticks(before, p as int, x, t);
                accounts@.take(i as int).lemma_filter_push(x, |a: (PerformanceAccount, PerformanceMetric)| account_tick(a) == t);
            }
            assert forall|a: int, b: int| 0 <= a < b < out@.len() implies account_tick(#[trigger] out@[a]) >= account_tick(#[trigger] out@[b]) by {
                if a < p && b < p {
                    assert(out@[a] == before[a] && out@[b] == before[b]);
                } else if a < p && b == p {
                    assert(out@[a] == before[a]);
                } else if a < p {
                    assert(out@[a] == before[a] && out@[b] == before[b - 1]);
                    assert(account_tick(before[a]) >= account_tick(before[b - 1]));
                } else if a == p {
                    assert(out@[b] == before[b - 1]);
                } else {
                    assert(out@[a] == before[a - 1] && out@[b] == before[b - 1]);
                }
            }
        }
        i = i + 1;
    }
    assert(accounts@.take(accounts@.len() as int) =~= accounts@);
    out
}

/// The CSS classes of the stream output's live light.
pub fn live_class(live_status: StreamOutputLiveStatus) -> (r: &'static str)
    ensures
        r@ == (match live_status {
            StreamOutputLiveStatus::Offline => "status-light"@,
            StreamOutputLiveStatus::Connecting => "status-light status-light-green"@,
            StreamOutputLiveStatus::Live => "status-light status-light-green-active"@,
        }),
{
    match live_status {
        StreamOutputLiveStatus::Offline => "status-light",
        StreamOutputLiveStatus::Connecting => "status-light status-light-green",
        StreamOutputLiveStatus::Live => "status-light status-light-green-active",
    }
}

/// The CSS classes of a warning light.
pub fn warning_class(is_warning: bool) -> (r: &'static str)
    ensures
        r@ == (if is_warning { "status-light status-light-red-active"@ } else { "status-light"@ }),
{
    match is_warning {
        false => "status-light",
        true => "status-light status-light-red-active",
    }
}

/// The client's pages.
#[derive(Debug, Clone, Copy, PartialEq, Eq, Structural)]
pub enum Tab {
    Workspace,
    MediaLibrary,
}

impl Tab {
    /// The tab's title.
    pub fn label(&self) -> (r: &'static str)
        ensures
            r@ == (match *self {
                Tab::Workspace => "Workspace"@,
                Tab::MediaLibrary => "Media Library"@,
            }),
    {
        match self {
            Tab::Workspace => "Workspace",
            Tab::MediaLibrary => "Media Library",
        }
    }

    /// The CSS classes of the tab in a tab bar whose current tab is `current`.
    pub fn class(&self, current: Tab) -> (r: &'static str)
        ensures
            r@ == (if *self == current { "tab-bar-tab tab-bar-active"@ } else { "tab-bar-tab"@ }),
    {
        if *self == current {
            "tab-bar-tab tab-bar-active"
        } else {
            "tab-bar-tab"
        }
    }
}

} // verus!
