use vstd::prelude::*;

verus! {

/// How long, in nanoseconds, a source must carry signal before it counts
/// as active.
pub const ACTIVATE_NANOS: u64 = 500_000_000;

/// How long, in nanoseconds, an active source must stay silent before it
/// counts as inactive.
pub const DEACTIVATE_NANOS: u64 = 3_000_000_000;

/// The time from `since` to `now`, zero where `now` comes first.
pub open spec fn elapsed(now: u64, since: u64) -> int {
    if now >= since {
        now - since
    } else {
        0
    }
}

/// Whether a source is playing, with the hysteresis that keeps short
/// bursts and short gaps from flipping it. Times are nanoseconds on a
/// monotonic clock.
#[derive(Clone, Copy, PartialEq, Eq, Debug, Structural)]
pub struct SourceActivity {
    pub is_active: bool,
    /// Since when the signal has been present without a break.
    pub went_active_at: Option<u64>,
    /// Since when an active source has been silent without a break.
    pub went_silent_at: Option<u64>,
}

/// What a detector may hold: a silence is only timed while the source is
/// active, and never together with a run of signal.
pub open spec fn activity_wf(a: SourceActivity) -> bool {
    &&& a.went_silent_at is Some ==> a.is_active
    &&& !(a.went_silent_at is Some && a.went_active_at is Some)
}

/// The detector after one block of audio, `loud` telling whether the
/// smoothed level of the source is above the silence threshold.
pub open spec fn spec_feed(a: SourceActivity, loud: bool, now: u64) -> SourceActivity {
    if loud {
        let since = match a.went_active_at {
            Some(t) => t,
            None => now,
        };
        SourceActivity {
            is_active: a.is_active || elapsed(now, since) >= ACTIVATE_NANOS,
            went_active_at: Some(since),
            went_silent_at: None,
        }
    } else if a.is_active {
        let since = match a.went_silent_at {
            Some(t) => t,
            None => now,
        };
        if elapsed(now, since) >= DEACTIVATE_NANOS {
            SourceActivity { is_active: false, went_active_at: None, went_silent_at: None }
        } else {
            SourceActivity { is_active: true, went_active_at: None, went_silent_at: Some(since) }
        }
    } else {
        SourceActivity { is_active: false, went_active_at: None, went_silent_at: a.went_silent_at }
    }
}

impl SourceActivity {
    /// An inactive source with no signal seen.
    pub fn new() -> (r: Self)
        ensures
            r == (SourceActivity { is_active: false, went_active_at: None, went_silent_at: None }),
            activity_wf(r),
    {
        SourceActivity { is_active: false, went_active_at: None, went_silent_at: None }
    }

    /// Takes one block of audio at time `now`.
    pub fn feed(&mut self, loud: bool, now: u64)
        ensures
            *final(self) == spec_feed(*old(self), loud, now),
            activity_wf(*old(self)) ==> activity_wf(*final(self)),
    {
        if loud {
            self.went_silent_at = None;
            let since = match self.went_active_at {
                Some(t) => t,
                None => now,
            };
            self.went_active_at = Some(since);
            if !self.is_active && now >= since && now - since >= ACTIVATE_NANOS {
                self.is_active = true;
            }
        } else {
            self.went_active_at = None;
            if self.is_active {
                let since = match self.went_silent_at {
                    Some(t) => t,
                    None => now,
                };
                self.went_silent_at = Some(since);
                if now >= since && now - since >= DEACTIVATE_NANOS {
                    self.is_active = false;
                    self.went_silent_at = None;
                }
            }
        }
    }
}

/// A source turns active only after carrying signal, without a break, for
/// the activation time.
pub proof fn law_activation_needs_sustained_signal(a: SourceActivity, loud: bool, now: u64)
    requires
        !a.is_active,
        spec_feed(a, loud, now).is_active,
    ensures
        loud,
        a.went_active_at matches Some(t) && elapsed(now, t) >= ACTIVATE_NANOS,
{
}

/// An active source turns inactive only after staying silent, without a
/// break, for the deactivation time.
pub proof fn law_deactivation_needs_sustained_silence(a: SourceActivity, loud: bool, now: u64)
    requires
        a.is_active,
        !spec_feed(a, loud, now).is_active,
    ensures
        !loud,
        a.went_silent_at matches Some(t) && elapsed(now, t) >= DEACTIVATE_NANOS,
{
}

/// Signal that lasts the activation time makes the source active, and a
/// silence that lasts the deactivation time makes an active source
/// inactive.
pub proof fn law_sustained_change_is_taken(a: SourceActivity, loud: bool, now: u64)
    ensures
        loud && (a.went_active_at matches Some(t) && elapsed(now, t) >= ACTIVATE_NANOS) ==> spec_feed(
            a,
            loud,
            now,
        ).is_active,
        !loud && (a.went_silent_at matches Some(t) && elapsed(now, t) >= DEACTIVATE_NANOS)
            && a.is_active ==> !spec_feed(a, loud, now).is_active,
{
}

/// Any signal keeps an active source active, and any silence keeps an
/// inactive source inactive.
pub proof fn law_state_holds_against_the_other_kind(a: SourceActivity, loud: bool, now: u64)
    ensures
        a.is_active && loud ==> spec_feed(a, loud, now).is_active,
        !a.is_active && !loud ==> !spec_feed(a, loud, now).is_active,
{
}

/// A detector that has seen nothing yet.
pub open spec fn fresh_activity() -> SourceActivity {
    SourceActivity { is_active: false, went_active_at: None, went_silent_at: None }
}

/// The detector after a run of blocks, each given as whether it was loud
/// and when it came.
pub open spec fn run_feeds(a: SourceActivity, feeds: Seq<(bool, u64)>) -> SourceActivity
    decreases feeds.len(),
{
    if feeds.len() == 0 {
        a
    } else {
        let (loud, now) = feeds.last();
        spec_feed(run_feeds(a, feeds.drop_last()), loud, now)
    }
}

/// Every block of the run from `j` up to `n` (excluded) was loud.
pub open spec fn loud_from(feeds: Seq<(bool, u64)>, j: int, n: int) -> bool {
    forall|m: int| j <= m < n ==> (#[trigger] feeds[m]).0
}

/// Every block of the run from `j` up to `n` (excluded) was silent.
pub open spec fn silent_from(feeds: Seq<(bool, u64)>, j: int, n: int) -> bool {
    forall|m: int| j <= m < n ==> !(#[trigger] feeds[m]).0
}

/// What the timers of a detector that started fresh stand for: the time of
/// a block since which every block was loud (or, for the silence timer,
/// silent).
proof fn lemma_run_timers(feeds: Seq<(bool, u64)>, n: int)
    requires
        0 <= n <= feeds.len(),
    ensures
        run_feeds(fresh_activity(), feeds.take(n)).went_active_at matches Some(t) ==> exists|j: int|
            0 <= j < n && (#[trigger] feeds[j]).1 == t && loud_from(feeds, j, n),
        run_feeds(fresh_activity(), feeds.take(n)).went_silent_at matches Some(t) ==> exists|j: int|
            0 <= j < n && (#[trigger] feeds[j]).1 == t && silent_from(feeds, j, n),
    decreases n,
{
    if n > 0 {
        lemma_run_timers(feeds, n - 1);
        assert(feeds.take(n).drop_last() =~= feeds.take(n - 1));
        assert(feeds.take(n).last() == feeds[n - 1]);
        let pre = run_feeds(fresh_activity(), feeds.take(n - 1));
        let (loud, now) = feeds[n - 1];
        let post = run_feeds(fresh_activity(), feeds.take(n));
        assert(post == spec_feed(pre, loud, now));
        if let Some(t) = post.went_active_at {
            if pre.went_active_at == Some(t) {
                let j = choose|j: int| 0 <= j < n - 1 && (#[trigger] feeds[j]).1 == t && loud_from(feeds, j, n - 1);
                assert(loud_from(feeds, j, n));
            } else {
                assert(feeds[n - 1].1 == t);
                assert(loud_from(feeds, n - 1, n));
            }
        }
        if let Some(t) = post.went_silent_at {
            if pre.went_silent_at == Some(t) {
                let j = choose|j: int| 0 <= j < n - 1 && (#[trigger] feeds[j]).1 == t && silent_from(feeds, j, n - 1);
                assert(silent_from(feeds, j, n));
            } else {
                assert(feeds[n - 1].1 == t);
                assert(silent_from(feeds, n - 1, n));
            }
        }
    }
}

/// Over any run of blocks from a fresh detector, the source turns active
/// at block `k` only if every block over the last activation time, from
/// some block `j` that came at least that long before, up to and with `k`,
/// was loud.
pub proof fn law_run_activation_needs_sustained_signal(feeds: Seq<(bool, u64)>, k: int)
    requires
        0 <= k < feeds.len(),
        !run_feeds(fresh_activity(), feeds.take(k)).is_active,
        run_feeds(fresh_activity(), feeds.take(k + 1)).is_active,
    ensures
        exists|j: int|
            0 <= j <= k && feeds[k].1 >= (#[trigger] feeds[j]).1 + ACTIVATE_NANOS && loud_from(
                feeds,
                j,
                k + 1,
            ),
{
    lemma_run_timers(feeds, k);
    assert(feeds.take(k + 1).drop_last() =~= feeds.take(k));
    assert(feeds.take(k + 1).last() == feeds[k]);
    let pre = run_feeds(fresh_activity(), feeds.take(k));
    let (loud, now) = feeds[k];
    law_activation_needs_sustained_signal(pre, loud, now);
    let t = pre.went_active_at->0;
    let j = choose|j: int| 0 <= j < k && (#[trigger] feeds[j]).1 == t && loud_from(feeds, j, k);
    assert(loud_from(feeds, j, k + 1));
}

/// Over any run of blocks from a fresh detector, the source turns inactive
/// at block `k` only if every block over the last deactivation time, from
/// some block `j` that came at least that long before, up to and with `k`,
/// was silent.
pub proof fn law_run_deactivation_needs_sustained_silence(feeds: Seq<(bool, u64)>, k: int)
    requires
        0 <= k < feeds.len(),
        run_feeds(fresh_activity(), feeds.take(k)).is_active,
        !run_feeds(fresh_activity(), feeds.take(k + 1)).is_active,
    ensures
        exists|j: int|
            0 <= j <= k && feeds[k].1 >= (#[trigger] feeds[j]).1 + DEACTIVATE_NANOS && silent_from(
                feeds,
                j,
                k + 1,
            ),
{
    lemma_run_timers(feeds, k);
    assert(feeds.take(k + 1).drop_last() =~= feeds.take(k));
    assert(feeds.take(k + 1).last() == feeds[k]);
    let pre = run_feeds(fresh_activity(), feeds.take(k));
    let (loud, now) = feeds[k];
    law_deactivation_needs_sustained_silence(pre, loud, now);
    let t = pre.went_silent_at->0;
    let j = choose|j: int| 0 <= j < k && (#[trigger] feeds[j]).1 == t && silent_from(feeds, j, k);
    assert(silent_from(feeds, j, k + 1));
}

} // verus!
