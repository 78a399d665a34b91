//! Idle-timing state for automatic tab advancement.
//!
//! The clock owns the last-activity instant, the `paused` and `held` flags,
//! and one content fingerprint (with its first-seen instant) per tab. All
//! instants and durations are caller-supplied integers in one time unit, so
//! every rule here is a pure function of its inputs; reading the real time
//! and blocking until a deadline stay with the caller.
//!
//! `paused` suppresses auto-advance until it is explicitly cleared; `held`
//! suppresses it for one hold interval after a deliberate tab change. The two
//! never hold together: entering a pause clears the hold.

use vstd::prelude::*;

verus! {

/// The deadline rule: the last-activity instant plus the pause duration when
/// paused, the hold duration when held (and not paused), and otherwise the
/// delay duration scaled by the startup multiplier.
pub open spec fn spec_deadline(
    last: int,
    paused: bool,
    held: bool,
    delay: int,
    pause_d: int,
    hold_d: int,
    multiplier: int,
) -> int {
    last + if paused {
        pause_d
    } else if held {
        hold_d
    } else {
        delay * multiplier
    }
}

/// A stored content entry matches a fresh observation: the fingerprint is
/// unchanged and a first-seen instant is on record.
pub open spec fn observe_same(entry: (String, Option<u64>), fp: Seq<char>) -> bool {
    entry.0@ == fp && entry.1 is Some
}

/// How long an unchanged entry has been on record at `now` (zero for an
/// observation earlier than the record).
pub open spec fn observe_elapsed(entry: (String, Option<u64>), now: u64) -> u64
    recommends
        entry.1 is Some,
{
    if now >= entry.1->0 {
        (now - entry.1->0) as u64
    } else {
        0
    }
}

/// An unchanged entry has reached the reload threshold, when one is set.
pub open spec fn observe_due(
    entry: (String, Option<u64>),
    fp: Seq<char>,
    now: u64,
    threshold: Option<u64>,
) -> bool {
    observe_same(entry, fp) && threshold is Some && observe_elapsed(entry, now) >= threshold->0
}

/// Idle-timing state: last activity, pause/hold flags, and per-tab content
/// fingerprints with their first-seen instants.
pub struct ActivityClock {
    last_activity: u64,
    paused: bool,
    held: bool,
    content: Vec<(String, Option<u64>)>,
}

impl ActivityClock {
    pub closed spec fn last_activity(&self) -> u64 {
        self.last_activity
    }

    pub closed spec fn paused(&self) -> bool {
        self.paused
    }

    pub closed spec fn held(&self) -> bool {
        self.held
    }

    /// The per-tab content table: tab `i + 1` owns entry `i`.
    pub closed spec fn content(&self) -> Seq<(String, Option<u64>)> {
        self.content@
    }

    /// A pause always clears the hold, so the two flags never hold together.
    pub open spec fn inv(&self) -> bool {
        self.paused() ==> !self.held()
    }

    pub fn new(now: u64, tabs: usize) -> (r: ActivityClock)
        ensures
            r.inv(),
            r.last_activity() == now,
            !r.paused(),
            !r.held(),
            r.content().len() == tabs,
            forall|i: int|
                0 <= i < tabs ==> (#[trigger] r.content()[i]).0@ == Seq::<char>::empty()
                    && r.content()[i].1 is None,
    {
        let mut content: Vec<(String, Option<u64>)> = Vec::new();
        let mut i: usize = 0;
        while i < tabs
            invariant
                i <= tabs,
                content@.len() == i,
                forall|j: int|
                    0 <= j < i ==> (#[trigger] content@[j]).0@ == Seq::<char>::empty()
                        && content@[j].1 is None,
            decreases tabs - i,
        {
            content.push((String::new(), None));
            i = i + 1;
        }
        ActivityClock { last_activity: now, paused: false, held: false, content }
    }

    /// Whether auto-advance is paused.
    pub fn is_paused(&self) -> (r: bool)
        ensures
            r == self.paused(),
    {
        self.paused
    }

    /// Record user or navigation activity at instant `now`.
    pub fn record_activity(&mut self, now: u64)
        ensures
            final(self).last_activity() == now,
            final(self).paused() == old(self).paused(),
            final(self).held() == old(self).held(),
            final(self).content() == old(self).content(),
    {
        self.last_activity = now;
    }

    /// Begin a hold after a deliberate navigation: sets `held` unless paused,
    /// and always records activity.
    pub fn enter_hold(&mut self, now: u64)
        ensures
            final(self).last_activity() == now,
            final(self).paused() == old(self).paused(),
            final(self).held() == (if old(self).paused() {
                old(self).held()
            } else {
                true
            }),
            final(self).content() == old(self).content(),
    {
        if !self.paused && !self.held {
            self.held = true;
        }
        self.last_activity = now;
    }

    /// Enter the sticky pause: clears the hold, sets `paused`, and records
    /// activity.
    pub fn enter_pause(&mut self, now: u64)
        requires
            old(self).inv(),
        ensures
            final(self).inv(),
            final(self).last_activity() == now,
            final(self).paused(),
            !final(self).held(),
            final(self).content() == old(self).content(),
    {
        if !self.paused {
            self.held = false;
            self.paused = true;
        }
        self.last_activity = now;
    }

    /// Clear the pause and the hold, whichever are set; the last-activity
    /// instant is untouched.
    pub fn exit_pause_if_set(&mut self)
        ensures
            final(self).inv(),
            final(self).last_activity() == old(self).last_activity(),
            !final(self).paused(),
            !final(self).held(),
            final(self).content() == old(self).content(),
    {
        if self.held {
            self.held = false;
        }
        if self.paused {
            self.paused = false;
        }
    }

    /// The instant at which auto-advance is next due, per `spec_deadline`.
    pub fn compute_deadline(&self, delay: u64, pause_d: u64, hold_d: u64, multiplier: u64) -> (r:
        u64)
        requires
            self.paused() ==> self.last_activity() + pause_d <= u64::MAX,
            !self.paused() && self.held() ==> self.last_activity() + hold_d <= u64::MAX,
            !self.paused() && !self.held() ==> delay * multiplier <= u64::MAX
                && self.last_activity() + delay * multiplier <= u64::MAX,
        ensures
            r == spec_deadline(
                self.last_activity() as int,
                self.paused(),
                self.held(),
                delay as int,
                pause_d as int,
                hold_d as int,
                multiplier as int,
            ),
    {
        if self.paused {
            self.last_activity + pause_d
        } else if self.held {
            self.last_activity + hold_d
        } else {
            self.last_activity + delay * multiplier
        }
    }

    /// Compare `fingerprint` against the one stored for `tab` (tabs are
    /// numbered from 1).
    ///
    /// If it is unchanged since an earlier observation, returns how long the
    /// content has been unchanged and whether that has reached `threshold`
    /// (never, when no threshold is configured); signalling a due reload
    /// forgets the first-seen instant so the next observation starts a fresh
    /// interval. If the fingerprint changed, or this is the first observation
    /// for the tab, stores it with `now` as its first-seen instant and
    /// returns `None`.
    ///
    /// Instants are expected to be monotonic; an observation earlier than the
    /// stored first-seen instant counts as elapsed time zero.
    pub fn observe_content(
        &mut self,
        tab: usize,
        fingerprint: String,
        now: u64,
        threshold: Option<u64>,
    ) -> (r: Option<(u64, bool)>)
        requires
            1 <= tab <= old(self).content().len(),
        ensures
            final(self).last_activity() == old(self).last_activity(),
            final(self).paused() == old(self).paused(),
            final(self).held() == old(self).held(),
            final(self).content().len() == old(self).content().len(),
            forall|i: int|
                0 <= i < old(self).content().len() && i != tab - 1 ==> final(self).content()[i]
                    == old(self).content()[i],
            ({
                let entry = old(self).content()[tab - 1];
                if observe_same(entry, fingerprint@) {
                    let due = observe_due(entry, fingerprint@, now, threshold);
                    r == Some((observe_elapsed(entry, now), due)) && final(self).content()[tab
                        - 1].0 == entry.0 && final(self).content()[tab - 1].1 == (if due {
                        None::<u64>
                    } else {
                        entry.1
                    })
                } else {
                    r is None && final(self).content()[tab - 1].0@ == fingerprint@
                        && final(self).content()[tab - 1].1 == Some(now)
                }
            }),
    {
        let idx = tab - 1;
        let same = self.content[idx].0 == fingerprint;
        let first = self.content[idx].1;
        if same && first.is_some() {
            let first_seen = first.unwrap();
            let elapsed: u64 = if now >= first_seen {
                now - first_seen
            } else {
                0
            };
            let due = match threshold {
                Some(t) => elapsed >= t,
                None => false,
            };
            if due {
                let kept = self.content[idx].0.clone();
                self.content.set(idx, (kept, None));
            }
            Some((elapsed, due))
        } else {
            self.content.set(idx, (fingerprint, Some(now)));
            None
        }
    }
}

/// Law: after activity is recorded at `now`, an unpaused, unheld clock's
/// deadline is exactly `now + delay * multiplier`.
pub proof fn lemma_deadline_unpaused_unheld(
    now: int,
    delay: int,
    pause_d: int,
    hold_d: int,
    multiplier: int,
)
    ensures
        spec_deadline(now, false, false, delay, pause_d, hold_d, multiplier) == now + delay
            * multiplier,
{
}

/// Law: a set pause overrides a hold; the deadline is the last activity plus
/// the pause duration whatever the hold flag says.
pub proof fn lemma_pause_overrides_hold(
    last: int,
    held: bool,
    delay: int,
    pause_d: int,
    hold_d: int,
    multiplier: int,
)
    ensures
        spec_deadline(last, true, held, delay, pause_d, hold_d, multiplier) == last + pause_d,
{
}

} // verus!
