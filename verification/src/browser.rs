//! The controller: current-tab state, navigation, pause/hold handling, and
//! the auto-advance step.
//!
//! Every operation takes the current instant as a parameter and returns the
//! key-combination strings to inject, so the controller itself is pure;
//! reading the clock, injecting keystrokes, and sleeping between deadlines
//! stay with the caller.

use vstd::prelude::*;

use crate::clock::{observe_due, observe_same, spec_deadline, ActivityClock};
use crate::config::{CommandLineArgs, Page};
use crate::router::{route, spec_route, wrap_next, wrap_prev, Command};

verus! {

/// The first tab's number.
pub const FIRST_TAB: usize = 1;

/// The highest tab number reachable by a one-shot jump keystroke.
pub const DIRECT_TABS: usize = 8;

/// The key combination injected for one command.
pub open spec fn spec_command_keys(c: Command) -> Seq<char> {
    match c {
        Command::DirectJump(n) => spec_direct_jump_keys(n as int),
        Command::JumpLast => "Ctrl+9"@,
        Command::StepNext => "Ctrl+Tab"@,
        Command::StepPrevious => "Ctrl+Shift+Tab"@,
    }
}

/// The key combination for a one-shot jump to tab `n` (only jumps up to
/// `DIRECT_TABS` are ever produced).
pub open spec fn spec_direct_jump_keys(n: int) -> Seq<char> {
    if n == 1 {
        "Ctrl+1"@
    } else if n == 2 {
        "Ctrl+2"@
    } else if n == 3 {
        "Ctrl+3"@
    } else if n == 4 {
        "Ctrl+4"@
    } else if n == 5 {
        "Ctrl+5"@
    } else if n == 6 {
        "Ctrl+6"@
    } else if n == 7 {
        "Ctrl+7"@
    } else {
        "Ctrl+8"@
    }
}

/// A route's key combinations, joined by single spaces.
pub open spec fn spec_route_keys(cmds: Seq<Command>) -> Seq<char>
    decreases cmds.len(),
{
    if cmds.len() == 0 {
        Seq::empty()
    } else if cmds.len() == 1 {
        spec_command_keys(cmds[0])
    } else {
        spec_route_keys(cmds.drop_last()) + " "@ + spec_command_keys(cmds.last())
    }
}

/// The key combination injected for `c`.
pub fn command_keys(c: &Command) -> (r: &'static str)
    ensures
        r@ == spec_command_keys(*c),
{
    match c {
        Command::DirectJump(n) => {
            match *n {
                1 => "Ctrl+1",
                2 => "Ctrl+2",
                3 => "Ctrl+3",
                4 => "Ctrl+4",
                5 => "Ctrl+5",
                6 => "Ctrl+6",
                7 => "Ctrl+7",
                _ => "Ctrl+8",
            }
        },
        Command::JumpLast => "Ctrl+9",
        Command::StepNext => "Ctrl+Tab",
        Command::StepPrevious => "Ctrl+Shift+Tab",
    }
}

/// Join a route's key combinations with single spaces.
pub fn route_keys(cmds: &Vec<Command>) -> (r: String)
    ensures
        r@ == spec_route_keys(cmds@),
{
    let n = cmds.len();
    let mut out = String::new();
    let mut i: usize = 0;
    while i < n
        invariant
            n == cmds@.len(),
            i <= n,
            out@ == spec_route_keys(cmds@.take(i as int)),
        decreases n - i,
    {
        if i > 0 {
            out.append(" ");
        }
        out.append(command_keys(&cmds[i]));
        proof {
            assert(cmds@.take(i + 1).drop_last() =~= cmds@.take(i as int));
        }
        i = i + 1;
    }
    proof {
        assert(cmds@.take(n as int) =~= cmds@);
    }
    out
}

/// A tab name occurs at position `idx`.
pub open spec fn name_at(names: Seq<String>, name: Seq<char>, idx: int) -> bool {
    0 <= idx < names.len() && names[idx]@ == name
}

/// A tab name occurs somewhere in the list.
pub open spec fn names_contain(entries: Seq<(String, Page)>, name: Seq<char>) -> bool {
    exists|i: int| 0 <= i < entries.len() && (#[trigger] entries[i]).0@ == name
}

/// The configured tab list with every repeated name dropped (the first
/// occurrence wins).
pub open spec fn dedup_entries(entries: Seq<(String, Page)>) -> Seq<(String, Page)>
    decreases entries.len(),
{
    if entries.len() == 0 {
        Seq::empty()
    } else {
        let rest = dedup_entries(entries.drop_last());
        if names_contain(entries.drop_last(), entries.last().0@) {
            rest
        } else {
            rest.push(entries.last())
        }
    }
}

/// Dropping repeated names loses no name and invents none.
pub proof fn lemma_dedup_same_names(entries: Seq<(String, Page)>, name: Seq<char>)
    ensures
        names_contain(dedup_entries(entries), name) <==> names_contain(entries, name),
    decreases entries.len(),
{
    if entries.len() > 0 {
        let rest = entries.drop_last();
        let last = entries.last();
        lemma_dedup_same_names(rest, name);
        assert(names_contain(entries, name) <==> (names_contain(rest, name) || last.0@
            == name)) by {
            if names_contain(entries, name) {
                let i = choose|i: int|
                    0 <= i < entries.len() && (#[trigger] entries[i]).0@ == name;
                if i < entries.len() - 1 {
                    assert((rest[i]).0@ == name);
                }
            }
            if names_contain(rest, name) {
                let i = choose|i: int| 0 <= i < rest.len() && (#[trigger] rest[i]).0@ == name;
                assert((entries[i]).0@ == name);
            }
            if last.0@ == name {
                assert((entries[entries.len() - 1]).0@ == name);
            }
        }
        if names_contain(rest, last.0@) {
            if last.0@ == name {
                let i = choose|i: int| 0 <= i < rest.len() && (#[trigger] rest[i]).0@ == last.0@;
                assert((rest[i]).0@ == name);
            }
        } else {
            let d = dedup_entries(rest);
            let dd = dedup_entries(entries);
            assert(dd == d.push(last));
            assert(names_contain(dd, name) <==> (names_contain(d, name) || last.0@ == name)) by {
                if names_contain(d, name) {
                    let i = choose|i: int| 0 <= i < d.len() && (#[trigger] d[i]).0@ == name;
                    assert((dd[i]).0@ == name);
                }
                if last.0@ == name {
                    assert((dd[dd.len() - 1]).0@ == name);
                }
                if names_contain(dd, name) {
                    let i = choose|i: int| 0 <= i < dd.len() && (#[trigger] dd[i]).0@ == name;
                    if i < dd.len() - 1 {
                        assert((d[i]).0@ == name);
                    }
                }
            }
        }
    }
}

/// Result of navigating to a tab by name.
pub enum GotoOutcome {
    /// The name is not configured; nothing was done.
    NotFound,
    /// The named tab is already current; only activity was recorded.
    AlreadyCurrent,
    /// The tab changed: inject `keys`, and let the browser settle first when
    /// `settle` is set.
    Moved { keys: String, settle: bool },
}

/// Result of one auto-advance step.
pub struct AdvanceOutcome {
    /// Inject the reload keystroke before moving on.
    pub reload: bool,
    /// The navigation keys to inject, if the tab moves at all.
    pub keys: Option<String>,
}

/// The controller: the fixed tab list and the shared activity state.
pub struct Browser {
    kiosk: bool,
    pages: Vec<Page>,
    names: Vec<String>,
    tab: usize,
    multiplier: u64,
    clock: ActivityClock,
}

impl Browser {
    pub closed spec fn kiosk_mode(&self) -> bool {
        self.kiosk
    }

    pub closed spec fn pages(&self) -> Seq<Page> {
        self.pages@
    }

    pub closed spec fn names(&self) -> Seq<String> {
        self.names@
    }

    pub closed spec fn tab(&self) -> usize {
        self.tab
    }

    pub closed spec fn multiplier(&self) -> u64 {
        self.multiplier
    }

    pub closed spec fn clock(&self) -> ActivityClock {
        self.clock
    }

    /// The tab list is non-empty with unique names, the current tab is on
    /// it, the content table covers it, and the startup multiplier is 2
    /// until the first auto-advance drops it to 1.
    pub open spec fn wf(&self) -> bool {
        &&& 1 <= self.names().len() <= usize::MAX / 2
        &&& self.pages().len() == self.names().len()
        &&& 1 <= self.tab() <= self.names().len()
        &&& forall|i: int, j: int|
            0 <= i < j < self.names().len() ==> (#[trigger] self.names()[i])@ != (
            #[trigger] self.names()[j])@
        &&& self.clock().inv()
        &&& self.clock().content().len() == self.names().len()
        &&& (self.multiplier() == 1 || self.multiplier() == 2)
    }

    /// Everything but the current tab, the multiplier and the clock is as it
    /// was.
    pub open spec fn same_tabs(&self, other: &Browser) -> bool {
        &&& self.kiosk_mode() == other.kiosk_mode()
        &&& self.pages() == other.pages()
        &&& self.names() == other.names()
    }

    /// Build the controller from the configured tab list, dropping entries
    /// whose name already occurred. The display starts on the first tab,
    /// unpaused and unheld, with activity recorded at `now`.
    pub fn new(args: &CommandLineArgs, entries: Vec<(String, Page)>, now: u64) -> (r: Browser)
        requires
            1 <= entries@.len() <= usize::MAX / 2,
        ensures
            r.wf(),
            r.kiosk_mode() == args.kiosk,
            r.tab() == FIRST_TAB,
            r.multiplier() == 2,
            r.names().len() == dedup_entries(entries@).len(),
            forall|i: int|
                0 <= i < r.names().len() ==> (#[trigger] r.names()[i]) == dedup_entries(
                    entries@,
                )[i].0 && r.pages()[i] == dedup_entries(entries@)[i].1,
            !r.clock().paused(),
            !r.clock().held(),
            r.clock().last_activity() == now,
            forall|i: int|
                0 <= i < r.clock().content().len() ==> (#[trigger] r.clock().content()[i]).0@
                    == Seq::<char>::empty() && r.clock().content()[i].1 is None,
    {
        let n = entries.len();
        let mut names: Vec<String> = Vec::new();
        let mut pages: Vec<Page> = Vec::new();
        let mut i: usize = 0;
        proof {
            assert(entries@.take(0) =~= Seq::<(String, Page)>::empty());
        }
        while i < n
            invariant
                n == entries@.len() <= usize::MAX / 2,
                i <= n,
                names@.len() == pages@.len() == dedup_entries(entries@.take(i as int)).len(),
                names@.len() <= i,
                forall|j: int|
                    0 <= j < names@.len() ==> (#[trigger] names@[j]) == dedup_entries(
                        entries@.take(i as int),
                    )[j].0 && pages@[j] == dedup_entries(entries@.take(i as int))[j].1,
                forall|j: int, k: int|
                    0 <= j < k < names@.len() ==> (#[trigger] names@[j])@ != (
                    #[trigger] names@[k])@,
                i >= 1 ==> names@.len() >= 1,
            decreases n - i,
        {
            let ghost prefix = entries@.take(i as int);
            let name = entries[i].0.clone();
            let page = Page { url: entries[i].1.url.clone(), reload: entries[i].1.reload };
            let mut seen = false;
            let mut j: usize = 0;
            let m = names.len();
            while j < m
                invariant
                    m == names@.len(),
                    j <= m,
                    seen == (exists|k: int|
                        0 <= k < j && (#[trigger] names@[k])@ == name@),
                decreases m - j,
            {
                if names[j] == name {
                    seen = true;
                }
                j = j + 1;
            }
            proof {
                assert(entries@.take(i + 1).drop_last() =~= prefix);
                assert(entries@.take(i + 1).last() == entries@[i as int]);
                lemma_dedup_same_names(prefix, name@);
                if seen {
                    let k = choose|k: int|
                        0 <= k < names@.len() && (#[trigger] names@[k])@ == name@;
                    assert(dedup_entries(prefix)[k].0@ == name@);
                    assert(names_contain(dedup_entries(prefix), name@));
                } else {
                    if names_contain(dedup_entries(prefix), name@) {
                        let k = choose|k: int|
                            0 <= k < dedup_entries(prefix).len() && (#[trigger] dedup_entries(
                                prefix,
                            )[k]).0@ == name@;
                        assert(names@[k]@ == name@);
                    }
                }
                assert(seen == names_contain(prefix, name@));
            }
            if !seen {
                names.push(name);
                pages.push(page);
            }
            i = i + 1;
        }
        proof {
            assert(entries@.take(n as int) =~= entries@);
        }
        let tabs = names.len();
        Browser {
            kiosk: args.kiosk,
            pages,
            names,
            tab: FIRST_TAB,
            multiplier: 2,
            clock: ActivityClock::new(now, tabs),
        }
    }

    /// How many tabs there are.
    pub fn tab_count(&self) -> (r: usize)
        ensures
            r == self.names().len(),
    {
        self.names.len()
    }

    /// The last tab's number.
    pub fn last_tab(&self) -> (r: usize)
        ensures
            r == self.names().len(),
    {
        self.names.len()
    }

    /// The current tab's number.
    pub fn current_tab(&self) -> (r: usize)
        ensures
            r == self.tab(),
    {
        self.tab
    }

    /// The configured page addresses, in tab order.
    pub fn urls(&self) -> (r: Vec<String>)
        ensures
            r@.len() == self.pages().len(),
            forall|i: int| 0 <= i < r@.len() ==> (#[trigger] r@[i])@ == self.pages()[i].url@,
    {
        let n = self.pages.len();
        let mut out: Vec<String> = Vec::new();
        let mut i: usize = 0;
        while i < n
            invariant
                n == self.pages@.len(),
                i <= n,
                out@.len() == i,
                forall|j: int| 0 <= j < i ==> (#[trigger] out@[j])@ == self.pages@[j].url@,
            decreases n - i,
        {
            out.push(self.pages[i].url.clone());
            i = i + 1;
        }
        out
    }

    /// The tab one step back from the current one, wrapping to the last.
    pub fn previous_tab_id(&self) -> (r: usize)
        requires
            self.wf(),
        ensures
            r == wrap_prev(self.tab() as int, self.names().len() as int),
            1 <= r <= self.names().len(),
    {
        if self.tab == FIRST_TAB {
            self.names.len()
        } else {
            self.tab - 1
        }
    }

    /// The tab one step on from the current one, wrapping to the first.
    pub fn next_tab_id(&self) -> (r: usize)
        requires
            self.wf(),
        ensures
            r == wrap_next(self.tab() as int, self.names().len() as int),
            1 <= r <= self.names().len(),
    {
        if self.tab == self.names.len() {
            FIRST_TAB
        } else {
            self.tab + 1
        }
    }

    /// Record user activity at `now`.
    pub fn user_activity(&mut self, now: u64)
        requires
            old(self).wf(),
        ensures
            final(self).wf(),
            final(self).same_tabs(old(self)),
            final(self).tab() == old(self).tab(),
            final(self).multiplier() == old(self).multiplier(),
            final(self).clock().last_activity() == now,
            final(self).clock().paused() == old(self).clock().paused(),
            final(self).clock().held() == old(self).clock().held(),
            final(self).clock().content() == old(self).clock().content(),
    {
        self.clock.record_activity(now);
    }

    /// A user keypress is about to be forwarded: begin a hold (unless
    /// paused) and record activity. The caller injects the keys themselves.
    pub fn user_press(&mut self, now: u64)
        requires
            old(self).wf(),
        ensures
            final(self).wf(),
            final(self).same_tabs(old(self)),
            final(self).tab() == old(self).tab(),
            final(self).multiplier() == old(self).multiplier(),
            final(self).clock().last_activity() == now,
            final(self).clock().paused() == old(self).clock().paused(),
            final(self).clock().held() == (if old(self).clock().paused() {
                old(self).clock().held()
            } else {
                true
            }),
            final(self).clock().content() == old(self).clock().content(),
    {
        self.clock.enter_hold(now);
    }

    /// The keystroke that reloads the current tab; records activity and
    /// leaves hold and pause alone.
    pub fn reload_tab(&mut self, now: u64) -> (r: &'static str)
        requires
            old(self).wf(),
        ensures
            final(self).wf(),
            final(self).same_tabs(old(self)),
            final(self).tab() == old(self).tab(),
            final(self).multiplier() == old(self).multiplier(),
            final(self).clock().last_activity() == now,
            final(self).clock().paused() == old(self).clock().paused(),
            final(self).clock().held() == old(self).clock().held(),
            final(self).clock().content() == old(self).clock().content(),
            r@ == "Ctrl+r"@,
    {
        self.clock.record_activity(now);
        "Ctrl+r"
    }

    /// Enter the sticky pause and record activity.
    pub fn pause(&mut self, now: u64)
        requires
            old(self).wf(),
        ensures
            final(self).wf(),
            final(self).same_tabs(old(self)),
            final(self).tab() == old(self).tab(),
            final(self).multiplier() == old(self).multiplier(),
            final(self).clock().last_activity() == now,
            final(self).clock().paused(),
            !final(self).clock().held(),
            final(self).clock().content() == old(self).clock().content(),
    {
        self.clock.enter_pause(now);
    }

    /// Flip the pause: pause when unpaused, unpause (which also clears any
    /// hold) when paused. Records activity either way.
    pub fn toggle_pause(&mut self, now: u64)
        requires
            old(self).wf(),
        ensures
            final(self).wf(),
            final(self).same_tabs(old(self)),
            final(self).tab() == old(self).tab(),
            final(self).multiplier() == old(self).multiplier(),
            final(self).clock().last_activity() == now,
            final(self).clock().paused() == !old(self).clock().paused(),
            !final(self).clock().held(),
            final(self).clock().content() == old(self).clock().content(),
    {
        if self.clock.is_paused() {
            self.clock.exit_pause_if_set();
            self.clock.record_activity(now);
        } else {
            self.clock.enter_pause(now);
        }
    }

    /// Move straight to `tab` (which must exist), recording activity; the
    /// hold and pause flags are the caller's business. Returns the keys to
    /// inject (`None` when there is nothing to press) and whether the tab
    /// changed.
    pub fn change_tab(&mut self, tab: usize, now: u64) -> (r: (Option<String>, bool))
        requires
            old(self).wf(),
            1 <= tab <= old(self).names().len(),
        ensures
            final(self).wf(),
            final(self).same_tabs(old(self)),
            final(self).tab() == tab,
            final(self).multiplier() == old(self).multiplier(),
            final(self).clock().last_activity() == now,
            final(self).clock().paused() == old(self).clock().paused(),
            final(self).clock().held() == old(self).clock().held(),
            final(self).clock().content() == old(self).clock().content(),
            r.1 == (tab != old(self).tab()),
            ({
                let cmds = spec_route(
                    old(self).tab() as int,
                    tab as int,
                    old(self).names().len() as int,
                    spec_direct_limit(old(self).names().len() as int),
                );
                match r.0 {
                    None => cmds.len() == 0,
                    Some(k) => cmds.len() > 0 && k@ == spec_route_keys(cmds),
                }
            }),
    {
        let total = self.names.len();
        let limit = if total < DIRECT_TABS {
            total
        } else {
            DIRECT_TABS
        };
        let cmds = match route(self.tab, tab, total, limit) {
            Ok(cmds) => cmds,
            Err(_) => {
                proof {
                    assert(false);
                }
                Vec::new()
            },
        };
        let keys = if cmds.len() == 0 {
            None
        } else {
            Some(route_keys(&cmds))
        };
        let changed = tab != self.tab;
        self.tab = tab;
        self.clock.record_activity(now);
        (keys, changed)
    }

    /// Step to the previous tab (wrapping), clearing any pause, beginning a
    /// hold, and recording activity. Returns the keys to inject.
    pub fn goto_previous_tab(&mut self, now: u64) -> (keys: Option<String>)
        requires
            old(self).wf(),
        ensures
            final(self).wf(),
            final(self).same_tabs(old(self)),
            final(self).tab() == wrap_prev(
                old(self).tab() as int,
                old(self).names().len() as int,
            ),
            final(self).multiplier() == old(self).multiplier(),
            final(self).clock().last_activity() == now,
            !final(self).clock().paused(),
            final(self).clock().held(),
            final(self).clock().content() == old(self).clock().content(),
            ({
                let cmds = spec_route(
                    old(self).tab() as int,
                    wrap_prev(old(self).tab() as int, old(self).names().len() as int),
                    old(self).names().len() as int,
                    spec_direct_limit(old(self).names().len() as int),
                );
                match keys {
                    None => cmds.len() == 0,
                    Some(k) => cmds.len() > 0 && k@ == spec_route_keys(cmds),
                }
            }),
    {
        let tab = self.previous_tab_id();
        self.clock.exit_pause_if_set();
        self.clock.enter_hold(now);
        let (keys, _) = self.change_tab(tab, now);
        keys
    }

    /// Step to the next tab (wrapping), clearing any pause, beginning a
    /// hold, and recording activity. Returns the keys to inject.
    pub fn goto_next_tab(&mut self, now: u64) -> (keys: Option<String>)
        requires
            old(self).wf(),
        ensures
            final(self).wf(),
            final(self).same_tabs(old(self)),
            final(self).tab() == wrap_next(
                old(self).tab() as int,
                old(self).names().len() as int,
            ),
            final(self).multiplier() == old(self).multiplier(),
            final(self).clock().last_activity() == now,
            !final(self).clock().paused(),
            final(self).clock().held(),
            final(self).clock().content() == old(self).clock().content(),
            ({
                let cmds = spec_route(
                    old(self).tab() as int,
                    wrap_next(old(self).tab() as int, old(self).names().len() as int),
                    old(self).names().len() as int,
                    spec_direct_limit(old(self).names().len() as int),
                );
                match keys {
                    None => cmds.len() == 0,
                    Some(k) => cmds.len() > 0 && k@ == spec_route_keys(cmds),
                }
            }),
    {
        let tab = self.next_tab_id();
        self.clock.exit_pause_if_set();
        self.clock.enter_hold(now);
        let (keys, _) = self.change_tab(tab, now);
        keys
    }

    /// Navigate to the tab named `name`. An unknown name is reported and
    /// nothing changes; the named tab already being current only records
    /// activity; otherwise the tab changes, any pause is cleared, a hold
    /// begins, and the keys to inject come back with `settle == sync`.
    pub fn goto_by_name(&mut self, name: &str, sync: bool, now: u64) -> (r: GotoOutcome)
        requires
            old(self).wf(),
        ensures
            final(self).wf(),
            final(self).same_tabs(old(self)),
            final(self).multiplier() == old(self).multiplier(),
            match r {
                GotoOutcome::NotFound => {
                    &&& forall|j: int|
                        0 <= j < old(self).names().len() ==> (#[trigger] old(self).names()[j])@
                            != name@
                    &&& *final(self) == *old(self)
                },
                GotoOutcome::AlreadyCurrent => {
                    &&& name_at(old(self).names(), name@, old(self).tab() - 1)
                    &&& final(self).tab() == old(self).tab()
                    &&& final(self).clock().last_activity() == now
                    &&& final(self).clock().paused() == old(self).clock().paused()
                    &&& final(self).clock().held() == old(self).clock().held()
                    &&& final(self).clock().content() == old(self).clock().content()
                },
                GotoOutcome::Moved { keys, settle } => {
                    &&& name_at(old(self).names(), name@, final(self).tab() - 1)
                    &&& final(self).tab() != old(self).tab()
                    &&& settle == sync
                    &&& final(self).clock().last_activity() == now
                    &&& !final(self).clock().paused()
                    &&& final(self).clock().held()
                    &&& final(self).clock().content() == old(self).clock().content()
                    &&& keys@ == spec_route_keys(
                        spec_route(
                            old(self).tab() as int,
                            final(self).tab() as int,
                            old(self).names().len() as int,
                            spec_direct_limit(old(self).names().len() as int),
                        ),
                    )
                },
            },
    {
        let name_owned = name.to_owned();
        let n = self.names.len();
        let mut found: Option<usize> = None;
        let mut i: usize = 0;
        while i < n
            invariant
                name_owned@ == name@,
                n == self.names@.len(),
                i <= n,
                match found {
                    None => forall|j: int|
                        0 <= j < i ==> (#[trigger] self.names@[j])@ != name@,
                    Some(idx) => idx < i && self.names@[idx as int]@ == name@,
                },
            decreases n - i,
        {
            if found.is_none() && self.names[i] == name_owned {
                found = Some(i);
            }
            i = i + 1;
        }
        match found {
            None => GotoOutcome::NotFound,
            Some(idx) => {
                let tab = idx + 1;
                let (keys, changed) = self.change_tab(tab, now);
                if changed {
                    self.clock.exit_pause_if_set();
                    self.clock.enter_hold(now);
                    let keys = match keys {
                        Some(k) => k,
                        None => {
                            proof {
                                lemma_route_nonempty(
                                    old(self).tab() as int,
                                    tab as int,
                                    old(self).names().len() as int,
                                    spec_direct_limit(old(self).names().len() as int),
                                );
                            }
                            String::new()
                        },
                    };
                    GotoOutcome::Moved { keys, settle: sync }
                } else {
                    GotoOutcome::AlreadyCurrent
                }
            },
        }
    }

    /// The instant auto-advance is next due, using the stored startup
    /// multiplier.
    pub fn autoscroll_deadline(&self, delay: u64, pause_d: u64, hold_d: u64) -> (r: u64)
        requires
            self.wf(),
            self.clock().last_activity() + pause_d <= u64::MAX,
            self.clock().last_activity() + hold_d <= u64::MAX,
            delay * self.multiplier() <= u64::MAX,
            self.clock().last_activity() + delay * self.multiplier() <= u64::MAX,
        ensures
            r == spec_deadline(
                self.clock().last_activity() as int,
                self.clock().paused(),
                self.clock().held(),
                delay as int,
                pause_d as int,
                hold_d as int,
                self.multiplier() as int,
            ),
    {
        self.clock.compute_deadline(delay, pause_d, hold_d, self.multiplier)
    }

    /// One auto-advance step, run when the deadline has passed: observe the
    /// current tab's content (when a fingerprint was captured) to decide
    /// whether a reload is due first, clear any pause and hold, and move to
    /// the next tab. Drops the startup multiplier to 1.
    pub fn autoscroll_step(&mut self, now: u64, content: Option<String>) -> (r: AdvanceOutcome)
        requires
            old(self).wf(),
        ensures
            final(self).wf(),
            final(self).same_tabs(old(self)),
            final(self).multiplier() == 1,
            final(self).tab() == wrap_next(
                old(self).tab() as int,
                old(self).names().len() as int,
            ),
            final(self).clock().last_activity() == now,
            !final(self).clock().paused(),
            !final(self).clock().held(),
            ({
                let cmds = spec_route(
                    old(self).tab() as int,
                    wrap_next(old(self).tab() as int, old(self).names().len() as int),
                    old(self).names().len() as int,
                    spec_direct_limit(old(self).names().len() as int),
                );
                match r.keys {
                    None => cmds.len() == 0,
                    Some(k) => cmds.len() > 0 && k@ == spec_route_keys(cmds),
                }
            }),
            final(self).clock().content().len() == old(self).clock().content().len(),
            forall|i: int|
                0 <= i < old(self).clock().content().len() && i != old(self).tab() - 1
                    ==> final(self).clock().content()[i] == old(self).clock().content()[i],
            ({
                let entry = old(self).clock().content()[old(self).tab() - 1];
                let threshold = old(self).pages()[old(self).tab() - 1].reload;
                match content {
                    None => {
                        &&& final(self).clock().content() == old(self).clock().content()
                        &&& !r.reload
                    },
                    Some(fp) => {
                        &&& r.reload == observe_due(entry, fp@, now, threshold)
                        &&& if observe_same(entry, fp@) {
                            &&& final(self).clock().content()[old(self).tab() - 1].0 == entry.0
                            &&& final(self).clock().content()[old(self).tab() - 1].1 == (
                            if r.reload {
                                None::<u64>
                            } else {
                                entry.1
                            })
                        } else {
                            &&& final(self).clock().content()[old(self).tab() - 1].0@ == fp@
                            &&& final(self).clock().content()[old(self).tab() - 1].1 == Some(now)
                        }
                    },
                }
            }),
    {
        self.multiplier = 1;
        let tab = self.next_tab_id();
        let mut reload = false;
        match content {
            Some(fp) => {
                let threshold = self.pages[self.tab - 1].reload;
                match self.clock.observe_content(self.tab, fp, now, threshold) {
                    Some((_elapsed, due)) => {
                        if due {
                            reload = true;
                        }
                    },
                    None => {},
                }
            },
            None => {},
        }
        self.clock.exit_pause_if_set();
        let (keys, _) = self.change_tab(tab, now);
        AdvanceOutcome { reload, keys }
    }
}

/// The direct-jump limit actually usable with `total` tabs.
pub open spec fn spec_direct_limit(total: int) -> int {
    if total < DIRECT_TABS as int {
        total
    } else {
        DIRECT_TABS as int
    }
}

/// A route between two different tabs is never empty.
pub proof fn lemma_route_nonempty(current: int, target: int, total: int, limit: int)
    requires
        1 <= current <= total,
        1 <= target <= total,
        target != current,
    ensures
        spec_route(current, target, total, limit).len() > 0,
{
}

} // verus!
