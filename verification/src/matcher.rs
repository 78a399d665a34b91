//! Fixed-code detector over a stream of symbols.
//!
//! `SequenceMatcher` keeps a bounded trailing window (capacity: the code's
//! length) of the symbols fed to it. Each fed symbol either extends a match
//! of the code's prefix, completes the code, or resets the window to the
//! symbol just fed. `Konami` binds the matcher to the fixed button code.

use vstd::prelude::*;

verus! {

/// Outcome of feeding one symbol.
#[derive(Clone, Copy, Debug, PartialEq, Eq, Structural)]
pub enum FeedResult {
    /// The window is a proper prefix of the code.
    Matching,
    /// The window equals the whole code; the window has been cleared.
    Complete,
    /// The window did not match; it was trimmed to the symbol just fed.
    Reset,
}

/// The trailing window after appending `c` and dropping the oldest symbols
/// down to the code's length.
pub open spec fn window_after_push(w: Seq<char>, code: Seq<char>, c: char) -> Seq<char> {
    let pushed = w.push(c);
    if pushed.len() > code.len() {
        pushed.skip(pushed.len() - code.len())
    } else {
        pushed
    }
}

/// One transition of the matcher: the new window and the reported result.
pub open spec fn spec_feed(w: Seq<char>, code: Seq<char>, c: char) -> (Seq<char>, FeedResult) {
    let t = window_after_push(w, code, c);
    if t == code.take(t.len() as int) {
        if t.len() == code.len() {
            (Seq::<char>::empty(), FeedResult::Complete)
        } else {
            (t, FeedResult::Matching)
        }
    } else {
        (seq![c], FeedResult::Reset)
    }
}

/// Sliding-window matcher for one literal code.
pub struct SequenceMatcher {
    code: Vec<char>,
    window: Vec<char>,
}

impl SequenceMatcher {
    /// The code this matcher accepts.
    pub closed spec fn code(&self) -> Seq<char> {
        self.code@
    }

    /// The current trailing window.
    pub closed spec fn window(&self) -> Seq<char> {
        self.window@
    }

    /// The code is non-empty and the window never outgrows it.
    pub closed spec fn wf(&self) -> bool {
        &&& self.code@.len() >= 1
        &&& self.window@.len() <= self.code@.len()
    }

    pub fn new(code: Vec<char>) -> (r: SequenceMatcher)
        requires
            code@.len() >= 1,
        ensures
            r.wf(),
            r.code() == code@,
            r.window() == Seq::<char>::empty(),
    {
        SequenceMatcher { code, window: Vec::new() }
    }

    /// Feed one symbol: append it to the window (dropping the oldest symbol
    /// if the window would outgrow the code), then report whether the window
    /// is a prefix of the code (`Matching`), the whole code (`Complete`,
    /// clearing the window), or no match (`Reset`, trimming the window to
    /// the fed symbol).
    pub fn feed(&mut self, c: char) -> (r: FeedResult)
        requires
            old(self).wf(),
        ensures
            final(self).wf(),
            final(self).code() == old(self).code(),
            final(self).window() == spec_feed(old(self).window(), old(self).code(), c).0,
            r == spec_feed(old(self).window(), old(self).code(), c).1,
    {
        self.window.push(c);
        if self.window.len() > self.code.len() {
            self.window.remove(0);
            proof {
                assert(self.window@ =~= window_after_push(
                    old(self).window(),
                    old(self).code(),
                    c,
                ));
            }
        }
        let n = self.window.len();
        let mut is_prefix = true;
        let mut i: usize = 0;
        while i < n
            invariant
                n == self.window@.len() <= self.code@.len(),
                i <= n,
                is_prefix == (forall|j: int| 0 <= j < i ==> self.window@[j] == self.code@[j]),
            decreases n - i,
        {
            if self.window[i] != self.code[i] {
                is_prefix = false;
            }
            i = i + 1;
        }
        proof {
            assert(is_prefix == (self.window@ =~= self.code@.take(self.window@.len() as int)));
        }
        if is_prefix {
            if n == self.code.len() {
                self.window.clear();
                FeedResult::Complete
            } else {
                FeedResult::Matching
            }
        } else {
            self.window.clear();
            self.window.push(c);
            proof {
                assert(self.window@ =~= seq![c]);
            }
            FeedResult::Reset
        }
    }
}

/// Law: feeding the code's next symbol while the window holds a prefix of
/// the code keeps matching, and completes (clearing the window) exactly on
/// the code's last symbol.
pub proof fn lemma_feed_extends_match(w: Seq<char>, code: Seq<char>, c: char, i: int)
    requires
        code.len() >= 1,
        0 <= i < code.len(),
        w == code.take(i),
        c == code[i],
    ensures
        i + 1 < code.len() ==> spec_feed(w, code, c) == (
            code.take(i + 1),
            FeedResult::Matching,
        ),
        i + 1 == code.len() ==> spec_feed(w, code, c) == (
            Seq::<char>::empty(),
            FeedResult::Complete,
        ),
{
    assert(w.push(c) =~= code.take(i + 1));
    assert(window_after_push(w, code, c) == code.take(i + 1));
    assert(code.take(i + 1) =~= code.take(code.take(i + 1).len() as int));
}

/// Law: feeding a symbol that does not extend the matched prefix resets the
/// matcher, and matching restarts from exactly that symbol.
pub proof fn lemma_feed_mismatch(w: Seq<char>, code: Seq<char>, c: char, i: int)
    requires
        code.len() >= 1,
        0 <= i < code.len(),
        w == code.take(i),
        c != code[i],
    ensures
        spec_feed(w, code, c) == (seq![c], FeedResult::Reset),
{
    let t = window_after_push(w, code, c);
    assert(t == w.push(c));
    assert(t[i] == c);
    assert(code.take(t.len() as int)[i] == code[i]);
}

/// Law: whenever a fed symbol does not extend a match, the window shrinks to
/// that one symbol, so feeding non-matching symbols repeatedly never grows
/// the window beyond length 1.
pub proof fn lemma_reset_window(w: Seq<char>, code: Seq<char>, c: char)
    requires
        code.len() >= 1,
        spec_feed(w, code, c).1 == FeedResult::Reset,
    ensures
        spec_feed(w, code, c).0 == seq![c],
        spec_feed(w, code, c).0.len() == 1,
{
}

/// The matcher run over a whole symbol sequence: the final window and the
/// result reported for each symbol.
pub open spec fn run_matcher(w: Seq<char>, code: Seq<char>, symbols: Seq<char>) -> (
    Seq<char>,
    Seq<FeedResult>,
)
    decreases symbols.len(),
{
    if symbols.len() == 0 {
        (w, Seq::empty())
    } else {
        let step = spec_feed(w, code, symbols[0]);
        let rest = run_matcher(step.0, code, symbols.drop_first());
        (rest.0, seq![step.1] + rest.1)
    }
}

/// Feeding the rest of the code, in order, to a matcher whose window holds
/// the code's first `i` symbols: every feed keeps matching, the last one
/// completes, and the window ends empty.
pub proof fn lemma_feed_code_from(code: Seq<char>, i: int)
    requires
        code.len() >= 1,
        0 <= i <= code.len(),
    ensures
        ({
            let run = run_matcher(code.take(i), code, code.skip(i));
            &&& run.1.len() == code.len() - i
            &&& forall|j: int|
                0 <= j < run.1.len() ==> run.1[j] == (if i + j + 1 == code.len() {
                    FeedResult::Complete
                } else {
                    FeedResult::Matching
                })
            &&& (i < code.len() ==> run.0 == Seq::<char>::empty())
        }),
    decreases code.len() - i,
{
    let symbols = code.skip(i);
    if i == code.len() {
        assert(symbols =~= Seq::<char>::empty());
    } else {
        assert(symbols[0] == code[i]);
        lemma_feed_extends_match(code.take(i), code, code[i], i);
        let run = run_matcher(code.take(i), code, symbols);
        let step = spec_feed(code.take(i), code, code[i]);
        assert(symbols.drop_first() =~= code.skip(i + 1));
        if i + 1 < code.len() {
            lemma_feed_code_from(code, i + 1);
            let rest = run_matcher(code.take(i + 1), code, code.skip(i + 1));
            assert(run.1 == seq![step.1] + rest.1);
            assert forall|j: int| 0 <= j < run.1.len() implies run.1[j] == (if i + j + 1
                == code.len() {
                FeedResult::Complete
            } else {
                FeedResult::Matching
            }) by {
                if j > 0 {
                    assert(run.1[j] == rest.1[j - 1]);
                }
            }
        } else {
            let rest = run_matcher(Seq::<char>::empty(), code, code.skip(i + 1));
            assert(code.skip(i + 1) =~= Seq::<char>::empty());
            assert(run.1 =~= seq![FeedResult::Complete]);
        }
    }
}

/// Law: feeding the exact code symbols in order to a fresh matcher reports
/// `Matching` for every symbol but the last and `Complete` on the last, and
/// clears the window.
pub proof fn lemma_feed_code_in_order(code: Seq<char>)
    requires
        code.len() >= 1,
    ensures
        ({
            let run = run_matcher(Seq::empty(), code, code);
            &&& run.0 == Seq::<char>::empty()
            &&& run.1.len() == code.len()
            &&& forall|i: int|
                0 <= i < code.len() ==> run.1[i] == (if i + 1 == code.len() {
                    FeedResult::Complete
                } else {
                    FeedResult::Matching
                })
        }),
{
    assert(Seq::<char>::empty() =~= code.take(0));
    assert(code.skip(0) =~= code);
    lemma_feed_code_from(code, 0);
}

/// The fixed button code recognised by `Konami`.
pub open spec fn konami_code() -> Seq<char> {
    seq!['U', 'U', 'D', 'D', 'L', 'R', 'L', 'R', 'B', 'A', 'S']
}

/// The button-code detector: a `SequenceMatcher` over the fixed code.
pub struct Konami {
    matcher: SequenceMatcher,
}

impl Konami {
    pub closed spec fn window(&self) -> Seq<char> {
        self.matcher.window()
    }

    pub closed spec fn wf(&self) -> bool {
        &&& self.matcher.wf()
        &&& self.matcher.code() == konami_code()
    }

    pub fn new() -> (r: Konami)
        ensures
            r.wf(),
            r.window() == Seq::<char>::empty(),
    {
        let mut code: Vec<char> = Vec::new();
        code.push('U');
        code.push('U');
        code.push('D');
        code.push('D');
        code.push('L');
        code.push('R');
        code.push('L');
        code.push('R');
        code.push('B');
        code.push('A');
        code.push('S');
        proof {
            assert(code@ =~= konami_code());
        }
        Konami { matcher: SequenceMatcher::new(code) }
    }

    /// Feed one symbol. Returns `Some(true)` when the symbol completes the
    /// code, `None` while a partial match is in progress, and `Some(false)`
    /// when the symbol does not extend a match.
    pub fn add(&mut self, key: char) -> (r: Option<bool>)
        requires
            old(self).wf(),
        ensures
            final(self).wf(),
            final(self).window() == spec_feed(old(self).window(), konami_code(), key).0,
            r == (match spec_feed(old(self).window(), konami_code(), key).1 {
                FeedResult::Complete => Some(true),
                FeedResult::Matching => None::<bool>,
                FeedResult::Reset => Some(false),
            }),
    {
        match self.matcher.feed(key) {
            FeedResult::Complete => Some(true),
            FeedResult::Matching => None,
            FeedResult::Reset => Some(false),
        }
    }
}

} // verus!
