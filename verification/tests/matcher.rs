use kiosk::matcher::{FeedResult, Konami, SequenceMatcher};

fn code_symbols() -> Vec<char> {
    vec!['U', 'U', 'D', 'D', 'L', 'R', 'L', 'R', 'B', 'A', 'S']
}

#[test]
fn matcher_accepts_full_code() {
    let mut m = SequenceMatcher::new(code_symbols());
    let symbols = code_symbols();
    for (i, c) in symbols.iter().enumerate() {
        let r = m.feed(*c);
        if i + 1 < symbols.len() {
            assert_eq!(r, FeedResult::Matching, "symbol {i}");
        } else {
            assert_eq!(r, FeedResult::Complete);
        }
    }
    // The window was cleared on completion: the code is accepted again.
    for (i, c) in symbols.iter().enumerate() {
        let r = m.feed(*c);
        if i + 1 < symbols.len() {
            assert_eq!(r, FeedResult::Matching, "second round, symbol {i}");
        } else {
            assert_eq!(r, FeedResult::Complete);
        }
    }
}

#[test]
fn matcher_resets_on_mismatch_and_restarts_from_that_symbol() {
    let mut m = SequenceMatcher::new(code_symbols());
    assert_eq!(m.feed('U'), FeedResult::Matching);
    assert_eq!(m.feed('U'), FeedResult::Matching);
    assert_eq!(m.feed('X'), FeedResult::Reset);
    // The window now holds only 'X'; feeding 'U' cannot yet match the
    // prefix "UU", so it resets again, leaving 'U' as the window.
    assert_eq!(m.feed('U'), FeedResult::Reset);
    // From the retained 'U', the rest of the code completes.
    let symbols = code_symbols();
    for (i, c) in symbols.iter().enumerate().skip(1) {
        let r = m.feed(*c);
        if i + 1 < symbols.len() {
            assert_eq!(r, FeedResult::Matching, "symbol {i}");
        } else {
            assert_eq!(r, FeedResult::Complete);
        }
    }
}

#[test]
fn matcher_repeated_nonmatching_symbol_stays_reset() {
    let mut m = SequenceMatcher::new(code_symbols());
    for _ in 0..20 {
        assert_eq!(m.feed('X'), FeedResult::Reset);
    }
    // The window never grew beyond the last symbol: one more reset clears
    // the leftover 'X', and the code then completes from the retained 'U'.
    let symbols = code_symbols();
    assert_eq!(m.feed('U'), FeedResult::Reset);
    for (i, c) in symbols.iter().enumerate().skip(1) {
        let r = m.feed(*c);
        if i + 1 < symbols.len() {
            assert_eq!(r, FeedResult::Matching, "symbol {i}");
        } else {
            assert_eq!(r, FeedResult::Complete);
        }
    }
}

#[test]
fn konami_add_maps_results() {
    let mut k = Konami::new();
    assert_eq!(k.add('X'), Some(false));
    assert_eq!(k.add('U'), Some(false));
    assert_eq!(k.add('U'), None);
    assert_eq!(k.add('D'), None);
    assert_eq!(k.add('D'), None);
    assert_eq!(k.add('L'), None);
    assert_eq!(k.add('R'), None);
    assert_eq!(k.add('L'), None);
    assert_eq!(k.add('R'), None);
    assert_eq!(k.add('B'), None);
    assert_eq!(k.add('A'), None);
    assert_eq!(k.add('S'), Some(true));
    // Cleared after completion.
    assert_eq!(k.add('S'), Some(false));
}
