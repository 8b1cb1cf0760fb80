//! The hidden skip phrase typed on the countdown surface.

use vstd::prelude::*;
use crate::machine::{AppState, CountdownState, SKIP_PHRASE_LEN};
use crate::text::{ascii_lower, lower_ascii};

verus! {

/// The skip phrase with a typographic apostrophe.
pub open spec fn smart_phrase() -> Seq<char> {
    "i don’t care about my health."@
}

/// The skip phrase with an ASCII apostrophe.
pub open spec fn ascii_phrase() -> Seq<char> {
    "i don't care about my health."@
}

/// The progress through `phrase` after typing `ch` at progress `idx`, and
/// whether that completes the phrase.  A character that does not continue
/// the match starts it over, counting itself when it begins the phrase.
pub open spec fn advanced(idx: nat, phrase: Seq<char>, ch: char) -> (nat, bool) {
    if idx < phrase.len() && phrase[idx as int] == ch {
        (idx + 1, idx + 1 == phrase.len())
    } else if phrase.len() > 0 && phrase[0] == ch {
        (1, phrase.len() == 1)
    } else {
        (0, false)
    }
}

/// A control character, which typing ignores.
pub open spec fn is_control(c: char) -> bool {
    c < ' ' || c == '\u{7f}'
}

/// The countdown after typing `ch` into it.
pub open spec fn typed(c: CountdownState, ch: char) -> CountdownState {
    let lower = ascii_lower(ch);
    let (smart, smart_done) = advanced(c.skip_smart_idx as nat, smart_phrase(), lower);
    let (ascii, ascii_done) = advanced(c.skip_ascii_idx as nat, ascii_phrase(), lower);
    if smart_done || ascii_done {
        CountdownState { skip_smart_idx: 0, skip_ascii_idx: 0, skip_requested: true, ..c }
    } else {
        CountdownState { skip_smart_idx: smart as usize, skip_ascii_idx: ascii as usize, ..c }
    }
}

/// Whether the countdown of `s` takes the key `ch`: only an open
/// countdown with no skip requested yet does, and never a control
/// character.
pub open spec fn takes_key(s: AppState, ch: char) -> bool {
    match s.countdown {
        Some(c) => !c.skip_requested && !is_control(ch),
        None => false,
    }
}

/// The state after typing `ch` on the countdown surface.
pub open spec fn keyed(s: AppState, ch: char) -> AppState {
    if takes_key(s, ch) {
        AppState { countdown: Some(typed(s.countdown->Some_0, ch)), ..s }
    } else {
        s
    }
}

/// Whether typing `ch` into the countdown of `s` requests a skip; letters
/// count in either case.
pub open spec fn requests_skip(s: AppState, ch: char) -> bool {
    takes_key(s, ch) && typed(s.countdown->Some_0, ch).skip_requested
}

fn smart_phrase_text() -> (r: &'static str)
    ensures
        r@ == smart_phrase(),
        r@.len() == SKIP_PHRASE_LEN,
{
    let t = "i don’t care about my health.";
    proof {
        reveal_strlit("i don’t care about my health.");
    }
    t
}

fn ascii_phrase_text() -> (r: &'static str)
    ensures
        r@ == ascii_phrase(),
        r@.len() == SKIP_PHRASE_LEN,
{
    let t = "i don't care about my health.";
    proof {
        reveal_strlit("i don't care about my health.");
    }
    t
}

/// Moves the progress `idx` through `phrase` on typing `ch`; returns
/// whether the phrase is now complete.
pub fn advance_phrase_idx(idx: &mut usize, phrase: &str, ch: char) -> (r: bool)
    requires
        *old(idx) <= phrase@.len(),
        phrase@.len() < usize::MAX,
    ensures
        (*final(idx) as nat, r) == advanced(*old(idx) as nat, phrase@, ch),
        *final(idx) <= phrase@.len(),
{
    let len = phrase.unicode_len();
    if *idx < len && phrase.get_char(*idx) == ch {
        *idx = *idx + 1;
        return *idx == len;
    }
    *idx = 0;
    if len > 0 && phrase.get_char(0) == ch {
        *idx = 1;
        return len == 1;
    }
    false
}

impl AppState {
    /// A character typed on the countdown surface; returns `true` when it
    /// completes a skip phrase, which the host then routes to
    /// [`AppState::skip_break`].
    pub fn on_countdown_char(&mut self, ch: char) -> (r: bool)
        requires
            old(self).wf(),
        ensures
            final(self).wf(),
            r == requests_skip(*old(self), ch),
            *final(self) == keyed(*old(self), ch),
    {
        let mut c = match self.countdown {
            Some(c) => c,
            None => return false,
        };
        if c.skip_requested || ch < ' ' || ch == '\u{7f}' {
            return false;
        }
        let lower = lower_ascii(ch);
        let smart_done = advance_phrase_idx(&mut c.skip_smart_idx, smart_phrase_text(), lower);
        let ascii_done = advance_phrase_idx(&mut c.skip_ascii_idx, ascii_phrase_text(), lower);
        if smart_done || ascii_done {
            c.skip_smart_idx = 0;
            c.skip_ascii_idx = 0;
            c.skip_requested = true;
        }
        self.countdown = Some(c);
        smart_done || ascii_done
    }
}

} // verus!
