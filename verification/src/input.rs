use vstd::prelude::*;

use crate::actions::{key_down, key_up, ActionView, RunAction};

verus! {

/// Keysym of the Return key.
pub const KEYSYM_ENTER: u32 = 0xff0d;

/// Keysym of the Tab key.
pub const KEYSYM_TAB: u32 = 0xff09;

/// Keysym of the space bar.
pub const KEYSYM_SPACEBAR: u32 = 0x0020;

/// Keysym of the left Super key.
pub const KEYSYM_LEFT_SUPER: u32 = 0xffeb;

/// Keysym of the left Shift key.
pub const KEYSYM_LEFT_SHIFT: u32 = 0xffe1;

/// Milliseconds slept after each typed character, to respect guest
/// keyboard-buffer limits.
pub const CHAR_PACING_MS: u64 = 200;

/// The keysym of a printable character: a fixed offset plus its codepoint.
pub open spec fn keysym_of(c: char) -> u32 {
    (0x0100_0000 + c as int) as u32
}

/// The punctuation characters that are typed with a shift modifier held.
pub open spec fn shift_punctuation(c: char) -> bool {
    c == '~' || c == '!' || c == '#' || c == '$' || c == '%' || c == '^' || c == '&' || c == '*'
        || c == '(' || c == ')' || c == '_' || c == '+'
}

/// Whether a character is typed with a shift modifier held: uppercase letters
/// and the fixed punctuation set.
pub open spec fn needs_shift(c: char) -> bool {
    ('A' as int <= c as int && c as int <= 'Z' as int) || shift_punctuation(c)
}

/// The exact effect sequence of typing one character: shift-down if the
/// character needs shift, key-down, key-up, shift-up if it needs shift, then
/// the fixed pacing sleep.
pub open spec fn char_actions(c: char) -> Seq<ActionView> {
    if needs_shift(c) {
        seq![
            key_down(KEYSYM_LEFT_SHIFT as u32),
            key_down(keysym_of(c)),
            key_up(keysym_of(c)),
            key_up(KEYSYM_LEFT_SHIFT as u32),
            ActionView::SleepMs(CHAR_PACING_MS as u64),
        ]
    } else {
        seq![
            key_down(keysym_of(c)),
            key_up(keysym_of(c)),
            ActionView::SleepMs(CHAR_PACING_MS as u64),
        ]
    }
}

/// The exact effect sequence of typing a text, character by character in
/// order.
pub open spec fn text_actions(s: Seq<char>) -> Seq<ActionView>
    decreases s.len(),
{
    if s.len() == 0 {
        Seq::<ActionView>::empty()
    } else {
        text_actions(s.drop_last()) + char_actions(s.last())
    }
}

/// The exact effect sequence of one special key: a press/release pair with no
/// extra delay.
pub open spec fn special_key_actions(keysym: u32) -> Seq<ActionView> {
    seq![key_down(keysym), key_up(keysym)]
}

fn needs_shift_exec(c: char) -> (r: bool)
    ensures
        r == needs_shift(c),
{
    let n = c as u32;
    (65 <= n && n <= 90) || c == '~' || c == '!' || c == '#' || c == '$' || c == '%' || c == '^'
        || c == '&' || c == '*' || c == '(' || c == ')' || c == '_' || c == '+'
}

/// Append the effect sequence of typing one character.
fn push_char_actions(acc: &mut Vec<RunAction>, c: char)
    ensures
        final(acc).deep_view() == old(acc).deep_view() + char_actions(c),
{
    let k = 0x0100_0000u32 + c as u32;
    let shift = needs_shift_exec(c);
    if shift {
        acc.push(RunAction::SendKey { down: true, keysym: KEYSYM_LEFT_SHIFT });
    }
    acc.push(RunAction::SendKey { down: true, keysym: k });
    acc.push(RunAction::SendKey { down: false, keysym: k });
    if shift {
        acc.push(RunAction::SendKey { down: false, keysym: KEYSYM_LEFT_SHIFT });
    }
    acc.push(RunAction::SleepMs(CHAR_PACING_MS));
    proof {
        assert(final(acc).deep_view() =~= old(acc).deep_view() + char_actions(c));
    }
}

/// Append the effect sequence of typing a whole text: per character, the
/// shift-classified key events followed by the fixed pacing sleep.
pub fn push_text_actions(acc: &mut Vec<RunAction>, text: &str)
    ensures
        final(acc).deep_view() == old(acc).deep_view() + text_actions(text@),
{
    let n = text.unicode_len();
    let mut i: usize = 0;
    while i < n
        invariant
            n == text@.len(),
            i <= n,
            acc.deep_view() == old(acc).deep_view() + text_actions(text@.take(i as int)),
        decreases n - i,
    {
        let c = text.get_char(i);
        push_char_actions(acc, c);
        proof {
            assert(text@.take(i + 1).drop_last() =~= text@.take(i as int));
            assert(text@.take(i + 1).last() == text@[i as int]);
            assert(text_actions(text@.take(i + 1)) == text_actions(text@.take(i as int))
                + char_actions(text@[i as int]));
        }
        i += 1;
    }
    proof {
        assert(text@.take(n as int) =~= text@);
    }
}

/// Append the press/release pair of one special key.
pub fn push_special_key(acc: &mut Vec<RunAction>, keysym: u32)
    ensures
        final(acc).deep_view() == old(acc).deep_view() + special_key_actions(keysym),
{
    acc.push(RunAction::SendKey { down: true, keysym });
    acc.push(RunAction::SendKey { down: false, keysym });
    proof {
        assert(final(acc).deep_view() =~= old(acc).deep_view() + special_key_actions(keysym));
    }
}

} // verus!
