use vstd::prelude::*;

use vstd::string::StrSliceExecFns;

use crate::screenshot::Rect;

verus! {

/// The whitespace that separates words of an operator's input line.
pub open spec fn is_space(c: char) -> bool {
    c == ' ' || c == '\t' || c == '\r' || c == '\n'
}

/// The length of the leading whitespace-free word of a line.
pub open spec fn leading_token_len(s: Seq<char>) -> nat
    decreases s.len(),
{
    if s.len() == 0 || is_space(s[0]) {
        0
    } else {
        1 + leading_token_len(s.drop_first())
    }
}

/// The whitespace-separated words of a line, in order.
pub open spec fn spec_tokens(s: Seq<char>) -> Seq<Seq<char>>
    decreases s.len(),
    via spec_tokens_decreases
{
    if s.len() == 0 {
        Seq::<Seq<char>>::empty()
    } else if is_space(s[0]) {
        spec_tokens(s.drop_first())
    } else {
        seq![s.take(leading_token_len(s) as int)] + spec_tokens(s.skip(leading_token_len(s) as int))
    }
}

#[via_fn]
proof fn spec_tokens_decreases(s: Seq<char>) {
    if s.len() != 0 && !is_space(s[0]) {
        lemma_leading_le_len(s);
        assert(leading_token_len(s) == 1 + leading_token_len(s.drop_first()));
    }
}

/// A word consisting of the single character `c`.
pub open spec fn is_word(t: Seq<char>, c: char) -> bool {
    t.len() == 1 && t[0] == c
}

/// A decimal digit.
pub open spec fn is_digit(c: char) -> bool {
    '0' as int <= c as int && c as int <= '9' as int
}

/// Every character of the sequence is a decimal digit.
pub open spec fn all_digits(s: Seq<char>) -> bool {
    forall|i: int| 0 <= i < s.len() ==> is_digit(#[trigger] s[i])
}

/// The numeric value of a digit string, most significant digit first.
pub open spec fn digits_val(s: Seq<char>) -> int
    decreases s.len(),
{
    if s.len() == 0 {
        0
    } else {
        digits_val(s.drop_last()) * 10 + (s.last() as int - '0' as int)
    }
}

/// How a word parses as an unsigned 16-bit decimal number: an optional
/// leading plus sign, then one or more digits, with a value of at most 65535.
pub open spec fn dec_u16_of(s: Seq<char>) -> Option<u16> {
    let ds = if s.len() >= 1 && s[0] == '+' {
        s.drop_first()
    } else {
        s
    };
    if ds.len() > 0 && all_digits(ds) && digits_val(ds) <= 65535 {
        Some(digits_val(ds) as u16)
    } else {
        None
    }
}

/// What an operator's breakpoint input line asks for.
#[derive(Clone, Copy, Debug, PartialEq, Eq, Structural)]
pub enum OperatorCmd {
    /// `c`: run the pending command.
    Continue,
    /// `q`: disable debug mode for the rest of the run, then run the pending
    /// command.
    Quit,
    /// `s`, optionally followed by `top left width height`: capture now,
    /// full-frame or the given region.
    Shot(Option<Rect>),
    /// `s` followed by four words of which one is not a decimal `u16`.
    BadRect,
    /// An empty line or an unrecognized first word: ignored, prompt again.
    Ignored,
}

/// How an operator's input line is interpreted: the first word selects the
/// action; `s` takes an optional rectangle as four further decimal words in
/// the order top, left, width, height.
pub open spec fn parse_operator_line(line: Seq<char>) -> OperatorCmd {
    let toks = spec_tokens(line);
    if toks.len() == 0 {
        OperatorCmd::Ignored
    } else if is_word(toks[0], 'c') {
        OperatorCmd::Continue
    } else if is_word(toks[0], 'q') {
        OperatorCmd::Quit
    } else if is_word(toks[0], 's') {
        if toks.len() >= 5 {
            if dec_u16_of(toks[1]) is Some && dec_u16_of(toks[2]) is Some && dec_u16_of(toks[3])
                is Some && dec_u16_of(toks[4]) is Some {
                OperatorCmd::Shot(
                    Some(
                        Rect {
                            top: dec_u16_of(toks[1])->0,
                            left: dec_u16_of(toks[2])->0,
                            width: dec_u16_of(toks[3])->0,
                            height: dec_u16_of(toks[4])->0,
                        },
                    ),
                )
            } else {
                OperatorCmd::BadRect
            }
        } else {
            OperatorCmd::Shot(None)
        }
    } else {
        OperatorCmd::Ignored
    }
}

fn is_space_exec(c: char) -> (r: bool)
    ensures
        r == is_space(c),
{
    c == ' ' || c == '\t' || c == '\r' || c == '\n'
}

fn is_digit_exec(c: char) -> (r: bool)
    ensures
        r == is_digit(c),
{
    let n = c as u32;
    48 <= n && n <= 57
}

/// The leading word is never longer than the line.
proof fn lemma_leading_le_len(s: Seq<char>)
    ensures
        leading_token_len(s) <= s.len(),
    decreases s.len(),
{
    if s.len() != 0 && !is_space(s[0]) {
        lemma_leading_le_len(s.drop_first());
    }
}

/// A prefix of non-space characters bounded by a space (or the end) is the
/// leading word.
proof fn lemma_leading_len_at(s: Seq<char>, i: int)
    requires
        0 <= i <= s.len(),
        forall|j: int| 0 <= j < i ==> !is_space(#[trigger] s[j]),
        i < s.len() ==> is_space(s[i]),
    ensures
        leading_token_len(s) == i,
    decreases i,
{
    if i == 0 {
    } else {
        assert(!is_space(s[0]));
        let t = s.drop_first();
        assert forall|j: int| 0 <= j < i - 1 implies !is_space(#[trigger] t[j]) by {
            assert(t[j] == s[j + 1]);
        }
        if i - 1 < t.len() {
            assert(t[i - 1] == s[i]);
        }
        lemma_leading_len_at(t, i - 1);
    }
}

fn leading_len_exec(s: &str) -> (r: usize)
    ensures
        r == leading_token_len(s@),
{
    let n = s.unicode_len();
    let mut i: usize = 0;
    let mut stopped = false;
    while !stopped && i < n
        invariant
            n == s@.len(),
            0 <= i <= n,
            forall|j: int| 0 <= j < i ==> !is_space(#[trigger] s@[j]),
            stopped ==> i < n && is_space(s@[i as int]),
        decreases n - i + (if stopped { 0int } else { 1int }),
    {
        let c = s.get_char(i);
        if is_space_exec(c) {
            stopped = true;
        } else {
            i += 1;
        }
    }
    proof {
        lemma_leading_len_at(s@, i as int);
    }
    i
}

/// Split a line into its whitespace-separated words.
pub fn tokenize(s: &str) -> (r: Vec<String>)
    ensures
        r.deep_view() == spec_tokens(s@),
    decreases s@.len(),
{
    let n = s.unicode_len();
    if n == 0 {
        let r: Vec<String> = Vec::new();
        proof {
            assert(r.deep_view() =~= spec_tokens(s@));
        }
        r
    } else if is_space_exec(s.get_char(0)) {
        let rest = s.substring_char(1, n);
        proof {
            assert(rest@ =~= s@.drop_first());
        }
        tokenize(rest)
    } else {
        let k = leading_len_exec(s);
        proof {
            lemma_leading_le_len(s@);
            assert(k >= 1);
        }
        let tok = s.substring_char(0, k);
        let rest = s.substring_char(k, n);
        proof {
            assert(rest@ =~= s@.skip(k as int));
        }
        let mut r = tokenize(rest);
        r.insert(0, tok.to_owned());
        proof {
            assert(tok@ =~= s@.take(k as int));
            assert(r.deep_view() =~= seq![s@.take(k as int)] + spec_tokens(s@.skip(k as int)));
        }
        r
    }
}

/// Whether a word is exactly the single character `c`.
fn token_is(t: &String, c: char) -> (r: bool)
    ensures
        r == is_word(t@, c),
{
    t.as_str().unicode_len() == 1 && t.as_str().get_char(0) == c
}

/// Digit strings have nonnegative values.
proof fn lemma_digits_val_nonneg(s: Seq<char>)
    requires
        all_digits(s),
    ensures
        digits_val(s) >= 0,
    decreases s.len(),
{
    if s.len() > 0 {
        assert(all_digits(s.drop_last())) by {
            assert(forall|i: int|
                0 <= i < s.len() - 1 ==> #[trigger] s.drop_last()[i] == s[i]);
        }
        lemma_digits_val_nonneg(s.drop_last());
        assert(is_digit(s.last()));
    }
}

/// Extending a digit string never decreases its value.
proof fn lemma_digits_val_mono(s: Seq<char>, k: int)
    requires
        all_digits(s),
        0 <= k <= s.len(),
    ensures
        digits_val(s.take(k)) <= digits_val(s),
    decreases s.len() - k,
{
    if k < s.len() {
        assert(s.take(k + 1).drop_last() =~= s.take(k));
        assert(s.take(k + 1).last() == s[k]);
        assert(all_digits(s.take(k))) by {
            assert(forall|i: int| 0 <= i < k ==> #[trigger] s.take(k)[i] == s[i]);
        }
        lemma_digits_val_nonneg(s.take(k));
        assert(is_digit(s[k]));
        assert(digits_val(s.take(k + 1)) == digits_val(s.take(k)) * 10 + (s[k] as int
            - '0' as int));
        assert(digits_val(s.take(k)) * 10 >= digits_val(s.take(k)));
        lemma_digits_val_mono(s, k + 1);
    } else {
        assert(s.take(k) =~= s);
    }
}

/// Parse a word as an unsigned 16-bit decimal number.
pub fn dec_u16(t: &String) -> (r: Option<u16>)
    ensures
        r == dec_u16_of(t@),
{
    let s = t.as_str();
    let n = s.unicode_len();
    let start: usize = if n >= 1 && s.get_char(0) == '+' {
        1
    } else {
        0
    };
    let ghost ds = if start == 1 {
        t@.drop_first()
    } else {
        t@
    };
    proof {
        assert(ds =~= t@.skip(start as int));
    }
    if n == start {
        return None;
    }
    let mut acc: u64 = 0;
    let mut j: usize = start;
    while j < n
        invariant
            n == t@.len(),
            s@ == t@,
            start <= j <= n,
            start <= 1,
            ds == t@.skip(start as int),
            ds == (if t@.len() >= 1 && t@[0] == '+' {
                t@.drop_first()
            } else {
                t@
            }),
            ds.len() == n - start,
            all_digits(ds.take(j - start)),
            acc == digits_val(ds.take(j - start)),
            acc <= 65535,
        decreases n - j,
    {
        let c = s.get_char(j);
        proof {
            assert(ds[j - start] == t@[j as int]);
        }
        if !is_digit_exec(c) {
            proof {
                assert(0 <= j - start < ds.len());
                assert(!is_digit(ds[j - start]));
                assert(!all_digits(ds));
            }
            return None;
        }
        proof {
            assert(ds.take(j - start + 1).drop_last() =~= ds.take(j - start));
            assert(ds.take(j - start + 1).last() == ds[j - start]);
            assert(forall|i: int|
                0 <= i < j - start + 1 ==> #[trigger] ds.take(j - start + 1)[i] == ds.take(
                    j - start,
                ).push(ds[j - start])[i]);
        }
        acc = acc * 10 + (((c as u32) as u64) - 48);
        if acc > 65535 {
            proof {
                if all_digits(ds) {
                    lemma_digits_val_mono(ds, j - start + 1);
                }
            }
            return None;
        }
        j += 1;
    }
    proof {
        assert(ds.take(n - start) =~= ds);
    }
    Some(acc as u16)
}

/// Interpret one operator input line.
pub fn parse_line(line: &str) -> (r: OperatorCmd)
    ensures
        r == parse_operator_line(line@),
{
    let toks = tokenize(line);
    proof {
        assert(toks.deep_view() == spec_tokens(line@));
    }
    if toks.len() == 0 {
        return OperatorCmd::Ignored;
    }
    proof {
        assert(toks@[0]@ == spec_tokens(line@)[0]);
    }
    if token_is(&toks[0], 'c') {
        OperatorCmd::Continue
    } else if token_is(&toks[0], 'q') {
        OperatorCmd::Quit
    } else if token_is(&toks[0], 's') {
        if toks.len() >= 5 {
            proof {
                assert(toks@[1]@ == spec_tokens(line@)[1]);
                assert(toks@[2]@ == spec_tokens(line@)[2]);
                assert(toks@[3]@ == spec_tokens(line@)[3]);
                assert(toks@[4]@ == spec_tokens(line@)[4]);
            }
            let top = dec_u16(&toks[1]);
            let left = dec_u16(&toks[2]);
            let width = dec_u16(&toks[3]);
            let height = dec_u16(&toks[4]);
            match (top, left, width, height) {
                (Some(top), Some(left), Some(width), Some(height)) => OperatorCmd::Shot(
                    Some(Rect { top, left, width, height }),
                ),
                _ => OperatorCmd::BadRect,
            }
        } else {
            OperatorCmd::Shot(None)
        }
    } else {
        OperatorCmd::Ignored
    }
}

} // verus!
