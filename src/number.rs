use vstd::prelude::*;

verus! {

// States of the recognizer for decimal float text.
pub const START: u8 = 0;
pub const SIGNED: u8 = 1;
pub const INTEGER: u8 = 2;
pub const BARE_POINT: u8 = 3;
pub const FRACTION: u8 = 4;
pub const EXPONENT_MARK: u8 = 5;
pub const EXPONENT_SIGN: u8 = 6;
pub const EXPONENT_DIGITS: u8 = 7;
pub const REJECTED: u8 = 8;

pub open spec fn is_digit(c: char) -> bool {
    '0' <= c <= '9'
}

pub open spec fn is_sign(c: char) -> bool {
    c == '+' || c == '-'
}

pub open spec fn is_exponent_mark(c: char) -> bool {
    c == 'e' || c == 'E'
}

/// One step of the grammar
/// `Sign? (Digit+ | Digit+ '.' Digit* | Digit* '.' Digit+) (('e'|'E') Sign? Digit+)?`.
pub open spec fn step(state: u8, c: char) -> u8 {
    if state == START {
        if is_sign(c) {
            SIGNED
        } else if is_digit(c) {
            INTEGER
        } else if c == '.' {
            BARE_POINT
        } else {
            REJECTED
        }
    } else if state == SIGNED {
        if is_digit(c) {
            INTEGER
        } else if c == '.' {
            BARE_POINT
        } else {
            REJECTED
        }
    } else if state == INTEGER {
        if is_digit(c) {
            INTEGER
        } else if c == '.' {
            FRACTION
        } else if is_exponent_mark(c) {
            EXPONENT_MARK
        } else {
            REJECTED
        }
    } else if state == BARE_POINT {
        if is_digit(c) {
            FRACTION
        } else {
            REJECTED
        }
    } else if state == FRACTION {
        if is_digit(c) {
            FRACTION
        } else if is_exponent_mark(c) {
            EXPONENT_MARK
        } else {
            REJECTED
        }
    } else if state == EXPONENT_MARK {
        if is_sign(c) {
            EXPONENT_SIGN
        } else if is_digit(c) {
            EXPONENT_DIGITS
        } else {
            REJECTED
        }
    } else if state == EXPONENT_SIGN || state == EXPONENT_DIGITS {
        if is_digit(c) {
            EXPONENT_DIGITS
        } else {
            REJECTED
        }
    } else {
        REJECTED
    }
}

/// The state reached after reading all of `s`.
pub open spec fn run(s: Seq<char>) -> u8
    decreases s.len(),
{
    if s.len() == 0 {
        START
    } else {
        step(run(s.drop_last()), s.last())
    }
}

pub open spec fn is_decimal_text(s: Seq<char>) -> bool {
    let end = run(s);
    end == INTEGER || end == FRACTION || end == EXPONENT_DIGITS
}

pub open spec fn ascii_lower(c: char) -> char {
    if 'A' <= c <= 'Z' {
        ((c as u32) + 32) as char
    } else {
        c
    }
}

/// `s` equals `word` (lower case) when ASCII letters are compared without case.
pub open spec fn same_word(s: Seq<char>, word: Seq<char>) -> bool {
    s.len() == word.len() && forall|i: int| 0 <= i < s.len() ==> ascii_lower(#[trigger] s[i]) == word[i]
}

pub open spec fn is_special_word(s: Seq<char>) -> bool {
    same_word(s, seq!['i', 'n', 'f']) || same_word(s, seq!['i', 'n', 'f', 'i', 'n', 'i', 't', 'y'])
        || same_word(s, seq!['n', 'a', 'n'])
}

/// Text that `f64`'s `FromStr` accepts: an optional sign, then a decimal
/// number or one of `inf`, `infinity`, `nan` in any ASCII case.
pub open spec fn is_float_text(s: Seq<char>) -> bool {
    is_decimal_text(s) || is_special_word(s) || (s.len() > 0 && is_sign(s[0])
        && is_special_word(s.drop_first()))
}

fn step_exec(state: u8, c: char) -> (r: u8)
    ensures
        r == step(state, c),
{
    let digit = '0' <= c && c <= '9';
    let sign = c == '+' || c == '-';
    let mark = c == 'e' || c == 'E';
    if state == START {
        if sign {
            SIGNED
        } else if digit {
            INTEGER
        } else if c == '.' {
            BARE_POINT
        } else {
            REJECTED
        }
    } else if state == SIGNED {
        if digit {
            INTEGER
        } else if c == '.' {
            BARE_POINT
        } else {
            REJECTED
        }
    } else if state == INTEGER {
        if digit {
            INTEGER
        } else if c == '.' {
            FRACTION
        } else if mark {
            EXPONENT_MARK
        } else {
            REJECTED
        }
    } else if state == BARE_POINT {
        if digit {
            FRACTION
        } else {
            REJECTED
        }
    } else if state == FRACTION {
        if digit {
            FRACTION
        } else if mark {
            EXPONENT_MARK
        } else {
            REJECTED
        }
    } else if state == EXPONENT_MARK {
        if sign {
            EXPONENT_SIGN
        } else if digit {
            EXPONENT_DIGITS
        } else {
            REJECTED
        }
    } else if state == EXPONENT_SIGN || state == EXPONENT_DIGITS {
        if digit {
            EXPONENT_DIGITS
        } else {
            REJECTED
        }
    } else {
        REJECTED
    }
}

fn lower_exec(c: char) -> (r: char)
    ensures
        r == ascii_lower(c),
{
    if 'A' <= c && c <= 'Z' {
        ((c as u8) + 32) as char
    } else {
        c
    }
}

fn word_matches(s: &[char], from: usize, word: &[char]) -> (r: bool)
    requires
        from <= s@.len(),
    ensures
        r == same_word(s@.subrange(from as int, s@.len() as int), word@),
{
    if s.len() - from != word.len() {
        return false;
    }
    let mut i: usize = 0;
    while i < word.len()
        invariant
            from <= s@.len(),
            s@.len() <= usize::MAX,
            s@.len() - from == word@.len(),
            i <= word@.len(),
            forall|j: int| 0 <= j < i ==> ascii_lower(#[trigger] s@[from + j]) == word@[j],
        decreases word@.len() - i,
    {
        if lower_exec(s[from + i]) != word[i] {
            assert(s@.subrange(from as int, s@.len() as int)[i as int] == s@[from + i]);
            return false;
        }
        i = i + 1;
    }
    proof {
        let t = s@.subrange(from as int, s@.len() as int);
        assert forall|j: int| 0 <= j < t.len() implies ascii_lower(#[trigger] t[j]) == word@[j] by {
            assert(t[j] == s@[from + j]);
        }
    }
    true
}

fn special_word(s: &[char], from: usize) -> (r: bool)
    requires
        from <= s@.len(),
    ensures
        r == is_special_word(s@.subrange(from as int, s@.len() as int)),
{
    let inf = ['i', 'n', 'f'];
    let infinity = ['i', 'n', 'f', 'i', 'n', 'i', 't', 'y'];
    let nan = ['n', 'a', 'n'];
    assert(inf@ =~= seq!['i', 'n', 'f']);
    assert(infinity@ =~= seq!['i', 'n', 'f', 'i', 'n', 'i', 't', 'y']);
    assert(nan@ =~= seq!['n', 'a', 'n']);
    word_matches(s, from, &inf) || word_matches(s, from, &infinity) || word_matches(s, from, &nan)
}

/// Whether `s` is text that `f64`'s `FromStr` accepts.
pub fn float_text(s: &[char]) -> (r: bool)
    ensures
        r == is_float_text(s@),
{
    let mut state: u8 = START;
    let mut i: usize = 0;
    while i < s.len()
        invariant
            i <= s@.len(),
            state == run(s@.take(i as int)),
        decreases s@.len() - i,
    {
        assert(s@.take(i as int + 1).drop_last() =~= s@.take(i as int));
        state = step_exec(state, s[i]);
        i = i + 1;
    }
    assert(s@.take(s@.len() as int) =~= s@);
    assert(s@.subrange(0, s@.len() as int) =~= s@);
    if state == INTEGER || state == FRACTION || state == EXPONENT_DIGITS {
        return true;
    }
    if special_word(s, 0) {
        return true;
    }
    if s.len() > 0 && (s[0] == '+' || s[0] == '-') {
        assert(s@.subrange(1, s@.len() as int) =~= s@.drop_first());
        return special_word(s, 1);
    }
    false
}

} // verus!
