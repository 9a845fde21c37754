//! Text building blocks: decimal numerals, whitespace trimming and line
//! splitting over `Seq<char>`, with executable counterparts on `str`.

use vstd::prelude::*;
use vstd::string::*;

verus! {

/// The character that writes the digit `d`, for `0 <= d <= 9`.
pub open spec fn digit_char(d: int) -> char {
    if d == 0 {
        '0'
    } else if d == 1 {
        '1'
    } else if d == 2 {
        '2'
    } else if d == 3 {
        '3'
    } else if d == 4 {
        '4'
    } else if d == 5 {
        '5'
    } else if d == 6 {
        '6'
    } else if d == 7 {
        '7'
    } else if d == 8 {
        '8'
    } else {
        '9'
    }
}

/// The decimal numeral of `n`, without leading zeros.
pub open spec fn decimal(n: nat) -> Seq<char>
    decreases n,
{
    if n < 10 {
        seq![digit_char(n as int)]
    } else {
        decimal(n / 10).push(digit_char((n % 10) as int))
    }
}

/// The decimal numeral of `i`, with a leading minus sign when `i` is negative.
pub open spec fn signed_decimal(i: int) -> Seq<char> {
    if i < 0 {
        seq!['-'] + decimal((-i) as nat)
    } else {
        decimal(i as nat)
    }
}

fn digit_str(d: u128) -> (s: &'static str)
    requires
        d < 10,
    ensures
        s@ == seq![digit_char(d as int)],
{
    proof {
        reveal_strlit("0");
        reveal_strlit("1");
        reveal_strlit("2");
        reveal_strlit("3");
        reveal_strlit("4");
        reveal_strlit("5");
        reveal_strlit("6");
        reveal_strlit("7");
        reveal_strlit("8");
        reveal_strlit("9");
    }
    let s = if d == 0 {
        "0"
    } else if d == 1 {
        "1"
    } else if d == 2 {
        "2"
    } else if d == 3 {
        "3"
    } else if d == 4 {
        "4"
    } else if d == 5 {
        "5"
    } else if d == 6 {
        "6"
    } else if d == 7 {
        "7"
    } else if d == 8 {
        "8"
    } else {
        "9"
    };
    assert(s@ =~= seq![digit_char(d as int)]);
    s
}

/// Writes `n` in decimal.
pub fn decimal_string(n: u128) -> (s: String)
    ensures
        s@ == decimal(n as nat),
    decreases n,
{
    if n < 10 {
        String::from_str(digit_str(n))
    } else {
        let mut s = decimal_string(n / 10);
        s.append(digit_str(n % 10));
        s
    }
}

/// Writes `i` in decimal, with a minus sign when it is negative.
pub fn signed_decimal_string(i: i64) -> (s: String)
    ensures
        s@ == signed_decimal(i as int),
{
    if i < 0 {
        proof {
            reveal_strlit("-");
        }
        let magnitude: u128 = (-(i as i128)) as u128;
        let mut s = String::from_str("-");
        let digits = decimal_string(magnitude);
        s.append(digits.as_str());
        assert(s@ =~= seq!['-'] + decimal((-i) as nat));
        s
    } else {
        decimal_string(i as u128)
    }
}

/// Whether `c`, a character beyond U+007F, has the Unicode property
/// `White_Space`, as `char::is_whitespace` decides it.
pub uninterp spec fn has_white_space_property(c: char) -> bool;

/// The whitespace up to U+007F: tab, line feed, vertical tab, form feed,
/// carriage return (U+0009 to U+000D) and space (U+0020).
pub open spec fn is_basic_whitespace(c: char) -> bool {
    ('\u{9}' <= c && c <= '\u{d}') || c == ' '
}

/// Whether `c` is whitespace: up to U+007F the six characters above, beyond
/// it the characters with the Unicode property `White_Space`.
pub open spec fn is_whitespace(c: char) -> bool {
    if c <= '\u{7f}' {
        is_basic_whitespace(c)
    } else {
        has_white_space_property(c)
    }
}

/// `char::is_whitespace` tells whether the character has the Unicode
/// property `White_Space`. Up to U+007F those are U+0009 to U+000D and
/// U+0020; beyond it the answer comes from the Unicode tables, depends on the
/// character alone and is given the name above.
pub assume_specification[ char::is_whitespace ](c: char) -> (b: bool)
    ensures
        b == (if c <= '\u{7f}' {
            is_basic_whitespace(c)
        } else {
            has_white_space_property(c)
        }),
;

/// `s` without its leading whitespace.
pub open spec fn trim_start(s: Seq<char>) -> Seq<char>
    decreases s.len(),
{
    if s.len() > 0 && is_whitespace(s[0]) {
        trim_start(s.skip(1))
    } else {
        s
    }
}

/// `s` without its trailing whitespace.
pub open spec fn trim_end(s: Seq<char>) -> Seq<char>
    decreases s.len(),
{
    if s.len() > 0 && is_whitespace(s.last()) {
        trim_end(s.drop_last())
    } else {
        s
    }
}

/// `s` without leading and trailing whitespace.
pub open spec fn trimmed(s: Seq<char>) -> Seq<char> {
    trim_end(trim_start(s))
}

/// The lines of `s`, which end at each line feed and at the end of the text,
/// given that `current` is the part of the first line already read.
pub open spec fn lines_after(s: Seq<char>, current: Seq<char>) -> Seq<Seq<char>>
    decreases s.len(),
{
    if s.len() == 0 {
        seq![current]
    } else if s[0] == '\n' {
        seq![current] + lines_after(s.skip(1), Seq::empty())
    } else {
        lines_after(s.skip(1), current.push(s[0]))
    }
}

/// The lines of `s`: the pieces between its line feeds, empty ones included.
pub open spec fn lines(s: Seq<char>) -> Seq<Seq<char>> {
    lines_after(s, Seq::empty())
}

/// The text of a string, if there is a string.
pub open spec fn text_view(text: Option<String>) -> Option<Seq<char>> {
    match text {
        Some(t) => Some(t@),
        None => None,
    }
}

/// The texts that a sequence of strings holds.
pub open spec fn views(v: Seq<String>) -> Seq<Seq<char>> {
    Seq::new(v.len(), |i: int| v[i]@)
}

/// Cuts leading and trailing whitespace off `s`.
pub fn trim(s: &str) -> (r: &str)
    ensures
        r@ == trimmed(s@),
{
    let n = s.unicode_len();
    let mut start: usize = 0;
    assert(s@.subrange(0, n as int) =~= s@);
    while start < n && s.get_char(start).is_whitespace()
        invariant
            start <= n,
            n == s@.len(),
            trim_start(s@) == trim_start(s@.subrange(start as int, n as int)),
        decreases n - start,
    {
        assert(s@.subrange(start as int, n as int).skip(1) =~= s@.subrange(
            start as int + 1,
            n as int,
        ));
        start += 1;
    }
    let ghost rest = s@.subrange(start as int, n as int);
    let mut end: usize = n;
    while end > start && s.get_char(end - 1).is_whitespace()
        invariant
            start <= end <= n,
            n == s@.len(),
            trim_end(rest) == trim_end(s@.subrange(start as int, end as int)),
            rest == s@.subrange(start as int, n as int),
        decreases end,
    {
        assert(s@.subrange(start as int, end as int).drop_last() =~= s@.subrange(
            start as int,
            end as int - 1,
        ));
        end -= 1;
    }
    s.substring_char(start, end)
}

/// Splits `s` at its line feeds.
pub fn split_lines(s: &str) -> (out: Vec<String>)
    ensures
        views(out@) == lines(s@),
{
    let n = s.unicode_len();
    let mut out: Vec<String> = Vec::new();
    let mut line_start: usize = 0;
    let mut i: usize = 0;
    assert(s@.skip(0) =~= s@);
    assert(s@.subrange(0, 0) =~= Seq::<char>::empty());
    assert(views(out@) + lines(s@) =~= lines(s@));
    while i < n
        invariant
            line_start <= i <= n,
            n == s@.len(),
            lines(s@) == views(out@) + lines_after(
                s@.skip(i as int),
                s@.subrange(line_start as int, i as int),
            ),
        decreases n - i,
    {
        let c = s.get_char(i);
        let ghost done = views(out@);
        let ghost current = s@.subrange(line_start as int, i as int);
        assert(s@.skip(i as int).skip(1) =~= s@.skip(i as int + 1));
        if c == '\n' {
            let line = s.substring_char(line_start, i);
            out.push(String::from_str(line));
            line_start = i + 1;
            assert(views(out@) =~= done.push(current));
            assert(s@.subrange(line_start as int, i as int + 1) =~= Seq::<char>::empty());
            assert(done + (seq![current] + lines_after(s@.skip(i as int + 1), Seq::empty()))
                =~= done.push(current) + lines_after(s@.skip(i as int + 1), Seq::empty()));
        } else {
            assert(current.push(c) =~= s@.subrange(line_start as int, i as int + 1));
        }
        i += 1;
    }
    let ghost done = views(out@);
    let last = s.substring_char(line_start, n);
    out.push(String::from_str(last));
    assert(s@.skip(n as int) =~= Seq::<char>::empty());
    assert(views(out@) =~= done + seq![last@]);
    out
}

/// Whether two texts read the same.
pub fn same_text(a: &str, b: &str) -> (same: bool)
    ensures
        same == (a@ == b@),
{
    String::from_str(a) == String::from_str(b)
}

} // verus!
