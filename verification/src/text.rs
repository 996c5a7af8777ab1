//! Character sequences: conversion between strings and characters,
//! trimming, searching, joining and the decimal rendering of numbers.

use vstd::prelude::*;
use vstd::string::*;

verus! {

/// Whether `char::is_whitespace` holds of a character: the Unicode property
/// `White_Space`.
pub uninterp spec fn is_unicode_whitespace(c: char) -> bool;

/// What `str::to_lowercase` makes of a string with these characters.
pub uninterp spec fn lowercase(s: Seq<char>) -> Seq<char>;

/// `char::is_whitespace` decides the Unicode property `White_Space`; the
/// property is named, not spelled out.
pub assume_specification[ char::is_whitespace ](c: char) -> (r: bool)
    ensures
        r == is_unicode_whitespace(c),
;

/// `str::to_lowercase` returns the Unicode lowercase form as a new string.
/// The result is a function of the characters alone; nothing else is claimed
/// of it.
pub assume_specification[ str::to_lowercase ](s: &str) -> (r: String)
    ensures
        r@ == lowercase(s@),
;

/// `String::push` appends one character to the end of the string.
pub assume_specification[ String::push ](s: &mut String, ch: char)
    ensures
        final(s)@ == old(s)@.push(ch),
;

/// The characters of a list of strings, string by string.
pub open spec fn views(strings: Seq<String>) -> Seq<Seq<char>> {
    strings.map_values(|s: String| s@)
}

/// The characters of `s` as a vector.
pub fn chars_of(s: &str) -> (chars: Vec<char>)
    ensures
        chars@ == s@,
{
    let mut chars: Vec<char> = Vec::new();
    for c in it: s.chars()
        invariant
            it.seq() == s@,
            chars@ == it.seq().take(it.index() as int),
    {
        chars.push(c);
    }
    chars
}

/// The string made of `chars[from..to]`.
pub fn string_of(chars: &Vec<char>, from: usize, to: usize) -> (s: String)
    requires
        from <= to <= chars@.len(),
    ensures
        s@ == chars@.subrange(from as int, to as int),
{
    let mut s = String::new();
    let mut i: usize = from;
    while i < to
        invariant
            from <= i <= to <= chars@.len(),
            s@ == chars@.subrange(from as int, i as int),
        decreases to - i,
    {
        s.push(chars[i]);
        i = i + 1;
    }
    s
}

/// Whether two character vectors hold the same characters.
pub fn same_chars(a: &Vec<char>, b: &Vec<char>) -> (same: bool)
    ensures
        same == (a@ == b@),
{
    if a.len() != b.len() {
        return false;
    }
    let mut i: usize = 0;
    while i < a.len()
        invariant
            a@.len() == b@.len(),
            i <= a@.len(),
            a@.take(i as int) == b@.take(i as int),
        decreases a@.len() - i,
    {
        if a[i] != b[i] {
            return false;
        }
        i = i + 1;
    }
    assert(a@ =~= a@.take(a@.len() as int));
    assert(b@ =~= b@.take(b@.len() as int));
    true
}

/// A class of characters that trimming removes from the ends of a word.
#[derive(Clone, Copy, Debug, PartialEq, Eq, Structural)]
pub enum CharClass {
    /// Unicode whitespace.
    Whitespace,
    /// ASCII punctuation: `!` to `/`, `:` to `@`, `[` to `` ` `` and `{` to `~`.
    AsciiPunctuation,
}

/// Whether `c` is an ASCII punctuation character.
pub open spec fn is_ascii_punctuation(c: char) -> bool {
    ||| '!' <= c <= '/'
    ||| ':' <= c <= '@'
    ||| '[' <= c <= '`'
    ||| '{' <= c <= '~'
}

impl CharClass {
    /// Whether `c` belongs to the class.
    pub open spec fn holds(self, c: char) -> bool {
        match self {
            CharClass::Whitespace => is_unicode_whitespace(c),
            CharClass::AsciiPunctuation => is_ascii_punctuation(c),
        }
    }

    /// Decides whether `c` belongs to the class.
    pub fn contains(&self, c: char) -> (r: bool)
        ensures
            r == self.holds(c),
    {
        match self {
            CharClass::Whitespace => c.is_whitespace(),
            CharClass::AsciiPunctuation => {
                ('!' <= c && c <= '/') || (':' <= c && c <= '@') || ('[' <= c && c <= '`') || ('{'
                    <= c && c <= '~')
            },
        }
    }
}

/// `s` without its longest prefix of characters of `class`.
pub open spec fn trim_start(s: Seq<char>, class: CharClass) -> Seq<char>
    decreases s.len(),
{
    if s.len() > 0 && class.holds(s[0]) {
        trim_start(s.drop_first(), class)
    } else {
        s
    }
}

/// `s` without its longest suffix of characters of `class`.
pub open spec fn trim_end(s: Seq<char>, class: CharClass) -> Seq<char>
    decreases s.len(),
{
    if s.len() > 0 && class.holds(s.last()) {
        trim_end(s.drop_last(), class)
    } else {
        s
    }
}

/// `s` without the characters of `class` at either end.
pub open spec fn trimmed(s: Seq<char>, class: CharClass) -> Seq<char> {
    trim_end(trim_start(s, class), class)
}

/// Trimming the start leaves the tail of `s` that begins at the first
/// character outside `class`.
pub proof fn lemma_trim_start_is_suffix(s: Seq<char>, class: CharClass, k: int)
    requires
        0 <= k <= s.len(),
        forall|i: int| 0 <= i < k ==> class.holds(#[trigger] s[i]),
        k < s.len() ==> !class.holds(s[k]),
    ensures
        trim_start(s, class) == s.subrange(k, s.len() as int),
    decreases k,
{
    if k > 0 {
        let rest = s.drop_first();
        assert forall|i: int| 0 <= i < k - 1 implies class.holds(#[trigger] rest[i]) by {
        }
        lemma_trim_start_is_suffix(rest, class, k - 1);
    }
}

/// Trimming the end leaves the head of `s` that stops after the last
/// character outside `class`.
pub proof fn lemma_trim_end_is_prefix(s: Seq<char>, class: CharClass, k: int)
    requires
        0 <= k <= s.len(),
        forall|i: int| k <= i < s.len() ==> class.holds(#[trigger] s[i]),
        k > 0 ==> !class.holds(s[k - 1]),
    ensures
        trim_end(s, class) == s.subrange(0, k),
    decreases s.len() - k,
{
    if k < s.len() {
        lemma_trim_end_is_prefix(s.drop_last(), class, k);
    }
}

/// Whether every character of `s` belongs to `class`.
pub open spec fn all_in(s: Seq<char>, class: CharClass) -> bool {
    forall|i: int| 0 <= i < s.len() ==> class.holds(#[trigger] s[i])
}

/// Trimming the start of `s + t` trims `s`, and goes on into `t` only if
/// nothing of `s` is left.
pub proof fn lemma_trim_start_append(s: Seq<char>, t: Seq<char>, class: CharClass)
    ensures
        trim_start(s + t, class) == if trim_start(s, class).len() > 0 {
            trim_start(s, class) + t
        } else {
            trim_start(t, class)
        },
    decreases s.len(),
{
    if s.len() == 0 {
    } else if class.holds(s[0]) {
        assert((s + t).drop_first() =~= s.drop_first() + t);
        lemma_trim_start_append(s.drop_first(), t, class);
    }
}

/// Trimming the end of `t + s` trims `s`, and goes on into `t` only if
/// nothing of `s` is left.
pub proof fn lemma_trim_end_prepend(t: Seq<char>, s: Seq<char>, class: CharClass)
    ensures
        trim_end(t + s, class) == if trim_end(s, class).len() > 0 {
            t + trim_end(s, class)
        } else {
            trim_end(t, class)
        },
    decreases s.len(),
{
    if s.len() == 0 {
    } else if class.holds(s.last()) {
        assert((t + s).drop_last() =~= t + s.drop_last());
        lemma_trim_end_prepend(t, s.drop_last(), class);
    }
}

/// Nothing is left of a sequence of characters of `class` after trimming.
pub proof fn lemma_trim_all(s: Seq<char>, class: CharClass)
    requires
        all_in(s, class),
    ensures
        trim_start(s, class).len() == 0,
        trim_end(s, class).len() == 0,
{
    lemma_trim_start_is_suffix(s, class, s.len() as int);
    lemma_trim_end_is_prefix(s, class, 0);
}

/// Characters of `class` around a sequence do not change what trimming
/// leaves of it.
pub proof fn lemma_trimmed_wrapped(
    before: Seq<char>,
    s: Seq<char>,
    after: Seq<char>,
    class: CharClass,
)
    requires
        all_in(before, class),
        all_in(after, class),
    ensures
        trimmed(before + s + after, class) == trimmed(s, class),
{
    lemma_trim_all(before, class);
    lemma_trim_all(after, class);
    assert(before + s + after =~= before + (s + after));
    lemma_trim_start_append(before, s + after, class);
    lemma_trim_start_append(s, after, class);
    if trim_start(s, class).len() > 0 {
        lemma_trim_end_prepend(trim_start(s, class), after, class);
    }
}

/// Trimming changes nothing of a sequence that neither begins nor ends
/// with a character of `class`.
pub proof fn lemma_trimmed_unchanged(s: Seq<char>, class: CharClass)
    requires
        s.len() > 0 ==> !class.holds(s[0]) && !class.holds(s.last()),
    ensures
        trimmed(s, class) == s,
{
}

/// The bounds of `chars[from..to]` after trimming `class` from both ends.
pub fn trim_bounds(chars: &Vec<char>, from: usize, to: usize, class: CharClass) -> (bounds: (
    usize,
    usize,
))
    requires
        from <= to <= chars@.len(),
    ensures
        from <= bounds.0 <= bounds.1 <= to,
        chars@.subrange(bounds.0 as int, bounds.1 as int) == trimmed(
            chars@.subrange(from as int, to as int),
            class,
        ),
{
    let ghost s = chars@.subrange(from as int, to as int);
    let mut lo: usize = from;
    while lo < to && class.contains(chars[lo])
        invariant
            from <= lo <= to <= chars@.len(),
            forall|i: int| from <= i < lo ==> class.holds(#[trigger] chars@[i]),
        decreases to - lo,
    {
        lo = lo + 1;
    }
    let ghost mid = chars@.subrange(lo as int, to as int);
    proof {
        assert forall|i: int| 0 <= i < lo - from implies class.holds(#[trigger] s[i]) by {
        }
        lemma_trim_start_is_suffix(s, class, lo - from);
        assert(s.subrange(lo - from, s.len() as int) =~= mid);
    }
    let mut hi: usize = to;
    while hi > lo && class.contains(chars[hi - 1])
        invariant
            lo <= hi <= to <= chars@.len(),
            forall|i: int| hi <= i < to ==> class.holds(#[trigger] chars@[i]),
        decreases hi - lo,
    {
        hi = hi - 1;
    }
    proof {
        assert forall|i: int| hi - lo <= i < mid.len() implies class.holds(#[trigger] mid[i]) by {
        }
        lemma_trim_end_is_prefix(mid, class, hi - lo);
    }
    (lo, hi)
}

/// Whether `needle` stands in `hay` at position `at`.
pub open spec fn occurs_at(hay: Seq<char>, needle: Seq<char>, at: int) -> bool {
    &&& 0 <= at
    &&& at + needle.len() <= hay.len()
    &&& hay.subrange(at, at + needle.len()) == needle
}

/// Whether `needle` stands somewhere in `hay` as a contiguous run.
pub open spec fn contains_run(hay: Seq<char>, needle: Seq<char>) -> bool {
    exists|at: int| occurs_at(hay, needle, at)
}

/// Decides whether `needle` stands in `hay` at position `at`.
pub fn matches_at(hay: &Vec<char>, needle: &Vec<char>, at: usize) -> (r: bool)
    requires
        at + needle@.len() <= hay@.len(),
    ensures
        r == occurs_at(hay@, needle@, at as int),
{
    let ghost window = hay@.subrange(at as int, at + needle@.len());
    let mut j: usize = 0;
    while j < needle.len()
        invariant
            at + needle.len() <= hay.len(),
            j <= needle@.len(),
            window == hay@.subrange(at as int, at + needle@.len()),
            window.take(j as int) == needle@.take(j as int),
        decreases needle@.len() - j,
    {
        if hay[at + j] != needle[j] {
            return false;
        }
        j = j + 1;
    }
    assert(window =~= window.take(needle@.len() as int));
    assert(needle@ =~= needle@.take(needle@.len() as int));
    true
}

/// Decides whether `needle` stands somewhere in `hay`.
pub fn contains_chars(hay: &Vec<char>, needle: &Vec<char>) -> (r: bool)
    ensures
        r == contains_run(hay@, needle@),
{
    if needle.len() > hay.len() {
        return false;
    }
    let last: usize = hay.len() - needle.len();
    let mut at: usize = 0;
    while at < last
        invariant
            last == hay@.len() - needle@.len(),
            at <= last,
            forall|k: int| 0 <= k < at ==> !occurs_at(hay@, needle@, k),
        decreases last - at,
    {
        if matches_at(hay, needle, at) {
            return true;
        }
        at = at + 1;
    }
    matches_at(hay, needle, last)
}

/// The parts written one after the other with `separator` between neighbours.
pub open spec fn joined(parts: Seq<Seq<char>>, separator: Seq<char>) -> Seq<char>
    decreases parts.len(),
{
    if parts.len() == 0 {
        Seq::empty()
    } else if parts.len() == 1 {
        parts[0]
    } else {
        joined(parts.drop_last(), separator) + separator + parts.last()
    }
}

/// Joins `parts` with `separator` between neighbours.
pub fn join(parts: &Vec<String>, separator: &str) -> (r: String)
    ensures
        r@ == joined(views(parts@), separator@),
{
    let mut r = String::new();
    let mut i: usize = 0;
    while i < parts.len()
        invariant
            i <= parts@.len(),
            r@ == joined(views(parts@).take(i as int), separator@),
        decreases parts@.len() - i,
    {
        let ghost before = views(parts@).take(i as int);
        let ghost after = views(parts@).take(i + 1);
        proof {
            assert(after.drop_last() =~= before);
        }
        if i > 0 {
            r.append(separator);
        }
        r.append(parts[i].as_str());
        i = i + 1;
    }
    assert(views(parts@).take(parts@.len() as int) =~= views(parts@));
    r
}

/// The character of the decimal digit `d`.
pub open spec fn digit_char(d: nat) -> char {
    (48 + d) as char
}

/// The decimal digits of `n`, most significant first, without leading zeros.
pub open spec fn decimal(n: nat) -> Seq<char>
    decreases n,
{
    if n < 10 {
        seq![digit_char(n)]
    } else {
        decimal(n / 10).push(digit_char(n % 10))
    }
}

/// The three decimal digits of `n % 1000`.
pub open spec fn three_digits(n: nat) -> Seq<char> {
    seq![digit_char(n / 100 % 10), digit_char(n / 10 % 10), digit_char(n % 10)]
}

/// `n` thousandths written with exactly three decimals: 9800 is `9.800`.
pub open spec fn fixed3(n: nat) -> Seq<char> {
    decimal(n / 1000) + seq!['.'] + three_digits(n)
}

/// `n` thousandths written with as few decimals as hold the value: 500 is
/// `0.5`, 1000 is `1`, 1234 is `1.234`.
pub open spec fn shortest3(n: nat) -> Seq<char> {
    if n % 1000 == 0 {
        decimal(n / 1000)
    } else if n % 100 == 0 {
        decimal(n / 1000) + seq!['.'] + three_digits(n).take(1)
    } else if n % 10 == 0 {
        decimal(n / 1000) + seq!['.'] + three_digits(n).take(2)
    } else {
        fixed3(n)
    }
}

/// The character of the decimal digit `d`.
pub fn digit(d: u128) -> (c: char)
    requires
        d < 10,
    ensures
        c == digit_char(d as nat),
{
    (48u8 + d as u8) as char
}

/// Appends the decimal digits of `n` to `s`.
pub fn push_decimal(s: &mut String, n: u128)
    ensures
        final(s)@ == old(s)@ + decimal(n as nat),
    decreases n,
{
    if n >= 10 {
        push_decimal(s, n / 10);
    }
    s.push(digit(n % 10));
}

/// Appends `n` thousandths with exactly three decimals to `s`.
pub fn push_fixed3(s: &mut String, n: u128)
    ensures
        final(s)@ == old(s)@ + fixed3(n as nat),
{
    push_decimal(s, n / 1000);
    s.push('.');
    s.push(digit(n / 100 % 10));
    s.push(digit(n / 10 % 10));
    s.push(digit(n % 10));
}

/// Appends `n` thousandths with as few decimals as hold the value to `s`.
pub fn push_shortest3(s: &mut String, n: u128)
    ensures
        final(s)@ == old(s)@ + shortest3(n as nat),
{
    push_decimal(s, n / 1000);
    if n % 1000 != 0 {
        s.push('.');
        s.push(digit(n / 100 % 10));
        if n % 100 != 0 {
            s.push(digit(n / 10 % 10));
            if n % 10 != 0 {
                s.push(digit(n % 10));
            }
        }
    }
}

/// Whether `c` is a decimal digit.
pub open spec fn is_digit(c: char) -> bool {
    '0' <= c <= '9'
}

/// The value of the decimal digit `c`.
pub open spec fn digit_value(c: char) -> nat {
    (c as nat - 48) as nat
}

/// Whether `s` holds decimal digits only.
pub open spec fn all_digits(s: Seq<char>) -> bool {
    forall|i: int| 0 <= i < s.len() ==> is_digit(#[trigger] s[i])
}

/// The number that the decimal digits `s` write; no digits write zero.
pub open spec fn number_of(s: Seq<char>) -> nat
    decreases s.len(),
{
    if s.len() == 0 {
        0
    } else {
        number_of(s.drop_last()) * 10 + digit_value(s.last())
    }
}

/// The number that `s` writes, if `s` is one decimal digit or more and
/// nothing else.
pub open spec fn parsed_number(s: Seq<char>) -> Option<nat> {
    if s.len() > 0 && all_digits(s) {
        Some(number_of(s))
    } else {
        None
    }
}

/// The value of digit `i` of `s`, and zero where `s` has no such digit.
pub open spec fn digit_at(s: Seq<char>, i: int) -> nat {
    if 0 <= i < s.len() {
        digit_value(s[i])
    } else {
        0
    }
}

/// The position of the first `c` in `s`, or the length of `s` if there is
/// none.
pub open spec fn first_index_of(s: Seq<char>, c: char) -> int
    decreases s.len(),
{
    if s.len() == 0 {
        0
    } else if s[0] == c {
        0
    } else {
        1 + first_index_of(s.drop_first(), c)
    }
}

/// The thousandths that the decimal number `s` writes, rounded to the
/// nearest with halves up: digits, then optionally a point and digits,
/// with one digit at least.
pub open spec fn parsed_thousandths(s: Seq<char>) -> Option<nat> {
    let point = first_index_of(s, '.');
    let whole = s.subrange(0, point);
    let fraction = if point < s.len() {
        s.subrange(point + 1, s.len() as int)
    } else {
        Seq::empty()
    };
    if all_digits(whole) && all_digits(fraction) && whole.len() + fraction.len() > 0 {
        Some(
            number_of(whole) * 1000 + digit_at(fraction, 0) * 100 + digit_at(fraction, 1) * 10
                + digit_at(fraction, 2) + if digit_at(fraction, 3) >= 5 {
                1nat
            } else {
                0nat
            },
        )
    } else {
        None
    }
}

/// The first position of `c` lies within `s`, holds `c` if it is not the
/// length of `s`, and nothing before it holds `c`.
pub proof fn lemma_first_index_of(s: Seq<char>, c: char)
    ensures
        0 <= first_index_of(s, c) <= s.len(),
        first_index_of(s, c) < s.len() ==> s[first_index_of(s, c)] == c,
        forall|i: int| 0 <= i < first_index_of(s, c) ==> #[trigger] s[i] != c,
    decreases s.len(),
{
    if s.len() > 0 && s[0] != c {
        let rest = s.drop_first();
        lemma_first_index_of(rest, c);
        assert forall|i: int| 0 <= i < first_index_of(s, c) implies #[trigger] s[i] != c by {
            if i > 0 {
                assert(rest[i - 1] == s[i]);
            }
        }
    }
}

/// The position at which a scan found the first `c` is the first position
/// of `c`.
pub proof fn lemma_first_index_found(s: Seq<char>, c: char, at: int)
    requires
        0 <= at <= s.len(),
        forall|i: int| 0 <= i < at ==> #[trigger] s[i] != c,
        at < s.len() ==> s[at] == c,
    ensures
        first_index_of(s, c) == at,
{
    lemma_first_index_of(s, c);
}

/// The position of the first `c` in `chars[from..]`, or the length of
/// `chars` if there is none.
pub fn find_char(chars: &Vec<char>, from: usize, c: char) -> (at: usize)
    requires
        from <= chars@.len(),
    ensures
        from <= at <= chars@.len(),
        at - from == first_index_of(chars@.subrange(from as int, chars@.len() as int), c),
{
    let mut at: usize = from;
    while at < chars.len() && chars[at] != c
        invariant
            from <= at <= chars@.len(),
            forall|i: int| from <= i < at ==> #[trigger] chars@[i] != c,
        decreases chars@.len() - at,
    {
        at = at + 1;
    }
    proof {
        let rest = chars@.subrange(from as int, chars@.len() as int);
        assert forall|i: int| 0 <= i < at - from implies #[trigger] rest[i] != c by {
        }
        lemma_first_index_found(rest, c, at - from);
    }
    at
}

/// Reads `chars[from..to]` as decimal digits: the number they write, if
/// they are digits only and the number is at most `limit`.
fn read_digits(chars: &Vec<char>, from: usize, to: usize, limit: u128) -> (r: Option<u128>)
    requires
        from <= to <= chars@.len(),
        limit <= u128::MAX / 16,
    ensures
        match r {
            Some(n) => all_digits(chars@.subrange(from as int, to as int)) && n == number_of(
                chars@.subrange(from as int, to as int),
            ) && n <= limit,
            None => !all_digits(chars@.subrange(from as int, to as int)) || number_of(
                chars@.subrange(from as int, to as int),
            ) > limit,
        },
{
    let ghost s = chars@.subrange(from as int, to as int);
    let mut n: u128 = 0;
    let mut over: bool = false;
    let mut i: usize = from;
    while i < to
        invariant
            from <= i <= to <= chars@.len(),
            limit <= u128::MAX / 16,
            s == chars@.subrange(from as int, to as int),
            all_digits(s.take(i - from)),
            !over ==> n == number_of(s.take(i - from)) && n <= limit,
            over ==> number_of(s.take(i - from)) > limit,
        decreases to - i,
    {
        let c = chars[i];
        let ghost before = s.take(i - from);
        let ghost after = s.take(i + 1 - from);
        proof {
            assert(s[i - from] == c);
            assert(after.drop_last() =~= before);
        }
        if !('0' <= c && c <= '9') {
            return None;
        }
        proof {
            assert forall|k: int| 0 <= k < after.len() implies is_digit(#[trigger] after[k]) by {
            }
        }
        if !over {
            let d: u128 = (c as u32 - 48) as u128;
            n = n * 10 + d;
            if n > limit {
                over = true;
            }
        }
        i = i + 1;
    }
    assert(s.take(to - from) =~= s);
    if over {
        None
    } else {
        Some(n)
    }
}

/// The number that `s` writes as an unsigned integer: an optional plus
/// sign, then one decimal digit or more and nothing else.
pub open spec fn parsed_unsigned(s: Seq<char>) -> Option<nat> {
    if s.len() > 0 && s[0] == '+' {
        parsed_number(s.drop_first())
    } else {
        parsed_number(s)
    }
}

/// Reads `s` as an unsigned integer: an optional plus sign, then one
/// decimal digit or more and nothing else, with a value that fits.
pub fn parse_u64(s: &str) -> (r: Option<u64>)
    ensures
        r == match parsed_unsigned(s@) {
            Some(n) if n <= u64::MAX => Some(n as u64),
            _ => None,
        },
{
    let chars = chars_of(s);
    let from: usize = if chars.len() > 0 && chars[0] == '+' {
        1
    } else {
        0
    };
    proof {
        if from == 0 {
            assert(chars@.subrange(0, chars@.len() as int) =~= s@);
        }
    }
    if chars.len() == from {
        return None;
    }
    match read_digits(&chars, from, chars.len(), u64::MAX as u128) {
        Some(n) => Some(n as u64),
        None => None,
    }
}

/// Decides whether `chars[from..to]` holds decimal digits only.
fn only_digits(chars: &Vec<char>, from: usize, to: usize) -> (r: bool)
    requires
        from <= to <= chars@.len(),
    ensures
        r == all_digits(chars@.subrange(from as int, to as int)),
{
    let ghost s = chars@.subrange(from as int, to as int);
    let mut k: usize = from;
    while k < to
        invariant
            from <= k <= to <= chars@.len(),
            s == chars@.subrange(from as int, to as int),
            forall|j: int| 0 <= j < k - from ==> is_digit(#[trigger] s[j]),
        decreases to - k,
    {
        let c = chars[k];
        assert(s[k - from] == c);
        if !('0' <= c && c <= '9') {
            return false;
        }
        k = k + 1;
    }
    true
}

/// The value of digit `i` of `chars[from..to]`, and zero where there is
/// no such digit.
fn read_digit_at(chars: &Vec<char>, from: usize, to: usize, i: usize) -> (d: u128)
    requires
        from <= to <= chars@.len(),
        all_digits(chars@.subrange(from as int, to as int)),
        i <= 3,
    ensures
        d == digit_at(chars@.subrange(from as int, to as int), i as int),
        d <= 9,
{
    if to - from > i {
        let c = chars[from + i];
        assert(chars@.subrange(from as int, to as int)[i as int] == c);
        (c as u32 - 48) as u128
    } else {
        0
    }
}

/// Reads `s` as a decimal number in thousandths, rounded to the nearest
/// with halves up: digits, then optionally a point and digits, with one
/// digit at least and a value that fits.
pub fn parse_thousandths(s: &str) -> (r: Option<u64>)
    ensures
        r == match parsed_thousandths(s@) {
            Some(n) if n <= u64::MAX => Some(n as u64),
            _ => None,
        },
{
    let chars = chars_of(s);
    let len = chars.len();
    assert(chars@.subrange(0, len as int) =~= chars@);
    let point = find_char(&chars, 0, '.');
    let from: usize = if point < len {
        point + 1
    } else {
        len
    };
    let ghost whole = chars@.subrange(0, point as int);
    if point + (len - from) == 0 {
        return None;
    }
    let units = match read_digits(&chars, 0, point, u64::MAX as u128) {
        Some(n) => n,
        None => {
            proof {
                if all_digits(whole) {
                    assert(number_of(whole) * 1000 > u64::MAX) by (nonlinear_arith)
                        requires
                            number_of(whole) > u64::MAX,
                    ;
                }
            }
            return None;
        },
    };
    if !only_digits(&chars, from, len) {
        return None;
    }
    let d0 = read_digit_at(&chars, from, len, 0);
    let d1 = read_digit_at(&chars, from, len, 1);
    let d2 = read_digit_at(&chars, from, len, 2);
    let d3 = read_digit_at(&chars, from, len, 3);
    let round: u128 = if d3 >= 5 {
        1
    } else {
        0
    };
    let total: u128 = units * 1000 + d0 * 100 + d1 * 10 + d2 + round;
    if total > u64::MAX as u128 {
        None
    } else {
        Some(total as u64)
    }
}

/// The length of the longest prefix of `s` without whitespace.
pub open spec fn word_length(s: Seq<char>) -> int
    decreases s.len(),
{
    if s.len() == 0 || is_unicode_whitespace(s[0]) {
        0
    } else {
        1 + word_length(s.drop_first())
    }
}

/// The length of the longest prefix of `s` without whitespace lies within
/// `s`.
pub proof fn lemma_word_length(s: Seq<char>)
    ensures
        0 <= word_length(s) <= s.len(),
        s.len() > 0 && !is_unicode_whitespace(s[0]) ==> word_length(s) > 0,
    decreases s.len(),
{
    if s.len() > 0 && !is_unicode_whitespace(s[0]) {
        lemma_word_length(s.drop_first());
    }
}

/// The words of `s`: the longest runs of characters that are no
/// whitespace, in order.
pub open spec fn words_of(s: Seq<char>) -> Seq<Seq<char>>
    decreases s.len(),
{
    if s.len() == 0 {
        Seq::empty()
    } else if is_unicode_whitespace(s[0]) {
        words_of(s.drop_first())
    } else {
        let n = word_length(s);
        if 0 < n <= s.len() {
            seq![s.subrange(0, n)] + words_of(s.subrange(n, s.len() as int))
        } else {
            Seq::empty()
        }
    }
}

/// The position at which a scan met the first whitespace is the length of
/// the longest prefix without whitespace.
pub proof fn lemma_word_length_found(s: Seq<char>, at: int)
    requires
        0 <= at <= s.len(),
        forall|i: int| 0 <= i < at ==> !is_unicode_whitespace(#[trigger] s[i]),
        at < s.len() ==> is_unicode_whitespace(s[at]),
    ensures
        word_length(s) == at,
    decreases at,
{
    if at > 0 {
        let rest = s.drop_first();
        assert forall|i: int| 0 <= i < at - 1 implies !is_unicode_whitespace(#[trigger] rest[i]) by {
        }
        lemma_word_length_found(rest, at - 1);
    }
}

/// The end of the longest run without whitespace that begins at `from`.
fn scan_word(chars: &Vec<char>, from: usize) -> (to: usize)
    requires
        from <= chars@.len(),
    ensures
        from <= to <= chars@.len(),
        to - from == word_length(chars@.subrange(from as int, chars@.len() as int)),
{
    let mut to: usize = from;
    while to < chars.len() && !chars[to].is_whitespace()
        invariant
            from <= to <= chars@.len(),
            forall|i: int| from <= i < to ==> !is_unicode_whitespace(#[trigger] chars@[i]),
        decreases chars@.len() - to,
    {
        to = to + 1;
    }
    proof {
        let rest = chars@.subrange(from as int, chars@.len() as int);
        assert forall|i: int| 0 <= i < to - from implies !is_unicode_whitespace(
            #[trigger] rest[i],
        ) by {
        }
        lemma_word_length_found(rest, to - from);
    }
    to
}

/// Splits `text` into its words: the longest runs of characters that are
/// no whitespace.
pub fn split_whitespace(text: &str) -> (words: Vec<String>)
    ensures
        views(words@) == words_of(text@),
{
    let chars = chars_of(text);
    let len = chars.len();
    let mut words: Vec<String> = Vec::new();
    let mut at: usize = 0;
    assert(chars@.subrange(0, len as int) =~= chars@);
    while at < len
        invariant
            at <= len == chars@.len(),
            chars@ == text@,
            words_of(text@) == views(words@) + words_of(chars@.subrange(at as int, len as int)),
        decreases len - at,
    {
        let ghost rest = chars@.subrange(at as int, len as int);
        if chars[at].is_whitespace() {
            assert(rest.drop_first() =~= chars@.subrange(at + 1, len as int));
            at = at + 1;
        } else {
            let to = scan_word(&chars, at);
            proof {
                lemma_word_length(rest);
                assert(rest.subrange(0, to - at) =~= chars@.subrange(at as int, to as int));
                assert(rest.subrange(to - at, rest.len() as int) =~= chars@.subrange(
                    to as int,
                    len as int,
                ));
            }
            let word = string_of(&chars, at, to);
            words.push(word);
            at = to;
        }
    }
    words
}

} // verus!
