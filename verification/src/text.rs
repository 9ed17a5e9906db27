//! Character-level helpers on strings: whitespace trimming, ASCII case
//! mapping, decimal rendering and unsigned decimal parsing.

use vstd::prelude::*;

verus! {

/// The Unicode `White_Space` property, as `char::is_whitespace` defines it.
pub open spec fn is_white_space(c: char) -> bool {
    ||| ('\u{9}' <= c && c <= '\u{d}')
    ||| c == ' '
    ||| c == '\u{85}'
    ||| c == '\u{a0}'
    ||| c == '\u{1680}'
    ||| ('\u{2000}' <= c && c <= '\u{200a}')
    ||| c == '\u{2028}'
    ||| c == '\u{2029}'
    ||| c == '\u{202f}'
    ||| c == '\u{205f}'
    ||| c == '\u{3000}'
}

pub fn char_is_white_space(c: char) -> (b: bool)
    ensures
        b == is_white_space(c),
{
    ('\u{9}' <= c && c <= '\u{d}') || c == ' ' || c == '\u{85}' || c == '\u{a0}' || c == '\u{1680}'
        || ('\u{2000}' <= c && c <= '\u{200a}') || c == '\u{2028}' || c == '\u{2029}' || c
        == '\u{202f}' || c == '\u{205f}' || c == '\u{3000}'
}

pub open spec fn lower_char(c: char) -> char {
    if 'A' <= c && c <= 'Z' {
        ((c as int) + 32) as char
    } else {
        c
    }
}

pub fn to_lower_char(c: char) -> (r: char)
    ensures
        r == lower_char(c),
{
    if 'A' <= c && c <= 'Z' {
        ((c as u8) + 32) as char
    } else {
        c
    }
}

} // verus!

verus! {

/// Appends one character to a string.
///
/// Trusted: `String::push`, which std documents as appending the given `char`
/// to the end of the string.
#[verifier::external_body]
pub(crate) fn push_char(s: &mut String, c: char)
    ensures
        final(s)@ == old(s)@.push(c),
{
    s.push(c)
}

pub open spec fn trim_start(s: Seq<char>) -> Seq<char>
    decreases s.len(),
{
    if s.len() > 0 && is_white_space(s[0]) {
        trim_start(s.drop_first())
    } else {
        s
    }
}

pub open spec fn trim_end(s: Seq<char>) -> Seq<char>
    decreases s.len(),
{
    if s.len() > 0 && is_white_space(s.last()) {
        trim_end(s.drop_last())
    } else {
        s
    }
}

/// What `str::trim` leaves: the text without leading and trailing white space.
pub open spec fn trim(s: Seq<char>) -> Seq<char> {
    trim_end(trim_start(s))
}

/// A text is blank when every character is white space (so it trims to "").
pub open spec fn is_blank(s: Seq<char>) -> bool {
    forall|i: int| 0 <= i < s.len() ==> is_white_space(#[trigger] s[i])
}

pub proof fn lemma_trim_start_is_suffix(s: Seq<char>)
    ensures
        exists|k: int| 0 <= k <= s.len() && trim_start(s) == s.subrange(k, s.len() as int) && (
        forall|i: int| 0 <= i < k ==> is_white_space(#[trigger] s[i])),
    decreases s.len(),
{
    if s.len() > 0 && is_white_space(s[0]) {
        lemma_trim_start_is_suffix(s.drop_first());
        let k = choose|k: int|
            0 <= k <= s.drop_first().len() && trim_start(s.drop_first()) == s.drop_first().subrange(
                k,
                s.drop_first().len() as int,
            ) && (forall|i: int| 0 <= i < k ==> is_white_space(#[trigger] s.drop_first()[i]));
        assert(s.drop_first().subrange(k, s.drop_first().len() as int) =~= s.subrange(
            k + 1,
            s.len() as int,
        ));
        assert forall|i: int| 0 <= i < k + 1 implies is_white_space(#[trigger] s[i]) by {
            if i > 0 {
                assert(s[i] == s.drop_first()[i - 1]);
            }
        }
    } else {
        assert(s.subrange(0, s.len() as int) =~= s);
    }
}

pub proof fn lemma_blank_trims_empty(s: Seq<char>)
    ensures
        is_blank(s) <==> trim(s).len() == 0,
    decreases s.len(),
{
    if s.len() > 0 && is_white_space(s[0]) {
        lemma_blank_trims_empty(s.drop_first());
        if is_blank(s.drop_first()) {
            assert forall|i: int| 0 <= i < s.len() implies is_white_space(#[trigger] s[i]) by {
                if i > 0 {
                    assert(s[i] == s.drop_first()[i - 1]);
                }
            }
        }
        if is_blank(s) {
            assert forall|i: int| 0 <= i < s.drop_first().len() implies is_white_space(
                #[trigger] s.drop_first()[i],
            ) by {
                assert(s.drop_first()[i] == s[i + 1]);
            }
        }
    } else if s.len() > 0 {
        lemma_trim_end_keeps_first(s);
    }
}

proof fn lemma_trim_end_keeps_first(s: Seq<char>)
    requires
        s.len() > 0,
        !is_white_space(s[0]),
    ensures
        trim_end(s).len() > 0,
        trim_end(s)[0] == s[0],
    decreases s.len(),
{
    if is_white_space(s.last()) {
        if s.len() == 1 {
        } else {
            lemma_trim_end_keeps_first(s.drop_last());
        }
    }
}

/// `s.trim().is_empty()`.
pub fn str_is_blank(s: &str) -> (b: bool)
    ensures
        b == is_blank(s@),
        b == (trim(s@).len() == 0),
{
    proof {
        lemma_blank_trims_empty(s@);
    }
    let n = s.unicode_len();
    let mut i: usize = 0;
    while i < n
        invariant
            n == s@.len(),
            i <= n,
            forall|j: int| 0 <= j < i ==> is_white_space(#[trigger] s@[j]),
        decreases n - i,
    {
        let c = s.get_char(i);
        if !char_is_white_space(c) {
            assert(!is_white_space(s@[i as int]));
            proof {
                lemma_blank_trims_empty(s@);
            }
            return false;
        }
        i = i + 1;
    }
    true
}

/// `s.trim()`, as an owned string.
pub fn trim_text(s: &str) -> (r: String)
    ensures
        r@ == trim(s@),
{
    let n = s.unicode_len();
    let mut i: usize = 0;
    assert(s@.subrange(0, n as int) =~= s@);
    while i < n && char_is_white_space(s.get_char(i))
        invariant
            n == s@.len(),
            i <= n,
            trim_start(s@) == trim_start(s@.subrange(i as int, n as int)),
        decreases n - i,
    {
        assert(s@.subrange(i as int, n as int).drop_first() =~= s@.subrange(i + 1, n as int));
        i = i + 1;
    }
    assert(trim_start(s@) == s@.subrange(i as int, n as int));
    let mut j: usize = n;
    while j > i && char_is_white_space(s.get_char(j - 1))
        invariant
            n == s@.len(),
            i <= j <= n,
            trim(s@) == trim_end(s@.subrange(i as int, j as int)),
        decreases j,
    {
        assert(s@.subrange(i as int, j as int).drop_last() =~= s@.subrange(i as int, j - 1));
        j = j - 1;
    }
    assert(trim_end(s@.subrange(i as int, j as int)) == s@.subrange(i as int, j as int));
    String::from_str(s.substring_char(i, j))
}

pub open spec fn ascii_lowercase(s: Seq<char>) -> Seq<char> {
    s.map_values(|c: char| lower_char(c))
}

pub open spec fn upper_char(c: char) -> char {
    if 'a' <= c && c <= 'z' {
        ((c as int) - 32) as char
    } else {
        c
    }
}

pub open spec fn ascii_uppercase(s: Seq<char>) -> Seq<char> {
    s.map_values(|c: char| upper_char(c))
}

pub fn to_upper_char(c: char) -> (r: char)
    ensures
        r == upper_char(c),
{
    if 'a' <= c && c <= 'z' {
        ((c as u8) - 32) as char
    } else {
        c
    }
}

/// `str::to_ascii_lowercase`.
pub fn to_ascii_lowercase(s: &str) -> (r: String)
    ensures
        r@ == ascii_lowercase(s@),
{
    let n = s.unicode_len();
    let mut r = String::new();
    let mut i: usize = 0;
    while i < n
        invariant
            n == s@.len(),
            i <= n,
            r@ == ascii_lowercase(s@.subrange(0, i as int)),
        decreases n - i,
    {
        let c = s.get_char(i);
        push_char(&mut r, to_lower_char(c));
        assert(ascii_lowercase(s@.subrange(0, i + 1)) =~= ascii_lowercase(
            s@.subrange(0, i as int),
        ).push(lower_char(c)));
        i = i + 1;
    }
    assert(s@.subrange(0, n as int) =~= s@);
    r
}

/// `str::to_ascii_uppercase`.
pub fn to_ascii_uppercase(s: &str) -> (r: String)
    ensures
        r@ == ascii_uppercase(s@),
{
    let n = s.unicode_len();
    let mut r = String::new();
    let mut i: usize = 0;
    while i < n
        invariant
            n == s@.len(),
            i <= n,
            r@ == ascii_uppercase(s@.subrange(0, i as int)),
        decreases n - i,
    {
        let c = s.get_char(i);
        push_char(&mut r, to_upper_char(c));
        assert(ascii_uppercase(s@.subrange(0, i + 1)) =~= ascii_uppercase(
            s@.subrange(0, i as int),
        ).push(upper_char(c)));
        i = i + 1;
    }
    assert(s@.subrange(0, n as int) =~= s@);
    r
}

} // verus!

verus! {

pub open spec fn digit_char(d: nat) -> char
    recommends
        d < 10,
{
    (('0' as int) + d) as char
}

/// The decimal rendering of a natural number, most significant digit first.
pub open spec fn decimal(n: nat) -> Seq<char>
    decreases n,
{
    if n < 10 {
        seq![digit_char(n)]
    } else {
        decimal(n / 10).push(digit_char(n % 10))
    }
}

/// The decimal rendering of an integer, with a leading `-` when negative.
pub open spec fn signed_decimal(i: int) -> Seq<char> {
    if i < 0 {
        seq!['-'] + decimal((-i) as nat)
    } else {
        decimal(i as nat)
    }
}

/// Renders `n` in decimal, as `u64`'s `Display` does.
pub fn u64_text(n: u64) -> (r: String)
    ensures
        r@ == decimal(n as nat),
{
    let mut digits: Vec<char> = Vec::new();
    let mut m: u64 = n;
    loop
        invariant_except_break
            decimal(n as nat) == decimal(m as nat) + digits@,
        ensures
            decimal(n as nat) == digits@,
        decreases m,
    {
        let d = m % 10;
        let c = ((d as u8) + 48) as char;
        assert(c == digit_char((m % 10) as nat));
        if m < 10 {
            digits.insert(0, c);
            assert(decimal(m as nat) =~= seq![c]);
            assert(decimal(n as nat) =~= digits@);
            break;
        }
        assert(decimal(m as nat) == decimal((m / 10) as nat).push(c));
        digits.insert(0, c);
        assert(decimal(n as nat) =~= decimal((m / 10) as nat) + digits@);
        m = m / 10;
    }
    let mut r = String::new();
    let mut i: usize = 0;
    while i < digits.len()
        invariant
            i <= digits.len(),
            r@ == digits@.subrange(0, i as int),
        decreases digits.len() - i,
    {
        push_char(&mut r, digits[i]);
        assert(digits@.subrange(0, i + 1) =~= digits@.subrange(0, i as int).push(digits@[i as int]));
        i = i + 1;
    }
    assert(digits@.subrange(0, digits.len() as int) =~= digits@);
    r
}

/// Renders `i` in decimal, as `i64`'s `Display` does.
pub fn i64_text(i: i64) -> (r: String)
    ensures
        r@ == signed_decimal(i as int),
{
    if i < 0 {
        let magnitude: u64 = if i == i64::MIN {
            9223372036854775808u64
        } else {
            (-i) as u64
        };
        let digits = u64_text(magnitude);
        let mut r = String::from_str("-");
        proof {
            reveal_strlit("-");
        }
        r.append(digits.as_str());
        r
    } else {
        u64_text(i as u64)
    }
}

pub open spec fn is_ascii_digit(c: char) -> bool {
    '0' <= c && c <= '9'
}

pub open spec fn digit_value(c: char) -> nat {
    ((c as int) - ('0' as int)) as nat
}

/// Why a text is not an unsigned integer, with `core::num::IntErrorKind`'s
/// meaning for the variants an unsigned parse can report.
#[derive(Debug, Clone, Copy, PartialEq, Eq, Structural)]
pub enum ParseIntFailure {
    Empty,
    InvalidDigit,
    PosOverflow,
}

/// Reads the digits left to right; the first non-digit, or the first step
/// that exceeds `max`, decides the failure.
pub open spec fn accumulate(d: Seq<char>, acc: nat, max: nat) -> Result<nat, ParseIntFailure>
    decreases d.len(),
{
    if d.len() == 0 {
        Ok(acc)
    } else if !is_ascii_digit(d[0]) {
        Err(ParseIntFailure::InvalidDigit)
    } else if acc * 10 + digit_value(d[0]) > max {
        Err(ParseIntFailure::PosOverflow)
    } else {
        accumulate(d.drop_first(), acc * 10 + digit_value(d[0]), max)
    }
}

/// `str::parse` for an unsigned integer type whose largest value is `max`:
/// an optional `+` followed by decimal digits.
pub open spec fn parse_unsigned(t: Seq<char>, max: nat) -> Result<nat, ParseIntFailure> {
    if t.len() == 0 {
        Err(ParseIntFailure::Empty)
    } else if t.len() == 1 && (t[0] == '+' || t[0] == '-') {
        Err(ParseIntFailure::InvalidDigit)
    } else if t[0] == '+' {
        accumulate(t.drop_first(), 0, max)
    } else {
        accumulate(t, 0, max)
    }
}

proof fn lemma_accumulate_bound(d: Seq<char>, acc: nat, max: nat)
    requires
        acc <= max,
    ensures
        accumulate(d, acc, max) matches Ok(v) ==> v <= max,
    decreases d.len(),
{
    if d.len() > 0 && is_ascii_digit(d[0]) && acc * 10 + digit_value(d[0]) <= max {
        lemma_accumulate_bound(d.drop_first(), acc * 10 + digit_value(d[0]), max);
    }
}

/// Parses `t` as an unsigned integer no larger than `max`, as `str::parse`
/// does for `u32`, `u64` or `usize`.
pub fn parse_unsigned_text(t: &str, max: u64) -> (r: Result<u64, ParseIntFailure>)
    ensures
        match (r, parse_unsigned(t@, max as nat)) {
            (Ok(v), Ok(w)) => v == w,
            (Err(e), Err(f)) => e == f,
            _ => false,
        },
{
    let n = t.unicode_len();
    if n == 0 {
        return Err(ParseIntFailure::Empty);
    }
    let first = t.get_char(0);
    if n == 1 && (first == '+' || first == '-') {
        return Err(ParseIntFailure::InvalidDigit);
    }
    let start: usize = if first == '+' {
        1
    } else {
        0
    };
    let ghost d = t@.subrange(start as int, n as int);
    assert(t@.drop_first() =~= t@.subrange(1, n as int));
    assert(t@ =~= t@.subrange(0, n as int));
    let mut acc: u64 = 0;
    let mut i: usize = start;
    while i < n
        invariant
            n == t@.len(),
            start <= i <= n,
            acc <= max,
            parse_unsigned(t@, max as nat) == accumulate(d, 0, max as nat),
            accumulate(d, 0, max as nat) == accumulate(t@.subrange(i as int, n as int), acc as nat, max as nat),
        decreases n - i,
    {
        let c = t.get_char(i);
        assert(t@.subrange(i as int, n as int)[0] == c);
        assert(t@.subrange(i as int, n as int).drop_first() =~= t@.subrange(i + 1, n as int));
        if !('0' <= c && c <= '9') {
            proof {
                lemma_accumulate_bound(d, 0, max as nat);
            }
            return Err(ParseIntFailure::InvalidDigit);
        }
        let dv: u64 = ((c as u8) - 48) as u64;
        assert(dv == digit_value(c));
        if acc > max / 10 {
            assert(acc * 10 > max) by (nonlinear_arith)
                requires
                    acc > max / 10,
            ;
            return Err(ParseIntFailure::PosOverflow);
        }
        assert(acc * 10 <= max) by (nonlinear_arith)
            requires
                acc <= max / 10,
        ;
        let tens = acc * 10;
        if dv > max || tens > max - dv {
            return Err(ParseIntFailure::PosOverflow);
        }
        acc = tens + dv;
        i = i + 1;
    }
    assert(t@.subrange(n as int, n as int).len() == 0);
    Ok(acc)
}

} // verus!

verus! {

/// The text `{:?}` renders for a string: quoted, with quotes, backslashes and
/// non-printable characters escaped.
pub uninterp spec fn debug_text(s: Seq<char>) -> Seq<char>;

/// Renders `s` as `format!("{:?}", s)` does.
///
/// Trusted: `<str as Debug>::fmt`, whose output depends on the text alone.
#[verifier::external_body]
pub(crate) fn debug_quote(s: &str) -> (r: String)
    ensures
        r@ == debug_text(s@),
{
    format!("{:?}", s)
}

/// Appends `t` to `s` and hands the result back.
pub fn cat(s: String, t: &str) -> (r: String)
    ensures
        r@ == s@ + t@,
{
    let mut s = s;
    s.append(t);
    s
}

/// Whether two texts are the same.
pub fn same_text(a: &str, b: &str) -> (r: bool)
    ensures
        r == (a@ == b@),
{
    let x = String::from_str(a);
    let y = String::from_str(b);
    x == y
}

} // verus!

verus! {

/// A successful parse never exceeds the bound.
pub proof fn lemma_parse_unsigned_bound(t: Seq<char>, max: nat)
    ensures
        parse_unsigned(t, max) matches Ok(v) ==> v <= max,
{
    lemma_accumulate_bound(t, 0, max);
    if t.len() > 0 {
        lemma_accumulate_bound(t.drop_first(), 0, max);
    }
}

} // verus!

verus! {

/// `p` is a prefix of `s`.
pub open spec fn is_prefix(p: Seq<char>, s: Seq<char>) -> bool {
    p.len() <= s.len() && s.subrange(0, p.len() as int) == p
}

/// `str::starts_with` with a string pattern.
pub fn starts_with(s: &str, p: &str) -> (b: bool)
    ensures
        b == is_prefix(p@, s@),
{
    let n = s.unicode_len();
    let m = p.unicode_len();
    if m > n {
        return false;
    }
    let mut i: usize = 0;
    while i < m
        invariant
            n == s@.len(),
            m == p@.len(),
            m <= n,
            i <= m,
            forall|j: int| 0 <= j < i ==> s@[j] == p@[j],
        decreases m - i,
    {
        if s.get_char(i) != p.get_char(i) {
            assert(s@.subrange(0, m as int)[i as int] != p@[i as int]);
            return false;
        }
        i = i + 1;
    }
    assert(s@.subrange(0, m as int) =~= p@);
    true
}

} // verus!

verus! {

/// `pat` occurs in `s` starting at position `i`.
pub open spec fn occurs_at(s: Seq<char>, pat: Seq<char>, i: int) -> bool {
    0 <= i && i + pat.len() <= s.len() && s.subrange(i, i + pat.len()) == pat
}

/// `pat` occurs somewhere in `s`.
pub open spec fn contains_seq(s: Seq<char>, pat: Seq<char>) -> bool {
    exists|i: int| occurs_at(s, pat, i)
}

/// `str::contains` with a string pattern.
pub fn contains_text(s: &str, pat: &str) -> (b: bool)
    ensures
        b == contains_seq(s@, pat@),
{
    let n = s.unicode_len();
    let m = pat.unicode_len();
    if m > n {
        assert forall|i: int| !occurs_at(s@, pat@, i) by {}
        return false;
    }
    let last = n - m;
    let mut i: usize = 0;
    loop
        invariant_except_break
            n == s@.len(),
            m == pat@.len(),
            m <= n,
            last == n - m,
            i <= last,
            forall|j: int| 0 <= j < i ==> !occurs_at(s@, pat@, j),
        ensures
            forall|j: int| 0 <= j <= last ==> !occurs_at(s@, pat@, j),
        decreases last - i,
    {
        let window = s.substring_char(i, i + m);
        if same_text(window, pat) {
            assert(occurs_at(s@, pat@, i as int));
            return true;
        }
        if i == last {
            break;
        }
        i = i + 1;
    }
    assert forall|j: int| !occurs_at(s@, pat@, j) by {
        if 0 <= j && j + m <= n {
            assert(j <= last);
        }
    }
    false
}

/// The position of the last occurrence of `c` in `s`.
pub open spec fn last_index_of(s: Seq<char>, c: char) -> Option<int>
    decreases s.len(),
{
    if s.len() == 0 {
        None
    } else if s.last() == c {
        Some(s.len() - 1)
    } else {
        last_index_of(s.drop_last(), c)
    }
}

/// `str::rfind` with a character pattern, counted in characters.
pub fn rfind_char(s: &str, c: char) -> (r: Option<usize>)
    ensures
        match (r, last_index_of(s@, c)) {
            (Some(i), Some(j)) => i == j && i < s@.len(),
            (None, None) => true,
            _ => false,
        },
{
    let mut j = s.unicode_len();
    assert(s@.subrange(0, j as int) =~= s@);
    while j > 0
        invariant
            j <= s@.len(),
            last_index_of(s@, c) == last_index_of(s@.subrange(0, j as int), c),
        decreases j,
    {
        if s.get_char(j - 1) == c {
            return Some(j - 1);
        }
        assert(s@.subrange(0, j as int).drop_last() =~= s@.subrange(0, j - 1));
        j = j - 1;
    }
    None
}

} // verus!
