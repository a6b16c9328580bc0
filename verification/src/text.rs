//! Text primitives over `char` sequences, each stated against a spec function.
use vstd::prelude::*;

verus! {

/// `needle` occurs in `hay` starting at index `i`.
pub open spec fn occurs_at(hay: Seq<char>, needle: Seq<char>, i: int) -> bool {
    0 <= i && i + needle.len() <= hay.len() && hay.subrange(i, i + needle.len()) == needle
}

/// `needle` occurs somewhere in `hay`.
pub open spec fn seq_contains(hay: Seq<char>, needle: Seq<char>) -> bool {
    exists|i: int| occurs_at(hay, needle, i)
}

/// `prefix` is a prefix of `s`.
pub open spec fn has_prefix(s: Seq<char>, prefix: Seq<char>) -> bool {
    prefix.len() <= s.len() && s.subrange(0, prefix.len() as int) == prefix
}

/// Appends one character (`String::push`).
#[verifier::external_body]
pub(crate) fn push_char(s: &mut String, c: char)
    ensures
        final(s)@ == old(s)@.push(c),
{
    s.push(c);
}

/// Compares two strings character by character.
pub fn str_eq(a: &str, b: &str) -> (r: bool)
    ensures
        r == (a@ == b@),
{
    let n = a.unicode_len();
    if n != b.unicode_len() {
        return false;
    }
    let mut i: usize = 0;
    while i < n
        invariant
            n == a@.len(),
            n == b@.len(),
            i <= n,
            a@.subrange(0, i as int) == b@.subrange(0, i as int),
        decreases n - i,
    {
        if a.get_char(i) != b.get_char(i) {
            assert(a@[i as int] != b@[i as int]);
            return false;
        }
        assert(a@.subrange(0, i + 1) == a@.subrange(0, i as int).push(a@[i as int]));
        assert(b@.subrange(0, i + 1) == b@.subrange(0, i as int).push(b@[i as int]));
        i = i + 1;
    }
    assert(a@ == a@.subrange(0, n as int));
    assert(b@ == b@.subrange(0, n as int));
    true
}


/// `s` with every occurrence of `c` removed.
pub open spec fn without_char(s: Seq<char>, c: char) -> Seq<char>
    decreases s.len(),
{
    if s.len() == 0 {
        s
    } else if s.last() == c {
        without_char(s.drop_last(), c)
    } else {
        without_char(s.drop_last(), c).push(s.last())
    }
}

/// The lowercase form of a text that is not all ASCII, as
/// `str::to_lowercase` computes it (Unicode `Lowercase` mapping, including
/// the context rule for final sigma).
pub uninterp spec fn unicode_lowercase(s: Seq<char>) -> Seq<char>;

/// The lowercase form of a text as `str::to_lowercase` computes it: an
/// ASCII text with its capitals made small, any other as Unicode maps it.
pub open spec fn lowercase(s: Seq<char>) -> Seq<char> {
    if vstd::utf8::is_ascii_chars(s) {
        ascii_lowered(s)
    } else {
        unicode_lowercase(s)
    }
}

/// The lowercase form of an ASCII character: `A` to `Z` become `a` to `z`,
/// every other character stays.
pub open spec fn ascii_lower_char(c: char) -> char {
    if 'A' <= c && c <= 'Z' {
        ((c as u32) + 32) as char
    } else {
        c
    }
}

/// A text with its ASCII capitals made small.
pub open spec fn ascii_lowered(s: Seq<char>) -> Seq<char> {
    s.map_values(|c: char| ascii_lower_char(c))
}

/// `str::to_lowercase`. Unicode's lowercase mapping takes `A` to `Z` to
/// `a` to `z` and keeps every other ASCII character, so an ASCII text comes
/// back with its capitals made small; for any other text the result is
/// named by `unicode_lowercase`.
#[verifier::external_body]
pub(crate) fn to_lowercase(s: &str) -> (r: String)
    ensures
        vstd::utf8::is_ascii_chars(s@) ==> r@ == ascii_lowered(s@),
        !vstd::utf8::is_ascii_chars(s@) ==> r@ == unicode_lowercase(s@),
{
    s.to_lowercase()
}

/// A text with its ASCII capitals made small, then its `_` removed.
pub open spec fn ascii_normalized(s: Seq<char>) -> Seq<char> {
    without_char(ascii_lowered(s), '_')
}

/// Whether a text has no ASCII capital.
pub open spec fn no_capitals(s: Seq<char>) -> bool {
    forall|i: int| 0 <= i < s.len() ==> !('A' <= #[trigger] s[i] && s[i] <= 'Z')
}

/// Removing a character keeps an ASCII text ASCII, keeps it free of
/// capitals, and leaves no such character.
pub proof fn lemma_without_char(s: Seq<char>, c: char)
    ensures
        vstd::utf8::is_ascii_chars(s) ==> vstd::utf8::is_ascii_chars(without_char(s, c)),
        no_capitals(s) ==> no_capitals(without_char(s, c)),
        lacks(without_char(s, c), c),
        lacks(s, c) ==> without_char(s, c) == s,
    decreases s.len(),
{
    if s.len() > 0 {
        lemma_without_char(s.drop_last(), c);
        let w = without_char(s.drop_last(), c);
        if s.last() != c {
            assert forall|i: int| 0 <= i < w.push(s.last()).len() implies w.push(s.last())[i] != c by {
                if i < w.len() {
                    assert(w.push(s.last())[i] == w[i]);
                }
            }
            if lacks(s, c) {
                assert(lacks(s.drop_last(), c)) by {
                    assert forall|i: int| 0 <= i < s.drop_last().len() implies s.drop_last()[i] != c by {
                        assert(s.drop_last()[i] == s[i]);
                    }
                }
                assert(w.push(s.last()) =~= s);
            }
            if vstd::utf8::is_ascii_chars(s) {
                assert(vstd::utf8::is_ascii_chars(s.drop_last())) by {
                    assert forall|i: int| 0 <= i < s.drop_last().len() implies '\0' <= #[trigger] s.drop_last()[i] <= '\u{7f}' by {
                        assert(s.drop_last()[i] == s[i]);
                    }
                }
                assert forall|i: int| 0 <= i < w.push(s.last()).len() implies '\0' <= #[trigger] w.push(s.last())[i] <= '\u{7f}' by {
                    if i < w.len() {
                        assert(w.push(s.last())[i] == w[i]);
                    }
                }
            }
            if no_capitals(s) {
                assert(no_capitals(s.drop_last())) by {
                    assert forall|i: int| 0 <= i < s.drop_last().len() implies !('A' <= #[trigger] s.drop_last()[i] && s.drop_last()[i] <= 'Z') by {
                        assert(s.drop_last()[i] == s[i]);
                    }
                }
                assert forall|i: int| 0 <= i < w.push(s.last()).len() implies !('A' <= #[trigger] w.push(s.last())[i] && w.push(s.last())[i] <= 'Z') by {
                    if i < w.len() {
                        assert(w.push(s.last())[i] == w[i]);
                    }
                }
            }
        } else {
            if vstd::utf8::is_ascii_chars(s) {
                assert(vstd::utf8::is_ascii_chars(s.drop_last())) by {
                    assert forall|i: int| 0 <= i < s.drop_last().len() implies '\0' <= #[trigger] s.drop_last()[i] <= '\u{7f}' by {
                        assert(s.drop_last()[i] == s[i]);
                    }
                }
            }
            if no_capitals(s) {
                assert(no_capitals(s.drop_last())) by {
                    assert forall|i: int| 0 <= i < s.drop_last().len() implies !('A' <= #[trigger] s.drop_last()[i] && s.drop_last()[i] <= 'Z') by {
                        assert(s.drop_last()[i] == s[i]);
                    }
                }
            }
            if lacks(s, c) {
                assert(s[s.len() - 1] != c);
            }
        }
    }
}

/// Normalizing an ASCII text once is enough: the result is ASCII and
/// normalizes to itself.
pub proof fn lemma_ascii_normalized_idempotent(s: Seq<char>)
    requires
        vstd::utf8::is_ascii_chars(s),
    ensures
        vstd::utf8::is_ascii_chars(ascii_normalized(s)),
        ascii_normalized(ascii_normalized(s)) == ascii_normalized(s),
{
    let l = ascii_lowered(s);
    assert(vstd::utf8::is_ascii_chars(l)) by {
        assert forall|i: int| 0 <= i < l.len() implies '\0' <= #[trigger] l[i] <= '\u{7f}' by {
            assert(l[i] == ascii_lower_char(s[i]));
        }
    }
    assert(no_capitals(l)) by {
        assert forall|i: int| 0 <= i < l.len() implies !('A' <= #[trigger] l[i] && l[i] <= 'Z') by {
            assert(l[i] == ascii_lower_char(s[i]));
        }
    }
    lemma_without_char(l, '_');
    let n = without_char(l, '_');
    assert(ascii_lowered(n) =~= n) by {
        assert forall|i: int| 0 <= i < n.len() implies ascii_lowered(n)[i] == n[i] by {
            assert(!('A' <= n[i] && n[i] <= 'Z'));
        }
    }
    lemma_without_char(n, '_');
}

/// A character with the Unicode `White_Space` property, which
/// `char::is_whitespace` tests and the `str` trimming and splitting methods use.
pub open spec fn is_white_space(c: char) -> bool {
    ||| '\u{9}' <= c <= '\u{d}'
    ||| c == ' '
    ||| c == '\u{85}'
    ||| c == '\u{a0}'
    ||| c == '\u{1680}'
    ||| '\u{2000}' <= c <= '\u{200a}'
    ||| c == '\u{2028}'
    ||| c == '\u{2029}'
    ||| c == '\u{202f}'
    ||| c == '\u{205f}'
    ||| c == '\u{3000}'
}

/// `s` without its trailing whitespace, as `str::trim_end` computes it.
pub open spec fn trimmed_end(s: Seq<char>) -> Seq<char>
    decreases s.len(),
{
    if s.len() > 0 && is_white_space(s.last()) {
        trimmed_end(s.drop_last())
    } else {
        s
    }
}

/// `str::trim_end` (see `trimmed_end`); the result is a prefix of `s`.
#[verifier::external_body]
pub(crate) fn trim_end(s: &str) -> (r: &str)
    ensures
        r@ == trimmed_end(s@),
        r@.len() <= s@.len(),
        r@ == s@.subrange(0, r@.len() as int),
{
    s.trim_end()
}

/// `s` without leading and trailing whitespace, as `str::trim` computes it.
pub open spec fn trimmed(s: Seq<char>) -> Seq<char> {
    trimmed_start(trimmed_end(s))
}

/// `str::trim` (see `trimmed`).
#[verifier::external_body]
pub(crate) fn trim(s: &str) -> (r: &str)
    ensures
        r@ == trimmed(s@),
        r@.len() <= s@.len(),
{
    s.trim()
}

/// `s` without leading whitespace, as `str::trim_start` computes it.
pub open spec fn trimmed_start(s: Seq<char>) -> Seq<char>
    decreases s.len(),
{
    if s.len() > 0 && is_white_space(s[0]) {
        trimmed_start(s.drop_first())
    } else {
        s
    }
}

/// `str::trim_start` (see `trimmed_start`); the result is an end part of `s`.
#[verifier::external_body]
pub(crate) fn trim_start(s: &str) -> (r: &str)
    ensures
        r@ == trimmed_start(s@),
        r@.len() <= s@.len(),
        r@ == s@.subrange(s@.len() - r@.len(), s@.len() as int),
{
    s.trim_start()
}

/// The words of `s` between runs of whitespace, as `str::split_whitespace`
/// finds them: the maximal runs of other characters, in order.
pub open spec fn words(s: Seq<char>) -> Seq<Seq<char>>
    decreases s.len(),
{
    if s.len() == 0 {
        Seq::empty()
    } else if is_white_space(s.last()) {
        words(s.drop_last())
    } else if s.len() >= 2 && !is_white_space(s[s.len() - 2]) {
        let w = words(s.drop_last());
        w.update(w.len() - 1, w.last().push(s.last()))
    } else {
        words(s.drop_last()).push(seq![s.last()])
    }
}

/// `str::split_whitespace`, each word copied (see `words`).
#[verifier::external_body]
pub(crate) fn split_whitespace(s: &str) -> (r: Vec<String>)
    ensures
        views(r@) == words(s@),
{
    s.split_whitespace().map(|w| w.to_string()).collect()
}

/// Copies a string slice into a new `String`.
pub fn to_string(s: &str) -> (r: String)
    ensures
        r@ == s@,
{
    String::from_str(s)
}

/// Copies `s` leaving out every `c` (`str::replace(c, "")`).
pub fn remove_char(s: &str, c: char) -> (r: String)
    ensures
        r@ == without_char(s@, c),
{
    let n = s.unicode_len();
    let mut out = String::new();
    let mut i: usize = 0;
    while i < n
        invariant
            n == s@.len(),
            i <= n,
            out@ == without_char(s@.subrange(0, i as int), c),
        decreases n - i,
    {
        let ch = s.get_char(i);
        assert(s@.subrange(0, i + 1).drop_last() == s@.subrange(0, i as int));
        if ch != c {
            push_char(&mut out, ch);
        }
        i = i + 1;
    }
    assert(s@.subrange(0, n as int) == s@);
    out
}

/// Whether `needle` occurs in `hay` at character index `i`.
pub fn matches_at(hay: &str, needle: &str, i: usize) -> (r: bool)
    ensures
        r == occurs_at(hay@, needle@, i as int),
{
    let n = hay.unicode_len();
    let m = needle.unicode_len();
    if i > n || m > n - i {
        return false;
    }
    let mut j: usize = 0;
    while j < m
        invariant
            n == hay@.len(),
            m == needle@.len(),
            i + m <= n,
            j <= m,
            forall|k: int| 0 <= k < j ==> hay@[i + k] == needle@[k],
        decreases m - j,
    {
        if hay.get_char(i + j) != needle.get_char(j) {
            assert(hay@.subrange(i as int, i + m)[j as int] != needle@[j as int]);
            return false;
        }
        j = j + 1;
    }
    assert(hay@.subrange(i as int, i + m) =~= needle@);
    true
}

/// Whether `needle` occurs anywhere in `hay` (`str::contains`).
pub fn contains(hay: &str, needle: &str) -> (r: bool)
    ensures
        r == seq_contains(hay@, needle@),
{
    let n = hay.unicode_len();
    let m = needle.unicode_len();
    if m > n {
        return false;
    }
    let mut i: usize = 0;
    loop
        invariant
            n == hay@.len(),
            m == needle@.len(),
            m <= n,
            i <= n - m,
            forall|k: int| 0 <= k < i ==> !occurs_at(hay@, needle@, k),
        decreases n - m - i,
    {
        if matches_at(hay, needle, i) {
            return true;
        }
        if i == n - m {
            return false;
        }
        i = i + 1;
    }
}

/// `str::strip_prefix`: the rest of `s` after `prefix`, if `s` starts with it.
pub fn strip_prefix<'a>(s: &'a str, prefix: &str) -> (r: Option<&'a str>)
    ensures
        r is Some <==> has_prefix(s@, prefix@),
        r matches Some(rest) ==> rest@ == s@.subrange(prefix@.len() as int, s@.len() as int),
{
    if matches_at(s, prefix, 0) {
        assert(has_prefix(s@, prefix@));
        Some(s.substring_char(prefix.unicode_len(), s.unicode_len()))
    } else {
        None
    }
}

/// The decimal digit character for `d < 10`.
pub open spec fn digit_char(d: nat) -> char {
    ((48 + d) as u8) as char
}

/// Decimal representation of a natural number, as `Display` prints it.
pub open spec fn decimal(n: nat) -> Seq<char>
    decreases n,
{
    if n < 10 {
        seq![digit_char(n)]
    } else {
        decimal(n / 10).push(digit_char(n % 10))
    }
}

/// Appends the decimal representation of `n`.
pub fn push_decimal(s: &mut String, n: u64)
    ensures
        final(s)@ == old(s)@ + decimal(n as nat),
    decreases n,
{
    if n >= 10 {
        push_decimal(s, n / 10);
    }
    let d: u8 = (n % 10) as u8;
    let c = (48u8 + d) as char;
    push_char(s, c);
    assert(decimal(n as nat) == (if n < 10 { Seq::<char>::empty() } else { decimal((n / 10) as nat) }).push(c));
}

/// Decimal representation of an integer, with a leading `-` when negative.
pub open spec fn decimal_int(n: int) -> Seq<char> {
    if n < 0 {
        seq!['-'] + decimal((-n) as nat)
    } else {
        decimal(n as nat)
    }
}

/// Appends the decimal representation of `n`.
pub fn push_i64(s: &mut String, n: i64)
    ensures
        final(s)@ == old(s)@ + decimal_int(n as int),
{
    if n < 0 {
        push_char(s, '-');
        let m: u64 = ((-(n + 1)) as u64) + 1;
        push_decimal(s, m);
        assert(old(s)@ + seq!['-'] + decimal(m as nat) == old(s)@ + (seq!['-'] + decimal(m as nat)));
    } else {
        push_decimal(s, n as u64);
    }
}

/// The value of a string of decimal digits.
pub open spec fn digits_value(d: Seq<char>) -> nat
    decreases d.len(),
{
    if d.len() == 0 {
        0
    } else {
        digits_value(d.drop_last()) * 10 + (d.last() as nat - 48) as nat
    }
}

pub open spec fn is_digit(c: char) -> bool {
    '0' <= c && c <= '9'
}

pub open spec fn all_digits(d: Seq<char>) -> bool {
    forall|i: int| 0 <= i < d.len() ==> is_digit(#[trigger] d[i])
}

/// What `str::parse::<u64>` accepts: an optional `+`, then at least one digit,
/// with a value that fits in `u64`.
pub open spec fn parse_u64_spec(s: Seq<char>) -> Option<u64> {
    let d = if s.len() > 0 && s[0] == '+' { s.drop_first() } else { s };
    if d.len() > 0 && all_digits(d) && digits_value(d) <= u64::MAX {
        Some(digits_value(d) as u64)
    } else {
        None
    }
}

/// The character of a digit is that digit.
proof fn lemma_digit_char(d: nat)
    requires
        d < 10,
    ensures
        is_digit(digit_char(d)),
        digit_char(d) as nat - 48 == d,
{
    let b: u8 = (48 + d) as u8;
    assert(b as nat == 48 + d);
    assert((b as char) as nat == b as nat);
}

/// The decimal digits of `n` are digits, at least one, and read back as `n`.
pub proof fn lemma_decimal_digits(n: nat)
    ensures
        decimal(n).len() > 0,
        all_digits(decimal(n)),
        digits_value(decimal(n)) == n,
    decreases n,
{
    lemma_digit_char(n % 10);
    if n < 10 {
        assert(n % 10 == n);
        assert(decimal(n).drop_last() =~= Seq::<char>::empty());
        assert(decimal(n).last() == digit_char(n));
        assert(digits_value(decimal(n)) == digits_value(Seq::<char>::empty()) * 10 + (digit_char(n) as nat - 48) as nat);
    } else {
        lemma_decimal_digits(n / 10);
        let d = decimal(n / 10);
        assert(decimal(n).drop_last() == d);
        assert(decimal(n).last() == digit_char(n % 10));
        assert(digits_value(decimal(n)) == digits_value(d) * 10 + (n % 10));
        assert((n / 10) * 10 + n % 10 == n);
        assert forall|i: int| 0 <= i < decimal(n).len() implies is_digit(#[trigger] decimal(n)[i]) by {
            if i < d.len() {
                assert(decimal(n)[i] == d[i]);
            }
        }
    }
}

/// `str::parse::<u64>` reads back what `Display` writes.
pub proof fn lemma_parse_decimal(n: u64)
    ensures
        parse_u64_spec(decimal(n as nat)) == Some(n),
{
    lemma_decimal_digits(n as nat);
    assert(is_digit(decimal(n as nat)[0]));
}

proof fn lemma_digits_value_prefix_le(d: Seq<char>, k: int)
    requires
        0 <= k <= d.len(),
        all_digits(d),
    ensures
        digits_value(d.subrange(0, k)) <= digits_value(d),
    decreases d.len() - k,
{
    if k < d.len() {
        let p = d.subrange(0, k + 1);
        assert(p.drop_last() == d.subrange(0, k));
        assert(is_digit(d[k]));
        lemma_digits_value_prefix_le(d, k + 1);
    } else {
        assert(d.subrange(0, k) == d);
    }
}

/// `str::parse::<u64>`.
pub fn parse_u64(s: &str) -> (r: Option<u64>)
    ensures
        r == parse_u64_spec(s@),
{
    let n = s.unicode_len();
    let mut i: usize = 0;
    if n > 0 && s.get_char(0) == '+' {
        i = 1;
    }
    let start = i;
    let ghost d = if s@.len() > 0 && s@[0] == '+' { s@.drop_first() } else { s@ };
    assert(d == s@.subrange(start as int, n as int));
    if i == n {
        return None;
    }
    let mut value: u64 = 0;
    while i < n
        invariant
            n == s@.len(),
            start <= i <= n,
            d == s@.subrange(start as int, n as int),
            d == (if s@.len() > 0 && s@[0] == '+' { s@.drop_first() } else { s@ }),
            all_digits(s@.subrange(start as int, i as int)),
            value as nat == digits_value(s@.subrange(start as int, i as int)),
        decreases n - i,
    {
        let c = s.get_char(i);
        let ghost pre = s@.subrange(start as int, i as int);
        let ghost next = s@.subrange(start as int, i + 1);
        assert(next.drop_last() == pre);
        assert(next == d.subrange(0, i + 1 - start));
        assert(d[i - start] == c);
        assert(next.last() == c);
        if !('0' <= c && c <= '9') {
            assert(!is_digit(d[i - start]));
            return None;
        }
        let digit: u64 = (c as u64) - 48;
        assert(all_digits(next));
        if value > (u64::MAX - digit) / 10 {
            assert(digits_value(next) > u64::MAX) by (nonlinear_arith)
                requires
                    digits_value(next) == value * 10 + digit,
                    value > (u64::MAX - digit) / 10,
                    digit <= 9,
            ;
            proof {
                let k = i + 1 - start;
                if all_digits(d) {
                    lemma_digits_value_prefix_le(d, k);
                }
            }
            return None;
        }
        assert(value * 10 + digit <= u64::MAX) by (nonlinear_arith)
            requires
                value <= (u64::MAX - digit) / 10,
                digit <= 9,
        ;
        value = value * 10 + digit;
        i = i + 1;
    }
    Some(value)
}


/// The integer a decimal text denotes: an optional sign (`+` or `-`), then
/// at least one digit.
pub open spec fn parse_int_spec(s: Seq<char>) -> Option<int> {
    if s.len() > 0 && s[0] == '-' {
        let d = s.drop_first();
        if d.len() > 0 && all_digits(d) {
            Some(-(digits_value(d) as int))
        } else {
            None
        }
    } else {
        let d = if s.len() > 0 && s[0] == '+' { s.drop_first() } else { s };
        if d.len() > 0 && all_digits(d) {
            Some(digits_value(d) as int)
        } else {
            None
        }
    }
}

/// What `str::parse::<i64>` accepts: a decimal integer that fits in `i64`.
pub open spec fn parse_i64_spec(s: Seq<char>) -> Option<i64> {
    match parse_int_spec(s) {
        Some(v) => if i64::MIN <= v <= i64::MAX {
            Some(v as i64)
        } else {
            None
        },
        None => None,
    }
}

/// What `str::parse::<i32>` accepts: a decimal integer that fits in `i32`.
pub open spec fn parse_i32_spec(s: Seq<char>) -> Option<i32> {
    match parse_int_spec(s) {
        Some(v) => if i32::MIN <= v <= i32::MAX {
            Some(v as i32)
        } else {
            None
        },
        None => None,
    }
}

/// `str::parse::<i64>`.
pub fn parse_i64(s: &str) -> (r: Option<i64>)
    ensures
        r == parse_i64_spec(s@),
{
    let n = s.unicode_len();
    if n > 0 && s.get_char(0) == '-' {
        let rest = s.substring_char(1, n);
        assert(rest@ == s@.drop_first());
        if rest.unicode_len() > 0 && rest.get_char(0) == '+' {
            assert(!is_digit(rest@[0]));
            return None;
        }
        match parse_u64(rest) {
            Some(v) => {
                if v <= 0x8000_0000_0000_0000u64 {
                    let m: i128 = v as i128;
                    Some((-m) as i64)
                } else {
                    None
                }
            },
            None => None,
        }
    } else {
        match parse_u64(s) {
            Some(v) => {
                if v <= 0x7fff_ffff_ffff_ffffu64 {
                    Some(v as i64)
                } else {
                    None
                }
            },
            None => None,
        }
    }
}

/// `str::parse::<i32>`.
pub fn parse_i32(s: &str) -> (r: Option<i32>)
    ensures
        r == parse_i32_spec(s@),
{
    match parse_i64(s) {
        Some(v) => {
            if -2147483648i64 <= v && v <= 2147483647i64 {
                Some(v as i32)
            } else {
                None
            }
        },
        None => None,
    }
}

/// The texts of a sequence joined without separator.
pub open spec fn concat(ss: Seq<Seq<char>>) -> Seq<char>
    decreases ss.len(),
{
    if ss.len() == 0 {
        Seq::empty()
    } else {
        concat(ss.drop_last()) + ss.last()
    }
}

/// `s` with every occurrence of a non-empty `p` removed, searching left to
/// right (`str::replace(p, "")`).
pub open spec fn removed_all(s: Seq<char>, p: Seq<char>) -> Seq<char> {
    concat(split_pat(s, p))
}

/// `s` with every occurrence of a non-empty `p` removed.
pub fn remove_all(s: &str, p: &str) -> (r: String)
    requires
        p@.len() > 0,
    ensures
        r@ == removed_all(s@, p@),
{
    let parts = split_str(s, p);
    let ghost v = views(parts@);
    let mut out = String::new();
    let mut i: usize = 0;
    while i < parts.len()
        invariant
            i <= parts@.len(),
            v == views(parts@),
            out@ == concat(v.take(i as int)),
        decreases parts.len() - i,
    {
        out.append(parts[i].as_str());
        assert(v.take(i + 1).drop_last() =~= v.take(i as int));
        i = i + 1;
    }
    assert(v.take(i as int) =~= v);
    out
}

/// `s` with every copy of a non-empty `p` at its start removed
/// (`str::trim_start_matches`).
pub open spec fn strip_all_prefix(s: Seq<char>, p: Seq<char>) -> Seq<char>
    decreases s.len(),
{
    if p.len() > 0 && has_prefix(s, p) {
        strip_all_prefix(s.skip(p.len() as int), p)
    } else {
        s
    }
}

/// `s` with every copy of a non-empty `p` at its start removed.
pub fn trim_start_matches<'a>(s: &'a str, p: &str) -> (r: &'a str)
    requires
        p@.len() > 0,
    ensures
        r@ == strip_all_prefix(s@, p@),
{
    let mut rest = s;
    while matches_at(rest, p, 0)
        invariant
            p@.len() > 0,
            strip_all_prefix(rest@, p@) == strip_all_prefix(s@, p@),
        decreases rest@.len(),
    {
        let n = rest.unicode_len();
        let m = p.unicode_len();
        assert(has_prefix(rest@, p@));
        rest = rest.substring_char(m, n);
    }
    rest
}

/// The number of spaces at the start of `s`.
pub open spec fn leading_spaces(s: Seq<char>) -> nat
    decreases s.len(),
{
    if s.len() > 0 && s[0] == ' ' {
        1 + leading_spaces(s.skip(1))
    } else {
        0
    }
}

/// The number of spaces at the start of `s`.
pub fn count_leading_spaces(s: &str) -> (r: usize)
    ensures
        r == leading_spaces(s@),
{
    let n = s.unicode_len();
    let mut i: usize = 0;
    assert(s@.skip(0) =~= s@);
    while i < n && s.get_char(i) == ' '
        invariant
            i <= n,
            n == s@.len(),
            leading_spaces(s@) == i + leading_spaces(s@.skip(i as int)),
        decreases n - i,
    {
        assert(s@.skip(i as int).skip(1) =~= s@.skip(i + 1));
        i = i + 1;
    }
    i
}

/// `n` copies of `c`.
pub fn repeat_char(c: char, n: usize) -> (r: String)
    ensures
        r@ == Seq::new(n as nat, |i: int| c),
{
    let mut out = String::new();
    let mut i: usize = 0;
    while i < n
        invariant
            i <= n,
            out@ == Seq::new(i as nat, |j: int| c),
        decreases n - i,
    {
        push_char(&mut out, c);
        assert(out@ =~= Seq::new((i + 1) as nat, |j: int| c));
        i = i + 1;
    }
    out
}

/// The character views of a sequence of strings.
pub open spec fn views(v: Seq<String>) -> Seq<Seq<char>> {
    v.map_values(|x: String| x@)
}

/// The pieces of `s` between occurrences of `c` (`str::split(c)`).
pub open spec fn split_char(s: Seq<char>, c: char) -> Seq<Seq<char>>
    decreases s.len(),
{
    if s.len() == 0 {
        seq![Seq::<char>::empty()]
    } else {
        let pre = split_char(s.drop_last(), c);
        if s.last() == c {
            pre.push(Seq::<char>::empty())
        } else {
            pre.update(pre.len() - 1, pre.last().push(s.last()))
        }
    }
}

pub proof fn lemma_split_char_nonempty(s: Seq<char>, c: char)
    ensures
        split_char(s, c).len() >= 1,
    decreases s.len(),
{
    if s.len() > 0 {
        lemma_split_char_nonempty(s.drop_last(), c);
    }
}

/// Text without `c` is one piece, itself; and one piece is the whole text.
pub proof fn lemma_split_char_single(s: Seq<char>, c: char)
    ensures
        (forall|j: int| 0 <= j < s.len() ==> s[j] != c) ==> split_char(s, c) == seq![s],
        split_char(s, c).len() == 1 ==> split_char(s, c)[0] == s,
    decreases s.len(),
{
    if s.len() > 0 {
        lemma_split_char_single(s.drop_last(), c);
        lemma_split_char_nonempty(s.drop_last(), c);
        assert(s.drop_last().push(s.last()) =~= s);
        if forall|j: int| 0 <= j < s.len() ==> s[j] != c {
            assert forall|j: int| 0 <= j < s.drop_last().len() implies s.drop_last()[j] != c by {
                assert(s.drop_last()[j] == s[j]);
            }
            assert(s[s.len() - 1] != c);
            assert(split_char(s, c) =~= seq![s]);
        }
    } else {
        assert(s =~= Seq::<char>::empty());
    }
}

/// Splits `s` at every `c`.
pub fn split_on_char(s: &str, c: char) -> (r: Vec<String>)
    ensures
        views(r@) == split_char(s@, c),
{
    let n = s.unicode_len();
    let mut pieces: Vec<String> = Vec::new();
    let mut start: usize = 0;
    let mut i: usize = 0;
    assert(views(pieces@) =~= Seq::<Seq<char>>::empty());
    assert(s@.subrange(0, 0) =~= Seq::<char>::empty());
    while i < n
        invariant
            n == s@.len(),
            start <= i <= n,
            views(pieces@).push(s@.subrange(start as int, i as int)) == split_char(
                s@.subrange(0, i as int),
                c,
            ),
        decreases n - i,
    {
        let ch = s.get_char(i);
        let ghost pre = split_char(s@.subrange(0, i as int), c);
        assert(s@.subrange(0, i + 1).drop_last() == s@.subrange(0, i as int));
        assert(s@.subrange(0, i + 1).last() == ch);
        if ch == c {
            let piece = String::from_str(s.substring_char(start, i));
            pieces.push(piece);
            assert(views(pieces@) == pre.drop_last().push(s@.subrange(start as int, i as int)));
            assert(views(pieces@) == pre);
            start = i + 1;
            assert(s@.subrange(start as int, i + 1) == Seq::<char>::empty());
        } else {
            assert(s@.subrange(start as int, i + 1) == s@.subrange(start as int, i as int).push(ch));
            assert(views(pieces@).push(s@.subrange(start as int, i + 1)) == pre.update(
                pre.len() - 1,
                pre.last().push(ch),
            ));
        }
        i = i + 1;
    }
    let last = String::from_str(s.substring_char(start, n));
    pieces.push(last);
    assert(s@.subrange(0, n as int) == s@);
    assert(views(pieces@) == views(pieces@).drop_last().push(last@));
    pieces
}

/// `l` without one trailing carriage return.
pub open spec fn strip_cr(l: Seq<char>) -> Seq<char> {
    if l.len() > 0 && l.last() == '\r' {
        l.drop_last()
    } else {
        l
    }
}

/// Every line with `strip_cr` applied.
pub open spec fn strip_cr_all(ls: Seq<Seq<char>>) -> Seq<Seq<char>> {
    ls.map_values(|l: Seq<char>| strip_cr(l))
}

/// The lines of `s` as `str::lines` yields them: split at `\n`, a `\r` right
/// before a `\n` dropped, and no empty line after a final `\n`.
pub open spec fn lines_of(s: Seq<char>) -> Seq<Seq<char>> {
    let parts = split_char(s, '\n');
    let full = strip_cr_all(parts.drop_last());
    if parts.last().len() == 0 {
        full
    } else {
        full.push(parts.last())
    }
}

/// `str::lines`.
pub fn lines(s: &str) -> (r: Vec<String>)
    ensures
        views(r@) == lines_of(s@),
{
    let parts = split_on_char(s, '\n');
    proof {
        lemma_split_char_nonempty(s@, '\n');
    }
    let ghost ps = split_char(s@, '\n');
    let k = parts.len() - 1;
    let mut out: Vec<String> = Vec::new();
    let mut i: usize = 0;
    while i < k
        invariant
            views(parts@) == ps,
            ps.len() >= 1,
            k == ps.len() - 1,
            i <= k,
            views(out@) == strip_cr_all(ps.subrange(0, i as int)),
        decreases k - i,
    {
        let p = parts[i].as_str();
        assert(p@ == ps[i as int]);
        let len = p.unicode_len();
        let line = if len > 0 && p.get_char(len - 1) == '\r' {
            String::from_str(p.substring_char(0, len - 1))
        } else {
            String::from_str(p)
        };
        assert(line@ == strip_cr(ps[i as int]));
        let ghost before = views(out@);
        out.push(line);
        assert(ps.subrange(0, i + 1) == ps.subrange(0, i as int).push(ps[i as int]));
        assert(views(out@) == before.push(line@));
        assert(views(out@) =~= strip_cr_all(ps.subrange(0, i + 1)));
        i = i + 1;
    }
    assert(ps.subrange(0, k as int) == ps.drop_last());
    let last = parts[k].as_str();
    assert(last@ == ps.last());
    if last.unicode_len() > 0 {
        out.push(String::from_str(last));
    }
    out
}

/// The lines `ls` joined with `\n` between them.
pub open spec fn join_lines(ls: Seq<Seq<char>>) -> Seq<char>
    decreases ls.len(),
{
    if ls.len() == 0 {
        Seq::empty()
    } else if ls.len() == 1 {
        ls[0]
    } else {
        join_lines(ls.drop_last()) + seq!['\n'] + ls.last()
    }
}

/// `c` does not occur in `s`.
pub open spec fn lacks(s: Seq<char>, c: char) -> bool {
    forall|i: int| 0 <= i < s.len() ==> s[i] != c
}

/// A line that differs from `p` at position `i` does not start with `p`.
pub proof fn lemma_differs_at(l: Seq<char>, p: Seq<char>, i: int)
    requires
        0 <= i < p.len(),
        i < l.len() ==> l[i] != p[i],
    ensures
        !has_prefix(l, p),
{
    if has_prefix(l, p) {
        assert(l.subrange(0, p.len() as int)[i] == l[i]);
    }
}

/// Two texts without line breaks joined have none.
pub proof fn lemma_concat_lacks(a: Seq<char>, b: Seq<char>, c: char)
    requires
        lacks(a, c),
        lacks(b, c),
    ensures
        lacks(a + b, c),
{
    assert forall|i: int| 0 <= i < (a + b).len() implies (a + b)[i] != c by {
        if i < a.len() {
            assert((a + b)[i] == a[i]);
        } else {
            assert((a + b)[i] == b[i - a.len()]);
        }
    }
}

/// Lines that `join_lines` and `lines_of` turn into each other: at least one,
/// none with a line break, none ending in a carriage return, the last not empty.
pub open spec fn plain_lines(ls: Seq<Seq<char>>) -> bool {
    &&& ls.len() >= 1
    &&& forall|k: int| 0 <= k < ls.len() ==> lacks(#[trigger] ls[k], '\n')
    &&& forall|k: int| 0 <= k < ls.len() ==> strip_cr(#[trigger] ls[k]) == ls[k]
    &&& ls.last().len() > 0
}

proof fn lemma_split_append_plain(a: Seq<char>, b: Seq<char>, c: char)
    requires
        lacks(b, c),
    ensures
        split_char(a + b, c) == split_char(a, c).update(
            split_char(a, c).len() - 1,
            split_char(a, c).last() + b,
        ),
    decreases b.len(),
{
    lemma_split_char_nonempty(a, c);
    if b.len() == 0 {
        assert(a + b == a);
        assert(split_char(a, c).last() + b == split_char(a, c).last());
        assert(split_char(a, c).update(split_char(a, c).len() - 1, split_char(a, c).last())
            =~= split_char(a, c));
    } else {
        let b0 = b.drop_last();
        assert(lacks(b0, c)) by {
            assert forall|i: int| 0 <= i < b0.len() implies b0[i] != c by {
                assert(b0[i] == b[i]);
            }
        }
        assert(b[b.len() - 1] != c);
        lemma_split_append_plain(a, b0, c);
        let sa = split_char(a, c);
        let sab0 = split_char(a + b0, c);
        assert(sab0.len() == sa.len());
        assert(sab0.last() == sa.last() + b0);
        let ab = a + b;
        assert(ab.len() > 0);
        assert(ab.last() == b.last());
        assert(ab.last() != c);
        assert(ab.drop_last() =~= a + b0);
        assert(split_char(ab, c) == split_char(ab.drop_last(), c).update(
            split_char(ab.drop_last(), c).len() - 1,
            split_char(ab.drop_last(), c).last().push(ab.last()),
        ));
        assert((sa.last() + b0).push(b.last()) =~= sa.last() + b);
        assert((a + b).drop_last() == a + b0);
        assert((a + b).last() == b.last());
        lemma_split_char_nonempty(a + b0, c);
        assert(split_char(a, c).last() + b0 + seq![b.last()] == split_char(a, c).last() + b);
        assert(split_char(a + b, c) =~= split_char(a, c).update(
            split_char(a, c).len() - 1,
            split_char(a, c).last() + b,
        ));
    }
}

proof fn lemma_split_join(ls: Seq<Seq<char>>)
    requires
        ls.len() >= 1,
        forall|k: int| 0 <= k < ls.len() ==> lacks(#[trigger] ls[k], '\n'),
    ensures
        split_char(join_lines(ls), '\n') == ls,
    decreases ls.len(),
{
    if ls.len() == 1 {
        lemma_split_append_plain(Seq::empty(), ls[0], '\n');
        assert(Seq::<char>::empty() + ls[0] == ls[0]);
        assert(split_char(Seq::<char>::empty(), '\n') =~= seq![Seq::<char>::empty()]);
        assert(Seq::<char>::empty() + ls[0] == ls[0]);
        assert(ls =~= seq![ls[0]]);
    } else {
        let pre = ls.drop_last();
        assert forall|k: int| 0 <= k < pre.len() implies lacks(#[trigger] pre[k], '\n') by {
            assert(pre[k] == ls[k]);
        }
        lemma_split_join(pre);
        let j = join_lines(pre);
        let jn = j + seq!['\n'];
        assert(jn.drop_last() == j);
        assert(split_char(jn, '\n') == split_char(j, '\n').push(Seq::<char>::empty()));
        assert(lacks(ls[ls.len() - 1], '\n'));
        lemma_split_append_plain(jn, ls.last(), '\n');
        assert(join_lines(ls) == jn + ls.last());
        assert(Seq::<char>::empty() + ls.last() == ls.last());
        assert(split_char(join_lines(ls), '\n') =~= ls);
    }
}

/// Joining plain lines and reading them back with `lines_of` gives them back.
pub proof fn lemma_lines_of_join(ls: Seq<Seq<char>>)
    requires
        plain_lines(ls),
    ensures
        lines_of(join_lines(ls)) == ls,
{
    lemma_split_join(ls);
    let full = strip_cr_all(ls.drop_last());
    assert(full =~= ls.drop_last());
    assert(ls.drop_last().push(ls.last()) =~= ls);
}

/// Index of the first occurrence of `p` in `s` at or after `i`, or -1.
pub open spec fn find_from(s: Seq<char>, p: Seq<char>, i: int) -> int
    decreases s.len() + 1 - i,
{
    if i < 0 || i + p.len() > s.len() {
        -1
    } else if occurs_at(s, p, i) {
        i
    } else {
        find_from(s, p, i + 1)
    }
}

pub proof fn lemma_find_from_range(s: Seq<char>, p: Seq<char>, i: int)
    ensures
        find_from(s, p, i) == -1 || (0 <= i <= find_from(s, p, i) && occurs_at(
            s,
            p,
            find_from(s, p, i),
        )),
    decreases s.len() + 1 - i,
{
    if !(i < 0 || i + p.len() > s.len()) && !occurs_at(s, p, i) {
        lemma_find_from_range(s, p, i + 1);
    }
}

proof fn lemma_find_first(s: Seq<char>, p: Seq<char>, j: int, x: int)
    requires
        0 <= j <= x,
        forall|k: int| j <= k < x ==> !occurs_at(s, p, k),
        occurs_at(s, p, x),
    ensures
        find_from(s, p, j) == x,
    decreases x - j,
{
    if j < x {
        lemma_find_first(s, p, j + 1, x);
    }
}

pub proof fn lemma_find_none(s: Seq<char>, p: Seq<char>, j: int)
    requires
        0 <= j,
        forall|k: int| j <= k ==> !occurs_at(s, p, k),
    ensures
        find_from(s, p, j) == -1,
    decreases s.len() + 1 - j,
{
    if j + p.len() <= s.len() {
        lemma_find_none(s, p, j + 1);
    }
}

/// The pieces of `s` between non-overlapping occurrences of a non-empty `p`,
/// searched left to right (`str::split(p)`).
pub open spec fn split_pat(s: Seq<char>, p: Seq<char>) -> Seq<Seq<char>>
    decreases s.len(),
{
    let k = find_from(s, p, 0);
    if p.len() == 0 || k < 0 {
        seq![s]
    } else {
        proof {
            lemma_find_from_range(s, p, 0);
        }
        seq![s.subrange(0, k)] + split_pat(s.subrange(k + p.len(), s.len() as int), p)
    }
}

proof fn lemma_occurs_shift(s: Seq<char>, p: Seq<char>, start: int, k: int)
    requires
        0 <= start <= s.len(),
        0 <= k,
    ensures
        occurs_at(s.subrange(start, s.len() as int), p, k) == occurs_at(s, p, start + k),
{
    let t = s.subrange(start, s.len() as int);
    if k + p.len() <= t.len() {
        assert(t.subrange(k, k + p.len()) == s.subrange(start + k, start + k + p.len()));
    }
}

/// Splits `s` at every occurrence of the non-empty `p`.
pub fn split_str(s: &str, p: &str) -> (r: Vec<String>)
    requires
        p@.len() > 0,
    ensures
        views(r@) == split_pat(s@, p@),
{
    let n = s.unicode_len();
    let m = p.unicode_len();
    let mut pieces: Vec<String> = Vec::new();
    let mut start: usize = 0;
    let mut i: usize = 0;
    assert(views(pieces@) =~= Seq::<Seq<char>>::empty());
    assert(s@.subrange(0, n as int) =~= s@);
    while i < n && m <= n - i
        invariant
            n == s@.len(),
            m == p@.len(),
            m > 0,
            start <= i <= n,
            views(pieces@) + split_pat(s@.subrange(start as int, n as int), p@) == split_pat(
                s@,
                p@,
            ),
            forall|k: int| start <= k < i ==> !occurs_at(s@, p@, k),
        decreases n - i,
    {
        if matches_at(s, p, i) {
            let ghost t = s@.subrange(start as int, n as int);
            proof {
                assert forall|k: int| 0 <= k < i - start implies !occurs_at(t, p@, k) by {
                    lemma_occurs_shift(s@, p@, start as int, k);
                }
                lemma_occurs_shift(s@, p@, start as int, i - start);
                lemma_find_first(t, p@, 0, i - start);
                assert(t.subrange(i - start + m, t.len() as int) == s@.subrange(i + m, n as int));
                assert(t.subrange(0, i - start) == s@.subrange(start as int, i as int));
            }
            let piece = String::from_str(s.substring_char(start, i));
            pieces.push(piece);
            assert(views(pieces@) == views(pieces@).drop_last().push(piece@));
            assert(split_pat(t, p@) == seq![t.subrange(0, i - start)] + split_pat(
                t.subrange(i - start + m, t.len() as int),
                p@,
            ));
            assert(views(pieces@) + split_pat(s@.subrange(i + m, n as int), p@) =~= views(
                pieces@,
            ).drop_last() + split_pat(t, p@));
            i = i + m;
            start = i;
        } else {
            i = i + 1;
        }
    }
    let ghost t = s@.subrange(start as int, n as int);
    proof {
        assert forall|k: int| 0 <= k implies !occurs_at(t, p@, k) by {
            lemma_occurs_shift(s@, p@, start as int, k);
        }
        lemma_find_none(t, p@, 0);
    }
    let last = String::from_str(s.substring_char(start, n));
    pieces.push(last);
    assert(views(pieces@) =~= views(pieces@).drop_last() + split_pat(t, p@));
    pieces
}

} // verus!
