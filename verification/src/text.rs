//! Reading text: whitespace, words, trimmed prefixes and suffixes, and decimal
//! integers, as Rust's `str` methods and integer `parse` read them.
use vstd::prelude::*;
use vstd::string::StrSliceExecFns;
use vstd::string::StringSliceAdditionalSpecFns;
use vstd::utf8::{decode_utf8, encode_utf8_decode_utf8, valid_utf8};

verus! {

/// `c` is white space in the sense of Unicode's `White_Space` property, as
/// `char::is_whitespace` decides.
pub open spec fn is_whitespace(c: char) -> bool {
    let v = c as u32;
    ||| v == 0x20
    ||| 0x09 <= v <= 0x0d
    ||| v == 0x85
    ||| v == 0xa0
    ||| v == 0x1680
    ||| 0x2000 <= v <= 0x200a
    ||| v == 0x2028
    ||| v == 0x2029
    ||| v == 0x202f
    ||| v == 0x205f
    ||| v == 0x3000
}

/// `c` is one of the ASCII digits `0` to `9`.
pub open spec fn is_ascii_digit(c: char) -> bool {
    '0' as u32 <= c as u32 <= '9' as u32
}

/// The value of an ASCII digit.
pub open spec fn digit_value(c: char) -> int {
    c as u32 - '0' as u32
}

/// The white space predicate, as a value.
pub open spec fn whitespace() -> spec_fn(char) -> bool {
    |c: char| is_whitespace(c)
}

/// Everything but white space, as a predicate.
pub open spec fn non_whitespace() -> spec_fn(char) -> bool {
    |c: char| !is_whitespace(c)
}

/// Whether `c` is white space.
pub fn char_is_whitespace(c: char) -> (b: bool)
    ensures
        b == is_whitespace(c),
{
    let v = c as u32;
    v == 0x20 || (0x09 <= v && v <= 0x0d) || v == 0x85 || v == 0xa0 || v == 0x1680 || (0x2000 <= v
        && v <= 0x200a) || v == 0x2028 || v == 0x2029 || v == 0x202f || v == 0x205f || v == 0x3000
}

/// Whether `c` is anything but white space.
pub(crate) fn char_is_not_whitespace(c: char) -> (b: bool)
    ensures
        b == !is_whitespace(c),
{
    !char_is_whitespace(c)
}

/// Whether `c` is an ASCII digit.
pub fn char_is_ascii_digit(c: char) -> (b: bool)
    ensures
        b == is_ascii_digit(c),
{
    let v = c as u32;
    0x30 <= v && v <= 0x39
}

/// How many characters at the start of `s` satisfy `p`.
pub open spec fn count_leading(s: Seq<char>, p: spec_fn(char) -> bool) -> nat
    decreases s.len(),
{
    if s.len() > 0 && p(s[0]) {
        1 + count_leading(s.drop_first(), p)
    } else {
        0
    }
}

/// `s` without the characters at its start that satisfy `p`, as
/// `str::trim_start_matches` with a predicate gives it.
pub open spec fn trim_start(s: Seq<char>, p: spec_fn(char) -> bool) -> Seq<char> {
    s.skip(count_leading(s, p) as int)
}

/// How many characters at the end of `s` satisfy `p`.
pub open spec fn count_trailing(s: Seq<char>, p: spec_fn(char) -> bool) -> nat
    decreases s.len(),
{
    if s.len() > 0 && p(s.last()) {
        1 + count_trailing(s.drop_last(), p)
    } else {
        0
    }
}

/// `s` without the characters at its end that satisfy `p`.
pub open spec fn trim_end_by(s: Seq<char>, p: spec_fn(char) -> bool) -> Seq<char> {
    s.take(s.len() - count_trailing(s, p))
}

/// `s` without white space at either end, as `str::trim` gives it.
pub open spec fn trim(s: Seq<char>) -> Seq<char> {
    trim_end_by(trim_start(s, whitespace()), whitespace())
}

/// The first word of `s` (a longest run of characters that are not white
/// space, after the white space that starts `s`) and what follows it; `None`
/// when `s` holds nothing but white space.
pub open spec fn next_word(s: Seq<char>) -> Option<(Seq<char>, Seq<char>)> {
    let t = trim_start(s, whitespace());
    if t.len() == 0 {
        None
    } else {
        let n = count_leading(t, non_whitespace()) as int;
        Some((t.take(n), t.skip(n)))
    }
}

/// `s` ends with `pattern`.
pub open spec fn ends_with(s: Seq<char>, pattern: Seq<char>) -> bool {
    pattern.len() <= s.len() && s.skip(s.len() - pattern.len()) == pattern
}

/// `s` without the copies of `pattern` that end it, as
/// `str::trim_end_matches` with a text pattern gives it.
pub open spec fn trim_end(s: Seq<char>, pattern: Seq<char>) -> Seq<char>
    decreases s.len(),
{
    if pattern.len() > 0 && ends_with(s, pattern) {
        trim_end(s.take(s.len() - pattern.len()), pattern)
    } else {
        s
    }
}

/// Every character of `s` is an ASCII digit.
pub open spec fn all_digits(s: Seq<char>) -> bool {
    forall|i: int| 0 <= i < s.len() ==> is_ascii_digit(#[trigger] s[i])
}

/// The character of a decimal digit.
pub open spec fn digit_char(d: int) -> char {
    if d == 0 {
        '0'
    } else if d == 1 {
        '1'
    } else if d == 2 {
        '2'
    } else if d == 3 {
        '3'
    } else if d == 4 {
        '4'
    } else if d == 5 {
        '5'
    } else if d == 6 {
        '6'
    } else if d == 7 {
        '7'
    } else if d == 8 {
        '8'
    } else {
        '9'
    }
}

/// The decimal digits of `n`, without leading zeros.
pub open spec fn decimal(n: nat) -> Seq<char>
    decreases n,
{
    if n < 10 {
        seq![digit_char(n as int)]
    } else {
        decimal(n / 10).push(digit_char((n % 10) as int))
    }
}

/// The number that the decimal digits `s` write.
pub open spec fn digits_value(s: Seq<char>) -> int
    decreases s.len(),
{
    if s.len() == 0 {
        0
    } else {
        digits_value(s.drop_last()) * 10 + digit_value(s.last())
    }
}

/// The integer that `s` writes, as Rust's integer `parse` reads it before it
/// checks the range: an optional sign (`-` only when `signed`), then one or more
/// ASCII digits.
pub open spec fn integer_of(s: Seq<char>, signed: bool) -> Option<int> {
    if s.len() == 0 {
        None
    } else if (s[0] == '+' || s[0] == '-') && s.len() == 1 {
        None
    } else {
        let negative = s[0] == '-' && signed;
        let digits = if s[0] == '+' || negative {
            s.drop_first()
        } else {
            s
        };
        if all_digits(digits) {
            Some(
                if negative {
                    -digits_value(digits)
                } else {
                    digits_value(digits)
                },
            )
        } else {
            None
        }
    }
}

/// What `str::parse::<i8>` gives for `s`.
pub open spec fn i8_of(s: Seq<char>) -> Option<i8> {
    let v = integer_of(s, true);
    if v is Some && -128 <= v->0 <= 127 {
        Some(v->0 as i8)
    } else {
        None
    }
}

/// What `str::parse::<u8>` gives for `s`.
pub open spec fn u8_of(s: Seq<char>) -> Option<u8> {
    let v = integer_of(s, false);
    if v is Some && 0 <= v->0 <= 255 {
        Some(v->0 as u8)
    } else {
        None
    }
}

pub proof fn lemma_count_leading(s: Seq<char>, p: spec_fn(char) -> bool, n: int)
    requires
        0 <= n <= s.len(),
        forall|i: int| 0 <= i < n ==> p(#[trigger] s[i]),
        n == s.len() || !p(s[n]),
    ensures
        count_leading(s, p) == n,
    decreases n,
{
    if n > 0 {
        let t = s.drop_first();
        assert forall|i: int| 0 <= i < n - 1 implies p(#[trigger] t[i]) by {
            assert(t[i] == s[i + 1]);
        }
        if n < s.len() {
            assert(t[n - 1] == s[n]);
        }
        lemma_count_leading(t, p, n - 1);
    }
}

proof fn lemma_count_trailing(s: Seq<char>, p: spec_fn(char) -> bool, n: int)
    requires
        0 <= n <= s.len(),
        forall|i: int| s.len() - n <= i < s.len() ==> p(#[trigger] s[i]),
        n == s.len() || !p(s[s.len() - n - 1]),
    ensures
        count_trailing(s, p) == n,
    decreases n,
{
    if n > 0 {
        let t = s.drop_last();
        assert forall|i: int| t.len() - (n - 1) <= i < t.len() implies p(#[trigger] t[i]) by {
            assert(t[i] == s[i]);
        }
        if n < s.len() {
            assert(t[t.len() - (n - 1) - 1] == s[s.len() - n - 1]);
        }
        assert(p(s[s.len() - 1]));
        lemma_count_trailing(t, p, n - 1);
    }
}

/// How many characters at the end of `s` satisfy `p`, deciding each with `f`.
pub(crate) fn trailing_len<F: Fn(char) -> bool>(
    s: &[char],
    f: F,
    Ghost(p): Ghost<spec_fn(char) -> bool>,
) -> (n: usize)
    requires
        forall|c: char| call_requires(f, (c,)),
        forall|c: char, b: bool| call_ensures(f, (c,), b) ==> b == p(c),
    ensures
        n <= s@.len(),
        n == count_trailing(s@, p),
{
    let len = s.len();
    let mut i: usize = 0;
    while i < len
        invariant
            len == s@.len(),
            i <= len,
            forall|c: char| call_requires(f, (c,)),
            forall|c: char, b: bool| call_ensures(f, (c,), b) ==> b == p(c),
            forall|j: int| len - i <= j < len ==> p(#[trigger] s@[j]),
        ensures
            i <= len,
            forall|j: int| len - i <= j < len ==> p(#[trigger] s@[j]),
            i == len || !p(s@[len - i - 1]),
        decreases len - i,
    {
        if !f(s[len - i - 1]) {
            break;
        }
        i = i + 1;
    }
    proof {
        lemma_count_trailing(s@, p, i as int);
    }
    i
}

/// How many characters at the start of `s` satisfy `p`, deciding each with `f`.
pub(crate) fn leading_len<F: Fn(char) -> bool>(s: &[char], f: F, Ghost(p): Ghost<spec_fn(char) -> bool>) -> (n:
    usize)
    requires
        forall|c: char| call_requires(f, (c,)),
        forall|c: char, b: bool| call_ensures(f, (c,), b) ==> b == p(c),
    ensures
        n <= s@.len(),
        n == count_leading(s@, p),
{
    let mut i: usize = 0;
    while i < s.len()
        invariant
            i <= s@.len(),
            forall|c: char| call_requires(f, (c,)),
            forall|c: char, b: bool| call_ensures(f, (c,), b) ==> b == p(c),
            forall|j: int| 0 <= j < i ==> p(#[trigger] s@[j]),
        ensures
            i <= s@.len(),
            forall|j: int| 0 <= j < i ==> p(#[trigger] s@[j]),
            i == s@.len() || !p(s@[i as int]),
        decreases s@.len() - i,
    {
        if !f(s[i]) {
            break;
        }
        i = i + 1;
    }
    proof {
        lemma_count_leading(s@, p, i as int);
    }
    i
}

/// Characters at the start of `x + y` satisfy `p` as far as `x` goes, when all
/// of `x` does and `y` does not start with such a character.
pub proof fn lemma_count_leading_concat(x: Seq<char>, y: Seq<char>, p: spec_fn(char) -> bool)
    requires
        forall|i: int| 0 <= i < x.len() ==> p(#[trigger] x[i]),
        y.len() == 0 || !p(y[0]),
    ensures
        count_leading(x + y, p) == x.len(),
{
    let s = x + y;
    assert forall|i: int| 0 <= i < x.len() implies p(#[trigger] s[i]) by {
        assert(s[i] == x[i]);
    }
    if y.len() > 0 {
        assert(s[x.len() as int] == y[0]);
    }
    lemma_count_leading(s, p, x.len() as int);
}

/// Characters at the end of `x + y` satisfy `p` as far back as `y` goes, when
/// all of `y` does and `x` does not end with such a character.
pub proof fn lemma_count_trailing_concat(x: Seq<char>, y: Seq<char>, p: spec_fn(char) -> bool)
    requires
        forall|i: int| 0 <= i < y.len() ==> p(#[trigger] y[i]),
        x.len() == 0 || !p(x.last()),
    ensures
        count_trailing(x + y, p) == y.len(),
{
    let s = x + y;
    assert forall|i: int| s.len() - y.len() <= i < s.len() implies p(#[trigger] s[i]) by {
        assert(s[i] == y[i - x.len()]);
    }
    if x.len() > 0 {
        assert(s[s.len() - y.len() - 1] == x.last());
    }
    lemma_count_trailing(s, p, y.len() as int);
}

/// The first word of white space, then the word `w`, then text that starts
/// with white space or is empty, is `w`, followed by that text.
pub proof fn lemma_next_word(spaces: Seq<char>, w: Seq<char>, rest: Seq<char>)
    requires
        forall|i: int| 0 <= i < spaces.len() ==> is_whitespace(#[trigger] spaces[i]),
        w.len() > 0,
        forall|i: int| 0 <= i < w.len() ==> !is_whitespace(#[trigger] w[i]),
        rest.len() == 0 || is_whitespace(rest[0]),
    ensures
        next_word(spaces + w + rest) == Some((w, rest)),
{
    let s = spaces + w + rest;
    assert(s == spaces + (w + rest));
    assert((w + rest)[0] == w[0]);
    lemma_count_leading_concat(spaces, w + rest, whitespace());
    assert(trim_start(s, whitespace()) == w + rest);
    lemma_count_leading_concat(w, rest, non_whitespace());
    assert((w + rest).take(w.len() as int) == w);
    assert((w + rest).skip(w.len() as int) == rest);
}

/// Trimming `pattern` off the end of `x + pattern` gives `x`, when `x` does not
/// end with `pattern` itself.
pub proof fn lemma_trim_end_once(x: Seq<char>, pattern: Seq<char>)
    requires
        pattern.len() > 0,
        !ends_with(x, pattern),
    ensures
        trim_end(x + pattern, pattern) == x,
{
    let s = x + pattern;
    assert(s.skip(s.len() - pattern.len()) == pattern);
    assert(s.take(s.len() - pattern.len()) == x);
    assert(trim_end(s, pattern) == trim_end(x, pattern));
    assert(trim_end(x, pattern) == x);
}

/// The character of a digit is an ASCII digit of that value.
pub proof fn lemma_digit_char(d: int)
    requires
        0 <= d < 10,
    ensures
        is_ascii_digit(digit_char(d)),
        digit_value(digit_char(d)) == d,
{
    assert('0' as u32 == 48);
    assert('9' as u32 == 57);
    if d == 0 {
    } else if d == 1 {
        assert('1' as u32 == 49);
    } else if d == 2 {
        assert('2' as u32 == 50);
    } else if d == 3 {
        assert('3' as u32 == 51);
    } else if d == 4 {
        assert('4' as u32 == 52);
    } else if d == 5 {
        assert('5' as u32 == 53);
    } else if d == 6 {
        assert('6' as u32 == 54);
    } else if d == 7 {
        assert('7' as u32 == 55);
    } else if d == 8 {
        assert('8' as u32 == 56);
    }
}

/// The decimal digits of `n` are one or more ASCII digits that write `n`.
pub proof fn lemma_decimal(n: nat)
    ensures
        decimal(n).len() >= 1,
        all_digits(decimal(n)),
        digits_value(decimal(n)) == n,
    decreases n,
{
    if n < 10 {
        let s = decimal(n);
        lemma_digit_char(n as int);
        assert(s.drop_last() == Seq::<char>::empty());
        assert(digits_value(s.drop_last()) == 0);
        assert(s.last() == digit_char(n as int));
        assert(digits_value(s) == digit_value(digit_char(n as int)));
    } else {
        lemma_decimal(n / 10);
        lemma_digit_char((n % 10) as int);
        let s = decimal(n);
        assert(s.drop_last() == decimal(n / 10));
        assert forall|i: int| 0 <= i < s.len() implies is_ascii_digit(#[trigger] s[i]) by {
            if i < s.len() - 1 {
                assert(s[i] == decimal(n / 10)[i]);
            }
        }
        assert(s.last() == digit_char((n % 10) as int));
        assert(digits_value(s) == digits_value(decimal(n / 10)) * 10 + (n % 10));
        assert(n == (n / 10) * 10 + n % 10) by (nonlinear_arith);
    }
}

/// Decimal digits hold no white space.
pub proof fn lemma_digits_not_whitespace(s: Seq<char>)
    requires
        all_digits(s),
    ensures
        forall|i: int| 0 <= i < s.len() ==> !is_whitespace(#[trigger] s[i]),
{
    assert forall|i: int| 0 <= i < s.len() implies !is_whitespace(#[trigger] s[i]) by {
        assert(is_ascii_digit(s[i]));
    }
}

/// `str::parse::<u8>` reads the decimal digits of a number back.
pub proof fn lemma_u8_of_decimal(n: nat)
    requires
        n <= 255,
    ensures
        u8_of(decimal(n)) == Some(n as u8),
{
    lemma_decimal(n);
    assert(is_ascii_digit(decimal(n)[0]));
}

/// `str::parse::<i8>` reads the decimal digits of a number back.
pub proof fn lemma_i8_of_decimal(n: nat)
    requires
        n <= 127,
    ensures
        i8_of(decimal(n)) == Some(n as i8),
{
    lemma_decimal(n);
    assert(is_ascii_digit(decimal(n)[0]));
}

/// `str::parse::<i8>` reads a minus sign and the decimal digits of a number
/// back as the negated number.
pub proof fn lemma_i8_of_negative_decimal(n: nat)
    requires
        1 <= n <= 128,
    ensures
        i8_of(seq!['-'] + decimal(n)) == Some((-n) as i8),
{
    lemma_decimal(n);
    let s = seq!['-'] + decimal(n);
    assert(s.drop_first() == decimal(n));
}

/// `s` without its leading white space.
pub fn skip_whitespace(s: &[char]) -> (r: &[char])
    ensures
        r@ == trim_start(s@, whitespace()),
{
    let n = leading_len(
        s,
        char_is_whitespace,
        Ghost(whitespace()),
    );
    let len = s.len();
    &s[n..len]
}

/// The first word of `s` and what follows it; `None` when `s` holds nothing
/// but white space.
pub fn first_word(s: &[char]) -> (r: Option<(&[char], &[char])>)
    ensures
        r matches Some((w, rest)) ==> next_word(s@) == Some((w@, rest@)),
        r is None ==> next_word(s@) is None,
{
    let t = skip_whitespace(s);
    if t.len() == 0 {
        return None;
    }
    let n = leading_len(
        t,
        char_is_not_whitespace,
        Ghost(non_whitespace()),
    );
    let len = t.len();
    Some((&t[0..n], &t[n..len]))
}

/// `s` ends with `pattern`.
fn has_suffix(s: &[char], pattern: &[char]) -> (b: bool)
    ensures
        b == ends_with(s@, pattern@),
{
    if pattern.len() > s.len() {
        return false;
    }
    let start = s.len() - pattern.len();
    let mut i: usize = 0;
    while i < pattern.len()
        invariant
            s@.len() <= usize::MAX,
            start + pattern@.len() == s@.len(),
            i <= pattern@.len(),
            forall|j: int| 0 <= j < i ==> s@[start + j] == pattern@[j],
        decreases pattern@.len() - i,
    {
        if s[start + i] != pattern[i] {
            assert(s@.skip(start as int)[i as int] != pattern@[i as int]);
            return false;
        }
        i = i + 1;
    }
    assert(s@.skip(start as int) =~= pattern@);
    true
}

/// `s` without the copies of `pattern` that end it.
pub fn strip_suffixes<'a>(s: &'a [char], pattern: &[char]) -> (r: &'a [char])
    requires
        pattern@.len() > 0,
    ensures
        r@ == trim_end(s@, pattern@),
        r@.len() <= s@.len(),
        r@ == s@.take(r@.len() as int),
{
    let mut end = s.len();
    assert(s@.take(end as int) == s@);
    while has_suffix(&s[0..end], pattern)
        invariant
            end <= s@.len(),
            pattern@.len() > 0,
            trim_end(s@.take(end as int), pattern@) == trim_end(s@, pattern@),
        decreases end,
    {
        proof {
            let t = s@.take(end as int);
            assert(t.take(t.len() - pattern@.len()) == s@.take(end - pattern@.len()));
        }
        end = end - pattern.len();
    }
    assert(s@.take(end as int) == s@.subrange(0, end as int));
    &s[0..end]
}

proof fn lemma_digits_value_nonnegative(s: Seq<char>)
    requires
        all_digits(s),
    ensures
        digits_value(s) >= 0,
    decreases s.len(),
{
    if s.len() > 0 {
        assert(all_digits(s.drop_last())) by {
            assert forall|i: int| 0 <= i < s.drop_last().len() implies is_ascii_digit(
                #[trigger] s.drop_last()[i],
            ) by {
                assert(s.drop_last()[i] == s[i]);
            }
        }
        lemma_digits_value_nonnegative(s.drop_last());
        assert(is_ascii_digit(s[s.len() - 1]));
    }
}

proof fn lemma_digits_value_grows(s: Seq<char>, i: int, j: int)
    requires
        all_digits(s),
        0 <= i <= j <= s.len(),
    ensures
        digits_value(s.take(i)) <= digits_value(s.take(j)),
    decreases j - i,
{
    if i < j {
        lemma_digits_value_grows(s, i, j - 1);
        let t = s.take(j);
        assert(t.drop_last() == s.take(j - 1));
        assert(all_digits(s.take(j - 1))) by {
            assert forall|k: int| 0 <= k < s.take(j - 1).len() implies is_ascii_digit(
                #[trigger] s.take(j - 1)[k],
            ) by {
                assert(s.take(j - 1)[k] == s[k]);
            }
        }
        lemma_digits_value_nonnegative(s.take(j - 1));
        assert(is_ascii_digit(s[j - 1]));
    }
}

/// The number that the ASCII digits `s` write, when all of `s` is digits and
/// the number is at most `limit`.
fn decimal_value(s: &[char], limit: u32) -> (r: Option<u32>)
    requires
        limit <= 1000,
    ensures
        r is Some <==> all_digits(s@) && digits_value(s@) <= limit,
        r matches Some(v) ==> v == digits_value(s@),
{
    let mut acc: u32 = 0;
    let mut i: usize = 0;
    while i < s.len()
        invariant
            i <= s@.len(),
            limit <= 1000,
            all_digits(s@.take(i as int)),
            acc == digits_value(s@.take(i as int)),
            acc <= limit,
        decreases s@.len() - i,
    {
        let c = s[i];
        if !char_is_ascii_digit(c) {
            assert(!all_digits(s@)) by {
                assert(!is_ascii_digit(s@[i as int]));
            }
            return None;
        }
        let d = (c as u32) - 0x30;
        proof {
            assert(s@.take(i + 1).drop_last() == s@.take(i as int));
            assert(s@.take(i + 1).last() == c);
            assert(all_digits(s@.take(i + 1))) by {
                assert forall|k: int| 0 <= k < i + 1 implies is_ascii_digit(
                    #[trigger] s@.take(i + 1)[k],
                ) by {
                    if k < i {
                        assert(s@.take(i + 1)[k] == s@.take(i as int)[k]);
                    }
                }
            }
        }
        acc = acc * 10 + d;
        i = i + 1;
        if acc > limit {
            proof {
                if all_digits(s@) {
                    lemma_digits_value_grows(s@, i as int, s@.len() as int);
                    assert(s@.take(s@.len() as int) == s@);
                }
            }
            return None;
        }
    }
    assert(s@.take(i as int) == s@);
    Some(acc)
}

/// `s` read as an `i8`, as `str::parse::<i8>` reads it.
pub fn parse_i8(s: &[char]) -> (r: Option<i8>)
    ensures
        r == i8_of(s@),
{
    if s.len() == 0 {
        return None;
    }
    if (s[0] == '+' || s[0] == '-') && s.len() == 1 {
        return None;
    }
    let len = s.len();
    if s[0] == '-' {
        let digits = &s[1..len];
        assert(digits@ == s@.drop_first());
        match decimal_value(digits, 128) {
            Some(v) => Some((0 - (v as i32)) as i8),
            None => None,
        }
    } else {
        let digits = if s[0] == '+' {
            &s[1..len]
        } else {
            s
        };
        assert(s[0] == '+' ==> digits@ == s@.drop_first());
        match decimal_value(digits, 127) {
            Some(v) => Some(v as i8),
            None => None,
        }
    }
}

/// `s` read as a `u8`, as `str::parse::<u8>` reads it.
pub fn parse_u8(s: &[char]) -> (r: Option<u8>)
    ensures
        r == u8_of(s@),
{
    if s.len() == 0 {
        return None;
    }
    if (s[0] == '+' || s[0] == '-') && s.len() == 1 {
        return None;
    }
    let len = s.len();
    let digits = if s[0] == '+' {
        &s[1..len]
    } else {
        s
    };
    assert(s[0] == '+' ==> digits@ == s@.drop_first());
    match decimal_value(digits, 255) {
        Some(v) => Some(v as u8),
        None => None,
    }
}

#[verifier::external_type_specification]
#[verifier::external_body]
pub struct ExUtf8Error(core::str::Utf8Error);

/// `core::str::from_utf8`: the text whose UTF-8 encoding is `bytes`, or an
/// error when `bytes` are not valid UTF-8.
#[verifier::external_body]
pub(crate) fn str_from_utf8<'a>(bytes: &'a [u8]) -> (r: Result<&'a str, core::str::Utf8Error>)
    ensures
        r is Ok <==> valid_utf8(bytes@),
        r matches Ok(s) ==> s.spec_bytes() == bytes@,
{
    core::str::from_utf8(bytes)
}

/// The text that the UTF-8 bytes `bytes` encode, as characters; `None` when
/// `bytes` are not valid UTF-8.
pub fn decode_text(bytes: &[u8]) -> (r: Option<Vec<char>>)
    ensures
        r is Some <==> valid_utf8(bytes@),
        r matches Some(chars) ==> chars@ == decode_utf8(bytes@),
{
    match str_from_utf8(bytes) {
        Ok(s) => {
            proof {
                encode_utf8_decode_utf8(s@);
            }
            Some(chars_of(s))
        },
        Err(_) => None,
    }
}

/// The characters of `s`.
pub(crate) fn chars_of(s: &str) -> (r: Vec<char>)
    ensures
        r@ == s@,
{
    let n = s.unicode_len();
    let mut r: Vec<char> = Vec::new();
    let mut i: usize = 0;
    while i < n
        invariant
            n == s@.len(),
            i <= n,
            r@ == s@.take(i as int),
        decreases n - i,
    {
        r.push(s.get_char(i));
        assert(s@.take(i + 1) == s@.take(i as int).push(s@[i as int]));
        i = i + 1;
    }
    assert(s@.take(n as int) == s@);
    r
}

} // verus!
