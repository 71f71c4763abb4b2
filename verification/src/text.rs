//! Characters and character sequences: whitespace, digits, trimming, and
//! conversions between `str`, `String` and `Vec<char>`.

use vstd::prelude::*;

verus! {

broadcast use vstd::string::group_string_axioms;

/// Whether `c` has the Unicode `White_Space` property.
pub open spec fn is_space(c: char) -> bool {
    ||| '\u{9}' <= c <= '\u{d}'
    ||| c == ' '
    ||| c == '\u{85}'
    ||| c == '\u{a0}'
    ||| c == '\u{1680}'
    ||| '\u{2000}' <= c <= '\u{200a}'
    ||| c == '\u{2028}'
    ||| c == '\u{2029}'
    ||| c == '\u{202f}'
    ||| c == '\u{205f}'
    ||| c == '\u{3000}'
}

/// Whether `c` is one of the ASCII decimal digits.
pub open spec fn is_digit(c: char) -> bool {
    '0' <= c <= '9'
}

/// The number that the decimal digit `c` stands for.
pub open spec fn digit_of(c: char) -> int {
    c as int - '0' as int
}

/// The character that writes the number `d`, for `d` below ten.
pub open spec fn digit_char(d: int) -> char {
    (d + '0' as int) as char
}

/// `c` with an ASCII upper-case letter replaced by its lower-case form.
pub open spec fn ascii_lower(c: char) -> char {
    if 'A' <= c <= 'Z' {
        (c as int + 32) as char
    } else {
        c
    }
}

/// The index of the first character of `s` at or after `i` that is not
/// whitespace, or the length of `s` if there is none.
pub open spec fn skip_spaces(s: Seq<char>, i: int) -> int
    decreases s.len() - i,
{
    if 0 <= i < s.len() && is_space(s[i]) {
        skip_spaces(s, i + 1)
    } else {
        i
    }
}

/// `s` without its leading whitespace.
pub open spec fn trim_start(s: Seq<char>) -> Seq<char> {
    s.skip(skip_spaces(s, 0))
}

/// `s` without its trailing whitespace.
pub open spec fn trim_end(s: Seq<char>) -> Seq<char>
    decreases s.len(),
{
    if s.len() > 0 && is_space(s.last()) {
        trim_end(s.drop_last())
    } else {
        s
    }
}

/// `s` without its leading and trailing whitespace.
pub open spec fn trim(s: Seq<char>) -> Seq<char> {
    trim_end(trim_start(s))
}

/// The decimal numeral of `n`, without leading zeros.
pub open spec fn decimal(n: nat) -> Seq<char>
    decreases n,
{
    if n < 10 {
        seq![digit_char(n as int)]
    } else {
        decimal(n / 10).push(digit_char((n % 10) as int))
    }
}

/// The decimal numeral of `i`, with a minus sign where it is negative.
pub open spec fn integer_text(i: int) -> Seq<char> {
    if i < 0 {
        seq!['-'] + decimal((-i) as nat)
    } else {
        decimal(i as nat)
    }
}

/// The two-character numeral of `n`, zero-padded, for `n` below one hundred.
pub open spec fn two_digits(n: int) -> Seq<char> {
    seq![digit_char(n / 10), digit_char(n % 10)]
}

/// Skipping whitespace stops within the text, passes over nothing but
/// whitespace, and stops at none.
pub proof fn lemma_skip_spaces(s: Seq<char>, i: int)
    requires
        0 <= i <= s.len(),
    ensures
        i <= skip_spaces(s, i) <= s.len(),
        forall|k: int| i <= k < skip_spaces(s, i) ==> is_space(#[trigger] s[k]),
        skip_spaces(s, i) < s.len() ==> !is_space(s[skip_spaces(s, i)]),
    decreases s.len() - i,
{
    if i < s.len() && is_space(s[i]) {
        lemma_skip_spaces(s, i + 1);
    }
}

/// Trimming the end is determined by where the whitespace starts.
pub proof fn lemma_trim_end_at(s: Seq<char>, n: int)
    requires
        0 <= n <= s.len(),
        forall|k: int| n <= k < s.len() ==> is_space(#[trigger] s[k]),
        n > 0 ==> !is_space(s[n - 1]),
    ensures
        trim_end(s) == s.take(n),
    decreases s.len(),
{
    if n < s.len() {
        let t = s.drop_last();
        assert(is_space(s[s.len() - 1]));
        assert forall|k: int| n <= k < t.len() implies is_space(#[trigger] t[k]) by {
            assert(t[k] == s[k]);
        }
        lemma_trim_end_at(t, n);
        assert(t.take(n) == s.take(n));
    } else {
        assert(s.take(n) == s);
    }
}

/// Whether `c` is whitespace.
pub fn is_whitespace(c: char) -> (b: bool)
    ensures
        b == is_space(c),
{
    (c >= '\u{9}' && c <= '\u{d}') || c == ' ' || c == '\u{85}' || c == '\u{a0}' || c == '\u{1680}'
        || (c >= '\u{2000}' && c <= '\u{200a}') || c == '\u{2028}' || c == '\u{2029}'
        || c == '\u{202f}' || c == '\u{205f}' || c == '\u{3000}'
}

/// The value of `c` as a decimal digit, if it is one.
pub fn digit_value(c: char) -> (v: Option<u32>)
    ensures
        v is Some <==> is_digit(c),
        v matches Some(d) ==> d == digit_of(c) && d <= 9,
{
    if c >= '0' && c <= '9' {
        Some(c as u32 - '0' as u32)
    } else {
        None
    }
}

/// `c` folded to ASCII lower case.
pub fn to_ascii_lower(c: char) -> (r: char)
    ensures
        r == ascii_lower(c),
{
    if c >= 'A' && c <= 'Z' {
        ((c as u8) + 32u8) as char
    } else {
        c
    }
}

/// The characters of `s`.
pub fn chars_of(s: &str) -> (v: Vec<char>)
    ensures
        v@ == s@,
{
    let mut v: Vec<char> = Vec::new();
    for c in it: s.chars()
        invariant
            it.seq() == s@,
            v@ == it.seq().take(it.index()),
    {
        v.push(c);
    }
    v
}

/// `String::push` appends one character to the end of the string.
#[verifier::external_body]
fn push_char(s: &mut String, c: char)
    ensures
        final(s)@ == old(s)@.push(c),
{
    s.push(c)
}

/// The string made of the characters `chars[from..to]`.
pub fn string_of(chars: &Vec<char>, from: usize, to: usize) -> (s: String)
    requires
        from <= to <= chars@.len(),
    ensures
        s@ == chars@.subrange(from as int, to as int),
{
    let mut s = String::new();
    let mut i = from;
    while i < to
        invariant
            from <= i <= to <= chars@.len(),
            s@ == chars@.subrange(from as int, i as int),
        decreases to - i,
    {
        push_char(&mut s, chars[i]);
        i += 1;
    }
    s
}

/// Appends the characters of `text` to `out`.
pub fn push_str(out: &mut Vec<char>, text: &str)
    ensures
        final(out)@ == old(out)@ + text@,
{
    for c in it: text.chars()
        invariant
            it.seq() == text@,
            out@ == old(out)@ + it.seq().take(it.index()),
    {
        out.push(c);
    }
}

/// Whether `a` and `b` hold the same characters.
pub fn same_text(a: &str, b: &str) -> (eq: bool)
    ensures
        eq == (a@ == b@),
{
    let x = chars_of(a);
    let y = chars_of(b);
    if x.len() != y.len() {
        return false;
    }
    let mut i: usize = 0;
    while i < x.len()
        invariant
            x@ == a@,
            y@ == b@,
            x@.len() == y@.len(),
            0 <= i <= x@.len(),
            x@.take(i as int) == y@.take(i as int),
        decreases x@.len() - i,
    {
        if x[i] != y[i] {
            assert(a@[i as int] != b@[i as int]);
            return false;
        }
        assert(x@.take(i + 1) == x@.take(i as int).push(x@[i as int]));
        assert(y@.take(i + 1) == y@.take(i as int).push(y@[i as int]));
        i += 1;
    }
    assert(x@.take(x@.len() as int) == x@);
    assert(y@.take(y@.len() as int) == y@);
    true
}

/// Appends the decimal numeral of `n` to `out`.
pub fn push_decimal(out: &mut Vec<char>, n: u64)
    ensures
        final(out)@ == old(out)@ + decimal(n as nat),
    decreases n,
{
    if n >= 10 {
        push_decimal(out, n / 10);
    }
    let d = (n % 10) as u8;
    out.push((d + 48u8) as char);
    proof {
        if n >= 10 {
            assert(old(out)@ + decimal(n as nat) == (old(out)@ + decimal((n / 10) as nat)).push(
                digit_char((n % 10) as int),
            ));
        } else {
            assert(old(out)@ + decimal(n as nat) == old(out)@.push(digit_char(n as int)));
        }
    }
}

/// Appends the decimal numeral of `i` to `out`.
pub fn push_integer(out: &mut Vec<char>, i: i64)
    ensures
        final(out)@ == old(out)@ + integer_text(i as int),
{
    if i < 0 {
        out.push('-');
        let magnitude: u64 = if i == i64::MIN {
            0x8000_0000_0000_0000
        } else {
            (-i) as u64
        };
        push_decimal(out, magnitude);
        assert(out@ == old(out)@ + integer_text(i as int));
    } else {
        push_decimal(out, i as u64);
    }
}

/// The string made of the characters of `chars`.
pub fn string_from(chars: &Vec<char>) -> (s: String)
    ensures
        s@ == chars@,
{
    let n = chars.len();
    let s = string_of(chars, 0, n);
    assert(chars@.subrange(0, n as int) == chars@);
    s
}

/// Appends the two-character, zero-padded numeral of `n` to `out`.
pub fn push_two_digits(out: &mut Vec<char>, n: u32)
    requires
        n < 100,
    ensures
        final(out)@ == old(out)@ + two_digits(n as int),
{
    let hi = (n / 10) as u8;
    let lo = (n % 10) as u8;
    out.push((hi + 48u8) as char);
    out.push((lo + 48u8) as char);
    assert(out@ == old(out)@ + two_digits(n as int));
}

/// Where the whitespace that `s` holds from `pos` on ends.
pub fn skip_whitespace(s: &Vec<char>, pos: usize) -> (end: usize)
    requires
        pos <= s@.len(),
    ensures
        end == skip_spaces(s@, pos as int),
        pos <= end <= s@.len(),
{
    let mut i = pos;
    while i < s.len() && is_whitespace(s[i])
        invariant
            pos <= i <= s@.len(),
            skip_spaces(s@, pos as int) == skip_spaces(s@, i as int),
        decreases s@.len() - i,
    {
        i += 1;
    }
    i
}

/// Where what `s` holds from `from` on ends once its trailing whitespace is
/// left out.
pub fn trim_end_from(s: &Vec<char>, from: usize) -> (end: usize)
    requires
        from <= s@.len(),
    ensures
        from <= end <= s@.len(),
        s@.subrange(from as int, end as int) == trim_end(s@.skip(from as int)),
{
    let mut end = s.len();
    while end > from && is_whitespace(s[end - 1])
        invariant
            from <= end <= s@.len(),
            forall|k: int| end <= k < s@.len() ==> is_space(#[trigger] s@[k]),
        decreases end,
    {
        end -= 1;
    }
    proof {
        let rest = s@.skip(from as int);
        assert forall|k: int| end - from <= k < rest.len() implies is_space(#[trigger] rest[k]) by {
            assert(rest[k] == s@[from + k]);
        }
        lemma_trim_end_at(rest, end - from);
        assert(rest.take(end - from) == s@.subrange(from as int, end as int));
    }
    end
}

/// Whether `s` begins with `prefix`.
pub open spec fn has_prefix(s: Seq<char>, prefix: Seq<char>) -> bool {
    prefix.len() <= s.len() && s.take(prefix.len() as int) == prefix
}

/// Whether what `s` holds from `pos` on begins with `prefix`.
pub fn starts_with_at(s: &Vec<char>, pos: usize, prefix: &Vec<char>) -> (found: bool)
    requires
        pos <= s@.len(),
    ensures
        found == has_prefix(s@.skip(pos as int), prefix@),
{
    let n = s.len();
    if prefix.len() > n - pos {
        return false;
    }
    let ghost rest = s@.skip(pos as int);
    let mut k: usize = 0;
    while k < prefix.len()
        invariant
            pos + prefix@.len() <= s@.len() <= usize::MAX,
            rest == s@.skip(pos as int),
            0 <= k <= prefix@.len(),
            rest.take(k as int) == prefix@.take(k as int),
        decreases prefix@.len() - k,
    {
        if s[pos + k] != prefix[k] {
            assert(rest.take(prefix@.len() as int)[k as int] != prefix@[k as int]);
            return false;
        }
        assert(rest.take(k + 1) == rest.take(k as int).push(rest[k as int]));
        assert(prefix@.take(k + 1) == prefix@.take(k as int).push(prefix@[k as int]));
        k += 1;
    }
    assert(prefix@.take(prefix@.len() as int) == prefix@);
    true
}

/// Skipping whitespace in what remains of `s` after `n` characters is
/// skipping it in `s` from there on.
pub proof fn lemma_skip_shift(s: Seq<char>, n: int, i: int)
    requires
        0 <= n <= s.len(),
        0 <= i <= s.len() - n,
    ensures
        skip_spaces(s.skip(n), i) + n == skip_spaces(s, n + i),
    decreases s.len() - n - i,
{
    if i < s.len() - n && is_space(s[n + i]) {
        assert(s.skip(n)[i] == s[n + i]);
        lemma_skip_shift(s, n, i + 1);
    } else if i < s.len() - n {
        assert(s.skip(n)[i] == s[n + i]);
    }
}

} // verus!
