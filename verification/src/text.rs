//! Character-level text operations with exact contracts.

use vstd::prelude::*;
use vstd::std_specs::iter::IteratorSpec;

verus! {

/// Whether `c` carries the Unicode `White_Space` property.
pub open spec fn is_whitespace(c: char) -> bool {
    let n = c as u32;
    (0x09 <= n <= 0x0D) || n == 0x20 || n == 0x85 || n == 0xA0 || n == 0x1680 || (0x2000 <= n
        <= 0x200A) || n == 0x2028 || n == 0x2029 || n == 0x202F || n == 0x205F || n == 0x3000
}

/// Index of the first character at or after `from` that is no whitespace,
/// or the length of `s` if there is none.
pub open spec fn skip_ws(s: Seq<char>, from: int) -> int
    decreases s.len() - from,
{
    if 0 <= from < s.len() && is_whitespace(s[from]) {
        skip_ws(s, from + 1)
    } else {
        from
    }
}

/// End of the last character before `to` and not before `lo` that is no
/// whitespace, or `lo` if there is none.
pub open spec fn skip_ws_back(s: Seq<char>, lo: int, to: int) -> int
    decreases to,
{
    if lo < to <= s.len() && 0 <= lo && is_whitespace(s[to - 1]) {
        skip_ws_back(s, lo, to - 1)
    } else {
        to
    }
}

/// `s` without its leading whitespace.
pub open spec fn trim_start(s: Seq<char>) -> Seq<char> {
    s.subrange(skip_ws(s, 0), s.len() as int)
}

/// `s` without its leading and trailing whitespace.
pub open spec fn trim(s: Seq<char>) -> Seq<char> {
    let a = skip_ws(s, 0);
    s.subrange(a, skip_ws_back(s, a, s.len() as int))
}

/// The lower-case form of an ASCII letter; every other character unchanged.
pub open spec fn ascii_lower(c: char) -> char {
    if 'A' <= c <= 'Z' {
        ((c as u8) + 32) as char
    } else {
        c
    }
}

/// The upper-case form of an ASCII letter; every other character unchanged.
pub open spec fn ascii_upper(c: char) -> char {
    if 'a' <= c <= 'z' {
        ((c as u8) - 32) as char
    } else {
        c
    }
}

/// `s` with every ASCII letter in lower case.
pub open spec fn to_ascii_lowercase(s: Seq<char>) -> Seq<char> {
    Seq::new(s.len(), |i: int| ascii_lower(s[i]))
}

/// `s` with every ASCII letter in upper case.
pub open spec fn to_ascii_uppercase(s: Seq<char>) -> Seq<char> {
    Seq::new(s.len(), |i: int| ascii_upper(s[i]))
}

/// Whether `p` occurs in `s` starting at index `i`.
pub open spec fn occurs_at(s: Seq<char>, p: Seq<char>, i: int) -> bool {
    0 <= i && i + p.len() <= s.len() && s.subrange(i, i + p.len()) == p
}

/// Whether `p` occurs somewhere in `s`.
pub open spec fn contains(s: Seq<char>, p: Seq<char>) -> bool {
    exists|i: int| occurs_at(s, p, i)
}

/// The characters of `s`, in order.
pub fn chars_of(s: &str) -> (r: Vec<char>)
    ensures
        r@ == s@,
{
    let mut out: Vec<char> = Vec::new();
    let mut rest = s.chars();
    loop
        invariant
            rest.obeys_prophetic_iter_laws(),
            rest.decrease() is Some,
            out@ + rest.remaining() == s@,
        ensures
            out@ == s@,
        decreases rest.decrease()->0,
    {
        let ghost before = rest;
        match rest.next() {
            Some(c) => {
                proof {
                    assert(before.remaining().len() > 0);
                    assert(out@.push(c) + rest.remaining() =~= out@ + before.remaining());
                }
                out.push(c);
            },
            None => {
                proof {
                    assert(before.remaining().len() == 0);
                    assert(out@ + before.remaining() =~= out@);
                }
                break ;
            },
        }
    }
    out
}

/// The text that `str::to_uppercase` gives for `s`: each character replaced
/// by its Unicode upper-case mapping.
pub uninterp spec fn unicode_uppercase(s: Seq<char>) -> Seq<char>;

/// The upper-case form of `s`.
///
/// Wraps `str::to_uppercase`: the result is a function of the text alone.
#[verifier::external_body]
pub(crate) fn uppercase_of(s: &str) -> (r: String)
    ensures
        r@ == unicode_uppercase(s@),
{
    s.to_uppercase()
}

/// The text that `str::to_lowercase` gives for `s`: each character replaced
/// by its Unicode lower-case mapping.
pub uninterp spec fn unicode_lowercase(s: Seq<char>) -> Seq<char>;

/// The lower-case form of `s`.
///
/// Wraps `str::to_lowercase`: the result is a function of the text alone.
#[verifier::external_body]
pub(crate) fn lowercase_of(s: &str) -> (r: String)
    ensures
        r@ == unicode_lowercase(s@),
{
    s.to_lowercase()
}

/// Appends a character to a string.
///
/// Wraps `String::push`: the string afterwards is the string before with
/// the character behind it.
#[verifier::external_body]
fn push_char(s: &mut String, c: char)
    ensures
        final(s)@ == old(s)@.push(c),
{
    s.push(c)
}

/// The string made of `chars`, in order.
pub fn string_of(chars: &[char]) -> (r: String)
    ensures
        r@ == chars@,
{
    let mut out = String::new();
    let mut i: usize = 0;
    while i < chars.len()
        invariant
            i <= chars@.len(),
            out@ == chars@.take(i as int),
        decreases chars@.len() - i,
    {
        push_char(&mut out, chars[i]);
        i += 1;
        assert(out@ =~= chars@.take(i as int));
    }
    assert(chars@.take(chars@.len() as int) =~= chars@);
    out
}

/// Whether `c` is whitespace.
pub fn char_is_whitespace(c: char) -> (r: bool)
    ensures
        r == is_whitespace(c),
{
    let n: u32 = c as u32;
    (0x09 <= n && n <= 0x0D) || n == 0x20 || n == 0x85 || n == 0xA0 || n == 0x1680 || (0x2000 <= n
        && n <= 0x200A) || n == 0x2028 || n == 0x2029 || n == 0x202F || n == 0x205F || n == 0x3000
}

/// The lower-case form of `c` where it is an ASCII letter, else `c`.
pub fn char_ascii_lower(c: char) -> (r: char)
    ensures
        r == ascii_lower(c),
{
    if 'A' <= c && c <= 'Z' {
        ((c as u8) + 32) as char
    } else {
        c
    }
}

/// The upper-case form of `c` where it is an ASCII letter, else `c`.
pub fn char_ascii_upper(c: char) -> (r: char)
    ensures
        r == ascii_upper(c),
{
    if 'a' <= c && c <= 'z' {
        ((c as u8) - 32) as char
    } else {
        c
    }
}

/// Copies `s[from..to]`.
pub fn slice_chars(s: &[char], from: usize, to: usize) -> (r: Vec<char>)
    requires
        from <= to <= s@.len(),
    ensures
        r@ == s@.subrange(from as int, to as int),
{
    let mut out: Vec<char> = Vec::new();
    let mut i: usize = from;
    while i < to
        invariant
            from <= i <= to <= s@.len(),
            out@ == s@.subrange(from as int, i as int),
        decreases to - i,
    {
        out.push(s[i]);
        i += 1;
        assert(out@ =~= s@.subrange(from as int, i as int));
    }
    out
}

/// Index of the first non-whitespace character at or after `from`.
pub fn skip_whitespace(s: &[char], from: usize) -> (r: usize)
    requires
        from <= s@.len(),
    ensures
        r == skip_ws(s@, from as int),
        from <= r <= s@.len(),
{
    let mut i: usize = from;
    while i < s.len() && char_is_whitespace(s[i])
        invariant
            from <= i <= s@.len(),
            skip_ws(s@, from as int) == skip_ws(s@, i as int),
        decreases s@.len() - i,
    {
        i += 1;
    }
    i
}

/// End of the last non-whitespace character in `s[lo..to]`.
pub fn skip_whitespace_back(s: &[char], lo: usize, to: usize) -> (r: usize)
    requires
        lo <= to <= s@.len(),
    ensures
        r == skip_ws_back(s@, lo as int, to as int),
        lo <= r <= to,
{
    let mut j: usize = to;
    while j > lo && char_is_whitespace(s[j - 1])
        invariant
            lo <= j <= to <= s@.len(),
            skip_ws_back(s@, lo as int, to as int) == skip_ws_back(s@, lo as int, j as int),
        decreases j,
    {
        j -= 1;
    }
    j
}

/// `s` without leading and trailing whitespace.
pub fn trim_chars(s: &[char]) -> (r: Vec<char>)
    ensures
        r@ == trim(s@),
{
    let a = skip_whitespace(s, 0);
    let b = skip_whitespace_back(s, a, s.len());
    slice_chars(s, a, b)
}

/// `s` without leading whitespace.
pub fn trim_start_chars(s: &[char]) -> (r: Vec<char>)
    ensures
        r@ == trim_start(s@),
{
    let a = skip_whitespace(s, 0);
    slice_chars(s, a, s.len())
}

/// `s` with ASCII letters lowered.
pub fn lowercase_chars(s: &[char]) -> (r: Vec<char>)
    ensures
        r@ == to_ascii_lowercase(s@),
{
    let mut out: Vec<char> = Vec::new();
    let mut i: usize = 0;
    while i < s.len()
        invariant
            i <= s@.len(),
            out@.len() == i,
            forall|k: int| 0 <= k < i ==> out@[k] == ascii_lower(s@[k]),
        decreases s@.len() - i,
    {
        out.push(char_ascii_lower(s[i]));
        i += 1;
    }
    assert(out@ =~= to_ascii_lowercase(s@));
    out
}

/// `s` with ASCII letters raised.
pub fn uppercase_chars(s: &[char]) -> (r: Vec<char>)
    ensures
        r@ == to_ascii_uppercase(s@),
{
    let mut out: Vec<char> = Vec::new();
    let mut i: usize = 0;
    while i < s.len()
        invariant
            i <= s@.len(),
            out@.len() == i,
            forall|k: int| 0 <= k < i ==> out@[k] == ascii_upper(s@[k]),
        decreases s@.len() - i,
    {
        out.push(char_ascii_upper(s[i]));
        i += 1;
    }
    assert(out@ =~= to_ascii_uppercase(s@));
    out
}

/// Whether two character sequences are equal.
pub fn chars_eq(a: &[char], b: &[char]) -> (r: bool)
    ensures
        r == (a@ == b@),
{
    if a.len() != b.len() {
        return false;
    }
    let mut i: usize = 0;
    while i < a.len()
        invariant
            i <= a@.len(),
            a@.len() == b@.len(),
            forall|k: int| 0 <= k < i ==> a@[k] == b@[k],
        decreases a@.len() - i,
    {
        if a[i] != b[i] {
            return false;
        }
        i += 1;
    }
    assert(a@ =~= b@);
    true
}

/// Whether `p` occurs in `s` at index `i`.
pub fn matches_at(s: &[char], p: &[char], i: usize) -> (r: bool)
    ensures
        r == occurs_at(s@, p@, i as int),
{
    if i > s.len() || p.len() > s.len() - i {
        return false;
    }
    let mut k: usize = 0;
    while k < p.len()
        invariant
            k <= p@.len(),
            i + p@.len() <= s@.len(),
            s@.len() <= usize::MAX,
            forall|j: int| 0 <= j < k ==> s@[i + j] == p@[j],
        decreases p@.len() - k,
    {
        if s[i + k] != p[k] {
            assert(s@.subrange(i as int, i + p@.len())[k as int] != p@[k as int]);
            return false;
        }
        k += 1;
    }
    assert(s@.subrange(i as int, i + p@.len()) =~= p@);
    true
}

/// Whether `s` begins with `p`.
pub fn starts_with(s: &[char], p: &[char]) -> (r: bool)
    ensures
        r == occurs_at(s@, p@, 0),
{
    matches_at(s, p, 0)
}

/// Whether `p` occurs somewhere in `s`.
pub fn contains_chars(s: &[char], p: &[char]) -> (r: bool)
    ensures
        r == contains(s@, p@),
{
    if p.len() > s.len() {
        assert(forall|i: int| !occurs_at(s@, p@, i));
        return false;
    }
    let last: usize = s.len() - p.len();
    let mut i: usize = 0;
    while i <= last
        invariant
            i <= last,
            last == s@.len() - p@.len(),
            forall|j: int| 0 <= j < i ==> !occurs_at(s@, p@, j),
        decreases last - i,
    {
        if matches_at(s, p, i) {
            return true;
        }
        if i == last {
            assert(forall|j: int| !occurs_at(s@, p@, j));
            return false;
        }
        i += 1;
    }
    false
}

/// Whether two strings hold the same characters.
pub fn str_eq(a: &str, b: &str) -> (r: bool)
    ensures
        r == (a@ == b@),
{
    let x = chars_of(a);
    let y = chars_of(b);
    chars_eq(x.as_slice(), y.as_slice())
}

/// Whether `s` holds exactly the characters of `text`.
pub fn chars_are(s: &[char], text: &str) -> (r: bool)
    ensures
        r == (s@ == text@),
{
    let t = chars_of(text);
    chars_eq(s, t.as_slice())
}

/// Index of the first `c` in `s` at or after `from`, or the length of `s`.
pub open spec fn find_char(s: Seq<char>, c: char, from: int) -> int
    decreases s.len() - from,
{
    if 0 <= from < s.len() && s[from] != c {
        find_char(s, c, from + 1)
    } else if from > s.len() {
        s.len() as int
    } else {
        from
    }
}

/// Index of the first `c` in `s` at or after `from`, or the length of `s`.
pub fn index_of(s: &[char], c: char, from: usize) -> (r: usize)
    requires
        from <= s@.len(),
    ensures
        r == find_char(s@, c, from as int),
        from <= r <= s@.len(),
        r < s@.len() ==> s@[r as int] == c,
        forall|k: int| from <= k < r ==> s@[k] != c,
{
    let mut i: usize = from;
    while i < s.len() && s[i] != c
        invariant
            from <= i <= s@.len(),
            find_char(s@, c, from as int) == find_char(s@, c, i as int),
            forall|k: int| from <= k < i ==> s@[k] != c,
        decreases s@.len() - i,
    {
        i += 1;
    }
    i
}

/// Whether `c` is an ASCII decimal digit.
pub open spec fn is_digit(c: char) -> bool {
    '0' <= c <= '9'
}

/// The number that the decimal digits `s` write.
pub open spec fn digits_value(s: Seq<char>) -> int
    decreases s.len(),
{
    if s.len() == 0 {
        0
    } else {
        digits_value(s.drop_last()) * 10 + (s.last() as int - '0' as int)
    }
}

/// Whether `s` is one or more decimal digits.
pub open spec fn is_digits(s: Seq<char>) -> bool {
    s.len() > 0 && forall|i: int| 0 <= i < s.len() ==> is_digit(#[trigger] s[i])
}

/// The signed 64-bit integer that `s` writes in decimal, with an optional
/// leading `+` or `-` and nothing else around the digits; `None` where `s`
/// has another form or the number does not fit.
pub open spec fn parse_i64(s: Seq<char>) -> Option<i64> {
    let negative = s.len() > 0 && s[0] == '-';
    let signed = s.len() > 0 && (s[0] == '-' || s[0] == '+');
    let body = if signed {
        s.subrange(1, s.len() as int)
    } else {
        s
    };
    let magnitude = digits_value(body);
    let value = if negative {
        -magnitude
    } else {
        magnitude
    };
    if is_digits(body) && i64::MIN <= value <= i64::MAX {
        Some(value as i64)
    } else {
        None
    }
}

/// The digits of a number write at least as much as any prefix of them.
pub proof fn lemma_digits_value_grows(s: Seq<char>, n: int)
    requires
        0 <= n <= s.len(),
        forall|i: int| 0 <= i < s.len() ==> is_digit(#[trigger] s[i]),
    ensures
        0 <= digits_value(s.take(n)) <= digits_value(s),
    decreases s.len() - n,
{
    if n == s.len() {
        assert(s.take(n) =~= s);
        lemma_digits_value_nonneg(s);
    } else {
        lemma_digits_value_grows(s, n + 1);
        assert(s.take(n + 1).drop_last() =~= s.take(n));
        lemma_digits_value_nonneg(s.take(n));
    }
}

/// Digits write no negative number.
pub proof fn lemma_digits_value_nonneg(s: Seq<char>)
    requires
        forall|i: int| 0 <= i < s.len() ==> is_digit(#[trigger] s[i]),
    ensures
        0 <= digits_value(s),
    decreases s.len(),
{
    if s.len() > 0 {
        lemma_digits_value_nonneg(s.drop_last());
    }
}

/// Reads a signed 64-bit integer written in decimal.
pub fn parse_i64_chars(s: &[char]) -> (r: Option<i64>)
    ensures
        r == parse_i64(s@),
{
    let n = s.len();
    let negative = n > 0 && s[0] == '-';
    let start: usize = if n > 0 && (s[0] == '-' || s[0] == '+') {
        1
    } else {
        0
    };
    let ghost body = s@.subrange(start as int, n as int);
    let ghost signed = s@.len() > 0 && (s@[0] == '-' || s@[0] == '+');
    assert(body =~= if signed {
        s@.subrange(1, s@.len() as int)
    } else {
        s@
    });
    if start == n {
        return None;
    }
    let limit: i128 = 9223372036854775808;
    let mut acc: i128 = 0;
    let mut i: usize = start;
    while i < n
        invariant
            start <= i <= n,
            n == s@.len(),
            body == s@.subrange(start as int, n as int),
            body == if signed {
                s@.subrange(1, s@.len() as int)
            } else {
                s@
            },
            signed == (s@.len() > 0 && (s@[0] == '-' || s@[0] == '+')),
            negative == (s@.len() > 0 && s@[0] == '-'),
            forall|k: int| 0 <= k < i - start ==> is_digit(#[trigger] body[k]),
            acc == digits_value(body.take(i - start)),
            0 <= acc <= limit,
            limit == 9223372036854775808,
        decreases n - i,
    {
        let c = s[i];
        if !('0' <= c && c <= '9') {
            assert(!is_digit(body[i - start]));
            return None;
        }
        let d: i128 = (c as u8 - 48) as i128;
        assert(body.take(i + 1 - start).drop_last() =~= body.take(i - start));
        assert(body.take(i + 1 - start).last() == c);
        let next: i128 = acc * 10 + d;
        if next > limit {
            // The digits read so far already exceed every 64-bit magnitude;
            // what remains decides only whether the text is a number at all.
            let mut j: usize = i + 1;
            while j < n
                invariant
                    start <= i < j <= n,
                    n == s@.len(),
                    body == s@.subrange(start as int, n as int),
                    body == if signed {
                        s@.subrange(1, s@.len() as int)
                    } else {
                        s@
                    },
                    signed == (s@.len() > 0 && (s@[0] == '-' || s@[0] == '+')),
                    forall|k: int| 0 <= k < j - start ==> is_digit(#[trigger] body[k]),
                decreases n - j,
            {
                let e = s[j];
                if !('0' <= e && e <= '9') {
                    assert(!is_digit(body[j - start]));
                    return None;
                }
                j += 1;
            }
            proof {
                lemma_digits_value_grows(body, i + 1 - start);
            }
            return None;
        }
        acc = next;
        i += 1;
    }
    assert(body.take(n - start) =~= body);
    if negative {
        Some((-acc) as i64)
    } else if acc == limit {
        None
    } else {
        Some(acc as i64)
    }
}

/// `a` followed by `b`.
pub fn join2(a: &str, b: &str) -> (r: String)
    ensures
        r@ == a@ + b@,
{
    let mut out = String::from_str(a);
    out.append(b);
    out
}

/// `a`, `b` and `c` in a row.
pub fn join3(a: &str, b: &str, c: &str) -> (r: String)
    ensures
        r@ == a@ + b@ + c@,
{
    let mut out = join2(a, b);
    out.append(c);
    out
}

/// `a`, `b`, `c` and `d` in a row.
pub fn join4(a: &str, b: &str, c: &str, d: &str) -> (r: String)
    ensures
        r@ == a@ + b@ + c@ + d@,
{
    let mut out = join3(a, b, c);
    out.append(d);
    out
}

/// `a`, `b`, `c`, `d` and `e` in a row.
pub fn join5(a: &str, b: &str, c: &str, d: &str, e: &str) -> (r: String)
    ensures
        r@ == a@ + b@ + c@ + d@ + e@,
{
    let mut out = join4(a, b, c, d);
    out.append(e);
    out
}

/// The character that writes the decimal digit `d`.
pub open spec fn digit_char(d: int) -> char {
    ((d + 48) as u8) as char
}

/// The decimal digits of `n`, without leading zeros.
pub open spec fn nat_digits(n: nat) -> Seq<char>
    decreases n,
{
    if n < 10 {
        seq![digit_char(n as int)]
    } else {
        nat_digits(n / 10).push(digit_char((n % 10) as int))
    }
}

/// The decimal text of `n`, with a leading `-` where it is negative.
pub open spec fn decimal(n: int) -> Seq<char> {
    if n < 0 {
        seq!['-'] + nat_digits((-n) as nat)
    } else {
        nat_digits(n as nat)
    }
}

fn push_digits(out: &mut Vec<char>, n: u64)
    ensures
        final(out)@ == old(out)@ + nat_digits(n as nat),
    decreases n,
{
    if n >= 10 {
        push_digits(out, n / 10);
    }
    let ghost before = out@;
    let d: u8 = (n % 10) as u8;
    out.push((d + 48) as char);
    proof {
        if n >= 10 {
            assert(out@ =~= old(out)@ + nat_digits(n as nat));
        } else {
            assert(out@ =~= old(out)@ + nat_digits(n as nat));
        }
    }
}

/// Writes `n` in decimal.
pub fn format_i64(n: i64) -> (r: String)
    ensures
        r@ == decimal(n as int),
{
    let mut out: Vec<char> = Vec::new();
    if n < 0 {
        out.push('-');
        let magnitude: u64 = if n == i64::MIN {
            9223372036854775808
        } else {
            (-n) as u64
        };
        push_digits(&mut out, magnitude);
        assert(out@ =~= decimal(n as int));
    } else {
        push_digits(&mut out, n as u64);
        assert(out@ =~= decimal(n as int));
    }
    string_of(out.as_slice())
}

/// Writes `n` in decimal.
pub fn format_u64(n: u64) -> (r: String)
    ensures
        r@ == decimal(n as int),
{
    let mut out: Vec<char> = Vec::new();
    push_digits(&mut out, n);
    assert(out@ =~= decimal(n as int));
    string_of(out.as_slice())
}

/// Whether `s` is a name in normal form: not empty, without whitespace at
/// either end, and without upper-case ASCII letters.
pub open spec fn is_normal_name(s: Seq<char>) -> bool {
    &&& s.len() > 0
    &&& !is_whitespace(s[0])
    &&& !is_whitespace(s[s.len() - 1])
    &&& forall|i: int| 0 <= i < s.len() ==> !('A' <= #[trigger] s[i] <= 'Z')
}

/// Whether `s` is a word of lower-case ASCII letters.
pub open spec fn is_lower_word(s: Seq<char>) -> bool {
    s.len() > 0 && forall|i: int| 0 <= i < s.len() ==> 'a' <= #[trigger] s[i] <= 'z'
}

/// Trimming and lowering leave a name in normal form as it is.
pub proof fn lemma_normal_name_is_fixed(s: Seq<char>)
    requires
        is_normal_name(s),
    ensures
        to_ascii_lowercase(trim(s)) == s,
{
    assert(skip_ws(s, 0) == 0);
    assert(skip_ws_back(s, 0, s.len() as int) == s.len());
    assert(trim(s) =~= s);
    assert(to_ascii_lowercase(s) =~= s);
}

/// Trimming and lowering leave a word of lower-case letters as it is.
pub proof fn lemma_lower_word_is_normal(s: Seq<char>)
    requires
        is_lower_word(s),
    ensures
        to_ascii_lowercase(trim(s)) == s,
{
    assert(!is_whitespace(s[0]));
    assert(!is_whitespace(s[s.len() - 1]));
    lemma_normal_name_is_fixed(s);
}

} // verus!
