//! Decimal integers, query flags and the other small text codecs of the service.

use vstd::prelude::*;

verus! {

/// The characters of an optional string.
pub open spec fn opt_text(o: Option<String>) -> Option<Seq<char>> {
    match o {
        Some(s) => Some(s@),
        None => None,
    }
}

/// Whether `c` is an ASCII decimal digit.
pub open spec fn is_digit(c: char) -> bool {
    '0' <= c && c <= '9'
}

/// The numeric value of a digit character.
pub open spec fn digit_value(c: char) -> int {
    (c as int) - ('0' as int)
}

/// Every character of `s` is a decimal digit.
pub open spec fn all_digits(s: Seq<char>) -> bool {
    forall|i: int| 0 <= i < s.len() ==> is_digit(#[trigger] s[i])
}

/// The natural number that a run of decimal digits spells.
pub open spec fn digits_value(s: Seq<char>) -> int
    decreases s.len(),
{
    if s.len() == 0 {
        0
    } else {
        digits_value(s.drop_last()) * 10 + digit_value(s.last())
    }
}

/// What `str::parse::<i64>` gives back: an optional sign followed by at least
/// one decimal digit, whose value fits in an `i64`.
pub open spec fn decimal_i64(s: Seq<char>) -> Option<i64> {
    let negative = s.len() > 0 && s[0] == '-';
    let signed = s.len() > 0 && (s[0] == '-' || s[0] == '+');
    let body = if signed { s.drop_first() } else { s };
    if body.len() == 0 || !all_digits(body) {
        None
    } else {
        let v = if negative { -digits_value(body) } else { digits_value(body) };
        if i64::MIN <= v <= i64::MAX { Some(v as i64) } else { None }
    }
}

/// The character of a single decimal digit.
pub open spec fn digit_char(d: int) -> char {
    (d + ('0' as int)) as char
}

/// The shortest decimal spelling of a natural number.
pub open spec fn natural_text(n: nat) -> Seq<char>
    decreases n,
{
    if n < 10 {
        seq![digit_char(n as int)]
    } else {
        natural_text(n / 10).push(digit_char((n % 10) as int))
    }
}

/// How `i64::to_string` spells an integer: a minus sign for negatives, then
/// the decimal digits of the magnitude.
pub open spec fn integer_text(n: int) -> Seq<char> {
    if n < 0 {
        seq!['-'] + natural_text((-n) as nat)
    } else {
        natural_text(n as nat)
    }
}

/// Appends one character to a string.
#[verifier::external_body]
pub(crate) fn push_char(s: &mut String, c: char)
    ensures
        final(s)@ == old(s)@.push(c),
{
    s.push(c);
}

/// The characters of a string without its leading and trailing whitespace.
pub uninterp spec fn trimmed(s: Seq<char>) -> Seq<char>;

/// `str::trim`: the string with leading and trailing Unicode whitespace
/// removed. Its result is a contiguous piece of its argument; which
/// characters count as whitespace is left to the named result.
#[verifier::external_body]
pub(crate) fn trim_text(s: &str) -> (res: String)
    ensures
        res@ == trimmed(s@),
        res@.len() <= s@.len(),
{
    s.trim().to_string()
}

proof fn lemma_digits_value_nonneg(s: Seq<char>)
    requires
        all_digits(s),
    ensures
        digits_value(s) >= 0,
    decreases s.len(),
{
    if s.len() > 0 {
        lemma_digits_value_nonneg(s.drop_last());
    }
}

proof fn lemma_digits_prefix_le(s: Seq<char>, i: int)
    requires
        all_digits(s),
        0 <= i <= s.len(),
    ensures
        digits_value(s.take(i)) <= digits_value(s),
    decreases s.len() - i,
{
    if i < s.len() {
        lemma_digits_prefix_le(s, i + 1);
        assert(s.take(i + 1).drop_last() =~= s.take(i));
        lemma_digits_value_nonneg(s.take(i));
    } else {
        assert(s.take(i) =~= s);
    }
}

/// Parses a signed decimal integer the way `str::parse::<i64>` does.
pub fn parse_i64(s: &str) -> (res: Option<i64>)
    ensures
        res == decimal_i64(s@),
{
    let n = s.unicode_len();
    if n == 0 {
        return None;
    }
    let first = s.get_char(0);
    let negative = first == '-';
    let start: usize = if first == '-' || first == '+' { 1 } else { 0 };
    if start == n {
        return None;
    }
    let ghost body = if start == 1 { s@.drop_first() } else { s@ };
    assert(body =~= s@.subrange(start as int, n as int));
    let mut acc: i64 = 0;
    let mut i: usize = start;
    while i < n
        invariant
            start <= i <= n,
            n == s@.len(),
            start < n,
            body =~= s@.subrange(start as int, n as int),
            all_digits(body.take(i - start)),
            negative ==> acc == -digits_value(body.take(i - start)),
            !negative ==> acc == digits_value(body.take(i - start)),
            negative == (s@[0] == '-'),
            start <= 1,
            (start == 1) == (s@[0] == '-' || s@[0] == '+'),
            body == (if start == 1 { s@.drop_first() } else { s@ }),
        decreases n - i,
    {
        let c = s.get_char(i);
        assert(body[i - start] == c);
        if !('0' <= c && c <= '9') {
            assert(!is_digit(body[i - start]));
            assert(!all_digits(body));
            return None;
        }
        let d: i64 = (c as u32 - '0' as u32) as i64;
        let ghost prefix = body.take(i - start + 1);
        assert(prefix.drop_last() =~= body.take(i - start));
        assert(prefix.last() == c);
        assert(all_digits(prefix));
        let next: i128 = if negative { acc as i128 * 10 - d as i128 } else { acc as i128 * 10 + d as i128 };
        if next < i64::MIN as i128 || next > i64::MAX as i128 {
            proof {
                assert(d == digit_value(c));
                assert(digits_value(prefix) == digits_value(body.take(i - start)) * 10 + d);
                assert(negative ==> next == -digits_value(prefix));
                assert(!negative ==> next == digits_value(prefix));
                if all_digits(body) {
                    lemma_digits_prefix_le(body, i - start + 1);
                    assert(body.take(i - start + 1) == prefix);
                    assert(digits_value(prefix) <= digits_value(body));
                    lemma_digits_value_nonneg(prefix);
                    assert(negative ==> -digits_value(body) < i64::MIN);
                    assert(!negative ==> digits_value(body) > i64::MAX);
                }
                assert(decimal_i64(s@) is None);
            }
            return None;
        }
        acc = next as i64;
        i = i + 1;
    }
    assert(body.take(n - start) =~= body);
    Some(acc)
}

fn digit_to_char(d: u64) -> (c: char)
    requires
        d < 10,
    ensures
        c == digit_char(d as int),
        is_digit(c),
        digit_value(c) == d,
{
    match d {
        0 => '0',
        1 => '1',
        2 => '2',
        3 => '3',
        4 => '4',
        5 => '5',
        6 => '6',
        7 => '7',
        8 => '8',
        _ => '9',
    }
}

fn write_natural(s: &mut String, m: u64)
    ensures
        final(s)@ == old(s)@ + natural_text(m as nat),
    decreases m,
{
    if m >= 10 {
        write_natural(s, m / 10);
    }
    let c = digit_to_char(m % 10);
    push_char(s, c);
    proof {
        if m >= 10 {
            assert(natural_text(m as nat) == natural_text((m / 10) as nat).push(c));
        } else {
            assert(natural_text(m as nat) == seq![c]);
        }
    }
    assert(final(s)@ =~= old(s)@ + natural_text(m as nat));
}

/// Spells an integer in decimal the way `i64::to_string` does.
pub fn i64_to_text(n: i64) -> (res: String)
    ensures
        res@ == integer_text(n as int),
{
    let mut s = String::new();
    if n < 0 {
        push_char(&mut s, '-');
        let m: u64 = (0i128 - n as i128) as u64;
        write_natural(&mut s, m);
    } else {
        write_natural(&mut s, n as u64);
    }
    assert(s@ =~= integer_text(n as int));
    s
}

/// Spells a natural number in decimal the way `u64::to_string` does.
pub fn u64_to_text(n: u64) -> (res: String)
    ensures
        res@ == natural_text(n as nat),
{
    let mut s = String::new();
    write_natural(&mut s, n);
    assert(s@ =~= natural_text(n as nat));
    s
}

proof fn lemma_natural_text_reads_back(m: nat)
    ensures
        natural_text(m).len() > 0,
        all_digits(natural_text(m)),
        digits_value(natural_text(m)) == m,
    decreases m,
{
    let t = natural_text(m);
    let d = (m % 10) as int;
    assert(digit_value(digit_char(d)) == d);
    assert(is_digit(digit_char(d)));
    if m < 10 {
        assert(t.drop_last() =~= Seq::<char>::empty());
        assert(digits_value(t.drop_last()) == 0);
        assert(t.last() == digit_char(d));
        assert(digits_value(t) == digits_value(t.drop_last()) * 10 + digit_value(t.last()));
    } else {
        lemma_natural_text_reads_back(m / 10);
        let prev = natural_text(m / 10);
        assert(t.drop_last() =~= prev);
        assert(t.last() == digit_char(d));
        assert(m == (m / 10) * 10 + d);
        assert(digits_value(t) == digits_value(t.drop_last()) * 10 + digit_value(t.last()));
        assert(digits_value(prev) == m / 10);
        assert forall|i: int| 0 <= i < t.len() implies is_digit(#[trigger] t[i]) by {
            if i < prev.len() {
                assert(t[i] == prev[i]);
            }
        }
    }
}

/// Reading back the decimal spelling of an `i64` gives the same number:
/// `str::parse::<i64>` undoes `i64::to_string`.
pub proof fn lemma_integer_text_round_trip(n: i64)
    ensures
        decimal_i64(integer_text(n as int)) == Some(n),
{
    let s = integer_text(n as int);
    if n < 0 {
        let m = (-(n as int)) as nat;
        lemma_natural_text_reads_back(m);
        let t = natural_text(m);
        assert(s.drop_first() =~= t);
        assert(s[0] == '-');
    } else {
        lemma_natural_text_reads_back(n as nat);
        let t = natural_text(n as nat);
        assert(is_digit(t[0]));
        assert(s == t);
    }
}

/// How a query-string flag reads: `"true"` or `"1"` is true, `"false"` or
/// `"0"` is false, and anything else is refused.
pub open spec fn flag_value(s: Seq<char>) -> Option<bool> {
    if s == "true"@ || s == "1"@ {
        Some(true)
    } else if s == "false"@ || s == "0"@ {
        Some(false)
    } else {
        None
    }
}

/// Whether two strings hold the same characters.
pub fn same_text(a: &str, b: &str) -> (res: bool)
    ensures
        res == (a@ == b@),
{
    let n = a.unicode_len();
    if n != b.unicode_len() {
        return false;
    }
    let mut i: usize = 0;
    while i < n
        invariant
            n == a@.len(),
            n == b@.len(),
            i <= n,
            forall|j: int| 0 <= j < i ==> a@[j] == b@[j],
        decreases n - i,
    {
        if a.get_char(i) != b.get_char(i) {
            return false;
        }
        i = i + 1;
    }
    assert(a@ =~= b@);
    true
}

/// Reads a boolean query parameter that arrives as text: `"true"`/`"1"` and
/// `"false"`/`"0"` are accepted, anything else is refused with the message
/// that the query parser reports.
pub fn deserialize_bool_from_any(value: &str) -> (res: Result<Option<bool>, String>)
    ensures
        flag_value(value@) matches Some(b) ==> res == Ok::<Option<bool>, String>(Some(b)),
        flag_value(value@) is None ==> (res matches Err(m) && m@ == "expected true/false or 1/0"@),
{
    if same_text(value, "true") || same_text(value, "1") {
        Ok(Some(true))
    } else if same_text(value, "false") || same_text(value, "0") {
        Ok(Some(false))
    } else {
        Err(String::from_str("expected true/false or 1/0"))
    }
}

} // verus!
