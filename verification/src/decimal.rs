//! Decimal integer text, read the way Rust's integer `FromStr` reads it: an
//! optional sign followed by one or more ASCII digits, nothing else, and a
//! value inside the target type.
use vstd::prelude::*;

verus! {

/// An ASCII decimal digit.
pub open spec fn is_digit(c: char) -> bool {
    48 <= c as u32 && c as u32 <= 57
}

/// The value of a decimal digit.
pub open spec fn digit_value(c: char) -> int {
    c as u32 - 48
}

/// Every character is a decimal digit.
pub open spec fn all_digits(s: Seq<char>) -> bool {
    forall|i: int| 0 <= i < s.len() ==> #[trigger] is_digit(s[i])
}

/// The number that a run of decimal digits denotes.
pub open spec fn digits_value(s: Seq<char>) -> int
    decreases s.len(),
{
    if s.len() == 0 {
        0
    } else {
        10 * digits_value(s.drop_last()) + digit_value(s.last())
    }
}

/// The text after an optional leading `+`, or `-` when `minus_allowed`.
pub open spec fn unsigned_part(s: Seq<char>, minus_allowed: bool) -> Seq<char> {
    if s.len() > 0 && (s[0] == '+' || (minus_allowed && s[0] == '-')) {
        s.drop_first()
    } else {
        s
    }
}

/// The number that the text denotes as an `i64`, if it is a well-formed decimal within
/// range.
pub open spec fn decimal_i64(s: Seq<char>) -> Option<int> {
    let digits = unsigned_part(s, true);
    let negative = s.len() > 0 && s[0] == '-';
    let v = if negative { -digits_value(digits) } else { digits_value(digits) };
    if digits.len() == 0 || !all_digits(digits) || v < i64::MIN || v > i64::MAX {
        None
    } else {
        Some(v)
    }
}

/// The number that the text denotes as a `u64`, if it is a well-formed decimal within
/// range (a leading `-` is refused).
pub open spec fn decimal_u64(s: Seq<char>) -> Option<int> {
    let digits = unsigned_part(s, false);
    if digits.len() == 0 || !all_digits(digits) || digits_value(digits) > u64::MAX {
        None
    } else {
        Some(digits_value(digits))
    }
}

/// Reading decimal text: a `+` sign keeps the value, a `-` sign negates it
/// (and is refused for unsigned values), a lone digit reads as its value,
/// and appending a digit multiplies the value by ten and adds the digit.
pub proof fn lemma_decimal_laws(s: Seq<char>, d: char)
    requires
        all_digits(s),
        s.len() > 0,
        is_digit(d),
    ensures
        decimal_i64(seq!['+'] + s) == decimal_i64(s),
        decimal_u64(seq!['+'] + s) == decimal_u64(s),
        decimal_u64(seq!['-'] + s) is None,
        decimal_i64(s) matches Some(v) ==> decimal_i64(seq!['-'] + s) == Some(-v),
        decimal_u64(seq![d]) == Some(d as int - 48),
        decimal_u64(s) matches Some(v) ==> (10 * v + (d as int - 48) <= u64::MAX
            ==> decimal_u64(s.push(d)) == Some(10 * v + (d as int - 48))),
{
    let plus = seq!['+'] + s;
    let minus = seq!['-'] + s;
    assert(plus.drop_first() =~= s);
    assert(minus.drop_first() =~= s);
    assert(plus[0] == '+');
    assert(minus[0] == '-');
    assert(is_digit(s[0]));
    assert(unsigned_part(s, true) == s);
    assert(unsigned_part(s, false) == s);
    assert(unsigned_part(minus, false) == minus);
    assert(!is_digit(minus[0]));
    let t = s.push(d);
    assert(t.drop_last() =~= s);
    assert(all_digits(t)) by {
        assert forall|i: int| 0 <= i < t.len() implies #[trigger] is_digit(t[i]) by {
            if i < s.len() {
                assert(t[i] == s[i]);
            }
        }
    }
    assert(is_digit(t[0]));
    assert(unsigned_part(t, false) == t);
    let one = seq![d];
    assert(one.drop_last() =~= Seq::<char>::empty());
    assert(all_digits(one)) by {
        assert forall|i: int| 0 <= i < one.len() implies #[trigger] is_digit(one[i]) by {}
    }
    assert(unsigned_part(one, false) == one);
    assert(digits_value(Seq::<char>::empty()) == 0);
    assert(one.last() == d);
    assert(digits_value(one) == digit_value(d));
    lemma_digits_value_nonneg(s);
}

proof fn lemma_digits_value_nonneg(s: Seq<char>)
    requires
        all_digits(s),
    ensures
        digits_value(s) >= 0,
    decreases s.len(),
{
    if s.len() > 0 {
        assert(is_digit(s[s.len() - 1]));
        assert(all_digits(s.drop_last())) by {
            assert forall|i: int| 0 <= i < s.drop_last().len() implies #[trigger] is_digit(s.drop_last()[i]) by {
                assert(is_digit(s[i]));
            }
        }
        lemma_digits_value_nonneg(s.drop_last());
    }
}

/// A prefix of a run of digits never denotes more than the whole run.
proof fn lemma_digits_value_prefix(s: Seq<char>, k: int)
    requires
        all_digits(s),
        0 <= k <= s.len(),
    ensures
        digits_value(s.take(k)) <= digits_value(s),
    decreases s.len(),
{
    if k < s.len() {
        let t = s.drop_last();
        assert(all_digits(t)) by {
            assert forall|i: int| 0 <= i < t.len() implies #[trigger] is_digit(t[i]) by {
                assert(is_digit(s[i]));
            }
        }
        assert(is_digit(s[s.len() - 1]));
        lemma_digits_value_prefix(t, k);
        lemma_digits_value_nonneg(t);
        assert(t.take(k) =~= s.take(k));
    } else {
        assert(s.take(k) =~= s);
    }
}

/// The value of the digits of `s` from `start` on, when they are all digits
/// and the value fits in a `u64`.
fn digits_from(s: &str, start: usize) -> (r: Option<u64>)
    requires
        start <= s@.len(),
    ensures
        r matches Some(x) ==> all_digits(s@.subrange(start as int, s@.len() as int))
            && x as int == digits_value(s@.subrange(start as int, s@.len() as int)),
        r is None ==> !all_digits(s@.subrange(start as int, s@.len() as int))
            || digits_value(s@.subrange(start as int, s@.len() as int)) > u64::MAX,
{
    let n = s.unicode_len();
    let ghost full = s@.subrange(start as int, n as int);
    let mut acc: u64 = 0;
    let mut i: usize = start;
    while i < n
        invariant
            n == s@.len(),
            start <= i <= n,
            full == s@.subrange(start as int, n as int),
            all_digits(s@.subrange(start as int, i as int)),
            acc == digits_value(s@.subrange(start as int, i as int)),
        decreases n - i,
    {
        let c = s.get_char(i);
        let code = c as u32;
        let ghost prefix = s@.subrange(start as int, i as int);
        let ghost next = s@.subrange(start as int, i + 1);
        assert(next.drop_last() =~= prefix);
        assert(next.last() == c);
        if code < 48 || code > 57 {
            assert(!all_digits(full)) by {
                assert(full[i - start] == c);
                assert(!is_digit(full[i - start]));
            }
            return None;
        }
        assert(all_digits(next)) by {
            assert forall|j: int| 0 <= j < next.len() implies #[trigger] is_digit(next[j]) by {
                if j < prefix.len() {
                    assert(next[j] == prefix[j]);
                }
            }
        }
        let d = (code - 48) as u64;
        let grown = acc.checked_mul(10);
        let grown = match grown {
            Some(g) => g.checked_add(d),
            None => None,
        };
        match grown {
            Some(g) => {
                acc = g;
            },
            None => {
                proof {
                    if all_digits(full) {
                        assert(full.take(i + 1 - start) =~= next);
                        lemma_digits_value_prefix(full, i + 1 - start);
                    }
                }
                return None;
            },
        }
        i = i + 1;
    }
    Some(acc)
}

/// Reads a decimal `i64`: an optional `+` or `-`, then one or more ASCII
/// digits, with a value inside `i64`.
pub fn parse_i64(s: &str) -> (r: Option<i64>)
    ensures
        r matches Some(x) ==> decimal_i64(s@) == Some(x as int),
        r is None ==> decimal_i64(s@) is None,
{
    let n = s.unicode_len();
    if n == 0 {
        return None;
    }
    let first = s.get_char(0);
    let negative = first == '-';
    let start: usize = if first == '-' || first == '+' { 1 } else { 0 };
    assert(unsigned_part(s@, true) =~= s@.subrange(start as int, n as int));
    if start == n {
        return None;
    }
    match digits_from(s, start) {
        None => None,
        Some(m) => {
            if negative {
                if m <= 9223372036854775807 {
                    Some(-(m as i64))
                } else if m == 9223372036854775808 {
                    Some(i64::MIN)
                } else {
                    None
                }
            } else if m <= 9223372036854775807 {
                Some(m as i64)
            } else {
                None
            }
        },
    }
}

/// Reads a decimal `u64`: an optional `+`, then one or more ASCII digits,
/// with a value inside `u64`.
pub fn parse_u64(s: &str) -> (r: Option<u64>)
    ensures
        r matches Some(x) ==> decimal_u64(s@) == Some(x as int),
        r is None ==> decimal_u64(s@) is None,
{
    let n = s.unicode_len();
    if n == 0 {
        return None;
    }
    let first = s.get_char(0);
    let start: usize = if first == '+' { 1 } else { 0 };
    assert(unsigned_part(s@, false) =~= s@.subrange(start as int, n as int));
    if start == n {
        return None;
    }
    digits_from(s, start)
}

} // verus!
