use vstd::prelude::*;

verus! {

/// Whether `c` is an ASCII decimal digit.
pub open spec fn is_digit(c: char) -> bool {
    '0' <= c && c <= '9'
}

/// The value of a decimal digit character.
pub open spec fn digit_value(c: char) -> int {
    c as int - '0' as int
}

/// Whether every character of `s` is a decimal digit.
pub open spec fn all_digits(s: Seq<char>) -> bool {
    forall|i: int| 0 <= i < s.len() ==> is_digit(#[trigger] s[i])
}

/// The number that a string of decimal digits writes.
pub open spec fn digits_value(s: Seq<char>) -> int
    decreases s.len(),
{
    if s.len() == 0 {
        0
    } else {
        digits_value(s.drop_last()) * 10 + digit_value(s.last())
    }
}

/// Index of the first '.' in `s`, or its length where there is none.
pub open spec fn dot_index(s: Seq<char>) -> int
    decreases s.len(),
{
    if s.len() == 0 {
        0
    } else if s[0] == '.' {
        0
    } else {
        1 + dot_index(s.drop_first())
    }
}

/// The `i`-th fractional digit, zero past the end.
pub open spec fn frac_digit(frac: Seq<char>, i: int) -> int {
    if i < frac.len() {
        digit_value(frac[i])
    } else {
        0
    }
}

/// Whether `s` is a plain decimal: digits, then optionally a point and more digits.
pub open spec fn is_plain_decimal(s: Seq<char>) -> bool {
    let k = dot_index(s);
    &&& k > 0
    &&& all_digits(s.take(k))
    &&& k < s.len() ==> (s.len() > k + 1 && all_digits(s.skip(k + 1)))
}

/// The value of a plain decimal in cents, rounded half up at the third
/// fractional digit.
pub open spec fn decimal_cents(s: Seq<char>) -> int {
    let k = dot_index(s);
    let frac = if k < s.len() { s.skip(k + 1) } else { Seq::<char>::empty() };
    digits_value(s.take(k)) * 100 + frac_digit(frac, 0) * 10 + frac_digit(frac, 1)
        + if frac_digit(frac, 2) >= 5 { 1int } else { 0int }
}

/// The price in cents that a quoted amount writes, where it is a plain decimal
/// whose rounded value fits in a `u64`.
pub open spec fn quote_cents_of(s: Seq<char>) -> Option<u64> {
    if is_plain_decimal(s) && decimal_cents(s) <= u64::MAX {
        Some(decimal_cents(s) as u64)
    } else {
        None
    }
}

/// Bound on the whole part beyond which no rounded value fits in a `u64`.
pub const WHOLE_CAP: u64 = 184467440737095517;

proof fn lemma_dot_index(s: Seq<char>, k: int)
    requires
        0 <= k <= s.len(),
        forall|j: int| 0 <= j < k ==> s[j] != '.',
        k < s.len() ==> s[k] == '.',
    ensures
        dot_index(s) == k,
    decreases k,
{
    if k > 0 {
        lemma_dot_index(s.drop_first(), k - 1);
    }
}

proof fn lemma_digits_value_nonneg(s: Seq<char>)
    requires
        all_digits(s),
    ensures
        digits_value(s) >= 0,
    decreases s.len(),
{
    if s.len() > 0 {
        assert(all_digits(s.drop_last())) by {
            assert forall|i: int| 0 <= i < s.drop_last().len() implies is_digit(#[trigger] s.drop_last()[i]) by {
                assert(is_digit(s[i]));
            }
        }
        lemma_digits_value_nonneg(s.drop_last());
        assert(is_digit(s[s.len() - 1]));
    }
}

/// Reads a quoted amount written as a plain decimal ("42.1", "100", "0.005")
/// and rounds it half up to whole cents; `None` where the text is no plain
/// decimal or the rounded value does not fit in a `u64`.
pub fn quote_cents(text: &str) -> (r: Option<u64>)
    ensures
        r == quote_cents_of(text@),
{
    let ghost s = text@;
    let n = text.unicode_len();
    let mut i: usize = 0;
    let mut whole: u64 = 0;
    let mut ok = true;
    while i < n && text.get_char(i) != '.'
        invariant
            n == s.len(),
            text@ == s,
            i <= n,
            forall|j: int| 0 <= j < i ==> s[j] != '.',
            ok == all_digits(s.take(i as int)),
            ok ==> whole as int == if digits_value(s.take(i as int)) < WHOLE_CAP {
                digits_value(s.take(i as int))
            } else {
                WHOLE_CAP as int
            },
        decreases n - i,
    {
        let c = text.get_char(i);
        proof {
            let t = s.take(i + 1);
            assert(t.drop_last() =~= s.take(i as int));
            assert(t.last() == c);
            if ok {
                lemma_digits_value_nonneg(s.take(i as int));
            }
            if all_digits(t) {
                assert(t[i as int] == c);
                assert(all_digits(s.take(i as int))) by {
                    assert forall|j: int| 0 <= j < i implies is_digit(#[trigger] s.take(i as int)[j]) by {
                        assert(t[j] == s.take(i as int)[j]);
                    }
                }
            }
        }
        if ok && '0' <= c && c <= '9' {
            let d = (c as u32 - '0' as u32) as u64;
            if whole < WHOLE_CAP {
                let next = whole * 10 + d;
                whole = if next < WHOLE_CAP { next } else { WHOLE_CAP };
            }
        } else {
            ok = false;
        }
        i += 1;
    }
    proof {
        lemma_dot_index(s, i as int);
    }
    if !ok || i == 0 {
        return None;
    }
    let mut f: [u64; 3] = [0, 0, 0];
    if i < n {
        let mut j: usize = i + 1;
        if j == n {
            return None;
        }
        while j < n
            invariant
                n == s.len(),
                text@ == s,
                i < n,
                i + 1 <= j <= n,
                dot_index(s) == i,
                all_digits(s.subrange(i + 1, j as int)),
                forall|m: int| 0 <= m < 3 ==> #[trigger] f[m] < 10,
                forall|m: int| 0 <= m < 3 ==> #[trigger] f[m] == if i + 1 + m < j {
                    digit_value(s[i + 1 + m])
                } else {
                    0
                },
            decreases n - j,
        {
            let c = text.get_char(j);
            if !('0' <= c && c <= '9') {
                proof {
                    let frac = s.skip(i + 1);
                    assert(frac[j - i - 1] == c);
                    assert(!is_digit(frac[j - i - 1]));
                    assert(!all_digits(frac));
                    assert(dot_index(s) == i);
                    assert(!is_plain_decimal(s));
                }
                return None;
            }
            let m = j - (i + 1);
            if m < 3 {
                f[m] = (c as u32 - '0' as u32) as u64;
            }
            proof {
                assert(all_digits(s.subrange(i + 1, j + 1))) by {
                    assert forall|q: int| 0 <= q < j + 1 - (i + 1) implies is_digit(#[trigger] s.subrange(i + 1, j + 1)[q]) by {
                        if q < j - (i + 1) {
                            assert(s.subrange(i + 1, j + 1)[q] == s.subrange(i + 1, j as int)[q]);
                        }
                    }
                }
            }
            j += 1;
        }
        assert(s.subrange(i + 1, n as int) =~= s.skip(i + 1));
    }
    if whole >= WHOLE_CAP {
        return None;
    }
    let cents: u128 = whole as u128 * 100 + (f[0] * 10 + f[1]) as u128 + if f[2] >= 5 { 1u128 } else { 0u128 };
    if cents > u64::MAX as u128 {
        None
    } else {
        Some(cents as u64)
    }
}

} // verus!
