//! Reading the stash count out of what the line-counting tool printed.

use vstd::prelude::*;

verus! {

/// The ASCII whitespace that surrounds a number on a line of tool output.
pub open spec fn is_space(b: u8) -> bool {
    b == 32 || b == 9 || b == 10 || b == 11 || b == 12 || b == 13
}

/// The bytes without their leading whitespace.
pub open spec fn trim_front(s: Seq<u8>) -> Seq<u8>
    decreases s.len(),
{
    if s.len() > 0 && is_space(s[0]) {
        trim_front(s.skip(1))
    } else {
        s
    }
}

/// The bytes without their trailing whitespace.
pub open spec fn trim_back(s: Seq<u8>) -> Seq<u8>
    decreases s.len(),
{
    if s.len() > 0 && is_space(s.last()) {
        trim_back(s.drop_last())
    } else {
        s
    }
}

/// The bytes without whitespace at either end.
pub open spec fn trimmed(s: Seq<u8>) -> Seq<u8> {
    trim_back(trim_front(s))
}

pub open spec fn is_digit(b: u8) -> bool {
    48 <= b <= 57
}

pub open spec fn all_digits(s: Seq<u8>) -> bool {
    forall|i: int| 0 <= i < s.len() ==> is_digit(#[trigger] s[i])
}

/// The value of a run of decimal digits.
pub open spec fn digits_value(s: Seq<u8>) -> nat
    decreases s.len(),
{
    if s.len() == 0 {
        0
    } else {
        10 * digits_value(s.drop_last()) + (s.last() - 48) as nat
    }
}

/// The integer that a text writes: an optional sign, then at least one digit.
pub open spec fn integer_value(s: Seq<u8>) -> Option<int> {
    if s.len() > 1 && s[0] == 45 && all_digits(s.skip(1)) {
        Some(-digits_value(s.skip(1)))
    } else if s.len() > 1 && s[0] == 43 && all_digits(s.skip(1)) {
        Some(digits_value(s.skip(1)) as int)
    } else if s.len() > 0 && all_digits(s) {
        Some(digits_value(s) as int)
    } else {
        None
    }
}

pub open spec fn fits_i32(v: int) -> bool {
    i32::MIN <= v <= i32::MAX
}

/// The count that a tool's output states: the integer its text writes once
/// the surrounding whitespace is gone, where that integer fits in an `i32`.
pub open spec fn stated_count(out: Seq<u8>) -> Option<int> {
    match integer_value(trimmed(out)) {
        Some(v) => if fits_i32(v) { Some(v) } else { None },
        None => None,
    }
}

proof fn lemma_digits_value_grows(s: Seq<u8>, m: int)
    requires
        0 <= m <= s.len(),
        all_digits(s),
    ensures
        digits_value(s.take(m)) <= digits_value(s),
    decreases s.len() - m,
{
    if m < s.len() {
        lemma_digits_value_grows(s, m + 1);
        assert(s.take(m + 1).drop_last() =~= s.take(m));
    } else {
        assert(s.take(m) =~= s);
    }
}

/// Reads a run of digits `s[start..end]`; `None` once its value passes `limit`.
fn read_digits(s: &Vec<u8>, start: usize, end: usize, limit: u64) -> (r: Option<u64>)
    requires
        start < end <= s@.len(),
        limit <= 4_000_000_000,
    ensures
        match r {
            Some(v) => all_digits(s@.subrange(start as int, end as int)) && v == digits_value(
                s@.subrange(start as int, end as int),
            ) && v <= limit,
            None => !all_digits(s@.subrange(start as int, end as int)) || digits_value(
                s@.subrange(start as int, end as int),
            ) > limit,
        },
{
    let ghost t = s@.subrange(start as int, end as int);
    let mut acc: u64 = 0;
    let mut k: usize = start;
    while k < end
        invariant
            start <= k <= end <= s@.len(),
            t == s@.subrange(start as int, end as int),
            limit <= 4_000_000_000,
            all_digits(t.take(k - start)),
            acc == digits_value(t.take(k - start)),
            acc <= limit,
        decreases end - k,
    {
        let b = s[k];
        assert(t[k - start] == b);
        if b < 48 || b > 57 {
            return None;
        }
        let next: u64 = acc * 10 + (b - 48) as u64;
        assert(t.take(k + 1 - start).drop_last() =~= t.take(k - start));
        if next > limit {
            proof {
                if all_digits(t) {
                    lemma_digits_value_grows(t, k + 1 - start);
                }
            }
            return None;
        }
        acc = next;
        k = k + 1;
    }
    assert(t.take(k - start) =~= t);
    Some(acc)
}

/// Parses the count that a line-counting tool printed: the integer written
/// between optional surrounding whitespace, with an optional sign; `None`
/// where the text is no such integer or leaves the range of an `i32`.
pub fn parse_stash_count(out: &Vec<u8>) -> (r: Option<i32>)
    ensures
        match r {
            Some(n) => stated_count(out@) == Some(n as int),
            None => stated_count(out@) is None,
        },
{
    let ghost s = out@;
    let len = out.len();
    let mut i: usize = 0;
    assert(s.skip(0) =~= s);
    while i < len && (out[i] == 32 || out[i] == 9 || out[i] == 10 || out[i] == 11 || out[i] == 12
        || out[i] == 13)
        invariant
            0 <= i <= len == s.len(),
            s == out@,
            trim_front(s.skip(i as int)) == trim_front(s),
        decreases len - i,
    {
        assert(s.skip(i as int).skip(1) =~= s.skip(i + 1));
        i = i + 1;
    }
    let ghost front = s.skip(i as int);
    assert(trim_front(front) == front);
    let mut j: usize = len;
    while j > i && (out[j - 1] == 32 || out[j - 1] == 9 || out[j - 1] == 10 || out[j - 1] == 11
        || out[j - 1] == 12 || out[j - 1] == 13)
        invariant
            i <= j <= len == s.len(),
            s == out@,
            front == s.skip(i as int),
            trim_back(s.subrange(i as int, j as int)) == trim_back(front),
        decreases j,
    {
        assert(s.subrange(i as int, j as int).drop_last() =~= s.subrange(i as int, j - 1));
        j = j - 1;
    }
    assert(s.subrange(i as int, len as int) =~= front);
    let ghost t = s.subrange(i as int, j as int);
    assert(trim_back(t) == t);
    assert(trimmed(s) == t);
    if i == j {
        return None;
    }
    if out[i] == 45 || out[i] == 43 {
        if j - i == 1 {
            return None;
        }
        let negative = out[i] == 45;
        let limit: u64 = if negative { 2147483648 } else { 2147483647 };
        assert(t.skip(1) =~= s.subrange(i + 1, j as int));
        match read_digits(out, i + 1, j, limit) {
            Some(v) => {
                if negative {
                    Some((-(v as i64)) as i32)
                } else {
                    Some(v as i32)
                }
            },
            None => None,
        }
    } else {
        match read_digits(out, i, j, 2147483647) {
            Some(v) => Some(v as i32),
            None => None,
        }
    }
}

} // verus!
