//! Reading a register value from a line of input.

use vstd::prelude::*;
use vstd::string::StrSliceExecFns;

verus! {

pub open spec fn is_digit(c: char) -> bool {
    48 <= c as int <= 57
}

pub open spec fn all_digits(s: Seq<char>) -> bool {
    forall|i: int| 0 <= i < s.len() ==> is_digit(#[trigger] s[i])
}

/// The value of a string of decimal digits.
pub open spec fn digits_value(s: Seq<char>) -> int
    decreases s.len(),
{
    if s.len() == 0 {
        0
    } else {
        digits_value(s.drop_last()) * 10 + (s.last() as int - 48)
    }
}

/// The integer that a string writes: an optional `+` or `-` and one or more
/// decimal digits, nothing else.
pub open spec fn decimal_value(s: Seq<char>) -> Option<int> {
    if s.len() > 0 && (s[0] == '-' || s[0] == '+') {
        let body = s.drop_first();
        if body.len() > 0 && all_digits(body) {
            Some(if s[0] == '-' { -digits_value(body) } else { digits_value(body) })
        } else {
            None
        }
    } else if s.len() > 0 && all_digits(s) {
        Some(digits_value(s))
    } else {
        None
    }
}

/// The `i32` that a string writes, if it writes one in range.
pub open spec fn parsed_i32(s: Seq<char>) -> Option<i32> {
    match decimal_value(s) {
        Some(v) => if i32::MIN <= v <= i32::MAX {
            Some(v as i32)
        } else {
            None
        },
        None => None,
    }
}

/// A line without its terminator: a final `\n`, then a final `\r`.
pub open spec fn without_terminator(s: Seq<char>) -> Seq<char> {
    let t = if s.len() > 0 && s.last() == '\n' { s.drop_last() } else { s };
    if t.len() > 0 && t.last() == '\r' { t.drop_last() } else { t }
}

/// The code of the first character of a line, if there is one and it is
/// ASCII.
pub open spec fn first_ascii(s: Seq<char>) -> Option<i32> {
    if s.len() > 0 && (s[0] as int) < 128 {
        Some(s[0] as i32)
    } else {
        None
    }
}

proof fn lemma_digits_value_nonneg(s: Seq<char>)
    requires
        all_digits(s),
    ensures
        digits_value(s) >= 0,
    decreases s.len(),
{
    if s.len() > 0 {
        assert(all_digits(s.drop_last()));
        lemma_digits_value_nonneg(s.drop_last());
        assert(is_digit(s[s.len() - 1]));
    }
}

/// A string of digits is worth at least as much as any of its prefixes.
proof fn lemma_digits_value_grows(s: Seq<char>, k: int)
    requires
        all_digits(s),
        0 <= k <= s.len(),
    ensures
        digits_value(s) >= digits_value(s.take(k)),
    decreases s.len(),
{
    if k == s.len() {
        assert(s.take(k) =~= s);
    } else {
        let d = s.drop_last();
        assert(all_digits(d));
        lemma_digits_value_grows(d, k);
        assert(d.take(k) =~= s.take(k));
        lemma_digits_value_nonneg(d);
        assert(is_digit(s[s.len() - 1]));
    }
}

/// Parses the decimal integer that the first `end` characters of a string
/// write.
pub fn parse_i32_prefix(s: &str, end: usize) -> (r: Option<i32>)
    requires
        end <= s@.len(),
    ensures
        r == parsed_i32(s@.subrange(0, end as int)),
{
    let ghost t = s@.subrange(0, end as int);
    if end == 0 {
        return None;
    }
    let first = s.get_char(0);
    assert(t[0] == first);
    let negative = first == '-';
    let start: usize = if first == '-' || first == '+' { 1 } else { 0 };
    let ghost body = t.subrange(start as int, end as int);
    proof {
        if start == 1 {
            assert(body =~= t.drop_first());
        } else {
            assert(body =~= t);
        }
    }
    if start == end {
        return None;
    }
    let mut acc: i64 = 0;
    let mut i: usize = start;
    while i < end
        invariant
            start <= i <= end,
            end <= s@.len(),
            t == s@.subrange(0, end as int),
            body == t.subrange(start as int, end as int),
            t.len() > 0,
            negative == (t[0] == '-'),
            start == (if t[0] == '-' || t[0] == '+' { 1usize } else { 0usize }),
            start == 1 ==> body == t.drop_first(),
            start == 0 ==> body == t,
            0 <= acc <= 2147483648,
            acc == digits_value(body.take(i - start)),
            all_digits(body.take(i - start)),
        decreases end - i,
    {
        let c = s.get_char(i);
        assert(body[i - start] == c);
        if (c as u32) < 48 || (c as u32) > 57 {
            assert(!all_digits(body)) by {
                assert(!is_digit(body[i - start]));
            }
            return None;
        }
        let d = (c as u32 - 48) as i64;
        let ghost before = body.take(i - start);
        let ghost after = body.take(i - start + 1);
        assert(after.drop_last() =~= before);
        assert(all_digits(after)) by {
            assert forall|j: int| 0 <= j < after.len() implies is_digit(#[trigger] after[j]) by {
                if j < before.len() {
                    assert(after[j] == before[j]);
                }
            }
        }
        acc = acc * 10 + d;
        i = i + 1;
        if acc > 2147483648 {
            proof {
                if all_digits(body) {
                    lemma_digits_value_grows(body, i - start);
                }
            }
            return None;
        }
    }
    assert(body.take(i - start) =~= body);
    let value: i64 = if negative { -acc } else { acc };
    if value < i32::MIN as i64 || value > i32::MAX as i64 {
        None
    } else {
        Some(value as i32)
    }
}

/// The number that a line of input writes, its terminator aside.
pub fn parse_line_number(line: &str) -> (r: Option<i32>)
    ensures
        r == parsed_i32(without_terminator(line@)),
{
    let mut end: usize = line.unicode_len();
    if end > 0 && line.get_char(end - 1) == '\n' {
        end = end - 1;
    }
    if end > 0 && line.get_char(end - 1) == '\r' {
        end = end - 1;
    }
    assert(line@.subrange(0, end as int) =~= without_terminator(line@));
    parse_i32_prefix(line, end)
}

/// The code of the first character of a line, if it is ASCII.
pub fn line_first_ascii(line: &str) -> (r: Option<i32>)
    ensures
        r == first_ascii(line@),
{
    if line.unicode_len() == 0 {
        return None;
    }
    let c = line.get_char(0);
    if (c as u32) < 128 {
        Some(c as u32 as i32)
    } else {
        None
    }
}

} // verus!
