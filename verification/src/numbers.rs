//! Decimal rendering and parsing of integers.

use vstd::prelude::*;

verus! {

/// Relies on String::push: appends the given character to the end of the
/// string.
pub assume_specification[ String::push ](s: &mut String, c: char)
    ensures
        final(s)@ == old(s)@.push(c),
;

/// The decimal digit character for a value below ten.
pub open spec fn dec_digit(d: int) -> char {
    if d == 0 {
        '0'
    } else if d == 1 {
        '1'
    } else if d == 2 {
        '2'
    } else if d == 3 {
        '3'
    } else if d == 4 {
        '4'
    } else if d == 5 {
        '5'
    } else if d == 6 {
        '6'
    } else if d == 7 {
        '7'
    } else if d == 8 {
        '8'
    } else {
        '9'
    }
}

/// The usual decimal rendering of a natural number, without sign or
/// leading zeros.
pub open spec fn dec_str(n: nat) -> Seq<char>
    decreases n,
{
    if n < 10 {
        seq![dec_digit(n as int)]
    } else {
        dec_str(n / 10) + seq![dec_digit((n % 10) as int)]
    }
}

/// Whether `c` is a decimal digit.
pub open spec fn is_dec_digit(c: char) -> bool {
    '0' as int <= c as int && c as int <= '9' as int
}

/// The numeric value of a digit character.
pub open spec fn digit_val(c: char) -> int {
    c as int - '0' as int
}

/// The value of a digit string, most significant first.
pub open spec fn digits_val(s: Seq<char>) -> int
    decreases s.len(),
{
    if s.len() == 0 {
        0
    } else {
        digits_val(s.drop_last()) * 10 + digit_val(s.last())
    }
}

/// Whether every character of `s` is a decimal digit.
pub open spec fn all_dec_digits(s: Seq<char>) -> bool {
    forall|i: int| 0 <= i < s.len() ==> is_dec_digit(#[trigger] s[i])
}

/// What parsing `s` as a signed 64-bit integer yields: an optional sign,
/// then at least one digit, and a value within the type's range.
pub open spec fn parse_i64_spec(s: Seq<char>) -> Option<int> {
    let ds = if s.len() > 0 && (s[0] == '+' || s[0] == '-') {
        s.drop_first()
    } else {
        s
    };
    if ds.len() == 0 || !all_dec_digits(ds) {
        None
    } else if s[0] == '-' {
        if digits_val(ds) <= 0x8000000000000000 {
            Some(-digits_val(ds))
        } else {
            None
        }
    } else {
        if digits_val(ds) <= 0x7FFFFFFFFFFFFFFF {
            Some(digits_val(ds))
        } else {
            None
        }
    }
}

/// The exec mirror of `dec_digit`.
fn dec_digit_char(d: u64) -> (c: char)
    requires
        d < 10,
    ensures
        c == dec_digit(d as int),
{
    match d {
        0 => '0',
        1 => '1',
        2 => '2',
        3 => '3',
        4 => '4',
        5 => '5',
        6 => '6',
        7 => '7',
        8 => '8',
        _ => '9',
    }
}

/// Appends the decimal rendering of `n` to `out`.
pub fn append_u64(out: &mut String, n: u64)
    ensures
        final(out)@ == old(out)@ + dec_str(n as nat),
    decreases n,
{
    if n >= 10 {
        append_u64(out, n / 10);
        out.push(dec_digit_char(n % 10));
        assert(out@ =~= old(out)@ + dec_str(n as nat));
    } else {
        out.push(dec_digit_char(n));
        assert(out@ =~= old(out)@ + dec_str(n as nat));
    }
}

/// The decimal rendering of a machine word.
pub fn usize_dec(n: usize) -> (r: String)
    ensures
        r@ == dec_str(n as nat),
{
    let mut out = String::new();
    append_u64(&mut out, n as u64);
    out
}

/// The value of a pure digit string as an unbounded accumulator, stopping
/// once it can no longer fit a signed 64-bit magnitude.
fn digits_to_u128(s: &str, from: usize) -> (r: Option<u128>)
    requires
        from <= s@.len(),
    ensures
        r matches Some(v) ==> {
            &&& s@.len() > from
            &&& all_dec_digits(s@.skip(from as int))
            &&& v == digits_val(s@.skip(from as int))
            &&& v <= 0x8000000000000000u128
        },
        r is None ==> s@.len() == from || !all_dec_digits(s@.skip(from as int)) || digits_val(
            s@.skip(from as int),
        ) > 0x8000000000000000,
{
    let n = s.unicode_len();
    if from == n {
        return None;
    }
    let mut acc: u128 = 0;
    let mut i: usize = from;
    while i < n
        invariant
            from <= i <= n,
            n == s@.len(),
            from < n,
            all_dec_digits(s@.subrange(from as int, i as int)),
            acc == digits_val(s@.subrange(from as int, i as int)),
            acc <= 0x8000000000000000u128,
        decreases n - i,
    {
        let c = s.get_char(i);
        let cv = c as u32;
        if cv < 48 || cv > 57 {
            assert(!is_dec_digit(s@[i as int]));
            assert(s@.skip(from as int)[i - from] == s@[i as int]);
            return None;
        }
        let d: u128 = (cv - 48) as u128;
        assert(is_dec_digit(s@[i as int]) && d == digit_val(s@[i as int]));
        let next: u128 = acc * 10 + d;
        proof {
            let pre = s@.subrange(from as int, i as int);
            let post = s@.subrange(from as int, i + 1 as int);
            assert(post.drop_last() =~= pre);
            assert(post.last() == s@[i as int]);
            assert(digits_val(post) == digits_val(pre) * 10 + digit_val(s@[i as int]));
        }
        if next > 0x8000000000000000u128 {
            proof {
                let post = s@.subrange(from as int, i + 1 as int);
                assert(s@.skip(from as int).take((i + 1 - from) as int) =~= post);
                lemma_digits_val_grows(s@.skip(from as int), (i + 1 - from) as int);
            }
            return None;
        }
        acc = next;
        i = i + 1;
    }
    proof {
        assert(s@.subrange(from as int, n as int) =~= s@.skip(from as int));
    }
    Some(acc)
}

/// A digit string is worth at least as much as any of its prefixes.
proof fn lemma_digits_val_grows(s: Seq<char>, i: int)
    requires
        0 <= i <= s.len(),
        all_dec_digits(s.take(i)),
    ensures
        digits_val(s.take(i)) <= digits_val(s) || !all_dec_digits(s),
    decreases s.len() - i,
{
    if i < s.len() {
        if all_dec_digits(s) {
            assert(all_dec_digits(s.take(i + 1))) by {
                assert(forall|j: int|
                    0 <= j < i + 1 ==> s.take(i + 1)[j] == #[trigger] s.take(i + 1)[j] && s.take(
                        i + 1,
                    )[j] == s[j]);
            }
            lemma_digits_val_grows(s, i + 1);
            assert(s.take(i + 1).drop_last() =~= s.take(i));
            assert(digit_val(s.take(i + 1).last()) >= 0);
            assert(digits_val(s.take(i)) >= 0) by {
                lemma_digits_val_nonneg(s.take(i));
            }
            assert(digits_val(s.take(i + 1)) == digits_val(s.take(i)) * 10 + digit_val(
                s.take(i + 1).last(),
            ));
        }
    } else {
        assert(s.take(i) =~= s);
    }
}

/// A pure digit string never has a negative value.
proof fn lemma_digits_val_nonneg(s: Seq<char>)
    requires
        all_dec_digits(s),
    ensures
        digits_val(s) >= 0,
    decreases s.len(),
{
    if s.len() > 0 {
        assert(all_dec_digits(s.drop_last())) by {
            assert(forall|j: int| 0 <= j < s.len() - 1 ==> s.drop_last()[j] == s[j]);
        }
        lemma_digits_val_nonneg(s.drop_last());
    }
}

/// Parses `s` as a signed 64-bit integer: an optional `+` or `-` sign,
/// then one or more decimal digits; `None` on anything else, and on a
/// value out of range.
pub fn parse_i64(s: &str) -> (r: Option<i64>)
    ensures
        r matches Some(v) ==> parse_i64_spec(s@) == Some(v as int),
        r is None ==> parse_i64_spec(s@) is None,
{
    let n = s.unicode_len();
    if n == 0 {
        return None;
    }
    let c0 = s.get_char(0);
    let negative = c0 == '-';
    let from: usize = if c0 == '-' || c0 == '+' {
        1
    } else {
        0
    };
    proof {
        if from == 1 {
            assert(s@.skip(1) =~= s@.drop_first());
        } else {
            assert(s@.skip(0) =~= s@);
        }
    }
    let mag = match digits_to_u128(s, from) {
        Some(v) => v,
        None => {
            return None;
        },
    };
    proof {
        lemma_digits_val_nonneg(s@.skip(from as int));
    }
    if negative {
        if mag > 0x8000000000000000u128 {
            return None;
        }
        if mag == 0x8000000000000000u128 {
            return Some(i64::MIN);
        }
        Some(-((mag as u64) as i64))
    } else {
        if mag > 0x7FFFFFFFFFFFFFFFu128 {
            return None;
        }
        Some((mag as u64) as i64)
    }
}

} // verus!
