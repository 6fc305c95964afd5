//! Decimal text rendering for persisted keys, records and responses.
use vstd::prelude::*;

verus! {

/// The character of one decimal digit.
pub open spec fn digit_char(d: int) -> char {
    if d == 0 {
        '0'
    } else if d == 1 {
        '1'
    } else if d == 2 {
        '2'
    } else if d == 3 {
        '3'
    } else if d == 4 {
        '4'
    } else if d == 5 {
        '5'
    } else if d == 6 {
        '6'
    } else if d == 7 {
        '7'
    } else if d == 8 {
        '8'
    } else {
        '9'
    }
}

/// The decimal rendering of a non-negative number, most significant
/// digit first, without leading zeros (zero renders as one digit).
pub open spec fn spec_decimal(n: int) -> Seq<char>
    recommends
        n >= 0,
    decreases n,
{
    if n < 10 {
        seq![digit_char(n)]
    } else {
        spec_decimal(n / 10).push(digit_char(n % 10))
    }
}

/// The two-digit zero-padded rendering, as repetition indices use it:
/// numbers below ten get a leading zero, larger ones render plainly.
pub open spec fn spec_two_digits(n: int) -> Seq<char>
    recommends
        n >= 0,
{
    if n < 10 {
        seq!['0', digit_char(n)]
    } else {
        spec_decimal(n)
    }
}

/// A duty cycle in permille rendered with two decimals, as the
/// persisted calibration keys use it: `500` renders as `0.50`,
/// `1000` as `1.00`. The third permille digit rounds half up.
pub open spec fn spec_duty_two_decimals(permille: int) -> Seq<char>
    recommends
        0 <= permille <= 65535,
{
    let hundredths = (permille + 5) / 10;
    spec_decimal(hundredths / 100) + seq!['.'] + seq![
        digit_char(hundredths / 10 % 10),
        digit_char(hundredths % 10),
    ]
}

/// Appends one decimal digit to `out`.
fn append_digit(out: &mut String, d: u64)
    requires
        d < 10,
    ensures
        final(out)@ == old(out)@.push(digit_char(d as int)),
{
    if d == 0 {
        proof { reveal_strlit("0"); }
        out.append("0");
    } else if d == 1 {
        proof { reveal_strlit("1"); }
        out.append("1");
    } else if d == 2 {
        proof { reveal_strlit("2"); }
        out.append("2");
    } else if d == 3 {
        proof { reveal_strlit("3"); }
        out.append("3");
    } else if d == 4 {
        proof { reveal_strlit("4"); }
        out.append("4");
    } else if d == 5 {
        proof { reveal_strlit("5"); }
        out.append("5");
    } else if d == 6 {
        proof { reveal_strlit("6"); }
        out.append("6");
    } else if d == 7 {
        proof { reveal_strlit("7"); }
        out.append("7");
    } else if d == 8 {
        proof { reveal_strlit("8"); }
        out.append("8");
    } else {
        proof { reveal_strlit("9"); }
        out.append("9");
    }
    proof {
        assert(final(out)@ =~= old(out)@.push(digit_char(d as int)));
    }
}

/// Appends the decimal rendering of `n` to `out`.
pub fn append_decimal(out: &mut String, n: u64)
    ensures
        final(out)@ == old(out)@ + spec_decimal(n as int),
    decreases n,
{
    if n < 10 {
        append_digit(out, n);
        proof {
            assert(old(out)@.push(digit_char(n as int)) =~= old(out)@ + spec_decimal(n as int));
        }
    } else {
        append_decimal(out, n / 10);
        append_digit(out, n % 10);
        proof {
            assert((old(out)@ + spec_decimal(n as int / 10)).push(digit_char(n as int % 10))
                =~= old(out)@ + spec_decimal(n as int));
        }
    }
}

/// The decimal rendering of `n` as a `String`.
pub fn decimal_string(n: u64) -> (r: String)
    ensures
        r@ == spec_decimal(n as int),
{
    let mut out = String::new();
    append_decimal(&mut out, n);
    proof {
        assert(Seq::<char>::empty() + spec_decimal(n as int) =~= spec_decimal(n as int));
    }
    out
}

/// Appends the two-digit zero-padded rendering of `n` to `out`.
pub fn append_two_digits(out: &mut String, n: u64)
    ensures
        final(out)@ == old(out)@ + spec_two_digits(n as int),
{
    if n < 10 {
        proof { reveal_strlit("0"); }
        out.append("0");
        append_digit(out, n);
        proof {
            assert(final(out)@ =~= old(out)@ + spec_two_digits(n as int));
        }
    } else {
        append_decimal(out, n);
    }
}

/// Appends the two-decimal duty cycle rendering of `permille` to
/// `out`.
pub fn append_duty_two_decimals(out: &mut String, permille: u16)
    ensures
        final(out)@ == old(out)@ + spec_duty_two_decimals(permille as int),
{
    let hundredths = (permille as u64 + 5) / 10;
    append_decimal(out, hundredths / 100);
    proof { reveal_strlit("."); }
    out.append(".");
    append_digit(out, hundredths / 10 % 10);
    append_digit(out, hundredths % 10);
    proof {
        assert(final(out)@ =~= old(out)@ + spec_duty_two_decimals(permille as int));
    }
}

/// Relies on std's `String::push`: appends the given character to
/// the end of the string.
pub assume_specification[ String::push ](s: &mut String, c: char)
    ensures
        final(s)@ == old(s)@.push(c),
;

/// The character of one lower-case hexadecimal digit.
pub open spec fn hex_char(d: int) -> char {
    if d < 10 {
        digit_char(d)
    } else if d == 10 {
        'a'
    } else if d == 11 {
        'b'
    } else if d == 12 {
        'c'
    } else if d == 13 {
        'd'
    } else if d == 14 {
        'e'
    } else {
        'f'
    }
}

/// How one character is written inside a JSON string: quotes and
/// backslashes are escaped, the common control characters get their
/// named escapes, the remaining control characters their numeric
/// escape, and everything else stands as it is.
pub open spec fn spec_json_escaped_char(c: char) -> Seq<char> {
    if c == '"' {
        seq!['\\', '"']
    } else if c == '\\' {
        seq!['\\', '\\']
    } else if c == '\n' {
        seq!['\\', 'n']
    } else if c == '\r' {
        seq!['\\', 'r']
    } else if c == '\t' {
        seq!['\\', 't']
    } else if (c as int) < 32 {
        seq!['\\', 'u', '0', '0', hex_char(c as int / 16), hex_char(c as int % 16)]
    } else {
        seq![c]
    }
}

/// A whole character sequence written inside a JSON string.
pub open spec fn spec_json_escaped(s: Seq<char>) -> Seq<char>
    decreases s.len(),
{
    if s.len() == 0 {
        Seq::empty()
    } else {
        spec_json_escaped(s.drop_last()) + spec_json_escaped_char(s.last())
    }
}

/// Appends one character, escaped for a JSON string, to `out`.
fn append_json_escaped_char(out: &mut String, c: char)
    ensures
        final(out)@ == old(out)@ + spec_json_escaped_char(c),
{
    if c == '"' {
        out.push('\\');
        out.push('"');
    } else if c == '\\' {
        out.push('\\');
        out.push('\\');
    } else if c == '\n' {
        out.push('\\');
        out.push('n');
    } else if c == '\r' {
        out.push('\\');
        out.push('r');
    } else if c == '\t' {
        out.push('\\');
        out.push('t');
    } else if (c as u32) < 32 {
        out.push('\\');
        out.push('u');
        out.push('0');
        out.push('0');
        let high = (c as u32) / 16;
        let low = (c as u32) % 16;
        out.push(hex_char_value(high));
        out.push(hex_char_value(low));
    } else {
        out.push(c);
    }
    proof {
        assert(final(out)@ =~= old(out)@ + spec_json_escaped_char(c));
    }
}

/// The lower-case hexadecimal digit character of `d`.
fn hex_char_value(d: u32) -> (r: char)
    requires
        d < 16,
    ensures
        r == hex_char(d as int),
{
    if d == 0 {
        '0'
    } else if d == 1 {
        '1'
    } else if d == 2 {
        '2'
    } else if d == 3 {
        '3'
    } else if d == 4 {
        '4'
    } else if d == 5 {
        '5'
    } else if d == 6 {
        '6'
    } else if d == 7 {
        '7'
    } else if d == 8 {
        '8'
    } else if d == 9 {
        '9'
    } else if d == 10 {
        'a'
    } else if d == 11 {
        'b'
    } else if d == 12 {
        'c'
    } else if d == 13 {
        'd'
    } else if d == 14 {
        'e'
    } else {
        'f'
    }
}

/// Appends the whole of `s`, escaped for a JSON string, to `out`.
pub fn append_json_escaped(out: &mut String, s: &str)
    ensures
        final(out)@ == old(out)@ + spec_json_escaped(s@),
{
    let n = s.unicode_len();
    let mut i: usize = 0;
    while i < n
        invariant
            n == s@.len(),
            i <= n,
            out@ == old(out)@ + spec_json_escaped(s@.take(i as int)),
        decreases n - i,
    {
        let c = s.get_char(i);
        append_json_escaped_char(out, c);
        proof {
            assert(s@.take(i as int + 1).drop_last() =~= s@.take(i as int));
            assert(s@.take(i as int + 1).last() == s@[i as int]);
            assert(out@ =~= old(out)@ + spec_json_escaped(s@.take(i as int + 1)));
        }
        i = i + 1;
    }
    proof {
        assert(s@.take(n as int) =~= s@);
    }
}

} // verus!
