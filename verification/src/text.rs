//! Character-level building blocks for the report and snapshot text:
//! decimal rendering of counters, field padding, and the two small trusted
//! bridges to `std`'s string machinery.

use vstd::prelude::*;

verus! {

/// The decimal digit character for `d` (meaningful for `d < 10`).
pub open spec fn digit_char(d: nat) -> char {
    if d == 0 {
        '0'
    } else if d == 1 {
        '1'
    } else if d == 2 {
        '2'
    } else if d == 3 {
        '3'
    } else if d == 4 {
        '4'
    } else if d == 5 {
        '5'
    } else if d == 6 {
        '6'
    } else if d == 7 {
        '7'
    } else if d == 8 {
        '8'
    } else {
        '9'
    }
}

/// Decimal representation of `n`, most significant digit first, with no
/// leading zeros (zero itself is the single character `'0'`).
pub open spec fn dec_digits(n: nat) -> Seq<char>
    decreases n,
{
    if n < 10 {
        seq![digit_char(n)]
    } else {
        dec_digits(n / 10).push(digit_char(n % 10))
    }
}

/// `n` copies of the character `c`.
pub open spec fn repeat_char(c: char, n: nat) -> Seq<char>
    decreases n,
{
    if n == 0 {
        Seq::<char>::empty()
    } else {
        repeat_char(c, (n - 1) as nat).push(c)
    }
}

/// `s` left-justified in a field of at least `w` characters: shorter strings
/// are padded with spaces on the right, longer strings are kept whole.
pub open spec fn pad_right(s: Seq<char>, w: nat) -> Seq<char> {
    if s.len() >= w {
        s
    } else {
        s + repeat_char(' ', (w - s.len()) as nat)
    }
}

/// Exactly two decimal digits for `h < 100`, zero-padded on the left.
pub open spec fn two_digits(h: nat) -> Seq<char> {
    seq![digit_char(h / 10), digit_char(h % 10)]
}

fn push_digit(out: &mut Vec<char>, d: u64)
    requires
        d < 10,
    ensures
        final(out)@ == old(out)@.push(digit_char(d as nat)),
{
    let c: char = if d == 0 {
        '0'
    } else if d == 1 {
        '1'
    } else if d == 2 {
        '2'
    } else if d == 3 {
        '3'
    } else if d == 4 {
        '4'
    } else if d == 5 {
        '5'
    } else if d == 6 {
        '6'
    } else if d == 7 {
        '7'
    } else if d == 8 {
        '8'
    } else {
        '9'
    };
    out.push(c);
}

/// Appends the decimal representation of `n` to `out`.
pub fn push_dec(out: &mut Vec<char>, n: u64)
    ensures
        final(out)@ == old(out)@ + dec_digits(n as nat),
    decreases n,
{
    if n < 10 {
        push_digit(out, n);
        proof {
            assert(out@ =~= old(out)@ + dec_digits(n as nat));
        }
    } else {
        push_dec(out, n / 10);
        push_digit(out, n % 10);
        proof {
            assert(out@ =~= old(out)@ + dec_digits(n as nat));
        }
    }
}

/// Appends exactly two decimal digits of `h` (which must be below 100).
pub fn push_two_digits(out: &mut Vec<char>, h: u64)
    requires
        h < 100,
    ensures
        final(out)@ == old(out)@ + two_digits(h as nat),
{
    push_digit(out, h / 10);
    push_digit(out, h % 10);
    proof {
        assert(out@ =~= old(out)@ + two_digits(h as nat));
    }
}

/// Appends the characters of `s` to `out`.
pub fn push_str_chars(out: &mut Vec<char>, s: &str)
    ensures
        final(out)@ == old(out)@ + s@,
{
    let n = s.unicode_len();
    let mut i: usize = 0;
    while i < n
        invariant
            n == s@.len(),
            i <= n,
            out@ == old(out)@ + s@.take(i as int),
        decreases n - i,
    {
        let c = s.get_char(i);
        out.push(c);
        i = i + 1;
        proof {
            assert(out@ =~= old(out)@ + s@.take(i as int));
        }
    }
    proof {
        assert(s@.take(n as int) =~= s@);
    }
}

/// Appends spaces until the tail that begins at `start` fills `width`
/// characters; `start` must already lie within `out`.
fn pad_tail_to(out: &mut Vec<char>, start: usize, width: usize)
    requires
        start <= old(out)@.len(),
    ensures
        final(out)@ == old(out)@.take(start as int) + pad_right(
            old(out)@.skip(start as int),
            width as nat,
        ),
{
    proof {
        assert(old(out)@.take(start as int) + old(out)@.skip(start as int) =~= old(out)@);
    }
    let mut pushed: usize = 0;
    let field_len: usize = out.len() - start;
    let needed: usize = if field_len >= width {
        0
    } else {
        width - field_len
    };
    while pushed < needed
        invariant
            start + field_len == old(out)@.len(),
            needed == if field_len >= width {
                0int
            } else {
                width - field_len
            },
            pushed <= needed,
            out@ == old(out)@ + repeat_char(' ', pushed as nat),
        decreases needed - pushed,
    {
        out.push(' ');
        pushed = pushed + 1;
        proof {
            assert(out@ =~= old(out)@ + repeat_char(' ', pushed as nat));
        }
    }
    proof {
        assert(out@ =~= old(out)@.take(start as int) + pad_right(
            old(out)@.skip(start as int),
            width as nat,
        ));
    }
}

/// Appends `s` left-justified in a field of at least `width` characters.
pub fn push_padded_str(out: &mut Vec<char>, s: &str, width: usize)
    ensures
        final(out)@ == old(out)@ + pad_right(s@, width as nat),
{
    let start = out.len();
    push_str_chars(out, s);
    pad_tail_to(out, start, width);
    proof {
        assert((old(out)@ + s@).take(start as int) =~= old(out)@);
        assert((old(out)@ + s@).skip(start as int) =~= s@);
    }
}

/// Appends the decimal representation of `n`, left-justified in a field of at
/// least `width` characters.
pub fn push_padded_dec(out: &mut Vec<char>, n: u64, width: usize)
    ensures
        final(out)@ == old(out)@ + pad_right(dec_digits(n as nat), width as nat),
{
    let start = out.len();
    push_dec(out, n);
    pad_tail_to(out, start, width);
    proof {
        assert((old(out)@ + dec_digits(n as nat)).take(start as int) =~= old(out)@);
        assert((old(out)@ + dec_digits(n as nat)).skip(start as int) =~= dec_digits(n as nat));
    }
}

/// The decimal representation of `n`, zero-padded on the left to at least `w`
/// characters.
pub open spec fn zero_padded(n: nat, w: nat) -> Seq<char> {
    if dec_digits(n).len() >= w {
        dec_digits(n)
    } else {
        repeat_char('0', (w - dec_digits(n).len()) as nat) + dec_digits(n)
    }
}

/// Appends the decimal representation of `n`, zero-padded on the left to at
/// least `width` characters.
pub fn push_zero_padded_dec(out: &mut Vec<char>, n: u64, width: usize)
    ensures
        final(out)@ == old(out)@ + zero_padded(n as nat, width as nat),
{
    let mut digits: Vec<char> = Vec::new();
    push_dec(&mut digits, n);
    let needed: usize = if digits.len() >= width {
        0
    } else {
        width - digits.len()
    };
    let mut pushed: usize = 0;
    while pushed < needed
        invariant
            pushed <= needed,
            out@ == old(out)@ + repeat_char('0', pushed as nat),
        decreases needed - pushed,
    {
        out.push('0');
        pushed = pushed + 1;
        proof {
            assert(out@ =~= old(out)@ + repeat_char('0', pushed as nat));
        }
    }
    let mut i: usize = 0;
    let ghost mid = out@;
    while i < digits.len()
        invariant
            i <= digits@.len(),
            digits@ == dec_digits(n as nat),
            out@ == mid + digits@.take(i as int),
        decreases digits@.len() - i,
    {
        let c = digits[i];
        out.push(c);
        i = i + 1;
        proof {
            assert(out@ =~= mid + digits@.take(i as int));
        }
    }
    proof {
        assert(digits@.take(digits@.len() as int) =~= digits@);
        assert(out@ =~= old(out)@ + zero_padded(n as nat, width as nat));
    }
}

/// Relies on `String::from_iter` over `char`: collecting characters yields
/// the string made of exactly those characters, in order.
#[verifier::external_body]
pub(crate) fn chars_to_string(v: &Vec<char>) -> (s: String)
    ensures
        s@ == v@,
{
    v.iter().collect()
}

/// Relies on `str`'s `PartialEq`: two string slices compare equal exactly
/// when their character sequences are equal.
#[verifier::external_body]
pub(crate) fn str_eq(a: &str, b: &str) -> (r: bool)
    ensures
        r == (a@ == b@),
{
    a == b
}

} // verus!
