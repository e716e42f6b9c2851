//! Decimal digit strings: parsing a run of ASCII digits into a number and
//! rendering a number back, either zero-padded to a fixed width or in the
//! usual unpadded form. These are the string primitives behind the
//! identifier codec and the report lines.

use vstd::prelude::*;

verus! {

/// An ASCII decimal digit, `'0'` through `'9'`.
pub open spec fn is_dec_digit(c: char) -> bool {
    48 <= c as int <= 57
}

/// Every character of `s` is a decimal digit.
pub open spec fn all_dec_digits(s: Seq<char>) -> bool {
    forall|i: int| 0 <= i < s.len() ==> is_dec_digit(#[trigger] s[i])
}

/// The numeric value of one digit character.
pub open spec fn digit_val(c: char) -> nat
    recommends
        is_dec_digit(c),
{
    (c as int - 48) as nat
}

/// The digit character for a value below ten.
pub open spec fn char_of_digit(d: nat) -> char
    recommends
        d < 10,
{
    if d == 0 {
        '0'
    } else if d == 1 {
        '1'
    } else if d == 2 {
        '2'
    } else if d == 3 {
        '3'
    } else if d == 4 {
        '4'
    } else if d == 5 {
        '5'
    } else if d == 6 {
        '6'
    } else if d == 7 {
        '7'
    } else if d == 8 {
        '8'
    } else {
        '9'
    }
}

/// The number denoted by a digit string, most significant digit first.
pub open spec fn dec_value(s: Seq<char>) -> nat
    recommends
        all_dec_digits(s),
    decreases s.len(),
{
    if s.len() == 0 {
        0
    } else {
        dec_value(s.drop_last()) * 10 + digit_val(s.last())
    }
}

/// Ten to the `n`th power.
pub open spec fn pow10(n: nat) -> nat
    decreases n,
{
    if n == 0 {
        1
    } else {
        10 * pow10((n - 1) as nat)
    }
}

/// `n` rendered as exactly `width` digits, zero-padded on the left.
/// Only the lowest `width` digits of `n` appear; callers keep `n`
/// below `pow10(width)` so that nothing is cut off.
pub open spec fn padded_digits(n: nat, width: nat) -> Seq<char>
    decreases width,
{
    if width == 0 {
        Seq::empty()
    } else {
        padded_digits(n / 10, (width - 1) as nat) + seq![char_of_digit(n % 10)]
    }
}

/// `n` rendered without padding: one digit for `n < 10`, otherwise the
/// rendering of `n / 10` followed by the last digit.
pub open spec fn dec_digits(n: nat) -> Seq<char>
    decreases n,
{
    if n < 10 {
        seq![char_of_digit(n)]
    } else {
        dec_digits(n / 10) + seq![char_of_digit(n % 10)]
    }
}

/// A signed number rendered the way `ER`/`OK`/`NK` report lines show it:
/// a minus sign for negatives, then the unpadded digits of the magnitude.
pub open spec fn dec_int_str(x: int) -> Seq<char> {
    if x < 0 {
        seq!['-'] + dec_digits((-x) as nat)
    } else {
        dec_digits(x as nat)
    }
}

/// Rendering a digit and reading it back is the identity.
pub proof fn lemma_digit_roundtrip(d: nat)
    requires
        d < 10,
    ensures
        is_dec_digit(char_of_digit(d)),
        digit_val(char_of_digit(d)) == d,
{
}

/// Reading a digit character and rendering it back is the identity.
pub proof fn lemma_char_roundtrip(c: char)
    requires
        is_dec_digit(c),
    ensures
        char_of_digit(digit_val(c)) == c,
{
}

/// A padded rendering has the requested width and holds only digits.
pub proof fn lemma_padded_digits_shape(n: nat, width: nat)
    ensures
        padded_digits(n, width).len() == width,
        all_dec_digits(padded_digits(n, width)),
    decreases width,
{
    if width > 0 {
        lemma_padded_digits_shape(n / 10, (width - 1) as nat);
        lemma_digit_roundtrip(n % 10);
        let s = padded_digits(n, width);
        let p = padded_digits(n / 10, (width - 1) as nat);
        assert forall|i: int| 0 <= i < s.len() implies is_dec_digit(#[trigger] s[i]) by {
            if i < p.len() {
                assert(s[i] == p[i]);
            }
        }
    }
}

/// A number below `pow10(width)` survives the round trip through its
/// zero-padded rendering.
pub proof fn lemma_padded_digits_value(n: nat, width: nat)
    requires
        n < pow10(width),
    ensures
        dec_value(padded_digits(n, width)) == n,
    decreases width,
{
    if width == 0 {
        assert(padded_digits(n, 0) =~= Seq::<char>::empty());
    } else {
        assert(n / 10 < pow10((width - 1) as nat)) by (nonlinear_arith)
            requires
                n < 10 * pow10((width - 1) as nat),
        ;
        lemma_padded_digits_value(n / 10, (width - 1) as nat);
        let p = padded_digits(n / 10, (width - 1) as nat);
        let s = padded_digits(n, width);
        assert(s.drop_last() =~= p);
        lemma_digit_roundtrip(n % 10);
        assert(dec_value(s) == (n / 10) * 10 + n % 10);
        assert((n / 10) * 10 + n % 10 == n) by (nonlinear_arith);
    }
}

/// A digit string of a given width denotes a number below `pow10` of that
/// width, and re-rendering that number gives the string back unchanged.
pub proof fn lemma_digits_roundtrip(s: Seq<char>)
    requires
        all_dec_digits(s),
    ensures
        dec_value(s) < pow10(s.len()),
        padded_digits(dec_value(s), s.len()) == s,
    decreases s.len(),
{
    if s.len() == 0 {
        assert(padded_digits(0, 0) =~= s);
    } else {
        let p = s.drop_last();
        assert(all_dec_digits(p)) by {
            assert forall|i: int| 0 <= i < p.len() implies is_dec_digit(#[trigger] p[i]) by {
                assert(p[i] == s[i]);
            }
        }
        lemma_digits_roundtrip(p);
        let v = dec_value(p);
        let d = digit_val(s.last());
        lemma_char_roundtrip(s.last());
        assert(v * 10 + d < 10 * pow10(p.len())) by (nonlinear_arith)
            requires
                v < pow10(p.len()),
                d < 10,
        ;
        assert((v * 10 + d) / 10 == v && (v * 10 + d) % 10 == d) by (nonlinear_arith)
            requires
                d < 10,
        ;
        assert(padded_digits(dec_value(s), s.len()) =~= s);
    }
}

/// The one-character string slice for a digit value.
pub fn digit_str(d: u32) -> (r: &'static str)
    requires
        d < 10,
    ensures
        r@ == seq![char_of_digit(d as nat)],
{
    proof {
        reveal_strlit("0");
        reveal_strlit("1");
        reveal_strlit("2");
        reveal_strlit("3");
        reveal_strlit("4");
        reveal_strlit("5");
        reveal_strlit("6");
        reveal_strlit("7");
        reveal_strlit("8");
        reveal_strlit("9");
    }
    let r: &'static str = if d == 0 {
        "0"
    } else if d == 1 {
        "1"
    } else if d == 2 {
        "2"
    } else if d == 3 {
        "3"
    } else if d == 4 {
        "4"
    } else if d == 5 {
        "5"
    } else if d == 6 {
        "6"
    } else if d == 7 {
        "7"
    } else if d == 8 {
        "8"
    } else {
        "9"
    };
    proof {
        assert(r@ =~= seq![char_of_digit(d as nat)]);
    }
    r
}

/// Renders `n` as exactly `width` zero-padded digits.
pub fn render_padded(n: u32, width: u32) -> (r: String)
    requires
        (n as nat) < pow10(width as nat),
    ensures
        r@ == padded_digits(n as nat, width as nat),
    decreases width,
{
    if width == 0 {
        let r = String::new();
        proof {
            assert(r@ =~= padded_digits(n as nat, 0));
        }
        r
    } else {
        proof {
            assert(n as nat / 10 < pow10((width - 1) as nat)) by (nonlinear_arith)
                requires
                    (n as nat) < 10 * pow10((width - 1) as nat),
            ;
        }
        let mut r = render_padded(n / 10, width - 1);
        r.append(digit_str(n % 10));
        r
    }
}

/// Renders `n` in the usual unpadded decimal form.
pub fn u32_dec_string(n: u32) -> (r: String)
    ensures
        r@ == dec_digits(n as nat),
    decreases n,
{
    if n < 10 {
        String::from_str(digit_str(n))
    } else {
        let mut r = u32_dec_string(n / 10);
        r.append(digit_str(n % 10));
        r
    }
}

/// Reads a short run of decimal digits as a number. Accepts one to nine
/// digits and nothing else, so the value always fits; longer runs and any
/// non-digit are rejected.
pub fn parse_dec_u32(s: &str) -> (r: Option<u32>)
    ensures
        match r {
            Some(v) => 1 <= s@.len() <= 9 && all_dec_digits(s@) && v as nat == dec_value(s@),
            None => !(1 <= s@.len() <= 9 && all_dec_digits(s@)),
        },
{
    let len = s.unicode_len();
    if len < 1 || len > 9 {
        return None;
    }
    let mut acc: u32 = 0;
    let mut i: usize = 0;
    proof {
        assert(s@.subrange(0, 0) =~= Seq::<char>::empty());
    }
    while i < len
        invariant
            0 <= i <= len,
            1 <= len <= 9,
            len as nat == s@.len(),
            forall|j: int| 0 <= j < i ==> is_dec_digit(#[trigger] s@[j]),
            acc as nat == dec_value(s@.subrange(0, i as int)),
            (acc as nat) < pow10(i as nat),
        decreases len - i,
    {
        let c = s.get_char(i);
        let u = c as u32;
        if u < 48 || u > 57 {
            return None;
        }
        let d = u - 48;
        proof {
            let pre = s@.subrange(0, i as int);
            let cur = s@.subrange(0, i + 1);
            assert(cur.drop_last() =~= pre);
            assert(cur.last() == s@[i as int]);
            assert((acc as nat) * 10 + (d as nat) < 10 * pow10(i as nat)) by (nonlinear_arith)
                requires
                    (acc as nat) < pow10(i as nat),
                    d < 10,
            ;
            reveal_with_fuel(pow10, 10);
            lemma_pow10_increases((i + 1) as nat, 9);
        }
        acc = acc * 10 + d;
        i = i + 1;
    }
    proof {
        assert(s@.subrange(0, len as int) =~= s@);
    }
    Some(acc)
}

/// `pow10` grows with its exponent.
pub proof fn lemma_pow10_increases(a: nat, b: nat)
    requires
        a <= b,
    ensures
        pow10(a) <= pow10(b),
    decreases b,
{
    if a < b {
        lemma_pow10_increases(a, (b - 1) as nat);
        assert(pow10((b - 1) as nat) <= 10 * pow10((b - 1) as nat)) by (nonlinear_arith)
            requires
                pow10((b - 1) as nat) >= 0,
        ;
    }
}

/// Renders a signed number: a minus sign for negatives, then the digits
/// of the magnitude.
pub fn i32_dec_string(x: i32) -> (r: String)
    ensures
        r@ == dec_int_str(x as int),
{
    if x >= 0 {
        u32_dec_string(x as u32)
    } else {
        let magnitude: u32 = (-(x as i64)) as u32;
        proof {
            reveal_strlit("-");
        }
        let mut r = String::from_str("-");
        let digits = u32_dec_string(magnitude);
        r.append(digits.as_str());
        proof {
            assert(r@ =~= dec_int_str(x as int));
        }
        r
    }
}

} // verus!
