//! Canonical string forms of the scalar values that appear in query strings:
//! base-10 integers and `true`/`false` booleans.

use vstd::prelude::*;

verus! {

/// The character for a single decimal digit.
pub open spec fn digit_char(d: nat) -> char {
    if d == 0 {
        '0'
    } else if d == 1 {
        '1'
    } else if d == 2 {
        '2'
    } else if d == 3 {
        '3'
    } else if d == 4 {
        '4'
    } else if d == 5 {
        '5'
    } else if d == 6 {
        '6'
    } else if d == 7 {
        '7'
    } else if d == 8 {
        '8'
    } else {
        '9'
    }
}

/// Base-10 rendering of a natural number, most significant digit first,
/// with no leading zeros (`0` itself renders as `"0"`).
pub open spec fn dec_digits(n: nat) -> Seq<char>
    decreases n,
{
    if n < 10 {
        seq![digit_char(n)]
    } else {
        dec_digits(n / 10).push(digit_char(n % 10))
    }
}

/// Base-10 rendering of an integer: a leading `-` for negative values.
pub open spec fn dec_int(n: int) -> Seq<char> {
    if n < 0 {
        seq!['-'] + dec_digits((-n) as nat)
    } else {
        dec_digits(n as nat)
    }
}

/// The canonical rendering of a boolean: `"true"` or `"false"`.
pub open spec fn bool_chars(b: bool) -> Seq<char> {
    if b {
        "true"@
    } else {
        "false"@
    }
}

/// The characters of a digit sequence read in reverse (least significant
/// digit stored first).
pub open spec fn rev_digit_chars(s: Seq<u8>) -> Seq<char> {
    Seq::new(s.len(), |k: int| digit_char(s[s.len() - 1 - k] as nat))
}

fn digit_str(d: u64) -> (r: &'static str)
    requires
        d < 10,
    ensures
        r@ =~= seq![digit_char(d as nat)],
{
    proof {
        reveal_strlit("0");
        reveal_strlit("1");
        reveal_strlit("2");
        reveal_strlit("3");
        reveal_strlit("4");
        reveal_strlit("5");
        reveal_strlit("6");
        reveal_strlit("7");
        reveal_strlit("8");
        reveal_strlit("9");
    }
    if d == 0 {
        "0"
    } else if d == 1 {
        "1"
    } else if d == 2 {
        "2"
    } else if d == 3 {
        "3"
    } else if d == 4 {
        "4"
    } else if d == 5 {
        "5"
    } else if d == 6 {
        "6"
    } else if d == 7 {
        "7"
    } else if d == 8 {
        "8"
    } else {
        "9"
    }
}

/// Render an unsigned integer in base 10.
pub fn u64_to_string(n: u64) -> (r: String)
    ensures
        r@ == dec_digits(n as nat),
{
    let mut digits: Vec<u8> = Vec::new();
    let mut m: u64 = n;
    while m >= 10
        invariant
            dec_digits(n as nat) == dec_digits(m as nat) + rev_digit_chars(digits@),
            forall|k: int| 0 <= k < digits@.len() ==> digits@[k] < 10,
        decreases m,
    {
        let ghost prev = digits@;
        digits.push((m % 10) as u8);
        proof {
            assert(rev_digit_chars(digits@) =~= seq![digit_char((m % 10) as nat)]
                + rev_digit_chars(prev));
            assert(dec_digits(m as nat) == dec_digits((m / 10) as nat).push(
                digit_char((m % 10) as nat),
            ));
            assert(dec_digits((m / 10) as nat) + rev_digit_chars(digits@) =~= dec_digits(m as nat)
                + rev_digit_chars(prev));
        }
        m = m / 10;
    }
    let ghost prev = digits@;
    digits.push(m as u8);
    proof {
        assert(rev_digit_chars(digits@) =~= seq![digit_char(m as nat)] + rev_digit_chars(prev));
        assert(rev_digit_chars(digits@) =~= dec_digits(n as nat));
    }
    let mut r = String::new();
    let mut i: usize = digits.len();
    while i > 0
        invariant
            i <= digits@.len(),
            rev_digit_chars(digits@) == dec_digits(n as nat),
            forall|k: int| 0 <= k < digits@.len() ==> digits@[k] < 10,
            r@ == dec_digits(n as nat).take(digits@.len() - i),
        decreases i,
    {
        i = i - 1;
        let d = digits[i];
        r.append(digit_str(d as u64));
        proof {
            assert(dec_digits(n as nat)[digits@.len() - 1 - i] == digit_char(digits@[i as int] as nat));
            assert(r@ =~= dec_digits(n as nat).take(digits@.len() - i));
        }
    }
    proof {
        assert(dec_digits(n as nat).take(digits@.len() as int) =~= dec_digits(n as nat));
    }
    r
}

/// Render a signed integer in base 10.
pub fn i64_to_string(n: i64) -> (r: String)
    ensures
        r@ == dec_int(n as int),
{
    if n >= 0 {
        let r = u64_to_string(n as u64);
        r
    } else {
        let mag: u64 = ((-(n + 1)) as u64) + 1;
        let mut r = String::new();
        r.append("-");
        r.append(u64_to_string(mag).as_str());
        proof {
            reveal_strlit("-");
            assert(r@ =~= dec_int(n as int));
        }
        r
    }
}

/// Base-10 rendering of `n` left-padded with zeros to at least `width`
/// characters.
pub open spec fn padded_digits(n: nat, width: nat) -> Seq<char> {
    if dec_digits(n).len() >= width {
        dec_digits(n)
    } else {
        Seq::new((width - dec_digits(n).len()) as nat, |i: int| '0') + dec_digits(n)
    }
}

/// Render an unsigned integer in base 10, left-padded with zeros to at
/// least `width` characters.
pub fn u64_to_padded_string(n: u64, width: usize) -> (r: String)
    ensures
        r@ == padded_digits(n as nat, width as nat),
{
    let digits = u64_to_string(n);
    let len = digits.as_str().unicode_len();
    let mut r = String::new();
    let mut k: usize = len;
    proof {
        reveal_strlit("0");
    }
    while k < width
        invariant
            len <= k,
            k <= width || k == len,
            len == dec_digits(n as nat).len(),
            "0"@ =~= seq!['0'],
            r@ =~= Seq::new((k - len) as nat, |i: int| '0'),
        decreases width - k,
    {
        r.append("0");
        k = k + 1;
        proof {
            assert(r@ =~= Seq::new((k - len) as nat, |i: int| '0'));
        }
    }
    r.append(digits.as_str());
    proof {
        assert(r@ =~= padded_digits(n as nat, width as nat));
    }
    r
}

/// Render a boolean as `"true"` or `"false"`.
pub fn bool_to_string(b: bool) -> (r: String)
    ensures
        r@ == bool_chars(b),
{
    if b {
        String::from_str("true")
    } else {
        String::from_str("false")
    }
}

} // verus!
