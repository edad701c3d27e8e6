//! Decimal rendering of unsigned integers, zero-padding, and the
//! human-readable file-size formatter.

use vstd::prelude::*;

verus! {

/// The character for a single decimal digit.
pub open spec fn spec_digit(d: nat) -> char {
    if d == 0 {
        '0'
    } else if d == 1 {
        '1'
    } else if d == 2 {
        '2'
    } else if d == 3 {
        '3'
    } else if d == 4 {
        '4'
    } else if d == 5 {
        '5'
    } else if d == 6 {
        '6'
    } else if d == 7 {
        '7'
    } else if d == 8 {
        '8'
    } else {
        '9'
    }
}

/// The decimal representation of `n`, most significant digit first,
/// without leading zeros (a single `'0'` for zero).
pub open spec fn spec_udec(n: nat) -> Seq<char>
    decreases n,
{
    if n < 10 {
        seq![spec_digit(n)]
    } else {
        spec_udec(n / 10).push(spec_digit(n % 10))
    }
}

/// A one-character string slice holding the digit `d`.
fn digit_str(d: u64) -> (r: &'static str)
    requires
        d < 10,
    ensures
        r@ == seq![spec_digit(d as nat)],
{
    let r: &'static str = if d == 0 {
        "0"
    } else if d == 1 {
        "1"
    } else if d == 2 {
        "2"
    } else if d == 3 {
        "3"
    } else if d == 4 {
        "4"
    } else if d == 5 {
        "5"
    } else if d == 6 {
        "6"
    } else if d == 7 {
        "7"
    } else if d == 8 {
        "8"
    } else {
        "9"
    };
    proof {
        reveal_strlit("0");
        reveal_strlit("1");
        reveal_strlit("2");
        reveal_strlit("3");
        reveal_strlit("4");
        reveal_strlit("5");
        reveal_strlit("6");
        reveal_strlit("7");
        reveal_strlit("8");
        reveal_strlit("9");
        assert(r@ =~= seq![spec_digit(d as nat)]);
    }
    r
}

/// Renders `n` in decimal.
pub fn u64_to_string(n: u64) -> (r: String)
    ensures
        r@ == spec_udec(n as nat),
    decreases n,
{
    if n < 10 {
        let r = digit_str(n).to_owned();
        proof {
            assert(r@ =~= spec_udec(n as nat));
        }
        r
    } else {
        let mut s = u64_to_string(n / 10);
        s.append(digit_str(n % 10));
        proof {
            assert(s@ =~= spec_udec(n as nat));
        }
        s
    }
}

/// The decimal representation of `n`, zero-filled on the left to a minimum
/// width of four characters.
pub open spec fn spec_pad4(n: nat) -> Seq<char> {
    if n < 10 {
        seq!['0', '0', '0'] + spec_udec(n)
    } else if n < 100 {
        seq!['0', '0'] + spec_udec(n)
    } else if n < 1000 {
        seq!['0'] + spec_udec(n)
    } else {
        spec_udec(n)
    }
}

/// Renders `n` in decimal, zero-filled to at least four characters.
pub fn pad4_u64(n: u64) -> (r: String)
    ensures
        r@ == spec_pad4(n as nat),
{
    let mut s: String = if n < 10 {
        "000".to_owned()
    } else if n < 100 {
        "00".to_owned()
    } else if n < 1000 {
        "0".to_owned()
    } else {
        "".to_owned()
    };
    let digits = u64_to_string(n);
    s.append(digits.as_str());
    proof {
        reveal_strlit("000");
        reveal_strlit("00");
        reveal_strlit("0");
        reveal_strlit("");
        assert(s@ =~= spec_pad4(n as nat));
    }
    s
}

/// The size-unit bracket of a byte count: bytes, kibibytes, mebibytes or
/// gibibytes, the largest whose threshold the count reaches.
pub open spec fn spec_size_unit(bytes: nat) -> nat {
    if bytes < 1024 {
        0
    } else if bytes < 1048576 {
        1
    } else if bytes < 1073741824 {
        2
    } else {
        3
    }
}

/// The divisor that scales a byte count into unit bracket `k`.
pub open spec fn spec_unit_divisor(k: nat) -> nat {
    if k == 0 {
        1
    } else if k == 1 {
        1024
    } else if k == 2 {
        1048576
    } else {
        1073741824
    }
}

/// The printed name of unit bracket `k`.
pub open spec fn spec_unit_name(k: nat) -> Seq<char> {
    if k == 0 {
        seq![' ', 'B']
    } else if k == 1 {
        seq![' ', 'K', 'B']
    } else if k == 2 {
        seq![' ', 'M', 'B']
    } else {
        seq![' ', 'G', 'B']
    }
}

/// `n / d` rounded to the nearest integer, ties to the even neighbour.
pub open spec fn spec_round_half_even(n: nat, d: nat) -> nat
    recommends
        d > 0,
{
    let q = n / d;
    let r = n % d;
    if 2 * r > d {
        q + 1
    } else if 2 * r == d && q % 2 == 1 {
        q + 1
    } else {
        q
    }
}

/// The scaled byte count in tenths of its unit, rounded half to even.
pub open spec fn spec_size_tenths(bytes: nat) -> nat {
    spec_round_half_even(bytes * 10, spec_unit_divisor(spec_size_unit(bytes)))
}

/// The human-readable rendering of a byte count: the count scaled into its
/// unit bracket with one decimal digit, a space, and the unit name.
pub open spec fn spec_file_size(bytes: nat) -> Seq<char> {
    let t = spec_size_tenths(bytes);
    spec_udec(t / 10) + seq!['.', spec_digit(t % 10)] + spec_unit_name(spec_size_unit(bytes))
}

/// The printed unit name for bracket `k`, preceded by a space.
fn unit_str(k: u32) -> (r: &'static str)
    requires
        k < 4,
    ensures
        r@ == spec_unit_name(k as nat),
{
    let r: &'static str = if k == 0 {
        " B"
    } else if k == 1 {
        " KB"
    } else if k == 2 {
        " MB"
    } else {
        " GB"
    };
    proof {
        reveal_strlit(" B");
        reveal_strlit(" KB");
        reveal_strlit(" MB");
        reveal_strlit(" GB");
        assert(r@ =~= spec_unit_name(k as nat));
    }
    r
}

/// Renders a byte count in human-readable form: scaled into the largest unit
/// among B, KB, MB and GB that it reaches, with one decimal digit.
pub fn format_file_size(bytes: u64) -> (r: String)
    ensures
        r@ == spec_file_size(bytes as nat),
{
    let k: u32 = if bytes < 1024 {
        0
    } else if bytes < 1048576 {
        1
    } else if bytes < 1073741824 {
        2
    } else {
        3
    };
    let d: u128 = if k == 0 {
        1
    } else if k == 1 {
        1024
    } else if k == 2 {
        1048576
    } else {
        1073741824
    };
    let n: u128 = (bytes as u128) * 10;
    let q0: u128 = n / d;
    let rem: u128 = n % d;
    let q: u128 = if 2 * rem > d {
        q0 + 1
    } else if 2 * rem == d && q0 % 2 == 1 {
        q0 + 1
    } else {
        q0
    };
    proof {
        assert(q0 * d + rem == n) by (nonlinear_arith)
            requires
                d > 0,
                q0 == n / d,
                rem == n % d,
        {
        }
        assert(q0 <= n) by (nonlinear_arith)
            requires
                d >= 1,
                q0 * d + rem == n,
                rem >= 0,
                q0 >= 0,
        {
        }
        if k >= 1 {
            assert(q0 * 1024 <= n) by (nonlinear_arith)
                requires
                    d >= 1024,
                    q0 * d + rem == n,
                    rem >= 0,
                    q0 >= 0,
            {
            }
        }
        assert(q <= u64::MAX as u128);
        assert(q == spec_size_tenths(bytes as nat));
    }
    let q64: u64 = q as u64;
    let mut s = u64_to_string(q64 / 10);
    s.append(digit_dot(q64 % 10));
    s.append(unit_str(k));
    proof {
        assert(s@ =~= spec_file_size(bytes as nat));
    }
    s
}

/// A two-character string slice: a decimal point, then the digit `d`.
fn digit_dot(d: u64) -> (r: &'static str)
    requires
        d < 10,
    ensures
        r@ == seq!['.', spec_digit(d as nat)],
{
    let r: &'static str = if d == 0 {
        ".0"
    } else if d == 1 {
        ".1"
    } else if d == 2 {
        ".2"
    } else if d == 3 {
        ".3"
    } else if d == 4 {
        ".4"
    } else if d == 5 {
        ".5"
    } else if d == 6 {
        ".6"
    } else if d == 7 {
        ".7"
    } else if d == 8 {
        ".8"
    } else {
        ".9"
    };
    proof {
        reveal_strlit(".0");
        reveal_strlit(".1");
        reveal_strlit(".2");
        reveal_strlit(".3");
        reveal_strlit(".4");
        reveal_strlit(".5");
        reveal_strlit(".6");
        reveal_strlit(".7");
        reveal_strlit(".8");
        reveal_strlit(".9");
        assert(r@ =~= seq!['.', spec_digit(d as nat)]);
    }
    r
}

} // verus!
