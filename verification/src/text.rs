//! Rendering fixed-point scalars as decimal text.
//!
//! Curve command coordinates are written with exactly four decimal
//! digits; the move and line coordinates of the outer template are
//! written in the shortest form, with the fractional part trimmed of
//! trailing zeros and dropped entirely when it is zero. One fixed-point
//! unit is exactly one ten-thousandth, so both renderings are exact.

use vstd::prelude::*;
use vstd::string::StringExecFns;

verus! {

/// The decimal digit character for one digit value.
pub open spec fn digit_char(d: int) -> char {
    if d == 0 {
        '0'
    } else if d == 1 {
        '1'
    } else if d == 2 {
        '2'
    } else if d == 3 {
        '3'
    } else if d == 4 {
        '4'
    } else if d == 5 {
        '5'
    } else if d == 6 {
        '6'
    } else if d == 7 {
        '7'
    } else if d == 8 {
        '8'
    } else {
        '9'
    }
}

/// The decimal digits of a non-negative integer, most significant first.
pub open spec fn spec_digits(n: int) -> Seq<char>
    decreases n,
{
    if n < 10 {
        seq![digit_char(n)]
    } else {
        spec_digits(n / 10) + seq![digit_char(n % 10)]
    }
}

/// A fraction of ten-thousandths as exactly four digits, zero padded.
pub open spec fn spec_frac4(f: int) -> Seq<char> {
    if f < 10 {
        seq!['0', '0', '0'] + spec_digits(f)
    } else if f < 100 {
        seq!['0', '0'] + spec_digits(f)
    } else if f < 1000 {
        seq!['0'] + spec_digits(f)
    } else {
        spec_digits(f)
    }
}

/// A value in hundredths as exactly two digits, zero padded.
pub open spec fn spec_pad2(f: int) -> Seq<char> {
    if f < 10 {
        seq!['0'] + spec_digits(f)
    } else {
        spec_digits(f)
    }
}

/// A value in thousandths as exactly three digits, zero padded.
pub open spec fn spec_pad3(f: int) -> Seq<char> {
    if f < 10 {
        seq!['0', '0'] + spec_digits(f)
    } else if f < 100 {
        seq!['0'] + spec_digits(f)
    } else {
        spec_digits(f)
    }
}

/// A scalar with exactly four decimal digits, a leading minus for
/// negative values.
pub open spec fn spec_fixed4(v: int) -> Seq<char> {
    let m = if v < 0 {
        -v
    } else {
        v
    };
    let sign: Seq<char> = if v < 0 {
        seq!['-']
    } else {
        Seq::empty()
    };
    sign + spec_digits(m / 10000) + seq!['.'] + spec_frac4(m % 10000)
}

/// A non-negative scalar in shortest form: no decimal point when the
/// fraction is zero, otherwise the fraction with trailing zeros trimmed.
pub open spec fn spec_coord(v: int) -> Seq<char> {
    let ip = v / 10000;
    let f = v % 10000;
    if f == 0 {
        spec_digits(ip)
    } else if f % 1000 == 0 {
        spec_digits(ip) + seq!['.'] + spec_digits(f / 1000)
    } else if f % 100 == 0 {
        spec_digits(ip) + seq!['.'] + spec_pad2(f / 100)
    } else if f % 10 == 0 {
        spec_digits(ip) + seq!['.'] + spec_pad3(f / 10)
    } else {
        spec_digits(ip) + seq!['.'] + spec_frac4(f)
    }
}

/// Appends one decimal digit.
fn append_digit(s: &mut String, d: u64)
    requires
        d < 10,
    ensures
        final(s)@ == old(s)@ + seq![digit_char(d as int)],
{
    let t: &str = match d {
        0 => "0",
        1 => "1",
        2 => "2",
        3 => "3",
        4 => "4",
        5 => "5",
        6 => "6",
        7 => "7",
        8 => "8",
        _ => "9",
    };
    proof {
        reveal_strlit("0");
        reveal_strlit("1");
        reveal_strlit("2");
        reveal_strlit("3");
        reveal_strlit("4");
        reveal_strlit("5");
        reveal_strlit("6");
        reveal_strlit("7");
        reveal_strlit("8");
        reveal_strlit("9");
        assert(t@ =~= seq![digit_char(d as int)]);
    }
    s.append(t);
}

/// Appends the decimal digits of a non-negative integer.
pub fn append_uint(s: &mut String, n: u64)
    ensures
        final(s)@ == old(s)@ + spec_digits(n as int),
    decreases n,
{
    if n < 10 {
        append_digit(s, n);
    } else {
        append_uint(s, n / 10);
        append_digit(s, n % 10);
        proof {
            assert(s@ =~= old(s)@ + spec_digits(n as int));
        }
    }
}

/// Appends a scalar with exactly four decimal digits.
pub fn append_fixed4(s: &mut String, v: i64)
    requires
        -0x7fff_ffff_ffff_ffff <= v,
    ensures
        final(s)@ == old(s)@ + spec_fixed4(v as int),
{
    let m: u64 = if v < 0 {
        s.append("-");
        proof {
            reveal_strlit("-");
        }
        (-v) as u64
    } else {
        v as u64
    };
    append_uint(s, m / 10000);
    s.append(".");
    proof {
        reveal_strlit(".");
        assert("."@ =~= seq!['.']);
    }
    let f: u64 = m % 10000;
    if f < 10 {
        s.append("000");
        proof {
            reveal_strlit("000");
            assert("000"@ =~= seq!['0', '0', '0']);
        }
    } else if f < 100 {
        s.append("00");
        proof {
            reveal_strlit("00");
            assert("00"@ =~= seq!['0', '0']);
        }
    } else if f < 1000 {
        s.append("0");
        proof {
            reveal_strlit("0");
            assert("0"@ =~= seq!['0']);
        }
    }
    append_uint(s, f);
    proof {
        if v < 0 {
            assert("-"@ =~= seq!['-']);
        }
        assert(s@ =~= old(s)@ + spec_fixed4(v as int));
    }
}

/// Appends a non-negative scalar in shortest form.
pub fn append_coord(s: &mut String, v: i64)
    requires
        0 <= v,
    ensures
        final(s)@ == old(s)@ + spec_coord(v as int),
{
    let m: u64 = v as u64;
    append_uint(s, m / 10000);
    let f: u64 = m % 10000;
    if f == 0 {
        return;
    }
    s.append(".");
    proof {
        reveal_strlit(".");
        assert("."@ =~= seq!['.']);
    }
    if f % 1000 == 0 {
        append_uint(s, f / 1000);
    } else if f % 100 == 0 {
        let r: u64 = f / 100;
        if r < 10 {
            s.append("0");
            proof {
                reveal_strlit("0");
                assert("0"@ =~= seq!['0']);
            }
        }
        append_uint(s, r);
    } else if f % 10 == 0 {
        let r: u64 = f / 10;
        if r < 10 {
            s.append("00");
            proof {
                reveal_strlit("00");
                assert("00"@ =~= seq!['0', '0']);
            }
        } else if r < 100 {
            s.append("0");
            proof {
                reveal_strlit("0");
                assert("0"@ =~= seq!['0']);
            }
        }
        append_uint(s, r);
    } else {
        if f < 10 {
            s.append("000");
            proof {
                reveal_strlit("000");
                assert("000"@ =~= seq!['0', '0', '0']);
            }
        } else if f < 100 {
            s.append("00");
            proof {
                reveal_strlit("00");
                assert("00"@ =~= seq!['0', '0']);
            }
        } else if f < 1000 {
            s.append("0");
            proof {
                reveal_strlit("0");
                assert("0"@ =~= seq!['0']);
            }
        }
        append_uint(s, f);
    }
    proof {
        assert(s@ =~= old(s)@ + spec_coord(v as int));
    }
}

} // verus!
