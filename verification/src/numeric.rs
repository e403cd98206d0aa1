//! Decimal renderings of machine quantities: an unsigned count, an uptime
//! in seconds, and a memory size in gibibytes with two decimal places.

use vstd::prelude::*;

verus! {

/// The decimal digit character for a value below ten.
pub open spec fn spec_digit(d: int) -> char {
    if d == 0 {
        '0'
    } else if d == 1 {
        '1'
    } else if d == 2 {
        '2'
    } else if d == 3 {
        '3'
    } else if d == 4 {
        '4'
    } else if d == 5 {
        '5'
    } else if d == 6 {
        '6'
    } else if d == 7 {
        '7'
    } else if d == 8 {
        '8'
    } else {
        '9'
    }
}

/// The usual decimal rendering of a number, most significant digit first,
/// with no leading zeros (zero itself rendered as one digit).
pub open spec fn spec_decimal(n: nat) -> Seq<char>
    decreases n,
{
    if n < 10 {
        seq![spec_digit(n as int)]
    } else {
        spec_decimal(n / 10) + seq![spec_digit((n % 10) as int)]
    }
}

fn digit_str(d: u64) -> (r: &'static str)
    requires
        d < 10,
    ensures
        r@ == seq![spec_digit(d as int)],
{
    if d == 0 {
        proof {
            reveal_strlit("0");
            assert("0"@ =~= seq!['0']);
        }
        "0"
    } else if d == 1 {
        proof {
            reveal_strlit("1");
            assert("1"@ =~= seq!['1']);
        }
        "1"
    } else if d == 2 {
        proof {
            reveal_strlit("2");
            assert("2"@ =~= seq!['2']);
        }
        "2"
    } else if d == 3 {
        proof {
            reveal_strlit("3");
            assert("3"@ =~= seq!['3']);
        }
        "3"
    } else if d == 4 {
        proof {
            reveal_strlit("4");
            assert("4"@ =~= seq!['4']);
        }
        "4"
    } else if d == 5 {
        proof {
            reveal_strlit("5");
            assert("5"@ =~= seq!['5']);
        }
        "5"
    } else if d == 6 {
        proof {
            reveal_strlit("6");
            assert("6"@ =~= seq!['6']);
        }
        "6"
    } else if d == 7 {
        proof {
            reveal_strlit("7");
            assert("7"@ =~= seq!['7']);
        }
        "7"
    } else if d == 8 {
        proof {
            reveal_strlit("8");
            assert("8"@ =~= seq!['8']);
        }
        "8"
    } else {
        proof {
            reveal_strlit("9");
            assert("9"@ =~= seq!['9']);
        }
        "9"
    }
}

/// Render a number in decimal.
pub fn decimal_string(n: u64) -> (r: String)
    ensures
        r@ == spec_decimal(n as nat),
    decreases n,
{
    if n < 10 {
        String::from_str(digit_str(n))
    } else {
        let mut s = decimal_string(n / 10);
        s.append(digit_str(n % 10));
        s
    }
}

/// An uptime, rendered as the seconds in decimal followed by the unit.
pub open spec fn spec_uptime_text(secs: nat) -> Seq<char> {
    spec_decimal(secs) + " seconds"@
}

/// Render an uptime given in seconds.
pub fn uptime_text(secs: u64) -> (r: String)
    ensures
        r@ == spec_uptime_text(secs as nat),
{
    let mut s = decimal_string(secs);
    s.append(" seconds");
    s
}

/// A byte count as hundredths of a gibibyte, rounded to nearest.
pub open spec fn spec_gib_hundredths(bytes: nat) -> nat {
    (bytes * 100 + 536870912) / 1073741824
}

/// Convert a byte count to rounded hundredths of a gibibyte.
pub fn gib_hundredths(bytes: u64) -> (r: u64)
    ensures
        r as nat == spec_gib_hundredths(bytes as nat),
{
    let v: u128 = (bytes as u128) * 100 + 536870912;
    let h: u128 = v / 1073741824;
    proof {
        assert(h <= u64::MAX as u128);
    }
    h as u64
}

/// A memory size in hundredths of a gibibyte, rendered with two decimal
/// places and the unit.
pub open spec fn spec_memory_text(hundredths: nat) -> Seq<char> {
    spec_decimal(hundredths / 100) + "."@ + seq![
        spec_digit(((hundredths / 10) % 10) as int),
        spec_digit((hundredths % 10) as int),
    ] + " GB"@
}

/// Render a memory size given in hundredths of a gibibyte.
pub fn memory_text(hundredths: u64) -> (r: String)
    ensures
        r@ == spec_memory_text(hundredths as nat),
{
    let mut s = decimal_string(hundredths / 100);
    s.append(".");
    s.append(digit_str((hundredths / 10) % 10));
    s.append(digit_str(hundredths % 10));
    s.append(" GB");
    proof {
        assert(s@ =~= spec_memory_text(hundredths as nat));
    }
    s
}

} // verus!
