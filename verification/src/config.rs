//! Deriving the chat endpoint URL from the configured host text: the port
//! is the host's last colon-separated segment where that segment parses as
//! a number, and a fixed default otherwise.

use vstd::prelude::*;
use vstd::string::StrSliceExecFns;

use crate::numeric::decimal_string;
use crate::numeric::spec_decimal;

verus! {

/// The port used when the host text carries no usable one.
pub const DEFAULT_PORT: u32 = 11434;

/// Whether the character is a decimal digit.
pub open spec fn spec_is_digit(c: char) -> bool {
    48 <= c as int <= 57
}

/// The numeric value of a digit character.
pub open spec fn spec_digit_val(c: char) -> int {
    c as int - 48
}

/// The value of a digit string, most significant digit first.
pub open spec fn spec_digits_val(s: Seq<char>) -> int
    decreases s.len(),
{
    if s.len() == 0 {
        0
    } else {
        spec_digits_val(s.drop_last()) * 10 + spec_digit_val(s.last())
    }
}

/// Whether every character of the string is a decimal digit.
pub open spec fn spec_all_digits(s: Seq<char>) -> bool {
    forall|i: int| 0 <= i < s.len() ==> spec_is_digit(s[i])
}

/// The text with one leading plus sign, if any, stripped.
pub open spec fn spec_unsigned_body(s: Seq<char>) -> Seq<char> {
    if s.len() > 0 && s[0] == '+' {
        s.drop_first()
    } else {
        s
    }
}

/// The number the text denotes, as the standard library's number parsing
/// reads it: an optional leading plus sign, then at least one digit and
/// nothing else, with a value that fits.
pub open spec fn spec_parse_u32(s: Seq<char>) -> Option<u32> {
    let body = spec_unsigned_body(s);
    if body.len() > 0 && spec_all_digits(body) && spec_digits_val(body) <= u32::MAX {
        Some(spec_digits_val(body) as u32)
    } else {
        None
    }
}

/// Parse the text as a number, as the standard library's parsing would.
pub fn parse_u32(s: &str) -> (r: Option<u32>)
    ensures
        r == spec_parse_u32(s@),
{
    let n = s.unicode_len();
    let start: usize = if n > 0 && s.get_char(0) == '+' {
        1
    } else {
        0
    };
    let ghost body = spec_unsigned_body(s@);
    proof {
        assert(body.len() == n - start);
        assert(forall|k: int| 0 <= k < body.len() ==> body[k] == s@[k + start]);
    }
    if start >= n {
        return None;
    }
    let mut acc: u64 = 0;
    let mut overflow = false;
    let mut i: usize = start;
    proof {
        assert(body.take(0) =~= Seq::<char>::empty());
    }
    while i < n
        invariant
            start <= i <= n,
            n == s@.len(),
            body == spec_unsigned_body(s@),
            body.len() == n - start,
            forall|k: int| 0 <= k < body.len() ==> body[k] == s@[k + start],
            spec_all_digits(body.take(i - start)),
            !overflow ==> acc == spec_digits_val(body.take(i - start)) && acc <= u32::MAX,
            overflow ==> spec_digits_val(body.take(i - start)) > u32::MAX,
        decreases n - i,
    {
        let c = s.get_char(i);
        let d = c as u32;
        proof {
            assert(body[i - start] == s@[i as int]);
        }
        if d < 48 || d > 57 {
            proof {
                assert(c as int == d as int);
                assert(!spec_is_digit(body[i - start]));
                assert(!spec_all_digits(body));
            }
            return None;
        }
        let ghost prefix = body.take(i - start);
        let ghost next_prefix = body.take(i + 1 - start);
        proof {
            assert(next_prefix.drop_last() =~= prefix);
            assert(next_prefix.last() == body[i - start]);
            assert(spec_digits_val(next_prefix) == spec_digits_val(prefix) * 10 + spec_digit_val(
                c,
            ));
            assert(spec_all_digits(next_prefix)) by {
                assert(forall|k: int|
                    0 <= k < next_prefix.len() - 1 ==> next_prefix[k] == prefix[k]);
            }
        }
        if overflow {
            proof {
                assert(spec_digits_val(prefix) > u32::MAX);
                assert(spec_digits_val(next_prefix) > u32::MAX);
            }
        } else {
            let widened: u64 = acc * 10 + (d - 48) as u64;
            if widened > 4294967295 {
                overflow = true;
                acc = 0;
            } else {
                acc = widened;
            }
        }
        i += 1;
    }
    proof {
        assert(body.take(n - start) =~= body);
    }
    if overflow {
        None
    } else {
        Some(acc as u32)
    }
}

/// The index of the last colon in the text, if any.
pub open spec fn spec_last_colon(s: Seq<char>) -> Option<int>
    decreases s.len(),
{
    if s.len() == 0 {
        None
    } else if s.last() == ':' {
        Some(s.len() - 1)
    } else {
        spec_last_colon(s.drop_last())
    }
}

/// The host text's last colon-separated segment: what follows the last
/// colon, or the whole text where there is none.
pub open spec fn spec_last_segment(s: Seq<char>) -> Seq<char> {
    match spec_last_colon(s) {
        Some(k) => s.skip(k + 1),
        None => s,
    }
}

/// The port the host text carries: its last segment as a number, or the
/// default where that segment is no number.
pub open spec fn spec_port_of(host: Seq<char>) -> u32 {
    match spec_parse_u32(spec_last_segment(host)) {
        Some(p) => p,
        None => DEFAULT_PORT,
    }
}

/// The chat endpoint URL: the scheme, the host text as given, a colon and
/// the derived port in decimal.
pub open spec fn spec_ollama_url(host: Seq<char>) -> Seq<char> {
    "http://"@ + host + ":"@ + spec_decimal(spec_port_of(host) as nat)
}

fn last_colon(s: &str) -> (r: Option<usize>)
    ensures
        match r {
            Some(k) => spec_last_colon(s@) == Some(k as int),
            None => spec_last_colon(s@) is None,
        },
{
    let n = s.unicode_len();
    let mut i: usize = n;
    proof {
        assert(s@.take(n as int) =~= s@);
    }
    while i > 0
        invariant
            i <= n,
            n == s@.len(),
            spec_last_colon(s@) == spec_last_colon(s@.take(i as int)),
        decreases i,
    {
        proof {
            assert(s@.take(i as int).last() == s@[i - 1]);
            assert(s@.take(i as int).drop_last() =~= s@.take(i - 1));
        }
        if s.get_char(i - 1) == ':' {
            return Some(i - 1);
        }
        i -= 1;
    }
    proof {
        assert(s@.take(0) =~= Seq::<char>::empty());
    }
    None
}

/// Derive the chat endpoint URL from the configured host text.
pub fn ollama_url(host: &str) -> (r: String)
    ensures
        r@ == spec_ollama_url(host@),
{
    let n = host.unicode_len();
    let segment: &str = match last_colon(host) {
        Some(k) => {
            proof {
                lemma_last_colon_in_range(host@);
            }
            host.substring_char(k + 1, n)
        },
        None => host,
    };
    proof {
        assert(segment@ == spec_last_segment(host@));
    }
    let port: u32 = match parse_u32(segment) {
        Some(p) => p,
        None => DEFAULT_PORT,
    };
    let mut url = String::new();
    url.append("http://");
    url.append(host);
    url.append(":");
    let port_text = decimal_string(port as u64);
    url.append(port_text.as_str());
    proof {
        assert(url@ =~= spec_ollama_url(host@));
    }
    url
}

proof fn lemma_last_colon_in_range(s: Seq<char>)
    ensures
        match spec_last_colon(s) {
            Some(k) => 0 <= k < s.len() && s[k] == ':',
            None => true,
        },
    decreases s.len(),
{
    if s.len() > 0 && s.last() != ':' {
        lemma_last_colon_in_range(s.drop_last());
    }
}

} // verus!
