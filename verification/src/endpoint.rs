//! Bearer endpoints: where a peer finds its rendezvous nodes, and the
//! `host:port` form in which they are configured.

use vstd::prelude::*;

use crate::codec::copy_range;
use crate::error::Error;

verus! {

/// One configured bearer: a host (name or address, as given) and a port.
#[derive(Clone, Debug, PartialEq, Eq)]
pub struct BearerEndpoint {
    pub host: Vec<u8>,
    pub port: u16,
}

/// The colon byte that separates host from port.
pub const COLON: u8 = 0x3a;

/// Index of the last colon in the bytes, or -1 when there is none.
pub open spec fn spec_last_colon(s: Seq<u8>) -> int
    decreases s.len(),
{
    if s.len() == 0 {
        -1
    } else if s.last() == COLON {
        s.len() - 1
    } else {
        spec_last_colon(s.drop_last())
    }
}

pub open spec fn spec_is_digit(b: u8) -> bool {
    0x30 <= b <= 0x39
}

pub open spec fn spec_all_digits(s: Seq<u8>) -> bool {
    forall|i: int| 0 <= i < s.len() ==> spec_is_digit(#[trigger] s[i])
}

/// The number a string of decimal digits denotes.
pub open spec fn spec_digits_value(s: Seq<u8>) -> int
    decreases s.len(),
{
    if s.len() == 0 {
        0
    } else {
        spec_digits_value(s.drop_last()) * 10 + (s.last() - 0x30)
    }
}

/// What a `host:port` endpoint string denotes: everything before the last
/// colon is the host (it must be non-empty), everything after it the port
/// (one to five decimal digits, value at most 65535). Anything else —
/// no colon, an empty host, an empty or non-numeric or out-of-range
/// port — is rejected.
pub open spec fn spec_parse_endpoint(s: Seq<u8>) -> Option<(Seq<u8>, u16)> {
    let c = spec_last_colon(s);
    if c < 1 {
        None
    } else {
        let digits = s.subrange(c + 1, s.len() as int);
        if 1 <= digits.len() <= 5 && spec_all_digits(digits) && spec_digits_value(digits) <= 65535 {
            Some((s.subrange(0, c), spec_digits_value(digits) as u16))
        } else {
            None
        }
    }
}

/// A digit string denotes a non-negative number.
proof fn lemma_digits_value_nonneg(s: Seq<u8>)
    requires
        spec_all_digits(s),
    ensures
        spec_digits_value(s) >= 0,
    decreases s.len(),
{
    if s.len() > 0 {
        lemma_digits_value_nonneg(s.drop_last());
    }
}

/// Extending a digit string never shrinks its value.
proof fn lemma_digits_value_prefix_le(s: Seq<u8>, k: int)
    requires
        spec_all_digits(s),
        0 <= k <= s.len(),
    ensures
        spec_digits_value(s.take(k)) <= spec_digits_value(s),
    decreases s.len() - k,
{
    if k == s.len() {
        assert(s.take(k) =~= s);
    } else {
        assert(s.take(k + 1).drop_last() =~= s.take(k));
        assert(s.take(k + 1).last() == s[k]);
        lemma_digits_value_nonneg(s.take(k));
        lemma_digits_value_prefix_le(s, k + 1);
    }
}

/// Index of the last colon, if any.
fn last_colon_index(bytes: &[u8]) -> (r: Option<usize>)
    ensures
        r matches Some(c) ==> spec_last_colon(bytes@) == c as int && c < bytes@.len(),
        r is None ==> spec_last_colon(bytes@) == -1,
{
    let mut i: usize = bytes.len();
    proof {
        assert(bytes@.take(i as int) =~= bytes@);
    }
    while i > 0
        invariant
            i <= bytes@.len(),
            spec_last_colon(bytes@) == spec_last_colon(bytes@.take(i as int)),
        decreases i,
    {
        if bytes[i - 1] == COLON {
            proof {
                assert(bytes@.take(i as int).last() == bytes@[i as int - 1]);
            }
            return Some(i - 1);
        }
        proof {
            assert(bytes@.take(i as int).drop_last() =~= bytes@.take(i as int - 1));
        }
        i = i - 1;
    }
    proof {
        assert(bytes@.take(0) =~= Seq::<u8>::empty());
    }
    None
}

/// Parses a `host:port` endpoint. Returns the endpoint the bytes denote,
/// or a configuration error exactly when they denote none.
pub fn parse_endpoint(bytes: &[u8]) -> (r: Result<BearerEndpoint, Error>)
    ensures
        r matches Ok(ep) ==> spec_parse_endpoint(bytes@) == Some((ep.host@, ep.port)),
        r is Err <==> spec_parse_endpoint(bytes@) is None,
        r matches Err(e) ==> e == Error::Configuration,
{
    let c = match last_colon_index(bytes) {
        Some(c) => c,
        None => {
            return Err(Error::Configuration);
        },
    };
    if c == 0 {
        return Err(Error::Configuration);
    }
    let count = bytes.len() - c - 1;
    if count < 1 || count > 5 {
        return Err(Error::Configuration);
    }
    let ghost digits = bytes@.subrange(c as int + 1, bytes@.len() as int);
    // Read the port digits.
    let mut value: u32 = 0;
    let mut k: usize = 0;
    proof {
        assert(digits.take(0) =~= Seq::<u8>::empty());
    }
    while k < count
        invariant
            0 <= k <= count,
            count == digits.len(),
            1 <= count <= 5,
            1 <= c,
            spec_last_colon(bytes@) == c as int,
            bytes@.len() <= usize::MAX,
            c + 1 + count == bytes@.len(),
            digits == bytes@.subrange(c as int + 1, bytes@.len() as int),
            spec_all_digits(digits.take(k as int)),
            value == spec_digits_value(digits.take(k as int)),
            value <= 65535,
        decreases count - k,
    {
        let b = bytes[c + 1 + k];
        proof {
            assert(digits[k as int] == bytes@[c as int + 1 + k as int]);
            assert(digits.take(k as int + 1).drop_last() =~= digits.take(k as int));
            assert(digits.take(k as int + 1).last() == digits[k as int]);
        }
        if b < 0x30 || b > 0x39 {
            return Err(Error::Configuration);
        }
        let next = value * 10 + ((b - 0x30) as u32);
        if next > 65535 {
            proof {
                if spec_all_digits(digits) {
                    lemma_digits_value_prefix_le(digits, k as int + 1);
                }
            }
            return Err(Error::Configuration);
        }
        value = next;
        k = k + 1;
    }
    proof {
        assert(digits.take(count as int) =~= digits);
    }
    let host = copy_range(bytes, 0, c);
    Ok(BearerEndpoint { host, port: value as u16 })
}

} // verus!
