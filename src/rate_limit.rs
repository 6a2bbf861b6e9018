use reqwest::header::{HeaderMap, HeaderValue};
use vstd::prelude::*;

verus! {

/// The request quota that the service reports for an API key and address.
///
/// A field the response did not report, or reported in a form that is not
/// an integer, is -1.
#[derive(Debug, Clone, Copy, PartialEq, Eq, Structural)]
pub struct RateLimitInfo {
    /// Remaining requests for this API key and IP address
    pub remaining: i32,
    /// Limit for this API key and IP address
    pub limit: i32,
}

/// The value of a field that is missing or not an integer.
pub const UNKNOWN: i32 = -1;

/// A byte allowed in a header value read as text: visible ASCII or a tab.
pub open spec fn is_visible_ascii(b: u8) -> bool {
    (32 <= b && b < 127) || b == 9
}

/// An ASCII decimal digit.
pub open spec fn is_digit(b: u8) -> bool {
    48 <= b <= 57
}

/// Bytes that are all ASCII decimal digits.
pub open spec fn all_digits(b: Seq<u8>) -> bool {
    forall|i: int| 0 <= i < b.len() ==> is_digit(#[trigger] b[i])
}

/// The number written by a sequence of decimal digits.
pub open spec fn digits_value(b: Seq<u8>) -> int
    decreases b.len(),
{
    if b.len() == 0 {
        0
    } else {
        digits_value(b.drop_last()) * 10 + (b.last() - 48)
    }
}

/// The integer written by `b`: an optional `+` or `-`, then one or more digits.
pub open spec fn signed_value(b: Seq<u8>) -> Option<int> {
    if b.len() == 0 {
        None
    } else if b[0] == 45 || b[0] == 43 {
        let digits = b.drop_first();
        if digits.len() > 0 && all_digits(digits) {
            if b[0] == 45 {
                Some(-digits_value(digits))
            } else {
                Some(digits_value(digits))
            }
        } else {
            None
        }
    } else if all_digits(b) {
        Some(digits_value(b))
    } else {
        None
    }
}

/// The `i32` that a header value holds: text of visible ASCII that writes an
/// integer within the range of `i32`.
pub open spec fn header_i32(b: Seq<u8>) -> Option<i32> {
    if forall|i: int| 0 <= i < b.len() ==> is_visible_ascii(#[trigger] b[i]) {
        match signed_value(b) {
            Some(v) => if i32::MIN <= v <= i32::MAX {
                Some(v as i32)
            } else {
                None
            },
            None => None,
        }
    } else {
        None
    }
}

/// A rate-limit field from a header that may be absent.
pub open spec fn field_value(v: Option<Seq<u8>>) -> i32 {
    match v {
        Some(b) => match header_i32(b) {
            Some(n) => n,
            None => UNKNOWN,
        },
        None => UNKNOWN,
    }
}

/// The value that a header map holds under `name`, if any.
pub open spec fn header_lookup(m: Map<Seq<char>, Seq<u8>>, name: Seq<char>) -> Option<Seq<u8>> {
    if m.contains_key(name) {
        Some(m[name])
    } else {
        None
    }
}

/// A value above every magnitude that an `i32` can have.
const CAP: i64 = 2147483649;

proof fn lemma_capped_step(v: int, d: int)
    requires
        v >= 0,
        0 <= d <= 9,
    ensures
        ({
            let c = if v < CAP { v } else { CAP as int };
            let e = c * 10 + d;
            (if e < CAP { e } else { CAP as int }) == (if v * 10 + d < CAP {
                v * 10 + d
            } else {
                CAP as int
            })
        }),
{
    if v >= CAP {
        assert(v * 10 + d >= CAP) by (nonlinear_arith)
            requires
                v >= CAP,
                d >= 0,
        ;
    }
}

proof fn lemma_digits_value_nonneg(b: Seq<u8>)
    requires
        all_digits(b),
    ensures
        digits_value(b) >= 0,
    decreases b.len(),
{
    if b.len() > 0 {
        assert(all_digits(b.drop_last()));
        lemma_digits_value_nonneg(b.drop_last());
    }
}

/// The value of the digits `b[start..]`, or `None` where one of them is not a
/// digit; values of `CAP` and above are given as `CAP`.
fn capped_digits(b: &[u8], start: usize) -> (r: Option<i64>)
    requires
        start <= b@.len(),
    ensures
        r is Some <==> all_digits(b@.subrange(start as int, b@.len() as int)),
        r matches Some(v) ==> v == (if digits_value(b@.subrange(start as int, b@.len() as int))
            < CAP {
            digits_value(b@.subrange(start as int, b@.len() as int))
        } else {
            CAP as int
        }),
{
    let mut acc: i64 = 0;
    let mut i: usize = start;
    while i < b.len()
        invariant
            start <= i <= b@.len(),
            all_digits(b@.subrange(start as int, i as int)),
            acc == (if digits_value(b@.subrange(start as int, i as int)) < CAP {
                digits_value(b@.subrange(start as int, i as int))
            } else {
                CAP as int
            }),
        decreases b@.len() - i,
    {
        let c = b[i];
        if c < 48 || c > 57 {
            assert(!is_digit(b@.subrange(start as int, b@.len() as int)[i - start]));
            return None;
        }
        let prefix = Ghost(b@.subrange(start as int, i as int));
        let next = Ghost(b@.subrange(start as int, i + 1));
        proof {
            assert(next@.drop_last() =~= prefix@);
            lemma_digits_value_nonneg(prefix@);
            lemma_capped_step(digits_value(prefix@), (c - 48) as int);
        }
        let e = acc * 10 + (c - 48) as i64;
        acc = if e < CAP { e } else { CAP };
        i = i + 1;
        assert(all_digits(b@.subrange(start as int, i as int)));
    }
    assert(b@.subrange(start as int, i as int) =~= b@.subrange(start as int, b@.len() as int));
    Some(acc)
}

/// Reads an `i32` from a header value, as its text would parse.
pub fn parse_header_i32(b: &[u8]) -> (r: Option<i32>)
    ensures
        r == header_i32(b@),
{
    let mut i: usize = 0;
    while i < b.len()
        invariant
            i <= b@.len(),
            forall|j: int| 0 <= j < i ==> is_visible_ascii(#[trigger] b@[j]),
        decreases b@.len() - i,
    {
        if !((32 <= b[i] && b[i] < 127) || b[i] == 9) {
            return None;
        }
        i = i + 1;
    }
    if b.len() == 0 {
        return None;
    }
    let signed = b[0] == 45 || b[0] == 43;
    let start: usize = if signed { 1 } else { 0 };
    if signed && b.len() == 1 {
        return None;
    }
    proof {
        assert(b@.subrange(1, b@.len() as int) =~= b@.drop_first());
        assert(b@.subrange(0, b@.len() as int) =~= b@);
    }
    match capped_digits(b, start) {
        None => None,
        Some(v) => {
            proof {
                lemma_digits_value_nonneg(b@.subrange(start as int, b@.len() as int));
            }
            if b[0] == 45 {
                if v <= 2147483648 {
                    Some((-v) as i32)
                } else {
                    None
                }
            } else if v <= 2147483647 {
                Some(v as i32)
            } else {
                None
            }
        },
    }
}

/// A rate-limit field from a header value that may be absent: its integer,
/// else -1.
pub fn rate_limit_field(v: Option<&[u8]>) -> (r: i32)
    ensures
        r == field_value(
            match v {
                Some(b) => Some(b@),
                None => None,
            },
        ),
{
    match v {
        Some(b) => match parse_header_i32(b) {
            Some(n) => n,
            None => UNKNOWN,
        },
        None => UNKNOWN,
    }
}

#[verifier::external_type_specification]
#[verifier::external_body]
#[verifier::reject_recursive_types(T)]
pub struct ExHeaderMap<T>(HeaderMap<T>);

#[verifier::external_type_specification]
#[verifier::external_body]
pub struct ExHeaderValue(HeaderValue);

/// What a header map holds: for each header name, in lower case, the bytes
/// of the first value stored under it.
pub uninterp spec fn first_values(h: HeaderMap) -> Map<Seq<char>, Seq<u8>>;

/// A header name as a header map stores it: lower-case ASCII letters, digits
/// and `-`, not empty.
pub open spec fn is_lower_header_name(name: Seq<char>) -> bool {
    name.len() > 0 && forall|i: int|
        0 <= i < name.len() ==> {
            let c = #[trigger] name[i];
            ('a' <= c && c <= 'z') || ('0' <= c && c <= '9') || c == '-'
        }
}

/// Relies on `HeaderMap::get` (the first value stored under a name, names
/// compared without regard to case) and `HeaderValue::as_bytes` (the bytes of
/// that value).
#[verifier::external_body]
fn header_bytes(headers: &HeaderMap, name: &str) -> (r: Option<Vec<u8>>)
    requires
        is_lower_header_name(name@),
    ensures
        match r {
            Some(v) => header_lookup(first_values(*headers), name@) == Some(v@),
            None => header_lookup(first_values(*headers), name@) is None,
        },
{
    headers.get(name).map(|v| v.as_bytes().to_vec())
}

/// The rate-limit fields that a map holds under the names of the service's
/// two headers.
pub open spec fn rate_limit_of(m: Map<Seq<char>, Seq<u8>>) -> RateLimitInfo {
    RateLimitInfo {
        remaining: field_value(header_lookup(m, "x-ratelimit-remaining"@)),
        limit: field_value(header_lookup(m, "x-ratelimit-limit"@)),
    }
}

/// Reads the rate-limit headers of a response; a field whose header is
/// missing or not an integer is -1.
pub fn get_rate_limit_info(headers: &HeaderMap) -> (r: RateLimitInfo)
    ensures
        r == rate_limit_of(first_values(*headers)),
{
    let remaining_name = "x-ratelimit-remaining";
    let limit_name = "x-ratelimit-limit";
    proof {
        reveal_strlit("x-ratelimit-remaining");
        reveal_strlit("x-ratelimit-limit");
        assert(is_lower_header_name(remaining_name@));
        assert(is_lower_header_name(limit_name@));
    }
    let remaining_bytes = header_bytes(headers, remaining_name);
    let limit_bytes = header_bytes(headers, limit_name);
    let remaining = match &remaining_bytes {
        Some(v) => rate_limit_field(Some(v.as_slice())),
        None => rate_limit_field(None),
    };
    let limit = match &limit_bytes {
        Some(v) => rate_limit_field(Some(v.as_slice())),
        None => rate_limit_field(None),
    };
    RateLimitInfo { remaining, limit }
}

/// Where each of the two rate-limit headers is missing, or holds no integer
/// within the range of `i32`, the rate-limit info read from the headers has
/// -1 in both fields: reading them never fails.
pub proof fn missing_or_malformed_headers_read_as_unknown(m: Map<Seq<char>, Seq<u8>>)
    requires
        header_lookup(m, "x-ratelimit-remaining"@) matches Some(b) ==> header_i32(b) is None,
        header_lookup(m, "x-ratelimit-limit"@) matches Some(b) ==> header_i32(b) is None,
    ensures
        rate_limit_of(m) == (RateLimitInfo { remaining: UNKNOWN, limit: UNKNOWN }),
{
}

} // verus!
