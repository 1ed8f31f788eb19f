//! Classification of what a server answered into the signals that the retry
//! rules act on.

use crate::header::header_bytes;
use crate::header::header_lookup;
use crate::header::status_number;
use hyper::header::HeaderMap;
use hyper::StatusCode;
use vstd::prelude::*;

verus! {

/// What a response means to the client.
#[derive(Clone, Debug, PartialEq, Eq)]
pub enum Qos {
    /// The request was served.
    Success,
    /// The server limits the rate of requests; it may have said for how many
    /// milliseconds to stay away.
    Throttle(Option<u64>),
    /// The server cannot serve right now: another node may.
    Unavailable,
    /// The server points to another location.
    Redirect(Vec<u8>),
    /// The server reported an error of the application.
    ServiceError,
}

/// Whether a byte is a decimal digit.
pub open spec fn is_digit(b: u8) -> bool {
    48 <= b <= 57
}

/// The number that a sequence of decimal digits writes.
pub open spec fn decimal_value(s: Seq<u8>) -> nat
    decreases s.len(),
{
    if s.len() == 0 {
        0
    } else {
        decimal_value(s.drop_last()) * 10 + (s.last() - 48) as nat
    }
}

/// The seconds that a `Retry-After` value names: the value is one or more
/// decimal digits and nothing else, and the number fits 64 bits.
pub open spec fn delay_seconds(s: Seq<u8>) -> Option<u64> {
    if s.len() > 0 && (forall|i: int| 0 <= i < s.len() ==> is_digit(s[i])) && decimal_value(s)
        <= u64::MAX {
        Some(decimal_value(s) as u64)
    } else {
        None
    }
}

/// Seconds as milliseconds, at most `u64::MAX`.
pub open spec fn millis_of(seconds: u64) -> u64 {
    if seconds * 1000 > u64::MAX {
        u64::MAX
    } else {
        (seconds * 1000) as u64
    }
}

/// The delay in milliseconds that a `Retry-After` header asks for, if the
/// header is there and names seconds.
pub open spec fn retry_after_millis(value: Option<Seq<u8>>) -> Option<u64> {
    match value {
        Some(v) => match delay_seconds(v) {
            Some(s) => Some(millis_of(s)),
            None => None,
        },
        None => None,
    }
}

/// The signal of a response with the given status, `Retry-After` and
/// `Location` values.
///
/// 2xx is success, 429 a throttle, 503 unavailability. A 3xx with a location
/// is a redirect where redirects are followed. Everything else is an error of
/// the service.
pub open spec fn classification(
    status: u16,
    retry_after: Option<Seq<u8>>,
    location: Option<Seq<u8>>,
    follow_redirects: bool,
) -> QosModel {
    if 200 <= status <= 299 {
        QosModel::Success
    } else if status == 429 {
        QosModel::Throttle(retry_after_millis(retry_after))
    } else if status == 503 {
        QosModel::Unavailable
    } else if 300 <= status <= 399 && follow_redirects && location is Some {
        QosModel::Redirect(location->0)
    } else {
        QosModel::ServiceError
    }
}

/// A signal as contracts see it.
pub enum QosModel {
    Success,
    Throttle(Option<u64>),
    Unavailable,
    Redirect(Seq<u8>),
    ServiceError,
}

impl View for Qos {
    type V = QosModel;

    open spec fn view(&self) -> QosModel {
        match *self {
            Qos::Success => QosModel::Success,
            Qos::Throttle(d) => QosModel::Throttle(d),
            Qos::Unavailable => QosModel::Unavailable,
            Qos::Redirect(l) => QosModel::Redirect(l@),
            Qos::ServiceError => QosModel::ServiceError,
        }
    }
}

/// A prefix of decimal digits writes no larger a number than the whole.
proof fn lemma_decimal_prefix(s: Seq<u8>, k: int)
    requires
        0 <= k <= s.len(),
    ensures
        decimal_value(s.subrange(0, k)) <= decimal_value(s),
    decreases s.len() - k,
{
    if k == s.len() {
        assert(s.subrange(0, k) =~= s);
    } else {
        lemma_decimal_prefix(s, k + 1);
        assert(s.subrange(0, k + 1).drop_last() =~= s.subrange(0, k));
    }
}

/// Reads the seconds of a `Retry-After` value.
pub fn parse_delay_seconds(value: &[u8]) -> (r: Option<u64>)
    ensures
        r == delay_seconds(value@),
{
    if value.len() == 0 {
        return None;
    }
    let mut acc: u64 = 0;
    let mut i: usize = 0;
    while i < value.len()
        invariant
            0 <= i <= value.len(),
            forall|j: int| 0 <= j < i ==> is_digit(value@[j]),
            acc == decimal_value(value@.subrange(0, i as int)),
        decreases value.len() - i,
    {
        let b: u8 = value[i];
        if b < 48 || b > 57 {
            return None;
        }
        let digit: u64 = (b - 48) as u64;
        proof {
            lemma_decimal_prefix(value@, i + 1);
            assert(value@.subrange(0, i + 1).drop_last() =~= value@.subrange(0, i as int));
        }
        if acc > (u64::MAX - digit) / 10 {
            return None;
        }
        acc = acc * 10 + digit;
        i = i + 1;
    }
    proof {
        assert(value@.subrange(0, i as int) =~= value@);
    }
    Some(acc)
}

/// Seconds as milliseconds, saturating.
pub fn seconds_to_millis(seconds: u64) -> (m: u64)
    ensures
        m == millis_of(seconds),
{
    if seconds > u64::MAX / 1000 {
        u64::MAX
    } else {
        seconds * 1000
    }
}

/// Classifies a response by its status and the two headers that matter.
pub fn classify(
    status: u16,
    retry_after: Option<Vec<u8>>,
    location: Option<Vec<u8>>,
    follow_redirects: bool,
) -> (q: Qos)
    ensures
        q@ == classification(
            status,
            match retry_after {
                Some(v) => Some(v@),
                None => None,
            },
            match location {
                Some(v) => Some(v@),
                None => None,
            },
            follow_redirects,
        ),
{
    if 200 <= status && status <= 299 {
        Qos::Success
    } else if status == 429 {
        let delay = match retry_after {
            Some(v) => match parse_delay_seconds(v.as_slice()) {
                Some(s) => Some(seconds_to_millis(s)),
                None => None,
            },
            None => None,
        };
        Qos::Throttle(delay)
    } else if status == 503 {
        Qos::Unavailable
    } else if 300 <= status && status <= 399 && follow_redirects {
        match location {
            Some(l) => Qos::Redirect(l),
            None => Qos::ServiceError,
        }
    } else {
        Qos::ServiceError
    }
}

/// Classifies a response by its head.
pub fn classify_response(status: StatusCode, headers: &HeaderMap, follow_redirects: bool) -> (q:
    Qos)
    ensures
        q@ == classification(
            status_number(status),
            header_lookup(*headers, "retry-after"@),
            header_lookup(*headers, "location"@),
            follow_redirects,
        ),
{
    let retry_after = header_bytes(headers, "retry-after");
    let location = header_bytes(headers, "location");
    classify(status.as_u16(), retry_after, location, follow_redirects)
}

} // verus!
