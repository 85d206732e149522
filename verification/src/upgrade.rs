//! The entry point of the gateway: who is connecting.
//!
//! An upgrade request names its device in one path segment, written as a
//! decimal integer: an optional sign, then one digit or more, nothing else.

use vstd::prelude::*;
use vstd::string::*;
use crate::session::{Session, SessionState, Source};

verus! {

/// Why an upgrade request is turned away.
#[derive(Clone, Copy, Debug, PartialEq, Eq, Structural)]
pub enum UpgradeRejected {
    /// The request names no device.
    Missing,
    /// The device identity is not a decimal integer.
    Malformed,
    /// The device identity does not fit in 64 bits.
    OutOfRange,
}

/// Whether `b` is an ASCII decimal digit.
pub open spec fn is_digit(b: u8) -> bool {
    0x30 <= b <= 0x39
}

/// Whether `s` consists of decimal digits alone.
pub open spec fn all_digits(s: Seq<u8>) -> bool {
    forall|i: int| 0 <= i < s.len() ==> is_digit(#[trigger] s[i])
}

/// The number that the digits `s` write; zero for no digits.
pub open spec fn digits_value(s: Seq<u8>) -> nat
    decreases s.len(),
{
    if s.len() == 0 {
        0
    } else {
        digits_value(s.drop_last()) * 10 + (s.last() - 0x30) as nat
    }
}

/// Whether `s` starts with a sign.
pub open spec fn has_sign(s: Seq<u8>) -> bool {
    s.len() > 0 && (s[0] == 0x2d || s[0] == 0x2b)
}

/// What follows the sign of `s`, or `s` itself where it has none.
pub open spec fn unsigned_part(s: Seq<u8>) -> Seq<u8> {
    if has_sign(s) {
        s.skip(1)
    } else {
        s
    }
}

/// The integer that `s` writes, if it writes one.
pub open spec fn numeral(s: Seq<u8>) -> Option<int> {
    let digits = unsigned_part(s);
    if digits.len() == 0 || !all_digits(digits) {
        None
    } else if s[0] == 0x2d {
        Some(-(digits_value(digits) as int))
    } else {
        Some(digits_value(digits) as int)
    }
}

/// The device identity that a path segment of these bytes names.
pub open spec fn identity_of(s: Seq<u8>) -> Result<i64, UpgradeRejected> {
    match numeral(s) {
        None => Err(UpgradeRejected::Malformed),
        Some(value) => if i64::MIN <= value <= i64::MAX {
            Ok(value as i64)
        } else {
            Err(UpgradeRejected::OutOfRange)
        },
    }
}

/// A numeral is worth at least as much as any of its prefixes.
proof fn lemma_prefix_value(s: Seq<u8>, i: int)
    requires
        0 <= i <= s.len(),
    ensures
        digits_value(s.take(i)) <= digits_value(s),
    decreases s.len(),
{
    if i < s.len() {
        lemma_prefix_value(s.drop_last(), i);
        assert(s.drop_last().take(i) =~= s.take(i));
    } else {
        assert(s.take(i) =~= s);
    }
}

/// Reads the device identity out of a path segment.
pub fn parse_device_id(segment: &str) -> (identity: Result<i64, UpgradeRejected>)
    ensures
        identity == identity_of(segment.spec_bytes()),
{
    let bytes = segment.as_bytes();
    let n: usize = bytes.len();
    let signed: bool = n > 0 && (bytes[0] == 0x2d || bytes[0] == 0x2b);
    let negative: bool = n > 0 && bytes[0] == 0x2d;
    let start: usize = if signed { 1 } else { 0 };
    let ghost digits = unsigned_part(bytes@);
    if start == n {
        return Err(UpgradeRejected::Malformed);
    }
    let mut i: usize = start;
    while i < n
        invariant
            start <= i <= n,
            start < n,
            n == bytes@.len(),
            bytes@ == segment.spec_bytes(),
            digits == unsigned_part(bytes@),
            digits == bytes@.subrange(start as int, n as int),
            forall|j: int| 0 <= j < i - start ==> is_digit(#[trigger] digits[j]),
        decreases n - i,
    {
        if !(0x30 <= bytes[i] && bytes[i] <= 0x39) {
            assert(!is_digit(digits[i - start]));
            return Err(UpgradeRejected::Malformed);
        }
        i = i + 1;
    }
    let limit: u128 = if negative { 0x8000_0000_0000_0000 } else { 0x7fff_ffff_ffff_ffff };
    let mut magnitude: u128 = 0;
    let mut k: usize = start;
    while k < n
        invariant
            start <= k <= n,
            start < n,
            n == bytes@.len(),
            bytes@ == segment.spec_bytes(),
            digits == unsigned_part(bytes@),
            digits == bytes@.subrange(start as int, n as int),
            all_digits(digits),
            negative == (bytes@[0] == 0x2d),
            limit == if negative { 0x8000_0000_0000_0000u128 } else { 0x7fff_ffff_ffff_ffffu128 },
            magnitude == digits_value(digits.take(k - start)),
            magnitude <= limit,
            limit <= 0x8000_0000_0000_0000,
        decreases n - k,
    {
        proof {
            assert(digits[k - start] == bytes@[k as int]);
        }
        let d: u128 = (bytes[k] - 0x30) as u128;
        proof {
            assert(digits.take(k - start + 1).drop_last() =~= digits.take(k - start));
        }
        let next: u128 = magnitude * 10 + d;
        if next > limit {
            proof {
                lemma_prefix_value(digits, k - start + 1);
            }
            return Err(UpgradeRejected::OutOfRange);
        }
        magnitude = next;
        k = k + 1;
    }
    assert(digits.take(n - start) =~= digits);
    if negative {
        if magnitude == 0x8000_0000_0000_0000 {
            Ok(i64::MIN)
        } else {
            Ok(-(magnitude as i64))
        }
    } else {
        Ok(magnitude as i64)
    }
}

/// Admits an upgrade request for the device named by `segment` and makes the
/// session that will serve it. A request without a usable identity is turned
/// away, and no session is made.
pub fn accept(segment: Option<&str>) -> (admitted: Result<Session, UpgradeRejected>)
    ensures
        match segment {
            None => admitted == Err::<Session, UpgradeRejected>(UpgradeRejected::Missing),
            Some(text) => match identity_of(text.spec_bytes()) {
                Err(reason) => admitted == Err::<Session, UpgradeRejected>(reason),
                Ok(device_id) => {
                    &&& admitted is Ok
                    &&& admitted->Ok_0.spec_device_id() == device_id
                    &&& admitted->Ok_0.spec_state() == SessionState::Connecting
                    &&& admitted->Ok_0.spec_preferred() == Source::Outbound
                    &&& admitted->Ok_0.spec_persist_failures() == 0
                },
            },
        },
{
    match segment {
        None => Err(UpgradeRejected::Missing),
        Some(text) => match parse_device_id(text) {
            Err(reason) => Err(reason),
            Ok(device_id) => Ok(Session::connect(device_id)),
        },
    }
}

} // verus!
