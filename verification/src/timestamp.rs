//! Durations as hours, minutes and seconds, and numbers as decimal text.
use vstd::prelude::*;
use vstd::string::StringExecFns;

verus! {

/// A number of seconds.
pub type Seconds = u64;

/// A duration split into hours, minutes below 60 and seconds below 60.
#[derive(Clone, Copy, Debug, PartialEq, Eq, Structural)]
pub struct Timestamp {
    pub hours: u64,
    pub minutes: u8,
    pub seconds: u8,
}

/// The timestamp of a number of seconds.
pub open spec fn timestamp_of(seconds: nat) -> Timestamp {
    Timestamp {
        hours: (seconds / 3600) as u64,
        minutes: (seconds / 60 % 60) as u8,
        seconds: (seconds % 60) as u8,
    }
}

/// The character of a digit below ten.
pub open spec fn digit_char(d: nat) -> char {
    if d == 0 {
        '0'
    } else if d == 1 {
        '1'
    } else if d == 2 {
        '2'
    } else if d == 3 {
        '3'
    } else if d == 4 {
        '4'
    } else if d == 5 {
        '5'
    } else if d == 6 {
        '6'
    } else if d == 7 {
        '7'
    } else if d == 8 {
        '8'
    } else {
        '9'
    }
}

/// The decimal digits of a number, without leading zeros.
pub open spec fn digits(n: nat) -> Seq<char>
    decreases n,
{
    if n < 10 {
        seq![digit_char(n)]
    } else {
        digits(n / 10).push(digit_char(n % 10))
    }
}

/// The decimal digits of a number, with a zero in front where it has one
/// digit only.
pub open spec fn two_digits(n: nat) -> Seq<char> {
    if n < 10 {
        seq!['0'] + digits(n)
    } else {
        digits(n)
    }
}

/// The text of a timestamp: hours, minutes and seconds, each of two digits at
/// least, with colons between them.
pub open spec fn timestamp_text(t: Timestamp) -> Seq<char> {
    two_digits(t.hours as nat) + seq![':'] + two_digits(t.minutes as nat) + seq![':'] + two_digits(
        t.seconds as nat,
    )
}

/// The decimal digits of an integer, with a minus sign in front of a
/// negative one.
pub open spec fn signed_digits(n: int) -> Seq<char> {
    if n < 0 {
        seq!['-'] + digits((-n) as nat)
    } else {
        digits(n as nat)
    }
}

/// Calls `i32::to_string` of the standard library, which writes the number
/// in decimal digits without leading zeros, behind a minus sign where it is
/// negative.
#[verifier::external_body]
pub(crate) fn decimal_signed(n: i32) -> (r: String)
    ensures
        r@ == signed_digits(n as int),
{
    n.to_string()
}

/// Calls `u64::to_string` of the standard library, which writes the number
/// in decimal digits without sign or leading zeros.
#[verifier::external_body]
pub(crate) fn decimal(n: u64) -> (r: String)
    ensures
        r@ == digits(n as nat),
{
    n.to_string()
}

/// The number in decimal digits, two at least.
fn padded(n: u64) -> (r: String)
    ensures
        r@ == two_digits(n as nat),
{
    let text = decimal(n);
    if n < 10 {
        proof {
            reveal_strlit("0");
            assert("0"@ =~= seq!['0']);
        }
        String::from_str("0").concat(text.as_str())
    } else {
        text
    }
}

impl Timestamp {
    /// The text of the timestamp, such as `01:02:03`.
    pub fn to_string(&self) -> (r: String)
        ensures
            r@ == timestamp_text(*self),
    {
        proof {
            reveal_strlit(":");
            assert(":"@ =~= seq![':']);
        }
        let h = padded(self.hours);
        let m = padded(self.minutes as u64);
        let s = padded(self.seconds as u64);
        h.concat(":").concat(m.as_str()).concat(":").concat(s.as_str())
    }
}

/// What can be read as a timestamp.
pub trait AsTimestamp {
    /// The number of seconds that the value stands for.
    spec fn total_seconds(&self) -> nat;

    /// The value as hours, minutes and seconds.
    fn as_timestamp(&self) -> (t: Timestamp)
        ensures
            t == timestamp_of(self.total_seconds()),
    ;
}

impl AsTimestamp for Seconds {
    open spec fn total_seconds(&self) -> nat {
        *self as nat
    }

    fn as_timestamp(&self) -> (t: Timestamp) {
        let hours = *self / 3600;
        let minutes = *self / 60 % 60;
        let seconds = *self % 60;
        Timestamp { hours, minutes: minutes as u8, seconds: seconds as u8 }
    }
}

/// The parts of a timestamp add up to the seconds it was made of, and its
/// minutes and seconds stay below 60.
pub proof fn lemma_timestamp_adds_up(seconds: u64)
    ensures
        timestamp_of(seconds as nat).minutes < 60,
        timestamp_of(seconds as nat).seconds < 60,
        timestamp_of(seconds as nat).hours * 3600 + timestamp_of(seconds as nat).minutes * 60 + timestamp_of(
            seconds as nat,
        ).seconds == seconds,
{
    let s = seconds as nat;
    assert(s / 60 % 60 < 60);
    assert(s % 60 < 60);
    assert(s == (s / 60) * 60 + s % 60) by (nonlinear_arith);
    assert(s / 60 == (s / 60 / 60) * 60 + s / 60 % 60) by (nonlinear_arith);
    assert(s / 60 / 60 == s / 3600) by (nonlinear_arith);
}

} // verus!
