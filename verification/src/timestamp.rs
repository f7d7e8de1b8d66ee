//! Fixed-point time: a signed 64-bit count of microseconds.

use core::cmp::Ordering;
use core::ops::{Add, AddAssign, Div, DivAssign, Mul, MulAssign, Sub, SubAssign};
use core::time::Duration;
use vstd::prelude::*;
use vstd::std_specs::cmp::{PartialOrdSpec, PartialOrdSpecImpl};
use vstd::std_specs::convert::FromSpecImpl;
use vstd::std_specs::ops::{
    AddSpec, AddSpecImpl, DivSpec, DivSpecImpl, MulSpec, MulSpecImpl, SubSpec, SubSpecImpl,
};

verus! {

/// Microseconds in one millisecond.
pub const MILLISECONDS_RATIO: i64 = 1_000;

/// Microseconds in one second.
pub const SECONDS_RATIO: i64 = 1_000_000;

/// The quotient of `a` by `d` rounded toward zero, as machine integers divide.
pub open spec fn truncated_quotient(a: int, d: int) -> int
    recommends
        d != 0,
{
    if a >= 0 {
        if d > 0 {
            a / d
        } else {
            -(a / (-d))
        }
    } else {
        if d > 0 {
            -((-a) / d)
        } else {
            (-a) / (-d)
        }
    }
}

/// True when `v` can be held in a signed 64-bit integer.
pub open spec fn fits_i64(v: int) -> bool {
    i64::MIN <= v <= i64::MAX
}

/// `v`, or the nearest end of the signed 64-bit range where `v` lies outside it.
pub open spec fn saturated(v: int) -> int {
    if v < i64::MIN {
        i64::MIN as int
    } else if v > i64::MAX {
        i64::MAX as int
    } else {
        v
    }
}

/// A point or a span on a timeline, counted in whole microseconds.
#[derive(Clone, Copy, Debug, PartialEq, Eq, Structural)]
pub struct Timestamp {
    raw_microseconds: i64,
}

impl View for Timestamp {
    type V = int;

    /// The microsecond count as a mathematical integer.
    closed spec fn view(&self) -> int {
        self.raw_microseconds as int
    }
}

impl Timestamp {
    /// The timestamp whose microsecond count is `micro_seconds`.
    pub closed spec fn spec_from_microseconds(micro_seconds: i64) -> Timestamp {
        Timestamp { raw_microseconds: micro_seconds }
    }

    /// The timestamp of `milliseconds` milliseconds, where that many microseconds fit.
    pub open spec fn spec_from_milliseconds(milliseconds: i64) -> Timestamp {
        Self::spec_from_microseconds((milliseconds * MILLISECONDS_RATIO) as i64)
    }

    /// The timestamp of `seconds` seconds, where that many microseconds fit.
    pub open spec fn spec_from_seconds(seconds: i64) -> Timestamp {
        Self::spec_from_microseconds((seconds * SECONDS_RATIO) as i64)
    }

    /// The microsecond count.
    pub closed spec fn spec_as_microseconds(&self) -> i64 {
        self.raw_microseconds
    }

    /// Whole milliseconds, rounded toward zero.
    pub open spec fn spec_as_milliseconds(&self) -> i64 {
        truncated_quotient(self@, MILLISECONDS_RATIO as int) as i64
    }

    /// Whole seconds, rounded toward zero.
    pub open spec fn spec_as_seconds(&self) -> i64 {
        truncated_quotient(self@, SECONDS_RATIO as int) as i64
    }

    /// A timestamp is determined by its microsecond count, which lies in the
    /// signed 64-bit range.
    pub broadcast proof fn lemma_view(self)
        ensures
            #[trigger] self@ == self.spec_as_microseconds(),
            fits_i64(self@),
            Self::spec_from_microseconds(self.spec_as_microseconds()) == self,
    {
    }

    /// Two timestamps with the same microsecond count are the same timestamp.
    pub proof fn lemma_view_injective(a: Timestamp, b: Timestamp)
        requires
            a@ == b@,
        ensures
            a == b,
    {
    }

    /// Whole seconds, rounded toward zero.
    #[verifier::when_used_as_spec(spec_as_seconds)]
    pub fn as_seconds(&self) -> (r: i64)
        ensures
            r == self.spec_as_seconds(),
            r == truncated_quotient(self@, SECONDS_RATIO as int),
    {
        self.raw_microseconds / SECONDS_RATIO
    }

    /// Whole milliseconds, rounded toward zero.
    #[verifier::when_used_as_spec(spec_as_milliseconds)]
    pub fn as_milliseconds(&self) -> (r: i64)
        ensures
            r == self.spec_as_milliseconds(),
            r == truncated_quotient(self@, MILLISECONDS_RATIO as int),
    {
        self.raw_microseconds / MILLISECONDS_RATIO
    }

    /// The microsecond count.
    #[verifier::when_used_as_spec(spec_as_microseconds)]
    pub fn as_microseconds(&self) -> (r: i64)
        ensures
            r == self.spec_as_microseconds(),
            r == self@,
    {
        self.raw_microseconds
    }

    /// The timestamp of `milliseconds` milliseconds. The count of
    /// microseconds has to fit in 64 bits.
    #[verifier::when_used_as_spec(spec_from_milliseconds)]
    pub fn from_milliseconds(milliseconds: i64) -> (r: Timestamp)
        requires
            fits_i64(milliseconds * MILLISECONDS_RATIO),
        ensures
            r == Self::spec_from_milliseconds(milliseconds),
            r@ == milliseconds * MILLISECONDS_RATIO,
    {
        Timestamp { raw_microseconds: milliseconds * MILLISECONDS_RATIO }
    }

    /// The timestamp of `micro_seconds` microseconds.
    #[verifier::when_used_as_spec(spec_from_microseconds)]
    pub fn from_microseconds(micro_seconds: i64) -> (r: Timestamp)
        ensures
            r == Self::spec_from_microseconds(micro_seconds),
            r@ == micro_seconds,
    {
        Timestamp { raw_microseconds: micro_seconds }
    }

    /// The timestamp of `seconds` seconds. The count of microseconds has to
    /// fit in 64 bits.
    #[verifier::when_used_as_spec(spec_from_seconds)]
    pub fn from_seconds(seconds: i64) -> (r: Timestamp)
        requires
            fits_i64(seconds * SECONDS_RATIO),
        ensures
            r == Self::spec_from_seconds(seconds),
            r@ == seconds * SECONDS_RATIO,
    {
        Timestamp { raw_microseconds: seconds * SECONDS_RATIO }
    }

    /// Reading back the microseconds of a timestamp made from microseconds
    /// gives the count it was made from.
    pub proof fn law_microseconds_round_trip(v: i64)
        ensures
            Timestamp::from_microseconds(v).as_microseconds() == v,
    {
    }

    /// Reading back the milliseconds of a timestamp made from milliseconds
    /// gives the count it was made from, where the timestamp can hold it.
    pub proof fn law_milliseconds_round_trip(ms: i64)
        requires
            fits_i64(ms * MILLISECONDS_RATIO),
        ensures
            Timestamp::from_milliseconds(ms).as_milliseconds() == ms,
    {
    }

    /// Reading back the seconds of a timestamp made from seconds gives the
    /// count it was made from, where the timestamp can hold it.
    pub proof fn law_seconds_round_trip(s: i64)
        requires
            fits_i64(s * SECONDS_RATIO),
        ensures
            Timestamp::from_seconds(s).as_seconds() == s,
    {
    }
}

/// The four operators compute on the microsecond counts as on plain
/// integers, wherever the result can be held; division rounds toward zero.
pub proof fn law_arithmetic(a: Timestamp, b: Timestamp)
    ensures
        AddSpec::add_req(a, b) ==> AddSpec::add_spec(a, b)@ == a@ + b@,
        SubSpec::sub_req(a, b) ==> SubSpec::sub_spec(a, b)@ == a@ - b@,
        MulSpec::mul_req(a, b) ==> MulSpec::mul_spec(a, b)@ == a@ * b@,
        DivSpec::div_req(a, b) ==> DivSpec::div_spec(a, b)@ == truncated_quotient(a@, b@),
{
}

/// Timestamps are equal where their microsecond counts are, and ordered as
/// their counts are; any two of them compare.
pub proof fn law_ordering(a: Timestamp, b: Timestamp)
    ensures
        a == b <==> a@ == b@,
        PartialOrdSpec::partial_cmp_spec(&a, &b) == Some(Ordering::Less) <==> a@ < b@,
        PartialOrdSpec::partial_cmp_spec(&a, &b) == Some(Ordering::Equal) <==> a@ == b@,
        PartialOrdSpec::partial_cmp_spec(&a, &b) == Some(Ordering::Greater) <==> a@ > b@,
        PartialOrdSpec::partial_cmp_spec(&a, &b) is Some,
{
}

/// Machine division rounds toward zero, whatever the signs of its operands.
proof fn lemma_truncated_quotient(a: int, d: int)
    requires
        d != 0,
    ensures
        a >= 0 ==> truncated_quotient(a, d) == a / d,
        a < 0 ==> truncated_quotient(a, d) == -((-a) / d),
{
    if d < 0 {
        let m = if a >= 0 { a } else { -a };
        assert(m / d == -(m / (-d))) by (nonlinear_arith)
            requires
                d < 0,
                m >= 0,
        ;
    }
}

impl Default for Timestamp {
    /// The zero timestamp.
    fn default() -> (r: Timestamp)
        ensures
            r@ == 0,
    {
        Timestamp { raw_microseconds: 0 }
    }
}

impl PartialOrd for Timestamp {
    /// Compares the two counts.
    fn partial_cmp(&self, other: &Timestamp) -> (r: Option<Ordering>) {
        if self.raw_microseconds < other.raw_microseconds {
            Some(Ordering::Less)
        } else if self.raw_microseconds == other.raw_microseconds {
            Some(Ordering::Equal)
        } else {
            Some(Ordering::Greater)
        }
    }
}

impl PartialOrdSpecImpl for Timestamp {
    open spec fn obeys_partial_cmp_spec() -> bool {
        true
    }

    /// Timestamps are ordered by their microsecond counts; any two compare.
    open spec fn partial_cmp_spec(&self, other: &Timestamp) -> Option<Ordering> {
        if self@ < other@ {
            Some(Ordering::Less)
        } else if self@ == other@ {
            Some(Ordering::Equal)
        } else {
            Some(Ordering::Greater)
        }
    }
}

impl Add for Timestamp {
    type Output = Timestamp;

    /// The sum of the two counts, which has to fit in 64 bits.
    fn add(self, rhs: Timestamp) -> (r: Timestamp)
        ensures
            r@ == self@ + rhs@,
    {
        Timestamp { raw_microseconds: self.raw_microseconds + rhs.raw_microseconds }
    }
}

impl AddSpecImpl for Timestamp {
    open spec fn obeys_add_spec() -> bool {
        true
    }

    open spec fn add_req(self, rhs: Timestamp) -> bool {
        fits_i64(self@ + rhs@)
    }

    open spec fn add_spec(self, rhs: Timestamp) -> Timestamp {
        Timestamp::spec_from_microseconds((self@ + rhs@) as i64)
    }
}

impl Sub for Timestamp {
    type Output = Timestamp;

    /// The difference of the two counts, which has to fit in 64 bits.
    fn sub(self, rhs: Timestamp) -> (r: Timestamp)
        ensures
            r@ == self@ - rhs@,
    {
        Timestamp { raw_microseconds: self.raw_microseconds - rhs.raw_microseconds }
    }
}

impl SubSpecImpl for Timestamp {
    open spec fn obeys_sub_spec() -> bool {
        true
    }

    open spec fn sub_req(self, rhs: Timestamp) -> bool {
        fits_i64(self@ - rhs@)
    }

    open spec fn sub_spec(self, rhs: Timestamp) -> Timestamp {
        Timestamp::spec_from_microseconds((self@ - rhs@) as i64)
    }
}

impl Mul for Timestamp {
    type Output = Timestamp;

    /// The product of the two counts, which has to fit in 64 bits.
    fn mul(self, rhs: Timestamp) -> (r: Timestamp)
        ensures
            r@ == self@ * rhs@,
    {
        Timestamp { raw_microseconds: self.raw_microseconds * rhs.raw_microseconds }
    }
}

impl MulSpecImpl for Timestamp {
    open spec fn obeys_mul_spec() -> bool {
        true
    }

    open spec fn mul_req(self, rhs: Timestamp) -> bool {
        fits_i64(self@ * rhs@)
    }

    open spec fn mul_spec(self, rhs: Timestamp) -> Timestamp {
        Timestamp::spec_from_microseconds((self@ * rhs@) as i64)
    }
}

impl Div for Timestamp {
    type Output = Timestamp;

    /// The quotient of the two counts, rounded toward zero. The divisor is
    /// not zero and the quotient fits in 64 bits.
    fn div(self, rhs: Timestamp) -> (r: Timestamp)
        ensures
            r@ == truncated_quotient(self@, rhs@),
    {
        proof {
            lemma_truncated_quotient(self@, rhs@);
        }
        Timestamp { raw_microseconds: self.raw_microseconds / rhs.raw_microseconds }
    }
}

impl DivSpecImpl for Timestamp {
    open spec fn obeys_div_spec() -> bool {
        true
    }

    open spec fn div_req(self, rhs: Timestamp) -> bool {
        rhs@ != 0 && fits_i64(truncated_quotient(self@, rhs@))
    }

    open spec fn div_spec(self, rhs: Timestamp) -> Timestamp {
        Timestamp::spec_from_microseconds(truncated_quotient(self@, rhs@) as i64)
    }
}

impl AddAssign for Timestamp {
    /// Adds `rhs` in place. The sum has to fit in 64 bits.
    fn add_assign(&mut self, rhs: Timestamp)
        requires
            fits_i64(old(self)@ + rhs@),
        ensures
            final(self)@ == old(self)@ + rhs@,
    {
        self.raw_microseconds = self.raw_microseconds + rhs.raw_microseconds;
    }
}

impl SubAssign for Timestamp {
    /// Subtracts `rhs` in place. The difference has to fit in 64 bits.
    fn sub_assign(&mut self, rhs: Timestamp)
        requires
            fits_i64(old(self)@ - rhs@),
        ensures
            final(self)@ == old(self)@ - rhs@,
    {
        self.raw_microseconds = self.raw_microseconds - rhs.raw_microseconds;
    }
}

impl MulAssign for Timestamp {
    /// Multiplies by `rhs` in place. The product has to fit in 64 bits.
    fn mul_assign(&mut self, rhs: Timestamp)
        requires
            fits_i64(old(self)@ * rhs@),
        ensures
            final(self)@ == old(self)@ * rhs@,
    {
        self.raw_microseconds = self.raw_microseconds * rhs.raw_microseconds;
    }
}

impl DivAssign for Timestamp {
    /// Divides by `rhs` in place, rounding toward zero. The divisor is not
    /// zero and the quotient fits in 64 bits.
    fn div_assign(&mut self, rhs: Timestamp)
        requires
            rhs@ != 0,
            fits_i64(truncated_quotient(old(self)@, rhs@)),
        ensures
            final(self)@ == truncated_quotient(old(self)@, rhs@),
    {
        proof {
            lemma_truncated_quotient(self@, rhs@);
        }
        self.raw_microseconds = self.raw_microseconds / rhs.raw_microseconds;
    }
}

/// The whole microseconds in a `Duration`.
pub uninterp spec fn duration_micros(duration: Duration) -> nat;

/// `Duration::as_micros`: the whole microseconds that the duration holds.
#[verifier::external_body]
fn duration_as_micros(duration: &Duration) -> (r: u128)
    ensures
        r == duration_micros(*duration),
{
    duration.as_micros()
}

/// `Duration::from_micros`: the duration of that many microseconds.
#[verifier::external_body]
fn duration_from_micros(micros: u64) -> (r: Duration)
    ensures
        duration_micros(r) == micros,
{
    Duration::from_micros(micros)
}

impl From<Duration> for Timestamp {
    /// The timestamp of as many whole microseconds as the duration holds.
    fn from(value: Duration) -> (r: Timestamp) {
        let micros = duration_as_micros(&value);
        Timestamp { raw_microseconds: #[verifier::truncate] (micros as i64) }
    }
}

impl FromSpecImpl<Duration> for Timestamp {
    open spec fn obeys_from_spec() -> bool {
        true
    }

    /// The timestamp of as many microseconds as the duration holds, cut to
    /// the low 64 bits where they are more than a timestamp can count.
    open spec fn from_spec(value: Duration) -> Timestamp {
        Timestamp::spec_from_microseconds(duration_micros(value) as i64)
    }
}

impl From<Timestamp> for Duration {
    /// A duration of as many microseconds as the timestamp counts, read as
    /// an unsigned number.
    fn from(value: Timestamp) -> (r: Duration)
        ensures
            duration_micros(r) == value.spec_as_microseconds() as u64,
    {
        duration_from_micros(#[verifier::truncate] (value.raw_microseconds as u64))
    }
}

impl FromSpecImpl<Timestamp> for Duration {
    /// A duration holds more than its whole microseconds, so the conversion
    /// is stated by what it ensures and not as a function of the timestamp.
    open spec fn obeys_from_spec() -> bool {
        false
    }

    open spec fn from_spec(value: Timestamp) -> Duration {
        arbitrary()
    }
}

} // verus!
