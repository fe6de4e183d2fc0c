use vstd::prelude::*;
use vstd::string::*;
use crate::digits::{padded_digits, pow10, push_padded, lemma_padded_injective, lemma_padded_len};

verus! {

/// A UTC calendar instant, held as its calendar and clock fields.
#[derive(Clone, Copy, Debug, PartialEq, Eq)]
pub struct UtcInstant {
    pub year: i32,
    pub month: u32,
    pub day: u32,
    pub hour: u32,
    pub minute: u32,
    pub second: u32,
    /// Nanoseconds past `second`; 1_000_000_000 and above stand for a leap second.
    pub nanosecond: u32,
}

impl UtcInstant {
    /// Every field lies in its calendar range, and the year has four digits.
    pub open spec fn wf(self) -> bool {
        &&& 0 <= self.year <= 9999
        &&& 1 <= self.month <= 12
        &&& 1 <= self.day <= 31
        &&& self.hour < 24
        &&& self.minute < 60
        &&& self.second < 60
        &&& self.nanosecond < 2_000_000_000
    }

    /// Both instants fall in the same second.
    pub open spec fn same_second(self, other: UtcInstant) -> bool {
        &&& self.year == other.year
        &&& self.month == other.month
        &&& self.day == other.day
        &&& self.hour == other.hour
        &&& self.minute == other.minute
        &&& self.second == other.second
    }

    /// The instant as `YYYYMMDDHHMMSS`.
    pub open spec fn compact_view(self) -> Seq<char> {
        padded_digits(self.year as nat, 4) + padded_digits(self.month as nat, 2)
            + padded_digits(self.day as nat, 2) + padded_digits(self.hour as nat, 2)
            + padded_digits(self.minute as nat, 2) + padded_digits(self.second as nat, 2)
    }

    /// Builds an instant from its fields; `None` when one lies outside its range.
    pub fn from_parts(
        year: i32,
        month: u32,
        day: u32,
        hour: u32,
        minute: u32,
        second: u32,
        nanosecond: u32,
    ) -> (r: Option<UtcInstant>)
        ensures
            r == (if (UtcInstant { year, month, day, hour, minute, second, nanosecond }).wf() {
                Some(UtcInstant { year, month, day, hour, minute, second, nanosecond })
            } else {
                None
            }),
    {
        let t = UtcInstant { year, month, day, hour, minute, second, nanosecond };
        if 0 <= year && year <= 9999 && 1 <= month && month <= 12 && 1 <= day && day <= 31
            && hour < 24 && minute < 60 && second < 60 && nanosecond < 2_000_000_000
        {
            Some(t)
        } else {
            None
        }
    }

    /// The current UTC instant read from the system clock, or `None` when the
    /// clock gives a year outside 0..=9999.
    pub fn now() -> (r: Option<UtcInstant>)
        ensures
            r matches Some(t) ==> t.wf(),
    {
        let (year, month, day, hour, minute, second, nanosecond) = clock_now();
        UtcInstant::from_parts(year, month, day, hour, minute, second, nanosecond)
    }

    /// Formats the instant as the fixed-width numeral `YYYYMMDDHHMMSS`.
    pub fn compact(&self) -> (r: String)
        requires
            self.wf(),
        ensures
            r@ == self.compact_view(),
            r@.len() == 14,
    {
        let mut s = String::new();
        push_padded(&mut s, self.year as u64, 4);
        push_padded(&mut s, self.month as u64, 2);
        push_padded(&mut s, self.day as u64, 2);
        push_padded(&mut s, self.hour as u64, 2);
        push_padded(&mut s, self.minute as u64, 2);
        push_padded(&mut s, self.second as u64, 2);
        proof {
            lemma_compact_len(*self);
            assert(s@ =~= self.compact_view());
        }
        s
    }
}

pub proof fn lemma_compact_len(t: UtcInstant)
    ensures
        t.compact_view().len() == 14,
{
    lemma_padded_len(t.year as nat, 4);
    lemma_padded_len(t.month as nat, 2);
    lemma_padded_len(t.day as nat, 2);
    lemma_padded_len(t.hour as nat, 2);
    lemma_padded_len(t.minute as nat, 2);
    lemma_padded_len(t.second as nat, 2);
}

/// Two well-formed instants have the same `YYYYMMDDHHMMSS` text exactly when
/// they fall in the same second.
pub proof fn lemma_compact_same_second(a: UtcInstant, b: UtcInstant)
    requires
        a.wf(),
        b.wf(),
    ensures
        (a.compact_view() == b.compact_view()) == a.same_second(b),
{
    if a.compact_view() == b.compact_view() {
        let s = a.compact_view();
        let u = b.compact_view();
        lemma_compact_len(a);
        lemma_compact_len(b);
        lemma_padded_len(a.year as nat, 4);
        lemma_padded_len(a.month as nat, 2);
        lemma_padded_len(a.day as nat, 2);
        lemma_padded_len(a.hour as nat, 2);
        lemma_padded_len(a.minute as nat, 2);
        lemma_padded_len(a.second as nat, 2);
        lemma_padded_len(b.year as nat, 4);
        lemma_padded_len(b.month as nat, 2);
        lemma_padded_len(b.day as nat, 2);
        lemma_padded_len(b.hour as nat, 2);
        lemma_padded_len(b.minute as nat, 2);
        lemma_padded_len(b.second as nat, 2);
        assert(s.subrange(0, 4) =~= padded_digits(a.year as nat, 4));
        assert(u.subrange(0, 4) =~= padded_digits(b.year as nat, 4));
        assert(s.subrange(4, 6) =~= padded_digits(a.month as nat, 2));
        assert(u.subrange(4, 6) =~= padded_digits(b.month as nat, 2));
        assert(s.subrange(6, 8) =~= padded_digits(a.day as nat, 2));
        assert(u.subrange(6, 8) =~= padded_digits(b.day as nat, 2));
        assert(s.subrange(8, 10) =~= padded_digits(a.hour as nat, 2));
        assert(u.subrange(8, 10) =~= padded_digits(b.hour as nat, 2));
        assert(s.subrange(10, 12) =~= padded_digits(a.minute as nat, 2));
        assert(u.subrange(10, 12) =~= padded_digits(b.minute as nat, 2));
        assert(s.subrange(12, 14) =~= padded_digits(a.second as nat, 2));
        assert(u.subrange(12, 14) =~= padded_digits(b.second as nat, 2));
        assert(pow10(0) == 1);
        assert(pow10(1) == 10);
        assert(pow10(2) == 100);
        assert(pow10(3) == 1000);
        assert(pow10(4) == 10000);
        lemma_padded_injective(a.year as nat, b.year as nat, 4);
        lemma_padded_injective(a.month as nat, b.month as nat, 2);
        lemma_padded_injective(a.day as nat, b.day as nat, 2);
        lemma_padded_injective(a.hour as nat, b.hour as nat, 2);
        lemma_padded_injective(a.minute as nat, b.minute as nat, 2);
        lemma_padded_injective(a.second as nat, b.second as nat, 2);
    }
}

/// Relies on chrono's `Utc::now` and the `Datelike`/`Timelike` accessors:
/// month in 1..=12, day in 1..=31, hour in 0..=23, minute and second in 0..=59,
/// nanosecond below 2_000_000_000 (leap seconds included).
#[verifier::external_body]
fn clock_now() -> (r: (i32, u32, u32, u32, u32, u32, u32))
    ensures
        1 <= r.1 <= 12,
        1 <= r.2 <= 31,
        r.3 < 24,
        r.4 < 60,
        r.5 < 60,
        r.6 < 2_000_000_000,
{
    let t = chrono::Utc::now();
    (
        chrono::Datelike::year(&t),
        chrono::Datelike::month(&t),
        chrono::Datelike::day(&t),
        chrono::Timelike::hour(&t),
        chrono::Timelike::minute(&t),
        chrono::Timelike::second(&t),
        chrono::Timelike::nanosecond(&t),
    )
}

} // verus!
