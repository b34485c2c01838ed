//! What the real-time clock domain computes between its device and its
//! callers.

use vstd::prelude::*;
use crate::error::AlienResult;
use crate::heap::DBox;
use crate::once::Once;

verus! {

/// Nanoseconds in a second.
pub const NANOS_PER_SEC: u64 = 1_000_000_000;

/// A point in time as a date and a time of day.
#[derive(Clone, Copy, Debug, PartialEq, Eq, Structural)]
pub struct DateTime {
    pub year: u32,
    pub month: u32,
    pub day: u32,
    pub hour: u32,
    pub minutes: u32,
    pub seconds: u32,
}

/// The record in which the clock domain reports the time.
#[derive(Clone, Copy, Debug, PartialEq, Eq, Structural)]
pub struct RtcTime {
    pub sec: u32,
    pub min: u32,
    pub hour: u32,
    pub mday: u32,
    pub mon: u32,
    pub year: u32,
    pub wday: u32,
    pub yday: u32,
    pub isdst: u32,
}

impl Default for RtcTime {
    fn default() -> (time: Self)
        ensures
            time == (RtcTime {
                sec: 0,
                min: 0,
                hour: 0,
                mday: 0,
                mon: 0,
                year: 0,
                wday: 0,
                yday: 0,
                isdst: 0,
            }),
    {
        RtcTime { sec: 0, min: 0, hour: 0, mday: 0, mon: 0, year: 0, wday: 0, yday: 0, isdst: 0 }
    }
}

/// The record for `date`: its six fields, and zero in the fields that a date
/// and a time of day do not give.
pub open spec fn record_of(date: DateTime) -> RtcTime {
    RtcTime {
        sec: date.seconds,
        min: date.minutes,
        hour: date.hour,
        mday: date.day,
        mon: date.month,
        year: date.year,
        wday: 0,
        yday: 0,
        isdst: 0,
    }
}

/// The character for a decimal digit.
pub open spec fn digit(d: nat) -> char
    recommends
        d < 10,
{
    seq!['0', '1', '2', '3', '4', '5', '6', '7', '8', '9'][d as int]
}

/// A number in decimal digits, without zeros in front.
pub open spec fn decimal(n: nat) -> Seq<char>
    decreases n,
{
    if n < 10 {
        seq![digit(n)]
    } else {
        decimal(n / 10).push(digit(n % 10))
    }
}

/// A number in decimal digits, with zeros in front where it has fewer than
/// `width` digits.
pub open spec fn padded(n: nat, width: nat) -> Seq<char> {
    let text = decimal(n);
    if text.len() >= width {
        text
    } else {
        Seq::new((width - text.len()) as nat, |i: int| '0') + text
    }
}

/// The text of a date and a time of day: year, month and day with hyphens
/// between them, a blank, then hour, minute and second with colons between
/// them; the year in four digits at least, each of the others in two at
/// least.
pub open spec fn time_text(date: DateTime) -> Seq<char> {
    padded(date.year as nat, 4) + seq!['-'] + padded(date.month as nat, 2) + seq!['-'] + padded(
        date.day as nat,
        2,
    ) + seq![' '] + padded(date.hour as nat, 2) + seq![':'] + padded(date.minutes as nat, 2)
        + seq![':'] + padded(date.seconds as nat, 2)
}

/// A padded number has at least the digits it was padded to.
pub proof fn lemma_padded_width(n: nat, width: nat)
    ensures
        padded(n, width).len() >= width,
        padded(n, width).len() >= 1,
{
    lemma_decimal_nonempty(n);
}

/// Every number has a digit.
pub proof fn lemma_decimal_nonempty(n: nat)
    ensures
        decimal(n).len() >= 1,
    decreases n,
{
    if n >= 10 {
        lemma_decimal_nonempty(n / 10);
    }
}

/// The text of a date and a time of day has nineteen characters or more.
pub proof fn lemma_time_text_length(date: DateTime)
    ensures
        time_text(date).len() >= 19,
{
    lemma_padded_width(date.year as nat, 4);
    lemma_padded_width(date.month as nat, 2);
    lemma_padded_width(date.day as nat, 2);
    lemma_padded_width(date.hour as nat, 2);
    lemma_padded_width(date.minutes as nat, 2);
    lemma_padded_width(date.seconds as nat, 2);
}

/// The whole seconds in a reading of the clock, which counts nanoseconds.
pub open spec fn whole_seconds(time_stamp_nanos: u64) -> u64 {
    time_stamp_nanos / NANOS_PER_SEC
}

/// The whole seconds in a reading of the clock, which counts nanoseconds.
pub fn seconds_of(time_stamp_nanos: u64) -> (seconds: u64)
    ensures
        seconds == whole_seconds(time_stamp_nanos),
        seconds * NANOS_PER_SEC <= time_stamp_nanos < (seconds + 1) * NANOS_PER_SEC,
{
    let seconds: u64 = time_stamp_nanos / NANOS_PER_SEC;
    assert(seconds * NANOS_PER_SEC <= time_stamp_nanos < (seconds + 1) * NANOS_PER_SEC) by {
        vstd::arithmetic::div_mod::lemma_fundamental_div_mod(
            time_stamp_nanos as int,
            NANOS_PER_SEC as int,
        );
        vstd::arithmetic::div_mod::lemma_mod_bound(time_stamp_nanos as int, NANOS_PER_SEC as int);
        assert(NANOS_PER_SEC * (time_stamp_nanos as int / NANOS_PER_SEC as int) == (
        time_stamp_nanos as int / NANOS_PER_SEC as int) * NANOS_PER_SEC) by (nonlinear_arith);
        assert((seconds + 1) * NANOS_PER_SEC == seconds * NANOS_PER_SEC + NANOS_PER_SEC)
            by (nonlinear_arith);
    }
    seconds
}

/// A clock that does not run backwards gives seconds that do not run
/// backwards: of two readings the later one has at least the seconds of the
/// earlier one.
pub proof fn lemma_seconds_never_run_backwards(earlier: u64, later: u64)
    requires
        earlier <= later,
    ensures
        earlier / NANOS_PER_SEC <= later / NANOS_PER_SEC,
{
    vstd::arithmetic::div_mod::lemma_div_is_ordered(
        earlier as int,
        later as int,
        NANOS_PER_SEC as int,
    );
}

/// std's `format!` with six decimal fields, the first padded with zeros to
/// four digits and the others to two. The contract claims that the text is
/// the one that `time_text` spells out for those six numbers.
#[verifier::external_body]
fn format_time(date: &DateTime) -> (text: String)
    ensures
        text@ == time_text(*date),
{
    format!(
        "{:04}-{:02}-{:02} {:02}:{:02}:{:02}",
        date.year, date.month, date.day, date.hour, date.minutes, date.seconds
    )
}

/// The time as a line of text, for the domain's log.
pub fn time(date: &DateTime) -> (text: String)
    ensures
        text@ == time_text(*date),
        text@.len() >= 19,
{
    proof {
        lemma_time_text_length(*date);
    }
    format_time(date)
}

/// Writes the record for `date` into the caller's slot on the shared heap,
/// over whatever it held, and hands the slot back.
pub fn fill_time(time: DBox<RtcTime>, date: &DateTime) -> (result: AlienResult<DBox<RtcTime>>)
    ensures
        result is Ok,
        result->Ok_0@ == record_of(*date),
{
    let mut time = time;
    let t = RtcTime {
        year: date.year,
        mon: date.month,
        mday: date.day,
        hour: date.hour,
        min: date.minutes,
        sec: date.seconds,
        ..Default::default()
    };
    time.set(t);
    Ok(time)
}

/// The clock domain. It holds its device from the first `init` on and reads
/// that device, and no other, whenever it is asked for the time.
pub struct Rtc<D> {
    rtc: Once<D>,
}

/// Whether `date` can be the time that the domain reports from `device`:
/// the date that `to_date` gives for the whole seconds of a reading that
/// `clock` took from the device.
pub open spec fn reported<D, C: FnOnce(&D) -> u64, T: FnOnce(u64) -> DateTime>(
    device: D,
    clock: C,
    to_date: T,
    date: DateTime,
) -> bool {
    exists|nanos: u64| #[trigger]
        clock.ensures((&device,), nanos) && to_date.ensures((whole_seconds(nanos),), date)
}

impl<D> Rtc<D> {
    /// The device, once `init` has set it.
    pub closed spec fn device(&self) -> Option<D> {
        self.rtc@
    }

    /// A clock domain without a device.
    pub fn new() -> (rtc: Self)
        ensures
            rtc.device() is None,
    {
        Rtc { rtc: Once::new() }
    }

    /// Whether `init` has set the device.
    pub fn ready(&self) -> (ready: bool)
        ensures
            ready == (self.device() is Some),
    {
        self.rtc.is_completed()
    }

    /// Takes `device` as the clock. A domain that has a device keeps it and
    /// drops the new one.
    pub fn init(&mut self, device: D) -> (result: AlienResult<()>)
        ensures
            result is Ok,
            final(self).device() == Some(
                match old(self).device() {
                    Some(kept) => kept,
                    None => device,
                },
            ),
    {
        let first = || -> (d: D)
            ensures
                d == device,
            { device };
        self.rtc.call_once(first);
        Ok(())
    }

    /// The date and time of day now: `clock` reads the stored device, in
    /// nanoseconds, and `to_date` turns the whole seconds of that reading
    /// into a date.
    pub fn now<C: FnOnce(&D) -> u64, T: FnOnce(u64) -> DateTime>(&self, clock: C, to_date: T) -> (date:
        DateTime)
        requires
            self.device() is Some,
            clock.requires((&self.device()->Some_0,)),
            forall|seconds: u64| to_date.requires((seconds,)),
        ensures
            reported(self.device()->Some_0, clock, to_date, date),
    {
        let time_stamp_nanos = clock(self.rtc.get_must());
        to_date(seconds_of(time_stamp_nanos))
    }

    /// The time as a line of text, for the domain's log.
    pub fn time<C: FnOnce(&D) -> u64, T: FnOnce(u64) -> DateTime>(&self, clock: C, to_date: T) -> (text:
        String)
        requires
            self.device() is Some,
            clock.requires((&self.device()->Some_0,)),
            forall|seconds: u64| to_date.requires((seconds,)),
        ensures
            exists|date: DateTime| #[trigger]
                reported(self.device()->Some_0, clock, to_date, date) && text@ == time_text(date),
    {
        let date = self.now(clock, to_date);
        time(&date)
    }

    /// Answers a request for the time: reads the stored device, and writes
    /// the record for the date of that reading into the caller's slot on the
    /// shared heap, over whatever it held.
    pub fn read_time<C: FnOnce(&D) -> u64, T: FnOnce(u64) -> DateTime>(
        &self,
        time: DBox<RtcTime>,
        clock: C,
        to_date: T,
    ) -> (result: AlienResult<DBox<RtcTime>>)
        requires
            self.device() is Some,
            clock.requires((&self.device()->Some_0,)),
            forall|seconds: u64| to_date.requires((seconds,)),
        ensures
            result is Ok,
            exists|date: DateTime| #[trigger]
                reported(self.device()->Some_0, clock, to_date, date) && result->Ok_0@
                    == record_of(date),
    {
        let date = self.now(clock, to_date);
        fill_time(time, &date)
    }
}

/// The six fields of a date, from the year down to the second.
pub open spec fn date_fields(date: DateTime) -> Seq<u32> {
    seq![date.year, date.month, date.day, date.hour, date.minutes, date.seconds]
}

/// The six fields of a record that a date gives, from the year down to the
/// second.
pub open spec fn record_fields(record: RtcTime) -> Seq<u32> {
    seq![record.year, record.mon, record.mday, record.hour, record.min, record.sec]
}

/// Whether `later` does not come before `earlier`, where the first field
/// counts most.
pub open spec fn not_before(later: Seq<u32>, earlier: Seq<u32>) -> bool
    decreases later.len(),
{
    if later.len() == 0 || earlier.len() == 0 {
        true
    } else if later[0] != earlier[0] {
        later[0] > earlier[0]
    } else {
        not_before(later.skip(1), earlier.skip(1))
    }
}

/// If the conversion from seconds to a date never gives an earlier date for
/// later seconds, the record for a later reading of the clock is not before
/// the record for an earlier one.
pub proof fn lemma_records_follow_clock(
    earlier: u64,
    later: u64,
    to_date: spec_fn(u64) -> DateTime,
)
    requires
        earlier <= later,
        forall|a: u64, b: u64|
            a <= b ==> not_before(
                #[trigger] date_fields(to_date(b)),
                #[trigger] date_fields(to_date(a)),
            ),
    ensures
        not_before(
            record_fields(record_of(to_date(whole_seconds(later)))),
            record_fields(record_of(to_date(whole_seconds(earlier)))),
        ),
{
    lemma_seconds_never_run_backwards(earlier, later);
    let a = whole_seconds(earlier);
    let b = whole_seconds(later);
    assert(not_before(date_fields(to_date(b)), date_fields(to_date(a))));
    assert(record_fields(record_of(to_date(b))) =~= date_fields(to_date(b)));
    assert(record_fields(record_of(to_date(a))) =~= date_fields(to_date(a)));
}

} // verus!
