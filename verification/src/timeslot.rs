use vstd::arithmetic::div_mod::{
    lemma_fundamental_div_mod, lemma_fundamental_div_mod_converse, lemma_mod_bound,
};
use vstd::prelude::*;

use crate::ranged::RangedUsize;

verus! {

/// The number of [`Week`]s per iteration of the timetable.
pub const WEEKS_PER_ITERATION: usize = 2;

/// The number of [`ActiveDay`]s per [`Week`].
pub const DAYS_PER_WEEK: usize = 5;

/// The number of [`Period`]s per [`ActiveDay`].
pub const PERIODS_PER_DAY: usize = 8;

/// The number of [`Period`]s per [`Week`].
pub const PERIODS_PER_WEEK: usize = PERIODS_PER_DAY * DAYS_PER_WEEK;

/// The number of [`Period`]s per iteration of the timetable.
pub const PERIODS_PER_ITERATION: usize = PERIODS_PER_WEEK * WEEKS_PER_ITERATION;

/// The largest valid [`TimeSlot`] index.
pub const MAX_INDEX: usize = PERIODS_PER_ITERATION - 1;

/// The week of an alternating two-week timetable.
///
/// A timetable iteration consists of week one followed by week two; after a
/// week two the cycle starts over with a week one.
#[derive(Debug, Clone, Copy, PartialEq, Eq)]
pub enum Week {
    One,
    Two,
}

impl Week {
    /// The ordinal position of the week within an iteration: `0` for
    /// [`Week::One`] and `1` for [`Week::Two`].
    pub open spec fn spec_ordinal(self) -> int {
        match self {
            Week::One => 0,
            Week::Two => 1,
        }
    }

    /// The week at ordinal position `n`, where `n` is expected to lie in
    /// `0..WEEKS_PER_ITERATION`; outside that range the result is pinned to
    /// [`Week::Two`] for totality.
    pub open spec fn spec_from_ordinal(n: int) -> Week {
        if n == 0 {
            Week::One
        } else {
            Week::Two
        }
    }

    /// Returns the ordinal position of the week within an iteration.
    pub fn to_ordinal(self) -> (r: usize)
        ensures
            r == self.spec_ordinal(),
            r < WEEKS_PER_ITERATION,
    {
        match self {
            Week::One => 0,
            Week::Two => 1,
        }
    }

    /// Returns the week at ordinal position `n`, or [`None`] if `n` is not
    /// the ordinal of any week.
    pub fn from_ordinal(n: usize) -> (r: Option<Week>)
        ensures
            n < WEEKS_PER_ITERATION ==> r == Some(Week::spec_from_ordinal(n as int)),
            n >= WEEKS_PER_ITERATION ==> r is None,
    {
        match n {
            0 => Some(Week::One),
            1 => Some(Week::Two),
            _ => None,
        }
    }
}

/// A day of the seven-day calendar week, Monday-first.
///
/// This is the general weekday as a calendar hands it over; the timetable
/// itself only ever addresses the five [`ActiveDay`]s, and conversion from a
/// `Weekday` fails for [`Weekday::Saturday`] and [`Weekday::Sunday`].
#[derive(Debug, Clone, Copy, PartialEq, Eq)]
pub enum Weekday {
    Monday,
    Tuesday,
    Wednesday,
    Thursday,
    Friday,
    Saturday,
    Sunday,
}

impl Weekday {
    /// The number of days from Monday: `0` for Monday through `6` for
    /// Sunday.
    pub open spec fn spec_ordinal(self) -> int {
        match self {
            Weekday::Monday => 0,
            Weekday::Tuesday => 1,
            Weekday::Wednesday => 2,
            Weekday::Thursday => 3,
            Weekday::Friday => 4,
            Weekday::Saturday => 5,
            Weekday::Sunday => 6,
        }
    }
}

/// An active day in a [`Week`].
///
/// Activities can only occur Monday to Friday; both schools close on
/// Saturdays and Sundays, so the weekend days are not representable here.
#[derive(Debug, Clone, Copy, PartialEq, Eq)]
pub enum ActiveDay {
    Monday,
    Tuesday,
    Wednesday,
    Thursday,
    Friday,
}

impl ActiveDay {
    /// The number of days from [`ActiveDay::Monday`]: `0` for Monday through
    /// `4` for Friday.
    pub open spec fn spec_ordinal(self) -> int {
        match self {
            ActiveDay::Monday => 0,
            ActiveDay::Tuesday => 1,
            ActiveDay::Wednesday => 2,
            ActiveDay::Thursday => 3,
            ActiveDay::Friday => 4,
        }
    }

    /// The active day at ordinal position `n`, where `n` is expected to lie
    /// in `0..DAYS_PER_WEEK`; outside that range the result is pinned to
    /// [`ActiveDay::Friday`] for totality.
    pub open spec fn spec_from_ordinal(n: int) -> ActiveDay {
        if n == 0 {
            ActiveDay::Monday
        } else if n == 1 {
            ActiveDay::Tuesday
        } else if n == 2 {
            ActiveDay::Wednesday
        } else if n == 3 {
            ActiveDay::Thursday
        } else {
            ActiveDay::Friday
        }
    }

    /// The active day for a calendar weekday, or [`None`] for the weekend
    /// days on which no activity can occur.
    pub open spec fn spec_from_weekday(w: Weekday) -> Option<ActiveDay> {
        match w {
            Weekday::Monday => Some(ActiveDay::Monday),
            Weekday::Tuesday => Some(ActiveDay::Tuesday),
            Weekday::Wednesday => Some(ActiveDay::Wednesday),
            Weekday::Thursday => Some(ActiveDay::Thursday),
            Weekday::Friday => Some(ActiveDay::Friday),
            Weekday::Saturday => None,
            Weekday::Sunday => None,
        }
    }

    /// The calendar weekday that the active day falls on.
    pub open spec fn spec_to_weekday(self) -> Weekday {
        match self {
            ActiveDay::Monday => Weekday::Monday,
            ActiveDay::Tuesday => Weekday::Tuesday,
            ActiveDay::Wednesday => Weekday::Wednesday,
            ActiveDay::Thursday => Weekday::Thursday,
            ActiveDay::Friday => Weekday::Friday,
        }
    }

    /// The number of days from [`ActiveDay::Monday`].
    ///
    /// | Day                  | Monday | Tuesday | Wednesday | Thursday | Friday |
    /// |----------------------|--------|---------|-----------|----------|--------|
    /// | num_days_from_monday | 0      | 1       | 2         | 3        | 4      |
    pub fn num_days_from_monday(self) -> (r: usize)
        ensures
            r == self.spec_ordinal(),
            r < DAYS_PER_WEEK,
    {
        match self {
            ActiveDay::Monday => 0,
            ActiveDay::Tuesday => 1,
            ActiveDay::Wednesday => 2,
            ActiveDay::Thursday => 3,
            ActiveDay::Friday => 4,
        }
    }

    /// Returns the active day at ordinal position `n`, or [`None`] if `n` is
    /// not the ordinal of any active day.
    pub fn from_ordinal(n: usize) -> (r: Option<ActiveDay>)
        ensures
            n < DAYS_PER_WEEK ==> r == Some(ActiveDay::spec_from_ordinal(n as int)),
            n >= DAYS_PER_WEEK ==> r is None,
    {
        match n {
            0 => Some(ActiveDay::Monday),
            1 => Some(ActiveDay::Tuesday),
            2 => Some(ActiveDay::Wednesday),
            3 => Some(ActiveDay::Thursday),
            4 => Some(ActiveDay::Friday),
            _ => None,
        }
    }

    /// Returns the active day whose ordinal is `n`, or [`None`] if `n` is
    /// out of range; the unsigned counterpart of [`ActiveDay::from_i64`].
    pub fn from_u64(n: u64) -> (r: Option<ActiveDay>)
        ensures
            n < DAYS_PER_WEEK as u64 ==> r == Some(ActiveDay::spec_from_ordinal(n as int)),
            n >= DAYS_PER_WEEK as u64 ==> r is None,
    {
        match n {
            0 => Some(ActiveDay::Monday),
            1 => Some(ActiveDay::Tuesday),
            2 => Some(ActiveDay::Wednesday),
            3 => Some(ActiveDay::Thursday),
            4 => Some(ActiveDay::Friday),
            _ => None,
        }
    }

    /// Returns the active day whose ordinal is `n`, or [`None`] if `n` is
    /// negative or out of range; the signed counterpart of
    /// [`ActiveDay::from_u64`].
    pub fn from_i64(n: i64) -> (r: Option<ActiveDay>)
        ensures
            0 <= n < DAYS_PER_WEEK as i64 ==> r == Some(ActiveDay::spec_from_ordinal(n as int)),
            !(0 <= n < DAYS_PER_WEEK as i64) ==> r is None,
    {
        match n {
            0 => Some(ActiveDay::Monday),
            1 => Some(ActiveDay::Tuesday),
            2 => Some(ActiveDay::Wednesday),
            3 => Some(ActiveDay::Thursday),
            4 => Some(ActiveDay::Friday),
            _ => None,
        }
    }

    /// Converts a calendar weekday to the corresponding active day.
    ///
    /// The conversion is order-preserving (Monday-first) and total on the
    /// five working days; it fails for [`Weekday::Saturday`] and
    /// [`Weekday::Sunday`], which are not active days.
    pub fn from_weekday(w: Weekday) -> (r: Option<ActiveDay>)
        ensures
            r == ActiveDay::spec_from_weekday(w),
            r is None <==> (w == Weekday::Saturday || w == Weekday::Sunday),
            r matches Some(d) ==> d.spec_ordinal() == w.spec_ordinal(),
    {
        match w {
            Weekday::Monday => Some(ActiveDay::Monday),
            Weekday::Tuesday => Some(ActiveDay::Tuesday),
            Weekday::Wednesday => Some(ActiveDay::Wednesday),
            Weekday::Thursday => Some(ActiveDay::Thursday),
            Weekday::Friday => Some(ActiveDay::Friday),
            Weekday::Saturday => None,
            Weekday::Sunday => None,
        }
    }

    /// Converts the active day back to the general calendar weekday; total,
    /// order-preserving, and a right inverse of [`ActiveDay::from_weekday`].
    pub fn to_weekday(self) -> (r: Weekday)
        ensures
            r == self.spec_to_weekday(),
            r.spec_ordinal() == self.spec_ordinal(),
            ActiveDay::spec_from_weekday(r) == Some(self),
    {
        match self {
            ActiveDay::Monday => Weekday::Monday,
            ActiveDay::Tuesday => Weekday::Tuesday,
            ActiveDay::Wednesday => Weekday::Wednesday,
            ActiveDay::Thursday => Weekday::Thursday,
            ActiveDay::Friday => Weekday::Friday,
        }
    }
}

/// A wall-clock time of day, reduced to its hour and minute components.
///
/// The invariant `hour <= 23 && minute <= 59` holds for the lifetime of
/// every instance; the validating constructor [`TimeOfDay::new`] is the only
/// way to obtain one.
#[derive(Debug, Clone, Copy, PartialEq, Eq)]
pub struct TimeOfDay {
    hour: u8,
    minute: u8,
}

impl TimeOfDay {
    /// The hour component, in `0..24`.
    pub closed spec fn spec_hour(self) -> u8 {
        self.hour
    }

    /// The minute component, in `0..60`.
    pub closed spec fn spec_minute(self) -> u8 {
        self.minute
    }

    #[verifier::type_invariant]
    spec fn wall_clock(self) -> bool {
        self.hour <= 23 && self.minute <= 59
    }

    /// The number of minutes since midnight, in `0..1440`.
    pub open spec fn spec_minutes_from_midnight(self) -> int {
        self.spec_hour() as int * 60 + self.spec_minute() as int
    }

    /// Creates a time of day from an hour and a minute, or [`None`] if
    /// either component is out of range.
    pub fn new(hour: u8, minute: u8) -> (r: Option<TimeOfDay>)
        ensures
            r is Some <==> (hour <= 23 && minute <= 59),
            r matches Some(t) ==> t.spec_hour() == hour && t.spec_minute() == minute,
    {
        if hour <= 23 && minute <= 59 {
            Some(TimeOfDay { hour, minute })
        } else {
            None
        }
    }

    /// The hour component.
    pub fn hour(self) -> (r: u8)
        ensures
            r == self.spec_hour(),
            r <= 23,
    {
        proof {
            use_type_invariant(self);
        }
        self.hour
    }

    /// The minute component.
    pub fn minute(self) -> (r: u8)
        ensures
            r == self.spec_minute(),
            r <= 59,
    {
        proof {
            use_type_invariant(self);
        }
        self.minute
    }

    /// The number of minutes the time is into the day, i.e. the number of
    /// minutes since midnight.
    pub fn minutes_from_midnight(self) -> (r: u16)
        ensures
            r == self.spec_minutes_from_midnight(),
            r < 1440,
    {
        proof {
            use_type_invariant(self);
        }
        self.hour as u16 * 60 + self.minute as u16
    }
}

/// A period for an [`ActiveDay`].
///
/// The eight periods subdivide one active day in chronological order; each
/// owns a fixed half-open wall-clock interval (the end minute is excluded),
/// the same on every active day.
#[derive(Debug, Clone, Copy, PartialEq, Eq)]
pub enum Period {
    /// Tutor time which takes place every morning between `08:25` and
    /// `08:50`, typically used for registration.
    Tutor,
    /// The first lesson period of a day, between `08:50` and `09:50`.
    First,
    /// The second lesson period of a day, between `09:50` and `10:50`.
    Second,
    /// A short recess which takes place between `10:50` and `11:10`.
    Break,
    /// The third lesson period of a day, after break, between `11:10` and
    /// `12:10`.
    Third,
    /// The fourth lesson period of a day, between `12:10` and `13:10`.
    Fourth,
    /// A longer recess, typically for eating lunch, between `13:10` and
    /// `13:55`.
    Lunch,
    /// The fifth lesson period of a day, after lunch, between `13:55` and
    /// `14:55`.
    Fifth,
}

impl Period {
    /// The ordinal position of the period within a day: `0` for
    /// [`Period::Tutor`] through `7` for [`Period::Fifth`].
    pub open spec fn spec_ordinal(self) -> int {
        match self {
            Period::Tutor => 0,
            Period::First => 1,
            Period::Second => 2,
            Period::Break => 3,
            Period::Third => 4,
            Period::Fourth => 5,
            Period::Lunch => 6,
            Period::Fifth => 7,
        }
    }

    /// The period at ordinal position `n`, where `n` is expected to lie in
    /// `0..PERIODS_PER_DAY`; outside that range the result is pinned to
    /// [`Period::Fifth`] for totality.
    pub open spec fn spec_from_ordinal(n: int) -> Period {
        if n == 0 {
            Period::Tutor
        } else if n == 1 {
            Period::First
        } else if n == 2 {
            Period::Second
        } else if n == 3 {
            Period::Break
        } else if n == 4 {
            Period::Third
        } else if n == 5 {
            Period::Fourth
        } else if n == 6 {
            Period::Lunch
        } else {
            Period::Fifth
        }
    }

    /// The first minute since midnight of the period's wall-clock interval;
    /// a timestamp exactly at this minute belongs to the period.
    pub open spec fn spec_start_minute(self) -> int {
        match self {
            Period::Tutor => 505,
            Period::First => 530,
            Period::Second => 590,
            Period::Break => 650,
            Period::Third => 670,
            Period::Fourth => 730,
            Period::Lunch => 790,
            Period::Fifth => 835,
        }
    }

    /// The first minute since midnight after the period's wall-clock
    /// interval; the interval is half-open, so a timestamp exactly at this
    /// minute does not belong to the period.
    pub open spec fn spec_end_minute(self) -> int {
        match self {
            Period::Tutor => 530,
            Period::First => 590,
            Period::Second => 650,
            Period::Break => 670,
            Period::Third => 730,
            Period::Fourth => 790,
            Period::Lunch => 835,
            Period::Fifth => 895,
        }
    }

    /// The period whose interval contains minute `m` since midnight, or
    /// [`None`] if `m` falls outside every period's interval.
    pub open spec fn spec_classify(m: int) -> Option<Period> {
        if 505 <= m < 530 {
            Some(Period::Tutor)
        } else if 530 <= m < 590 {
            Some(Period::First)
        } else if 590 <= m < 650 {
            Some(Period::Second)
        } else if 650 <= m < 670 {
            Some(Period::Break)
        } else if 670 <= m < 730 {
            Some(Period::Third)
        } else if 730 <= m < 790 {
            Some(Period::Fourth)
        } else if 790 <= m < 835 {
            Some(Period::Lunch)
        } else if 835 <= m < 895 {
            Some(Period::Fifth)
        } else {
            None
        }
    }

    /// Returns the ordinal position of the period within a day.
    pub fn to_ordinal(self) -> (r: usize)
        ensures
            r == self.spec_ordinal(),
            r < PERIODS_PER_DAY,
    {
        match self {
            Period::Tutor => 0,
            Period::First => 1,
            Period::Second => 2,
            Period::Break => 3,
            Period::Third => 4,
            Period::Fourth => 5,
            Period::Lunch => 6,
            Period::Fifth => 7,
        }
    }

    /// Returns the period at ordinal position `n`, or [`None`] if `n` is
    /// not the ordinal of any period.
    pub fn from_ordinal(n: usize) -> (r: Option<Period>)
        ensures
            n < PERIODS_PER_DAY ==> r == Some(Period::spec_from_ordinal(n as int)),
            n >= PERIODS_PER_DAY ==> r is None,
    {
        match n {
            0 => Some(Period::Tutor),
            1 => Some(Period::First),
            2 => Some(Period::Second),
            3 => Some(Period::Break),
            4 => Some(Period::Third),
            5 => Some(Period::Fourth),
            6 => Some(Period::Lunch),
            7 => Some(Period::Fifth),
            _ => None,
        }
    }

    /// Creates a new `Period` based on the `time` provided -- if the `time`
    /// provided falls within a period's allocated interval, that period is
    /// returned, otherwise [`None`] is returned.
    ///
    /// Every interval is half-open: a time exactly at a period's end minute
    /// belongs to the next period, or to no period after the last one.
    pub fn from_time(time: TimeOfDay) -> (r: Option<Period>)
        ensures
            r == Period::spec_classify(time.spec_minutes_from_midnight()),
    {
        let m = time.minutes_from_midnight();
        if m < 505 {
            None
        } else if m < 530 {
            Some(Period::Tutor)
        } else if m < 590 {
            Some(Period::First)
        } else if m < 650 {
            Some(Period::Second)
        } else if m < 670 {
            Some(Period::Break)
        } else if m < 730 {
            Some(Period::Third)
        } else if m < 790 {
            Some(Period::Fourth)
        } else if m < 835 {
            Some(Period::Lunch)
        } else if m < 895 {
            Some(Period::Fifth)
        } else {
            None
        }
    }
}

/// A specific timeslot on the two-week alternating timetable.
///
/// Each timeslot is assigned a unique *index* depending on its chronological
/// position within the timetable: the very first timeslot (week one, Monday,
/// tutor time) has index `0` and the very last (week two, Friday, fifth
/// period) has index `PERIODS_PER_ITERATION - 1`. The index is a mixed-radix
/// encoding with radices `(WEEKS_PER_ITERATION, DAYS_PER_WEEK,
/// PERIODS_PER_DAY)` and is primarily meant for indexing arrays of
/// `PERIODS_PER_ITERATION` elements.
///
/// Timeslots are iteration independent: a slot names a position within the
/// repeating two-week cycle, not a position in real time.
#[derive(Debug, Clone, Copy, PartialEq, Eq)]
pub struct TimeSlot {
    pub week: Week,
    pub day: ActiveDay,
    pub period: Period,
}

impl TimeSlot {
    /// The flat index of the slot within one iteration: the mixed-radix
    /// value of its week, day and period ordinals.
    pub open spec fn spec_index(self) -> int {
        self.week.spec_ordinal() * PERIODS_PER_WEEK as int
            + self.day.spec_ordinal() * PERIODS_PER_DAY as int + self.period.spec_ordinal()
    }

    /// The slot at flat index `i`: the mixed-radix decomposition of `i`
    /// into a week, day and period ordinal.
    pub open spec fn spec_with_index(i: int) -> TimeSlot {
        TimeSlot {
            week: Week::spec_from_ordinal(i / (PERIODS_PER_WEEK as int)),
            day: ActiveDay::spec_from_ordinal(
                (i % (PERIODS_PER_WEEK as int)) / (PERIODS_PER_DAY as int),
            ),
            period: Period::spec_from_ordinal(
                (i % (PERIODS_PER_WEEK as int)) % (PERIODS_PER_DAY as int),
            ),
        }
    }

    /// What a wall-clock timestamp resolves to: the slot composed of the
    /// supplied week, the active day of the weekday, and the period whose
    /// interval contains the time of day -- or nothing, if the weekday is a
    /// weekend day or the time falls outside every period.
    pub open spec fn spec_from_datetime(week: Week, day: Weekday, time: TimeOfDay) -> Option<
        TimeSlot,
    > {
        match (
            ActiveDay::spec_from_weekday(day),
            Period::spec_classify(time.spec_minutes_from_midnight()),
        ) {
            (Some(d), Some(p)) => Some(TimeSlot { week, day: d, period: p }),
            _ => None,
        }
    }

    /// Create the `TimeSlot` with an index of `index`.
    ///
    /// The argument type already restricts the index to
    /// `0..PERIODS_PER_ITERATION`, so the conversion is total and inverts
    /// [`TimeSlot::index`].
    pub fn with_index(index: RangedUsize<0, MAX_INDEX>) -> (r: TimeSlot)
        ensures
            r == TimeSlot::spec_with_index(index.spec_get() as int),
            r.spec_index() == index.spec_get(),
    {
        let index = index.get();
        proof {
            lemma_fundamental_div_mod(index as int, PERIODS_PER_WEEK as int);
            lemma_mod_bound(index as int, PERIODS_PER_WEEK as int);
            lemma_fundamental_div_mod(
                (index as int) % (PERIODS_PER_WEEK as int),
                PERIODS_PER_DAY as int,
            );
            lemma_mod_bound((index as int) % (PERIODS_PER_WEEK as int), PERIODS_PER_DAY as int);
        }
        let rem = index % PERIODS_PER_WEEK;
        let week = if index / PERIODS_PER_WEEK == 0 {
            Week::One
        } else {
            Week::Two
        };
        let day = ActiveDay::from_ordinal(rem / PERIODS_PER_DAY).unwrap();
        let period = Period::from_ordinal(rem % PERIODS_PER_DAY).unwrap();
        TimeSlot { week, day, period }
    }

    /// Creates a new `TimeSlot` for a wall-clock timestamp, given as the
    /// weekday and time of day it falls on -- if the weekday is an active
    /// day and the time falls within a period's allocated interval, the
    /// composed slot is returned, otherwise [`None`] is returned.
    ///
    /// The `week` must be supplied by the caller: which of the two
    /// alternating weeks a calendar date belongs to is external state that
    /// cannot be derived from the date alone.
    pub fn from_datetime(week: Week, day: Weekday, time: TimeOfDay) -> (r: Option<TimeSlot>)
        ensures
            r == TimeSlot::spec_from_datetime(week, day, time),
    {
        let day = match ActiveDay::from_weekday(day) {
            Some(d) => d,
            None => {
                return None;
            },
        };
        let period = match Period::from_time(time) {
            Some(p) => p,
            None => {
                return None;
            },
        };
        Some(TimeSlot { week, day, period })
    }

    /// Retrieves the `index` of the `TimeSlot`.
    ///
    /// The value returned is always in the range `0..PERIODS_PER_ITERATION`
    /// and can therefore be used to index an array of
    /// `PERIODS_PER_ITERATION` elements.
    pub fn index(self) -> (r: usize)
        ensures
            r == self.spec_index(),
            r < PERIODS_PER_ITERATION,
    {
        self.week.to_ordinal() * PERIODS_PER_WEEK
            + self.day.num_days_from_monday() * PERIODS_PER_DAY + self.period.to_ordinal()
    }
}

/// Decoding an index to a slot and re-encoding the slot yields the same
/// index: for every `i` in `0..PERIODS_PER_ITERATION`,
/// `spec_with_index(i).spec_index() == i`.
pub proof fn lemma_index_round_trip(i: int)
    requires
        0 <= i < PERIODS_PER_ITERATION,
    ensures
        TimeSlot::spec_with_index(i).spec_index() == i,
{
    lemma_fundamental_div_mod(i, PERIODS_PER_WEEK as int);
    lemma_mod_bound(i, PERIODS_PER_WEEK as int);
    lemma_fundamental_div_mod(i % (PERIODS_PER_WEEK as int), PERIODS_PER_DAY as int);
    lemma_mod_bound(i % (PERIODS_PER_WEEK as int), PERIODS_PER_DAY as int);
}

/// Encoding a slot to its index and decoding the index yields the same
/// slot: for every valid `TimeSlot` value `s`,
/// `spec_with_index(s.spec_index()) == s`.
pub proof fn lemma_slot_round_trip(s: TimeSlot)
    ensures
        TimeSlot::spec_with_index(s.spec_index()) == s,
{
    let w = s.week.spec_ordinal();
    let d = s.day.spec_ordinal();
    let p = s.period.spec_ordinal();
    let i = s.spec_index();
    lemma_fundamental_div_mod_converse(
        i,
        PERIODS_PER_WEEK as int,
        w,
        d * (PERIODS_PER_DAY as int) + p,
    );
    lemma_fundamental_div_mod_converse(
        d * (PERIODS_PER_DAY as int) + p,
        PERIODS_PER_DAY as int,
        d,
        p,
    );
}

/// The classifier locates the unique interval containing a minute: when it
/// returns a period, the minute lies within that period's half-open
/// interval, and when it returns nothing, the minute lies within no
/// period's interval.
pub proof fn lemma_classify_characterization(m: int)
    ensures
        Period::spec_classify(m) matches Some(p) ==> p.spec_start_minute() <= m
            < p.spec_end_minute(),
        Period::spec_classify(m) is None ==> forall|p: Period|
            !(#[trigger] p.spec_start_minute() <= m < p.spec_end_minute()),
{
}

/// A timestamp exactly at a period's start minute classifies to that
/// period.
pub proof fn lemma_start_minute_included(p: Period)
    ensures
        Period::spec_classify(p.spec_start_minute()) == Some(p),
{
}

/// A timestamp exactly at a period's end minute never classifies to that
/// period: it classifies to the next period in the day's order, or to
/// nothing after the last period.
pub proof fn lemma_end_minute_excluded(p: Period)
    ensures
        Period::spec_classify(p.spec_end_minute()) != Some(p),
        p.spec_ordinal() < PERIODS_PER_DAY as int - 1 ==> Period::spec_classify(p.spec_end_minute())
            == Some(Period::spec_from_ordinal(p.spec_ordinal() + 1)),
        p == Period::Fifth ==> Period::spec_classify(p.spec_end_minute()) is None,
{
}

/// A weekend day never resolves to a slot: for every week and every time of
/// day, resolving a Saturday or Sunday timestamp fails.
pub proof fn lemma_weekend_never_resolves(week: Week, day: Weekday, time: TimeOfDay)
    requires
        day == Weekday::Saturday || day == Weekday::Sunday,
    ensures
        TimeSlot::spec_from_datetime(week, day, time) is None,
{
}

} // verus!
