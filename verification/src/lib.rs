//! Timetable addressing for a two-week alternating school timetable.
//!
//! The timetable repeats after two weeks (week one and week two); each week
//! has five active days (Monday to Friday), and each active day is divided
//! into eight ordered periods, from morning tutor time to the fifth lesson.
//! One addressable unit of the timetable is a [`TimeSlot`]: a (week, day,
//! period) triple.
//!
//! The crate provides three interchangeable representations of a slot,
//! together with the conversions between them:
//!
//! * the structured triple itself ([`TimeSlot`]);
//! * a flat index in `0..`[`PERIODS_PER_ITERATION`], suitable for array
//!   lookups ([`TimeSlot::index`], [`TimeSlot::with_index`]);
//! * a compact textual token such as `W1DMP2` ([`notation::encode`],
//!   [`notation::decode`]).
//!
//! A wall-clock classifier maps an hour-and-minute time of day onto the
//! period whose interval contains it ([`Period::from_time`]), and
//! [`TimeSlot::from_datetime`] combines it with a weekday to resolve a real
//! timestamp to a slot. Which of the two alternating weeks is current cannot
//! be derived from a calendar date alone and must always be supplied by the
//! caller.
//!
//! Around this core sit small validated value objects for the surrounding
//! domain: subjects, classes and activities ([`Subject`], [`Class`],
//! [`Activity`]) and the room locations of the two schools ([`Location`]).

pub use ranged::{RangedU8, RangedUsize};
pub use timeslot::{
    ActiveDay, Period, TimeOfDay, TimeSlot, Week, Weekday, DAYS_PER_WEEK, MAX_INDEX,
    PERIODS_PER_DAY, PERIODS_PER_ITERATION, PERIODS_PER_WEEK, WEEKS_PER_ITERATION,
};
pub use activity::{Activity, Class, Subject};
pub use location::{
    FearnhillRoom, FearnhillSection, HighfieldBlock, HighfieldFloor, HighfieldRoom, Location,
};

mod ranged;

mod timeslot;

pub mod notation;

mod activity;

mod location;
