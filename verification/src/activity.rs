//! Subjects, classes and the activities that occupy timeslots.

use vstd::prelude::*;
use vstd::utf8::is_ascii_chars;

use crate::location::Location;

verus! {

/// A subject/course which a student can undertake.
///
/// The `name` of the `Subject` must be an ASCII string with a length in the
/// range `1..=16`.
#[derive(Debug, Clone, PartialEq, Eq)]
pub struct Subject(String);

impl Subject {
    /// The name of the subject.
    pub closed spec fn spec_name(self) -> Seq<char> {
        self.0@
    }

    /// Creates a new `Subject`.
    ///
    /// Returns [`Some`] if `name` is an ASCII string with a length in the
    /// range `1..=16`, and [`None`] otherwise.
    pub fn new(name: String) -> (r: Option<Subject>)
        ensures
            r is Some <==> (is_ascii_chars(name@) && 1 <= name@.len() <= 16),
            r matches Some(s) ==> s.spec_name() == name@,
    {
        let len = name.as_str().unicode_len();
        if len < 1 || len > 16 || !name.is_ascii() {
            None
        } else {
            Some(Subject(name))
        }
    }

    /// Retrieve the name of the `Subject`.
    pub fn name(&self) -> (r: &String)
        ensures
            r@ == self.spec_name(),
    {
        &self.0
    }
}

/// The class for a particular lesson.
///
/// In some cases, students may have multiple teachers for a particular
/// subject (or, a teacher may teach a particular subject to multiple groups
/// of children) -- as a result, each lesson comes with class information to
/// help students and teachers differentiate between lessons of the same
/// subject.
///
/// The class `reference` must be an ASCII string with a length in the range
/// `1..=32`.
#[derive(Debug, Clone, PartialEq, Eq)]
pub struct Class(String);

impl Class {
    /// The reference of the class: a shorthand identifier, usually the
    /// teacher's name for a student's timetable and the school's official
    /// class identifier for a teacher's.
    pub closed spec fn spec_reference(self) -> Seq<char> {
        self.0@
    }

    /// Create a new `Class`.
    ///
    /// Returns [`Some`] if `reference` is an ASCII string with a length in
    /// the range `1..=32`, and [`None`] otherwise.
    pub fn new(reference: String) -> (r: Option<Class>)
        ensures
            r is Some <==> (is_ascii_chars(reference@) && 1 <= reference@.len() <= 32),
            r matches Some(c) ==> c.spec_reference() == reference@,
    {
        let len = reference.as_str().unicode_len();
        if len < 1 || len > 32 || !reference.is_ascii() {
            None
        } else {
            Some(Class(reference))
        }
    }

    /// Retrieves the reference of the `Class`.
    pub fn reference(&self) -> (r: &String)
        ensures
            r@ == self.spec_reference(),
    {
        &self.0
    }
}

/// An activity which can occur over one or more timeslots.
#[derive(Debug, Clone, PartialEq, Eq)]
pub enum Activity {
    /// A lesson.
    Lesson {
        /// The subject of the lesson.
        subject: Subject,
        /// The class of the lesson; in most cases, this names the teacher
        /// who teaches it.
        class: Class,
        /// The [`Location`] of the lesson (i.e., the room in which the
        /// lesson takes place).
        location: Location,
    },
    /// Where the students are required to register their presence with a
    /// teacher (but aren't expected to complete any work for a subject).
    Registration,
    /// A break (where the student is not expected to complete any work and
    /// is free to relax).
    Break,
    /// Where the student will be expected to study any subject of their
    /// choosing at school.
    SchoolStudy,
    /// Similar to [`Activity::SchoolStudy`], except the student is free to
    /// study at home instead of school.
    HomeStudy,
    /// The student has a miscellaneous recurring `Activity` with the given
    /// description; this is not for one-off events.
    Miscellaneous(String),
}

impl Activity {
    /// The display text of the activity: the subject, class reference and
    /// room identifier of a lesson separated by single spaces, the fixed
    /// label of the other timetabled activities, and the free-form
    /// description of a miscellaneous activity.
    pub open spec fn spec_description(self) -> Seq<char> {
        match self {
            Activity::Lesson { subject, class, location } => subject.spec_name() + " "@
                + class.spec_reference() + " "@ + location.spec_identifier(),
            Activity::Registration => "Registration"@,
            Activity::Break => "Break"@,
            Activity::SchoolStudy => "Independent Study"@,
            Activity::HomeStudy => "Home Study"@,
            Activity::Miscellaneous(description) => description@,
        }
    }

    /// Returns the display text of the activity.
    pub fn description(&self) -> (r: String)
        ensures
            r@ == self.spec_description(),
    {
        match self {
            Activity::Lesson { subject, class, location } => {
                let mut out = subject.name().clone();
                out.append(" ");
                out.append(class.reference().as_str());
                out.append(" ");
                let location_part = location.identifier();
                out.append(location_part.as_str());
                proof {
                    assert(out@ =~= self.spec_description());
                }
                out
            },
            Activity::Registration => String::from_str("Registration"),
            Activity::Break => String::from_str("Break"),
            Activity::SchoolStudy => String::from_str("Independent Study"),
            Activity::HomeStudy => String::from_str("Home Study"),
            Activity::Miscellaneous(description) => description.clone(),
        }
    }
}

} // verus!
