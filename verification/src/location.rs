//! Locations of rooms within the Highfield school and the Fearnhill school.
//!
//! Each school numbers its classrooms by its own scheme: Highfield rooms
//! read `BF##` (block letter, floor, two-digit discriminator), Fearnhill
//! rooms read `S#` (section letter and discriminator) and carry an `FH `
//! prefix to disambiguate them from Highfield rooms. A handful of rooms at
//! either school predate the schemes and are identified by name instead.

use vstd::prelude::*;

use crate::ranged::RangedU8;

verus! {

/// The decimal digit character for `n`, expected to lie in `0..10`; pinned
/// to `'9'` outside that range for totality.
pub open spec fn spec_digit_char(n: int) -> char {
    if n == 0 {
        '0'
    } else if n == 1 {
        '1'
    } else if n == 2 {
        '2'
    } else if n == 3 {
        '3'
    } else if n == 4 {
        '4'
    } else if n == 5 {
        '5'
    } else if n == 6 {
        '6'
    } else if n == 7 {
        '7'
    } else if n == 8 {
        '8'
    } else {
        '9'
    }
}

/// The two-digit, zero-padded decimal rendering of `n`, expected to lie in
/// `0..100`.
pub open spec fn spec_two_digits(n: int) -> Seq<char> {
    seq![spec_digit_char(n / 10), spec_digit_char(n % 10)]
}

/// The unpadded decimal rendering of `n`, expected to lie in `0..100`.
pub open spec fn spec_decimal(n: int) -> Seq<char> {
    if n < 10 {
        seq![spec_digit_char(n)]
    } else {
        spec_two_digits(n)
    }
}

fn digit_str(d: u8) -> (r: &'static str)
    requires
        d < 10,
    ensures
        r@ == seq![spec_digit_char(d as int)],
{
    proof {
        reveal_strlit("0");
        reveal_strlit("1");
        reveal_strlit("2");
        reveal_strlit("3");
        reveal_strlit("4");
        reveal_strlit("5");
        reveal_strlit("6");
        reveal_strlit("7");
        reveal_strlit("8");
        reveal_strlit("9");
    }
    let r = match d {
        0 => "0",
        1 => "1",
        2 => "2",
        3 => "3",
        4 => "4",
        5 => "5",
        6 => "6",
        7 => "7",
        8 => "8",
        _ => "9",
    };
    proof {
        assert(r@ =~= seq![spec_digit_char(d as int)]);
    }
    r
}

/// A block at the Highfield school.
#[derive(Debug, Clone, Copy, PartialEq, Eq)]
pub enum HighfieldBlock {
    Howard,
    Parker,
    Unwin,
}

impl HighfieldBlock {
    /// The block's identifying letter within a room identifier.
    pub open spec fn spec_identifier(self) -> Seq<char> {
        match self {
            HighfieldBlock::Howard => seq!['H'],
            HighfieldBlock::Parker => seq!['P'],
            HighfieldBlock::Unwin => seq!['U'],
        }
    }

    /// Returns the block's identifying letter.
    pub fn identifier(self) -> (r: String)
        ensures
            r@ == self.spec_identifier(),
    {
        proof {
            reveal_strlit("H");
            reveal_strlit("P");
            reveal_strlit("U");
        }
        let r = match self {
            HighfieldBlock::Howard => String::from_str("H"),
            HighfieldBlock::Parker => String::from_str("P"),
            HighfieldBlock::Unwin => String::from_str("U"),
        };
        proof {
            assert(r@ =~= self.spec_identifier());
        }
        r
    }
}

/// A floor of a [`HighfieldBlock`].
#[derive(Debug, Clone, Copy, PartialEq, Eq)]
pub enum HighfieldFloor {
    /// The ground floor of a block.
    Ground,
    /// An upper level of a block.
    ///
    /// The level must be in the range `1..=9` -- as the
    /// [`HighfieldFloor::Ground`] option is offered there is no need for a
    /// level `0`, and the school will never have more than `9` levels.
    Level(RangedU8<1, 9>),
}

impl HighfieldFloor {
    /// The floor's rendering within a room identifier: `G` for the ground
    /// floor, the level digit for an upper level.
    pub open spec fn spec_identifier(self) -> Seq<char> {
        match self {
            HighfieldFloor::Ground => seq!['G'],
            HighfieldFloor::Level(level) => seq![spec_digit_char(level.spec_get() as int)],
        }
    }

    /// Returns the floor's rendering within a room identifier.
    pub fn identifier(self) -> (r: String)
        ensures
            r@ == self.spec_identifier(),
    {
        proof {
            reveal_strlit("G");
        }
        let r = match self {
            HighfieldFloor::Ground => String::from_str("G"),
            HighfieldFloor::Level(level) => String::from_str(digit_str(level.get())),
        };
        proof {
            assert(r@ =~= self.spec_identifier());
        }
        r
    }
}

/// A room at the Highfield school.
// non_exhaustive is used for two reasons:
//  1. An exhaustive list of all of Highfield's rooms has not yet been
//     obtained
//  2. New rooms could be created at Highfield.
#[derive(Debug, Clone, Copy, PartialEq, Eq)]
#[non_exhaustive]
pub enum HighfieldRoom {
    /// The hall at Highfield (in which assemblies can be held).
    Hall,
    /// The sports hall (generally used for P.E.).
    SportsHall,
    /// A classroom at the Highfield school.
    Classroom {
        /// The block in which the room is located.
        block: HighfieldBlock,
        /// The floor on which the room is located.
        floor: HighfieldFloor,
        /// The discriminator of the room, distinguishing rooms on the same
        /// floor of the same block; rendered padded to two digits.
        discriminator: RangedU8<1, 99>,
    },
}

impl HighfieldRoom {
    /// The room's identifier: its name for the named rooms, and the
    /// block letter, floor and two-digit discriminator for a classroom.
    pub open spec fn spec_identifier(self) -> Seq<char> {
        match self {
            HighfieldRoom::Hall => "Hall"@,
            HighfieldRoom::SportsHall => "Sports Hall"@,
            HighfieldRoom::Classroom { block, floor, discriminator } => block.spec_identifier()
                + floor.spec_identifier() + spec_two_digits(discriminator.spec_get() as int),
        }
    }

    /// Returns the room's identifier.
    pub fn identifier(self) -> (r: String)
        ensures
            r@ == self.spec_identifier(),
    {
        match self {
            HighfieldRoom::Hall => String::from_str("Hall"),
            HighfieldRoom::SportsHall => String::from_str("Sports Hall"),
            HighfieldRoom::Classroom { block, floor, discriminator } => {
                let d = discriminator.get();
                let mut out = block.identifier();
                let floor_part = floor.identifier();
                out.append(floor_part.as_str());
                out.append(digit_str(d / 10));
                out.append(digit_str(d % 10));
                proof {
                    assert(out@ =~= self.spec_identifier());
                }
                out
            },
        }
    }
}

/// A section at the Fearnhill school, describing what subject a room is
/// intended for.
#[derive(Debug, Clone, Copy, PartialEq, Eq)]
pub enum FearnhillSection {
    Science,
    Business,
    PSHE,
    Languages,
    Technology,
    Mathematics,
    English,
    Music,
    Humanities,
    IT,
}

impl FearnhillSection {
    /// The section's identifying letters within a room identifier.
    pub open spec fn spec_identifier(self) -> Seq<char> {
        match self {
            FearnhillSection::Science => "S"@,
            FearnhillSection::Business => "B"@,
            FearnhillSection::PSHE => "P"@,
            FearnhillSection::Languages => "L"@,
            FearnhillSection::Technology => "T"@,
            FearnhillSection::Mathematics => "M"@,
            FearnhillSection::English => "E"@,
            FearnhillSection::Music => "Mu"@,
            FearnhillSection::Humanities => "H"@,
            FearnhillSection::IT => "I"@,
        }
    }

    /// Returns the section's identifying letters.
    pub fn identifier(self) -> (r: String)
        ensures
            r@ == self.spec_identifier(),
    {
        match self {
            FearnhillSection::Science => String::from_str("S"),
            FearnhillSection::Business => String::from_str("B"),
            FearnhillSection::PSHE => String::from_str("P"),
            FearnhillSection::Languages => String::from_str("L"),
            FearnhillSection::Technology => String::from_str("T"),
            FearnhillSection::Mathematics => String::from_str("M"),
            FearnhillSection::English => String::from_str("E"),
            FearnhillSection::Music => String::from_str("Mu"),
            FearnhillSection::Humanities => String::from_str("H"),
            FearnhillSection::IT => String::from_str("I"),
        }
    }
}

/// A room at the Fearnhill school.
// non_exhaustive is used for two reasons:
//  1. An exhaustive list of all Fearnhill's rooms has yet to be obtained
//  2. Fearnhill may add additional rooms at any time (and, as a result,
//     new variants may need to be added to the enumeration)
#[derive(Debug, Clone, Copy, PartialEq, Eq)]
#[non_exhaustive]
pub enum FearnhillRoom {
    /// The sports hall at Fearnhill (primarily used for P.E.).
    SportsHall,
    /// The gym at Fearnhill (primarily used for P.E.).
    Gym,
    /// The dance studio at Fearnhill.
    DanceStudio,
    /// The drama studio at Fearnhill.
    DramaStudio,
    /// A classroom at Fearnhill.
    Classroom {
        /// The section in which the classroom is located.
        section: FearnhillSection,
        /// The discriminator of the classroom, distinguishing classrooms
        /// within the same section; rendered unpadded.
        discriminator: RangedU8<1, 99>,
    },
}

impl FearnhillRoom {
    /// The room's identifier: its name for the named rooms, and the section
    /// letters followed by the unpadded discriminator for a classroom.
    pub open spec fn spec_identifier(self) -> Seq<char> {
        match self {
            FearnhillRoom::SportsHall => "Sports Hall"@,
            FearnhillRoom::Gym => "Gym"@,
            FearnhillRoom::DanceStudio => "Dance Studio"@,
            FearnhillRoom::DramaStudio => "Drama Studio"@,
            FearnhillRoom::Classroom { section, discriminator } => section.spec_identifier()
                + spec_decimal(discriminator.spec_get() as int),
        }
    }

    /// Returns the room's identifier.
    pub fn identifier(self) -> (r: String)
        ensures
            r@ == self.spec_identifier(),
    {
        match self {
            FearnhillRoom::SportsHall => String::from_str("Sports Hall"),
            FearnhillRoom::Gym => String::from_str("Gym"),
            FearnhillRoom::DanceStudio => String::from_str("Dance Studio"),
            FearnhillRoom::DramaStudio => String::from_str("Drama Studio"),
            FearnhillRoom::Classroom { section, discriminator } => {
                let d = discriminator.get();
                let mut out = section.identifier();
                if d < 10 {
                    out.append(digit_str(d));
                } else {
                    out.append(digit_str(d / 10));
                    out.append(digit_str(d % 10));
                }
                proof {
                    assert(out@ =~= self.spec_identifier());
                }
                out
            },
        }
    }
}

/// A location of a room (in which a lesson can take place) in either the
/// Highfield school or the Fearnhill school.
#[derive(Debug, Clone, Copy, PartialEq, Eq)]
pub enum Location {
    /// The location of a room at the Highfield school.
    Highfield(HighfieldRoom),
    /// The location of a room at the Fearnhill school.
    Fearnhill(FearnhillRoom),
}

impl Location {
    /// The location's identifier: the room identifier, prefixed with `FH `
    /// for a Fearnhill room so that it cannot be mistaken for a Highfield
    /// room with the same identifier.
    pub open spec fn spec_identifier(self) -> Seq<char> {
        match self {
            Location::Highfield(room) => room.spec_identifier(),
            Location::Fearnhill(room) => "FH "@ + room.spec_identifier(),
        }
    }

    /// Returns the location's identifier.
    pub fn identifier(self) -> (r: String)
        ensures
            r@ == self.spec_identifier(),
    {
        match self {
            Location::Highfield(room) => room.identifier(),
            Location::Fearnhill(room) => {
                let mut out = String::from_str("FH ");
                let room_part = room.identifier();
                out.append(room_part.as_str());
                proof {
                    assert(out@ =~= self.spec_identifier());
                }
                out
            },
        }
    }
}

} // verus!
