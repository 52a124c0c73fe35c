use timetableau::{
    Activity, Class, FearnhillRoom, FearnhillSection, HighfieldBlock, HighfieldFloor,
    HighfieldRoom, Location, RangedU8, Subject,
};

#[test]
fn subject_accepts_valid_names() {
    let subject = Subject::new(String::from("Maths")).unwrap();
    assert_eq!(subject.name().as_str(), "Maths");
    assert!(Subject::new(String::from("A")).is_some());
    assert!(Subject::new(String::from("ABCDEFGHIJKLMNOP")).is_some());
}

#[test]
fn subject_rejects_invalid_names() {
    assert!(Subject::new(String::new()).is_none());
    assert!(Subject::new(String::from("ABCDEFGHIJKLMNOPQ")).is_none());
    assert!(Subject::new(String::from("Mathématiques")).is_none());
}

#[test]
fn class_accepts_valid_references() {
    let class = Class::new(String::from("Mr. Smith")).unwrap();
    assert_eq!(class.reference().as_str(), "Mr. Smith");
    assert!(Class::new(String::from("A")).is_some());
    assert!(Class::new(String::from("ABCDEFGHIJKLMNOPQRSTUVWXYZ123456")).is_some());
}

#[test]
fn class_rejects_invalid_references() {
    assert!(Class::new(String::new()).is_none());
    assert!(Class::new(String::from("ABCDEFGHIJKLMNOPQRSTUVWXYZ1234567")).is_none());
    assert!(Class::new(String::from("Mme. Dupré")).is_none());
}

#[test]
fn highfield_room_identifiers() {
    let hg01 = HighfieldRoom::Classroom {
        block: HighfieldBlock::Howard,
        floor: HighfieldFloor::Ground,
        discriminator: RangedU8::new(1).unwrap(),
    };
    assert_eq!(hg01.identifier(), "HG01");

    let p212 = HighfieldRoom::Classroom {
        block: HighfieldBlock::Parker,
        floor: HighfieldFloor::Level(RangedU8::new(2).unwrap()),
        discriminator: RangedU8::new(12).unwrap(),
    };
    assert_eq!(p212.identifier(), "P212");

    let u111 = HighfieldRoom::Classroom {
        block: HighfieldBlock::Unwin,
        floor: HighfieldFloor::Level(RangedU8::new(1).unwrap()),
        discriminator: RangedU8::new(11).unwrap(),
    };
    assert_eq!(u111.identifier(), "U111");

    assert_eq!(HighfieldRoom::Hall.identifier(), "Hall");
    assert_eq!(HighfieldRoom::SportsHall.identifier(), "Sports Hall");
}

#[test]
fn fearnhill_room_identifiers() {
    let s13 = FearnhillRoom::Classroom {
        section: FearnhillSection::Science,
        discriminator: RangedU8::new(13).unwrap(),
    };
    assert_eq!(Location::Fearnhill(s13).identifier(), "FH S13");

    let b1 = FearnhillRoom::Classroom {
        section: FearnhillSection::Business,
        discriminator: RangedU8::new(1).unwrap(),
    };
    assert_eq!(Location::Fearnhill(b1).identifier(), "FH B1");

    let mu2 = FearnhillRoom::Classroom {
        section: FearnhillSection::Music,
        discriminator: RangedU8::new(2).unwrap(),
    };
    assert_eq!(Location::Fearnhill(mu2).identifier(), "FH Mu2");

    assert_eq!(
        Location::Fearnhill(FearnhillRoom::SportsHall).identifier(),
        "FH Sports Hall"
    );
    assert_eq!(
        Location::Fearnhill(FearnhillRoom::DanceStudio).identifier(),
        "FH Dance Studio"
    );
}

#[test]
fn location_identifier_distinguishes_schools() {
    assert_eq!(
        Location::Highfield(HighfieldRoom::SportsHall).identifier(),
        "Sports Hall"
    );
    assert_eq!(
        Location::Fearnhill(FearnhillRoom::SportsHall).identifier(),
        "FH Sports Hall"
    );
}

#[test]
fn activity_descriptions() {
    let lesson = Activity::Lesson {
        subject: Subject::new(String::from("Physics")).unwrap(),
        class: Class::new(String::from("Dr. Jones")).unwrap(),
        location: Location::Highfield(HighfieldRoom::Classroom {
            block: HighfieldBlock::Howard,
            floor: HighfieldFloor::Level(RangedU8::new(3).unwrap()),
            discriminator: RangedU8::new(7).unwrap(),
        }),
    };
    assert_eq!(lesson.description(), "Physics Dr. Jones H307");

    assert_eq!(Activity::Registration.description(), "Registration");
    assert_eq!(Activity::Break.description(), "Break");
    assert_eq!(Activity::SchoolStudy.description(), "Independent Study");
    assert_eq!(Activity::HomeStudy.description(), "Home Study");
    assert_eq!(
        Activity::Miscellaneous(String::from("Driving lesson")).description(),
        "Driving lesson"
    );
}
