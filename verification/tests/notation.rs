use timetableau::notation::{decode, encode};
use timetableau::{ActiveDay, Period, RangedUsize, TimeSlot, Week};

#[test]
fn encode_produces_canonical_token() {
    let slot = TimeSlot {
        week: Week::One,
        day: ActiveDay::Monday,
        period: Period::Second,
    };
    assert_eq!(encode(slot), "W1DMP2");

    let slot = TimeSlot {
        week: Week::Two,
        day: ActiveDay::Thursday,
        period: Period::Fifth,
    };
    assert_eq!(encode(slot), "W2DRP5");

    let slot = TimeSlot {
        week: Week::One,
        day: ActiveDay::Monday,
        period: Period::Tutor,
    };
    assert_eq!(encode(slot), "W1DMPT");

    let slot = TimeSlot {
        week: Week::One,
        day: ActiveDay::Wednesday,
        period: Period::Lunch,
    };
    assert_eq!(encode(slot), "W1DWPL");
}

#[test]
fn decode_canonical_token() {
    assert_eq!(
        decode("W1DMP2"),
        Some(TimeSlot {
            week: Week::One,
            day: ActiveDay::Monday,
            period: Period::Second
        })
    );
    assert_eq!(
        decode("W2DRP5"),
        Some(TimeSlot {
            week: Week::Two,
            day: ActiveDay::Thursday,
            period: Period::Fifth
        })
    );
    assert_eq!(
        decode("W1DFPB"),
        Some(TimeSlot {
            week: Week::One,
            day: ActiveDay::Friday,
            period: Period::Break
        })
    );
}

#[test]
fn decode_abbreviated_token() {
    // The abbreviated form leaves out the literal `D` before the day letter.
    assert_eq!(
        decode("W2RP3"),
        Some(TimeSlot {
            week: Week::Two,
            day: ActiveDay::Thursday,
            period: Period::Third
        })
    );
    assert_eq!(
        decode("W1MPT"),
        Some(TimeSlot {
            week: Week::One,
            day: ActiveDay::Monday,
            period: Period::Tutor
        })
    );
}

#[test]
fn decode_accepts_iteration_prefix() {
    let expected = Some(TimeSlot {
        week: Week::One,
        day: ActiveDay::Monday,
        period: Period::Second,
    });
    assert_eq!(decode("I2W1DMP2"), expected);
    assert_eq!(decode("I17W1DMP2"), expected);
    assert_eq!(decode("I2W1MP2"), expected);
}

#[test]
fn decode_rejects_lowercase_token() {
    assert_eq!(decode("w1dmp2"), None);
    assert_eq!(decode("w2rp3"), None);
    assert_eq!(decode("W1dMP2"), None);
}

#[test]
fn decode_rejects_malformed_tokens() {
    // No active day starts with `S`.
    assert_eq!(decode("W1DSP1"), None);
    // Week digit out of range.
    assert_eq!(decode("W3DMP1"), None);
    assert_eq!(decode("W0DMP1"), None);
    // Unknown period code.
    assert_eq!(decode("W1DMP6"), None);
    assert_eq!(decode("W1DMPX"), None);
    // Wrong shape.
    assert_eq!(decode(""), None);
    assert_eq!(decode("W1DM"), None);
    assert_eq!(decode("W1DMP25"), None);
    assert_eq!(decode("X1DMP2"), None);
    assert_eq!(decode("W1XMP2"), None);
    // An iteration prefix needs at least one digit and a token body.
    assert_eq!(decode("IW1DMP2"), None);
    assert_eq!(decode("I2"), None);
    assert_eq!(decode("I"), None);
}

#[test]
fn codec_round_trip_every_slot() {
    for i in 0..80 {
        let slot = TimeSlot::with_index(RangedUsize::new(i).unwrap());
        let token = encode(slot);
        assert_eq!(decode(&token), Some(slot));
    }
}
