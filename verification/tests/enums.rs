use itm::{Climate, Mode, ModeVariability, Polarization, SittingCriteria, Variability};

#[test]
fn polarization_codes() {
    assert_eq!(Polarization::Horizontal.code(), 0);
    assert_eq!(Polarization::Vertical.code(), 1);
}

#[test]
fn sitting_criteria_codes() {
    assert_eq!(SittingCriteria::Random.code(), 0);
    assert_eq!(SittingCriteria::Careful.code(), 1);
    assert_eq!(SittingCriteria::VeryCareful.code(), 2);
}

#[test]
fn climate_codes_count_from_one() {
    assert_eq!(Climate::Equatorial.code(), 1);
    assert_eq!(Climate::ContinentalSubtropical.code(), 2);
    assert_eq!(Climate::MaritimeSubtropical.code(), 3);
    assert_eq!(Climate::Desert.code(), 4);
    assert_eq!(Climate::ContinentalTemperate.code(), 5);
    assert_eq!(Climate::MaritimeTemperateOverLand.code(), 6);
    assert_eq!(Climate::MaritimeTemperateOverSea.code(), 7);
}

#[test]
fn mode_codes() {
    assert_eq!(Mode::NotSet.code(), 0);
    assert_eq!(Mode::LineOfSight.code(), 1);
    assert_eq!(Mode::Diffraction.code(), 2);
    assert_eq!(Mode::Troposcatter.code(), 3);
}

#[test]
fn variability_codes() {
    assert_eq!(Variability::SingleMessage.code(), 0);
    assert_eq!(Variability::Accidental.code(), 1);
    assert_eq!(Variability::Mobile.code(), 2);
    assert_eq!(Variability::Broadcast.code(), 3);
}

#[test]
fn mode_variability_is_variability() {
    let v: ModeVariability = Variability::Mobile;
    assert_eq!(v, ModeVariability::Mobile);
    assert_eq!(ModeVariability::Broadcast.code(), 3);
}

#[test]
fn polarization_from_code_is_the_inverse_of_code() {
    for p in [Polarization::Horizontal, Polarization::Vertical] {
        assert_eq!(Polarization::from_code(p.code()), Some(p));
    }
    let mut known = 0;
    for code in -10..=10 {
        match Polarization::from_code(code) {
            Some(p) => {
                assert_eq!(p.code(), code);
                known += 1;
            }
            None => assert!(!(0..=1).contains(&code)),
        }
    }
    assert_eq!(known, 2);
}

#[test]
fn sitting_criteria_from_code_is_the_inverse_of_code() {
    for s in [SittingCriteria::Random, SittingCriteria::Careful, SittingCriteria::VeryCareful] {
        assert_eq!(SittingCriteria::from_code(s.code()), Some(s));
    }
    let mut known = 0;
    for code in -10..=10 {
        match SittingCriteria::from_code(code) {
            Some(s) => {
                assert_eq!(s.code(), code);
                known += 1;
            }
            None => assert!(!(0..=2).contains(&code)),
        }
    }
    assert_eq!(known, 3);
}

#[test]
fn climate_from_code_is_the_inverse_of_code() {
    let all = [
        Climate::Equatorial,
        Climate::ContinentalSubtropical,
        Climate::MaritimeSubtropical,
        Climate::Desert,
        Climate::ContinentalTemperate,
        Climate::MaritimeTemperateOverLand,
        Climate::MaritimeTemperateOverSea,
    ];
    for c in all {
        assert_eq!(Climate::from_code(c.code()), Some(c));
    }
    let mut known = 0;
    for code in -10..=20 {
        match Climate::from_code(code) {
            Some(c) => {
                assert_eq!(c.code(), code);
                known += 1;
            }
            None => assert!(!(1..=7).contains(&code)),
        }
    }
    assert_eq!(known, 7);
}

#[test]
fn climate_has_no_code_zero() {
    assert_eq!(Climate::from_code(0), None);
    assert_eq!(Climate::from_code(8), None);
}

#[test]
fn mode_from_code_is_the_inverse_of_code() {
    for m in [Mode::NotSet, Mode::LineOfSight, Mode::Diffraction, Mode::Troposcatter] {
        assert_eq!(Mode::from_code(m.code()), Some(m));
    }
    let mut known = 0;
    for code in -10..=10 {
        match Mode::from_code(code) {
            Some(m) => {
                assert_eq!(m.code(), code);
                known += 1;
            }
            None => assert!(!(0..=3).contains(&code)),
        }
    }
    assert_eq!(known, 4);
}

#[test]
fn variability_from_code_is_the_inverse_of_code() {
    let all = [
        Variability::SingleMessage,
        Variability::Accidental,
        Variability::Mobile,
        Variability::Broadcast,
    ];
    for v in all {
        assert_eq!(Variability::from_code(v.code()), Some(v));
    }
    let mut known = 0;
    for code in -10..=10 {
        match Variability::from_code(code) {
            Some(v) => {
                assert_eq!(v.code(), code);
                known += 1;
            }
            None => assert!(!(0..=3).contains(&code)),
        }
    }
    assert_eq!(known, 4);
}

#[test]
fn codes_at_the_ends_of_the_integers_stand_for_nothing() {
    for code in [i32::MIN, -1, i32::MAX] {
        assert_eq!(Polarization::from_code(code), None);
        assert_eq!(SittingCriteria::from_code(code), None);
        assert_eq!(Climate::from_code(code), None);
        assert_eq!(Mode::from_code(code), None);
        assert_eq!(Variability::from_code(code), None);
    }
}

#[test]
fn variants_are_ordered_as_their_codes() {
    assert!(Polarization::Horizontal < Polarization::Vertical);
    assert!(SittingCriteria::Random < SittingCriteria::Careful);
    assert!(SittingCriteria::Careful < SittingCriteria::VeryCareful);
    assert!(Climate::Equatorial < Climate::Desert);
    assert!(Climate::Desert < Climate::MaritimeTemperateOverSea);
    assert!(Mode::NotSet < Mode::Troposcatter);
    assert!(Variability::SingleMessage < Variability::Broadcast);
}
