use lzo_safe::LzoError;

#[test]
fn documented_codes_map_to_their_outcomes() {
    assert_eq!(LzoError::from_code(0), LzoError::Success);
    assert_eq!(LzoError::from_code(-1), LzoError::Error);
    assert_eq!(LzoError::from_code(-2), LzoError::OutOfMemory);
    assert_eq!(LzoError::from_code(-3), LzoError::NotCompressible);
    assert_eq!(LzoError::from_code(-4), LzoError::InputOverrun);
    assert_eq!(LzoError::from_code(-5), LzoError::OutputOverrun);
    assert_eq!(LzoError::from_code(-6), LzoError::LookbehindOverrun);
    assert_eq!(LzoError::from_code(-7), LzoError::EofNotFound);
    assert_eq!(LzoError::from_code(-8), LzoError::InputNotConsumed);
    assert_eq!(LzoError::from_code(-9), LzoError::NotYetImplemented);
    assert_eq!(LzoError::from_code(-10), LzoError::InvalidArgument);
    assert_eq!(LzoError::from_code(-11), LzoError::InvalidAlignment);
    assert_eq!(LzoError::from_code(-12), LzoError::OutputNotConsumed);
}

#[test]
fn documented_codes_map_to_distinct_outcomes() {
    let outcomes: Vec<LzoError> = (-12..=0).map(LzoError::from_code).collect();
    for (i, a) in outcomes.iter().enumerate() {
        for b in outcomes.iter().skip(i + 1) {
            assert_ne!(a, b);
        }
    }
}

#[test]
fn undocumented_codes_fall_to_the_catch_all() {
    assert_eq!(LzoError::from_code(-99), LzoError::InternalError);
    assert_eq!(LzoError::from_code(-13), LzoError::InternalError);
    assert_eq!(LzoError::from_code(1), LzoError::InternalError);
    assert_eq!(LzoError::from_code(i32::MAX), LzoError::InternalError);
    assert_eq!(LzoError::from_code(i32::MIN), LzoError::InternalError);
}

#[test]
fn every_outcome_has_its_fixed_message() {
    assert_eq!(LzoError::Success.message(), "ok");
    assert_eq!(LzoError::Error.message(), "error");
    assert_eq!(LzoError::OutOfMemory.message(), "out of memory");
    assert_eq!(LzoError::NotCompressible.message(), "not compressible");
    assert_eq!(LzoError::InputOverrun.message(), "input overrun");
    assert_eq!(LzoError::OutputOverrun.message(), "output overrun");
    assert_eq!(LzoError::LookbehindOverrun.message(), "lookbehind overrun");
    assert_eq!(LzoError::EofNotFound.message(), "EOF not found");
    assert_eq!(LzoError::InputNotConsumed.message(), "input not consumed");
    assert_eq!(LzoError::NotYetImplemented.message(), "not yet implemented");
    assert_eq!(LzoError::InvalidArgument.message(), "invalid argument");
    assert_eq!(LzoError::InvalidAlignment.message(), "invalid alignment");
    assert_eq!(LzoError::OutputNotConsumed.message(), "output not consumed");
    assert_eq!(LzoError::InternalError.message(), "internal error");
}
