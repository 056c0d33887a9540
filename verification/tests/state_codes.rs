use symphony::State;

#[test]
fn state_round_trips_through_wire_codes() {
    let states = [
        State::OK,
        State::Accepted,
        State::BadRequest,
        State::Unauthorized,
        State::NotFound,
        State::MethodNotAllowed,
        State::Conflict,
        State::InternalError,
        State::BadConfig,
        State::MissingConfig,
        State::InvalidArgument,
        State::APIRedirect,
        State::FileAccessError,
        State::SerializationError,
        State::DeserializeError,
        State::DeleteRequested,
        State::UpdateFailed,
        State::DeleteFailed,
        State::ValidateFailed,
        State::Updated,
        State::Deleted,
        State::Running,
        State::Paused,
        State::Done,
        State::Delayed,
        State::Untouched,
        State::NotImplemented,
        State::InitFailed,
        State::TimedOut,
        State::TargetPropertyNotFound,
    ];
    for s in states {
        assert_eq!(State::from_u16(s.into_u16()), s);
    }
}

#[test]
fn known_codes_decode_to_their_state() {
    assert_eq!(State::from_u16(200), State::OK);
    assert_eq!(State::from_u16(202), State::Accepted);
    assert_eq!(State::from_u16(400), State::BadRequest);
    assert_eq!(State::from_u16(500), State::InternalError);
    assert_eq!(State::from_u16(1000), State::BadConfig);
    assert_eq!(State::from_u16(3030), State::APIRedirect);
    assert_eq!(State::from_u16(8001), State::UpdateFailed);
    assert_eq!(State::from_u16(8005), State::Deleted);
    assert_eq!(State::from_u16(9999), State::NotImplemented);
    assert_eq!(State::from_u16(10000), State::InitFailed);
    assert_eq!(State::from_u16(11004), State::TimedOut);
    assert_eq!(State::from_u16(12000), State::TargetPropertyNotFound);
}

#[test]
fn unknown_codes_decode_to_internal_error() {
    for code in [0u16, 1, 199, 201, 203, 404 + 1000, 7000, 9000, 10059, 11005, 65535] {
        if State::from_u16(code).into_u16() != code {
            assert_eq!(State::from_u16(code), State::InternalError);
        }
    }
    assert_eq!(State::from_u16(0), State::InternalError);
    assert_eq!(State::from_u16(42), State::InternalError);
    assert_eq!(State::from_u16(65535), State::InternalError);
}

#[test]
fn encoding_uses_the_wire_code() {
    assert_eq!(State::OK.into_u16(), 200);
    assert_eq!(State::InternalError.into_u16(), 500);
    assert_eq!(State::Deleted.into_u16(), 8005);
    assert_eq!(State::TargetPropertyNotFound.into_u16(), 12000);
}
