use uvc_stream::error::UvcError;

#[test]
fn codes_round_trip_through_the_vocabulary() {
    let all = [
        UvcError::Success,
        UvcError::Io,
        UvcError::InvalidParam,
        UvcError::Access,
        UvcError::NoDevice,
        UvcError::NotFound,
        UvcError::Busy,
        UvcError::Timeout,
        UvcError::Overflow,
        UvcError::Pipe,
        UvcError::Interrupted,
        UvcError::NoMem,
        UvcError::NotSupported,
        UvcError::InvalidDevice,
        UvcError::InvalidMode,
        UvcError::CallbackExists,
        UvcError::Other,
    ];
    for e in all {
        assert_eq!(UvcError::from_code(e.code()), e);
    }
}

#[test]
fn known_codes_map_to_their_status() {
    assert_eq!(UvcError::Success.code(), 0);
    assert_eq!(UvcError::Io.code(), -1);
    assert_eq!(UvcError::NoDevice.code(), -4);
    assert_eq!(UvcError::InvalidDevice.code(), -50);
    assert_eq!(UvcError::Other.code(), -99);
    assert_eq!(UvcError::from_code(0), UvcError::Success);
    assert_eq!(UvcError::from_code(-6), UvcError::Busy);
    assert_eq!(UvcError::from_code(-52), UvcError::CallbackExists);
}

#[test]
fn unknown_codes_fall_back_to_other() {
    assert_eq!(UvcError::from_code(1), UvcError::Other);
    assert_eq!(UvcError::from_code(-13), UvcError::Other);
    assert_eq!(UvcError::from_code(-100), UvcError::Other);
    assert_eq!(UvcError::from_code(i32::MIN), UvcError::Other);
    assert_eq!(UvcError::from_code(i32::MAX), UvcError::Other);
}
