use flipperzero::furi::{wait_for, Error, Status, Wait, WAIT_FOREVER};

#[test]
fn ok_status_gives_value() {
    assert!(Status(0).is_ok());
    assert!(!Status(0).is_err());
    assert_eq!(Status(0).err_or(5u8), Ok(5));
    assert_eq!(Status(0).to_error(), None);
}

#[test]
fn failing_status_gives_named_error() {
    let cases = [
        (-1, Error::Unspecified),
        (-2, Error::TimedOut),
        (-3, Error::ResourceBusy),
        (-4, Error::InvalidParameter),
        (-5, Error::OutOfMemory),
        (-6, Error::ForbiddenInISR),
        (-7, Error::Other(-7)),
        (-100, Error::Other(-100)),
    ];
    for (code, e) in cases {
        assert!(Status(code).is_err());
        assert_eq!(Status(code).to_error(), Some(e));
        assert_eq!(Status(code).err_or(()), Err(e));
        assert_eq!(Status::from_error(e), Status(code));
        assert_eq!(e.to_code(), code);
    }
}

#[test]
fn wait_for_maps_timeouts() {
    assert_eq!(wait_for(true, 0), Wait::Forever);
    assert_eq!(wait_for(true, u128::MAX), Wait::Forever);
    assert_eq!(wait_for(false, 0), Wait::Millis(0));
    assert_eq!(wait_for(false, 250), Wait::Millis(250));
    assert_eq!(wait_for(false, WAIT_FOREVER as u128 - 1), Wait::Millis(WAIT_FOREVER - 1));
    assert_eq!(wait_for(false, WAIT_FOREVER as u128), Wait::Millis(WAIT_FOREVER - 1));
    assert_eq!(wait_for(false, u128::MAX), Wait::Millis(0xFFFF_FFFE));
}
