use fusegen::error::{Error, DECLINE_OS_CODE, DECLINE_SENTINEL, INTERNAL_SENTINEL};

fn produce() -> Result<(), Error> {
    Err(Error::IO(Some(38)))
}

#[test]
fn unwrapping() {
    if let Err(err) = produce() {
        match err {
            Error::IO(ioerr) => {
                assert!(ioerr.is_some());
            }
            _ => {
                unreachable!()
            }
        }
    }
}

#[test]
fn os_error_maps_to_its_negation() {
    assert_eq!(Error::IO(Some(2)).status_code(), -2);
    assert_eq!(Error::Errno(2).status_code(), -2);
    assert_eq!(Error::Errno(13).status_code(), -13);
}

#[test]
fn codeless_failures_map_to_internal_sentinel() {
    assert_eq!(Error::IO(None).status_code(), INTERNAL_SENTINEL);
    assert_eq!(Error::Internal.status_code(), INTERNAL_SENTINEL);
    assert_eq!(INTERNAL_SENTINEL, -131);
}

#[test]
fn decline_error_maps_to_decline_sentinel() {
    assert_eq!(Error::IO(Some(DECLINE_OS_CODE)).status_code(), DECLINE_SENTINEL);
    assert_eq!(Error::Errno(DECLINE_OS_CODE).status_code(), DECLINE_SENTINEL);
    assert_eq!(DECLINE_SENTINEL, -38);
}

#[test]
fn internal_failures_are_recognized() {
    assert!(Error::Internal.is_internal());
    assert!(Error::IO(None).is_internal());
    assert!(!Error::IO(Some(2)).is_internal());
    assert!(!Error::Errno(2).is_internal());
}

#[test]
fn describe_names_the_taxonomy() {
    assert_eq!(Error::Internal.describe(), "internal error");
    assert_eq!(Error::IO(Some(2)).describe(), "i/o error");
    assert_eq!(Error::Errno(2).describe(), "platform error number");
}
