use minimp3::{
    from_mini_error, Error, MP3D_E_DECODE, MP3D_E_IOERROR, MP3D_E_MEMORY, MP3D_E_PARAM, MP3D_E_USER,
};

#[test]
fn zero_is_success() {
    assert!(matches!(from_mini_error(0), Ok(())));
}

#[test]
fn param_code_maps_to_param_error() {
    assert_eq!(MP3D_E_PARAM, -1);
    assert!(matches!(from_mini_error(-1), Err(Error::MiniParam)));
}

#[test]
fn memory_code_maps_to_memory_error() {
    assert_eq!(MP3D_E_MEMORY, -2);
    assert!(matches!(from_mini_error(-2), Err(Error::MiniMemory)));
}

#[test]
fn io_code_maps_to_io_error() {
    assert_eq!(MP3D_E_IOERROR, -3);
    assert!(matches!(from_mini_error(-3), Err(Error::MiniIo)));
}

#[test]
fn user_code_maps_to_user_error() {
    assert_eq!(MP3D_E_USER, -4);
    assert!(matches!(from_mini_error(-4), Err(Error::MiniUser)));
}

#[test]
fn decode_code_maps_to_decode_error() {
    assert_eq!(MP3D_E_DECODE, -5);
    assert!(matches!(from_mini_error(-5), Err(Error::MiniDecode)));
}

#[test]
fn unknown_codes_map_to_unknown_error() {
    assert!(matches!(from_mini_error(-6), Err(Error::MiniUnknown)));
    assert!(matches!(from_mini_error(7), Err(Error::MiniUnknown)));
    assert!(matches!(from_mini_error(i32::MIN), Err(Error::MiniUnknown)));
}

#[test]
fn io_errors_wrap_into_the_io_variant() {
    let io_err = std::io::Error::new(std::io::ErrorKind::Other, "boom");
    let err = Error::from(io_err);
    assert!(matches!(err, Error::Io(_)));
}

#[test]
fn descriptions_are_fixed() {
    assert_eq!(Error::InsufficientData.description(), "Insufficient data");
    assert_eq!(Error::SkippedData.description(), "Skipped data");
    assert_eq!(Error::Eof.description(), "End of reader");
    assert_eq!(Error::MiniMemory.description(), "Minimp3 memory error");
    assert_eq!(Error::MiniIo.description(), "Minimp3 io error");
    assert_eq!(Error::MiniParam.description(), "Minimp3 parameter error");
    assert_eq!(Error::MiniUser.description(), "Minimp3 user error");
    assert_eq!(Error::MiniDecode.description(), "Minimp3 decoder error");
    assert_eq!(Error::MiniUnknown.description(), "Unknown error");
    let io_err = std::io::Error::new(std::io::ErrorKind::Other, "boom");
    assert_eq!(Error::Io(io_err).description(), "IO error");
}
