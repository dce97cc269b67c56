use minimp3::{classify_read, demand_read_step, finish_frame, seek_result, BridgeStep, Error,
    FrameInfo};

fn io_err() -> std::io::Error {
    std::io::Error::new(std::io::ErrorKind::Other, "boom")
}

#[test]
fn demand_read_continues_until_satisfied() {
    assert!(matches!(demand_read_step(0, 8, Ok(3)), BridgeStep::More(3)));
    assert!(matches!(demand_read_step(3, 8, Ok(4)), BridgeStep::More(7)));
    assert!(matches!(demand_read_step(7, 8, Ok(1)), BridgeStep::Done(8)));
}

#[test]
fn demand_read_stops_short_at_exhaustion() {
    // A read of zero bytes means end of stream: return what was placed,
    // which may be less than the demand, including nothing at all.
    assert!(matches!(demand_read_step(5, 8, Ok(0)), BridgeStep::Done(5)));
    assert!(matches!(demand_read_step(0, 8, Ok(0)), BridgeStep::Done(0)));
}

#[test]
fn demand_read_failure_returns_the_sentinel() {
    assert!(matches!(
        demand_read_step(5, 8, Err(io_err())),
        BridgeStep::Done(u64::MAX)
    ));
}

#[test]
fn legitimate_counts_never_collide_with_the_sentinel() {
    // Every non-error completion is bounded by the demand itself.
    for filled in 0..8usize {
        for n in 0..=(8 - filled) {
            match demand_read_step(filled, 8, Ok(n)) {
                BridgeStep::Done(v) => assert!(v <= 8),
                BridgeStep::More(p) => assert!(p < 8),
            }
        }
    }
}

#[test]
fn seek_status_codes() {
    assert_eq!(seek_result(Ok(12345)), 0);
    assert_eq!(seek_result(Err(io_err())), -1);
}

#[test]
fn full_sample_reads_succeed() {
    assert!(matches!(classify_read(64, 64, 0), Ok(64)));
    // A full read succeeds without consulting the trailing error field.
    assert!(matches!(classify_read(64, 64, -5), Ok(64)));
}

#[test]
fn short_sample_reads_consult_the_error_field() {
    assert!(matches!(classify_read(10, 64, 0), Ok(10)));
    assert!(matches!(classify_read(0, 64, 0), Ok(0)));
    assert!(matches!(classify_read(10, 64, -2), Err(Error::MiniMemory)));
    assert!(matches!(classify_read(0, 64, -5), Err(Error::MiniDecode)));
    assert!(matches!(classify_read(0, 64, 9), Err(Error::MiniUnknown)));
}

#[test]
fn seekable_frame_classification_matches_the_sequential_one() {
    let finfo = FrameInfo { frame_bytes: 417, channels: 1, hz: 32000, layer: 3, bitrate_kbps: 64 };
    let frame = finish_frame(576, &finfo, vec![5i16; 576]).expect("samples mean a frame");
    assert_eq!(frame.sample_rate, 32000);
    assert_eq!(frame.channels, 1);
    assert_eq!(frame.data, vec![5i16; 576]);
    assert!(matches!(
        finish_frame(0, &finfo, Vec::new()),
        Err(Error::SkippedData)
    ));
    let none = FrameInfo { frame_bytes: 0, channels: 0, hz: 0, layer: 0, bitrate_kbps: 0 };
    assert!(matches!(
        finish_frame(0, &none, Vec::new()),
        Err(Error::InsufficientData)
    ));
}
