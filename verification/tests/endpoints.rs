use mpv_control::endpoint::{endpoint_path, pipe_base_path, posix_base_path};
use mpv_control::numeral::{i64_to_dec, u64_to_dec};

#[test]
fn endpoint_path_appends_window_id() {
    assert_eq!(endpoint_path("/tmp/mpvsocket", 42), "/tmp/mpvsocket_42");
}

#[test]
fn endpoint_path_negative_window_id() {
    assert_eq!(endpoint_path("/tmp/mpvsocket", -7), "/tmp/mpvsocket_-7");
}

#[test]
fn endpoint_paths_differ_for_different_windows() {
    let a = endpoint_path("/tmp/mpvsocket", 1001);
    let b = endpoint_path("/tmp/mpvsocket", 1002);
    assert_ne!(a, b);
}

#[test]
fn base_paths_exact() {
    assert_eq!(posix_base_path(), "/tmp/mpvsocket");
    assert_eq!(pipe_base_path(), "\\\\.\\pipe\\mpvsocket");
}

#[test]
fn decimal_text_small_values() {
    assert_eq!(u64_to_dec(0), "0");
    assert_eq!(u64_to_dec(7), "7");
    assert_eq!(u64_to_dec(10), "10");
    assert_eq!(u64_to_dec(1234567890), "1234567890");
}

#[test]
fn decimal_text_signed_extremes() {
    assert_eq!(i64_to_dec(0), "0");
    assert_eq!(i64_to_dec(-1), "-1");
    assert_eq!(i64_to_dec(i64::MAX), "9223372036854775807");
    assert_eq!(i64_to_dec(i64::MIN), "-9223372036854775808");
}
