use gmssl_rs::error::ok_or_library_error;
use gmssl_rs::pem_helpers::{check_c_path, der_output, pem_output};
use gmssl_rs::GmsslError;

#[test]
fn status_one_is_success() {
    assert!(ok_or_library_error(1, "sm3_pbkdf2").is_ok());
}

#[test]
fn other_status_names_the_routine() {
    assert!(matches!(ok_or_library_error(0, "sm2_sign"), Err(GmsslError::LibraryError("sm2_sign"))));
    assert!(matches!(ok_or_library_error(-1, "sm2_sign"), Err(GmsslError::LibraryError("sm2_sign"))));
}

#[test]
fn plain_path_is_accepted() {
    assert!(check_c_path(b"/tmp/key.pem").is_ok());
    assert!(check_c_path(b"").is_ok());
}

#[test]
fn path_with_nul_is_rejected() {
    let r = check_c_path(b"/tmp/k\0ey.pem");
    assert!(matches!(r, Err(GmsslError::InvalidInput("path contains NUL byte"))));
}

#[test]
fn pem_output_passes_bytes_on_success() {
    let r = pem_output(1, b"-----BEGIN".to_vec()).unwrap();
    assert_eq!(r, b"-----BEGIN".to_vec());
}

#[test]
fn pem_output_failure() {
    let r = pem_output(0, b"partial".to_vec());
    assert!(matches!(r, Err(GmsslError::LibraryError("PEM write failed"))));
}

#[test]
fn der_output_truncates_to_written() {
    let buf = vec![1u8, 2, 3, 4, 5, 6];
    let r = der_output(buf, 1, 1000, 1004).unwrap();
    assert_eq!(r, vec![1u8, 2, 3, 4]);
}

#[test]
fn der_output_position_moved_back_gives_empty() {
    let r = der_output(vec![9u8; 8], 1, 1000, 990).unwrap();
    assert!(r.is_empty());
}

#[test]
fn der_output_written_past_buffer_keeps_buffer() {
    let r = der_output(vec![9u8; 3], 1, 0, 10).unwrap();
    assert_eq!(r, vec![9u8; 3]);
}

#[test]
fn der_output_failure() {
    let r = der_output(vec![0u8; 4], 0, 0, 4);
    assert!(matches!(r, Err(GmsslError::LibraryError("DER encoding failed"))));
}
