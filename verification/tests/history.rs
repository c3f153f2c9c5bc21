use length_tracking_writer::history::accepted_prefix;
use std::io::{Error, ErrorKind};

#[test]
fn accepted_prefix_of_a_partial_write_is_its_first_bytes() {
    assert_eq!(accepted_prefix(b"defgh", &Ok(2)), b"de");
}

#[test]
fn accepted_prefix_of_a_full_write_is_the_data() {
    assert_eq!(accepted_prefix(b"abc", &Ok(3)), b"abc");
}

#[test]
fn accepted_prefix_of_nothing_taken_is_empty() {
    assert_eq!(accepted_prefix(b"abc", &Ok(0)), b"");
}

#[test]
fn accepted_prefix_of_an_empty_write_is_empty() {
    assert_eq!(accepted_prefix(b"", &Ok(0)), b"");
}

#[test]
fn accepted_prefix_of_a_failed_write_is_empty() {
    let failed = Err(Error::new(ErrorKind::BrokenPipe, "pipe closed"));
    assert_eq!(accepted_prefix(b"Z", &failed), b"");
}
