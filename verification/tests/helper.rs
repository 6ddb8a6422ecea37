use fuse_connection::error::Error;
use fuse_connection::error::NixError;
use fuse_connection::helper::get_first_null_position;
use fuse_connection::helper::get_padding_size;
use fuse_connection::helper::io_error_from_nix_error;
use fuse_connection::helper::mode_from_kind_and_perm;
use fuse_connection::helper::perm_from_mode_and_kind;
use fuse_connection::helper::Apply;

const REGULAR_FILE: u32 = 0o100000;
const DIRECTORY: u32 = 0o040000;

#[test]
fn first_null_position_is_the_first_zero() {
    assert_eq!(get_first_null_position(&[1, 2, 0, 3, 0]), Some(2));
    assert_eq!(get_first_null_position(b"name\0rest"), Some(4));
}

#[test]
fn first_null_position_at_the_start() {
    assert_eq!(get_first_null_position(&[0, 0, 7]), Some(0));
}

#[test]
fn first_null_position_at_the_end() {
    assert_eq!(get_first_null_position(&[9, 8, 7, 0]), Some(3));
}

#[test]
fn first_null_position_of_data_without_zero() {
    assert_eq!(get_first_null_position(&[1, 2, 3]), None);
    assert_eq!(get_first_null_position(&[255]), None);
}

#[test]
fn first_null_position_of_empty_data() {
    assert_eq!(get_first_null_position(&[]), None);
}

#[test]
fn padding_size_of_aligned_sizes_is_zero() {
    assert_eq!(get_padding_size(0), 0);
    assert_eq!(get_padding_size(8), 0);
    assert_eq!(get_padding_size(24), 0);
    assert_eq!(get_padding_size(4096), 0);
}

#[test]
fn padding_size_fills_up_to_eight() {
    assert_eq!(get_padding_size(1), 7);
    assert_eq!(get_padding_size(2), 6);
    assert_eq!(get_padding_size(3), 5);
    assert_eq!(get_padding_size(4), 4);
    assert_eq!(get_padding_size(5), 3);
    assert_eq!(get_padding_size(6), 2);
    assert_eq!(get_padding_size(7), 1);
    assert_eq!(get_padding_size(25), 7);
    assert_eq!(get_padding_size(31), 1);
}

#[test]
fn padding_size_makes_every_size_a_multiple_of_eight() {
    for size in 0..200usize {
        let padding = get_padding_size(size);
        assert!(padding < 8);
        assert_eq!((size + padding) % 8, 0);
    }
}

#[test]
fn padding_size_near_the_largest_size() {
    assert_eq!(get_padding_size(usize::MAX - 7), 0);
    assert_eq!(get_padding_size(usize::MAX - 8), 1);
}

#[test]
fn mode_joins_kind_and_permission() {
    assert_eq!(mode_from_kind_and_perm(REGULAR_FILE, 0o644), 0o100644);
    assert_eq!(mode_from_kind_and_perm(DIRECTORY, 0o755), 0o040755);
    assert_eq!(mode_from_kind_and_perm(REGULAR_FILE, 0), REGULAR_FILE);
    assert_eq!(mode_from_kind_and_perm(0, 0o7777), 0o7777);
}

#[test]
fn perm_is_the_mode_without_the_kind() {
    assert_eq!(perm_from_mode_and_kind(REGULAR_FILE, 0o100644), 0o644);
    assert_eq!(perm_from_mode_and_kind(DIRECTORY, 0o040755), 0o755);
    assert_eq!(perm_from_mode_and_kind(REGULAR_FILE, REGULAR_FILE), 0);
}

#[test]
fn perm_keeps_only_the_low_sixteen_bits() {
    assert_eq!(perm_from_mode_and_kind(0, 0x0001_0644), 0x0644);
    assert_eq!(perm_from_mode_and_kind(0x0001_0000, 0x0001_0644), 0x0644);
}

#[test]
fn perm_survives_the_way_through_a_mode() {
    for perm in [0u16, 0o7, 0o644, 0o755, 0o7777] {
        for kind in [REGULAR_FILE, DIRECTORY, 0o120000] {
            assert_eq!(kind & u32::from(perm), 0);
            assert_eq!(perm_from_mode_and_kind(kind, mode_from_kind_and_perm(kind, perm)), perm);
        }
    }
}

#[test]
fn nix_error_number_stays_an_error_number() {
    assert_eq!(io_error_from_nix_error(NixError::Sys(2)), Error::Os(2));
    assert_eq!(io_error_from_nix_error(NixError::Sys(11)), Error::Os(11));
    assert_eq!(io_error_from_nix_error(NixError::Sys(0)), Error::Os(0));
}

#[test]
fn nix_invalid_path_is_invalid_input() {
    assert_eq!(io_error_from_nix_error(NixError::InvalidPath), Error::InvalidInput);
}

#[test]
fn nix_invalid_utf8_is_invalid_input() {
    assert_eq!(io_error_from_nix_error(NixError::InvalidUtf8), Error::InvalidInput);
}

#[test]
fn nix_unsupported_operation_is_unsupported() {
    assert_eq!(io_error_from_nix_error(NixError::UnsupportedOperation), Error::Unsupported);
}

#[test]
fn apply_hands_back_the_changed_value() {
    let numbers = vec![1, 2, 3].apply(|numbers| numbers.push(4));
    assert_eq!(numbers, vec![1, 2, 3, 4]);
    let count = 5u32.apply(|count| *count += 1);
    assert_eq!(count, 6);
}

#[test]
fn apply_with_a_closure_that_changes_nothing() {
    let text = String::from("same").apply(|_| {});
    assert_eq!(text, "same");
}

#[test]
fn messages_of_the_failures_this_crate_words() {
    assert_eq!(Error::HelperFailed.message(), Some(String::from("fusermount run failed")));
    assert_eq!(Error::NoDescriptor.message(), Some(String::from("no fuse fd")));
    assert_eq!(Error::NoControlMessage.message(), Some(String::from("get fuse fd failed")));
    assert_eq!(
        Error::HelperNotFound(String::from("CannotFindBinaryPath")).message(),
        Some(String::from("find fusermount binary failed CannotFindBinaryPath"))
    );
    assert_eq!(
        Error::Other(String::from("nul byte found")).message(),
        Some(String::from("nul byte found"))
    );
}

#[test]
fn failures_worded_by_the_system_have_no_message() {
    assert_eq!(Error::Os(2).message(), None);
    assert_eq!(Error::InvalidInput.message(), None);
    assert_eq!(Error::Unsupported.message(), None);
}
