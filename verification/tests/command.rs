use fuse_connection::raw::command::descriptor_text;
use fuse_connection::raw::command::HelperCommand;

#[test]
fn descriptor_text_of_single_digits() {
    assert_eq!(descriptor_text(0), "0");
    assert_eq!(descriptor_text(3), "3");
    assert_eq!(descriptor_text(9), "9");
}

#[test]
fn descriptor_text_of_longer_numbers() {
    assert_eq!(descriptor_text(10), "10");
    assert_eq!(descriptor_text(42), "42");
    assert_eq!(descriptor_text(100), "100");
    assert_eq!(descriptor_text(1024), "1024");
    assert_eq!(descriptor_text(i32::MAX), "2147483647");
}

#[test]
fn descriptor_text_of_negative_numbers() {
    assert_eq!(descriptor_text(-1), "-1");
    assert_eq!(descriptor_text(-120), "-120");
    assert_eq!(descriptor_text(i32::MIN), "-2147483648");
}

#[test]
fn descriptor_text_agrees_with_the_standard_formatting() {
    for fd in -1000..1000 {
        assert_eq!(descriptor_text(fd), fd.to_string());
    }
}

#[test]
fn helper_command_for_a_mount() {
    let command = HelperCommand::new(
        String::from("fusermount3"),
        7,
        String::from("default_permissions,allow_other"),
        String::from("/mnt/x"),
    );
    assert_eq!(command.program, "fusermount3");
    assert_eq!(command.variable, "_FUSE_COMMFD");
    assert_eq!(command.value, "7");
    assert_eq!(command.arguments, vec!["-o", "default_permissions,allow_other", "/mnt/x"]);
}

#[test]
fn helper_command_passes_options_and_path_through() {
    let command = HelperCommand::new(
        String::from("/usr/bin/fusermount3"),
        12,
        String::new(),
        String::from("/mnt/with space/x"),
    );
    assert_eq!(command.program, "/usr/bin/fusermount3");
    assert_eq!(command.value, "12");
    assert_eq!(command.arguments, vec!["-o", "", "/mnt/with space/x"]);
}
