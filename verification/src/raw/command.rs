//! How the mount helper is invoked.

use vstd::prelude::*;
use vstd::string::StringExecFns;

verus! {

/// The text of one decimal digit.
pub open spec fn digit_text(digit: nat) -> Seq<char> {
    if digit == 0 {
        "0"@
    } else if digit == 1 {
        "1"@
    } else if digit == 2 {
        "2"@
    } else if digit == 3 {
        "3"@
    } else if digit == 4 {
        "4"@
    } else if digit == 5 {
        "5"@
    } else if digit == 6 {
        "6"@
    } else if digit == 7 {
        "7"@
    } else if digit == 8 {
        "8"@
    } else {
        "9"@
    }
}

/// A natural number in decimal, without leading zeros.
pub open spec fn natural_text(n: nat) -> Seq<char>
    decreases n,
{
    if n < 10 {
        digit_text(n)
    } else {
        natural_text(n / 10) + digit_text(n % 10)
    }
}

/// An integer in decimal, with a minus sign where it is negative.
pub open spec fn decimal_text(n: int) -> Seq<char> {
    if n < 0 {
        "-"@ + natural_text((-n) as nat)
    } else {
        natural_text(n as nat)
    }
}

fn digit_str(digit: u32) -> (text: &'static str)
    requires
        digit < 10,
    ensures
        text@ == digit_text(digit as nat),
{
    if digit == 0 {
        "0"
    } else if digit == 1 {
        "1"
    } else if digit == 2 {
        "2"
    } else if digit == 3 {
        "3"
    } else if digit == 4 {
        "4"
    } else if digit == 5 {
        "5"
    } else if digit == 6 {
        "6"
    } else if digit == 7 {
        "7"
    } else if digit == 8 {
        "8"
    } else {
        "9"
    }
}

fn append_natural(text: &mut String, n: u32)
    ensures
        final(text)@ == old(text)@ + natural_text(n as nat),
    decreases n,
{
    if n >= 10 {
        append_natural(text, n / 10);
    }
    text.append(digit_str(n % 10));
}

/// A descriptor number as the decimal text that is handed to the helper.
pub fn descriptor_text(fd: i32) -> (text: String)
    ensures
        text@ == decimal_text(fd as int),
{
    let mut text = String::new();
    if fd < 0 {
        text.append("-");
        append_natural(&mut text, (-(fd as i64)) as u32);
    } else {
        append_natural(&mut text, fd as u32);
    }
    text
}

/// One invocation of the mount helper: the program, the one environment
/// variable set for it, and its arguments in order.
#[derive(Debug, PartialEq, Eq)]
pub struct HelperCommand {
    pub program: String,
    pub variable: String,
    pub value: String,
    pub arguments: Vec<String>,
}

/// A helper invocation as text.
pub struct HelperCommandView {
    pub program: Seq<char>,
    pub variable: Seq<char>,
    pub value: Seq<char>,
    pub arguments: Seq<Seq<char>>,
}

impl View for HelperCommand {
    type V = HelperCommandView;

    open spec fn view(&self) -> HelperCommandView {
        HelperCommandView {
            program: self.program@,
            variable: self.variable@,
            value: self.value@,
            arguments: self.arguments@.map_values(|argument: String| argument@),
        }
    }
}

/// The invocation that mounts `mount_path` with `options` and reports the
/// kernel channel over the socket `comm_fd`: `program`, with the variable
/// `_FUSE_COMMFD` set to the socket's number in decimal, and the arguments
/// `-o`, the options, the mount path.
pub open spec fn helper_command(
    program: Seq<char>,
    comm_fd: i32,
    options: Seq<char>,
    mount_path: Seq<char>,
) -> HelperCommandView {
    HelperCommandView {
        program,
        variable: "_FUSE_COMMFD"@,
        value: decimal_text(comm_fd as int),
        arguments: seq!["-o"@, options, mount_path],
    }
}

impl HelperCommand {
    /// Builds the invocation of the helper found at `program`. The options
    /// and the mount path are passed through as they are.
    pub fn new(program: String, comm_fd: i32, options: String, mount_path: String) -> (command:
        HelperCommand)
        ensures
            command@ == helper_command(program@, comm_fd, options@, mount_path@),
    {
        let ghost expected = seq!["-o"@, options@, mount_path@];
        let mut arguments: Vec<String> = Vec::new();
        arguments.push(String::from_str("-o"));
        arguments.push(options);
        arguments.push(mount_path);
        assert(arguments@.map_values(|argument: String| argument@) =~= expected);
        HelperCommand {
            program,
            variable: String::from_str("_FUSE_COMMFD"),
            value: descriptor_text(comm_fd),
            arguments,
        }
    }
}

} // verus!
