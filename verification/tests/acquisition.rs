use fuse_connection::error::Error;
use fuse_connection::error::NixError;
use fuse_connection::raw::acquisition::extract_descriptor;
use fuse_connection::raw::acquisition::AcquireAction;
use fuse_connection::raw::acquisition::AcquireEvent;
use fuse_connection::raw::acquisition::Acquisition;
use fuse_connection::raw::acquisition::ControlMessage;
use fuse_connection::raw::acquisition::Progress;
use fuse_connection::raw::command::HelperCommand;
use fuse_connection::raw::connection::FuseConnection;
use nix::errno::Errno;
use nix::fcntl::OFlag;

const EBADF: i32 = Errno::EBADF as i32;
const EIO: i32 = Errno::EIO as i32;
const EMFILE: i32 = Errno::EMFILE as i32;
const EACCES: i32 = Errno::EACCES as i32;
const ENOENT: i32 = Errno::ENOENT as i32;

fn unprivileged() -> Acquisition {
    FuseConnection::new_with_unprivileged(
        String::from("default_permissions,allow_other"),
        String::from("/mnt/x"),
    )
}

/// Feeds one event to an acquisition that is expected to go on.
fn go_on(acquisition: Acquisition, event: AcquireEvent) -> Acquisition {
    match acquisition.advance(event) {
        Progress::Pending(next) => next,
        Progress::Done(result) => panic!("the acquisition ended early: {:?}", result),
    }
}

/// Feeds one event to an acquisition that is expected to end.
fn end(acquisition: Acquisition, event: AcquireEvent) -> Result<FuseConnection, Error> {
    match acquisition.advance(event) {
        Progress::Pending(next) => panic!("the acquisition went on: {:?}", next),
        Progress::Done(result) => result,
    }
}

/// An unprivileged acquisition that has its sockets 3 and 4 and waits for
/// the helper to exit.
fn awaiting_helper() -> Acquisition {
    let acquisition = go_on(unprivileged(), AcquireEvent::SocketPairCreated(Ok((3, 4))));
    let acquisition = go_on(
        acquisition,
        AcquireEvent::HelperLocated(Ok(String::from("/usr/bin/fusermount3"))),
    );
    let acquisition = go_on(acquisition, AcquireEvent::HelperSpawned(Ok(())));
    assert_eq!(acquisition.action(), AcquireAction::AwaitHelper);
    acquisition
}

/// An unprivileged acquisition that waits for the helper's message.
fn receiving() -> Acquisition {
    let acquisition = go_on(awaiting_helper(), AcquireEvent::HelperExited(Ok(true)));
    assert_eq!(acquisition.action(), AcquireAction::ReceiveMessage { socket: 4 });
    acquisition
}

/// An unprivileged acquisition that has received descriptor 9 and closed
/// both of its sockets.
fn transferred() -> Acquisition {
    let acquisition = go_on(
        receiving(),
        AcquireEvent::MessageReceived(Ok(Some(ControlMessage::ScmRights(vec![9])))),
    );
    let acquisition = go_on(acquisition, AcquireEvent::Closed(Ok(())));
    go_on(acquisition, AcquireEvent::Closed(Ok(())))
}

/// Closes the two sockets 3 and 4 and hands back how the acquisition ends.
fn close_sockets(acquisition: Acquisition) -> Result<FuseConnection, Error> {
    assert_eq!(acquisition.action(), AcquireAction::Close { fd: 3 });
    let acquisition = go_on(acquisition, AcquireEvent::Closed(Ok(())));
    assert_eq!(acquisition.action(), AcquireAction::Close { fd: 4 });
    end(acquisition, AcquireEvent::Closed(Ok(())))
}

/// Closes the channel's descriptor 9 and hands back the error that the
/// acquisition ends with.
fn discard(acquisition: Acquisition) -> Error {
    assert_eq!(acquisition.action(), AcquireAction::Close { fd: 9 });
    end(acquisition, AcquireEvent::Closed(Ok(()))).unwrap_err()
}

#[test]
fn privileged_acquisition_opens_the_device_first() {
    let acquisition = FuseConnection::new();
    assert_eq!(
        acquisition.action(),
        AcquireAction::OpenDevice { path: String::from("/dev/fuse") }
    );
}

#[test]
fn privileged_acquisition_yields_a_non_blocking_connection() {
    let acquisition = go_on(FuseConnection::new(), AcquireEvent::DeviceOpened(Ok(5)));
    assert_eq!(acquisition.action(), AcquireAction::GetFlags { fd: 5 });
    let queried = OFlag::O_RDWR.bits();
    let acquisition = go_on(acquisition, AcquireEvent::FlagsRead(Ok(queried)));
    assert_eq!(
        acquisition.action(),
        AcquireAction::SetFlags { fd: 5, flags: queried | OFlag::O_NONBLOCK.bits() }
    );
    let acquisition = go_on(acquisition, AcquireEvent::FlagsWritten(Ok(())));
    assert_eq!(acquisition.action(), AcquireAction::Register { fd: 5 });
    let connection = end(acquisition, AcquireEvent::Registered(Ok(()))).unwrap();
    assert_eq!(connection.as_raw_fd(), 5);
    assert_eq!(connection.release(), 5);
}

#[test]
fn privileged_acquisition_fails_when_the_device_cannot_be_opened() {
    let result = end(FuseConnection::new(), AcquireEvent::DeviceOpened(Err(Error::Os(EACCES))));
    assert_eq!(result.unwrap_err(), Error::Os(EACCES));
    let result = end(FuseConnection::new(), AcquireEvent::DeviceOpened(Err(Error::Os(ENOENT))));
    assert_eq!(result.unwrap_err(), Error::Os(ENOENT));
}

#[test]
fn unprivileged_acquisition_invokes_the_helper_and_takes_its_descriptor() {
    let acquisition = unprivileged();
    assert_eq!(acquisition.action(), AcquireAction::CreateSocketPair);
    let acquisition = go_on(acquisition, AcquireEvent::SocketPairCreated(Ok((3, 4))));
    assert_eq!(
        acquisition.action(),
        AcquireAction::LocateHelper { name: String::from("fusermount3") }
    );
    let acquisition =
        go_on(acquisition, AcquireEvent::HelperLocated(Ok(String::from("fusermount3"))));
    assert_eq!(
        acquisition.action(),
        AcquireAction::SpawnHelper(HelperCommand {
            program: String::from("fusermount3"),
            variable: String::from("_FUSE_COMMFD"),
            value: String::from("3"),
            arguments: vec![
                String::from("-o"),
                String::from("default_permissions,allow_other"),
                String::from("/mnt/x"),
            ],
        })
    );
    let acquisition = go_on(acquisition, AcquireEvent::HelperSpawned(Ok(())));
    assert_eq!(acquisition.action(), AcquireAction::AwaitHelper);
    let acquisition = go_on(acquisition, AcquireEvent::HelperExited(Ok(true)));
    assert_eq!(acquisition.action(), AcquireAction::ReceiveMessage { socket: 4 });
    let acquisition = go_on(
        acquisition,
        AcquireEvent::MessageReceived(Ok(Some(ControlMessage::ScmRights(vec![9])))),
    );
    assert_eq!(acquisition.action(), AcquireAction::Close { fd: 3 });
    let acquisition = go_on(acquisition, AcquireEvent::Closed(Ok(())));
    assert_eq!(acquisition.action(), AcquireAction::Close { fd: 4 });
    let acquisition = go_on(acquisition, AcquireEvent::Closed(Ok(())));
    assert_eq!(acquisition.action(), AcquireAction::GetFlags { fd: 9 });
    let acquisition = go_on(acquisition, AcquireEvent::FlagsRead(Ok(0)));
    assert_eq!(
        acquisition.action(),
        AcquireAction::SetFlags { fd: 9, flags: OFlag::O_NONBLOCK.bits() }
    );
    let acquisition = go_on(acquisition, AcquireEvent::FlagsWritten(Ok(())));
    assert_eq!(acquisition.action(), AcquireAction::Register { fd: 9 });
    let connection = end(acquisition, AcquireEvent::Registered(Ok(()))).unwrap();
    assert_eq!(connection.as_raw_fd(), 9);
}

#[test]
fn helper_is_told_the_number_of_the_first_socket() {
    let acquisition = go_on(unprivileged(), AcquireEvent::SocketPairCreated(Ok((117, 118))));
    let acquisition = go_on(
        acquisition,
        AcquireEvent::HelperLocated(Ok(String::from("/usr/bin/fusermount3"))),
    );
    match acquisition.action() {
        AcquireAction::SpawnHelper(command) => {
            assert_eq!(command.program, "/usr/bin/fusermount3");
            assert_eq!(command.variable, "_FUSE_COMMFD");
            assert_eq!(command.value, "117");
        },
        other => panic!("not a spawn: {:?}", other),
    }
}

#[test]
fn socket_pair_failure_ends_the_acquisition_at_once() {
    let result = end(unprivileged(), AcquireEvent::SocketPairCreated(Err(NixError::Sys(EMFILE))));
    assert_eq!(result.unwrap_err(), Error::Os(EMFILE));
}

#[test]
fn missing_helper_closes_the_sockets_and_fails() {
    let acquisition = go_on(unprivileged(), AcquireEvent::SocketPairCreated(Ok((3, 4))));
    let acquisition = go_on(
        acquisition,
        AcquireEvent::HelperLocated(Err(String::from("CannotFindBinaryPath"))),
    );
    let error = close_sockets(acquisition).unwrap_err();
    assert_eq!(error, Error::HelperNotFound(String::from("CannotFindBinaryPath")));
    assert_eq!(
        error.message(),
        Some(String::from("find fusermount binary failed CannotFindBinaryPath"))
    );
}

#[test]
fn spawn_failure_closes_the_sockets_and_fails() {
    let acquisition = go_on(unprivileged(), AcquireEvent::SocketPairCreated(Ok((3, 4))));
    let acquisition =
        go_on(acquisition, AcquireEvent::HelperLocated(Ok(String::from("fusermount3"))));
    let acquisition = go_on(acquisition, AcquireEvent::HelperSpawned(Err(Error::Os(EACCES))));
    assert_eq!(close_sockets(acquisition).unwrap_err(), Error::Os(EACCES));
}

#[test]
fn helper_exit_with_failure_is_fatal_and_transfers_nothing() {
    let acquisition = go_on(awaiting_helper(), AcquireEvent::HelperExited(Ok(false)));
    assert_eq!(acquisition.action(), AcquireAction::Close { fd: 3 });
    let acquisition = go_on(acquisition, AcquireEvent::Closed(Ok(())));
    assert_eq!(acquisition.action(), AcquireAction::Close { fd: 4 });
    let error = end(acquisition, AcquireEvent::Closed(Ok(()))).unwrap_err();
    assert_eq!(error, Error::HelperFailed);
    assert_eq!(error.message(), Some(String::from("fusermount run failed")));
}

#[test]
fn failed_wait_for_the_helper_is_fatal() {
    let acquisition = go_on(awaiting_helper(), AcquireEvent::HelperExited(Err(Error::Os(EIO))));
    assert_eq!(close_sockets(acquisition).unwrap_err(), Error::Os(EIO));
}

#[test]
fn failed_helper_stays_fatal_when_closing_fails_too() {
    let acquisition = go_on(awaiting_helper(), AcquireEvent::HelperExited(Ok(false)));
    let acquisition = go_on(acquisition, AcquireEvent::Closed(Err(NixError::Sys(EIO))));
    assert_eq!(acquisition.action(), AcquireAction::Close { fd: 4 });
    let error = end(acquisition, AcquireEvent::Closed(Err(NixError::Sys(EBADF)))).unwrap_err();
    assert_eq!(error, Error::HelperFailed);
}

#[test]
fn empty_descriptor_list_fails_after_both_sockets_are_closed() {
    let acquisition = go_on(
        receiving(),
        AcquireEvent::MessageReceived(Ok(Some(ControlMessage::ScmRights(vec![])))),
    );
    let error = close_sockets(acquisition).unwrap_err();
    assert_eq!(error, Error::NoDescriptor);
    assert_eq!(error.message(), Some(String::from("no fuse fd")));
}

#[test]
fn message_without_control_message_fails() {
    let acquisition = go_on(receiving(), AcquireEvent::MessageReceived(Ok(None)));
    let error = close_sockets(acquisition).unwrap_err();
    assert_eq!(error, Error::NoControlMessage);
    assert_eq!(error.message(), Some(String::from("get fuse fd failed")));
}

#[test]
fn other_control_message_fails() {
    let acquisition =
        go_on(receiving(), AcquireEvent::MessageReceived(Ok(Some(ControlMessage::Other))));
    assert_eq!(close_sockets(acquisition).unwrap_err(), Error::NoControlMessage);
}

#[test]
fn failed_receive_closes_the_sockets_and_fails() {
    let acquisition =
        go_on(receiving(), AcquireEvent::MessageReceived(Err(NixError::Sys(EBADF))));
    assert_eq!(close_sockets(acquisition).unwrap_err(), Error::Os(EBADF));
    let acquisition =
        go_on(receiving(), AcquireEvent::MessageReceived(Err(NixError::UnsupportedOperation)));
    assert_eq!(close_sockets(acquisition).unwrap_err(), Error::Unsupported);
}

#[test]
fn failed_close_of_the_first_socket_discards_the_descriptor() {
    let acquisition = go_on(
        receiving(),
        AcquireEvent::MessageReceived(Ok(Some(ControlMessage::ScmRights(vec![9])))),
    );
    let acquisition = go_on(acquisition, AcquireEvent::Closed(Err(NixError::Sys(EIO))));
    assert_eq!(acquisition.action(), AcquireAction::Close { fd: 4 });
    let acquisition = go_on(acquisition, AcquireEvent::Closed(Ok(())));
    assert_eq!(discard(acquisition), Error::Os(EIO));
}

#[test]
fn failed_close_of_the_second_socket_discards_the_descriptor() {
    let acquisition = go_on(
        receiving(),
        AcquireEvent::MessageReceived(Ok(Some(ControlMessage::ScmRights(vec![9])))),
    );
    let acquisition = go_on(acquisition, AcquireEvent::Closed(Ok(())));
    let acquisition = go_on(acquisition, AcquireEvent::Closed(Err(NixError::Sys(EBADF))));
    assert_eq!(discard(acquisition), Error::Os(EBADF));
}

#[test]
fn first_failed_close_is_the_one_reported() {
    let acquisition = go_on(
        receiving(),
        AcquireEvent::MessageReceived(Ok(Some(ControlMessage::ScmRights(vec![9])))),
    );
    let acquisition = go_on(acquisition, AcquireEvent::Closed(Err(NixError::Sys(EIO))));
    let acquisition = go_on(acquisition, AcquireEvent::Closed(Err(NixError::Sys(EBADF))));
    assert_eq!(discard(acquisition), Error::Os(EIO));
}

#[test]
fn failed_flag_query_discards_the_descriptor() {
    let acquisition = transferred();
    assert_eq!(acquisition.action(), AcquireAction::GetFlags { fd: 9 });
    let acquisition = go_on(acquisition, AcquireEvent::FlagsRead(Err(NixError::Sys(EBADF))));
    assert_eq!(discard(acquisition), Error::Os(EBADF));
}

#[test]
fn failed_flag_write_discards_the_descriptor() {
    let acquisition = go_on(transferred(), AcquireEvent::FlagsRead(Ok(2)));
    let acquisition = go_on(acquisition, AcquireEvent::FlagsWritten(Err(NixError::InvalidPath)));
    assert_eq!(discard(acquisition), Error::InvalidInput);
}

#[test]
fn failed_registration_discards_the_descriptor() {
    let acquisition = go_on(transferred(), AcquireEvent::FlagsRead(Ok(2)));
    let acquisition = go_on(acquisition, AcquireEvent::FlagsWritten(Ok(())));
    let acquisition = go_on(
        acquisition,
        AcquireEvent::Registered(Err(Error::Other(String::from("no reactor running")))),
    );
    assert_eq!(discard(acquisition), Error::Other(String::from("no reactor running")));
}

#[test]
fn failed_close_of_a_discarded_descriptor_does_not_change_the_error() {
    let acquisition =
        go_on(transferred(), AcquireEvent::FlagsRead(Err(NixError::Sys(EBADF))));
    let error = end(acquisition, AcquireEvent::Closed(Err(NixError::Sys(EIO)))).unwrap_err();
    assert_eq!(error, Error::Os(EBADF));
}

#[test]
fn event_that_answers_another_action_changes_nothing() {
    let acquisition = go_on(FuseConnection::new(), AcquireEvent::Closed(Ok(())));
    assert_eq!(
        acquisition.action(),
        AcquireAction::OpenDevice { path: String::from("/dev/fuse") }
    );
    let acquisition = go_on(unprivileged(), AcquireEvent::DeviceOpened(Ok(5)));
    assert_eq!(acquisition.action(), AcquireAction::CreateSocketPair);
    let acquisition = go_on(awaiting_helper(), AcquireEvent::Registered(Ok(())));
    assert_eq!(acquisition.action(), AcquireAction::AwaitHelper);
    let acquisition = go_on(transferred(), AcquireEvent::FlagsWritten(Ok(())));
    assert_eq!(acquisition.action(), AcquireAction::GetFlags { fd: 9 });
}

#[test]
fn flags_updated_moves_a_queried_descriptor_on() {
    let acquisition = go_on(FuseConnection::new(), AcquireEvent::DeviceOpened(Ok(5)));
    let acquisition = match acquisition.flags_updated(Ok(0o4002)) {
        Progress::Pending(next) => next,
        Progress::Done(result) => panic!("ended: {:?}", result),
    };
    assert_eq!(acquisition.action(), AcquireAction::SetFlags { fd: 5, flags: 0o4002 });
}

#[test]
fn flags_updated_with_a_failure_discards_the_descriptor() {
    let acquisition = go_on(FuseConnection::new(), AcquireEvent::DeviceOpened(Ok(5)));
    let acquisition = match acquisition.flags_updated(Err(Error::Os(EBADF))) {
        Progress::Pending(next) => next,
        Progress::Done(result) => panic!("ended: {:?}", result),
    };
    assert_eq!(acquisition.action(), AcquireAction::Close { fd: 5 });
    assert_eq!(end(acquisition, AcquireEvent::Closed(Ok(()))).unwrap_err(), Error::Os(EBADF));
}

#[test]
fn flags_updated_outside_the_query_changes_nothing() {
    let acquisition = match FuseConnection::new().flags_updated(Ok(1)) {
        Progress::Pending(next) => next,
        Progress::Done(result) => panic!("ended: {:?}", result),
    };
    assert_eq!(
        acquisition.action(),
        AcquireAction::OpenDevice { path: String::from("/dev/fuse") }
    );
}

#[test]
fn extract_descriptor_takes_the_first_one() {
    assert_eq!(extract_descriptor(Ok(Some(ControlMessage::ScmRights(vec![9])))), Ok(9));
    assert_eq!(extract_descriptor(Ok(Some(ControlMessage::ScmRights(vec![6, 7])))), Ok(6));
}

#[test]
fn extract_descriptor_names_what_is_missing() {
    assert_eq!(
        extract_descriptor(Ok(Some(ControlMessage::ScmRights(vec![])))),
        Err(Error::NoDescriptor)
    );
    assert_eq!(extract_descriptor(Ok(None)), Err(Error::NoControlMessage));
    assert_eq!(extract_descriptor(Ok(Some(ControlMessage::Other))), Err(Error::NoControlMessage));
    assert_eq!(extract_descriptor(Err(NixError::Sys(EBADF))), Err(Error::Os(EBADF)));
    assert_eq!(extract_descriptor(Err(NixError::InvalidUtf8)), Err(Error::InvalidInput));
}

#[test]
fn set_fd_non_blocking_adds_the_non_blocking_flag() {
    let non_blocking = OFlag::O_NONBLOCK.bits();
    assert_ne!(non_blocking, 0);
    assert_eq!(FuseConnection::set_fd_non_blocking(Ok(0)), Ok(non_blocking));
    let read_write = OFlag::O_RDWR.bits();
    assert_eq!(FuseConnection::set_fd_non_blocking(Ok(read_write)), Ok(read_write | non_blocking));
    assert_eq!(FuseConnection::set_fd_non_blocking(Ok(non_blocking)), Ok(non_blocking));
}

#[test]
fn set_fd_non_blocking_drops_bits_that_are_no_flags() {
    let unknown = !OFlag::all().bits();
    assert_eq!(FuseConnection::set_fd_non_blocking(Ok(unknown)), Ok(OFlag::O_NONBLOCK.bits()));
}

#[test]
fn set_fd_non_blocking_reports_a_failed_query() {
    assert_eq!(FuseConnection::set_fd_non_blocking(Err(NixError::Sys(EBADF))), Err(Error::Os(EBADF)));
    assert_eq!(
        FuseConnection::set_fd_non_blocking(Err(NixError::UnsupportedOperation)),
        Err(Error::Unsupported)
    );
}
