//! Acquiring the kernel channel, one step at a time.
//!
//! An [`Acquisition`] names the action its driver has to perform next and,
//! told how that action ended, moves on. It ends with a connection or with
//! an error, and by then every descriptor it was given is either the
//! connection's own or has been handed back for closing.

use vstd::multiset::Multiset;
use vstd::prelude::*;
use vstd::string::StringExecFns;

use crate::error::Error;
use crate::error::NixError;
use crate::helper::io_error_from_nix_error;
use crate::helper::io_error_of;
use crate::raw::command::helper_command;
use crate::raw::command::HelperCommand;
use crate::raw::command::HelperCommandView;
use crate::raw::connection::non_blocking_update;
use crate::raw::connection::FuseConnection;
use crate::raw::platform::non_blocking_flags;

verus! {

/// The first control message of the helper's reply.
#[derive(Debug, PartialEq, Eq)]
pub enum ControlMessage {
    /// Descriptors passed along with the message.
    ScmRights(Vec<i32>),
    /// Any other kind of control message.
    Other,
}

/// How the action that an acquisition asked for ended.
#[derive(Debug, PartialEq, Eq)]
pub enum AcquireEvent {
    /// The kernel device was opened, or could not be.
    DeviceOpened(Result<i32, Error>),
    /// The socket pair was created, or could not be.
    SocketPairCreated(Result<(i32, i32), NixError>),
    /// The helper was found at this path, or the lookup failed with this
    /// report.
    HelperLocated(Result<String, String>),
    /// The helper was started, or could not be.
    HelperSpawned(Result<(), Error>),
    /// The helper exited, with success or not, or waiting for it failed.
    HelperExited(Result<bool, Error>),
    /// A message arrived on the socket, with this first control message if
    /// it had any, or receiving failed.
    MessageReceived(Result<Option<ControlMessage>, NixError>),
    /// The descriptor was closed; a failure means that the close reported
    /// one, not that the descriptor is still open.
    Closed(Result<(), NixError>),
    /// The status flags were read, or could not be.
    FlagsRead(Result<i32, NixError>),
    /// The status flags were written, or could not be.
    FlagsWritten(Result<(), NixError>),
    /// The descriptor was registered for readiness, or could not be.
    Registered(Result<(), Error>),
}

/// What an acquisition asks its driver to do next.
#[derive(Debug, PartialEq, Eq)]
pub enum AcquireAction {
    /// Open the device at `path` for reading and writing.
    OpenDevice { path: String },
    /// Create a connected pair of local sockets that keep message
    /// boundaries and carry control messages.
    CreateSocketPair,
    /// Find the program called `name` on the search path.
    LocateHelper { name: String },
    /// Start the helper.
    SpawnHelper(HelperCommand),
    /// Wait for the helper to exit.
    AwaitHelper,
    /// Receive one message, with room for one descriptor, on `socket`.
    ReceiveMessage { socket: i32 },
    /// Close `fd`.
    Close { fd: i32 },
    /// Read the status flags of `fd`.
    GetFlags { fd: i32 },
    /// Write `flags` as the status flags of `fd`.
    SetFlags { fd: i32, flags: i32 },
    /// Register `fd` for readiness notification.
    Register { fd: i32 },
}

/// An action, with its texts as sequences of characters.
pub enum AcquireActionView {
    OpenDevice { path: Seq<char> },
    CreateSocketPair,
    LocateHelper { name: Seq<char> },
    SpawnHelper(HelperCommandView),
    AwaitHelper,
    ReceiveMessage { socket: i32 },
    Close { fd: i32 },
    GetFlags { fd: i32 },
    SetFlags { fd: i32, flags: i32 },
    Register { fd: i32 },
}

impl View for AcquireAction {
    type V = AcquireActionView;

    open spec fn view(&self) -> AcquireActionView {
        match *self {
            AcquireAction::OpenDevice { path } => AcquireActionView::OpenDevice { path: path@ },
            AcquireAction::CreateSocketPair => AcquireActionView::CreateSocketPair,
            AcquireAction::LocateHelper { name } => AcquireActionView::LocateHelper { name: name@ },
            AcquireAction::SpawnHelper(command) => AcquireActionView::SpawnHelper(command@),
            AcquireAction::AwaitHelper => AcquireActionView::AwaitHelper,
            AcquireAction::ReceiveMessage { socket } => AcquireActionView::ReceiveMessage {
                socket,
            },
            AcquireAction::Close { fd } => AcquireActionView::Close { fd },
            AcquireAction::GetFlags { fd } => AcquireActionView::GetFlags { fd },
            AcquireAction::SetFlags { fd, flags } => AcquireActionView::SetFlags { fd, flags },
            AcquireAction::Register { fd } => AcquireActionView::Register { fd },
        }
    }
}

/// Where an acquisition stands. Each phase waits for the one event that
/// answers its action.
#[derive(Debug)]
pub enum Phase {
    OpeningDevice,
    CreatingSockets { options: String, mount_path: String },
    LocatingHelper { fd0: i32, fd1: i32, options: String, mount_path: String },
    SpawningHelper { fd0: i32, fd1: i32, program: String, options: String, mount_path: String },
    AwaitingHelper { fd0: i32, fd1: i32 },
    Receiving { fd0: i32, fd1: i32 },
    /// The transfer attempt is over, with `outcome`; the first socket goes.
    ClosingFirst { fd0: i32, fd1: i32, outcome: Result<i32, Error> },
    /// The second socket goes. `close_failure` is what closing the first
    /// one reported, if it failed.
    ClosingSecond { fd1: i32, outcome: Result<i32, Error>, close_failure: Option<Error> },
    QueryingFlags { fd: i32 },
    SettingFlags { fd: i32, flags: i32 },
    Registering { fd: i32 },
    /// The attempt failed with `error` while it held the channel's
    /// descriptor; the descriptor goes before the error is reported.
    Discarding { fd: i32, error: Error },
}

/// The descriptor that a received message transfers: the first one of its
/// first control message.
pub open spec fn transferred_descriptor(
    received: Result<Option<ControlMessage>, NixError>,
) -> Result<i32, Error> {
    match received {
        Err(err) => Err(io_error_of(err)),
        Ok(Some(ControlMessage::ScmRights(fds))) => if fds@.len() == 0 {
            Err(Error::NoDescriptor)
        } else {
            Ok(fds@[0])
        },
        Ok(_) => Err(Error::NoControlMessage),
    }
}

/// Takes the transferred descriptor out of what was received.
pub fn extract_descriptor(received: Result<Option<ControlMessage>, NixError>) -> (descriptor:
    Result<i32, Error>)
    ensures
        descriptor == transferred_descriptor(received),
{
    match received {
        Err(err) => Err(io_error_from_nix_error(err)),
        Ok(Some(ControlMessage::ScmRights(fds))) => if fds.len() == 0 {
            Err(Error::NoDescriptor)
        } else {
            Ok(fds[0])
        },
        Ok(_) => Err(Error::NoControlMessage),
    }
}

/// The failure that closing the sockets ends with: the first one reported.
pub open spec fn first_close_failure(earlier: Option<Error>, closed: Result<(), NixError>) -> Option<
    Error,
> {
    match (earlier, closed) {
        (Some(error), _) => Some(error),
        (None, Err(err)) => Some(io_error_of(err)),
        (None, Ok(_)) => None,
    }
}

/// An acquisition's next state, or its end.
pub enum ProgressView {
    Pending(Phase),
    Done(Result<i32, Error>),
}

/// What the phase makes of the event. An event that does not answer the
/// phase's action leaves the phase as it is.
pub open spec fn step(phase: Phase, event: AcquireEvent) -> ProgressView {
    match (phase, event) {
        (Phase::OpeningDevice, AcquireEvent::DeviceOpened(Ok(fd))) => ProgressView::Pending(
            Phase::QueryingFlags { fd },
        ),
        (Phase::OpeningDevice, AcquireEvent::DeviceOpened(Err(error))) => ProgressView::Done(
            Err(error),
        ),
        (
            Phase::CreatingSockets { options, mount_path },
            AcquireEvent::SocketPairCreated(Ok((fd0, fd1))),
        ) => ProgressView::Pending(Phase::LocatingHelper { fd0, fd1, options, mount_path }),
        (Phase::CreatingSockets { .. }, AcquireEvent::SocketPairCreated(Err(err))) => {
            ProgressView::Done(Err(io_error_of(err)))
        },
        (
            Phase::LocatingHelper { fd0, fd1, options, mount_path },
            AcquireEvent::HelperLocated(Ok(program)),
        ) => ProgressView::Pending(
            Phase::SpawningHelper { fd0, fd1, program, options, mount_path },
        ),
        (Phase::LocatingHelper { fd0, fd1, .. }, AcquireEvent::HelperLocated(Err(report))) => {
            ProgressView::Pending(
                Phase::ClosingFirst { fd0, fd1, outcome: Err(Error::HelperNotFound(report)) },
            )
        },
        (Phase::SpawningHelper { fd0, fd1, .. }, AcquireEvent::HelperSpawned(Ok(_))) => {
            ProgressView::Pending(Phase::AwaitingHelper { fd0, fd1 })
        },
        (Phase::SpawningHelper { fd0, fd1, .. }, AcquireEvent::HelperSpawned(Err(error))) => {
            ProgressView::Pending(Phase::ClosingFirst { fd0, fd1, outcome: Err(error) })
        },
        (Phase::AwaitingHelper { fd0, fd1 }, AcquireEvent::HelperExited(Ok(succeeded))) => {
            if succeeded {
                ProgressView::Pending(Phase::Receiving { fd0, fd1 })
            } else {
                ProgressView::Pending(
                    Phase::ClosingFirst { fd0, fd1, outcome: Err(Error::HelperFailed) },
                )
            }
        },
        (Phase::AwaitingHelper { fd0, fd1 }, AcquireEvent::HelperExited(Err(error))) => {
            ProgressView::Pending(Phase::ClosingFirst { fd0, fd1, outcome: Err(error) })
        },
        (Phase::Receiving { fd0, fd1 }, AcquireEvent::MessageReceived(received)) => {
            ProgressView::Pending(
                Phase::ClosingFirst { fd0, fd1, outcome: transferred_descriptor(received) },
            )
        },
        (Phase::ClosingFirst { fd0, fd1, outcome }, AcquireEvent::Closed(closed)) => {
            ProgressView::Pending(
                Phase::ClosingSecond {
                    fd1,
                    outcome,
                    close_failure: first_close_failure(None, closed),
                },
            )
        },
        (Phase::ClosingSecond { fd1, outcome, close_failure }, AcquireEvent::Closed(closed)) => {
            match outcome {
                Err(error) => ProgressView::Done(Err(error)),
                Ok(fd) => match first_close_failure(close_failure, closed) {
                    None => ProgressView::Pending(Phase::QueryingFlags { fd }),
                    Some(error) => ProgressView::Pending(Phase::Discarding { fd, error }),
                },
            }
        },
        (Phase::QueryingFlags { fd }, AcquireEvent::FlagsRead(queried)) => {
            flags_step(fd, non_blocking_update(queried))
        },
        (Phase::SettingFlags { fd, flags }, AcquireEvent::FlagsWritten(Ok(_))) => {
            ProgressView::Pending(Phase::Registering { fd })
        },
        (Phase::SettingFlags { fd, flags }, AcquireEvent::FlagsWritten(Err(err))) => {
            ProgressView::Pending(Phase::Discarding { fd, error: io_error_of(err) })
        },
        (Phase::Registering { fd }, AcquireEvent::Registered(Ok(_))) => ProgressView::Done(Ok(fd)),
        (Phase::Registering { fd }, AcquireEvent::Registered(Err(error))) => {
            ProgressView::Pending(Phase::Discarding { fd, error })
        },
        (Phase::Discarding { fd, error }, AcquireEvent::Closed(_)) => ProgressView::Done(
            Err(error),
        ),
        (phase, _) => ProgressView::Pending(phase),
    }
}

/// Where the descriptor `fd` goes once its new status flags are known, or
/// known not to be had.
pub open spec fn flags_step(fd: i32, updated: Result<i32, Error>) -> ProgressView {
    match updated {
        Ok(flags) => ProgressView::Pending(Phase::SettingFlags { fd, flags }),
        Err(error) => ProgressView::Pending(Phase::Discarding { fd, error }),
    }
}

/// The action that a phase waits on. The device is `/dev/fuse`, the helper
/// is `fusermount3`; the helper is told the number of the first socket and
/// its reply is read from the second.
pub open spec fn action_of(phase: Phase) -> AcquireActionView {
    match phase {
        Phase::OpeningDevice => AcquireActionView::OpenDevice { path: "/dev/fuse"@ },
        Phase::CreatingSockets { .. } => AcquireActionView::CreateSocketPair,
        Phase::LocatingHelper { .. } => AcquireActionView::LocateHelper { name: "fusermount3"@ },
        Phase::SpawningHelper { fd0, program, options, mount_path, .. } => {
            AcquireActionView::SpawnHelper(helper_command(program@, fd0, options@, mount_path@))
        },
        Phase::AwaitingHelper { .. } => AcquireActionView::AwaitHelper,
        Phase::Receiving { fd1, .. } => AcquireActionView::ReceiveMessage { socket: fd1 },
        Phase::ClosingFirst { fd0, .. } => AcquireActionView::Close { fd: fd0 },
        Phase::ClosingSecond { fd1, .. } => AcquireActionView::Close { fd: fd1 },
        Phase::QueryingFlags { fd } => AcquireActionView::GetFlags { fd },
        Phase::SettingFlags { fd, flags } => AcquireActionView::SetFlags { fd, flags },
        Phase::Registering { fd } => AcquireActionView::Register { fd },
        Phase::Discarding { fd, .. } => AcquireActionView::Close { fd },
    }
}

/// An acquisition in progress.
#[derive(Debug)]
pub struct Acquisition {
    phase: Phase,
}

impl View for Acquisition {
    type V = Phase;

    closed spec fn view(&self) -> Phase {
        self.phase
    }
}

/// What became of an acquisition after an event.
#[derive(Debug)]
pub enum Progress {
    /// The acquisition goes on; its action is the next thing to perform.
    Pending(Acquisition),
    /// The acquisition is over.
    Done(Result<FuseConnection, Error>),
}

impl View for Progress {
    type V = ProgressView;

    open spec fn view(&self) -> ProgressView {
        match *self {
            Progress::Pending(acquisition) => ProgressView::Pending(acquisition@),
            Progress::Done(Ok(connection)) => ProgressView::Done(Ok(connection@)),
            Progress::Done(Err(error)) => ProgressView::Done(Err(error)),
        }
    }
}

impl Acquisition {
    pub(crate) fn begin(phase: Phase) -> (acquisition: Acquisition)
        ensures
            acquisition@ == phase,
    {
        Acquisition { phase }
    }

    fn pending(phase: Phase) -> (progress: Progress)
        ensures
            progress@ == ProgressView::Pending(phase),
    {
        Progress::Pending(Acquisition { phase })
    }

    /// The action to perform next.
    pub fn action(&self) -> (action: AcquireAction)
        ensures
            action@ == action_of(self@),
    {
        match &self.phase {
            Phase::OpeningDevice => AcquireAction::OpenDevice {
                path: String::from_str("/dev/fuse"),
            },
            Phase::CreatingSockets { .. } => AcquireAction::CreateSocketPair,
            Phase::LocatingHelper { .. } => AcquireAction::LocateHelper {
                name: String::from_str("fusermount3"),
            },
            Phase::SpawningHelper { fd0, program, options, mount_path, .. } => {
                AcquireAction::SpawnHelper(
                    HelperCommand::new(program.clone(), *fd0, options.clone(), mount_path.clone()),
                )
            },
            Phase::AwaitingHelper { .. } => AcquireAction::AwaitHelper,
            Phase::Receiving { fd1, .. } => AcquireAction::ReceiveMessage { socket: *fd1 },
            Phase::ClosingFirst { fd0, .. } => AcquireAction::Close { fd: *fd0 },
            Phase::ClosingSecond { fd1, .. } => AcquireAction::Close { fd: *fd1 },
            Phase::QueryingFlags { fd } => AcquireAction::GetFlags { fd: *fd },
            Phase::SettingFlags { fd, flags } => AcquireAction::SetFlags { fd: *fd, flags: *flags },
            Phase::Registering { fd } => AcquireAction::Register { fd: *fd },
            Phase::Discarding { fd, .. } => AcquireAction::Close { fd: *fd },
        }
    }

    /// Moves a descriptor whose status flags were queried on to the write of
    /// the new flags, or to its disposal where there are none to write. In
    /// any other phase nothing changes.
    pub fn flags_updated(self, updated: Result<i32, Error>) -> (progress: Progress)
        ensures
            progress@ == match self@ {
                Phase::QueryingFlags { fd } => flags_step(fd, updated),
                phase => ProgressView::Pending(phase),
            },
    {
        match self.phase {
            Phase::QueryingFlags { fd } => match updated {
                Ok(flags) => Self::pending(Phase::SettingFlags { fd, flags }),
                Err(error) => Self::pending(Phase::Discarding { fd, error }),
            },
            phase => Self::pending(phase),
        }
    }

    /// Takes in how the pending action ended. An event that does not answer
    /// that action changes nothing.
    pub fn advance(self, event: AcquireEvent) -> (progress: Progress)
        ensures
            progress@ == step(self@, event),
    {
        match (self.phase, event) {
            (Phase::OpeningDevice, AcquireEvent::DeviceOpened(Ok(fd))) => Self::pending(
                Phase::QueryingFlags { fd },
            ),
            (Phase::OpeningDevice, AcquireEvent::DeviceOpened(Err(error))) => Progress::Done(
                Err(error),
            ),
            (
                Phase::CreatingSockets { options, mount_path },
                AcquireEvent::SocketPairCreated(Ok((fd0, fd1))),
            ) => Self::pending(Phase::LocatingHelper { fd0, fd1, options, mount_path }),
            (Phase::CreatingSockets { .. }, AcquireEvent::SocketPairCreated(Err(err))) => {
                Progress::Done(Err(io_error_from_nix_error(err)))
            },
            (
                Phase::LocatingHelper { fd0, fd1, options, mount_path },
                AcquireEvent::HelperLocated(Ok(program)),
            ) => Self::pending(Phase::SpawningHelper { fd0, fd1, program, options, mount_path }),
            (Phase::LocatingHelper { fd0, fd1, .. }, AcquireEvent::HelperLocated(Err(report))) => {
                Self::pending(
                    Phase::ClosingFirst { fd0, fd1, outcome: Err(Error::HelperNotFound(report)) },
                )
            },
            (Phase::SpawningHelper { fd0, fd1, .. }, AcquireEvent::HelperSpawned(Ok(_))) => {
                Self::pending(Phase::AwaitingHelper { fd0, fd1 })
            },
            (Phase::SpawningHelper { fd0, fd1, .. }, AcquireEvent::HelperSpawned(Err(error))) => {
                Self::pending(Phase::ClosingFirst { fd0, fd1, outcome: Err(error) })
            },
            (Phase::AwaitingHelper { fd0, fd1 }, AcquireEvent::HelperExited(Ok(succeeded))) => {
                if succeeded {
                    Self::pending(Phase::Receiving { fd0, fd1 })
                } else {
                    Self::pending(
                        Phase::ClosingFirst { fd0, fd1, outcome: Err(Error::HelperFailed) },
                    )
                }
            },
            (Phase::AwaitingHelper { fd0, fd1 }, AcquireEvent::HelperExited(Err(error))) => {
                Self::pending(Phase::ClosingFirst { fd0, fd1, outcome: Err(error) })
            },
            (Phase::Receiving { fd0, fd1 }, AcquireEvent::MessageReceived(received)) => {
                Self::pending(
                    Phase::ClosingFirst { fd0, fd1, outcome: extract_descriptor(received) },
                )
            },
            (Phase::ClosingFirst { fd0, fd1, outcome }, AcquireEvent::Closed(closed)) => {
                let close_failure = match closed {
                    Ok(_) => None,
                    Err(err) => Some(io_error_from_nix_error(err)),
                };
                Self::pending(Phase::ClosingSecond { fd1, outcome, close_failure })
            },
            (
                Phase::ClosingSecond { fd1, outcome, close_failure },
                AcquireEvent::Closed(closed),
            ) => {
                match outcome {
                    Err(error) => Progress::Done(Err(error)),
                    Ok(fd) => {
                        let failure = match (close_failure, closed) {
                            (Some(error), _) => Some(error),
                            (None, Err(err)) => Some(io_error_from_nix_error(err)),
                            (None, Ok(_)) => None,
                        };
                        match failure {
                            None => Self::pending(Phase::QueryingFlags { fd }),
                            Some(error) => Self::pending(Phase::Discarding { fd, error }),
                        }
                    },
                }
            },
            (Phase::QueryingFlags { fd }, AcquireEvent::FlagsRead(queried)) => {
                let updated = FuseConnection::set_fd_non_blocking(queried);
                Self::begin(Phase::QueryingFlags { fd }).flags_updated(updated)
            },
            (Phase::SettingFlags { fd, flags }, AcquireEvent::FlagsWritten(Ok(_))) => {
                Self::pending(Phase::Registering { fd })
            },
            (Phase::SettingFlags { fd, flags }, AcquireEvent::FlagsWritten(Err(err))) => {
                Self::pending(Phase::Discarding { fd, error: io_error_from_nix_error(err) })
            },
            (Phase::Registering { fd }, AcquireEvent::Registered(Ok(_))) => Progress::Done(
                Ok(FuseConnection::from_registered(fd)),
            ),
            (Phase::Registering { fd }, AcquireEvent::Registered(Err(error))) => {
                Self::pending(Phase::Discarding { fd, error })
            },
            (Phase::Discarding { fd, error }, AcquireEvent::Closed(_)) => Progress::Done(
                Err(error),
            ),
            (phase, _) => Self::pending(phase),
        }
    }
}

/// The descriptors that an acquisition holds in a phase: those it was
/// given and has not yet handed back for closing.
pub open spec fn held(phase: Phase) -> Multiset<i32> {
    match phase {
        Phase::OpeningDevice | Phase::CreatingSockets { .. } => Multiset::empty(),
        Phase::LocatingHelper { fd0, fd1, .. }
        | Phase::SpawningHelper { fd0, fd1, .. }
        | Phase::AwaitingHelper { fd0, fd1 }
        | Phase::Receiving { fd0, fd1 } => Multiset::singleton(fd0).insert(fd1),
        Phase::ClosingFirst { fd0, fd1, outcome } => Multiset::singleton(fd0).insert(fd1).add(
            transferred(outcome),
        ),
        Phase::ClosingSecond { fd1, outcome, .. } => Multiset::singleton(fd1).add(
            transferred(outcome),
        ),
        Phase::QueryingFlags { fd }
        | Phase::SettingFlags { fd, .. }
        | Phase::Registering { fd }
        | Phase::Discarding { fd, .. } => Multiset::singleton(fd),
    }
}

/// The descriptor that a transfer attempt brought, if it brought one.
pub open spec fn transferred(outcome: Result<i32, Error>) -> Multiset<i32> {
    match outcome {
        Ok(fd) => Multiset::singleton(fd),
        Err(_) => Multiset::empty(),
    }
}

/// The descriptors that an event hands to an acquisition in a phase that
/// the event answers.
pub open spec fn gained(phase: Phase, event: AcquireEvent) -> Multiset<i32> {
    match (phase, event) {
        (Phase::OpeningDevice, AcquireEvent::DeviceOpened(Ok(fd))) => Multiset::singleton(fd),
        (Phase::CreatingSockets { .. }, AcquireEvent::SocketPairCreated(Ok((fd0, fd1)))) => {
            Multiset::singleton(fd0).insert(fd1)
        },
        (
            Phase::Receiving { .. },
            AcquireEvent::MessageReceived(Ok(Some(ControlMessage::ScmRights(fds)))),
        ) => fds@.to_multiset(),
        _ => Multiset::empty(),
    }
}

/// The descriptor that is closed when an event answers a phase that asked
/// for a close.
pub open spec fn closed(phase: Phase, event: AcquireEvent) -> Multiset<i32> {
    match (action_of(phase), event) {
        (AcquireActionView::Close { fd }, AcquireEvent::Closed(_)) => Multiset::singleton(fd),
        _ => Multiset::empty(),
    }
}

/// Whether a message carries at most the one descriptor there is room for.
pub open spec fn carries_at_most_one(event: AcquireEvent) -> bool {
    event matches AcquireEvent::MessageReceived(Ok(Some(ControlMessage::ScmRights(fds))))
        ==> fds@.len() <= 1
}

/// Every descriptor is accounted for at every step: what an acquisition
/// holds after an event is what it held before, with what the event handed
/// it and without what was closed. When the acquisition ends with a
/// connection, the connection's descriptor is all that is left; when it ends
/// with an error, nothing is.
pub proof fn lemma_descriptors_are_accounted_for(phase: Phase, event: AcquireEvent)
    requires
        carries_at_most_one(event),
    ensures
        closed(phase, event).subset_of(held(phase).add(gained(phase, event))),
        match step(phase, event) {
            ProgressView::Pending(next) => held(next) == held(phase).add(gained(phase, event)).sub(
                closed(phase, event),
            ),
            ProgressView::Done(Ok(fd)) => held(phase).add(gained(phase, event)).sub(
                closed(phase, event),
            ) == Multiset::singleton(fd),
            ProgressView::Done(Err(_)) => held(phase).add(gained(phase, event)).sub(
                closed(phase, event),
            ) == Multiset::<i32>::empty(),
        },
{
    broadcast use vstd::seq_lib::group_to_multiset_ensures;

    let before = held(phase).add(gained(phase, event));
    let after = before.sub(closed(phase, event));
    if let (
        Phase::Receiving { .. },
        AcquireEvent::MessageReceived(Ok(Some(ControlMessage::ScmRights(fds)))),
    ) = (phase, event) {
        if fds@.len() == 1 {
            assert(fds@ =~= Seq::<i32>::empty().push(fds@[0]));
            assert(fds@.to_multiset() =~= Multiset::singleton(fds@[0]));
        } else {
            assert(fds@ =~= Seq::<i32>::empty());
            assert(fds@.to_multiset() =~= Multiset::<i32>::empty());
        }
    }
    match step(phase, event) {
        ProgressView::Pending(next) => {
            assert(held(next) =~= after);
        },
        ProgressView::Done(Ok(fd)) => {
            assert(after =~= Multiset::singleton(fd));
        },
        ProgressView::Done(Err(_)) => {
            assert(after =~= Multiset::<i32>::empty());
        },
    }
}

/// Where an acquisition stands after the events, taken in order. Events
/// that come after its end are not looked at.
pub open spec fn run(phase: Phase, events: Seq<AcquireEvent>) -> ProgressView
    decreases events.len(),
{
    if events.len() == 0 {
        ProgressView::Pending(phase)
    } else {
        match step(phase, events[0]) {
            ProgressView::Pending(next) => run(next, events.drop_first()),
            done => done,
        }
    }
}

/// All the descriptors that the events of a run hand to the acquisition.
pub open spec fn gained_during(phase: Phase, events: Seq<AcquireEvent>) -> Multiset<i32>
    decreases events.len(),
{
    if events.len() == 0 {
        Multiset::empty()
    } else {
        match step(phase, events[0]) {
            ProgressView::Pending(next) => gained(phase, events[0]).add(
                gained_during(next, events.drop_first()),
            ),
            _ => gained(phase, events[0]),
        }
    }
}

/// All the descriptors that are closed in the course of a run.
pub open spec fn closed_during(phase: Phase, events: Seq<AcquireEvent>) -> Multiset<i32>
    decreases events.len(),
{
    if events.len() == 0 {
        Multiset::empty()
    } else {
        match step(phase, events[0]) {
            ProgressView::Pending(next) => closed(phase, events[0]).add(
                closed_during(next, events.drop_first()),
            ),
            _ => closed(phase, events[0]),
        }
    }
}

/// What a run leaves open: nothing after a failure, the connection's
/// descriptor after a success, and what the acquisition holds while it is
/// still going.
pub open spec fn left_open(progress: ProgressView) -> Multiset<i32> {
    match progress {
        ProgressView::Pending(phase) => held(phase),
        ProgressView::Done(Ok(fd)) => Multiset::singleton(fd),
        ProgressView::Done(Err(_)) => Multiset::empty(),
    }
}

/// Over a whole run, whatever the events: the descriptors held at the start
/// and those handed over on the way are exactly those closed on the way and
/// those left open at the end. So an attempt that starts with nothing and
/// fails has closed every descriptor it was given, and one that succeeds has
/// closed all but the connection's.
pub proof fn lemma_run_leaves_nothing_behind(phase: Phase, events: Seq<AcquireEvent>)
    requires
        forall|i: int| 0 <= i < events.len() ==> carries_at_most_one(#[trigger] events[i]),
    ensures
        held(phase).add(gained_during(phase, events)) == left_open(run(phase, events)).add(
            closed_during(phase, events),
        ),
    decreases events.len(),
{
    let start = held(phase).add(gained_during(phase, events));
    let end = left_open(run(phase, events)).add(closed_during(phase, events));
    if events.len() == 0 {
        assert(start =~= end);
    } else {
        lemma_descriptors_are_accounted_for(phase, events[0]);
        match step(phase, events[0]) {
            ProgressView::Pending(next) => {
                let rest = events.drop_first();
                assert forall|i: int| 0 <= i < rest.len() implies carries_at_most_one(
                    #[trigger] rest[i],
                ) by {
                    assert(rest[i] == events[i + 1]);
                }
                lemma_run_leaves_nothing_behind(next, rest);
                let first_gained = gained(phase, events[0]);
                let first_closed = closed(phase, events[0]);
                let later = left_open(run(next, rest)).add(closed_during(next, rest));
                assert forall|fd: i32| start.count(fd) == end.count(fd) by {
                    assert(first_closed.count(fd) <= held(phase).add(first_gained).count(fd));
                    assert(held(next).count(fd) == held(phase).add(first_gained).count(fd)
                        - first_closed.count(fd));
                    assert(held(next).add(gained_during(next, rest)).count(fd) == later.count(fd));
                }
                assert(start =~= end);
            },
            _ => {
                assert(start =~= end);
            },
        }
    }
}

/// What has to happen to a descriptor before it is a connection's.
pub enum Milestone {
    /// The status flags of `fd` were read, and `flags` are those flags made
    /// non-blocking.
    FlagsChosen { fd: i32, flags: i32 },
    /// `flags` were written as the status flags of `fd`.
    FlagsWritten { fd: i32, flags: i32 },
    /// `fd` was registered for readiness notification.
    Registered { fd: i32 },
}

/// Whether the event, answering the phase's action, reports the milestone.
pub open spec fn reaches(phase: Phase, event: AcquireEvent, milestone: Milestone) -> bool {
    match (phase, event, milestone) {
        (
            Phase::QueryingFlags { fd: pending },
            AcquireEvent::FlagsRead(Ok(queried)),
            Milestone::FlagsChosen { fd, flags },
        ) => pending == fd && flags == non_blocking_flags(queried),
        (
            Phase::SettingFlags { fd: pending, flags: asked },
            AcquireEvent::FlagsWritten(Ok(_)),
            Milestone::FlagsWritten { fd, flags },
        ) => pending == fd && asked == flags,
        (
            Phase::Registering { fd: pending },
            AcquireEvent::Registered(Ok(_)),
            Milestone::Registered { fd },
        ) => pending == fd,
        _ => false,
    }
}

/// Whether some event of the run reports the milestone.
pub open spec fn happened(phase: Phase, events: Seq<AcquireEvent>, milestone: Milestone) -> bool
    decreases events.len(),
{
    events.len() > 0 && (reaches(phase, events[0], milestone) || match step(phase, events[0]) {
        ProgressView::Pending(next) => happened(next, events.drop_first(), milestone),
        ProgressView::Done(_) => false,
    })
}

/// One step towards a connection: an acquisition ends with a connection
/// only when the registration of its descriptor succeeds; a descriptor comes
/// up for registration only when its new status flags were written; and
/// flags come up for writing only when they are the queried ones made
/// non-blocking.
pub proof fn lemma_connection_is_complete(phase: Phase, event: AcquireEvent)
    ensures
        match step(phase, event) {
            ProgressView::Done(Ok(fd)) => reaches(phase, event, Milestone::Registered { fd }),
            ProgressView::Done(Err(_)) => true,
            ProgressView::Pending(Phase::Registering { fd }) => phase == (Phase::Registering {
                fd,
            }) || exists|flags: i32|
                reaches(phase, event, Milestone::FlagsWritten { fd, flags }),
            ProgressView::Pending(Phase::SettingFlags { fd, flags }) => phase == (
            Phase::SettingFlags { fd, flags }) || reaches(
                phase,
                event,
                Milestone::FlagsChosen { fd, flags },
            ),
            ProgressView::Pending(_) => true,
        },
{
    if let ProgressView::Pending(Phase::Registering { fd }) = step(phase, event) {
        if let Phase::SettingFlags { flags, .. } = phase {
            assert(reaches(phase, event, Milestone::FlagsWritten { fd, flags }));
        }
    }
}

/// Whether every milestone on the way to a connection on `fd` was reached
/// in the run, with the flags that were chosen being the flags that were
/// written.
pub open spec fn fully_prepared(phase: Phase, events: Seq<AcquireEvent>, fd: i32) -> bool {
    exists|flags: i32|
        {
            &&& #[trigger] happened(phase, events, Milestone::FlagsChosen { fd, flags })
            &&& happened(phase, events, Milestone::FlagsWritten { fd, flags })
            &&& happened(phase, events, Milestone::Registered { fd })
        }
}

/// Whether the phase is one that an attempt starts in.
pub open spec fn is_start(phase: Phase) -> bool {
    phase is OpeningDevice || phase is CreatingSockets
}

proof fn lemma_run_reaches_milestones(phase: Phase, events: Seq<AcquireEvent>, fd: i32)
    requires
        run(phase, events) == ProgressView::Done(Ok(fd)),
    ensures
        happened(phase, events, Milestone::Registered { fd }),
        phase == (Phase::Registering { fd }) || exists|flags: i32|
            {
                &&& #[trigger] happened(phase, events, Milestone::FlagsWritten { fd, flags })
                &&& phase == (Phase::SettingFlags { fd, flags }) || happened(
                    phase,
                    events,
                    Milestone::FlagsChosen { fd, flags },
                )
            },
    decreases events.len(),
{
    lemma_connection_is_complete(phase, events[0]);
    match step(phase, events[0]) {
        ProgressView::Pending(next) => {
            let rest = events.drop_first();
            lemma_run_reaches_milestones(next, rest, fd);
            if next == (Phase::Registering { fd }) {
                if phase != (Phase::Registering { fd }) {
                    let flags = choose|flags: i32|
                        reaches(phase, events[0], Milestone::FlagsWritten { fd, flags });
                    assert(happened(phase, events, Milestone::FlagsWritten { fd, flags }));
                    assert(phase == (Phase::SettingFlags { fd, flags }));
                }
            } else {
                let flags = choose|flags: i32|
                    {
                        &&& #[trigger] happened(next, rest, Milestone::FlagsWritten { fd, flags })
                        &&& next == (Phase::SettingFlags { fd, flags }) || happened(
                            next,
                            rest,
                            Milestone::FlagsChosen { fd, flags },
                        )
                    };
                assert(happened(phase, events, Milestone::FlagsWritten { fd, flags }));
                if next == (Phase::SettingFlags { fd, flags }) {
                    if phase != (Phase::SettingFlags { fd, flags }) {
                        assert(happened(phase, events, Milestone::FlagsChosen { fd, flags }));
                    }
                } else {
                    assert(happened(phase, events, Milestone::FlagsChosen { fd, flags }));
                }
            }
        },
        ProgressView::Done(_) => {},
    }
}

/// Every attempt ends with a whole connection or with none: if a run from
/// the start of an attempt ends with a connection on `fd`, then in that run
/// the status flags of `fd` were read, those flags made non-blocking were
/// written back, and `fd` was registered. There is no other way to a
/// connection.
pub proof fn lemma_attempt_yields_whole_connection(
    phase: Phase,
    events: Seq<AcquireEvent>,
    fd: i32,
)
    requires
        is_start(phase),
        run(phase, events) == ProgressView::Done(Ok(fd)),
    ensures
        fully_prepared(phase, events, fd),
{
    lemma_run_reaches_milestones(phase, events, fd);
}

/// Once the transfer attempt has failed, the acquisition asks for the first
/// socket to be closed, then for the second, and then ends with the
/// attempt's error, whatever the two closes report.
pub proof fn lemma_failure_closes_both_sockets(
    fd0: i32,
    fd1: i32,
    error: Error,
    first: Result<(), NixError>,
    second: Result<(), NixError>,
)
    ensures
        ({
            let closing = Phase::ClosingFirst { fd0, fd1, outcome: Err(error) };
            &&& action_of(closing) == AcquireActionView::Close { fd: fd0 }
            &&& step(closing, AcquireEvent::Closed(first)) matches ProgressView::Pending(last)
            &&& action_of(last) == AcquireActionView::Close { fd: fd1 }
            &&& step(last, AcquireEvent::Closed(second)) == ProgressView::Done(Err(error))
        }),
{
}

/// A helper that exits with a failure status ends the acquisition: no
/// message is asked for, the two sockets are closed one after the other, and
/// the result is [`Error::HelperFailed`], whatever the closes report.
pub proof fn lemma_failed_helper_is_fatal(
    fd0: i32,
    fd1: i32,
    first: Result<(), NixError>,
    second: Result<(), NixError>,
)
    ensures
        ({
            let waiting = Phase::AwaitingHelper { fd0, fd1 };
            &&& step(waiting, AcquireEvent::HelperExited(Ok(false))) matches ProgressView::Pending(
                closing,
            )
            &&& action_of(closing) == AcquireActionView::Close { fd: fd0 }
            &&& step(closing, AcquireEvent::Closed(first)) matches ProgressView::Pending(last)
            &&& action_of(last) == AcquireActionView::Close { fd: fd1 }
            &&& step(last, AcquireEvent::Closed(second)) == ProgressView::Done(
                Err(Error::HelperFailed),
            )
        }),
{
    lemma_failure_closes_both_sockets(fd0, fd1, Error::HelperFailed, first, second);
}

/// A control message with an empty descriptor list ends the acquisition: the
/// two sockets are closed one after the other, and only then is the result
/// [`Error::NoDescriptor`], whatever the closes report.
pub proof fn lemma_empty_descriptor_list_is_fatal(
    fd0: i32,
    fd1: i32,
    fds: Vec<i32>,
    first: Result<(), NixError>,
    second: Result<(), NixError>,
)
    requires
        fds@.len() == 0,
    ensures
        ({
            let message = AcquireEvent::MessageReceived(Ok(Some(ControlMessage::ScmRights(fds))));
            &&& step(Phase::Receiving { fd0, fd1 }, message) matches ProgressView::Pending(closing)
            &&& action_of(closing) == AcquireActionView::Close { fd: fd0 }
            &&& step(closing, AcquireEvent::Closed(first)) matches ProgressView::Pending(last)
            &&& action_of(last) == AcquireActionView::Close { fd: fd1 }
            &&& step(last, AcquireEvent::Closed(second)) == ProgressView::Done(
                Err(Error::NoDescriptor),
            )
        }),
{
    lemma_failure_closes_both_sockets(fd0, fd1, Error::NoDescriptor, first, second);
}

} // verus!
