//! The connection to the kernel driver.

use vstd::prelude::*;

use crate::error::Error;
use crate::error::NixError;
use crate::helper::io_error_from_nix_error;
use crate::helper::io_error_of;
use crate::raw::acquisition::Acquisition;
use crate::raw::acquisition::Phase;
use crate::raw::platform::non_blocking_flags;
use crate::raw::platform::with_non_blocking;
use crate::raw::transfer::starting;
use crate::raw::transfer::Direction;
use crate::raw::transfer::IoCall;

verus! {

/// An acquired kernel channel: a descriptor that is open, non-blocking and
/// registered for readiness. Only a finished acquisition makes one, and it
/// cannot be copied, so the descriptor has one owner until it is released.
#[derive(Debug)]
pub struct FuseConnection {
    fd: i32,
}

impl View for FuseConnection {
    type V = i32;

    /// The descriptor of the channel.
    closed spec fn view(&self) -> i32 {
        self.fd
    }
}

/// What a query of the status flags leads to: the flags to write back, which
/// are the queried ones made non-blocking, or the query's failure.
pub open spec fn non_blocking_update(queried: Result<i32, NixError>) -> Result<i32, Error> {
    match queried {
        Ok(flags) => Ok(non_blocking_flags(flags)),
        Err(err) => Err(io_error_of(err)),
    }
}

impl FuseConnection {
    pub(crate) fn from_registered(fd: i32) -> (connection: FuseConnection)
        ensures
            connection@ == fd,
    {
        FuseConnection { fd }
    }

    /// Begins the acquisition that opens the kernel device directly.
    pub fn new() -> (acquisition: Acquisition)
        ensures
            acquisition@ == Phase::OpeningDevice,
    {
        Acquisition::begin(Phase::OpeningDevice)
    }

    /// Begins the acquisition that has the mount helper open the kernel
    /// device and pass the descriptor back. The options and the mount path
    /// reach the helper unchanged.
    pub fn new_with_unprivileged(mount_options: String, mount_path: String) -> (acquisition:
        Acquisition)
        ensures
            acquisition@ == (Phase::CreatingSockets { options: mount_options, mount_path }),
    {
        Acquisition::begin(Phase::CreatingSockets { options: mount_options, mount_path })
    }

    /// The middle of the non-blocking conversion: given what the query of a
    /// descriptor's status flags returned, the flags to write back.
    pub fn set_fd_non_blocking(queried: Result<i32, NixError>) -> (updated: Result<i32, Error>)
        ensures
            updated == non_blocking_update(queried),
    {
        match queried {
            Ok(flags) => Ok(with_non_blocking(flags)),
            Err(err) => Err(io_error_from_nix_error(err)),
        }
    }

    /// Begins a read into a buffer of `len` bytes.
    pub fn read(&self, len: usize) -> (call: IoCall)
        ensures
            call@ == starting(Direction::Read, self@, len),
    {
        IoCall::start(Direction::Read, self.fd, len)
    }

    /// Begins a write from a buffer of `len` bytes.
    pub fn write(&self, len: usize) -> (call: IoCall)
        ensures
            call@ == starting(Direction::Write, self@, len),
    {
        IoCall::start(Direction::Write, self.fd, len)
    }

    /// The descriptor of the channel.
    pub fn as_raw_fd(&self) -> (fd: i32)
        ensures
            fd == self@,
    {
        self.fd
    }

    /// Ends the connection and names the descriptor to close. Whether the
    /// close succeeds is of no concern to anyone: nothing is left to report
    /// it to.
    pub fn release(self) -> (fd: i32)
        ensures
            fd == self@,
    {
        self.fd
    }
}

} // verus!
