//! Verified core of a host network configuration library: the meaning of
//! native statuses, resource rows, snapshot tables and change notifiers.
//!
//! The library makes no system call. Whoever makes one hands its outcome to
//! the library as plain values, and does what the library answers: a row
//! takes over the record and the status of a query, a table the entries and
//! the allocation of a snapshot, a notifier the outcome of a registration
//! and each event that the system delivers. What the library owns it gives
//! up once: the allocation of a table on its release, the handler of a
//! notifier after its cancellation.

use vstd::prelude::*;

pub mod if2;
pub mod ip_forward;
pub mod ip_forward2;
pub mod ip_interface;
pub mod notifier;
pub mod record;
pub mod table;
pub mod unicast_ip;

verus! {

/// The native status that every entry point returns on success.
pub const NO_ERROR: u32 = 0;

/// What a failed operation reports.
#[derive(Clone, Copy, Debug, PartialEq, Eq, Structural)]
pub enum Error {
    /// The system answered with a status other than [`NO_ERROR`]; the status is carried as is.
    OsStatus(u32),
    /// A value that the system's own contract rules out.
    InvalidInternalState,
}

/// A status read as the signed number of the same 32 bits, the form in which
/// the platform's error reporting carries it.
pub open spec fn signed_status(status: u32) -> int {
    if status <= i32::MAX {
        status as int
    } else {
        status - 0x1_0000_0000
    }
}

impl Error {
    /// The native status that the error carries, read as a signed number;
    /// nothing for an error that carries none.
    pub fn raw_os_error(&self) -> (code: Option<i32>)
        ensures
            *self matches Error::OsStatus(status) ==> code is Some && code->0 == signed_status(
                status,
            ),
            *self is InvalidInternalState ==> code is None,
    {
        match *self {
            Error::OsStatus(status) => {
                if status <= 0x7fff_ffff {
                    Some(status as i32)
                } else {
                    let low: i32 = (status - 0x8000_0000) as i32;
                    Some(low - 0x7fff_ffff - 1)
                }
            },
            Error::InvalidInternalState => None,
        }
    }
}

/// What a native status means: success for [`NO_ERROR`], the status as an error otherwise.
pub open spec fn status_result(status: u32) -> Result<(), Error> {
    if status == NO_ERROR {
        Ok(())
    } else {
        Err(Error::OsStatus(status))
    }
}

/// Turns a native status into a result.
pub fn cvt_dword(d: u32) -> (res: Result<(), Error>)
    ensures
        res == status_result(d),
{
    if d == NO_ERROR {
        Ok(())
    } else {
        Err(Error::OsStatus(d))
    }
}

} // verus!
