//! Network interfaces.

use vstd::prelude::*;
use crate::cvt_dword;
use crate::record::InterfaceRecord;
use crate::status_result;
use crate::Error;

verus! {

/// One network interface, known by its locally unique identifier.
#[derive(Clone, Copy, Debug, PartialEq, Eq)]
pub struct IfRow2 {
    pub inner: InterfaceRecord,
}

impl IfRow2 {
    /// The row to query the interface `luid` with: the identifier set and
    /// every other property zero.
    pub fn new(luid: u64) -> (row: Self)
        ensures
            row.inner.interface_luid == luid,
            row.inner.is_zeroed_but_luid(),
    {
        let mut inner = InterfaceRecord::zeroed();
        inner.interface_luid = luid;
        IfRow2 { inner }
    }

    /// Takes over the outcome of a query for this interface: the status
    /// that the system returned and the record as the system left it.
    pub fn get(&mut self, status: u32, reported: InterfaceRecord) -> (res: Result<(), Error>)
        ensures
            res == status_result(status),
            final(self).inner == reported,
    {
        self.inner = reported;
        cvt_dword(status)
    }
}

} // verus!
