//! Unicast IP addresses.

use vstd::prelude::*;
use crate::cvt_dword;
use crate::notifier::ChangeNotifier;
use crate::notifier::Subscription;
use crate::record::UnicastAddressRecord;
use crate::record::AF_UNSPEC;
use crate::status_result;
use crate::table::Table;
use crate::table::TableIter;
use crate::Error;

verus! {

/// One unicast IP address of an interface.
#[derive(Clone, Copy, Debug, PartialEq, Eq)]
pub struct MibUnicastIpAddressRow {
    pub inner: UnicastAddressRecord,
}

/// A snapshot of the unicast IP addresses.
pub type MibUnicastIpAddressTable = Table<MibUnicastIpAddressRow>;

/// A cursor over a snapshot of the unicast IP addresses.
pub type MibUnicastIpAddressTableIter<'a> = TableIter<'a, MibUnicastIpAddressRow>;

/// A subscription to changes of the unicast IP addresses of every address
/// family.
pub type UnicastIpAddressChangeNotifier<H> = ChangeNotifier<H, MibUnicastIpAddressRow>;

impl MibUnicastIpAddressRow {
    /// An address entry with the values of `initial`, the record as the
    /// system's initialiser filled it.
    pub fn new(initial: UnicastAddressRecord) -> (row: Self)
        ensures
            row.inner == initial,
    {
        MibUnicastIpAddressRow { inner: initial }
    }

    /// Takes over the outcome of asking the system to add this address: the
    /// status that the system returned. The row stays as it is.
    pub fn create(&self, status: u32) -> (res: Result<(), Error>)
        ensures
            res == status_result(status),
    {
        cvt_dword(status)
    }

    /// Takes over the outcome of asking the system to remove this address:
    /// the status that the system returned. The row stays as it is.
    pub fn delete(&self, status: u32) -> (res: Result<(), Error>)
        ensures
            res == status_result(status),
    {
        cvt_dword(status)
    }
}

impl<H> ChangeNotifier<H, MibUnicastIpAddressRow> {
    /// An unregistered notifier for changes to the unicast IP addresses of
    /// every address family. It owns the callback.
    pub fn new(callback: H) -> (notifier: Self)
        ensures
            notifier@ == Subscription::initial(AF_UNSPEC, callback),
    {
        ChangeNotifier::with_family(AF_UNSPEC, callback)
    }
}

} // verus!
