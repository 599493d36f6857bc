//! IP routes.

use vstd::prelude::*;
use crate::cvt_dword;
use crate::notifier::ChangeNotifier;
use crate::notifier::Subscription;
use crate::record::RouteRecord;
use crate::record::AF_UNSPEC;
use crate::status_result;
use crate::table::Table;
use crate::table::TableIter;
use crate::Error;

verus! {

/// One entry of the routing table.
#[derive(Clone, Copy, Debug, PartialEq, Eq)]
pub struct MibIpForwardRow2 {
    pub inner: RouteRecord,
}

/// A snapshot of the routing table.
pub type MibIpForwardTable2 = Table<MibIpForwardRow2>;

/// A cursor over a snapshot of the routing table.
pub type MibIpForwardTable2Iter<'a> = TableIter<'a, MibIpForwardRow2>;

/// A subscription to changes of the routes of every address family.
pub type RouteChange2Notifier<H> = ChangeNotifier<H, MibIpForwardRow2>;

impl MibIpForwardRow2 {
    /// A route entry with the values of `initial`, the record as the
    /// system's initialiser filled it.
    pub fn new(initial: RouteRecord) -> (row: Self)
        ensures
            row.inner == initial,
    {
        MibIpForwardRow2 { inner: initial }
    }

    /// Takes over the outcome of asking the system to add this route: the
    /// status that the system returned. The row stays as it is.
    pub fn create(&self, status: u32) -> (res: Result<(), Error>)
        ensures
            res == status_result(status),
    {
        cvt_dword(status)
    }

    /// Takes over the outcome of asking the system to remove this route:
    /// the status that the system returned. The row stays as it is.
    pub fn delete(&self, status: u32) -> (res: Result<(), Error>)
        ensures
            res == status_result(status),
    {
        cvt_dword(status)
    }
}

impl<H> ChangeNotifier<H, MibIpForwardRow2> {
    /// An unregistered notifier for changes to the routes of every address
    /// family. It owns the callback.
    pub fn new(callback: H) -> (notifier: Self)
        ensures
            notifier@ == Subscription::initial(AF_UNSPEC, callback),
    {
        ChangeNotifier::with_family(AF_UNSPEC, callback)
    }
}

} // verus!
