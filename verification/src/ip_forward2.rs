//! IP routes, with notifiers for a chosen address family.

use vstd::prelude::*;
use crate::cvt_dword;
use crate::notifier::ChangeNotifier;
use crate::notifier::Subscription;
use crate::record::RouteRecord;
use crate::status_result;
use crate::table::Table;
use crate::table::TableIter;
use crate::Error;

verus! {

/// One entry of the routing table.
#[derive(Clone, Copy, Debug, PartialEq, Eq)]
pub struct IpForward2 {
    pub inner: RouteRecord,
}

/// A snapshot of the routing table.
pub type IpForwardTable2 = Table<IpForward2>;

/// A cursor over a snapshot of the routing table.
pub type IpForwardTable2Iter<'a> = TableIter<'a, IpForward2>;

/// A subscription to changes of the routes of one address family or of all.
pub type RouteChange2Notifier<H> = ChangeNotifier<H, IpForward2>;

impl IpForward2 {
    /// A route entry with the values of `initial`, the record as the
    /// system's initialiser filled it.
    pub fn new(initial: RouteRecord) -> (row: Self)
        ensures
            row.inner == initial,
    {
        IpForward2 { inner: initial }
    }

    /// Takes over the outcome of asking the system to add this route: the
    /// status that the system returned. The row stays as it is.
    pub fn create(&self, status: u32) -> (res: Result<(), Error>)
        ensures
            res == status_result(status),
    {
        cvt_dword(status)
    }

    /// Takes over the outcome of asking the system to remove this route:
    /// the status that the system returned. The row stays as it is.
    pub fn delete(&self, status: u32) -> (res: Result<(), Error>)
        ensures
            res == status_result(status),
    {
        cvt_dword(status)
    }

    /// An unregistered notifier for changes to the routes of one address
    /// family, or of all with family 0. It owns the callback.
    pub fn notify_change<H>(family: u16, callback: H) -> (notifier: RouteChange2Notifier<H>)
        ensures
            notifier@ == Subscription::initial(family, callback),
    {
        ChangeNotifier::with_family(family, callback)
    }
}

} // verus!
