//! The IP-layer properties of interfaces.

use vstd::prelude::*;
use crate::cvt_dword;
use crate::notifier::ChangeNotifier;
use crate::notifier::Subscription;
use crate::record::IpInterfaceRecord;
use crate::record::AF_INET;
use crate::record::AF_INET6;
use crate::status_result;
use crate::Error;
use crate::NO_ERROR;

verus! {

/// The longest site prefix of an IPv4 interface.
pub const MAX_SITE_PREFIX_LENGTH_V4: u32 = 32;

/// The longest site prefix of an IPv6 interface.
pub const MAX_SITE_PREFIX_LENGTH_V6: u32 = 128;

/// The site prefix length that a query hands on. The system may report a
/// length beyond the range of the family and refuses the same length when it
/// is written back: such a length becomes 0 for IPv4 and the longest for
/// IPv6. A length in range, and any length of another family, stays.
pub open spec fn normalized_site_prefix_length(family: u16, length: u32) -> u32 {
    if family == AF_INET && length > MAX_SITE_PREFIX_LENGTH_V4 {
        0
    } else if family == AF_INET6 && length > MAX_SITE_PREFIX_LENGTH_V6 {
        MAX_SITE_PREFIX_LENGTH_V6
    } else {
        length
    }
}

/// Whether a site prefix length is one that the system accepts for the family.
pub open spec fn site_prefix_length_in_range(family: u16, length: u32) -> bool {
    &&& family == AF_INET ==> length <= MAX_SITE_PREFIX_LENGTH_V4
    &&& family == AF_INET6 ==> length <= MAX_SITE_PREFIX_LENGTH_V6
}

/// Brings a reported site prefix length into the range of its family.
pub fn normalize_site_prefix_length(family: u16, length: u32) -> (normal: u32)
    ensures
        normal == normalized_site_prefix_length(family, length),
        site_prefix_length_in_range(family, normal),
        site_prefix_length_in_range(family, length) ==> normal == length,
{
    if family == AF_INET {
        if length > MAX_SITE_PREFIX_LENGTH_V4 {
            0
        } else {
            length
        }
    } else if family == AF_INET6 {
        if length > MAX_SITE_PREFIX_LENGTH_V6 {
            MAX_SITE_PREFIX_LENGTH_V6
        } else {
            length
        }
    } else {
        length
    }
}

/// The IP-layer properties of one interface for one address family.
#[derive(Clone, Copy, Debug, PartialEq, Eq)]
pub struct IpInterface {
    pub inner: IpInterfaceRecord,
}

/// A subscription to changes of the IP-layer properties of interfaces.
pub type IpInterfaceChangeNotifier<H> = ChangeNotifier<H, IpInterface>;

impl IpInterface {
    /// The record with its site prefix length brought into range and every
    /// other property as it is.
    pub open spec fn normalized(record: IpInterfaceRecord) -> IpInterfaceRecord {
        IpInterfaceRecord {
            site_prefix_length: normalized_site_prefix_length(
                record.family,
                record.site_prefix_length,
            ),
            ..record
        }
    }

    /// The row to query the properties of interface `luid` for `family`
    /// with: the two set on `initial`, the record as the system's initialiser
    /// filled it.
    pub fn new(luid: u64, family: u16, initial: IpInterfaceRecord) -> (row: Self)
        ensures
            row.inner == (IpInterfaceRecord { interface_luid: luid, family, ..initial }),
    {
        let mut inner = initial;
        inner.interface_luid = luid;
        inner.family = family;
        IpInterface { inner }
    }

    /// Takes over the outcome of a query for these properties: the status
    /// that the system returned and the record as the system left it.
    ///
    /// After a successful query the site prefix length is in the range of
    /// the record's family, so that the row can be written back. After a
    /// failed one the record is kept as the system left it.
    pub fn get(&mut self, status: u32, reported: IpInterfaceRecord) -> (res: Result<(), Error>)
        ensures
            res == status_result(status),
            status == NO_ERROR ==> final(self).inner == Self::normalized(reported),
            status != NO_ERROR ==> final(self).inner == reported,
    {
        self.inner = reported;
        match cvt_dword(status) {
            Ok(()) => {
                self.inner.site_prefix_length = normalize_site_prefix_length(
                    self.inner.family,
                    self.inner.site_prefix_length,
                );
                Ok(())
            },
            Err(error) => Err(error),
        }
    }

    /// Takes over the outcome of writing these properties to the system:
    /// the status that the system returned and the record as the system left
    /// it. Nothing is brought into range here: that is done after a query
    /// and never after a write.
    pub fn set(&mut self, status: u32, left: IpInterfaceRecord) -> (res: Result<(), Error>)
        ensures
            res == status_result(status),
            final(self).inner == left,
    {
        self.inner = left;
        cvt_dword(status)
    }

    /// An unregistered notifier for changes to the IP interfaces of one
    /// address family, or of all with family 0. It owns the callback.
    pub fn notify_change<H>(family: u16, callback: H) -> (notifier: IpInterfaceChangeNotifier<H>)
        ensures
            notifier@ == Subscription::initial(family, callback),
    {
        ChangeNotifier::with_family(family, callback)
    }
}

/// Normalising twice is normalising once, and a normalised record is in
/// range.
pub proof fn lemma_normalization_is_idempotent(record: IpInterfaceRecord)
    ensures
        IpInterface::normalized(IpInterface::normalized(record)) == IpInterface::normalized(
            record,
        ),
        site_prefix_length_in_range(
            record.family,
            IpInterface::normalized(record).site_prefix_length,
        ),
        site_prefix_length_in_range(record.family, record.site_prefix_length)
            ==> IpInterface::normalized(record) == record,
{
}

/// A length beyond the range of its family becomes 0 for IPv4 and the
/// longest site prefix for IPv6.
pub proof fn lemma_out_of_range_is_clamped(family: u16, length: u32)
    requires
        !site_prefix_length_in_range(family, length),
    ensures
        family == AF_INET ==> normalized_site_prefix_length(family, length) == 0,
        family == AF_INET6 ==> normalized_site_prefix_length(family, length)
            == MAX_SITE_PREFIX_LENGTH_V6,
        family == AF_INET || family == AF_INET6,
{
}

} // verus!
