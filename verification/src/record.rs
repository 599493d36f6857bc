//! The fixed-size records of the four resource domains, as plain values.
//!
//! Each record lists the properties that the system defines for one
//! instance of its resource kind. A truth value of the system is kept as
//! the byte that the system stores, an enumeration as its number.

use vstd::prelude::*;

verus! {

/// The address family that selects every family.
pub const AF_UNSPEC: u16 = 0;

/// The address family of IPv4.
pub const AF_INET: u16 = 2;

/// The address family of IPv6.
pub const AF_INET6: u16 = 23;

/// A globally unique identifier.
#[derive(Clone, Copy, Debug, PartialEq, Eq)]
pub struct Guid {
    pub data1: u32,
    pub data2: u16,
    pub data3: u16,
    pub data4: [u8; 8],
}

/// A socket address of either IP version. An IPv4 address fills the first
/// four bytes of `address`; `flow_info` and `scope_id` belong to IPv6.
#[derive(Clone, Copy, Debug, PartialEq, Eq)]
pub struct SocketAddress {
    pub family: u16,
    pub port: u16,
    pub flow_info: u32,
    pub address: [u8; 16],
    pub scope_id: u32,
}

/// An address and the number of its leading bits that form the prefix.
#[derive(Clone, Copy, Debug, PartialEq, Eq)]
pub struct AddressPrefix {
    pub prefix: SocketAddress,
    pub prefix_length: u8,
}

/// One network interface.
#[derive(Clone, Copy, Debug, PartialEq, Eq)]
pub struct InterfaceRecord {
    pub interface_luid: u64,
    pub interface_index: u32,
    pub interface_guid: Guid,
    pub alias: [u16; 257],
    pub description: [u16; 257],
    pub physical_address_length: u32,
    pub physical_address: [u8; 32],
    pub permanent_physical_address: [u8; 32],
    pub mtu: u32,
    pub interface_type: u32,
    pub tunnel_type: u32,
    pub media_type: u32,
    pub physical_medium_type: u32,
    pub access_type: u32,
    pub direction_type: u32,
    pub interface_and_oper_status_flags: u8,
    pub oper_status: u32,
    pub admin_status: u32,
    pub media_connect_state: u32,
    pub network_guid: Guid,
    pub connection_type: u32,
    pub transmit_link_speed: u64,
    pub receive_link_speed: u64,
    pub in_octets: u64,
    pub in_ucast_pkts: u64,
    pub in_nucast_pkts: u64,
    pub in_discards: u64,
    pub in_errors: u64,
    pub in_unknown_protos: u64,
    pub in_ucast_octets: u64,
    pub in_multicast_octets: u64,
    pub in_broadcast_octets: u64,
    pub out_octets: u64,
    pub out_ucast_pkts: u64,
    pub out_nucast_pkts: u64,
    pub out_discards: u64,
    pub out_errors: u64,
    pub out_ucast_octets: u64,
    pub out_multicast_octets: u64,
    pub out_broadcast_octets: u64,
    pub out_qlen: u64,
}

/// The IP-layer properties of one interface for one address family.
#[derive(Clone, Copy, Debug, PartialEq, Eq)]
pub struct IpInterfaceRecord {
    pub family: u16,
    pub interface_luid: u64,
    pub interface_index: u32,
    pub max_reassembly_size: u32,
    pub interface_identifier: u64,
    pub min_router_advertisement_interval: u32,
    pub max_router_advertisement_interval: u32,
    pub advertising_enabled: u8,
    pub forwarding_enabled: u8,
    pub weak_host_send: u8,
    pub weak_host_receive: u8,
    pub use_automatic_metric: u8,
    pub use_neighbor_unreachability_detection: u8,
    pub managed_address_configuration_supported: u8,
    pub other_stateful_configuration_supported: u8,
    pub advertise_default_route: u8,
    pub router_discovery_behavior: u32,
    pub dad_transmits: u32,
    pub base_reachable_time: u32,
    pub retransmit_time: u32,
    pub path_mtu_discovery_timeout: u32,
    pub link_local_address_behavior: u32,
    pub link_local_address_timeout: u32,
    pub zone_indices: [u32; 16],
    pub site_prefix_length: u32,
    pub metric: u32,
    pub nl_mtu: u32,
    pub connected: u8,
    pub supports_wake_up_patterns: u8,
    pub supports_neighbor_discovery: u8,
    pub supports_router_discovery: u8,
    pub reachable_time: u32,
    pub transmit_offload: u8,
    pub receive_offload: u8,
    pub disable_default_routes: u8,
}

/// One entry of the routing table.
#[derive(Clone, Copy, Debug, PartialEq, Eq)]
pub struct RouteRecord {
    pub interface_luid: u64,
    pub interface_index: u32,
    pub destination_prefix: AddressPrefix,
    pub next_hop: SocketAddress,
    pub site_prefix_length: u8,
    pub valid_lifetime: u32,
    pub preferred_lifetime: u32,
    pub metric: u32,
    pub protocol: u32,
    pub loopback: u8,
    pub autoconfigure_address: u8,
    pub publish: u8,
    pub immortal: u8,
    pub age: u32,
    pub origin: u32,
}

/// One unicast IP address of an interface.
#[derive(Clone, Copy, Debug, PartialEq, Eq)]
pub struct UnicastAddressRecord {
    pub address: SocketAddress,
    pub interface_luid: u64,
    pub interface_index: u32,
    pub prefix_origin: u32,
    pub suffix_origin: u32,
    pub valid_lifetime: u32,
    pub preferred_lifetime: u32,
    pub on_link_prefix_length: u8,
    pub skip_as_source: u8,
    pub dad_state: u32,
    pub scope_id: u32,
    pub creation_time_stamp: i64,
}

impl Guid {
    /// Whether every part is zero.
    pub open spec fn is_zeroed(self) -> bool {
        &&& self.data1 == 0
        &&& self.data2 == 0
        &&& self.data3 == 0
        &&& forall|i: int| 0 <= i < 8 ==> self.data4[i] == 0
    }

    /// The identifier whose every part is zero.
    pub fn zeroed() -> (guid: Self)
        ensures
            guid.is_zeroed(),
    {
        Guid { data1: 0, data2: 0, data3: 0, data4: [0u8; 8] }
    }
}

impl SocketAddress {
    /// Whether every part is zero.
    pub open spec fn is_zeroed(self) -> bool {
        &&& self.family == 0
        &&& self.port == 0
        &&& self.flow_info == 0
        &&& forall|i: int| 0 <= i < 16 ==> self.address[i] == 0
        &&& self.scope_id == 0
    }

    /// The address whose every part is zero; its family is [`AF_UNSPEC`].
    pub fn zeroed() -> (address: Self)
        ensures
            address.is_zeroed(),
    {
        SocketAddress { family: 0, port: 0, flow_info: 0, address: [0u8; 16], scope_id: 0 }
    }
}

impl AddressPrefix {
    /// Whether every part is zero.
    pub open spec fn is_zeroed(self) -> bool {
        self.prefix.is_zeroed() && self.prefix_length == 0
    }

    /// The prefix whose every part is zero.
    pub fn zeroed() -> (prefix: Self)
        ensures
            prefix.is_zeroed(),
    {
        AddressPrefix { prefix: SocketAddress::zeroed(), prefix_length: 0 }
    }
}

impl InterfaceRecord {
    /// Whether every property but the interface's identifier is zero.
    pub open spec fn is_zeroed_but_luid(self) -> bool {
        &&& self.interface_index == 0
        &&& self.interface_guid.is_zeroed()
        &&& forall|i: int| 0 <= i < 257 ==> self.alias[i] == 0
        &&& forall|i: int| 0 <= i < 257 ==> self.description[i] == 0
        &&& self.physical_address_length == 0
        &&& forall|i: int| 0 <= i < 32 ==> self.physical_address[i] == 0
        &&& forall|i: int| 0 <= i < 32 ==> self.permanent_physical_address[i] == 0
        &&& self.mtu == 0
        &&& self.interface_type == 0
        &&& self.tunnel_type == 0
        &&& self.media_type == 0
        &&& self.physical_medium_type == 0
        &&& self.access_type == 0
        &&& self.direction_type == 0
        &&& self.interface_and_oper_status_flags == 0
        &&& self.oper_status == 0
        &&& self.admin_status == 0
        &&& self.media_connect_state == 0
        &&& self.network_guid.is_zeroed()
        &&& self.connection_type == 0
        &&& self.transmit_link_speed == 0
        &&& self.receive_link_speed == 0
        &&& self.in_octets == 0
        &&& self.in_ucast_pkts == 0
        &&& self.in_nucast_pkts == 0
        &&& self.in_discards == 0
        &&& self.in_errors == 0
        &&& self.in_unknown_protos == 0
        &&& self.in_ucast_octets == 0
        &&& self.in_multicast_octets == 0
        &&& self.in_broadcast_octets == 0
        &&& self.out_octets == 0
        &&& self.out_ucast_pkts == 0
        &&& self.out_nucast_pkts == 0
        &&& self.out_discards == 0
        &&& self.out_errors == 0
        &&& self.out_ucast_octets == 0
        &&& self.out_multicast_octets == 0
        &&& self.out_broadcast_octets == 0
        &&& self.out_qlen == 0
    }

    /// Whether every property is zero.
    pub open spec fn is_zeroed(self) -> bool {
        self.interface_luid == 0 && self.is_zeroed_but_luid()
    }

    /// The record whose every property is zero.
    pub fn zeroed() -> (record: Self)
        ensures
            record.is_zeroed(),
    {
        InterfaceRecord {
            interface_luid: 0,
            interface_index: 0,
            interface_guid: Guid::zeroed(),
            alias: [0u16; 257],
            description: [0u16; 257],
            physical_address_length: 0,
            physical_address: [0u8; 32],
            permanent_physical_address: [0u8; 32],
            mtu: 0,
            interface_type: 0,
            tunnel_type: 0,
            media_type: 0,
            physical_medium_type: 0,
            access_type: 0,
            direction_type: 0,
            interface_and_oper_status_flags: 0,
            oper_status: 0,
            admin_status: 0,
            media_connect_state: 0,
            network_guid: Guid::zeroed(),
            connection_type: 0,
            transmit_link_speed: 0,
            receive_link_speed: 0,
            in_octets: 0,
            in_ucast_pkts: 0,
            in_nucast_pkts: 0,
            in_discards: 0,
            in_errors: 0,
            in_unknown_protos: 0,
            in_ucast_octets: 0,
            in_multicast_octets: 0,
            in_broadcast_octets: 0,
            out_octets: 0,
            out_ucast_pkts: 0,
            out_nucast_pkts: 0,
            out_discards: 0,
            out_errors: 0,
            out_ucast_octets: 0,
            out_multicast_octets: 0,
            out_broadcast_octets: 0,
            out_qlen: 0,
        }
    }
}

impl IpInterfaceRecord {
    /// Whether every property is zero.
    pub open spec fn is_zeroed(self) -> bool {
        &&& self.family == 0
        &&& self.interface_luid == 0
        &&& self.interface_index == 0
        &&& self.max_reassembly_size == 0
        &&& self.interface_identifier == 0
        &&& self.min_router_advertisement_interval == 0
        &&& self.max_router_advertisement_interval == 0
        &&& self.advertising_enabled == 0
        &&& self.forwarding_enabled == 0
        &&& self.weak_host_send == 0
        &&& self.weak_host_receive == 0
        &&& self.use_automatic_metric == 0
        &&& self.use_neighbor_unreachability_detection == 0
        &&& self.managed_address_configuration_supported == 0
        &&& self.other_stateful_configuration_supported == 0
        &&& self.advertise_default_route == 0
        &&& self.router_discovery_behavior == 0
        &&& self.dad_transmits == 0
        &&& self.base_reachable_time == 0
        &&& self.retransmit_time == 0
        &&& self.path_mtu_discovery_timeout == 0
        &&& self.link_local_address_behavior == 0
        &&& self.link_local_address_timeout == 0
        &&& forall|i: int| 0 <= i < 16 ==> self.zone_indices[i] == 0
        &&& self.site_prefix_length == 0
        &&& self.metric == 0
        &&& self.nl_mtu == 0
        &&& self.connected == 0
        &&& self.supports_wake_up_patterns == 0
        &&& self.supports_neighbor_discovery == 0
        &&& self.supports_router_discovery == 0
        &&& self.reachable_time == 0
        &&& self.transmit_offload == 0
        &&& self.receive_offload == 0
        &&& self.disable_default_routes == 0
    }

    /// The record whose every property is zero.
    pub fn zeroed() -> (record: Self)
        ensures
            record.is_zeroed(),
    {
        IpInterfaceRecord {
            family: 0,
            interface_luid: 0,
            interface_index: 0,
            max_reassembly_size: 0,
            interface_identifier: 0,
            min_router_advertisement_interval: 0,
            max_router_advertisement_interval: 0,
            advertising_enabled: 0,
            forwarding_enabled: 0,
            weak_host_send: 0,
            weak_host_receive: 0,
            use_automatic_metric: 0,
            use_neighbor_unreachability_detection: 0,
            managed_address_configuration_supported: 0,
            other_stateful_configuration_supported: 0,
            advertise_default_route: 0,
            router_discovery_behavior: 0,
            dad_transmits: 0,
            base_reachable_time: 0,
            retransmit_time: 0,
            path_mtu_discovery_timeout: 0,
            link_local_address_behavior: 0,
            link_local_address_timeout: 0,
            zone_indices: [0u32; 16],
            site_prefix_length: 0,
            metric: 0,
            nl_mtu: 0,
            connected: 0,
            supports_wake_up_patterns: 0,
            supports_neighbor_discovery: 0,
            supports_router_discovery: 0,
            reachable_time: 0,
            transmit_offload: 0,
            receive_offload: 0,
            disable_default_routes: 0,
        }
    }
}

impl RouteRecord {
    /// Whether every property is zero.
    pub open spec fn is_zeroed(self) -> bool {
        &&& self.interface_luid == 0
        &&& self.interface_index == 0
        &&& self.destination_prefix.is_zeroed()
        &&& self.next_hop.is_zeroed()
        &&& self.site_prefix_length == 0
        &&& self.valid_lifetime == 0
        &&& self.preferred_lifetime == 0
        &&& self.metric == 0
        &&& self.protocol == 0
        &&& self.loopback == 0
        &&& self.autoconfigure_address == 0
        &&& self.publish == 0
        &&& self.immortal == 0
        &&& self.age == 0
        &&& self.origin == 0
    }

    /// The record whose every property is zero.
    pub fn zeroed() -> (record: Self)
        ensures
            record.is_zeroed(),
    {
        RouteRecord {
            interface_luid: 0,
            interface_index: 0,
            destination_prefix: AddressPrefix::zeroed(),
            next_hop: SocketAddress::zeroed(),
            site_prefix_length: 0,
            valid_lifetime: 0,
            preferred_lifetime: 0,
            metric: 0,
            protocol: 0,
            loopback: 0,
            autoconfigure_address: 0,
            publish: 0,
            immortal: 0,
            age: 0,
            origin: 0,
        }
    }
}

impl UnicastAddressRecord {
    /// Whether every property is zero.
    pub open spec fn is_zeroed(self) -> bool {
        &&& self.address.is_zeroed()
        &&& self.interface_luid == 0
        &&& self.interface_index == 0
        &&& self.prefix_origin == 0
        &&& self.suffix_origin == 0
        &&& self.valid_lifetime == 0
        &&& self.preferred_lifetime == 0
        &&& self.on_link_prefix_length == 0
        &&& self.skip_as_source == 0
        &&& self.dad_state == 0
        &&& self.scope_id == 0
        &&& self.creation_time_stamp == 0
    }

    /// The record whose every property is zero.
    pub fn zeroed() -> (record: Self)
        ensures
            record.is_zeroed(),
    {
        UnicastAddressRecord {
            address: SocketAddress::zeroed(),
            interface_luid: 0,
            interface_index: 0,
            prefix_origin: 0,
            suffix_origin: 0,
            valid_lifetime: 0,
            preferred_lifetime: 0,
            on_link_prefix_length: 0,
            skip_as_source: 0,
            dad_state: 0,
            scope_id: 0,
            creation_time_stamp: 0,
        }
    }
}

} // verus!
