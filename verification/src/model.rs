//! The mathematical model of an option and of the whole wire format.
//!
//! `OptionModel` mirrors the typed option representation with ghost field
//! types (`Seq` for lists and byte blobs, `Seq<char>` for text); it is the
//! view of [`crate::option::DhcpOption`].  `spec_serialize` and
//! `spec_deserialize` define the encode and decode directions of the codec
//! over that model, and every executable contract speaks in terms of them.

use vstd::prelude::*;
use vstd::utf8::{encode_utf8, decode_utf8, valid_utf8};
use crate::addr::{Ipv4Addr, addr_bytes, addr_of};
use crate::option::NetBiosOverTcpIpNodeType;
use crate::wire::{
    u16_be, u32_be, u16_of_be, u32_of_be, addrs_bytes, addr_list_of, pairs_bytes, pair_list_of,
    u16s_bytes, u16_list_of, spec_split_value,
};

verus! {

/// The model of one option: the same variants as the typed representation,
/// with mathematical payload types.
pub enum OptionModel {
    Pad,
    End,
    SubnetMask(Ipv4Addr),
    TimeOffset(u32),
    Router(Seq<Ipv4Addr>),
    TimeServer(Seq<Ipv4Addr>),
    NameServer(Seq<Ipv4Addr>),
    DomainNameServer(Seq<Ipv4Addr>),
    LogServer(Seq<Ipv4Addr>),
    CookieServer(Seq<Ipv4Addr>),
    LprServer(Seq<Ipv4Addr>),
    ImpressServer(Seq<Ipv4Addr>),
    ResourceLocationServer(Seq<Ipv4Addr>),
    HostName(Seq<char>),
    BootFileSize(u16),
    MeritDumpFile(Seq<char>),
    DomainName(Seq<char>),
    SwapServer(Ipv4Addr),
    RootPath(Seq<char>),
    ExtensionsPath(Seq<char>),
    IpForwarding(bool),
    NonLocalSourceRouting(bool),
    PolicyFilter(Seq<(Ipv4Addr, Ipv4Addr)>),
    MaximumDatagramReassemblySize(u16),
    DefaultIpTimeToLive(u8),
    PathMtuAgingTimeout(u32),
    PathMtuPlateauTable(Seq<u16>),
    InterfaceMtu(u16),
    AllSubnetsAreLocal(bool),
    BroadcastAddress(Ipv4Addr),
    PerformMaskDiscovery(bool),
    MaskSupplier(bool),
    PerformRouterDiscovery(bool),
    RouterSolicitationAddress(Ipv4Addr),
    StaticRoute(Seq<(Ipv4Addr, Ipv4Addr)>),
    TrailerEncapsulation(bool),
    ArpCacheTimeout(u32),
    EthernetEncapsulation(bool),
    TcpDefaultTtl(u8),
    TcpKeepaliveInterval(u32),
    TcpKeepaliveGarbage(bool),
    NetworkInformationServiceDomain(Seq<char>),
    NetworkInformationServers(Seq<Ipv4Addr>),
    NetworkTimeProtocolServers(Seq<Ipv4Addr>),
    VendorSpecificInformation(Seq<u8>),
    NetBiosOverTcpIpNameServer(Seq<Ipv4Addr>),
    NetBiosOverTcpIpDatagramDistributionServer(Seq<Ipv4Addr>),
    NetBiosOverTcpIpNodeType(NetBiosOverTcpIpNodeType),
    NetBiosOverTcpIpScope(Seq<u8>),
    XWindowSystemFontServer(Seq<Ipv4Addr>),
    XWindowSystemDisplayManager(Seq<Ipv4Addr>),
    NetworkInformationServicePlusDomain(Seq<char>),
    NetworkInformationServicePlusServers(Seq<Ipv4Addr>),
    MobileIpHomeAgent(Seq<Ipv4Addr>),
    SimpleMailTransportProtocolServer(Seq<Ipv4Addr>),
    PostOfficeProtocolServer(Seq<Ipv4Addr>),
    NetworkNewsTransportProtocolServer(Seq<Ipv4Addr>),
    DefaultWorldWideWebServer(Seq<Ipv4Addr>),
    DefaultFingerServer(Seq<Ipv4Addr>),
    DefaultInternetRelayChatServer(Seq<Ipv4Addr>),
    StreetTalkServer(Seq<Ipv4Addr>),
    StreetTalkDirectoryAssistanceServer(Seq<Ipv4Addr>),
    RequestedIpAddress(Ipv4Addr),
    IpAddressLeaseTime(u32),
}

/// The wire tag of each option.
pub open spec fn tag_of(m: OptionModel) -> u8 {
    match m {
        OptionModel::Pad => 0,
        OptionModel::End => 255,
        OptionModel::SubnetMask(_) => 1,
        OptionModel::TimeOffset(_) => 2,
        OptionModel::Router(_) => 3,
        OptionModel::TimeServer(_) => 4,
        OptionModel::NameServer(_) => 5,
        OptionModel::DomainNameServer(_) => 6,
        OptionModel::LogServer(_) => 7,
        OptionModel::CookieServer(_) => 8,
        OptionModel::LprServer(_) => 9,
        OptionModel::ImpressServer(_) => 10,
        OptionModel::ResourceLocationServer(_) => 11,
        OptionModel::HostName(_) => 12,
        OptionModel::BootFileSize(_) => 13,
        OptionModel::MeritDumpFile(_) => 14,
        OptionModel::DomainName(_) => 15,
        OptionModel::SwapServer(_) => 16,
        OptionModel::RootPath(_) => 17,
        OptionModel::ExtensionsPath(_) => 18,
        OptionModel::IpForwarding(_) => 19,
        OptionModel::NonLocalSourceRouting(_) => 20,
        OptionModel::PolicyFilter(_) => 21,
        OptionModel::MaximumDatagramReassemblySize(_) => 22,
        OptionModel::DefaultIpTimeToLive(_) => 23,
        OptionModel::PathMtuAgingTimeout(_) => 24,
        OptionModel::PathMtuPlateauTable(_) => 25,
        OptionModel::InterfaceMtu(_) => 26,
        OptionModel::AllSubnetsAreLocal(_) => 27,
        OptionModel::BroadcastAddress(_) => 28,
        OptionModel::PerformMaskDiscovery(_) => 29,
        OptionModel::MaskSupplier(_) => 30,
        OptionModel::PerformRouterDiscovery(_) => 31,
        OptionModel::RouterSolicitationAddress(_) => 32,
        OptionModel::StaticRoute(_) => 33,
        OptionModel::TrailerEncapsulation(_) => 34,
        OptionModel::ArpCacheTimeout(_) => 35,
        OptionModel::EthernetEncapsulation(_) => 36,
        OptionModel::TcpDefaultTtl(_) => 37,
        OptionModel::TcpKeepaliveInterval(_) => 38,
        OptionModel::TcpKeepaliveGarbage(_) => 39,
        OptionModel::NetworkInformationServiceDomain(_) => 40,
        OptionModel::NetworkInformationServers(_) => 41,
        OptionModel::NetworkTimeProtocolServers(_) => 42,
        OptionModel::VendorSpecificInformation(_) => 43,
        OptionModel::NetBiosOverTcpIpNameServer(_) => 44,
        OptionModel::NetBiosOverTcpIpDatagramDistributionServer(_) => 45,
        OptionModel::NetBiosOverTcpIpNodeType(_) => 46,
        OptionModel::NetBiosOverTcpIpScope(_) => 47,
        OptionModel::XWindowSystemFontServer(_) => 48,
        OptionModel::XWindowSystemDisplayManager(_) => 49,
        OptionModel::NetworkInformationServicePlusDomain(_) => 64,
        OptionModel::NetworkInformationServicePlusServers(_) => 65,
        OptionModel::MobileIpHomeAgent(_) => 68,
        OptionModel::SimpleMailTransportProtocolServer(_) => 69,
        OptionModel::PostOfficeProtocolServer(_) => 70,
        OptionModel::NetworkNewsTransportProtocolServer(_) => 71,
        OptionModel::DefaultWorldWideWebServer(_) => 72,
        OptionModel::DefaultFingerServer(_) => 73,
        OptionModel::DefaultInternetRelayChatServer(_) => 74,
        OptionModel::StreetTalkServer(_) => 75,
        OptionModel::StreetTalkDirectoryAssistanceServer(_) => 76,
        OptionModel::RequestedIpAddress(_) => 50,
        OptionModel::IpAddressLeaseTime(_) => 51,
    }
}

/// The value byte of a NetBIOS over TCP/IP node type.
pub open spec fn node_byte(t: NetBiosOverTcpIpNodeType) -> u8 {
    match t {
        NetBiosOverTcpIpNodeType::BNode => 1,
        NetBiosOverTcpIpNodeType::PNode => 2,
        NetBiosOverTcpIpNodeType::MNode => 4,
        NetBiosOverTcpIpNodeType::HNode => 8,
    }
}

/// The node type a value byte stands for, if any.
pub open spec fn node_of(b: u8) -> Option<NetBiosOverTcpIpNodeType> {
    match b {
        1u8 => Some(NetBiosOverTcpIpNodeType::BNode),
        2u8 => Some(NetBiosOverTcpIpNodeType::PNode),
        4u8 => Some(NetBiosOverTcpIpNodeType::MNode),
        8u8 => Some(NetBiosOverTcpIpNodeType::HNode),
        _ => None,
    }
}

/// The value bytes of an option: what stands between the length byte and the
/// remainder.  `Pad` and `End` have no value bytes.
pub open spec fn body_bytes(m: OptionModel) -> Seq<u8> {
    match m {
        OptionModel::Pad => seq![],
        OptionModel::End => seq![],
        OptionModel::SubnetMask(v) => addr_bytes(v),
        OptionModel::TimeOffset(v) => u32_be(v),
        OptionModel::Router(v) => addrs_bytes(v),
        OptionModel::TimeServer(v) => addrs_bytes(v),
        OptionModel::NameServer(v) => addrs_bytes(v),
        OptionModel::DomainNameServer(v) => addrs_bytes(v),
        OptionModel::LogServer(v) => addrs_bytes(v),
        OptionModel::CookieServer(v) => addrs_bytes(v),
        OptionModel::LprServer(v) => addrs_bytes(v),
        OptionModel::ImpressServer(v) => addrs_bytes(v),
        OptionModel::ResourceLocationServer(v) => addrs_bytes(v),
        OptionModel::HostName(v) => encode_utf8(v),
        OptionModel::BootFileSize(v) => u16_be(v),
        OptionModel::MeritDumpFile(v) => encode_utf8(v),
        OptionModel::DomainName(v) => encode_utf8(v),
        OptionModel::SwapServer(v) => addr_bytes(v),
        OptionModel::RootPath(v) => encode_utf8(v),
        OptionModel::ExtensionsPath(v) => encode_utf8(v),
        OptionModel::IpForwarding(v) => seq![if v { 1u8 } else { 0u8 }],
        OptionModel::NonLocalSourceRouting(v) => seq![if v { 1u8 } else { 0u8 }],
        OptionModel::PolicyFilter(v) => pairs_bytes(v),
        OptionModel::MaximumDatagramReassemblySize(v) => u16_be(v),
        OptionModel::DefaultIpTimeToLive(v) => seq![v],
        OptionModel::PathMtuAgingTimeout(v) => u32_be(v),
        OptionModel::PathMtuPlateauTable(v) => u16s_bytes(v),
        OptionModel::InterfaceMtu(v) => u16_be(v),
        OptionModel::AllSubnetsAreLocal(v) => seq![if v { 1u8 } else { 0u8 }],
        OptionModel::BroadcastAddress(v) => addr_bytes(v),
        OptionModel::PerformMaskDiscovery(v) => seq![if v { 1u8 } else { 0u8 }],
        OptionModel::MaskSupplier(v) => seq![if v { 1u8 } else { 0u8 }],
        OptionModel::PerformRouterDiscovery(v) => seq![if v { 1u8 } else { 0u8 }],
        OptionModel::RouterSolicitationAddress(v) => addr_bytes(v),
        OptionModel::StaticRoute(v) => pairs_bytes(v),
        OptionModel::TrailerEncapsulation(v) => seq![if v { 1u8 } else { 0u8 }],
        OptionModel::ArpCacheTimeout(v) => u32_be(v),
        OptionModel::EthernetEncapsulation(v) => seq![if v { 1u8 } else { 0u8 }],
        OptionModel::TcpDefaultTtl(v) => seq![v],
        OptionModel::TcpKeepaliveInterval(v) => u32_be(v),
        OptionModel::TcpKeepaliveGarbage(v) => seq![if v { 1u8 } else { 0u8 }],
        OptionModel::NetworkInformationServiceDomain(v) => encode_utf8(v),
        OptionModel::NetworkInformationServers(v) => addrs_bytes(v),
        OptionModel::NetworkTimeProtocolServers(v) => addrs_bytes(v),
        OptionModel::VendorSpecificInformation(v) => v,
        OptionModel::NetBiosOverTcpIpNameServer(v) => addrs_bytes(v),
        OptionModel::NetBiosOverTcpIpDatagramDistributionServer(v) => addrs_bytes(v),
        OptionModel::NetBiosOverTcpIpNodeType(v) => seq![node_byte(v)],
        OptionModel::NetBiosOverTcpIpScope(v) => v,
        OptionModel::XWindowSystemFontServer(v) => addrs_bytes(v),
        OptionModel::XWindowSystemDisplayManager(v) => addrs_bytes(v),
        OptionModel::NetworkInformationServicePlusDomain(v) => encode_utf8(v),
        OptionModel::NetworkInformationServicePlusServers(v) => addrs_bytes(v),
        OptionModel::MobileIpHomeAgent(v) => addrs_bytes(v),
        OptionModel::SimpleMailTransportProtocolServer(v) => addrs_bytes(v),
        OptionModel::PostOfficeProtocolServer(v) => addrs_bytes(v),
        OptionModel::NetworkNewsTransportProtocolServer(v) => addrs_bytes(v),
        OptionModel::DefaultWorldWideWebServer(v) => addrs_bytes(v),
        OptionModel::DefaultFingerServer(v) => addrs_bytes(v),
        OptionModel::DefaultInternetRelayChatServer(v) => addrs_bytes(v),
        OptionModel::StreetTalkServer(v) => addrs_bytes(v),
        OptionModel::StreetTalkDirectoryAssistanceServer(v) => addrs_bytes(v),
        OptionModel::RequestedIpAddress(v) => addr_bytes(v),
        OptionModel::IpAddressLeaseTime(v) => u32_be(v),
    }
}

/// Whether the option's value fits the one-byte length field of the wire
/// format: the precondition of encoding.
pub open spec fn encodable(m: OptionModel) -> bool {
    match m {
        OptionModel::Pad => true,
        OptionModel::End => true,
        OptionModel::SubnetMask(_) => true,
        OptionModel::TimeOffset(_) => true,
        OptionModel::Router(v) => v.len() <= 63,
        OptionModel::TimeServer(v) => v.len() <= 63,
        OptionModel::NameServer(v) => v.len() <= 63,
        OptionModel::DomainNameServer(v) => v.len() <= 63,
        OptionModel::LogServer(v) => v.len() <= 63,
        OptionModel::CookieServer(v) => v.len() <= 63,
        OptionModel::LprServer(v) => v.len() <= 63,
        OptionModel::ImpressServer(v) => v.len() <= 63,
        OptionModel::ResourceLocationServer(v) => v.len() <= 63,
        OptionModel::HostName(v) => encode_utf8(v).len() <= 255,
        OptionModel::BootFileSize(_) => true,
        OptionModel::MeritDumpFile(v) => encode_utf8(v).len() <= 255,
        OptionModel::DomainName(v) => encode_utf8(v).len() <= 255,
        OptionModel::SwapServer(_) => true,
        OptionModel::RootPath(v) => encode_utf8(v).len() <= 255,
        OptionModel::ExtensionsPath(v) => encode_utf8(v).len() <= 255,
        OptionModel::IpForwarding(_) => true,
        OptionModel::NonLocalSourceRouting(_) => true,
        OptionModel::PolicyFilter(v) => v.len() <= 31,
        OptionModel::MaximumDatagramReassemblySize(_) => true,
        OptionModel::DefaultIpTimeToLive(_) => true,
        OptionModel::PathMtuAgingTimeout(_) => true,
        OptionModel::PathMtuPlateauTable(v) => v.len() <= 127,
        OptionModel::InterfaceMtu(_) => true,
        OptionModel::AllSubnetsAreLocal(_) => true,
        OptionModel::BroadcastAddress(_) => true,
        OptionModel::PerformMaskDiscovery(_) => true,
        OptionModel::MaskSupplier(_) => true,
        OptionModel::PerformRouterDiscovery(_) => true,
        OptionModel::RouterSolicitationAddress(_) => true,
        OptionModel::StaticRoute(v) => v.len() <= 31,
        OptionModel::TrailerEncapsulation(_) => true,
        OptionModel::ArpCacheTimeout(_) => true,
        OptionModel::EthernetEncapsulation(_) => true,
        OptionModel::TcpDefaultTtl(_) => true,
        OptionModel::TcpKeepaliveInterval(_) => true,
        OptionModel::TcpKeepaliveGarbage(_) => true,
        OptionModel::NetworkInformationServiceDomain(v) => encode_utf8(v).len() <= 255,
        OptionModel::NetworkInformationServers(v) => v.len() <= 63,
        OptionModel::NetworkTimeProtocolServers(v) => v.len() <= 63,
        OptionModel::VendorSpecificInformation(v) => v.len() <= 255,
        OptionModel::NetBiosOverTcpIpNameServer(v) => v.len() <= 63,
        OptionModel::NetBiosOverTcpIpDatagramDistributionServer(v) => v.len() <= 63,
        OptionModel::NetBiosOverTcpIpNodeType(_) => true,
        OptionModel::NetBiosOverTcpIpScope(v) => v.len() <= 255,
        OptionModel::XWindowSystemFontServer(v) => v.len() <= 63,
        OptionModel::XWindowSystemDisplayManager(v) => v.len() <= 63,
        OptionModel::NetworkInformationServicePlusDomain(v) => encode_utf8(v).len() <= 255,
        OptionModel::NetworkInformationServicePlusServers(v) => v.len() <= 63,
        OptionModel::MobileIpHomeAgent(v) => v.len() <= 63,
        OptionModel::SimpleMailTransportProtocolServer(v) => v.len() <= 63,
        OptionModel::PostOfficeProtocolServer(v) => v.len() <= 63,
        OptionModel::NetworkNewsTransportProtocolServer(v) => v.len() <= 63,
        OptionModel::DefaultWorldWideWebServer(v) => v.len() <= 63,
        OptionModel::DefaultFingerServer(v) => v.len() <= 63,
        OptionModel::DefaultInternetRelayChatServer(v) => v.len() <= 63,
        OptionModel::StreetTalkServer(v) => v.len() <= 63,
        OptionModel::StreetTalkDirectoryAssistanceServer(v) => v.len() <= 63,
        OptionModel::RequestedIpAddress(_) => true,
        OptionModel::IpAddressLeaseTime(_) => true,
    }
}

/// Whether the option's value meets the minimum the wire format demands of
/// its family: lists non-empty (the mobile IP home agent list may be empty),
/// names and paths at least one byte long, a scope at least one byte long.
pub open spec fn min_len_ok(m: OptionModel) -> bool {
    match m {
        OptionModel::Pad => true,
        OptionModel::End => true,
        OptionModel::SubnetMask(_) => true,
        OptionModel::TimeOffset(_) => true,
        OptionModel::Router(v) => v.len() >= 1,
        OptionModel::TimeServer(v) => v.len() >= 1,
        OptionModel::NameServer(v) => v.len() >= 1,
        OptionModel::DomainNameServer(v) => v.len() >= 1,
        OptionModel::LogServer(v) => v.len() >= 1,
        OptionModel::CookieServer(v) => v.len() >= 1,
        OptionModel::LprServer(v) => v.len() >= 1,
        OptionModel::ImpressServer(v) => v.len() >= 1,
        OptionModel::ResourceLocationServer(v) => v.len() >= 1,
        OptionModel::HostName(v) => encode_utf8(v).len() >= 1,
        OptionModel::BootFileSize(_) => true,
        OptionModel::MeritDumpFile(v) => encode_utf8(v).len() >= 1,
        OptionModel::DomainName(_) => true,
        OptionModel::SwapServer(_) => true,
        OptionModel::RootPath(v) => encode_utf8(v).len() >= 1,
        OptionModel::ExtensionsPath(v) => encode_utf8(v).len() >= 1,
        OptionModel::IpForwarding(_) => true,
        OptionModel::NonLocalSourceRouting(_) => true,
        OptionModel::PolicyFilter(v) => v.len() >= 1,
        OptionModel::MaximumDatagramReassemblySize(_) => true,
        OptionModel::DefaultIpTimeToLive(_) => true,
        OptionModel::PathMtuAgingTimeout(_) => true,
        OptionModel::PathMtuPlateauTable(v) => v.len() >= 1,
        OptionModel::InterfaceMtu(_) => true,
        OptionModel::AllSubnetsAreLocal(_) => true,
        OptionModel::BroadcastAddress(_) => true,
        OptionModel::PerformMaskDiscovery(_) => true,
        OptionModel::MaskSupplier(_) => true,
        OptionModel::PerformRouterDiscovery(_) => true,
        OptionModel::RouterSolicitationAddress(_) => true,
        OptionModel::StaticRoute(v) => v.len() >= 1,
        OptionModel::TrailerEncapsulation(_) => true,
        OptionModel::ArpCacheTimeout(_) => true,
        OptionModel::EthernetEncapsulation(_) => true,
        OptionModel::TcpDefaultTtl(_) => true,
        OptionModel::TcpKeepaliveInterval(_) => true,
        OptionModel::TcpKeepaliveGarbage(_) => true,
        OptionModel::NetworkInformationServiceDomain(_) => true,
        OptionModel::NetworkInformationServers(v) => v.len() >= 1,
        OptionModel::NetworkTimeProtocolServers(v) => v.len() >= 1,
        OptionModel::VendorSpecificInformation(_) => true,
        OptionModel::NetBiosOverTcpIpNameServer(v) => v.len() >= 1,
        OptionModel::NetBiosOverTcpIpDatagramDistributionServer(v) => v.len() >= 1,
        OptionModel::NetBiosOverTcpIpNodeType(_) => true,
        OptionModel::NetBiosOverTcpIpScope(v) => v.len() >= 1,
        OptionModel::XWindowSystemFontServer(v) => v.len() >= 1,
        OptionModel::XWindowSystemDisplayManager(v) => v.len() >= 1,
        OptionModel::NetworkInformationServicePlusDomain(_) => true,
        OptionModel::NetworkInformationServicePlusServers(v) => v.len() >= 1,
        OptionModel::MobileIpHomeAgent(_) => true,
        OptionModel::SimpleMailTransportProtocolServer(v) => v.len() >= 1,
        OptionModel::PostOfficeProtocolServer(v) => v.len() >= 1,
        OptionModel::NetworkNewsTransportProtocolServer(v) => v.len() >= 1,
        OptionModel::DefaultWorldWideWebServer(v) => v.len() >= 1,
        OptionModel::DefaultFingerServer(v) => v.len() >= 1,
        OptionModel::DefaultInternetRelayChatServer(v) => v.len() >= 1,
        OptionModel::StreetTalkServer(v) => v.len() >= 1,
        OptionModel::StreetTalkDirectoryAssistanceServer(v) => v.len() >= 1,
        OptionModel::RequestedIpAddress(_) => true,
        OptionModel::IpAddressLeaseTime(_) => true,
    }
}

/// A well-formed option: it fits the length byte and meets its family's
/// minimum, so its encoding decodes back to it.
pub open spec fn wf(m: OptionModel) -> bool {
    encodable(m) && min_len_ok(m)
}

/// The encode direction: the wire bytes of an option.  `Pad` and `End` are a
/// bare tag byte; every other option is its tag, the length of its value and
/// the value itself.
pub open spec fn spec_serialize(m: OptionModel) -> Seq<u8> {
    match m {
        OptionModel::Pad => seq![0u8],
        OptionModel::End => seq![255u8],
        _ => seq![tag_of(m), body_bytes(m).len() as u8] + body_bytes(m),
    }
}

/// The option a tag's value bytes spell, or nothing when the value violates
/// the tag's length rule, is not valid UTF-8 where text is expected, names
/// no node type, or the tag itself is not supported.
pub open spec fn spec_decode_value(tag: u8, v: Seq<u8>) -> Option<OptionModel> {
    match tag {
        1u8 => if v.len() == 4 { Some(OptionModel::SubnetMask(addr_of(v))) } else { None },
        2u8 => if v.len() == 4 { Some(OptionModel::TimeOffset(u32_of_be(v))) } else { None },
        3u8 => if v.len() > 0 && v.len() % 4 == 0 { Some(OptionModel::Router(addr_list_of(v))) } else { None },
        4u8 => if v.len() > 0 && v.len() % 4 == 0 { Some(OptionModel::TimeServer(addr_list_of(v))) } else { None },
        5u8 => if v.len() > 0 && v.len() % 4 == 0 { Some(OptionModel::NameServer(addr_list_of(v))) } else { None },
        6u8 => if v.len() > 0 && v.len() % 4 == 0 { Some(OptionModel::DomainNameServer(addr_list_of(v))) } else { None },
        7u8 => if v.len() > 0 && v.len() % 4 == 0 { Some(OptionModel::LogServer(addr_list_of(v))) } else { None },
        8u8 => if v.len() > 0 && v.len() % 4 == 0 { Some(OptionModel::CookieServer(addr_list_of(v))) } else { None },
        9u8 => if v.len() > 0 && v.len() % 4 == 0 { Some(OptionModel::LprServer(addr_list_of(v))) } else { None },
        10u8 => if v.len() > 0 && v.len() % 4 == 0 { Some(OptionModel::ImpressServer(addr_list_of(v))) } else { None },
        11u8 => if v.len() > 0 && v.len() % 4 == 0 { Some(OptionModel::ResourceLocationServer(addr_list_of(v))) } else { None },
        12u8 => if v.len() >= 1 && valid_utf8(v) { Some(OptionModel::HostName(decode_utf8(v))) } else { None },
        13u8 => if v.len() == 2 { Some(OptionModel::BootFileSize(u16_of_be(v))) } else { None },
        14u8 => if v.len() >= 1 && valid_utf8(v) { Some(OptionModel::MeritDumpFile(decode_utf8(v))) } else { None },
        15u8 => if valid_utf8(v) { Some(OptionModel::DomainName(decode_utf8(v))) } else { None },
        16u8 => if v.len() == 4 { Some(OptionModel::SwapServer(addr_of(v))) } else { None },
        17u8 => if v.len() >= 1 && valid_utf8(v) { Some(OptionModel::RootPath(decode_utf8(v))) } else { None },
        18u8 => if v.len() >= 1 && valid_utf8(v) { Some(OptionModel::ExtensionsPath(decode_utf8(v))) } else { None },
        19u8 => if v.len() == 1 { Some(OptionModel::IpForwarding(v[0] != 0)) } else { None },
        20u8 => if v.len() == 1 { Some(OptionModel::NonLocalSourceRouting(v[0] != 0)) } else { None },
        21u8 => if v.len() > 0 && v.len() % 8 == 0 { Some(OptionModel::PolicyFilter(pair_list_of(v))) } else { None },
        22u8 => if v.len() == 2 { Some(OptionModel::MaximumDatagramReassemblySize(u16_of_be(v))) } else { None },
        23u8 => if v.len() == 1 { Some(OptionModel::DefaultIpTimeToLive(v[0])) } else { None },
        24u8 => if v.len() == 4 { Some(OptionModel::PathMtuAgingTimeout(u32_of_be(v))) } else { None },
        25u8 => if v.len() > 0 && v.len() % 2 == 0 { Some(OptionModel::PathMtuPlateauTable(u16_list_of(v))) } else { None },
        26u8 => if v.len() == 2 { Some(OptionModel::InterfaceMtu(u16_of_be(v))) } else { None },
        27u8 => if v.len() == 1 { Some(OptionModel::AllSubnetsAreLocal(v[0] != 0)) } else { None },
        28u8 => if v.len() == 4 { Some(OptionModel::BroadcastAddress(addr_of(v))) } else { None },
        29u8 => if v.len() == 1 { Some(OptionModel::PerformMaskDiscovery(v[0] != 0)) } else { None },
        30u8 => if v.len() == 1 { Some(OptionModel::MaskSupplier(v[0] != 0)) } else { None },
        31u8 => if v.len() == 1 { Some(OptionModel::PerformRouterDiscovery(v[0] != 0)) } else { None },
        32u8 => if v.len() == 4 { Some(OptionModel::RouterSolicitationAddress(addr_of(v))) } else { None },
        33u8 => if v.len() > 0 && v.len() % 8 == 0 { Some(OptionModel::StaticRoute(pair_list_of(v))) } else { None },
        34u8 => if v.len() == 1 { Some(OptionModel::TrailerEncapsulation(v[0] != 0)) } else { None },
        35u8 => if v.len() == 4 { Some(OptionModel::ArpCacheTimeout(u32_of_be(v))) } else { None },
        36u8 => if v.len() == 1 { Some(OptionModel::EthernetEncapsulation(v[0] != 0)) } else { None },
        37u8 => if v.len() == 1 { Some(OptionModel::TcpDefaultTtl(v[0])) } else { None },
        38u8 => if v.len() == 4 { Some(OptionModel::TcpKeepaliveInterval(u32_of_be(v))) } else { None },
        39u8 => if v.len() == 1 { Some(OptionModel::TcpKeepaliveGarbage(v[0] != 0)) } else { None },
        40u8 => if valid_utf8(v) { Some(OptionModel::NetworkInformationServiceDomain(decode_utf8(v))) } else { None },
        41u8 => if v.len() > 0 && v.len() % 4 == 0 { Some(OptionModel::NetworkInformationServers(addr_list_of(v))) } else { None },
        42u8 => if v.len() > 0 && v.len() % 4 == 0 { Some(OptionModel::NetworkTimeProtocolServers(addr_list_of(v))) } else { None },
        43u8 => Some(OptionModel::VendorSpecificInformation(v)),
        44u8 => if v.len() > 0 && v.len() % 4 == 0 { Some(OptionModel::NetBiosOverTcpIpNameServer(addr_list_of(v))) } else { None },
        45u8 => if v.len() > 0 && v.len() % 4 == 0 { Some(OptionModel::NetBiosOverTcpIpDatagramDistributionServer(addr_list_of(v))) } else { None },
        46u8 => if v.len() == 1 { match node_of(v[0]) { Some(t) => Some(OptionModel::NetBiosOverTcpIpNodeType(t)), None => None } } else { None },
        47u8 => if v.len() >= 1 { Some(OptionModel::NetBiosOverTcpIpScope(v)) } else { None },
        48u8 => if v.len() > 0 && v.len() % 4 == 0 { Some(OptionModel::XWindowSystemFontServer(addr_list_of(v))) } else { None },
        49u8 => if v.len() > 0 && v.len() % 4 == 0 { Some(OptionModel::XWindowSystemDisplayManager(addr_list_of(v))) } else { None },
        50u8 => if v.len() == 4 { Some(OptionModel::RequestedIpAddress(addr_of(v))) } else { None },
        51u8 => if v.len() == 4 { Some(OptionModel::IpAddressLeaseTime(u32_of_be(v))) } else { None },
        64u8 => if valid_utf8(v) { Some(OptionModel::NetworkInformationServicePlusDomain(decode_utf8(v))) } else { None },
        65u8 => if v.len() > 0 && v.len() % 4 == 0 { Some(OptionModel::NetworkInformationServicePlusServers(addr_list_of(v))) } else { None },
        68u8 => if v.len() % 4 == 0 { Some(OptionModel::MobileIpHomeAgent(addr_list_of(v))) } else { None },
        69u8 => if v.len() > 0 && v.len() % 4 == 0 { Some(OptionModel::SimpleMailTransportProtocolServer(addr_list_of(v))) } else { None },
        70u8 => if v.len() > 0 && v.len() % 4 == 0 { Some(OptionModel::PostOfficeProtocolServer(addr_list_of(v))) } else { None },
        71u8 => if v.len() > 0 && v.len() % 4 == 0 { Some(OptionModel::NetworkNewsTransportProtocolServer(addr_list_of(v))) } else { None },
        72u8 => if v.len() > 0 && v.len() % 4 == 0 { Some(OptionModel::DefaultWorldWideWebServer(addr_list_of(v))) } else { None },
        73u8 => if v.len() > 0 && v.len() % 4 == 0 { Some(OptionModel::DefaultFingerServer(addr_list_of(v))) } else { None },
        74u8 => if v.len() > 0 && v.len() % 4 == 0 { Some(OptionModel::DefaultInternetRelayChatServer(addr_list_of(v))) } else { None },
        75u8 => if v.len() > 0 && v.len() % 4 == 0 { Some(OptionModel::StreetTalkServer(addr_list_of(v))) } else { None },
        76u8 => if v.len() > 0 && v.len() % 4 == 0 { Some(OptionModel::StreetTalkDirectoryAssistanceServer(addr_list_of(v))) } else { None },
        _ => None,
    }
}

/// The decode direction: one option consumed from the front of a buffer and
/// the untouched remainder, or nothing when the buffer does not spell a
/// supported option.
pub open spec fn spec_deserialize(data: Seq<u8>) -> Option<(OptionModel, Seq<u8>)> {
    if data.len() == 0 {
        None
    } else {
        let tag = data[0];
        let rest = data.skip(1);
        if tag == 0 {
            Some((OptionModel::Pad, rest))
        } else if tag == 255 {
            Some((OptionModel::End, rest))
        } else {
            match spec_split_value(rest) {
                Some(p) => match spec_decode_value(tag, p.0) {
                    Some(m) => Some((m, p.1)),
                    None => None,
                },
                None => None,
            }
        }
    }
}

/// The tags whose value is a list of addresses, four bytes each.
pub open spec fn addr_list_tag(t: u8) -> bool {
    t == 3 || t == 4 || t == 5 || t == 6 || t == 7 || t == 8 || t == 9 || t == 10 || t == 11 || t == 41 || t == 42 || t == 44 || t == 45 || t == 48 || t == 49 || t == 65 || t == 68 || t == 69 || t == 70 || t == 71 || t == 72 || t == 73 || t == 74 || t == 75 || t == 76
}

/// The tags whose value is a list of address pairs, eight bytes each.
pub open spec fn pair_list_tag(t: u8) -> bool {
    t == 21 || t == 33
}

/// The tags this codec supports, the two padding tags included.
pub open spec fn known_tag(t: u8) -> bool {
    t == 0 || t == 255 || t == 1 || t == 2 || t == 3 || t == 4 || t == 5 || t == 6 || t == 7 ||
        t == 8 || t == 9 || t == 10 || t == 11 || t == 12 || t == 13 || t == 14 || t == 15 ||
        t == 16 || t == 17 || t == 18 || t == 19 || t == 20 || t == 21 || t == 22 || t == 23 ||
        t == 24 || t == 25 || t == 26 || t == 27 || t == 28 || t == 29 || t == 30 || t == 31 ||
        t == 32 || t == 33 || t == 34 || t == 35 || t == 36 || t == 37 || t == 38 || t == 39 ||
        t == 40 || t == 41 || t == 42 || t == 43 || t == 44 || t == 45 || t == 46 || t == 47 ||
        t == 48 || t == 49 || t == 50 || t == 51 || t == 64 || t == 65 || t == 68 || t == 69 ||
        t == 70 || t == 71 || t == 72 || t == 73 || t == 74 || t == 75 || t == 76
}

} // verus!
