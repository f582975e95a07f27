//! The typed representation of a DHCP option and the codec itself.
//!
//! `DhcpOption` carries one variant per supported tag; `serialize` emits the
//! wire bytes of a value and `deserialize` consumes exactly one option from
//! the front of a byte slice, handing back the decoded value and the
//! untouched remainder.  Both directions are specified against the model in
//! [`crate::model`].

use vstd::prelude::*;
use crate::addr::{Ipv4Addr, addr_bytes};
use crate::error::DhcpError;
use crate::model::{
    OptionModel, spec_serialize, spec_deserialize, spec_decode_value, encodable, node_byte,
};
use crate::wire;

verus! {

/// The value of a NetBIOS over TCP/IP node type option.
#[derive(Clone, Copy, Debug, PartialEq, Eq, Structural)]
pub enum NetBiosOverTcpIpNodeType {
    BNode,
    PNode,
    MNode,
    HNode,
}

/// One DHCP option.  Each variant's number is its wire tag.
#[derive(Debug, PartialEq)]
pub enum DhcpOption {
    /// Tag 0: alignment padding; no length byte, no value.
    Pad,
    /// Tag 255: end of the options area; no length byte, no value.
    End,
    /// Tag 1: a single IPv4 address (value is exactly four bytes).
    SubnetMask(Ipv4Addr),
    /// Tag 2: a 32-bit big-endian integer (value is exactly four bytes).
    TimeOffset(u32),
    /// Tag 3: a non-empty list of IPv4 addresses (value is a non-zero multiple of four bytes).
    Router(Vec<Ipv4Addr>),
    /// Tag 4: a non-empty list of IPv4 addresses (value is a non-zero multiple of four bytes).
    TimeServer(Vec<Ipv4Addr>),
    /// Tag 5: a non-empty list of IPv4 addresses (value is a non-zero multiple of four bytes).
    NameServer(Vec<Ipv4Addr>),
    /// Tag 6: a non-empty list of IPv4 addresses (value is a non-zero multiple of four bytes).
    DomainNameServer(Vec<Ipv4Addr>),
    /// Tag 7: a non-empty list of IPv4 addresses (value is a non-zero multiple of four bytes).
    LogServer(Vec<Ipv4Addr>),
    /// Tag 8: a non-empty list of IPv4 addresses (value is a non-zero multiple of four bytes).
    CookieServer(Vec<Ipv4Addr>),
    /// Tag 9: a non-empty list of IPv4 addresses (value is a non-zero multiple of four bytes).
    LprServer(Vec<Ipv4Addr>),
    /// Tag 10: a non-empty list of IPv4 addresses (value is a non-zero multiple of four bytes).
    ImpressServer(Vec<Ipv4Addr>),
    /// Tag 11: a non-empty list of IPv4 addresses (value is a non-zero multiple of four bytes).
    ResourceLocationServer(Vec<Ipv4Addr>),
    /// Tag 12: UTF-8 text, at least one byte long.
    HostName(String),
    /// Tag 13: a 16-bit big-endian integer (value is exactly two bytes).
    BootFileSize(u16),
    /// Tag 14: UTF-8 text, at least one byte long.
    MeritDumpFile(String),
    /// Tag 15: UTF-8 text, possibly empty.
    DomainName(String),
    /// Tag 16: a single IPv4 address (value is exactly four bytes).
    SwapServer(Ipv4Addr),
    /// Tag 17: UTF-8 text, at least one byte long.
    RootPath(String),
    /// Tag 18: UTF-8 text, at least one byte long.
    ExtensionsPath(String),
    /// Tag 19: a flag (value is exactly one byte; any non-zero byte decodes to true).
    IpForwarding(bool),
    /// Tag 20: a flag (value is exactly one byte; any non-zero byte decodes to true).
    NonLocalSourceRouting(bool),
    /// Tag 21: a non-empty list of IPv4 address pairs (value is a non-zero multiple of eight bytes).
    PolicyFilter(Vec<(Ipv4Addr, Ipv4Addr)>),
    /// Tag 22: a 16-bit big-endian integer (value is exactly two bytes).
    MaximumDatagramReassemblySize(u16),
    /// Tag 23: an 8-bit integer (value is exactly one byte).
    DefaultIpTimeToLive(u8),
    /// Tag 24: a 32-bit big-endian integer (value is exactly four bytes).
    PathMtuAgingTimeout(u32),
    /// Tag 25: a non-empty list of 16-bit big-endian integers (value is a non-zero multiple of two bytes).
    PathMtuPlateauTable(Vec<u16>),
    /// Tag 26: a 16-bit big-endian integer (value is exactly two bytes).
    InterfaceMtu(u16),
    /// Tag 27: a flag (value is exactly one byte; any non-zero byte decodes to true).
    AllSubnetsAreLocal(bool),
    /// Tag 28: a single IPv4 address (value is exactly four bytes).
    BroadcastAddress(Ipv4Addr),
    /// Tag 29: a flag (value is exactly one byte; any non-zero byte decodes to true).
    PerformMaskDiscovery(bool),
    /// Tag 30: a flag (value is exactly one byte; any non-zero byte decodes to true).
    MaskSupplier(bool),
    /// Tag 31: a flag (value is exactly one byte; any non-zero byte decodes to true).
    PerformRouterDiscovery(bool),
    /// Tag 32: a single IPv4 address (value is exactly four bytes).
    RouterSolicitationAddress(Ipv4Addr),
    /// Tag 33: a non-empty list of IPv4 address pairs (value is a non-zero multiple of eight bytes).
    StaticRoute(Vec<(Ipv4Addr, Ipv4Addr)>),
    /// Tag 34: a flag (value is exactly one byte; any non-zero byte decodes to true).
    TrailerEncapsulation(bool),
    /// Tag 35: a 32-bit big-endian integer (value is exactly four bytes).
    ArpCacheTimeout(u32),
    /// Tag 36: a flag (value is exactly one byte; any non-zero byte decodes to true).
    EthernetEncapsulation(bool),
    /// Tag 37: an 8-bit integer (value is exactly one byte).
    TcpDefaultTtl(u8),
    /// Tag 38: a 32-bit big-endian integer (value is exactly four bytes).
    TcpKeepaliveInterval(u32),
    /// Tag 39: a flag (value is exactly one byte; any non-zero byte decodes to true).
    TcpKeepaliveGarbage(bool),
    /// Tag 40: UTF-8 text, possibly empty.
    NetworkInformationServiceDomain(String),
    /// Tag 41: a non-empty list of IPv4 addresses (value is a non-zero multiple of four bytes).
    NetworkInformationServers(Vec<Ipv4Addr>),
    /// Tag 42: a non-empty list of IPv4 addresses (value is a non-zero multiple of four bytes).
    NetworkTimeProtocolServers(Vec<Ipv4Addr>),
    /// Tag 43: opaque bytes, possibly empty.
    VendorSpecificInformation(Vec<u8>),
    /// Tag 44: a non-empty list of IPv4 addresses (value is a non-zero multiple of four bytes).
    NetBiosOverTcpIpNameServer(Vec<Ipv4Addr>),
    /// Tag 45: a non-empty list of IPv4 addresses (value is a non-zero multiple of four bytes).
    NetBiosOverTcpIpDatagramDistributionServer(Vec<Ipv4Addr>),
    /// Tag 46: an enumerated byte (1, 2, 4 or 8).
    NetBiosOverTcpIpNodeType(NetBiosOverTcpIpNodeType),
    /// Tag 47: opaque bytes, at least one byte long.
    NetBiosOverTcpIpScope(Vec<u8>),
    /// Tag 48: a non-empty list of IPv4 addresses (value is a non-zero multiple of four bytes).
    XWindowSystemFontServer(Vec<Ipv4Addr>),
    /// Tag 49: a non-empty list of IPv4 addresses (value is a non-zero multiple of four bytes).
    XWindowSystemDisplayManager(Vec<Ipv4Addr>),
    /// Tag 64: UTF-8 text, possibly empty.
    NetworkInformationServicePlusDomain(String),
    /// Tag 65: a non-empty list of IPv4 addresses (value is a non-zero multiple of four bytes).
    NetworkInformationServicePlusServers(Vec<Ipv4Addr>),
    /// Tag 68: a possibly empty list of IPv4 addresses (value is a multiple of four bytes).
    MobileIpHomeAgent(Vec<Ipv4Addr>),
    /// Tag 69: a non-empty list of IPv4 addresses (value is a non-zero multiple of four bytes).
    SimpleMailTransportProtocolServer(Vec<Ipv4Addr>),
    /// Tag 70: a non-empty list of IPv4 addresses (value is a non-zero multiple of four bytes).
    PostOfficeProtocolServer(Vec<Ipv4Addr>),
    /// Tag 71: a non-empty list of IPv4 addresses (value is a non-zero multiple of four bytes).
    NetworkNewsTransportProtocolServer(Vec<Ipv4Addr>),
    /// Tag 72: a non-empty list of IPv4 addresses (value is a non-zero multiple of four bytes).
    DefaultWorldWideWebServer(Vec<Ipv4Addr>),
    /// Tag 73: a non-empty list of IPv4 addresses (value is a non-zero multiple of four bytes).
    DefaultFingerServer(Vec<Ipv4Addr>),
    /// Tag 74: a non-empty list of IPv4 addresses (value is a non-zero multiple of four bytes).
    DefaultInternetRelayChatServer(Vec<Ipv4Addr>),
    /// Tag 75: a non-empty list of IPv4 addresses (value is a non-zero multiple of four bytes).
    StreetTalkServer(Vec<Ipv4Addr>),
    /// Tag 76: a non-empty list of IPv4 addresses (value is a non-zero multiple of four bytes).
    StreetTalkDirectoryAssistanceServer(Vec<Ipv4Addr>),
    /// Tag 50: a single IPv4 address (value is exactly four bytes).
    RequestedIpAddress(Ipv4Addr),
    /// Tag 51: a 32-bit big-endian integer (value is exactly four bytes).
    IpAddressLeaseTime(u32),
}

impl View for DhcpOption {
    type V = OptionModel;

    open spec fn view(&self) -> OptionModel {
        match self {
            DhcpOption::Pad => OptionModel::Pad,
            DhcpOption::End => OptionModel::End,
            DhcpOption::SubnetMask(v) => OptionModel::SubnetMask(*v),
            DhcpOption::TimeOffset(v) => OptionModel::TimeOffset(*v),
            DhcpOption::Router(v) => OptionModel::Router(v@),
            DhcpOption::TimeServer(v) => OptionModel::TimeServer(v@),
            DhcpOption::NameServer(v) => OptionModel::NameServer(v@),
            DhcpOption::DomainNameServer(v) => OptionModel::DomainNameServer(v@),
            DhcpOption::LogServer(v) => OptionModel::LogServer(v@),
            DhcpOption::CookieServer(v) => OptionModel::CookieServer(v@),
            DhcpOption::LprServer(v) => OptionModel::LprServer(v@),
            DhcpOption::ImpressServer(v) => OptionModel::ImpressServer(v@),
            DhcpOption::ResourceLocationServer(v) => OptionModel::ResourceLocationServer(v@),
            DhcpOption::HostName(v) => OptionModel::HostName(v@),
            DhcpOption::BootFileSize(v) => OptionModel::BootFileSize(*v),
            DhcpOption::MeritDumpFile(v) => OptionModel::MeritDumpFile(v@),
            DhcpOption::DomainName(v) => OptionModel::DomainName(v@),
            DhcpOption::SwapServer(v) => OptionModel::SwapServer(*v),
            DhcpOption::RootPath(v) => OptionModel::RootPath(v@),
            DhcpOption::ExtensionsPath(v) => OptionModel::ExtensionsPath(v@),
            DhcpOption::IpForwarding(v) => OptionModel::IpForwarding(*v),
            DhcpOption::NonLocalSourceRouting(v) => OptionModel::NonLocalSourceRouting(*v),
            DhcpOption::PolicyFilter(v) => OptionModel::PolicyFilter(v@),
            DhcpOption::MaximumDatagramReassemblySize(v) => OptionModel::MaximumDatagramReassemblySize(*v),
            DhcpOption::DefaultIpTimeToLive(v) => OptionModel::DefaultIpTimeToLive(*v),
            DhcpOption::PathMtuAgingTimeout(v) => OptionModel::PathMtuAgingTimeout(*v),
            DhcpOption::PathMtuPlateauTable(v) => OptionModel::PathMtuPlateauTable(v@),
            DhcpOption::InterfaceMtu(v) => OptionModel::InterfaceMtu(*v),
            DhcpOption::AllSubnetsAreLocal(v) => OptionModel::AllSubnetsAreLocal(*v),
            DhcpOption::BroadcastAddress(v) => OptionModel::BroadcastAddress(*v),
            DhcpOption::PerformMaskDiscovery(v) => OptionModel::PerformMaskDiscovery(*v),
            DhcpOption::MaskSupplier(v) => OptionModel::MaskSupplier(*v),
            DhcpOption::PerformRouterDiscovery(v) => OptionModel::PerformRouterDiscovery(*v),
            DhcpOption::RouterSolicitationAddress(v) => OptionModel::RouterSolicitationAddress(*v),
            DhcpOption::StaticRoute(v) => OptionModel::StaticRoute(v@),
            DhcpOption::TrailerEncapsulation(v) => OptionModel::TrailerEncapsulation(*v),
            DhcpOption::ArpCacheTimeout(v) => OptionModel::ArpCacheTimeout(*v),
            DhcpOption::EthernetEncapsulation(v) => OptionModel::EthernetEncapsulation(*v),
            DhcpOption::TcpDefaultTtl(v) => OptionModel::TcpDefaultTtl(*v),
            DhcpOption::TcpKeepaliveInterval(v) => OptionModel::TcpKeepaliveInterval(*v),
            DhcpOption::TcpKeepaliveGarbage(v) => OptionModel::TcpKeepaliveGarbage(*v),
            DhcpOption::NetworkInformationServiceDomain(v) => OptionModel::NetworkInformationServiceDomain(v@),
            DhcpOption::NetworkInformationServers(v) => OptionModel::NetworkInformationServers(v@),
            DhcpOption::NetworkTimeProtocolServers(v) => OptionModel::NetworkTimeProtocolServers(v@),
            DhcpOption::VendorSpecificInformation(v) => OptionModel::VendorSpecificInformation(v@),
            DhcpOption::NetBiosOverTcpIpNameServer(v) => OptionModel::NetBiosOverTcpIpNameServer(v@),
            DhcpOption::NetBiosOverTcpIpDatagramDistributionServer(v) => OptionModel::NetBiosOverTcpIpDatagramDistributionServer(v@),
            DhcpOption::NetBiosOverTcpIpNodeType(v) => OptionModel::NetBiosOverTcpIpNodeType(*v),
            DhcpOption::NetBiosOverTcpIpScope(v) => OptionModel::NetBiosOverTcpIpScope(v@),
            DhcpOption::XWindowSystemFontServer(v) => OptionModel::XWindowSystemFontServer(v@),
            DhcpOption::XWindowSystemDisplayManager(v) => OptionModel::XWindowSystemDisplayManager(v@),
            DhcpOption::NetworkInformationServicePlusDomain(v) => OptionModel::NetworkInformationServicePlusDomain(v@),
            DhcpOption::NetworkInformationServicePlusServers(v) => OptionModel::NetworkInformationServicePlusServers(v@),
            DhcpOption::MobileIpHomeAgent(v) => OptionModel::MobileIpHomeAgent(v@),
            DhcpOption::SimpleMailTransportProtocolServer(v) => OptionModel::SimpleMailTransportProtocolServer(v@),
            DhcpOption::PostOfficeProtocolServer(v) => OptionModel::PostOfficeProtocolServer(v@),
            DhcpOption::NetworkNewsTransportProtocolServer(v) => OptionModel::NetworkNewsTransportProtocolServer(v@),
            DhcpOption::DefaultWorldWideWebServer(v) => OptionModel::DefaultWorldWideWebServer(v@),
            DhcpOption::DefaultFingerServer(v) => OptionModel::DefaultFingerServer(v@),
            DhcpOption::DefaultInternetRelayChatServer(v) => OptionModel::DefaultInternetRelayChatServer(v@),
            DhcpOption::StreetTalkServer(v) => OptionModel::StreetTalkServer(v@),
            DhcpOption::StreetTalkDirectoryAssistanceServer(v) => OptionModel::StreetTalkDirectoryAssistanceServer(v@),
            DhcpOption::RequestedIpAddress(v) => OptionModel::RequestedIpAddress(*v),
            DhcpOption::IpAddressLeaseTime(v) => OptionModel::IpAddressLeaseTime(*v),
        }
    }
}

/// Emits a tag byte, the value's length byte and the value itself.
fn emit(tag: u8, body: Vec<u8>) -> (out: Vec<u8>)
    requires
        body@.len() <= 255,
    ensures
        out@ == seq![tag, body@.len() as u8] + body@,
{
    let mut out: Vec<u8> = Vec::new();
    out.push(tag);
    out.push(body.len() as u8);
    let mut i: usize = 0;
    while i < body.len()
        invariant
            body@.len() <= 255,
            i <= body@.len(),
            out@ == seq![tag, body@.len() as u8] + body@.take(i as int),
        decreases body@.len() - i,
    {
        out.push(body[i]);
        assert(body@.take(i + 1) =~= body@.take(i as int).push(body@[i as int]));
        i = i + 1;
    }
    assert(body@.take(body@.len() as int) =~= body@);
    out
}

/// The value bytes of a single-address option.
fn addr_body(a: &Ipv4Addr) -> (b: Vec<u8>)
    ensures
        b@ == addr_bytes(*a),
{
    let mut b: Vec<u8> = Vec::new();
    b.push(a.o0);
    b.push(a.o1);
    b.push(a.o2);
    b.push(a.o3);
    assert(b@ =~= addr_bytes(*a));
    b
}

/// The value bytes of a 32-bit integer option.
fn u32_body(x: u32) -> (b: Vec<u8>)
    ensures
        b@ == wire::u32_be(x),
{
    let mut b: Vec<u8> = Vec::new();
    wire::push_u32_be(&mut b, x);
    assert(b@ =~= wire::u32_be(x));
    b
}

/// The value bytes of a 16-bit integer option.
fn u16_body(x: u16) -> (b: Vec<u8>)
    ensures
        b@ == wire::u16_be(x),
{
    let mut b: Vec<u8> = Vec::new();
    wire::push_u16_be(&mut b, x);
    assert(b@ =~= wire::u16_be(x));
    b
}

/// The value byte of a one-byte integer option.
fn u8_body(x: u8) -> (b: Vec<u8>)
    ensures
        b@ == seq![x],
{
    let mut b: Vec<u8> = Vec::new();
    b.push(x);
    assert(b@ =~= seq![x]);
    b
}

/// The value byte of a flag option: 1 for true, 0 for false.
fn bool_body(x: bool) -> (b: Vec<u8>)
    ensures
        b@ == seq![if x { 1u8 } else { 0u8 }],
{
    let mut b: Vec<u8> = Vec::new();
    b.push(if x { 1 } else { 0 });
    assert(b@ =~= seq![if x { 1u8 } else { 0u8 }]);
    b
}

/// The value bytes of an address-list option.
fn addrs_body(l: &Vec<Ipv4Addr>) -> (b: Vec<u8>)
    ensures
        b@ == wire::addrs_bytes(l@),
{
    let mut b: Vec<u8> = Vec::new();
    wire::push_addrs(&mut b, l);
    assert(b@ =~= wire::addrs_bytes(l@));
    b
}

/// The value bytes of an address-pair-list option.
fn pairs_body(l: &Vec<(Ipv4Addr, Ipv4Addr)>) -> (b: Vec<u8>)
    ensures
        b@ == wire::pairs_bytes(l@),
{
    let mut b: Vec<u8> = Vec::new();
    wire::push_pairs(&mut b, l);
    assert(b@ =~= wire::pairs_bytes(l@));
    b
}

/// The value bytes of a 16-bit-word-list option.
fn u16s_body(l: &Vec<u16>) -> (b: Vec<u8>)
    ensures
        b@ == wire::u16s_bytes(l@),
{
    let mut b: Vec<u8> = Vec::new();
    wire::push_u16s(&mut b, l);
    assert(b@ =~= wire::u16s_bytes(l@));
    b
}

/// The value bytes of a text option: the UTF-8 bytes of the text.
fn string_body(s: &String) -> (b: Vec<u8>)
    ensures
        b@ == vstd::utf8::encode_utf8(s@),
{
    let mut b: Vec<u8> = Vec::new();
    wire::push_str_bytes(&mut b, s);
    assert(b@ =~= vstd::utf8::encode_utf8(s@));
    b
}

/// The value bytes of an opaque-bytes option: the bytes themselves.
fn blob_body(v: &Vec<u8>) -> (b: Vec<u8>)
    ensures
        b@ == v@,
{
    vstd::slice::slice_to_vec(v.as_slice())
}

/// The value byte of a node-type option.
fn node_body(t: &NetBiosOverTcpIpNodeType) -> (b: Vec<u8>)
    ensures
        b@ == seq![node_byte(*t)],
{
    let mut b: Vec<u8> = Vec::new();
    match t {
        NetBiosOverTcpIpNodeType::BNode => b.push(1),
        NetBiosOverTcpIpNodeType::PNode => b.push(2),
        NetBiosOverTcpIpNodeType::MNode => b.push(4),
        NetBiosOverTcpIpNodeType::HNode => b.push(8),
    }
    assert(b@ =~= seq![node_byte(*t)]);
    b
}

/// The diagnostic text for a structural failure while decoding the given tag.
fn tag_message(tag: u8) -> String {
    let text: &str = match tag {
        1 => "Could not parse subnet mask",
        2 => "Could not parse time offset",
        3 => "Could not parse router",
        4 => "Could not parse time servers",
        5 => "Could not parse name servers",
        6 => "Could not parse domain name servers",
        7 => "Could not parse log servers",
        8 => "Could not parse cookie servers",
        9 => "Could not parse lpr servers",
        10 => "Could not parse impress servers",
        11 => "Could not parse resource location servers",
        12 => "Could not parse host name",
        13 => "Could not parse boot file size",
        14 => "Could not parse merit dump file",
        15 => "Could not parse domain name",
        16 => "Could not parse swap server",
        17 => "Could not parse root path",
        18 => "Could not parse extension path",
        19 => "Could not parse IP forwarding",
        20 => "Could not parse non-local source routing",
        21 => "Could not parse policy filter",
        22 => "Could not parse maximum datagram reassembly size",
        23 => "Could not parse default IP TTL",
        24 => "Could not parse path MTU aging timeout",
        25 => "Could not parse path MTU plateau table",
        26 => "Could not parse interface MTU",
        27 => "Could not parse all subnets are local",
        28 => "Could not parse broadcast address",
        29 => "Could not parse perform mask discovery",
        30 => "Could not parse mask supplier",
        31 => "Could not parse perform router discovery",
        32 => "Could not parse router solicitation address",
        33 => "Could not parse static route",
        34 => "Could not parse trailer encapsulation",
        35 => "Could not parse arp cache timeout",
        36 => "Could not parse ethernet encapsulation",
        37 => "Could not parse tcp default ttl",
        38 => "Could not parse tcp keepalive interval",
        39 => "Could not parse tcp keepalive garbage",
        40 => "Could not parse network information service domain domain",
        41 => "Could not parse network information service servers server address",
        42 => "Could not parse network time protocol servers server address",
        43 => "Could not parse vendor specific information",
        44 => "Could not parse netbios over tcp/ip name servers server address",
        45 => "Could not parse netbios over tcp/ip datagram distribution server address",
        46 => "Could not parse netbios over tcp/ip node type",
        47 => "Could not parse netbios over tcp/ip scope",
        48 => "Could not parse X Window System Font server",
        49 => "Could not parse X Window System Display Manager",
        50 => "Could not parse Requested IP Address",
        51 => "Could not parse IP Address Lease Time",
        64 => "Could not parse Network Information Service+ domain",
        65 => "Could not parse Network Information Service+ servers",
        68 => "Could not parse Mobile Ip Home Agent",
        69 => "Could not parse Simple Mail Transport Protocol Server servers",
        70 => "Could not parse Post Office Protocol Server servers",
        71 => "Could not parse Network News Transport Protocol Server servers",
        72 => "Could not parse Default World Wide Web Server servers",
        73 => "Could not parse Default Finger Server servers",
        74 => "Could not parse Default Internet Relay Chat Server servers",
        75 => "Could not parse StreetTalk Server servers",
        76 => "Could not parse StreetTalk Directory Assistance Server servers",
        _ => "Unknown option code",
    };
    text.to_owned()
}

/// The option a tag's value bytes spell, or nothing when the value breaks
/// the tag's rule or the tag is not supported.
fn decode_value(tag: u8, value: &[u8]) -> (r: Option<DhcpOption>)
    ensures
        match r {
            Some(o) => spec_decode_value(tag, value@) == Some(o@),
            None => spec_decode_value(tag, value@) is None,
        },
{
    match tag {
        1 => if value.len() == 4 {
            Some(DhcpOption::SubnetMask(wire::read_addr(value)))
        } else {
            None
        },
        2 => if value.len() == 4 {
            Some(DhcpOption::TimeOffset(wire::read_u32_be(value)))
        } else {
            None
        },
        3 => if value.len() > 0 && value.len() % 4 == 0 {
            Some(DhcpOption::Router(wire::read_addrs(value)))
        } else {
            None
        },
        4 => if value.len() > 0 && value.len() % 4 == 0 {
            Some(DhcpOption::TimeServer(wire::read_addrs(value)))
        } else {
            None
        },
        5 => if value.len() > 0 && value.len() % 4 == 0 {
            Some(DhcpOption::NameServer(wire::read_addrs(value)))
        } else {
            None
        },
        6 => if value.len() > 0 && value.len() % 4 == 0 {
            Some(DhcpOption::DomainNameServer(wire::read_addrs(value)))
        } else {
            None
        },
        7 => if value.len() > 0 && value.len() % 4 == 0 {
            Some(DhcpOption::LogServer(wire::read_addrs(value)))
        } else {
            None
        },
        8 => if value.len() > 0 && value.len() % 4 == 0 {
            Some(DhcpOption::CookieServer(wire::read_addrs(value)))
        } else {
            None
        },
        9 => if value.len() > 0 && value.len() % 4 == 0 {
            Some(DhcpOption::LprServer(wire::read_addrs(value)))
        } else {
            None
        },
        10 => if value.len() > 0 && value.len() % 4 == 0 {
            Some(DhcpOption::ImpressServer(wire::read_addrs(value)))
        } else {
            None
        },
        11 => if value.len() > 0 && value.len() % 4 == 0 {
            Some(DhcpOption::ResourceLocationServer(wire::read_addrs(value)))
        } else {
            None
        },
        12 => if value.len() >= 1 {
            match wire::read_string(value) {
                Some(s) => Some(DhcpOption::HostName(s)),
                None => None,
            }
        } else {
            None
        },
        13 => if value.len() == 2 {
            Some(DhcpOption::BootFileSize(wire::read_u16_be(value)))
        } else {
            None
        },
        14 => if value.len() >= 1 {
            match wire::read_string(value) {
                Some(s) => Some(DhcpOption::MeritDumpFile(s)),
                None => None,
            }
        } else {
            None
        },
        15 => match wire::read_string(value) {
            Some(s) => Some(DhcpOption::DomainName(s)),
            None => None,
        },
        16 => if value.len() == 4 {
            Some(DhcpOption::SwapServer(wire::read_addr(value)))
        } else {
            None
        },
        17 => if value.len() >= 1 {
            match wire::read_string(value) {
                Some(s) => Some(DhcpOption::RootPath(s)),
                None => None,
            }
        } else {
            None
        },
        18 => if value.len() >= 1 {
            match wire::read_string(value) {
                Some(s) => Some(DhcpOption::ExtensionsPath(s)),
                None => None,
            }
        } else {
            None
        },
        19 => if value.len() == 1 {
            Some(DhcpOption::IpForwarding(value[0] != 0))
        } else {
            None
        },
        20 => if value.len() == 1 {
            Some(DhcpOption::NonLocalSourceRouting(value[0] != 0))
        } else {
            None
        },
        21 => if value.len() > 0 && value.len() % 8 == 0 {
            Some(DhcpOption::PolicyFilter(wire::read_pairs(value)))
        } else {
            None
        },
        22 => if value.len() == 2 {
            Some(DhcpOption::MaximumDatagramReassemblySize(wire::read_u16_be(value)))
        } else {
            None
        },
        23 => if value.len() == 1 {
            Some(DhcpOption::DefaultIpTimeToLive(value[0]))
        } else {
            None
        },
        24 => if value.len() == 4 {
            Some(DhcpOption::PathMtuAgingTimeout(wire::read_u32_be(value)))
        } else {
            None
        },
        25 => if value.len() > 0 && value.len() % 2 == 0 {
            Some(DhcpOption::PathMtuPlateauTable(wire::read_u16s(value)))
        } else {
            None
        },
        26 => if value.len() == 2 {
            Some(DhcpOption::InterfaceMtu(wire::read_u16_be(value)))
        } else {
            None
        },
        27 => if value.len() == 1 {
            Some(DhcpOption::AllSubnetsAreLocal(value[0] != 0))
        } else {
            None
        },
        28 => if value.len() == 4 {
            Some(DhcpOption::BroadcastAddress(wire::read_addr(value)))
        } else {
            None
        },
        29 => if value.len() == 1 {
            Some(DhcpOption::PerformMaskDiscovery(value[0] != 0))
        } else {
            None
        },
        30 => if value.len() == 1 {
            Some(DhcpOption::MaskSupplier(value[0] != 0))
        } else {
            None
        },
        31 => if value.len() == 1 {
            Some(DhcpOption::PerformRouterDiscovery(value[0] != 0))
        } else {
            None
        },
        32 => if value.len() == 4 {
            Some(DhcpOption::RouterSolicitationAddress(wire::read_addr(value)))
        } else {
            None
        },
        33 => if value.len() > 0 && value.len() % 8 == 0 {
            Some(DhcpOption::StaticRoute(wire::read_pairs(value)))
        } else {
            None
        },
        34 => if value.len() == 1 {
            Some(DhcpOption::TrailerEncapsulation(value[0] != 0))
        } else {
            None
        },
        35 => if value.len() == 4 {
            Some(DhcpOption::ArpCacheTimeout(wire::read_u32_be(value)))
        } else {
            None
        },
        36 => if value.len() == 1 {
            Some(DhcpOption::EthernetEncapsulation(value[0] != 0))
        } else {
            None
        },
        37 => if value.len() == 1 {
            Some(DhcpOption::TcpDefaultTtl(value[0]))
        } else {
            None
        },
        38 => if value.len() == 4 {
            Some(DhcpOption::TcpKeepaliveInterval(wire::read_u32_be(value)))
        } else {
            None
        },
        39 => if value.len() == 1 {
            Some(DhcpOption::TcpKeepaliveGarbage(value[0] != 0))
        } else {
            None
        },
        40 => match wire::read_string(value) {
            Some(s) => Some(DhcpOption::NetworkInformationServiceDomain(s)),
            None => None,
        },
        41 => if value.len() > 0 && value.len() % 4 == 0 {
            Some(DhcpOption::NetworkInformationServers(wire::read_addrs(value)))
        } else {
            None
        },
        42 => if value.len() > 0 && value.len() % 4 == 0 {
            Some(DhcpOption::NetworkTimeProtocolServers(wire::read_addrs(value)))
        } else {
            None
        },
        43 => Some(DhcpOption::VendorSpecificInformation(vstd::slice::slice_to_vec(value))),
        44 => if value.len() > 0 && value.len() % 4 == 0 {
            Some(DhcpOption::NetBiosOverTcpIpNameServer(wire::read_addrs(value)))
        } else {
            None
        },
        45 => if value.len() > 0 && value.len() % 4 == 0 {
            Some(DhcpOption::NetBiosOverTcpIpDatagramDistributionServer(wire::read_addrs(value)))
        } else {
            None
        },
        46 => if value.len() == 1 {
            match value[0] {
                1 => Some(DhcpOption::NetBiosOverTcpIpNodeType(NetBiosOverTcpIpNodeType::BNode)),
                2 => Some(DhcpOption::NetBiosOverTcpIpNodeType(NetBiosOverTcpIpNodeType::PNode)),
                4 => Some(DhcpOption::NetBiosOverTcpIpNodeType(NetBiosOverTcpIpNodeType::MNode)),
                8 => Some(DhcpOption::NetBiosOverTcpIpNodeType(NetBiosOverTcpIpNodeType::HNode)),
                _ => None,
            }
        } else {
            None
        },
        47 => if value.len() >= 1 {
            Some(DhcpOption::NetBiosOverTcpIpScope(vstd::slice::slice_to_vec(value)))
        } else {
            None
        },
        48 => if value.len() > 0 && value.len() % 4 == 0 {
            Some(DhcpOption::XWindowSystemFontServer(wire::read_addrs(value)))
        } else {
            None
        },
        49 => if value.len() > 0 && value.len() % 4 == 0 {
            Some(DhcpOption::XWindowSystemDisplayManager(wire::read_addrs(value)))
        } else {
            None
        },
        50 => if value.len() == 4 {
            Some(DhcpOption::RequestedIpAddress(wire::read_addr(value)))
        } else {
            None
        },
        51 => if value.len() == 4 {
            Some(DhcpOption::IpAddressLeaseTime(wire::read_u32_be(value)))
        } else {
            None
        },
        64 => match wire::read_string(value) {
            Some(s) => Some(DhcpOption::NetworkInformationServicePlusDomain(s)),
            None => None,
        },
        65 => if value.len() > 0 && value.len() % 4 == 0 {
            Some(DhcpOption::NetworkInformationServicePlusServers(wire::read_addrs(value)))
        } else {
            None
        },
        68 => if value.len() % 4 == 0 {
            Some(DhcpOption::MobileIpHomeAgent(wire::read_addrs(value)))
        } else {
            None
        },
        69 => if value.len() > 0 && value.len() % 4 == 0 {
            Some(DhcpOption::SimpleMailTransportProtocolServer(wire::read_addrs(value)))
        } else {
            None
        },
        70 => if value.len() > 0 && value.len() % 4 == 0 {
            Some(DhcpOption::PostOfficeProtocolServer(wire::read_addrs(value)))
        } else {
            None
        },
        71 => if value.len() > 0 && value.len() % 4 == 0 {
            Some(DhcpOption::NetworkNewsTransportProtocolServer(wire::read_addrs(value)))
        } else {
            None
        },
        72 => if value.len() > 0 && value.len() % 4 == 0 {
            Some(DhcpOption::DefaultWorldWideWebServer(wire::read_addrs(value)))
        } else {
            None
        },
        73 => if value.len() > 0 && value.len() % 4 == 0 {
            Some(DhcpOption::DefaultFingerServer(wire::read_addrs(value)))
        } else {
            None
        },
        74 => if value.len() > 0 && value.len() % 4 == 0 {
            Some(DhcpOption::DefaultInternetRelayChatServer(wire::read_addrs(value)))
        } else {
            None
        },
        75 => if value.len() > 0 && value.len() % 4 == 0 {
            Some(DhcpOption::StreetTalkServer(wire::read_addrs(value)))
        } else {
            None
        },
        76 => if value.len() > 0 && value.len() % 4 == 0 {
            Some(DhcpOption::StreetTalkDirectoryAssistanceServer(wire::read_addrs(value)))
        } else {
            None
        },
        _ => None,
    }
}

impl DhcpOption {
    /// Encodes the option as its wire bytes.  The value must fit the
    /// one-byte length field of the wire format.
    pub fn serialize(&self) -> (out: Vec<u8>)
        requires
            encodable(self@),
        ensures
            out@ == spec_serialize(self@),
    {
        match self {
            DhcpOption::Pad => {
                let mut out: Vec<u8> = Vec::new();
                out.push(0);
                assert(out@ =~= spec_serialize(OptionModel::Pad));
                out
            },
            DhcpOption::End => {
                let mut out: Vec<u8> = Vec::new();
                out.push(255);
                assert(out@ =~= spec_serialize(OptionModel::End));
                out
            },
            DhcpOption::SubnetMask(v) => emit(1, addr_body(v)),
            DhcpOption::TimeOffset(v) => emit(2, u32_body(*v)),
            DhcpOption::Router(v) => emit(3, addrs_body(v)),
            DhcpOption::TimeServer(v) => emit(4, addrs_body(v)),
            DhcpOption::NameServer(v) => emit(5, addrs_body(v)),
            DhcpOption::DomainNameServer(v) => emit(6, addrs_body(v)),
            DhcpOption::LogServer(v) => emit(7, addrs_body(v)),
            DhcpOption::CookieServer(v) => emit(8, addrs_body(v)),
            DhcpOption::LprServer(v) => emit(9, addrs_body(v)),
            DhcpOption::ImpressServer(v) => emit(10, addrs_body(v)),
            DhcpOption::ResourceLocationServer(v) => emit(11, addrs_body(v)),
            DhcpOption::HostName(v) => emit(12, string_body(v)),
            DhcpOption::BootFileSize(v) => emit(13, u16_body(*v)),
            DhcpOption::MeritDumpFile(v) => emit(14, string_body(v)),
            DhcpOption::DomainName(v) => emit(15, string_body(v)),
            DhcpOption::SwapServer(v) => emit(16, addr_body(v)),
            DhcpOption::RootPath(v) => emit(17, string_body(v)),
            DhcpOption::ExtensionsPath(v) => emit(18, string_body(v)),
            DhcpOption::IpForwarding(v) => emit(19, bool_body(*v)),
            DhcpOption::NonLocalSourceRouting(v) => emit(20, bool_body(*v)),
            DhcpOption::PolicyFilter(v) => emit(21, pairs_body(v)),
            DhcpOption::MaximumDatagramReassemblySize(v) => emit(22, u16_body(*v)),
            DhcpOption::DefaultIpTimeToLive(v) => emit(23, u8_body(*v)),
            DhcpOption::PathMtuAgingTimeout(v) => emit(24, u32_body(*v)),
            DhcpOption::PathMtuPlateauTable(v) => emit(25, u16s_body(v)),
            DhcpOption::InterfaceMtu(v) => emit(26, u16_body(*v)),
            DhcpOption::AllSubnetsAreLocal(v) => emit(27, bool_body(*v)),
            DhcpOption::BroadcastAddress(v) => emit(28, addr_body(v)),
            DhcpOption::PerformMaskDiscovery(v) => emit(29, bool_body(*v)),
            DhcpOption::MaskSupplier(v) => emit(30, bool_body(*v)),
            DhcpOption::PerformRouterDiscovery(v) => emit(31, bool_body(*v)),
            DhcpOption::RouterSolicitationAddress(v) => emit(32, addr_body(v)),
            DhcpOption::StaticRoute(v) => emit(33, pairs_body(v)),
            DhcpOption::TrailerEncapsulation(v) => emit(34, bool_body(*v)),
            DhcpOption::ArpCacheTimeout(v) => emit(35, u32_body(*v)),
            DhcpOption::EthernetEncapsulation(v) => emit(36, bool_body(*v)),
            DhcpOption::TcpDefaultTtl(v) => emit(37, u8_body(*v)),
            DhcpOption::TcpKeepaliveInterval(v) => emit(38, u32_body(*v)),
            DhcpOption::TcpKeepaliveGarbage(v) => emit(39, bool_body(*v)),
            DhcpOption::NetworkInformationServiceDomain(v) => emit(40, string_body(v)),
            DhcpOption::NetworkInformationServers(v) => emit(41, addrs_body(v)),
            DhcpOption::NetworkTimeProtocolServers(v) => emit(42, addrs_body(v)),
            DhcpOption::VendorSpecificInformation(v) => emit(43, blob_body(v)),
            DhcpOption::NetBiosOverTcpIpNameServer(v) => emit(44, addrs_body(v)),
            DhcpOption::NetBiosOverTcpIpDatagramDistributionServer(v) => emit(45, addrs_body(v)),
            DhcpOption::NetBiosOverTcpIpNodeType(v) => emit(46, node_body(v)),
            DhcpOption::NetBiosOverTcpIpScope(v) => emit(47, blob_body(v)),
            DhcpOption::XWindowSystemFontServer(v) => emit(48, addrs_body(v)),
            DhcpOption::XWindowSystemDisplayManager(v) => emit(49, addrs_body(v)),
            DhcpOption::NetworkInformationServicePlusDomain(v) => emit(64, string_body(v)),
            DhcpOption::NetworkInformationServicePlusServers(v) => emit(65, addrs_body(v)),
            DhcpOption::MobileIpHomeAgent(v) => emit(68, addrs_body(v)),
            DhcpOption::SimpleMailTransportProtocolServer(v) => emit(69, addrs_body(v)),
            DhcpOption::PostOfficeProtocolServer(v) => emit(70, addrs_body(v)),
            DhcpOption::NetworkNewsTransportProtocolServer(v) => emit(71, addrs_body(v)),
            DhcpOption::DefaultWorldWideWebServer(v) => emit(72, addrs_body(v)),
            DhcpOption::DefaultFingerServer(v) => emit(73, addrs_body(v)),
            DhcpOption::DefaultInternetRelayChatServer(v) => emit(74, addrs_body(v)),
            DhcpOption::StreetTalkServer(v) => emit(75, addrs_body(v)),
            DhcpOption::StreetTalkDirectoryAssistanceServer(v) => emit(76, addrs_body(v)),
            DhcpOption::RequestedIpAddress(v) => emit(50, addr_body(v)),
            DhcpOption::IpAddressLeaseTime(v) => emit(51, u32_body(*v)),
        }
    }

    /// Decodes exactly one option from the front of `data` and returns it
    /// with the unconsumed remainder, or a parse error when `data` does not
    /// spell a supported option.  The buffer is never read out of bounds and
    /// the call never panics.
    pub fn deserialize(data: &[u8]) -> (r: Result<(DhcpOption, &[u8]), DhcpError>)
        ensures
            match r {
                Ok(p) => spec_deserialize(data@) == Some((p.0@, p.1@)),
                Err(_) => spec_deserialize(data@) is None,
            },
    {
        if data.len() == 0 {
            return Err(DhcpError::ParsingError("No option code found".to_owned()));
        }
        let code = data[0];
        let rest = vstd::slice::slice_subrange(data, 1, data.len());
        if code == 0 {
            return Ok((DhcpOption::Pad, rest));
        }
        if code == 255 {
            return Ok((DhcpOption::End, rest));
        }
        match wire::split_value(rest) {
            Some(p) => match decode_value(code, p.0) {
                Some(o) => Ok((o, p.1)),
                None => Err(DhcpError::ParsingError(tag_message(code))),
            },
            None => Err(DhcpError::ParsingError(tag_message(code))),
        }
    }
}

} // verus!
