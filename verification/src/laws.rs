//! The laws of the codec, each proved over the model in [`crate::model`].
//!
//! The central pair: encoding a well-formed option and decoding the result
//! consumes exactly the encoding and yields the option back, with any
//! trailing bytes untouched.  Beside it stand the rejection laws: a
//! truncated buffer, a list length that is not a multiple of its stride and
//! an unsupported tag all fail to decode.

use vstd::prelude::*;
use vstd::utf8::{encode_utf8, valid_utf8};
use crate::addr::{addr_bytes, addr_of};
use crate::model::{
    OptionModel, tag_of, body_bytes, encodable, wf, node_byte, node_of,
    spec_serialize, spec_decode_value, spec_deserialize, addr_list_tag, pair_list_tag, known_tag,
};
use crate::wire::{
    spec_split_value, addrs_bytes, pairs_bytes, u16s_bytes, lemma_u16_be_round_trip,
    lemma_u32_be_round_trip, lemma_addr_list_round_trip, lemma_pair_list_round_trip,
    lemma_u16_list_round_trip,
};

verus! {

/// An option that fits the length byte has at most 255 value bytes.
pub proof fn lemma_body_len(m: OptionModel)
    requires
        encodable(m),
    ensures
        body_bytes(m).len() <= 255,
{
}

/// Decoding the value bytes of a well-formed option under its own tag yields
/// exactly that option.
pub proof fn lemma_decode_body(m: OptionModel)
    requires
        wf(m),
        !(m is Pad),
        !(m is End),
    ensures
        spec_decode_value(tag_of(m), body_bytes(m)) == Some(m),
{
    broadcast use vstd::utf8::encode_utf8_valid_utf8;
    broadcast use vstd::utf8::encode_utf8_decode_utf8;

    match m {
        OptionModel::Pad => {
        },
        OptionModel::End => {
        },
        OptionModel::SubnetMask(v) => {
            assert(addr_of(addr_bytes(v)) == v);
        },
        OptionModel::TimeOffset(v) => {
            lemma_u32_be_round_trip(v);
        },
        OptionModel::Router(v) => {
            lemma_addr_list_round_trip(v);
            assert(addrs_bytes(v).len() % 4 == 0) by (nonlinear_arith);
        },
        OptionModel::TimeServer(v) => {
            lemma_addr_list_round_trip(v);
            assert(addrs_bytes(v).len() % 4 == 0) by (nonlinear_arith);
        },
        OptionModel::NameServer(v) => {
            lemma_addr_list_round_trip(v);
            assert(addrs_bytes(v).len() % 4 == 0) by (nonlinear_arith);
        },
        OptionModel::DomainNameServer(v) => {
            lemma_addr_list_round_trip(v);
            assert(addrs_bytes(v).len() % 4 == 0) by (nonlinear_arith);
        },
        OptionModel::LogServer(v) => {
            lemma_addr_list_round_trip(v);
            assert(addrs_bytes(v).len() % 4 == 0) by (nonlinear_arith);
        },
        OptionModel::CookieServer(v) => {
            lemma_addr_list_round_trip(v);
            assert(addrs_bytes(v).len() % 4 == 0) by (nonlinear_arith);
        },
        OptionModel::LprServer(v) => {
            lemma_addr_list_round_trip(v);
            assert(addrs_bytes(v).len() % 4 == 0) by (nonlinear_arith);
        },
        OptionModel::ImpressServer(v) => {
            lemma_addr_list_round_trip(v);
            assert(addrs_bytes(v).len() % 4 == 0) by (nonlinear_arith);
        },
        OptionModel::ResourceLocationServer(v) => {
            lemma_addr_list_round_trip(v);
            assert(addrs_bytes(v).len() % 4 == 0) by (nonlinear_arith);
        },
        OptionModel::HostName(v) => {
            assert(valid_utf8(encode_utf8(v)));
        },
        OptionModel::BootFileSize(v) => {
            lemma_u16_be_round_trip(v);
        },
        OptionModel::MeritDumpFile(v) => {
            assert(valid_utf8(encode_utf8(v)));
        },
        OptionModel::DomainName(v) => {
            assert(valid_utf8(encode_utf8(v)));
        },
        OptionModel::SwapServer(v) => {
            assert(addr_of(addr_bytes(v)) == v);
        },
        OptionModel::RootPath(v) => {
            assert(valid_utf8(encode_utf8(v)));
        },
        OptionModel::ExtensionsPath(v) => {
            assert(valid_utf8(encode_utf8(v)));
        },
        OptionModel::IpForwarding(v) => {
            assert(((if v { 1u8 } else { 0u8 }) != 0) == v);
        },
        OptionModel::NonLocalSourceRouting(v) => {
            assert(((if v { 1u8 } else { 0u8 }) != 0) == v);
        },
        OptionModel::PolicyFilter(v) => {
            lemma_pair_list_round_trip(v);
            assert(pairs_bytes(v).len() % 8 == 0) by (nonlinear_arith);
        },
        OptionModel::MaximumDatagramReassemblySize(v) => {
            lemma_u16_be_round_trip(v);
        },
        OptionModel::DefaultIpTimeToLive(v) => {
            assert(body_bytes(m)[0] == v);
        },
        OptionModel::PathMtuAgingTimeout(v) => {
            lemma_u32_be_round_trip(v);
        },
        OptionModel::PathMtuPlateauTable(v) => {
            lemma_u16_list_round_trip(v);
            assert(u16s_bytes(v).len() % 2 == 0) by (nonlinear_arith);
        },
        OptionModel::InterfaceMtu(v) => {
            lemma_u16_be_round_trip(v);
        },
        OptionModel::AllSubnetsAreLocal(v) => {
            assert(((if v { 1u8 } else { 0u8 }) != 0) == v);
        },
        OptionModel::BroadcastAddress(v) => {
            assert(addr_of(addr_bytes(v)) == v);
        },
        OptionModel::PerformMaskDiscovery(v) => {
            assert(((if v { 1u8 } else { 0u8 }) != 0) == v);
        },
        OptionModel::MaskSupplier(v) => {
            assert(((if v { 1u8 } else { 0u8 }) != 0) == v);
        },
        OptionModel::PerformRouterDiscovery(v) => {
            assert(((if v { 1u8 } else { 0u8 }) != 0) == v);
        },
        OptionModel::RouterSolicitationAddress(v) => {
            assert(addr_of(addr_bytes(v)) == v);
        },
        OptionModel::StaticRoute(v) => {
            lemma_pair_list_round_trip(v);
            assert(pairs_bytes(v).len() % 8 == 0) by (nonlinear_arith);
        },
        OptionModel::TrailerEncapsulation(v) => {
            assert(((if v { 1u8 } else { 0u8 }) != 0) == v);
        },
        OptionModel::ArpCacheTimeout(v) => {
            lemma_u32_be_round_trip(v);
        },
        OptionModel::EthernetEncapsulation(v) => {
            assert(((if v { 1u8 } else { 0u8 }) != 0) == v);
        },
        OptionModel::TcpDefaultTtl(v) => {
            assert(body_bytes(m)[0] == v);
        },
        OptionModel::TcpKeepaliveInterval(v) => {
            lemma_u32_be_round_trip(v);
        },
        OptionModel::TcpKeepaliveGarbage(v) => {
            assert(((if v { 1u8 } else { 0u8 }) != 0) == v);
        },
        OptionModel::NetworkInformationServiceDomain(v) => {
            assert(valid_utf8(encode_utf8(v)));
        },
        OptionModel::NetworkInformationServers(v) => {
            lemma_addr_list_round_trip(v);
            assert(addrs_bytes(v).len() % 4 == 0) by (nonlinear_arith);
        },
        OptionModel::NetworkTimeProtocolServers(v) => {
            lemma_addr_list_round_trip(v);
            assert(addrs_bytes(v).len() % 4 == 0) by (nonlinear_arith);
        },
        OptionModel::VendorSpecificInformation(_) => {
        },
        OptionModel::NetBiosOverTcpIpNameServer(v) => {
            lemma_addr_list_round_trip(v);
            assert(addrs_bytes(v).len() % 4 == 0) by (nonlinear_arith);
        },
        OptionModel::NetBiosOverTcpIpDatagramDistributionServer(v) => {
            lemma_addr_list_round_trip(v);
            assert(addrs_bytes(v).len() % 4 == 0) by (nonlinear_arith);
        },
        OptionModel::NetBiosOverTcpIpNodeType(v) => {
            assert(node_of(node_byte(v)) == Some(v));
        },
        OptionModel::NetBiosOverTcpIpScope(_) => {
        },
        OptionModel::XWindowSystemFontServer(v) => {
            lemma_addr_list_round_trip(v);
            assert(addrs_bytes(v).len() % 4 == 0) by (nonlinear_arith);
        },
        OptionModel::XWindowSystemDisplayManager(v) => {
            lemma_addr_list_round_trip(v);
            assert(addrs_bytes(v).len() % 4 == 0) by (nonlinear_arith);
        },
        OptionModel::NetworkInformationServicePlusDomain(v) => {
            assert(valid_utf8(encode_utf8(v)));
        },
        OptionModel::NetworkInformationServicePlusServers(v) => {
            lemma_addr_list_round_trip(v);
            assert(addrs_bytes(v).len() % 4 == 0) by (nonlinear_arith);
        },
        OptionModel::MobileIpHomeAgent(v) => {
            lemma_addr_list_round_trip(v);
            assert(addrs_bytes(v).len() % 4 == 0) by (nonlinear_arith);
        },
        OptionModel::SimpleMailTransportProtocolServer(v) => {
            lemma_addr_list_round_trip(v);
            assert(addrs_bytes(v).len() % 4 == 0) by (nonlinear_arith);
        },
        OptionModel::PostOfficeProtocolServer(v) => {
            lemma_addr_list_round_trip(v);
            assert(addrs_bytes(v).len() % 4 == 0) by (nonlinear_arith);
        },
        OptionModel::NetworkNewsTransportProtocolServer(v) => {
            lemma_addr_list_round_trip(v);
            assert(addrs_bytes(v).len() % 4 == 0) by (nonlinear_arith);
        },
        OptionModel::DefaultWorldWideWebServer(v) => {
            lemma_addr_list_round_trip(v);
            assert(addrs_bytes(v).len() % 4 == 0) by (nonlinear_arith);
        },
        OptionModel::DefaultFingerServer(v) => {
            lemma_addr_list_round_trip(v);
            assert(addrs_bytes(v).len() % 4 == 0) by (nonlinear_arith);
        },
        OptionModel::DefaultInternetRelayChatServer(v) => {
            lemma_addr_list_round_trip(v);
            assert(addrs_bytes(v).len() % 4 == 0) by (nonlinear_arith);
        },
        OptionModel::StreetTalkServer(v) => {
            lemma_addr_list_round_trip(v);
            assert(addrs_bytes(v).len() % 4 == 0) by (nonlinear_arith);
        },
        OptionModel::StreetTalkDirectoryAssistanceServer(v) => {
            lemma_addr_list_round_trip(v);
            assert(addrs_bytes(v).len() % 4 == 0) by (nonlinear_arith);
        },
        OptionModel::RequestedIpAddress(v) => {
            assert(addr_of(addr_bytes(v)) == v);
        },
        OptionModel::IpAddressLeaseTime(v) => {
            lemma_u32_be_round_trip(v);
        },
    }
}

/// Remainder preservation: the encoding of a well-formed option followed by
/// any trailing bytes decodes to that option, and the trailing bytes come
/// back untouched.
pub proof fn lemma_encode_decode(m: OptionModel, extra: Seq<u8>)
    requires
        wf(m),
    ensures
        spec_deserialize(spec_serialize(m) + extra) == Some((m, extra)),
{
    let data = spec_serialize(m) + extra;
    if m is Pad {
        assert(data[0] == 0);
        assert(data.skip(1) =~= extra);
    } else if m is End {
        assert(data[0] == 255);
        assert(data.skip(1) =~= extra);
    } else {
        let body = body_bytes(m);
        lemma_body_len(m);
        assert(tag_of(m) != 0 && tag_of(m) != 255);
        assert(data[0] == tag_of(m));
        let rest = data.skip(1);
        assert(rest[0] == body.len() as u8);
        assert(rest[0] as int == body.len() as int);
        assert(rest.subrange(1, 1 + body.len() as int) =~= body);
        assert(rest.skip(1 + body.len() as int) =~= extra);
        assert(spec_split_value(rest) == Some((body, extra)));
        lemma_decode_body(m);
    }
}

/// Round trip: the encoding of a well-formed option decodes to that option
/// with nothing left over.
pub proof fn lemma_round_trip(m: OptionModel)
    requires
        wf(m),
    ensures
        spec_deserialize(spec_serialize(m)) == Some((m, Seq::<u8>::empty())),
{
    lemma_encode_decode(m, Seq::<u8>::empty());
    assert(spec_serialize(m) + Seq::<u8>::empty() =~= spec_serialize(m));
}

/// Minimum length enforcement: a buffer whose length byte is missing, or
/// whose value is shorter than its length byte declares, never decodes.
pub proof fn lemma_truncated_fails(data: Seq<u8>)
    requires
        data.len() >= 1,
        data[0] != 0,
        data[0] != 255,
        data.len() == 1 || data.len() < 2 + data[1],
    ensures
        spec_deserialize(data) is None,
{
    let rest = data.skip(1);
    if data.len() == 1 {
        assert(rest.len() == 0);
    } else {
        assert(rest[0] == data[1]);
    }
}

/// Stride enforcement for address lists: under an address-list tag, a length
/// byte that is not a multiple of four never decodes.
pub proof fn lemma_addr_list_stride(data: Seq<u8>)
    requires
        data.len() >= 2,
        addr_list_tag(data[0]),
        data[1] % 4 != 0,
    ensures
        spec_deserialize(data) is None,
{
    let rest = data.skip(1);
    assert(rest[0] == data[1]);
    match spec_split_value(rest) {
        Some(p) => {
            assert(p.0.len() == data[1]);
        },
        None => {
        },
    }
}

/// Stride enforcement for address-pair lists: under a pair-list tag, a
/// length byte that is not a multiple of eight never decodes.
pub proof fn lemma_pair_list_stride(data: Seq<u8>)
    requires
        data.len() >= 2,
        pair_list_tag(data[0]),
        data[1] % 8 != 0,
    ensures
        spec_deserialize(data) is None,
{
    let rest = data.skip(1);
    assert(rest[0] == data[1]);
    match spec_split_value(rest) {
        Some(p) => {
            assert(p.0.len() == data[1]);
        },
        None => {
        },
    }
}

/// Unknown tag rejection: a buffer whose first byte is no supported tag
/// never decodes.
pub proof fn lemma_unknown_tag_fails(data: Seq<u8>)
    requires
        data.len() >= 1,
        !known_tag(data[0]),
    ensures
        spec_deserialize(data) is None,
{
}

/// The padding tags consume exactly one byte: a leading `Pad` or `End` tag
/// decodes at once, with everything after the tag byte left over.
pub proof fn lemma_pad_end_consume_one_byte(data: Seq<u8>)
    requires
        data.len() >= 1,
    ensures
        data[0] == 0 ==> spec_deserialize(data) == Some((OptionModel::Pad, data.skip(1))),
        data[0] == 255 ==> spec_deserialize(data) == Some((OptionModel::End, data.skip(1))),
{
}

} // verus!
