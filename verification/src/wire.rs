//! Byte-level building blocks of the wire format.
//!
//! The spec functions here are the mathematical model of the format: how a
//! big-endian integer, an address list, an address-pair list or a 16-bit-word
//! list is laid out as bytes, and how a tag's value field is cut out of a
//! buffer.  The executable functions compute exactly those models and are
//! shared by every option family.

use vstd::prelude::*;
use vstd::string::StringSliceAdditionalSpecFns;
use vstd::utf8::{encode_utf8, decode_utf8, valid_utf8};
use crate::addr::{Ipv4Addr, addr_bytes, addr_of};

verus! {

// ---------------------------------------------------------------------------
// Big-endian integers
// ---------------------------------------------------------------------------

/// The two big-endian bytes of a 16-bit integer.
pub open spec fn u16_be(x: u16) -> Seq<u8> {
    seq![(x >> 8) as u8, (x & 0xff) as u8]
}

/// The four big-endian bytes of a 32-bit integer.
pub open spec fn u32_be(x: u32) -> Seq<u8> {
    seq![
        (x >> 24) as u8,
        ((x >> 16) & 0xff) as u8,
        ((x >> 8) & 0xff) as u8,
        (x & 0xff) as u8,
    ]
}

/// The 16-bit integer spelled big-endian by the first two bytes of `b`.
pub open spec fn u16_of_be(b: Seq<u8>) -> u16
    recommends
        b.len() >= 2,
{
    ((b[0] as u16) << 8) | (b[1] as u16)
}

/// The 32-bit integer spelled big-endian by the first four bytes of `b`.
pub open spec fn u32_of_be(b: Seq<u8>) -> u32
    recommends
        b.len() >= 4,
{
    ((b[0] as u32) << 24) | ((b[1] as u32) << 16) | ((b[2] as u32) << 8) | (b[3] as u32)
}

/// Reading back the two big-endian bytes of `x` yields `x`.
pub proof fn lemma_u16_be_round_trip(x: u16)
    ensures
        u16_of_be(u16_be(x)) == x,
{
    assert(((((x >> 8) as u8) as u16) << 8) | (((x & 0xff) as u8) as u16) == x) by (bit_vector);
}

/// Reading back the four big-endian bytes of `x` yields `x`.
pub proof fn lemma_u32_be_round_trip(x: u32)
    ensures
        u32_of_be(u32_be(x)) == x,
{
    assert(((((x >> 24) as u8) as u32) << 24) | (((((x >> 16) & 0xff) as u8) as u32) << 16) | ((((
    (x >> 8) & 0xff) as u8) as u32) << 8) | (((x & 0xff) as u8) as u32) == x) by (bit_vector);
}

/// Emits the two big-endian bytes of `x`.
pub fn push_u16_be(out: &mut Vec<u8>, x: u16)
    ensures
        final(out)@ == old(out)@ + u16_be(x),
{
    proof {
        assert(x >> 8 < 256 && x & 0xff < 256) by (bit_vector);
    }
    out.push((x >> 8) as u8);
    out.push((x & 0xff) as u8);
    assert(final(out)@ =~= old(out)@ + u16_be(x));
}

/// Emits the four big-endian bytes of `x`.
pub fn push_u32_be(out: &mut Vec<u8>, x: u32)
    ensures
        final(out)@ == old(out)@ + u32_be(x),
{
    proof {
        assert(x >> 24 < 256 && (x >> 16) & 0xff < 256 && (x >> 8) & 0xff < 256 && x & 0xff < 256)
            by (bit_vector);
    }
    out.push((x >> 24) as u8);
    out.push(((x >> 16) & 0xff) as u8);
    out.push(((x >> 8) & 0xff) as u8);
    out.push((x & 0xff) as u8);
    assert(final(out)@ =~= old(out)@ + u32_be(x));
}

/// Reads the 16-bit integer spelled big-endian by `b`.
pub fn read_u16_be(b: &[u8]) -> (x: u16)
    requires
        b@.len() >= 2,
    ensures
        x == u16_of_be(b@),
{
    ((b[0] as u16) << 8) | (b[1] as u16)
}

/// Reads the 32-bit integer spelled big-endian by `b`.
pub fn read_u32_be(b: &[u8]) -> (x: u32)
    requires
        b@.len() >= 4,
    ensures
        x == u32_of_be(b@),
{
    ((b[0] as u32) << 24) | ((b[1] as u32) << 16) | ((b[2] as u32) << 8) | (b[3] as u32)
}

// ---------------------------------------------------------------------------
// Address lists, address-pair lists and 16-bit-word lists
// ---------------------------------------------------------------------------

/// The wire bytes of an address list: each address contributes its four
/// octets, in list order.
pub open spec fn addrs_bytes(l: Seq<Ipv4Addr>) -> Seq<u8> {
    Seq::new((4 * l.len()) as nat, |i: int| addr_bytes(l[i / 4])[i % 4])
}

/// The address list spelled by `b`, one address per four bytes.
pub open spec fn addr_list_of(b: Seq<u8>) -> Seq<Ipv4Addr> {
    Seq::new((b.len() / 4) as nat, |i: int| addr_of(b.skip(4 * i)))
}

/// The eight wire bytes of an address pair.
pub open spec fn pair_bytes(p: (Ipv4Addr, Ipv4Addr)) -> Seq<u8> {
    addr_bytes(p.0) + addr_bytes(p.1)
}

/// The wire bytes of an address-pair list: each pair contributes eight
/// octets, in list order.
pub open spec fn pairs_bytes(l: Seq<(Ipv4Addr, Ipv4Addr)>) -> Seq<u8> {
    Seq::new((8 * l.len()) as nat, |i: int| pair_bytes(l[i / 8])[i % 8])
}

/// The address-pair list spelled by `b`, one pair per eight bytes.
pub open spec fn pair_list_of(b: Seq<u8>) -> Seq<(Ipv4Addr, Ipv4Addr)> {
    Seq::new((b.len() / 8) as nat, |i: int| (addr_of(b.skip(8 * i)), addr_of(b.skip(8 * i + 4))))
}

/// The wire bytes of a 16-bit-word list: each word contributes its two
/// big-endian bytes, in list order.
pub open spec fn u16s_bytes(l: Seq<u16>) -> Seq<u8> {
    Seq::new((2 * l.len()) as nat, |i: int| u16_be(l[i / 2])[i % 2])
}

/// The 16-bit-word list spelled big-endian by `b`, one word per two bytes.
pub open spec fn u16_list_of(b: Seq<u8>) -> Seq<u16> {
    Seq::new((b.len() / 2) as nat, |i: int| u16_of_be(b.skip(2 * i)))
}

/// Reading an address list back from its wire bytes yields the list.
pub proof fn lemma_addr_list_round_trip(l: Seq<Ipv4Addr>)
    ensures
        addr_list_of(addrs_bytes(l)) == l,
{
    let b = addrs_bytes(l);
    assert forall|i: int| 0 <= i < l.len() implies addr_list_of(b)[i] == l[i] by {
        assert forall|j: int| 0 <= j < 4 implies b[4 * i + j] == addr_bytes(l[i])[j] by {
            assert((4 * i + j) / 4 == i && (4 * i + j) % 4 == j) by (nonlinear_arith)
                requires
                    0 <= j < 4,
            ;
        }
    }
    assert(addr_list_of(b) =~= l);
}

/// Reading an address-pair list back from its wire bytes yields the list.
pub proof fn lemma_pair_list_round_trip(l: Seq<(Ipv4Addr, Ipv4Addr)>)
    ensures
        pair_list_of(pairs_bytes(l)) == l,
{
    let b = pairs_bytes(l);
    assert forall|i: int| 0 <= i < l.len() implies pair_list_of(b)[i] == l[i] by {
        assert forall|j: int| 0 <= j < 8 implies b[8 * i + j] == pair_bytes(l[i])[j] by {
            assert((8 * i + j) / 8 == i && (8 * i + j) % 8 == j) by (nonlinear_arith)
                requires
                    0 <= j < 8,
            ;
        }
        assert(pair_list_of(b)[i].0 =~= l[i].0);
        assert(pair_list_of(b)[i].1 =~= l[i].1);
    }
    assert(pair_list_of(b) =~= l);
}

/// Reading a 16-bit-word list back from its wire bytes yields the list.
pub proof fn lemma_u16_list_round_trip(l: Seq<u16>)
    ensures
        u16_list_of(u16s_bytes(l)) == l,
{
    let b = u16s_bytes(l);
    assert forall|i: int| 0 <= i < l.len() implies u16_list_of(b)[i] == l[i] by {
        assert((2 * i) / 2 == i && (2 * i) % 2 == 0 && (2 * i + 1) / 2 == i && (2 * i + 1) % 2
            == 1) by (nonlinear_arith);
        assert(b[2 * i] == u16_be(l[i])[0]);
        assert(b[2 * i + 1] == u16_be(l[i])[1]);
        assert(b.skip(2 * i)[0] == u16_be(l[i])[0]);
        assert(b.skip(2 * i)[1] == u16_be(l[i])[1]);
        lemma_u16_be_round_trip(l[i]);
        assert(u16_of_be(b.skip(2 * i)) == u16_of_be(u16_be(l[i])));
    }
    assert(u16_list_of(b) =~= l);
}

/// Emits the wire bytes of an address list.
pub fn push_addrs(out: &mut Vec<u8>, l: &Vec<Ipv4Addr>)
    ensures
        final(out)@ == old(out)@ + addrs_bytes(l@),
{
    let mut i: usize = 0;
    while i < l.len()
        invariant
            i <= l@.len(),
            out@ == old(out)@ + addrs_bytes(l@.take(i as int)),
        decreases l@.len() - i,
    {
        let a = l[i];
        out.push(a.o0);
        out.push(a.o1);
        out.push(a.o2);
        out.push(a.o3);
        proof {
            let t0 = addrs_bytes(l@.take(i as int));
            let t1 = addrs_bytes(l@.take(i + 1));
            assert forall|k: int| 0 <= k < t1.len() implies t1[k] == (t0 + addr_bytes(
                l@[i as int],
            ))[k] by {
                assert(0 <= k / 4 <= i && 0 <= k % 4 < 4) by (nonlinear_arith)
                    requires
                        0 <= k < 4 * (i + 1),
                ;
                if k < 4 * i {
                    assert(k / 4 < i) by (nonlinear_arith)
                        requires
                            0 <= k < 4 * i,
                    ;
                } else {
                    assert(k / 4 == i && k % 4 == k - 4 * i) by (nonlinear_arith)
                        requires
                            4 * i <= k < 4 * (i + 1),
                    ;
                }
            }
            assert(t1 =~= t0 + addr_bytes(l@[i as int]));
            assert(out@ == old(out)@ + t1);
        }
        i = i + 1;
    }
    assert(l@.take(l@.len() as int) =~= l@);
}

/// Emits the wire bytes of an address-pair list.
pub fn push_pairs(out: &mut Vec<u8>, l: &Vec<(Ipv4Addr, Ipv4Addr)>)
    ensures
        final(out)@ == old(out)@ + pairs_bytes(l@),
{
    let mut i: usize = 0;
    while i < l.len()
        invariant
            i <= l@.len(),
            out@ == old(out)@ + pairs_bytes(l@.take(i as int)),
        decreases l@.len() - i,
    {
        let p = l[i];
        out.push(p.0.o0);
        out.push(p.0.o1);
        out.push(p.0.o2);
        out.push(p.0.o3);
        out.push(p.1.o0);
        out.push(p.1.o1);
        out.push(p.1.o2);
        out.push(p.1.o3);
        proof {
            let t0 = pairs_bytes(l@.take(i as int));
            let t1 = pairs_bytes(l@.take(i + 1));
            assert forall|k: int| 0 <= k < t1.len() implies t1[k] == (t0 + pair_bytes(
                l@[i as int],
            ))[k] by {
                if k < 8 * i {
                    assert(k / 8 < i && 0 <= k % 8 < 8) by (nonlinear_arith)
                        requires
                            0 <= k < 8 * i,
                    ;
                } else {
                    assert(k / 8 == i && k % 8 == k - 8 * i) by (nonlinear_arith)
                        requires
                            8 * i <= k < 8 * (i + 1),
                    ;
                }
            }
            assert(t1 =~= t0 + pair_bytes(l@[i as int]));
            assert(out@ == old(out)@ + t1);
        }
        i = i + 1;
    }
    assert(l@.take(l@.len() as int) =~= l@);
}

/// Emits the wire bytes of a 16-bit-word list.
pub fn push_u16s(out: &mut Vec<u8>, l: &Vec<u16>)
    ensures
        final(out)@ == old(out)@ + u16s_bytes(l@),
{
    let mut i: usize = 0;
    while i < l.len()
        invariant
            i <= l@.len(),
            out@ == old(out)@ + u16s_bytes(l@.take(i as int)),
        decreases l@.len() - i,
    {
        push_u16_be(out, l[i]);
        proof {
            let t0 = u16s_bytes(l@.take(i as int));
            let t1 = u16s_bytes(l@.take(i + 1));
            assert forall|k: int| 0 <= k < t1.len() implies t1[k] == (t0 + u16_be(
                l@[i as int],
            ))[k] by {
                if k < 2 * i {
                    assert(k / 2 < i && 0 <= k % 2 < 2) by (nonlinear_arith)
                        requires
                            0 <= k < 2 * i,
                    ;
                } else {
                    assert(k / 2 == i && k % 2 == k - 2 * i) by (nonlinear_arith)
                        requires
                            2 * i <= k < 2 * (i + 1),
                    ;
                }
            }
            assert(t1 =~= t0 + u16_be(l@[i as int]));
            assert(out@ == old(out)@ + t1);
        }
        i = i + 1;
    }
    assert(l@.take(l@.len() as int) =~= l@);
}

/// Reads the address spelled by the first four bytes of `b`.
pub fn read_addr(b: &[u8]) -> (a: Ipv4Addr)
    requires
        b@.len() >= 4,
    ensures
        a == addr_of(b@),
{
    Ipv4Addr::new(b[0], b[1], b[2], b[3])
}

/// Reads the address list spelled by `b`.
pub fn read_addrs(b: &[u8]) -> (l: Vec<Ipv4Addr>)
    requires
        b@.len() % 4 == 0,
    ensures
        l@ == addr_list_of(b@),
{
    let mut l: Vec<Ipv4Addr> = Vec::new();
    let mut off: usize = 0;
    while off < b.len()
        invariant
            b@.len() % 4 == 0,
            off % 4 == 0,
            off <= b@.len(),
            l@.len() == off / 4,
            l@ == addr_list_of(b@).take(off as int / 4),
        decreases b@.len() - off,
    {
        let a = Ipv4Addr::new(b[off], b[off + 1], b[off + 2], b[off + 3]);
        l.push(a);
        proof {
            let n = addr_list_of(b@);
            let i = off as int / 4;
            assert(4 * i == off) by (nonlinear_arith)
                requires
                    off % 4 == 0,
                    i == off as int / 4,
                    off >= 0,
            ;
            assert(n[i] == addr_of(b@.skip(off as int)));
            assert(a == n[i]);
            assert((off + 4) as int / 4 == i + 1) by (nonlinear_arith)
                requires
                    4 * i == off,
                    off >= 0,
            ;
            assert(n.take(i + 1) =~= n.take(i).push(n[i]));
        }
        off = off + 4;
    }
    proof {
        assert(off == b@.len());
        assert(addr_list_of(b@).take(b@.len() as int / 4) =~= addr_list_of(b@));
    }
    l
}

/// Reads the address-pair list spelled by `b`.
pub fn read_pairs(b: &[u8]) -> (l: Vec<(Ipv4Addr, Ipv4Addr)>)
    requires
        b@.len() % 8 == 0,
    ensures
        l@ == pair_list_of(b@),
{
    let mut l: Vec<(Ipv4Addr, Ipv4Addr)> = Vec::new();
    let mut off: usize = 0;
    while off < b.len()
        invariant
            b@.len() % 8 == 0,
            off % 8 == 0,
            off <= b@.len(),
            l@.len() == off / 8,
            l@ == pair_list_of(b@).take(off as int / 8),
        decreases b@.len() - off,
    {
        let a = Ipv4Addr::new(b[off], b[off + 1], b[off + 2], b[off + 3]);
        let m = Ipv4Addr::new(b[off + 4], b[off + 5], b[off + 6], b[off + 7]);
        l.push((a, m));
        proof {
            let n = pair_list_of(b@);
            let i = off as int / 8;
            assert(8 * i == off) by (nonlinear_arith)
                requires
                    off % 8 == 0,
                    i == off as int / 8,
                    off >= 0,
            ;
            assert(a == addr_of(b@.skip(off as int)));
            assert(m == addr_of(b@.skip(off as int + 4)));
            assert((a, m) == n[i]);
            assert((off + 8) as int / 8 == i + 1) by (nonlinear_arith)
                requires
                    8 * i == off,
                    off >= 0,
            ;
            assert(n.take(i + 1) =~= n.take(i).push(n[i]));
        }
        off = off + 8;
    }
    proof {
        assert(off == b@.len());
        assert(pair_list_of(b@).take(b@.len() as int / 8) =~= pair_list_of(b@));
    }
    l
}

/// Reads the 16-bit-word list spelled big-endian by `b`.
pub fn read_u16s(b: &[u8]) -> (l: Vec<u16>)
    requires
        b@.len() % 2 == 0,
    ensures
        l@ == u16_list_of(b@),
{
    let mut l: Vec<u16> = Vec::new();
    let mut off: usize = 0;
    while off < b.len()
        invariant
            b@.len() % 2 == 0,
            off % 2 == 0,
            off <= b@.len(),
            l@.len() == off / 2,
            l@ == u16_list_of(b@).take(off as int / 2),
        decreases b@.len() - off,
    {
        let w = ((b[off] as u16) << 8) | (b[off + 1] as u16);
        l.push(w);
        proof {
            let n = u16_list_of(b@);
            let i = off as int / 2;
            assert(2 * i == off) by (nonlinear_arith)
                requires
                    off % 2 == 0,
                    i == off as int / 2,
                    off >= 0,
            ;
            assert(w == u16_of_be(b@.skip(off as int)));
            assert(w == n[i]);
            assert((off + 2) as int / 2 == i + 1) by (nonlinear_arith)
                requires
                    2 * i == off,
                    off >= 0,
            ;
            assert(n.take(i + 1) =~= n.take(i).push(n[i]));
        }
        off = off + 2;
    }
    proof {
        assert(off == b@.len());
        assert(u16_list_of(b@).take(b@.len() as int / 2) =~= u16_list_of(b@));
    }
    l
}

// ---------------------------------------------------------------------------
// Text
// ---------------------------------------------------------------------------

/// Emits the UTF-8 bytes of `s`.
pub fn push_str_bytes(out: &mut Vec<u8>, s: &String)
    ensures
        final(out)@ == old(out)@ + encode_utf8(s@),
{
    let b = s.as_str().as_bytes();
    let mut i: usize = 0;
    while i < b.len()
        invariant
            b@ == encode_utf8(s@),
            i <= b@.len(),
            out@ == old(out)@ + b@.take(i as int),
        decreases b@.len() - i,
    {
        out.push(b[i]);
        assert(b@.take(i + 1) =~= b@.take(i as int).push(b@[i as int]));
        i = i + 1;
    }
    assert(b@.take(b@.len() as int) =~= b@);
}

/// Relies on `core::str::from_utf8`: it succeeds exactly on valid UTF-8,
/// returning the string slice backed by the given bytes.
#[verifier::external_body]
fn parse_utf8(b: &[u8]) -> (r: Option<&str>)
    ensures
        match r {
            Some(s) => b@ == s.spec_bytes(),
            None => !valid_utf8(b@),
        },
{
    core::str::from_utf8(b).ok()
}

/// Reads the text spelled by `b`, or nothing when `b` is not valid UTF-8.
pub fn read_string(b: &[u8]) -> (r: Option<String>)
    ensures
        match r {
            Some(s) => valid_utf8(b@) && s@ == decode_utf8(b@),
            None => !valid_utf8(b@),
        },
{
    match parse_utf8(b) {
        Some(s) => {
            proof {
                broadcast use vstd::utf8::encode_utf8_valid_utf8;
                broadcast use vstd::utf8::encode_utf8_decode_utf8;

            }
            Some(s.to_owned())
        },
        None => None,
    }
}

// ---------------------------------------------------------------------------
// The length byte and the value it delimits
// ---------------------------------------------------------------------------

/// Splits the part of a buffer that follows a tag byte into the value that
/// its length byte announces and the remainder, or nothing when the length
/// byte is missing or announces more bytes than are present.
pub open spec fn spec_split_value(d: Seq<u8>) -> Option<(Seq<u8>, Seq<u8>)> {
    if d.len() >= 1 && 1 + (d[0] as int) <= d.len() {
        Some((d.subrange(1, 1 + d[0] as int), d.skip(1 + d[0] as int)))
    } else {
        None
    }
}

/// Cuts the announced value out of the bytes that follow a tag byte.
pub fn split_value(d: &[u8]) -> (r: Option<(&[u8], &[u8])>)
    ensures
        match r {
            Some(p) => spec_split_value(d@) == Some((p.0@, p.1@)),
            None => spec_split_value(d@) is None,
        },
{
    if d.len() == 0 {
        return None;
    }
    let len = d[0] as usize;
    if len + 1 > d.len() {
        return None;
    }
    let value = vstd::slice::slice_subrange(d, 1, 1 + len);
    let rest = vstd::slice::slice_subrange(d, 1 + len, d.len());
    assert(rest@ =~= d@.skip(1 + d@[0] as int));
    Some((value, rest))
}

} // verus!
