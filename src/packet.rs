//! IPv4 addresses and headers, and the framing of packets on a TUN device.
//!
//! An IPv4 address is held as a `u32` whose most significant byte is the
//! first octet (`10.0.0.1` is `0x0a00_0001`).
use vstd::prelude::*;
use vstd::utf8::encode_utf8;
use crate::buf::{push_all, copy_range};

verus! {

/// The VPN subnet `10.0.0.0/24`, as its address divided by 256.
pub const VPN_SUBNET_PREFIX: u32 = 0x000a_0000;

/// Length of the address-family header that some TUN devices put before each
/// packet.
pub const TUN_HEADER_LEN: usize = 4;

/// The address that four octets spell, first octet most significant.
pub open spec fn octets_value(a: u8, b: u8, c: u8, d: u8) -> u32 {
    (a as int * 0x100_0000 + b as int * 0x1_0000 + c as int * 0x100 + d as int) as u32
}

/// The address stored in `data[i..i + 4]`.
pub open spec fn addr_at(data: Seq<u8>, i: int) -> u32 {
    octets_value(data[i], data[i + 1], data[i + 2], data[i + 3])
}

/// Whether a byte is an ASCII decimal digit.
pub open spec fn is_digit(c: u8) -> bool {
    48 <= c <= 57
}

/// The value of a string of decimal digits.
pub open spec fn digits_value(t: Seq<u8>) -> nat
    decreases t.len(),
{
    if t.len() == 0 {
        0
    } else {
        digits_value(t.drop_last()) * 10 + (t.last() - 48) as nat
    }
}

/// The text of one octet: one to three decimal digits, without a leading
/// zero, of value at most 255.
pub open spec fn octet_text(t: Seq<u8>) -> bool {
    &&& 1 <= t.len() <= 3
    &&& forall|i: int| 0 <= i < t.len() ==> is_digit(#[trigger] t[i])
    &&& t.len() > 1 ==> t[0] != 48
    &&& digits_value(t) <= 255
}

/// The pieces of `s` between the dots (`"1.2."` has the pieces `"1"`, `"2"`
/// and `""`).
pub open spec fn split_dots(s: Seq<u8>) -> Seq<Seq<u8>>
    decreases s.len(),
{
    if s.len() == 0 {
        seq![Seq::empty()]
    } else {
        let p = split_dots(s.drop_last());
        if s.last() == 46 {
            p.push(Seq::empty())
        } else {
            p.update(p.len() - 1, p.last().push(s.last()))
        }
    }
}

/// The address that a dotted-decimal text spells: four octet texts joined by
/// dots; `None` for any other text.
pub open spec fn ipv4_text_spec(s: Seq<u8>) -> Option<u32> {
    let p = split_dots(s);
    if p.len() == 4 && octet_text(p[0]) && octet_text(p[1]) && octet_text(p[2]) && octet_text(
        p[3],
    ) {
        Some(
            octets_value(
                digits_value(p[0]) as u8,
                digits_value(p[1]) as u8,
                digits_value(p[2]) as u8,
                digits_value(p[3]) as u8,
            ),
        )
    } else {
        None
    }
}

proof fn lemma_split_dots_nonempty(s: Seq<u8>)
    ensures
        split_dots(s).len() >= 1,
    decreases s.len(),
{
    if s.len() > 0 {
        lemma_split_dots_nonempty(s.drop_last());
    }
}

/// The value of an octet text, if `t` is one.
fn octet_value(t: &[u8]) -> (r: Option<u8>)
    ensures
        r is Some <==> octet_text(t@),
        r matches Some(v) ==> v == digits_value(t@),
{
    let n = t.len();
    if n == 0 || n > 3 {
        return None;
    }
    let mut i: usize = 0;
    while i < n
        invariant
            n == t@.len(),
            i <= n,
            forall|j: int| 0 <= j < i ==> is_digit(#[trigger] t@[j]),
        decreases n - i,
    {
        if t[i] < 48 || t[i] > 57 {
            return None;
        }
        i += 1;
    }
    if n > 1 && t[0] == 48 {
        return None;
    }
    let ghost t0 = t@.subrange(0, 1);
    assert(t0.drop_last() =~= Seq::<u8>::empty());
    assert(digits_value(Seq::<u8>::empty()) == 0);
    assert(t0.last() == t@[0]);
    let v0 = (t[0] - 48) as u32;
    assert(digits_value(t0) == v0);
    let v = if n == 1 {
        assert(t0 =~= t@);
        v0
    } else {
        let ghost t1 = t@.subrange(0, 2);
        assert(t1.drop_last() =~= t0);
        assert(t1.last() == t@[1]);
        let v1 = v0 * 10 + (t[1] - 48) as u32;
        assert(digits_value(t1) == v1);
        if n == 2 {
            assert(t1 =~= t@);
            v1
        } else {
            let ghost t2 = t@.subrange(0, 3);
            assert(t2.drop_last() =~= t1);
            assert(t2.last() == t@[2]);
            assert(t2 =~= t@);
            v1 * 10 + (t[2] - 48) as u32
        }
    };
    if v > 255 {
        return None;
    }
    Some(v as u8)
}

/// The address a virtual-IP text declares, if it is a dotted-decimal IPv4
/// address (four octets of one to three digits, without leading zeros).
pub fn parse_virtual_ip(s: &str) -> (r: Option<u32>)
    ensures
        r == ipv4_text_spec(encode_utf8(s@)),
{
    let b = s.as_bytes();
    let mut done: Vec<Vec<u8>> = Vec::new();
    let mut cur: Vec<u8> = Vec::new();
    let mut i: usize = 0;
    while i < b.len()
        invariant
            i <= b@.len(),
            split_dots(b@.subrange(0, i as int)) == done@.map_values(|v: Vec<u8>| v@).push(cur@),
        decreases b@.len() - i,
    {
        let ghost before = b@.subrange(0, i as int);
        assert(b@.subrange(0, i + 1).drop_last() =~= before);
        proof {
            lemma_split_dots_nonempty(before);
        }
        if b[i] == 46 {
            done.push(cur);
            cur = Vec::new();
        } else {
            cur.push(b[i]);
        }
        i += 1;
        assert(split_dots(b@.subrange(0, i as int)) =~= done@.map_values(|v: Vec<u8>| v@).push(
            cur@,
        ));
    }
    assert(b@.subrange(0, b@.len() as int) =~= b@);
    if done.len() != 3 {
        return None;
    }
    let o0 = octet_value(done[0].as_slice());
    let o1 = octet_value(done[1].as_slice());
    let o2 = octet_value(done[2].as_slice());
    let o3 = octet_value(cur.as_slice());
    match (o0, o1, o2, o3) {
        (Some(a), Some(b1), Some(c), Some(d)) => Some(
            (a as u32) * 0x100_0000 + (b1 as u32) * 0x1_0000 + (c as u32) * 0x100 + d as u32,
        ),
        _ => None,
    }
}

/// Why bytes are not an IPv4 packet.
#[derive(Debug, Clone, Copy, PartialEq, Eq, Structural)]
pub enum PacketError {
    /// Fewer than the 20 bytes of a minimal header.
    TooShort,
    /// The version nibble is not 4.
    NotIpv4,
}

/// The address at `data[i..i + 4]`.
fn read_addr(data: &[u8], i: usize) -> (r: u32)
    requires
        i + 4 <= data@.len(),
    ensures
        r == addr_at(data@, i as int),
{
    let a = data[i] as u32;
    let b = data[i + 1] as u32;
    let c = data[i + 2] as u32;
    let d = data[i + 3] as u32;
    a * 0x100_0000 + b * 0x1_0000 + c * 0x100 + d
}

/// The source and destination addresses of an IPv4 packet: the header must
/// be at least 20 bytes and carry version 4. Neither the checksum nor the
/// length fields are checked.
pub fn parse_ipv4_header(data: &[u8]) -> (r: Result<(u32, u32), PacketError>)
    ensures
        data@.len() < 20 ==> r == Err::<(u32, u32), PacketError>(PacketError::TooShort),
        data@.len() >= 20 && data@[0] / 16 != 4 ==> r == Err::<(u32, u32), PacketError>(
            PacketError::NotIpv4,
        ),
        data@.len() >= 20 && data@[0] / 16 == 4 ==> r == Ok::<(u32, u32), PacketError>(
            (addr_at(data@, 12), addr_at(data@, 16)),
        ),
{
    if data.len() < 20 {
        return Err(PacketError::TooShort);
    }
    if data[0] / 16 != 4 {
        return Err(PacketError::NotIpv4);
    }
    Ok((read_addr(data, 12), read_addr(data, 16)))
}

/// The destination address of a packet of at least 20 bytes.
pub fn destination_of(data: &[u8]) -> (r: Option<u32>)
    ensures
        data@.len() < 20 ==> r is None,
        data@.len() >= 20 ==> r == Some(addr_at(data@, 16)),
{
    if data.len() < 20 {
        return None;
    }
    Some(read_addr(data, 16))
}

/// Whether an address lies in the VPN subnet `10.0.0.0/24`.
pub open spec fn in_vpn_subnet_spec(ip: u32) -> bool {
    ip / 256 == VPN_SUBNET_PREFIX
}

/// Whether an address lies in the VPN subnet `10.0.0.0/24`.
pub fn in_vpn_subnet(ip: u32) -> (r: bool)
    ensures
        r == in_vpn_subnet_spec(ip),
{
    ip / 256 == VPN_SUBNET_PREFIX
}

/// The address-family header (`AF_INET`, big-endian) of a framed packet.
pub open spec fn tun_header() -> Seq<u8> {
    seq![0u8, 0u8, 0u8, 2u8]
}

/// Frames a packet for a TUN device that expects the address-family header.
pub fn add_tun_header(packet: &[u8]) -> (r: Vec<u8>)
    ensures
        r@ == tun_header() + packet@,
{
    let mut out: Vec<u8> = Vec::new();
    out.push(0u8);
    out.push(0u8);
    out.push(0u8);
    out.push(2u8);
    push_all(&mut out, packet);
    assert(out@ =~= tun_header() + packet@);
    out
}

/// The packet in what a TUN device delivered, after `offset` header bytes;
/// `None` where nothing follows the header.
pub fn tun_payload(frame: &[u8], offset: usize) -> (r: Option<Vec<u8>>)
    ensures
        frame@.len() <= offset ==> r is None,
        frame@.len() > offset ==> (r matches Some(p) && p@ == frame@.subrange(
            offset as int,
            frame@.len() as int,
        )),
{
    if frame.len() <= offset {
        return None;
    }
    Some(copy_range(frame, offset, frame.len()))
}

} // verus!
