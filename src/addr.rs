//! Socket addresses in the layout the kernel reads and writes
//! (`sockaddr_in` / `sockaddr_in6`), held in a buffer large enough for either.
use vstd::prelude::*;

verus! {

/// Size of the buffer an address is exchanged in: that of `sockaddr_in6`.
pub const SOCKADDR_LEN: usize = 28;

/// An IPv4 or IPv6 socket address. Addresses are numbers whose big-endian
/// bytes are the octets.
#[derive(Clone, Copy, Debug, PartialEq, Eq, Structural)]
pub enum SockAddr {
    V4 { ip: u32, port: u16 },
    V6 { ip: u128, port: u16, flowinfo: u32, scope_id: u32 },
}

/// The bytes of `v` in the target's native order, as `u16::to_ne_bytes`
/// gives them.
pub uninterp spec fn ne_bytes_u16(v: u16) -> Seq<u8>;

/// Relies on `u16::to_ne_bytes`: the two bytes of `v` in the target's native
/// order, which is big- or little-endian.
#[verifier::external_body]
fn u16_to_ne_bytes(v: u16) -> (r: [u8; 2])
    ensures
        r@ == ne_bytes_u16(v),
        r@ == be16(v) || r@ == seq![(v % 256) as u8, (v / 256) as u8],
{
    v.to_ne_bytes()
}

/// Relies on `libc::AF_INET`, the IPv4 address family, which is 2 on Linux.
#[verifier::external_body]
fn af_inet() -> (r: u16)
    ensures
        r == 2,
{
    libc::AF_INET as u16
}

/// Relies on `libc::AF_INET6`, the IPv6 address family, which is 10 on Linux.
#[verifier::external_body]
fn af_inet6() -> (r: u16)
    ensures
        r == 10,
{
    libc::AF_INET6 as u16
}

/// Big-endian bytes of a 16-bit value.
pub open spec fn be16(v: u16) -> Seq<u8> {
    seq![(v / 256) as u8, (v % 256) as u8]
}

/// Big-endian bytes of a 32-bit value.
pub open spec fn be32(v: u32) -> Seq<u8> {
    be16((v / 0x1_0000) as u16) + be16((v % 0x1_0000) as u16)
}

/// Big-endian bytes of a 64-bit value.
pub open spec fn be64(v: u64) -> Seq<u8> {
    be32((v / 0x1_0000_0000) as u32) + be32((v % 0x1_0000_0000) as u32)
}

/// Big-endian bytes of a 128-bit value.
pub open spec fn be128(v: u128) -> Seq<u8> {
    be64((v / 0x1_0000_0000_0000_0000) as u64) + be64((v % 0x1_0000_0000_0000_0000) as u64)
}

/// The number whose big-endian bytes are the first two of `s`.
pub open spec fn rd16(s: Seq<u8>) -> int {
    s[0] * 256 + s[1]
}

/// The number whose big-endian bytes are the first four of `s`.
pub open spec fn rd32(s: Seq<u8>) -> int {
    rd16(s) * 0x1_0000 + rd16(s.subrange(2, 4))
}

/// The number whose big-endian bytes are the first eight of `s`.
pub open spec fn rd64(s: Seq<u8>) -> int {
    rd32(s) * 0x1_0000_0000 + rd32(s.subrange(4, 8))
}

/// The number whose big-endian bytes are the first sixteen of `s`.
pub open spec fn rd128(s: Seq<u8>) -> int {
    rd64(s) * 0x1_0000_0000_0000_0000 + rd64(s.subrange(8, 16))
}

/// `n` zero bytes.
pub open spec fn zeros(n: nat) -> Seq<u8> {
    Seq::new(n, |i: int| 0u8)
}

/// The kernel layout of `a`: family in native order, then port, address
/// (for IPv6 flow info, address and scope id) in network order, padded with
/// zeros to [`SOCKADDR_LEN`] bytes.
pub open spec fn encode_spec(a: SockAddr) -> Seq<u8> {
    match a {
        SockAddr::V4 { ip, port } => ne_bytes_u16(2) + be16(port) + be32(ip) + zeros(20),
        SockAddr::V6 { ip, port, flowinfo, scope_id } => ne_bytes_u16(10) + be16(port) + be32(flowinfo)
            + be128(ip) + be32(scope_id),
    }
}

/// The address a kernel buffer holds: `None` when the buffer is short or
/// its family is neither IPv4 nor IPv6.
pub open spec fn decode_spec(s: Seq<u8>) -> Option<SockAddr> {
    if s.len() < SOCKADDR_LEN {
        None
    } else if s.subrange(0, 2) == ne_bytes_u16(2) {
        Some(SockAddr::V4 { port: rd16(s.subrange(2, 4)) as u16, ip: rd32(s.subrange(4, 8)) as u32 })
    } else if s.subrange(0, 2) == ne_bytes_u16(10) {
        Some(
            SockAddr::V6 {
                port: rd16(s.subrange(2, 4)) as u16,
                flowinfo: rd32(s.subrange(4, 8)) as u32,
                ip: rd128(s.subrange(8, 24)) as u128,
                scope_id: rd32(s.subrange(24, 28)) as u32,
            },
        )
    } else {
        None
    }
}

proof fn lemma_rd16(v: u16, t: Seq<u8>)
    ensures
        rd16(be16(v) + t) == v,
{
    assert((be16(v) + t)[0] == be16(v)[0]);
    assert((be16(v) + t)[1] == be16(v)[1]);
}

proof fn lemma_rd32(v: u32, t: Seq<u8>)
    ensures
        rd32(be32(v) + t) == v,
        (be32(v) + t).len() == 4 + t.len(),
{
    let hi = (v / 0x1_0000) as u16;
    let lo = (v % 0x1_0000) as u16;
    assert(be32(v) + t =~= be16(hi) + (be16(lo) + t));
    assert((be32(v) + t).subrange(2, 4) + (be32(v) + t).subrange(4, 4 + t.len() as int) =~= be16(lo) + t);
    lemma_rd16(hi, be16(lo) + t);
    lemma_rd16(lo, t);
    assert((be32(v) + t).subrange(2, 4) =~= be16(lo) + Seq::<u8>::empty());
    lemma_rd16(lo, Seq::<u8>::empty());
}

proof fn lemma_rd64(v: u64, t: Seq<u8>)
    ensures
        rd64(be64(v) + t) == v,
        (be64(v) + t).len() == 8 + t.len(),
{
    let hi = (v / 0x1_0000_0000) as u32;
    let lo = (v % 0x1_0000_0000) as u32;
    assert(be64(v) + t =~= be32(hi) + (be32(lo) + t));
    lemma_rd32(hi, be32(lo) + t);
    assert((be64(v) + t).subrange(4, 8) =~= be32(lo) + Seq::<u8>::empty());
    lemma_rd32(lo, Seq::<u8>::empty());
}

proof fn lemma_rd128(v: u128, t: Seq<u8>)
    ensures
        rd128(be128(v) + t) == v,
        (be128(v) + t).len() == 16 + t.len(),
{
    let hi = (v / 0x1_0000_0000_0000_0000) as u64;
    let lo = (v % 0x1_0000_0000_0000_0000) as u64;
    assert(be128(v) + t =~= be64(hi) + (be64(lo) + t));
    lemma_rd64(hi, be64(lo) + t);
    assert((be128(v) + t).subrange(8, 16) =~= be64(lo) + Seq::<u8>::empty());
    lemma_rd64(lo, Seq::<u8>::empty());
}

/// Decoding the encoding of an address gives the address back, provided
/// the two families are written differently (which `u16::to_ne_bytes`
/// guarantees in either byte order).
proof fn lemma_decode_encode(a: SockAddr)
    requires
        ne_bytes_u16(2) != ne_bytes_u16(10),
        ne_bytes_u16(2).len() == 2,
        ne_bytes_u16(10).len() == 2,
    ensures
        decode_spec(encode_spec(a)) == Some(a),
{
    let s = encode_spec(a);
    match a {
        SockAddr::V4 { ip, port } => {
            let f = ne_bytes_u16(2);
            assert(s =~= f + (be16(port) + (be32(ip) + zeros(20))));
            assert(s.subrange(0, 2) =~= f);
            assert(s.subrange(2, 4) =~= be16(port) + Seq::<u8>::empty());
            lemma_rd16(port, Seq::<u8>::empty());
            assert(s.subrange(4, 8) =~= be32(ip) + Seq::<u8>::empty());
            lemma_rd32(ip, Seq::<u8>::empty());
        },
        SockAddr::V6 { ip, port, flowinfo, scope_id } => {
            let f = ne_bytes_u16(10);
            assert(s.subrange(0, 2) =~= f);
            assert(s.subrange(2, 4) =~= be16(port) + Seq::<u8>::empty());
            lemma_rd16(port, Seq::<u8>::empty());
            assert(s.subrange(4, 8) =~= be32(flowinfo) + Seq::<u8>::empty());
            lemma_rd32(flowinfo, Seq::<u8>::empty());
            assert(s.subrange(8, 24) =~= be128(ip) + Seq::<u8>::empty());
            lemma_rd128(ip, Seq::<u8>::empty());
            assert(s.subrange(24, 28) =~= be32(scope_id) + Seq::<u8>::empty());
            lemma_rd32(scope_id, Seq::<u8>::empty());
        },
    }
}

fn push_be16(buf: &mut Vec<u8>, v: u16)
    ensures
        final(buf)@ == old(buf)@ + be16(v),
{
    buf.push((v / 256) as u8);
    buf.push((v % 256) as u8);
    assert(buf@ =~= old(buf)@ + be16(v));
}

fn push_be32(buf: &mut Vec<u8>, v: u32)
    ensures
        final(buf)@ == old(buf)@ + be32(v),
{
    push_be16(buf, (v / 0x1_0000) as u16);
    push_be16(buf, (v % 0x1_0000) as u16);
    assert(buf@ =~= old(buf)@ + be32(v));
}

fn push_be64(buf: &mut Vec<u8>, v: u64)
    ensures
        final(buf)@ == old(buf)@ + be64(v),
{
    push_be32(buf, (v / 0x1_0000_0000) as u32);
    push_be32(buf, (v % 0x1_0000_0000) as u32);
    assert(buf@ =~= old(buf)@ + be64(v));
}

fn push_be128(buf: &mut Vec<u8>, v: u128)
    ensures
        final(buf)@ == old(buf)@ + be128(v),
{
    push_be64(buf, (v / 0x1_0000_0000_0000_0000) as u64);
    push_be64(buf, (v % 0x1_0000_0000_0000_0000) as u64);
    assert(buf@ =~= old(buf)@ + be128(v));
}

/// Writes `a` in the kernel's layout, in a buffer of [`SOCKADDR_LEN`] bytes.
pub fn encode_sockaddr(a: &SockAddr) -> (r: Vec<u8>)
    ensures
        r@ == encode_spec(*a),
        r@.len() == SOCKADDR_LEN,
{
    let mut buf: Vec<u8> = Vec::new();
    match *a {
        SockAddr::V4 { ip, port } => {
            let f = u16_to_ne_bytes(af_inet());
            buf.push(f[0]);
            buf.push(f[1]);
            push_be16(&mut buf, port);
            push_be32(&mut buf, ip);
            let mut i: usize = 0;
            while i < 20
                invariant
                    i <= 20,
                    buf@ == f@ + be16(port) + be32(ip) + zeros(i as nat),
                decreases 20 - i,
            {
                buf.push(0);
                i = i + 1;
                assert(buf@ =~= f@ + be16(port) + be32(ip) + zeros(i as nat));
            }
            assert(f@ =~= seq![f[0], f[1]]);
        },
        SockAddr::V6 { ip, port, flowinfo, scope_id } => {
            let f = u16_to_ne_bytes(af_inet6());
            buf.push(f[0]);
            buf.push(f[1]);
            push_be16(&mut buf, port);
            push_be32(&mut buf, flowinfo);
            push_be128(&mut buf, ip);
            push_be32(&mut buf, scope_id);
            assert(f@ =~= seq![f[0], f[1]]);
        },
    }
    assert(buf@ =~= encode_spec(*a));
    buf
}

fn read_be16(b: &Vec<u8>, i: usize) -> (r: u16)
    requires
        i + 2 <= b.len(),
    ensures
        r == rd16(b@.subrange(i as int, i + 2)),
{
    (b[i] as u16) * 256 + (b[i + 1] as u16)
}

fn read_be32(b: &Vec<u8>, i: usize) -> (r: u32)
    requires
        i + 4 <= b.len(),
    ensures
        r == rd32(b@.subrange(i as int, i + 4)),
{
    let hi = read_be16(b, i);
    let lo = read_be16(b, i + 2);
    assert(b@.subrange(i as int, i + 4).subrange(2, 4) =~= b@.subrange(i + 2, i + 4));
    assert(rd16(b@.subrange(i as int, i + 4)) == rd16(b@.subrange(i as int, i + 2)));
    (hi as u32) * 0x1_0000 + (lo as u32)
}

fn read_be64(b: &Vec<u8>, i: usize) -> (r: u64)
    requires
        i + 8 <= b.len(),
    ensures
        r == rd64(b@.subrange(i as int, i + 8)),
{
    let hi = read_be32(b, i);
    let lo = read_be32(b, i + 4);
    assert(b@.subrange(i as int, i + 8).subrange(4, 8) =~= b@.subrange(i + 4, i + 8));
    assert(b@.subrange(i as int, i + 8).subrange(2, 4) =~= b@.subrange(i as int, i + 4).subrange(2, 4));
    assert(rd32(b@.subrange(i as int, i + 8)) == rd32(b@.subrange(i as int, i + 4)));
    (hi as u64) * 0x1_0000_0000 + (lo as u64)
}

fn read_be128(b: &Vec<u8>, i: usize) -> (r: u128)
    requires
        i + 16 <= b.len(),
    ensures
        r == rd128(b@.subrange(i as int, i + 16)),
{
    let hi = read_be64(b, i);
    let lo = read_be64(b, i + 8);
    let ghost s = b@.subrange(i as int, i + 16);
    let ghost t = b@.subrange(i as int, i + 8);
    assert(s.subrange(8, 16) =~= b@.subrange(i + 8, i + 16));
    assert(s.subrange(2, 4) =~= t.subrange(2, 4));
    assert(s.subrange(4, 8) =~= t.subrange(4, 8));
    assert(s.subrange(4, 8).subrange(2, 4) =~= t.subrange(4, 8).subrange(2, 4));
    assert(rd64(s) == rd64(t));
    (hi as u128) * 0x1_0000_0000_0000_0000 + (lo as u128)
}

/// Reads the address a kernel buffer holds. Returns `None` when the buffer
/// is shorter than [`SOCKADDR_LEN`] or its family is neither IPv4 nor IPv6.
/// Decoding the encoding of any address gives that address back.
pub fn decode_sockaddr(b: &Vec<u8>) -> (r: Option<SockAddr>)
    ensures
        r == decode_spec(b@),
        forall|a: SockAddr| #[trigger] encode_spec(a) == b@ ==> r == Some(a),
{
    let f4 = u16_to_ne_bytes(af_inet());
    let f6 = u16_to_ne_bytes(af_inet6());
    proof {
        assert forall|a: SockAddr| #[trigger] encode_spec(a) == b@ implies decode_spec(b@) == Some(a) by {
            lemma_decode_encode(a);
        }
    }
    if b.len() < SOCKADDR_LEN {
        return None;
    }
    if b[0] == f4[0] && b[1] == f4[1] {
        assert(b@.subrange(0, 2) =~= f4@);
        Some(SockAddr::V4 { port: read_be16(b, 2), ip: read_be32(b, 4) })
    } else if b[0] == f6[0] && b[1] == f6[1] {
        assert(b@.subrange(0, 2) =~= f6@);
        assert(b@.subrange(0, 2) != f4@) by {
            assert(b@.subrange(0, 2)[0] == b[0]);
            assert(b@.subrange(0, 2)[1] == b[1]);
        }
        Some(
            SockAddr::V6 {
                port: read_be16(b, 2),
                flowinfo: read_be32(b, 4),
                ip: read_be128(b, 8),
                scope_id: read_be32(b, 24),
            },
        )
    } else {
        assert(b@.subrange(0, 2) != f4@ && b@.subrange(0, 2) != f6@) by {
            assert(b@.subrange(0, 2)[0] == b[0]);
            assert(b@.subrange(0, 2)[1] == b[1]);
        }
        None
    }
}

} // verus!
