//! Packet classification: raw frame bytes to a structured class and a
//! one-line summary.
//!
//! Dispatch is strict top-down and best-effort: Ethernet, then IPv4 or
//! IPv6, then TCP or UDP. A frame too short for a header, an unrecognized
//! next-protocol field, or a malformed length field falls through to the
//! unknown class; classification never fails.
//!
//! Header layout assumed (all multi-byte fields big-endian): a 14-byte
//! Ethernet header with the ethertype at offset 12; an IPv4 header of
//! `4 * IHL` bytes (IHL at least 5 and within the payload) with the
//! protocol at offset 9 and addresses at 12 and 16; a fixed 40-byte IPv6
//! header with the next header at offset 6 and addresses at 8 and 24; TCP
//! ports at offsets 0 and 2 with the flag byte at 13 and a 20-byte minimum
//! header; UDP ports at offsets 0 and 2 with an 8-byte minimum header.

use vstd::prelude::*;
use vstd::string::*;
use crate::fmt::{dec_chars, hex_group_chars, fmt_u64, fmt_hex_group};
use crate::text::{contains_seq, matches_at};

verus! {

/// An IPv4 address as its four octets.
#[derive(Clone, Copy, PartialEq, Eq, Structural, Debug)]
pub struct V4Addr {
    pub o0: u8,
    pub o1: u8,
    pub o2: u8,
    pub o3: u8,
}

/// An IPv6 address as its eight 16-bit groups.
#[derive(Clone, Copy, PartialEq, Eq, Structural, Debug)]
pub struct V6Addr {
    pub g0: u16,
    pub g1: u16,
    pub g2: u16,
    pub g3: u16,
    pub g4: u16,
    pub g5: u16,
    pub g6: u16,
    pub g7: u16,
}

/// The protocol path a frame was recognized as, with the header fields the
/// summary reports.
#[derive(Clone, Copy, PartialEq, Eq, Structural, Debug)]
pub enum PacketClass {
    V4Tcp { src: V4Addr, dst: V4Addr, sport: u16, dport: u16, flags: u8 },
    V4Udp { src: V4Addr, dst: V4Addr, sport: u16, dport: u16 },
    V6Tcp { src: V6Addr, dst: V6Addr, sport: u16, dport: u16, flags: u8 },
    V6Udp { src: V6Addr, dst: V6Addr, sport: u16, dport: u16 },
    Unknown,
}

/// Big-endian 16-bit value at offset `i`.
pub open spec fn be16(b: Seq<u8>, i: int) -> int
    recommends
        0 <= i,
        i + 2 <= b.len(),
{
    b[i] * 256 + b[i + 1]
}

/// The IPv4 address whose octets start at offset `i`.
pub open spec fn v4_at(b: Seq<u8>, i: int) -> V4Addr
    recommends
        0 <= i,
        i + 4 <= b.len(),
{
    V4Addr { o0: b[i], o1: b[i + 1], o2: b[i + 2], o3: b[i + 3] }
}

/// The IPv6 address whose groups start at offset `i`.
pub open spec fn v6_at(b: Seq<u8>, i: int) -> V6Addr
    recommends
        0 <= i,
        i + 16 <= b.len(),
{
    V6Addr {
        g0: be16(b, i) as u16,
        g1: be16(b, i + 2) as u16,
        g2: be16(b, i + 4) as u16,
        g3: be16(b, i + 6) as u16,
        g4: be16(b, i + 8) as u16,
        g5: be16(b, i + 10) as u16,
        g6: be16(b, i + 12) as u16,
        g7: be16(b, i + 14) as u16,
    }
}

/// Classify a transport payload below IPv4.
pub open spec fn classify_v4_transport(src: V4Addr, dst: V4Addr, proto: u8, t: Seq<u8>) -> PacketClass {
    if proto == 6 {
        if t.len() < 20 {
            PacketClass::Unknown
        } else {
            PacketClass::V4Tcp {
                src,
                dst,
                sport: be16(t, 0) as u16,
                dport: be16(t, 2) as u16,
                flags: t[13],
            }
        }
    } else if proto == 17 {
        if t.len() < 8 {
            PacketClass::Unknown
        } else {
            PacketClass::V4Udp { src, dst, sport: be16(t, 0) as u16, dport: be16(t, 2) as u16 }
        }
    } else {
        PacketClass::Unknown
    }
}

/// Classify a transport payload below IPv6.
pub open spec fn classify_v6_transport(src: V6Addr, dst: V6Addr, proto: u8, t: Seq<u8>) -> PacketClass {
    if proto == 6 {
        if t.len() < 20 {
            PacketClass::Unknown
        } else {
            PacketClass::V6Tcp {
                src,
                dst,
                sport: be16(t, 0) as u16,
                dport: be16(t, 2) as u16,
                flags: t[13],
            }
        }
    } else if proto == 17 {
        if t.len() < 8 {
            PacketClass::Unknown
        } else {
            PacketClass::V6Udp { src, dst, sport: be16(t, 0) as u16, dport: be16(t, 2) as u16 }
        }
    } else {
        PacketClass::Unknown
    }
}

/// Classify an IPv4 packet (the Ethernet payload).
pub open spec fn classify_v4(p: Seq<u8>) -> PacketClass {
    if p.len() < 20 {
        PacketClass::Unknown
    } else {
        let ihl = (p[0] & 0x0f) as int;
        if ihl < 5 || 4 * ihl > p.len() {
            PacketClass::Unknown
        } else {
            classify_v4_transport(v4_at(p, 12), v4_at(p, 16), p[9], p.skip(4 * ihl))
        }
    }
}

/// Classify an IPv6 packet (the Ethernet payload).
pub open spec fn classify_v6(p: Seq<u8>) -> PacketClass {
    if p.len() < 40 {
        PacketClass::Unknown
    } else {
        classify_v6_transport(v6_at(p, 8), v6_at(p, 24), p[6], p.skip(40))
    }
}

/// Classify a raw frame, starting from its Ethernet header.
pub open spec fn classify_spec(frame: Seq<u8>) -> PacketClass {
    if frame.len() < 14 {
        PacketClass::Unknown
    } else {
        let ethertype = be16(frame, 12);
        if ethertype == 0x0800 {
            classify_v4(frame.skip(14))
        } else if ethertype == 0x86DD {
            classify_v6(frame.skip(14))
        } else {
            PacketClass::Unknown
        }
    }
}

/// Dotted-decimal text of an IPv4 address.
pub open spec fn v4_chars(a: V4Addr) -> Seq<char> {
    dec_chars(a.o0 as int) + "."@ + dec_chars(a.o1 as int) + "."@ + dec_chars(a.o2 as int) + "."@
        + dec_chars(a.o3 as int)
}

/// Colon-separated fixed-width hexadecimal text of an IPv6 address.
pub open spec fn v6_chars(a: V6Addr) -> Seq<char> {
    hex_group_chars(a.g0 as int) + ":"@ + hex_group_chars(a.g1 as int) + ":"@ + hex_group_chars(
        a.g2 as int,
    ) + ":"@ + hex_group_chars(a.g3 as int) + ":"@ + hex_group_chars(a.g4 as int) + ":"@
        + hex_group_chars(a.g5 as int) + ":"@ + hex_group_chars(a.g6 as int) + ":"@
        + hex_group_chars(a.g7 as int)
}

/// `address:port` text of an IPv4 endpoint.
pub open spec fn endpoint4_chars(a: V4Addr, port: int) -> Seq<char> {
    v4_chars(a) + ":"@ + dec_chars(port)
}

/// `address:port` text of an IPv6 endpoint.
pub open spec fn endpoint6_chars(a: V6Addr, port: int) -> Seq<char> {
    v6_chars(a) + ":"@ + dec_chars(port)
}

/// The one-line summary of a classified frame: ordinal number, protocol
/// path, endpoints, TCP flags where present, and total frame length.
pub open spec fn summary_chars(c: PacketClass, number: int, len: int) -> Seq<char> {
    match c {
        PacketClass::V4Tcp { src, dst, sport, dport, flags } => {
            "["@ + dec_chars(number) + "] IPv4 TCP | SRC: "@ + endpoint4_chars(src, sport as int)
                + " | DST: "@ + endpoint4_chars(dst, dport as int) + " | FLAGS: "@ + dec_chars(
                flags as int,
            ) + " | LEN: "@ + dec_chars(len)
        },
        PacketClass::V4Udp { src, dst, sport, dport } => {
            "["@ + dec_chars(number) + "] IPv4 UDP | SRC: "@ + endpoint4_chars(src, sport as int)
                + " | DST: "@ + endpoint4_chars(dst, dport as int) + " | LEN: "@ + dec_chars(len)
        },
        PacketClass::V6Tcp { src, dst, sport, dport, flags } => {
            "["@ + dec_chars(number) + "] IPv6 TCP | SRC: "@ + endpoint6_chars(src, sport as int)
                + " | DST: "@ + endpoint6_chars(dst, dport as int) + " | FLAGS: "@ + dec_chars(
                flags as int,
            ) + " | LEN: "@ + dec_chars(len)
        },
        PacketClass::V6Udp { src, dst, sport, dport } => {
            "["@ + dec_chars(number) + "] IPv6 UDP | SRC: "@ + endpoint6_chars(src, sport as int)
                + " | DST: "@ + endpoint6_chars(dst, dport as int) + " | LEN: "@ + dec_chars(len)
        },
        PacketClass::Unknown => {
            "["@ + dec_chars(number) + "] Unknown Packet | LEN: "@ + dec_chars(len)
        },
    }
}

/// The summary text a frame and its ordinal number yield.
pub open spec fn summary_text_spec(frame: Seq<u8>, number: int) -> Seq<char> {
    summary_chars(classify_spec(frame), number, frame.len() as int)
}

/// One classified frame: its ordinal number, its protocol class, and the
/// one-line text the display and the exporter use.
pub struct PacketSummary {
    pub number: u64,
    pub class: PacketClass,
    pub text: String,
}

fn read_be16(frame: &[u8], i: usize) -> (r: u16)
    requires
        i + 2 <= frame@.len(),
    ensures
        r == be16(frame@, i as int),
{
    let n = frame.len();
    assert(i + 2 <= n);
    (frame[i] as u16) * 256 + (frame[i + 1] as u16)
}

fn read_v4(frame: &[u8], i: usize) -> (r: V4Addr)
    requires
        i + 4 <= frame@.len(),
    ensures
        r == v4_at(frame@, i as int),
{
    let n = frame.len();
    assert(i + 4 <= n);
    V4Addr { o0: frame[i], o1: frame[i + 1], o2: frame[i + 2], o3: frame[i + 3] }
}

fn read_v6(frame: &[u8], i: usize) -> (r: V6Addr)
    requires
        i + 16 <= frame@.len(),
    ensures
        r == v6_at(frame@, i as int),
{
    let n = frame.len();
    assert(i + 16 <= n);
    V6Addr {
        g0: read_be16(frame, i),
        g1: read_be16(frame, i + 2),
        g2: read_be16(frame, i + 4),
        g3: read_be16(frame, i + 6),
        g4: read_be16(frame, i + 8),
        g5: read_be16(frame, i + 10),
        g6: read_be16(frame, i + 12),
        g7: read_be16(frame, i + 14),
    }
}

fn parse_v4_exec(frame: &[u8], off: usize) -> (c: PacketClass)
    requires
        off <= frame@.len(),
    ensures
        c == classify_v4(frame@.skip(off as int)),
{
    let ghost p = frame@.skip(off as int);
    let plen = frame.len() - off;
    if plen < 20 {
        return PacketClass::Unknown;
    }
    let first_byte = frame[off];
    proof {
        assert(first_byte & 0x0f <= 0x0f) by (bit_vector);
    }
    let ihl = (first_byte & 0x0f) as usize;
    if ihl < 5 || 4 * ihl > plen {
        return PacketClass::Unknown;
    }
    let hdr = 4 * ihl;
    let src = read_v4(frame, off + 12);
    let dst = read_v4(frame, off + 16);
    let proto = frame[off + 9];
    proof {
        assert(p.skip(4 * ihl as int) =~= frame@.skip(off + 4 * ihl as int));
    }
    let toff = off + hdr;
    let tlen = frame.len() - toff;
    let ghost t = p.skip(4 * ihl as int);
    if proto == 6 {
        if tlen < 20 {
            return PacketClass::Unknown;
        }
        PacketClass::V4Tcp {
            src,
            dst,
            sport: read_be16(frame, toff),
            dport: read_be16(frame, toff + 2),
            flags: frame[toff + 13],
        }
    } else if proto == 17 {
        if tlen < 8 {
            return PacketClass::Unknown;
        }
        PacketClass::V4Udp {
            src,
            dst,
            sport: read_be16(frame, toff),
            dport: read_be16(frame, toff + 2),
        }
    } else {
        PacketClass::Unknown
    }
}

fn parse_v6_exec(frame: &[u8], off: usize) -> (c: PacketClass)
    requires
        off <= frame@.len(),
    ensures
        c == classify_v6(frame@.skip(off as int)),
{
    let ghost p = frame@.skip(off as int);
    let plen = frame.len() - off;
    if plen < 40 {
        return PacketClass::Unknown;
    }
    let src = read_v6(frame, off + 8);
    let dst = read_v6(frame, off + 24);
    let proto = frame[off + 6];
    proof {
        assert(p.skip(40) =~= frame@.skip(off + 40));
    }
    let toff = off + 40;
    let tlen = frame.len() - toff;
    if proto == 6 {
        if tlen < 20 {
            return PacketClass::Unknown;
        }
        PacketClass::V6Tcp {
            src,
            dst,
            sport: read_be16(frame, toff),
            dport: read_be16(frame, toff + 2),
            flags: frame[toff + 13],
        }
    } else if proto == 17 {
        if tlen < 8 {
            return PacketClass::Unknown;
        }
        PacketClass::V6Udp {
            src,
            dst,
            sport: read_be16(frame, toff),
            dport: read_be16(frame, toff + 2),
        }
    } else {
        PacketClass::Unknown
    }
}

/// Classify a raw frame into its protocol class.
pub fn parse_class(frame: &[u8]) -> (c: PacketClass)
    ensures
        c == classify_spec(frame@),
{
    if frame.len() < 14 {
        return PacketClass::Unknown;
    }
    let ethertype = read_be16(frame, 12);
    if ethertype == 0x0800 {
        parse_v4_exec(frame, 14)
    } else if ethertype == 0x86DD {
        parse_v6_exec(frame, 14)
    } else {
        PacketClass::Unknown
    }
}

fn v4_text(a: V4Addr) -> (s: String)
    ensures
        s@ == v4_chars(a),
{
    let mut s = fmt_u64(a.o0 as u64);
    s.append(".");
    let o1 = fmt_u64(a.o1 as u64);
    s.append(o1.as_str());
    s.append(".");
    let o2 = fmt_u64(a.o2 as u64);
    s.append(o2.as_str());
    s.append(".");
    let o3 = fmt_u64(a.o3 as u64);
    s.append(o3.as_str());
    s
}

fn v6_text(a: V6Addr) -> (s: String)
    ensures
        s@ == v6_chars(a),
{
    let mut s = fmt_hex_group(a.g0);
    let g1 = fmt_hex_group(a.g1);
    let g2 = fmt_hex_group(a.g2);
    let g3 = fmt_hex_group(a.g3);
    let g4 = fmt_hex_group(a.g4);
    let g5 = fmt_hex_group(a.g5);
    let g6 = fmt_hex_group(a.g6);
    let g7 = fmt_hex_group(a.g7);
    s.append(":");
    s.append(g1.as_str());
    s.append(":");
    s.append(g2.as_str());
    s.append(":");
    s.append(g3.as_str());
    s.append(":");
    s.append(g4.as_str());
    s.append(":");
    s.append(g5.as_str());
    s.append(":");
    s.append(g6.as_str());
    s.append(":");
    s.append(g7.as_str());
    s
}

fn endpoint4_text(a: V4Addr, port: u16) -> (s: String)
    ensures
        s@ == endpoint4_chars(a, port as int),
{
    let mut s = v4_text(a);
    s.append(":");
    let p = fmt_u64(port as u64);
    s.append(p.as_str());
    s
}

fn endpoint6_text(a: V6Addr, port: u16) -> (s: String)
    ensures
        s@ == endpoint6_chars(a, port as int),
{
    let mut s = v6_text(a);
    s.append(":");
    let p = fmt_u64(port as u64);
    s.append(p.as_str());
    s
}

fn render_summary(c: &PacketClass, number: u64, len: usize) -> (s: String)
    ensures
        s@ == summary_chars(*c, number as int, len as int),
{
    let num = fmt_u64(number);
    let len_text = fmt_u64(len as u64);
    let mut s = String::from_str("[");
    s.append(num.as_str());
    match c {
        PacketClass::V4Tcp { src, dst, sport, dport, flags } => {
            s.append("] IPv4 TCP | SRC: ");
            let e1 = endpoint4_text(*src, *sport);
            s.append(e1.as_str());
            s.append(" | DST: ");
            let e2 = endpoint4_text(*dst, *dport);
            s.append(e2.as_str());
            s.append(" | FLAGS: ");
            let f = fmt_u64(*flags as u64);
            s.append(f.as_str());
            s.append(" | LEN: ");
            s.append(len_text.as_str());
        },
        PacketClass::V4Udp { src, dst, sport, dport } => {
            s.append("] IPv4 UDP | SRC: ");
            let e1 = endpoint4_text(*src, *sport);
            s.append(e1.as_str());
            s.append(" | DST: ");
            let e2 = endpoint4_text(*dst, *dport);
            s.append(e2.as_str());
            s.append(" | LEN: ");
            s.append(len_text.as_str());
        },
        PacketClass::V6Tcp { src, dst, sport, dport, flags } => {
            s.append("] IPv6 TCP | SRC: ");
            let e1 = endpoint6_text(*src, *sport);
            s.append(e1.as_str());
            s.append(" | DST: ");
            let e2 = endpoint6_text(*dst, *dport);
            s.append(e2.as_str());
            s.append(" | FLAGS: ");
            let f = fmt_u64(*flags as u64);
            s.append(f.as_str());
            s.append(" | LEN: ");
            s.append(len_text.as_str());
        },
        PacketClass::V6Udp { src, dst, sport, dport } => {
            s.append("] IPv6 UDP | SRC: ");
            let e1 = endpoint6_text(*src, *sport);
            s.append(e1.as_str());
            s.append(" | DST: ");
            let e2 = endpoint6_text(*dst, *dport);
            s.append(e2.as_str());
            s.append(" | LEN: ");
            s.append(len_text.as_str());
        },
        PacketClass::Unknown => {
            s.append("] Unknown Packet | LEN: ");
            s.append(len_text.as_str());
        },
    }
    s
}

/// Classify a raw frame and render its one-line summary. Total: every
/// input, however malformed or truncated, yields a summary.
pub fn classify(frame: &[u8], number: u64) -> (s: PacketSummary)
    ensures
        s.number == number,
        s.class == classify_spec(frame@),
        s.text@ == summary_text_spec(frame@, number as int),
{
    let class = parse_class(frame);
    let text = render_summary(&class, number, frame.len());
    PacketSummary { number, class, text }
}

/// The middle part of a three-way concatenation occurs in it.
proof fn lemma_concat_contains(a: Seq<char>, b: Seq<char>, c: Seq<char>)
    ensures
        contains_seq(a + b + c, b),
{
    let t = a + b + c;
    assert forall|j: int| 0 <= j < b.len() implies t[a.len() + j] == b[j] by {
        assert((a + b)[a.len() + j] == b[j]);
    }
    assert(matches_at(t, b, a.len() as int));
}

/// For a frame classified as Ethernet/IPv4/TCP, the summary contains the
/// source and destination `address:port` endpoints and the total frame
/// length in bytes.
pub proof fn lemma_v4_tcp_summary(
    frame: Seq<u8>,
    number: int,
    src: V4Addr,
    dst: V4Addr,
    sport: u16,
    dport: u16,
    flags: u8,
)
    requires
        classify_spec(frame) == (PacketClass::V4Tcp { src, dst, sport, dport, flags }),
    ensures
        contains_seq(summary_text_spec(frame, number), endpoint4_chars(src, sport as int)),
        contains_seq(summary_text_spec(frame, number), endpoint4_chars(dst, dport as int)),
        contains_seq(summary_text_spec(frame, number), "LEN: "@ + dec_chars(frame.len() as int)),
{
    let t = summary_text_spec(frame, number);
    let ep_src = endpoint4_chars(src, sport as int);
    let ep_dst = endpoint4_chars(dst, dport as int);
    let len_part = "LEN: "@ + dec_chars(frame.len() as int);
    let pre1 = "["@ + dec_chars(number) + "] IPv4 TCP | SRC: "@;
    let post1 = " | DST: "@ + ep_dst + " | FLAGS: "@ + dec_chars(flags as int) + " | LEN: "@
        + dec_chars(frame.len() as int);
    assert(t =~= pre1 + ep_src + post1);
    lemma_concat_contains(pre1, ep_src, post1);
    let pre2 = pre1 + ep_src + " | DST: "@;
    let post2 = " | FLAGS: "@ + dec_chars(flags as int) + " | LEN: "@ + dec_chars(
        frame.len() as int,
    );
    assert(t =~= pre2 + ep_dst + post2);
    lemma_concat_contains(pre2, ep_dst, post2);
    reveal_strlit(" | LEN: ");
    reveal_strlit(" | ");
    reveal_strlit("LEN: ");
    assert(" | LEN: "@ =~= " | "@ + "LEN: "@);
    let pre3 = pre2 + ep_dst + " | FLAGS: "@ + dec_chars(flags as int) + " | "@;
    assert(t =~= pre3 + len_part + Seq::<char>::empty());
    lemma_concat_contains(pre3, len_part, Seq::<char>::empty());
}

} // verus!
