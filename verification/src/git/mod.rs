//! The Git wire protocol: pkt-line framing of what the server sends and reads.
pub mod codec;
pub mod config;
pub mod repository;
pub mod server;
pub mod tree;

use vstd::prelude::*;

use crate::text::{hex_padded, push_hex_padded};
use vstd::string::StringSliceAdditionalSpecFns;

verus! {

/// A packet sent to the client. Every packet the server sends is a `PktLine`.
pub enum PktLine<'a> {
    /// A line of data.
    Data(&'a [u8]),
    /// A block of an encoded packfile, sent on side-band 1.
    SidebandData(&'a [u8]),
    /// A status message for the user, sent on side-band 2.
    SidebandMsg(&'a [u8]),
    /// `0000`: the end of a message.
    Flush,
    /// `0001`: separates the sections of a message.
    Delimiter,
    /// `0002`: the end of a response.
    ResponseEnd,
}

/// The bytes of a marker packet whose length field is `000n`.
pub open spec fn marker(n: u8) -> Seq<u8> {
    seq![48u8, 48u8, 48u8, (48 + n) as u8]
}

/// The four-digit (or longer) length field announcing `payload_len` bytes
/// after it.
pub open spec fn length_field(payload_len: nat) -> Seq<u8> {
    hex_padded(payload_len + 4, 4)
}

/// The bytes a packet is written as.
pub open spec fn pkt_line_bytes(p: PktLine) -> Seq<u8> {
    match p {
        PktLine::Data(data) => length_field(data@.len()) + data@,
        PktLine::SidebandData(packfile) => length_field(packfile@.len() + 1) + seq![1u8]
            + packfile@,
        PktLine::SidebandMsg(msg) => length_field(msg@.len() + 1) + seq![2u8] + msg@,
        PktLine::Flush => marker(0),
        PktLine::Delimiter => marker(1),
        PktLine::ResponseEnd => marker(2),
    }
}

/// Whether the length field of a packet fits in a `usize`.
pub open spec fn pkt_line_fits(p: PktLine) -> bool {
    match p {
        PktLine::Data(data) => data@.len() + 4 <= usize::MAX,
        PktLine::SidebandData(packfile) => packfile@.len() + 5 <= usize::MAX,
        PktLine::SidebandMsg(msg) => msg@.len() + 5 <= usize::MAX,
        _ => true,
    }
}

fn push_marker(buf: &mut Vec<u8>, n: u8)
    requires
        n < 3,
    ensures
        final(buf)@ == old(buf)@ + marker(n),
{
    buf.push(48u8);
    buf.push(48u8);
    buf.push(48u8);
    buf.push(48u8 + n);
}

pub(crate) fn push_all(buf: &mut Vec<u8>, data: &[u8])
    ensures
        final(buf)@ == old(buf)@ + data@,
{
    let ghost start = buf@;
    let mut i: usize = 0;
    while i < data.len()
        invariant
            i <= data@.len(),
            buf@ == start + data@.take(i as int),
        decreases data@.len() - i,
    {
        buf.push(data[i]);
        assert(data@.take(i + 1) =~= data@.take(i as int).push(data@[i as int]));
        i = i + 1;
    }
    assert(data@.take(i as int) =~= data@);
}

impl<'a> PktLine<'a> {
    /// Appends the packet to `buf`.
    pub fn encode_to(&self, buf: &mut Vec<u8>)
        requires
            pkt_line_fits(*self),
        ensures
            final(buf)@ == old(buf)@ + pkt_line_bytes(*self),
    {
        let ghost start = buf@;
        match self {
            PktLine::Data(data) => {
                push_hex_padded(buf, data.len() + 4, 4);
                push_all(buf, data);
                assert(buf@ =~= start + pkt_line_bytes(*self));
            },
            PktLine::SidebandData(packfile) => {
                push_hex_padded(buf, packfile.len() + 1 + 4, 4);
                buf.push(1u8);
                push_all(buf, packfile);
                assert(buf@ =~= start + pkt_line_bytes(*self));
            },
            PktLine::SidebandMsg(msg) => {
                push_hex_padded(buf, msg.len() + 4 + 1, 4);
                buf.push(2u8);
                push_all(buf, msg);
                assert(buf@ =~= start + pkt_line_bytes(*self));
            },
            PktLine::Flush => push_marker(buf, 0),
            PktLine::Delimiter => push_marker(buf, 1),
            PktLine::ResponseEnd => push_marker(buf, 2),
        }
    }

    /// A data packet holding the bytes of `val`.
    pub fn from_str(val: &'a str) -> (r: PktLine<'a>)
        ensures
            r matches PktLine::Data(d) && d@ == val.spec_bytes(),
    {
        PktLine::Data(val.as_bytes())
    }
}

} // verus!
