//! Reads the pkt-lines a Git client sends into commands.
//!
//! Every packet starts with four hexadecimal digits giving its length, the
//! four digits included. A length of `0000` (flush) ends a command; `0001`
//! and `0002` are markers that carry nothing. The first non-empty packet of a
//! command is the command itself, every later packet one line of metadata.
use vstd::prelude::*;
use vstd::slice::{slice_subrange, slice_to_vec};
use vstd::utf8::{partial_valid_utf8, partial_valid_utf8_extend_ascii_block, valid_utf8};

use crate::git::{length_field, marker};
use crate::text::{hex_char, hex_padded};

verus! {

/// The largest length a packet may announce.
pub const MAX_PACKET_LENGTH: usize = 65520;

/// Why a buffer could not be read.
#[derive(Clone, Copy, PartialEq, Eq, Structural, Debug)]
pub enum DecodeError {
    /// The four length bytes are not UTF-8.
    InvalidUtf8,
    /// The four length bytes are not a hexadecimal number.
    InvalidLength,
    /// The announced length is neither a marker nor between 4 and 65520.
    ProtocolAbuse,
}

/// One command sent by the client, with the lines that follow it.
#[derive(Debug, PartialEq, Eq)]
pub struct GitCommand {
    pub command: Vec<u8>,
    pub metadata: Vec<Vec<u8>>,
}

impl GitCommand {
    /// The command and its metadata as byte sequences.
    pub open spec fn view_parts(&self) -> (Seq<u8>, Seq<Seq<u8>>) {
        (self.command@, self.metadata@.map_values(|m: Vec<u8>| m@))
    }
}

/// The value of an ASCII hexadecimal digit.
pub open spec fn hex_value(b: u8) -> Option<int> {
    if 48 <= b <= 57 {
        Some(b - 48)
    } else if 97 <= b <= 102 {
        Some(b - 87)
    } else if 65 <= b <= 70 {
        Some(b - 55)
    } else {
        None
    }
}

/// The number written by a run of hexadecimal digits (0 for no digits).
pub open spec fn hex_number(digits: Seq<u8>) -> Option<int>
    decreases digits.len(),
{
    if digits.len() == 0 {
        Some(0)
    } else {
        match (hex_number(digits.drop_last()), hex_value(digits.last())) {
            (Some(high), Some(low)) => Some(high * 16 + low),
            _ => None,
        }
    }
}

/// A base-16 unsigned number as std's `from_str_radix` reads it: an optional
/// `+`, then one or more digits.
pub open spec fn parse_radix16(field: Seq<u8>) -> Option<int> {
    if field.len() == 0 {
        None
    } else if field[0] == 43 {
        if field.len() == 1 {
            None
        } else {
            hex_number(field.drop_first())
        }
    } else {
        hex_number(field)
    }
}

/// The length announced by the four bytes `field`.
pub open spec fn packet_length(field: Seq<u8>) -> Result<int, DecodeError> {
    if !valid_utf8(field) {
        Err(DecodeError::InvalidUtf8)
    } else {
        match parse_radix16(field) {
            None => Err(DecodeError::InvalidLength),
            Some(n) => Ok(n),
        }
    }
}

/// What reading a buffer gives: the command read (if a flush was reached), or
/// an error; the command being built afterwards; and the bytes left unread.
pub struct DecodeOutcome {
    pub result: Result<Option<(Seq<u8>, Seq<Seq<u8>>)>, DecodeError>,
    pub command: Seq<u8>,
    pub metadata: Seq<Seq<u8>>,
    pub rest: Seq<u8>,
}

/// Reads packets from `src` into the command being built (`command` and
/// `metadata`) until a flush, an error, or a packet that is not complete yet.
pub open spec fn decode_spec(command: Seq<u8>, metadata: Seq<Seq<u8>>, src: Seq<u8>) -> DecodeOutcome
    decreases src.len(),
{
    if src.len() < 4 {
        DecodeOutcome { result: Ok(None), command, metadata, rest: src }
    } else {
        match packet_length(src.take(4)) {
            Err(e) => DecodeOutcome { result: Err(e), command, metadata, rest: src },
            Ok(len) => if len == 0 {
                DecodeOutcome {
                    result: Ok(Some((command, metadata))),
                    command: seq![],
                    metadata: seq![],
                    rest: src.skip(4),
                }
            } else if len == 1 || len == 2 {
                decode_spec(command, metadata, src.skip(4))
            } else if !(4 <= len <= 65520) {
                DecodeOutcome { result: Err(DecodeError::ProtocolAbuse), command, metadata, rest: src }
            } else if src.len() < len {
                DecodeOutcome { result: Ok(None), command, metadata, rest: src }
            } else {
                let data = src.subrange(4, len);
                if command.len() == 0 {
                    decode_spec(data, metadata, src.skip(len))
                } else {
                    decode_spec(command, metadata.push(data), src.skip(len))
                }
            },
        }
    }
}

/// The value of an ASCII hexadecimal digit.
fn hex_digit_value(b: u8) -> (r: Option<u16>)
    ensures
        match hex_value(b) {
            Some(v) => r == Some(v as u16),
            None => r is None,
        },
{
    if 48 <= b && b <= 57 {
        Some((b - 48) as u16)
    } else if 97 <= b && b <= 102 {
        Some((b - 87) as u16)
    } else if 65 <= b && b <= 70 {
        Some((b - 55) as u16)
    } else {
        None
    }
}

/// A run of at most four hexadecimal digits stays below 16 to the power of
/// its length.
proof fn lemma_hex_number_bound(digits: Seq<u8>)
    ensures
        hex_number(digits) matches Some(n) ==> 0 <= n && (digits.len() <= 4 ==> n < 65536)
            && (digits.len() <= 3 ==> n < 4096) && (digits.len() <= 2 ==> n < 256) && (
        digits.len() <= 1 ==> n < 16),
    decreases digits.len(),
{
    if digits.len() > 0 {
        lemma_hex_number_bound(digits.drop_last());
    }
}

/// Reads the digits `field[start..]` as a hexadecimal number.
fn read_hex(field: &[u8], start: usize) -> (r: Option<u16>)
    requires
        start <= field@.len() <= 4,
    ensures
        match hex_number(field@.skip(start as int)) {
            Some(n) => r == Some(n as u16),
            None => r is None,
        },
{
    let mut value: u16 = 0;
    let mut i: usize = start;
    while i < field.len()
        invariant
            start <= i <= field@.len() <= 4,
            hex_number(field@.subrange(start as int, i as int)) == Some(value as int),
        decreases field@.len() - i,
    {
        let d = hex_digit_value(field[i]);
        assert(field@.subrange(start as int, i + 1).drop_last() =~= field@.subrange(
            start as int,
            i as int,
        ));
        match d {
            None => {
                proof {
                    lemma_hex_prefix_invalid(field@.skip(start as int), (i + 1 - start) as int);
                    assert(field@.skip(start as int).take((i + 1 - start) as int) =~= field@.subrange(
                        start as int,
                        i + 1,
                    ));
                }
                return None;
            },
            Some(v) => {
                proof {
                    lemma_hex_number_bound(field@.subrange(start as int, i + 1));
                }
                value = value * 16 + v;
            },
        }
        i = i + 1;
    }
    assert(field@.subrange(start as int, i as int) =~= field@.skip(start as int));
    Some(value)
}

/// A run of digits with an invalid prefix is invalid.
proof fn lemma_hex_prefix_invalid(digits: Seq<u8>, k: int)
    requires
        0 <= k <= digits.len(),
        hex_number(digits.take(k)) is None,
    ensures
        hex_number(digits) is None,
    decreases digits.len() - k,
{
    if k < digits.len() {
        assert(digits.take(k + 1).drop_last() =~= digits.take(k));
        lemma_hex_prefix_invalid(digits, k + 1);
    } else {
        assert(digits.take(k) =~= digits);
    }
}

/// Reads the length announced by four bytes.
pub fn parse_packet_length(field: &[u8]) -> (r: Result<u16, DecodeError>)
    requires
        field@.len() == 4,
    ensures
        match packet_length(field@) {
            Ok(n) => r == Ok::<u16, DecodeError>(n as u16) && 0 <= n < 65536,
            Err(e) => r == Err::<u16, DecodeError>(e),
        },
{
    if crate::text::str_from_utf8(field).is_none() {
        return Err(DecodeError::InvalidUtf8);
    }
    let r = if field[0] == 43u8 {
        assert(field@.drop_first() =~= field@.skip(1));
        read_hex(field, 1)
    } else {
        assert(field@ =~= field@.skip(0));
        read_hex(field, 0)
    };
    proof {
        lemma_hex_number_bound(field@);
        lemma_hex_number_bound(field@.drop_first());
    }
    match r {
        Some(n) => Ok(n),
        None => Err(DecodeError::InvalidLength),
    }
}

/// Reads pkt-lines into commands, keeping the command being built between
/// calls.
pub struct GitCodec {
    command: GitCommand,
}

impl GitCodec {
    /// The command being built, as byte sequences.
    pub closed spec fn pending(&self) -> (Seq<u8>, Seq<Seq<u8>>) {
        self.command.view_parts()
    }

    /// A codec with no command in progress.
    pub fn new() -> (r: GitCodec)
        ensures
            r.pending() == (Seq::<u8>::empty(), Seq::<Seq<u8>>::empty()),
    {
        let r = GitCodec { command: GitCommand { command: Vec::new(), metadata: Vec::new() } };
        assert(r.pending().1 =~= Seq::<Seq<u8>>::empty());
        r
    }

    /// Reads the packets at the front of `src`, removing what it read.
    ///
    /// Returns the command once a flush packet ends it, `None` when `src`
    /// runs out before that, or an error for a malformed length; the command
    /// read so far is kept for the next call.
    #[verifier::rlimit(30)]
    pub fn decode(&mut self, src: &mut Vec<u8>) -> (r: Result<Option<GitCommand>, DecodeError>)
        ensures
            ({
                let out = decode_spec(old(self).pending().0, old(self).pending().1, old(src)@);
                &&& final(src)@ == out.rest
                &&& final(self).pending() == (out.command, out.metadata)
                &&& match out.result {
                    Ok(Some(parts)) => r matches Ok(Some(c)) && c.view_parts() == parts,
                    Ok(None) => r == Ok::<Option<GitCommand>, DecodeError>(None),
                    Err(e) => r == Err::<Option<GitCommand>, DecodeError>(e),
                }
            }),
    {
        let ghost start_command = self.pending().0;
        let ghost start_metadata = self.pending().1;
        let ghost whole = src@;
        let mut pos: usize = 0;
        assert(whole.skip(0) =~= whole);
        loop
            invariant
                pos <= src@.len(),
                src@ == whole,
                whole == old(src)@,
                start_command == old(self).pending().0,
                start_metadata == old(self).pending().1,
                decode_spec(start_command, start_metadata, whole) == decode_spec(
                    self.pending().0,
                    self.pending().1,
                    whole.skip(pos as int),
                ),
            decreases src@.len() - pos,
        {
            let ghost here = whole.skip(pos as int);
            assert(here.len() == src@.len() - pos);
            if src.len() - pos < 4 {
                let rest = src.split_off(pos);
                *src = rest;
                assert(src@ =~= here);
                assert(decode_spec(self.pending().0, self.pending().1, here).rest == here);
                return Ok(None);
            }
            let field = slice_subrange(src.as_slice(), pos, pos + 4);
            assert(field@ =~= here.take(4));
            let length = match parse_packet_length(field) {
                Err(e) => {
                    let rest = src.split_off(pos);
                    *src = rest;
                    assert(src@ =~= here);
                    return Err(e);
                },
                Ok(n) => n as usize,
            };
            if length == 0 {
                let rest = src.split_off(pos + 4);
                *src = rest;
                assert(src@ =~= here.skip(4));
                let ghost parts = self.pending();
                let mut command = GitCommand { command: Vec::new(), metadata: Vec::new() };
                std::mem::swap(&mut command, &mut self.command);
                assert(command.view_parts() == parts);
                assert(self.pending().1 =~= Seq::<Seq<u8>>::empty());
                return Ok(Some(command));
            } else if length == 1 || length == 2 {
                assert(here.skip(4) =~= whole.skip(pos + 4));
                pos = pos + 4;
            } else if length < 4 || length > MAX_PACKET_LENGTH {
                let rest = src.split_off(pos);
                *src = rest;
                assert(src@ =~= here);
                return Err(DecodeError::ProtocolAbuse);
            } else if src.len() - pos < length {
                let rest = src.split_off(pos);
                *src = rest;
                assert(src@ =~= here);
                assert(decode_spec(self.pending().0, self.pending().1, here).rest == here);
                return Ok(None);
            } else {
                let data = slice_to_vec(slice_subrange(src.as_slice(), pos + 4, pos + length));
                assert(data@ =~= here.subrange(4, length as int));
                assert(here.skip(length as int) =~= whole.skip(pos + length));
                if self.command.command.len() == 0 {
                    self.command.command = data;
                } else {
                    let ghost before = self.pending().1;
                    self.command.metadata.push(data);
                    assert(self.pending().1 =~= before.push(data@));
                }
                pos = pos + length;
            }
        }
    }
}

impl Default for GitCodec {
    /// A codec with no command in progress.
    fn default() -> (r: GitCodec)
        ensures
            r.pending() == (Seq::<u8>::empty(), Seq::<Seq<u8>>::empty()),
    {
        GitCodec::new()
    }
}


/// The bytes of data packets holding each of `lines` in turn.
pub open spec fn data_packets(lines: Seq<Seq<u8>>) -> Seq<u8>
    decreases lines.len(),
{
    if lines.len() == 0 {
        seq![]
    } else {
        length_field(lines[0].len()) + lines[0] + data_packets(lines.drop_first())
    }
}

/// A hexadecimal digit reads back as its value.
proof fn lemma_hex_char_value(d: int)
    requires
        0 <= d < 16,
    ensures
        hex_value(hex_char(d)) == Some(d),
        hex_char(d) != 43,
        hex_char(d) < 128,
{
}

/// Four hexadecimal digits written for `n` read back as `n`.
proof fn lemma_length_field_reads_back(n: nat)
    requires
        n < 65536,
    ensures
        hex_padded(n, 4).len() == 4,
        packet_length(hex_padded(n, 4)) == Ok::<int, DecodeError>(n as int),
{
    let d0 = n % 16;
    let n1 = n / 16;
    let d1 = n1 % 16;
    let n2 = n1 / 16;
    let d2 = n2 % 16;
    let n3 = n2 / 16;
    assert(n3 < 16);
    assert(hex_padded(n3, 1) == seq![hex_char(n3 as int)]);
    assert(hex_padded(n2, 2) == hex_padded(n3, 1) + seq![hex_char(d2 as int)]);
    assert(hex_padded(n1, 3) == hex_padded(n2, 2) + seq![hex_char(d1 as int)]);
    assert(hex_padded(n, 4) == hex_padded(n1, 3) + seq![hex_char(d0 as int)]);
    let field = hex_padded(n, 4);
    assert(field =~= seq![
        hex_char(n3 as int),
        hex_char(d2 as int),
        hex_char(d1 as int),
        hex_char(d0 as int),
    ]);
    lemma_hex_char_value(n3 as int);
    lemma_hex_char_value(d2 as int);
    lemma_hex_char_value(d1 as int);
    lemma_hex_char_value(d0 as int);
    assert(field.take(1).drop_last() =~= Seq::<u8>::empty());
    assert(field.take(2).drop_last() =~= field.take(1));
    assert(field.take(3).drop_last() =~= field.take(2));
    assert(field.drop_last() =~= field.take(3));
    assert(hex_number(Seq::<u8>::empty()) == Some(0int));
    assert(field.take(1).last() == field[0]);
    assert(field.take(2).last() == field[1]);
    assert(field.take(3).last() == field[2]);
    assert(hex_number(field.take(1)) == Some(n3 as int));
    assert(hex_number(field.take(2)) == Some(n2 as int));
    assert(hex_number(field.take(3)) == Some(n1 as int));
    assert(hex_number(field) == Some(n as int));
    assert forall|i: int| 0 <= 0 <= i < 4 <= field.len() implies #[trigger] vstd::utf8::is_leading_byte_width_1(field[i]) by {}
    assert(field.subrange(0, 0) =~= Seq::<u8>::empty());
    assert(partial_valid_utf8(field, 0));
    partial_valid_utf8_extend_ascii_block(field, 0, 4);
    assert(field.subrange(0, 4) =~= field);
}

/// Reading a data packet whose length is acceptable appends its payload to
/// the command being built and continues after it.
proof fn lemma_decode_data_packet(
    command: Seq<u8>,
    metadata: Seq<Seq<u8>>,
    line: Seq<u8>,
    tail: Seq<u8>,
)
    requires
        line.len() + 4 <= 65520,
    ensures
        decode_spec(command, metadata, length_field(line.len()) + line + tail) == (if command.len()
            == 0 {
            decode_spec(line, metadata, tail)
        } else {
            decode_spec(command, metadata.push(line), tail)
        }),
{
    let n = line.len() + 4;
    lemma_length_field_reads_back(n);
    let src = length_field(line.len()) + line + tail;
    assert(src.take(4) =~= hex_padded(n, 4));
    assert(src.subrange(4, n as int) =~= line);
    assert(src.skip(n as int) =~= tail);
}

/// Reading the packets of a command followed by its metadata lines and a
/// flush gives back the command and the lines, and leaves what followed.
pub proof fn lemma_command_round_trip(command: Seq<u8>, metadata: Seq<Seq<u8>>, rest: Seq<u8>)
    requires
        command.len() > 0,
        command.len() + 4 <= MAX_PACKET_LENGTH,
        forall|i: int| 0 <= i < metadata.len() ==> #[trigger] metadata[i].len() + 4 <= MAX_PACKET_LENGTH,
    ensures
        decode_spec(
            seq![],
            seq![],
            data_packets(seq![command] + metadata) + marker(0) + rest,
        ) == (DecodeOutcome {
            result: Ok(Some((command, metadata))),
            command: seq![],
            metadata: seq![],
            rest,
        }),
{
    let lines = seq![command] + metadata;
    assert(lines.drop_first() =~= metadata);
    let tail = data_packets(metadata) + marker(0) + rest;
    assert(data_packets(lines) + marker(0) + rest =~= length_field(command.len()) + command + tail);
    lemma_decode_data_packet(seq![], seq![], command, tail);
    lemma_metadata_packets(command, seq![], metadata, marker(0) + rest);
    assert(data_packets(metadata) + marker(0) + rest =~= data_packets(metadata) + (marker(0) + rest));
    assert(seq![] + metadata =~= metadata);
    let end = marker(0) + rest;
    assert(end.take(4) =~= marker(0));
    assert(end.skip(4) =~= rest);
    assert(packet_length(marker(0)) == Ok::<int, DecodeError>(0)) by {
        lemma_length_field_reads_back(0);
        assert(hex_padded(0, 4) =~= marker(0)) by {
            assert(hex_padded(0, 1) == seq![48u8]);
            assert(hex_padded(0, 2) == hex_padded(0, 1) + seq![48u8]);
            assert(hex_padded(0, 3) == hex_padded(0, 2) + seq![48u8]);
            assert(hex_padded(0, 4) == hex_padded(0, 3) + seq![48u8]);
        }
    }
}

/// Reading data packets after a non-empty command appends each of them to
/// the metadata.
proof fn lemma_metadata_packets(
    command: Seq<u8>,
    before: Seq<Seq<u8>>,
    lines: Seq<Seq<u8>>,
    tail: Seq<u8>,
)
    requires
        command.len() > 0,
        forall|i: int| 0 <= i < lines.len() ==> #[trigger] lines[i].len() + 4 <= MAX_PACKET_LENGTH,
    ensures
        decode_spec(command, before, data_packets(lines) + tail) == decode_spec(
            command,
            before + lines,
            tail,
        ),
    decreases lines.len(),
{
    if lines.len() == 0 {
        assert(data_packets(lines) + tail =~= tail);
        assert(before + lines =~= before);
    } else {
        let first = lines[0];
        let others = lines.drop_first();
        assert(lines[0].len() + 4 <= MAX_PACKET_LENGTH);
        assert forall|i: int| 0 <= i < others.len() implies #[trigger] others[i].len() + 4
            <= MAX_PACKET_LENGTH by {
            assert(others[i] == lines[i + 1]);
        }
        let after = data_packets(others) + tail;
        assert(data_packets(lines) + tail =~= length_field(first.len()) + first + after);
        lemma_decode_data_packet(command, before, first, after);
        lemma_metadata_packets(command, before.push(first), others, tail);
        assert(before.push(first) + others =~= before + lines);
    }
}

/// Writes packets into a buffer, one after another.
pub struct Encoder;

impl Encoder {
    /// Appends the packet `item` to `dst`.
    pub fn encode(&mut self, item: super::PktLine, dst: &mut Vec<u8>)
        requires
            super::pkt_line_fits(item),
        ensures
            final(dst)@ == old(dst)@ + super::pkt_line_bytes(item),
    {
        item.encode_to(dst);
    }
}

} // verus!
