//! The DNS query layer: a fixed-layout header followed by a
//! variable-length, length-prefixed label sequence naming the queried host.

use vstd::prelude::*;

use crate::parse::{Parse, ParseError};
use crate::wire;
use crate::{TxPacket, WriteOut};

verus! {

use vstd::slice::slice_subrange;
use vstd::string::StringExecFns;
use vstd::utf8::{decode_utf8, encode_utf8, valid_utf8};

broadcast use vstd::utf8::encode_utf8_valid_utf8, vstd::utf8::encode_utf8_decode_utf8;

/// The fields of the DNS header this layer decodes: the 16-bit id at bytes
/// `[0, 2)` and, inside the flags word at bytes `[2, 4)`, the query/response
/// bit (bit 15) and the opcode (bits `[11, 15)`).
#[derive(Debug, Clone, Copy, PartialEq, Eq, Structural)]
pub struct DnsHeader {
    pub id: u16,
    pub query_response: bool,
    pub opcode: DnsOpcode,
}

/// A DNS opcode. The named variants cover the assigned values 0 through 5;
/// every other wire value is data, not an error, and decodes to `Other` with
/// the raw bits.
#[allow(non_camel_case_types)]
#[derive(Debug, Clone, Copy, PartialEq, Eq, Structural)]
pub enum DnsOpcode {
    Query,
    Inverse_Query,
    Status,
    Reserved,
    Notify,
    Update,
    Other(u16),
}

/// A parsed DNS packet: the header and, for a basic query, the hostname
/// assembled from the query's labels (concatenated without separators).
#[derive(Debug, Clone)]
pub struct DnsPacket {
    pub header: DnsHeader,
    pub hostname: String,
}

impl PartialEq for DnsPacket {
    fn eq(&self, other: &DnsPacket) -> (r: bool) {
        self.header == other.header && self.hostname == other.hostname
    }
}

impl vstd::std_specs::cmp::PartialEqSpecImpl for DnsPacket {
    open spec fn obeys_eq_spec() -> bool {
        true
    }

    open spec fn eq_spec(&self, other: &DnsPacket) -> bool {
        self.header == other.header && self.hostname@ == other.hostname@
    }
}

/// The opcode a raw wire value decodes to.
pub open spec fn opcode_of(bits: u16) -> DnsOpcode {
    if bits == 0 {
        DnsOpcode::Query
    } else if bits == 1 {
        DnsOpcode::Inverse_Query
    } else if bits == 2 {
        DnsOpcode::Status
    } else if bits == 3 {
        DnsOpcode::Reserved
    } else if bits == 4 {
        DnsOpcode::Notify
    } else if bits == 5 {
        DnsOpcode::Update
    } else {
        DnsOpcode::Other(bits)
    }
}

/// The raw wire value of an opcode.
pub open spec fn opcode_bits(op: DnsOpcode) -> u16 {
    match op {
        DnsOpcode::Query => 0,
        DnsOpcode::Inverse_Query => 1,
        DnsOpcode::Status => 2,
        DnsOpcode::Reserved => 3,
        DnsOpcode::Notify => 4,
        DnsOpcode::Update => 5,
        DnsOpcode::Other(raw) => raw,
    }
}

/// An opcode as decoding produces it: the raw value of `Other` lies outside
/// the named range and inside the four opcode bits.
pub open spec fn opcode_canonical(op: DnsOpcode) -> bool {
    match op {
        DnsOpcode::Other(raw) => 6 <= raw <= 15,
        _ => true,
    }
}

/// The query/response bit of a flags word (bit 15).
pub open spec fn flags_qr(flags: u16) -> bool {
    (flags & 0x8000) != 0
}

/// The opcode bits of a flags word (bits `[11, 15)`).
pub open spec fn flags_opcode(flags: u16) -> u16 {
    ((flags << 1) >> 1) >> 11
}

/// The flags word a header encodes to: its query/response bit and the low
/// four bits of its opcode, in their wire positions. All other flag fields
/// are left zero.
pub open spec fn flags_word(h: DnsHeader) -> u16 {
    (if h.query_response {
        0x8000u16
    } else {
        0u16
    }) | ((opcode_bits(h.opcode) & 0xf) << 11)
}

/// The text one label contributes to the hostname: its bytes decoded as
/// UTF-8, or nothing when they are not valid UTF-8.
pub open spec fn label_text(bytes: Seq<u8>) -> Seq<char> {
    if valid_utf8(bytes) {
        decode_utf8(bytes)
    } else {
        Seq::<char>::empty()
    }
}

/// The hostname the label walk assembles from `data`, starting at the length
/// prefix at `pos`: labels are read and concatenated until a zero length
/// prefix, or until the byte after a label's implied end would lie at or past
/// the end of `data` (the walk then stops with the name read so far, never
/// reading past the end).
pub open spec fn spec_labels(data: Seq<u8>, pos: int) -> Seq<char>
    decreases data.len() - pos,
{
    if 0 <= pos < data.len() {
        let len = data[pos] as int;
        let next = pos + 1 + len;
        if len == 0 || next >= data.len() {
            Seq::<char>::empty()
        } else {
            label_text(data.subrange(pos + 1, next)) + spec_labels(data, next)
        }
    } else {
        Seq::<char>::empty()
    }
}

/// A label whose implied end reaches the end of the data, or past it, stops
/// the walk: nothing more is read, whatever the bytes hold.
pub proof fn lemma_label_walk_boundary(data: Seq<u8>, pos: int)
    requires
        0 <= pos < data.len(),
        pos + 1 + data[pos] >= data.len(),
    ensures
        spec_labels(data, pos) == Seq::<char>::empty(),
{
}

/// The question-name section of an encoded query: the hostname's bytes as a
/// single length-prefixed label (or nothing for an empty hostname), closed by
/// the zero length prefix that terminates the label sequence.
pub open spec fn name_section(hostname: Seq<char>) -> Seq<u8> {
    let b = encode_utf8(hostname);
    if b.len() == 0 {
        seq![0u8]
    } else {
        seq![b.len() as u8] + b + seq![0u8]
    }
}

/// The flags word of `header`, with every field this layer does not model
/// left zero.
fn encode_flags(header: &DnsHeader) -> (r: u16)
    ensures
        r == flags_word(*header),
{
    let qr: u16 = if header.query_response {
        0x8000
    } else {
        0
    };
    let op: u16 = match header.opcode {
        DnsOpcode::Query => 0,
        DnsOpcode::Inverse_Query => 1,
        DnsOpcode::Status => 2,
        DnsOpcode::Reserved => 3,
        DnsOpcode::Notify => 4,
        DnsOpcode::Update => 5,
        DnsOpcode::Other(raw) => raw,
    };
    qr | ((op & 0xf) << 11u16)
}

impl WriteOut for DnsPacket {
    /// The hostname's UTF-8 bytes must fit one length-prefixed label.
    open spec fn wf(&self) -> bool {
        encode_utf8(self.hostname@).len() <= 255
    }

    /// Twelve header bytes — id, flags, and four zero section counts — then
    /// the question-name section.
    open spec fn encoding(&self) -> Seq<u8> {
        wire::u16_be_bytes(self.header.id) + wire::u16_be_bytes(flags_word(self.header))
            + seq![0u8, 0u8, 0u8, 0u8, 0u8, 0u8, 0u8, 0u8] + name_section(self.hostname@)
    }

    fn len(&self) -> (r: usize) {
        let name_len = self.hostname.as_str().as_bytes().len();
        if name_len == 0 {
            13
        } else {
            14 + name_len
        }
    }

    fn write_out(&self, packet: &mut TxPacket) -> (r: Result<(), ()>) {
        if let Err(()) = packet.push_u16(self.header.id) {
            return Err(());
        }
        let flags = encode_flags(&self.header);
        if let Err(()) = packet.push_u16(flags) {
            return Err(());
        }
        let counts = vec![0u8, 0u8, 0u8, 0u8, 0u8, 0u8, 0u8, 0u8];
        if let Err(()) = packet.push_bytes(counts.as_slice()) {
            return Err(());
        }
        let name = self.hostname.as_str().as_bytes();
        if name.len() == 0 {
            if let Err(()) = packet.push_byte(0) {
                return Err(());
            }
        } else {
            if let Err(()) = packet.push_byte(name.len() as u8) {
                return Err(());
            }
            if let Err(()) = packet.push_bytes(name) {
                return Err(());
            }
            if let Err(()) = packet.push_byte(0) {
                return Err(());
            }
        }
        proof {
            assert(packet.bytes() =~= old(packet).bytes() + self.encoding());
        }
        Ok(())
    }
}

impl Parse for DnsPacket {
    /// The fixed-width reads must fit: four header bytes always, and the
    /// first label length byte at offset 12 when the opcode asks for the
    /// query to be parsed.
    open spec fn parse_ok(data: Seq<u8>) -> bool {
        &&& data.len() >= 4
        &&& opcode_of(flags_opcode(wire::read_u16_at(data, 2))) == DnsOpcode::Query
            ==> data.len() >= 13
    }

    /// The parsed fields are exactly what the wire layout pins down: the id
    /// at bytes `[0, 2)`, the query/response bit and opcode from the flags
    /// word at bytes `[2, 4)`, and, for a query, the hostname from the label
    /// walk starting at offset 12; for every other opcode the hostname is
    /// empty.
    open spec fn models(self, data: Seq<u8>) -> bool {
        let flags = wire::read_u16_at(data, 2);
        &&& self.header.id == wire::read_u16_at(data, 0)
        &&& self.header.query_response == flags_qr(flags)
        &&& self.header.opcode == opcode_of(flags_opcode(flags))
        &&& self.hostname@ == if opcode_of(flags_opcode(flags)) == DnsOpcode::Query {
            spec_labels(data, 12)
        } else {
            Seq::<char>::empty()
        }
    }

    open spec fn parse_fail(data: Seq<u8>) -> ParseError {
        ParseError::Truncated
    }

    fn parse(data: &[u8]) -> (r: Result<Self, ParseError>) {
        if data.len() < 4 {
            return Err(ParseError::Truncated);
        }
        let id = wire::be_read_u16(slice_subrange(data, 0, 2));
        let flags = wire::be_read_u16(slice_subrange(data, 2, 4));
        let query_response = wire::u16_get_bit(flags, 15);
        proof {
            assert((flags & (1u16 << 15u16)) == (flags & 0x8000u16)) by (bit_vector);
        }
        let opcode_raw = wire::u16_get_bits(flags, 11, 15);
        let opcode = match opcode_raw {
            0 => DnsOpcode::Query,
            1 => DnsOpcode::Inverse_Query,
            2 => DnsOpcode::Status,
            3 => DnsOpcode::Reserved,
            4 => DnsOpcode::Notify,
            5 => DnsOpcode::Update,
            other => DnsOpcode::Other(other),
        };
        let mut hostname = String::new();
        if opcode == DnsOpcode::Query {
            if data.len() < 13 {
                return Err(ParseError::Truncated);
            }
            let mut label_length: usize = data[12] as usize;
            let mut label_pointer: usize = 13;
            while label_length != 0 && label_length < data.len() - label_pointer
                invariant
                    data@.len() >= 13,
                    13 <= label_pointer <= data@.len(),
                    label_length == data@[label_pointer - 1] as usize,
                    hostname@ + spec_labels(data@, label_pointer - 1) == spec_labels(
                        data@,
                        12,
                    ),
                decreases data@.len() - label_pointer,
            {
                let next = label_pointer + label_length;
                let label = slice_subrange(data, label_pointer, next);
                let ghost rest = spec_labels(data@, next as int);
                proof {
                    assert(spec_labels(data@, label_pointer - 1) == label_text(label@)
                        + rest);
                }
                match wire::utf8_str(label) {
                    Some(text) => {
                        proof {
                            assert(label_text(label@) == text@);
                            assert((hostname@ + text@) + rest =~= hostname@ + (text@
                                + rest));
                        }
                        hostname.append(text);
                    },
                    None => {
                        proof {
                            assert(label_text(label@) =~= Seq::<char>::empty());
                            assert(hostname@ + Seq::<char>::empty() =~= hostname@);
                        }
                    },
                }
                label_length = data[next] as usize;
                label_pointer = next + 1;
            }
            proof {
                assert(spec_labels(data@, label_pointer - 1) == Seq::<char>::empty());
                assert(hostname@ + Seq::<char>::empty() =~= hostname@);
            }
        }
        Ok(DnsPacket { header: DnsHeader { id, query_response, opcode }, hostname })
    }
}

/// Round trip: parsing a packet's own encoding restores every field this
/// layer round-trips — the id, the query/response bit, the opcode and the
/// decoded hostname. It holds for every packet whose hostname fits one label,
/// whose opcode is one decoding can produce, and whose hostname is empty
/// unless the opcode is `Query` (parsing reads no hostname for the others).
pub proof fn lemma_round_trip(p: DnsPacket)
    requires
        p.wf(),
        opcode_canonical(p.header.opcode),
        p.header.opcode == DnsOpcode::Query || p.hostname@ == Seq::<char>::empty(),
    ensures
        DnsPacket::parse_ok(p.encoding()),
        p.models(p.encoding()),
{
    let enc = p.encoding();
    let h = p.header;
    let ob = opcode_bits(h.opcode);
    let w = flags_word(h);
    let b = encode_utf8(p.hostname@);

    // The header bytes sit at their fixed offsets.
    assert(enc[0] == wire::u16_hi(h.id));
    assert(enc[1] == wire::u16_lo(h.id));
    assert(enc[2] == wire::u16_hi(w));
    assert(enc[3] == wire::u16_lo(w));
    wire::lemma_u16_be_round_trip(h.id);
    wire::lemma_u16_be_round_trip(w);
    assert(wire::read_u16_at(enc, 0) == h.id);
    assert(wire::read_u16_at(enc, 2) == w);

    // The query/response bit and the opcode bits come back out of the flags
    // word they were packed into.
    if h.query_response {
        assert((0x8000u16 | ((ob & 0xf) << 11u16)) & 0x8000u16 != 0) by (bit_vector);
        assert((((0x8000u16 | ((ob & 0xf) << 11u16)) << 1u16) >> 1u16) >> 11u16 == (ob
            & 0xf)) by (bit_vector);
    } else {
        assert((0u16 | ((ob & 0xf) << 11u16)) & 0x8000u16 == 0) by (bit_vector);
        assert((((0u16 | ((ob & 0xf) << 11u16)) << 1u16) >> 1u16) >> 11u16 == (ob & 0xf))
            by (bit_vector);
    }
    assert(flags_qr(w) == h.query_response);
    assert(flags_opcode(w) == (ob & 0xf));
    assert(ob <= 15u16 ==> (ob & 0xf) == ob) by (bit_vector);
    assert(opcode_of(flags_opcode(w)) == h.opcode);

    // The label walk over the name section reads the hostname back.
    if b.len() == 0 {
        assert(enc[12] == 0);
        assert(spec_labels(enc, 12) =~= Seq::<char>::empty());
        assert(p.hostname@ =~= Seq::<char>::empty());
    } else {
        let n = b.len() as int;
        assert(enc[12] == n as u8);
        assert((n as u8) as int == n);
        assert(enc.subrange(13, 13 + n) =~= b);
        assert(enc[13 + n] == 0);
        assert(spec_labels(enc, 13 + n) =~= Seq::<char>::empty());
        assert(spec_labels(enc, 12) == label_text(b) + spec_labels(enc, 13 + n));
        assert(label_text(b) + Seq::<char>::empty() =~= label_text(b));
        assert(label_text(b) == p.hostname@);
        assert(h.opcode == DnsOpcode::Query);
    }
    assert(DnsPacket::parse_ok(enc));
}

} // verus!
