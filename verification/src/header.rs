//! The 16-bit advertising-channel PDU header.

use vstd::prelude::*;

use crate::pdu_type::PduType;

verus! {

/// 16-bit advertising-channel PDU header preceding the payload.
///
/// Layout, least-significant bit first:
///
/// ```text
/// LSB                                                                     MSB
/// +------------+------------+---------+---------+--------------+------------+
/// |  PDU Type  |  reserved  |  TxAdd  |  RxAdd  |    Length    |  reserved  |
/// |  (4 bits)  |  (2 bits)  | (1 bit) | (1 bit) |   (6 bits)   |  (2 bits)  |
/// +------------+------------+---------+---------+--------------+------------+
/// ```
///
/// `TxAdd` and `RxAdd` are only meaningful for some payloads; for all others
/// they should be left clear. The length, once set through the normal API,
/// lies in the range 6 to 37 inclusive; together with the 2-byte header this
/// is exactly the largest on-air packet.
#[derive(Clone, Copy, Debug)]
pub struct Header(u16);

/// Mask of the `TxAdd` bit (bit 6).
pub const TXADD_MASK: u16 = 0x0040;

/// Mask of the `RxAdd` bit (bit 7).
pub const RXADD_MASK: u16 = 0x0080;

/// Mask of the 6-bit payload-length field (bits 8 to 13).
pub const LENGTH_MASK: u16 = 0x3f00;

/// Mask of the 4-bit PDU-type field (bits 0 to 3).
pub const TYPE_MASK: u16 = 0x000f;

impl View for Header {
    type V = u16;

    /// The raw 16 header bits.
    closed spec fn view(&self) -> u16 {
        self.0
    }
}

impl Header {
    /// The raw 4-bit PDU-type code, bits 0 to 3.
    pub open spec fn spec_type_code(self) -> u8 {
        (self@ & TYPE_MASK) as u8
    }

    /// The PDU type, bits 0 to 3 mapped through the type enumeration.
    pub open spec fn spec_type(self) -> PduType {
        PduType::spec_from_u8(self.spec_type_code())
    }

    /// The `TxAdd` flag, bit 6.
    pub open spec fn spec_tx_add(self) -> bool {
        self@ & TXADD_MASK != 0
    }

    /// The `RxAdd` flag, bit 7.
    pub open spec fn spec_rx_add(self) -> bool {
        self@ & RXADD_MASK != 0
    }

    /// The 6-bit payload length, bits 8 to 13.
    pub open spec fn spec_payload_length(self) -> u8 {
        ((self@ & LENGTH_MASK) >> 8) as u8
    }

    /// Creates a new header carrying the payload type `ty`: only the type
    /// bits are set, both flags are clear and the length field is zero.
    pub fn new(ty: PduType) -> (h: Header)
        ensures
            h@ == ty.spec_to_u8() as u16,
            ty.spec_to_u8() <= 0x0f ==> {
                &&& h.spec_type_code() == ty.spec_to_u8()
                &&& h.spec_type() == PduType::spec_from_u8(ty.spec_to_u8())
                &&& !h.spec_tx_add()
                &&& !h.spec_rx_add()
                &&& h.spec_payload_length() == 0
            },
    {
        let code = ty.to_u8();
        proof {
            assert(code <= 0x0f ==> {
                &&& (code as u16) & TYPE_MASK == code as u16
                &&& (code as u16) & TXADD_MASK == 0
                &&& (code as u16) & RXADD_MASK == 0
                &&& ((code as u16) & LENGTH_MASK) >> 8 == 0
            }) by (bit_vector);
        }
        Header(code as u16)
    }

    /// Reinterprets two raw bytes, least-significant first, as a header.
    ///
    /// Parsing never validates the length bounds: it is meant for inspecting
    /// possibly-received, possibly out-of-spec headers.
    pub fn parse(raw: &[u8]) -> (h: Header)
        requires
            raw@.len() >= 2,
        ensures
            h@ == raw@[0] + raw@[1] * 0x100,
    {
        Header(read_u16_le(raw))
    }

    /// Returns the raw representation of the header.
    ///
    /// The returned value must be transmitted least-significant byte first as
    /// the first 2 octets of the PDU.
    pub fn to_u16(&self) -> (bits: u16)
        ensures
            bits == self@,
    {
        self.0
    }

    /// Sets all bits in the header that are set in `mask`.
    fn set_header_bits(&mut self, mask: u16)
        ensures
            final(self)@ == old(self)@ | mask,
    {
        self.0 = self.0 | mask;
    }

    /// Clears all bits in the header that are set in `mask`.
    fn clear_header_bits(&mut self, mask: u16)
        ensures
            final(self)@ == old(self)@ & !mask,
    {
        self.0 = self.0 & !mask;
    }

    /// Returns the PDU type specified in the header; unknown codes are
    /// preserved, never an error.
    pub fn type_(&self) -> (ty: PduType)
        ensures
            ty == self.spec_type(),
    {
        PduType::from_u8((self.0 & TYPE_MASK) as u8)
    }

    /// Returns the state of the `TxAdd` field.
    pub fn tx_add(&self) -> (b: bool)
        ensures
            b == self.spec_tx_add(),
    {
        self.0 & TXADD_MASK != 0
    }

    /// Sets the `TxAdd` field's value, leaving every other bit unchanged.
    pub fn set_tx_add(&mut self, value: bool)
        ensures
            final(self)@ == if value {
                old(self)@ | TXADD_MASK
            } else {
                old(self)@ & !TXADD_MASK
            },
            final(self).spec_tx_add() == value,
            final(self).spec_type_code() == old(self).spec_type_code(),
            final(self).spec_rx_add() == old(self).spec_rx_add(),
            final(self).spec_payload_length() == old(self).spec_payload_length(),
    {
        let ghost b = self@;
        if value {
            self.set_header_bits(TXADD_MASK);
        } else {
            self.clear_header_bits(TXADD_MASK);
        }
        proof {
            lemma_tx_add_bits(b, self@, value);
        }
    }

    /// Returns the state of the `RxAdd` field.
    pub fn rx_add(&self) -> (b: bool)
        ensures
            b == self.spec_rx_add(),
    {
        self.0 & RXADD_MASK != 0
    }

    /// Sets the `RxAdd` field's value, leaving every other bit unchanged.
    pub fn set_rx_add(&mut self, value: bool)
        ensures
            final(self)@ == if value {
                old(self)@ | RXADD_MASK
            } else {
                old(self)@ & !RXADD_MASK
            },
            final(self).spec_rx_add() == value,
            final(self).spec_type_code() == old(self).spec_type_code(),
            final(self).spec_tx_add() == old(self).spec_tx_add(),
            final(self).spec_payload_length() == old(self).spec_payload_length(),
    {
        let ghost b = self@;
        if value {
            self.set_header_bits(RXADD_MASK);
        } else {
            self.clear_header_bits(RXADD_MASK);
        }
        proof {
            lemma_rx_add_bits(b, self@, value);
        }
    }

    /// Returns the length of the payload in octets as specified in the
    /// `Length` field.
    ///
    /// The on-air rules put the length in the range 6 to 37, but this
    /// accessor reports whatever the field holds, without validation.
    pub fn payload_length(&self) -> (len: u8)
        ensures
            len == self.spec_payload_length(),
    {
        ((self.0 & LENGTH_MASK) >> 8) as u8
    }

    /// Sets the payload length of this PDU.
    ///
    /// A length outside the range 6 to 37 is a contract violation, ruled out
    /// by the precondition; only the length field changes.
    pub fn set_payload_length(&mut self, length: u8)
        requires
            6 <= length <= 37,
        ensures
            final(self)@ == (old(self)@ & !LENGTH_MASK) | ((length as u16) << 8),
            final(self).spec_payload_length() == length,
            final(self).spec_type_code() == old(self).spec_type_code(),
            final(self).spec_tx_add() == old(self).spec_tx_add(),
            final(self).spec_rx_add() == old(self).spec_rx_add(),
    {
        let ghost b = self@;
        let cleared = self.0 & !LENGTH_MASK;
        self.0 = cleared | ((length as u16) << 8);
        proof {
            lemma_set_length_bits(b, self@, length);
        }
    }
}

/// Setting or clearing bit 6 changes exactly the `TxAdd` field.
proof fn lemma_tx_add_bits(b: u16, nb: u16, value: bool)
    by (bit_vector)
    requires
        nb == if value {
            b | 0x0040u16
        } else {
            b & !0x0040u16
        },
    ensures
        (nb & 0x0040u16 != 0) == value,
        nb & 0x000fu16 == b & 0x000fu16,
        (nb & 0x0080u16 != 0) == (b & 0x0080u16 != 0),
        (nb & 0x3f00u16) >> 8 == (b & 0x3f00u16) >> 8,
{
}

/// Setting or clearing bit 7 changes exactly the `RxAdd` field.
proof fn lemma_rx_add_bits(b: u16, nb: u16, value: bool)
    by (bit_vector)
    requires
        nb == if value {
            b | 0x0080u16
        } else {
            b & !0x0080u16
        },
    ensures
        (nb & 0x0080u16 != 0) == value,
        nb & 0x000fu16 == b & 0x000fu16,
        (nb & 0x0040u16 != 0) == (b & 0x0040u16 != 0),
        (nb & 0x3f00u16) >> 8 == (b & 0x3f00u16) >> 8,
{
}

/// Overwriting bits 8 to 13 changes exactly the length field.
proof fn lemma_set_length_bits(b: u16, nb: u16, length: u8)
    by (bit_vector)
    requires
        length <= 63,
        nb == (b & !0x3f00u16) | ((length as u16) << 8),
    ensures
        (nb & 0x3f00u16) >> 8 == length as u16,
        nb & 0x000fu16 == b & 0x000fu16,
        (nb & 0x0040u16 != 0) == (b & 0x0040u16 != 0),
        (nb & 0x0080u16 != 0) == (b & 0x0080u16 != 0),
{
}

/// A header survives the on-air round trip: splitting its raw bits into the
/// two transmitted octets, least-significant first, and parsing them back
/// yields a header equal in every observable field.
pub proof fn lemma_header_round_trip(h: Header, p: Header)
    requires
        p@ == (h@ & 0x00ff) + ((h@ >> 8) & 0x00ff) * 0x100,
    ensures
        p@ == h@,
        p.spec_type() == h.spec_type(),
        p.spec_tx_add() == h.spec_tx_add(),
        p.spec_rx_add() == h.spec_rx_add(),
        p.spec_payload_length() == h.spec_payload_length(),
{
    let hb = h@;
    assert((hb & 0x00ff) + ((hb >> 8) & 0x00ff) * 0x100 == hb) by (bit_vector);
}

/// Relies on byteorder's `LittleEndian::read_u16`: the first two bytes of the
/// slice read as one 16-bit integer, least-significant byte first. It panics
/// when fewer than two bytes are given, which the precondition rules out.
#[verifier::external_body]
fn read_u16_le(raw: &[u8]) -> (r: u16)
    requires
        raw@.len() >= 2,
    ensures
        r == raw@[0] + raw@[1] * 0x100,
{
    <byteorder::LittleEndian as byteorder::ByteOrder>::read_u16(raw)
}

} // verus!
