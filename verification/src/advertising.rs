//! Assembling advertising-channel PDUs: a header plus a bounded payload
//! laid out according to the packet kind.

use vstd::prelude::*;
use vstd::slice::slice_subrange;

use crate::ad_structure::{encoding_of, lemma_encoding_of_take_len_le, lemma_encoding_of_take_succ};
use crate::ad_structure::{AdStructure, AD_TYPE_FLAGS, FLAGS_BROADCAST, FLAGS_DISCOVERABLE};
use crate::bytes::ByteWriter;
use crate::device_address::DeviceAddress;
use crate::error::Error;
use crate::header::Header;
use crate::pdu_type::PduType;

verus! {

/// The largest advertising-channel payload that fits on air, in bytes.
pub const MAX_PAYLOAD_SIZE: usize = 37;

/// An assembled advertising-channel PDU: the 2-byte header and a
/// fixed-capacity payload buffer of which only the first
/// `payload_length()` bytes are meaningful.
#[derive(Debug)]
pub struct PduBuf {
    /// 2-byte header.
    header: Header,
    /// Fixed-size buffer that can store the largest payload; the actual
    /// length is stored in the header.
    payload_buf: Vec<u8>,
}

/// Mask of the two reserved gaps of the header, bits 4, 5, 14 and 15.
pub const RESERVED_MASK: u16 = 0xc030;

/// What every single-address constructor guarantees of a buffer it returns:
/// the payload is the 6 address bytes followed by `data_bytes`, the header
/// records the type, the length, the transmitter's address kind and a clear
/// `RxAdd`, and the reserved header bits read back as zero.
pub open spec fn assembled(
    b: PduBuf,
    ty: PduType,
    addr: DeviceAddress,
    data_bytes: Seq<u8>,
) -> bool {
    &&& b.wf()
    &&& b.spec_payload() == addr.spec_bytes() + data_bytes
    &&& b.spec_header().spec_type_code() == ty.spec_to_u8()
    &&& b.spec_header().spec_tx_add() == addr.spec_is_random()
    &&& !b.spec_header().spec_rx_add()
    &&& b.spec_header().spec_payload_length() == 6 + data_bytes.len()
    &&& b.spec_header()@ & RESERVED_MASK == 0
}

/// A header built by `Header::new` and the three setters, in that order,
/// keeps both reserved gaps clear.
proof fn lemma_reserved_bits_clear(code: u8, len: u8, tx: bool, rx: bool, bits: u16)
    by (bit_vector)
    requires
        code <= 0x0f,
        len <= 63,
        bits == ({
            let with_len = ((code as u16) & !0x3f00u16) | ((len as u16) << 8);
            let with_tx = if tx {
                with_len | 0x0040u16
            } else {
                with_len & !0x0040u16
            };
            if rx {
                with_tx | 0x0080u16
            } else {
                with_tx & !0x0080u16
            }
        }),
    ensures
        bits & 0xc030u16 == 0,
{
}

impl PduBuf {
    /// The header of the PDU.
    pub closed spec fn spec_header(self) -> Header {
        self.header
    }

    /// The whole fixed-capacity buffer, meaningful bytes and unused tail.
    pub closed spec fn spec_buf(self) -> Seq<u8> {
        self.payload_buf@
    }

    /// Every buffer this module hands out satisfies this: full-capacity
    /// storage, and a header length within the on-air bounds.
    pub open spec fn wf(self) -> bool {
        &&& self.spec_buf().len() == MAX_PAYLOAD_SIZE
        &&& 6 <= self.spec_header().spec_payload_length() <= 37
    }

    /// The meaningful payload: the first `payload_length()` bytes of the
    /// buffer.
    pub open spec fn spec_payload(self) -> Seq<u8> {
        self.spec_buf().subrange(0, self.spec_header().spec_payload_length() as int)
    }

    /// Builds a PDU buffer containing the advertiser address and data.
    ///
    /// The payload is the 6 address bytes, then `prefix` (if any), then
    /// each element of `adv_data` in order. If the whole of that exceeds
    /// the payload capacity, assembly fails with the capacity error the
    /// moment space runs out, and no buffer is produced.
    #[verifier::loop_isolation(false)]
    fn adv(
        ty: PduType,
        adv_addr: &DeviceAddress,
        prefix: Option<&AdStructure>,
        adv_data: &[AdStructure],
    ) -> (r: Result<PduBuf, Error>)
        requires
            ty.spec_to_u8() <= 0x0f,
        ensures
            ({
                let pfx = match prefix {
                    Some(p) => p@,
                    None => Seq::<u8>::empty(),
                };
                let data_bytes = pfx + encoding_of(adv_data@);
                &&& (6 + data_bytes.len() <= 37 <==> r is Ok)
                &&& (r matches Ok(b) ==> assembled(b, ty, *adv_addr, data_bytes))
                &&& (r matches Err(e) ==> e is CapacityExceeded && 6 + data_bytes.len() > 37)
            }),
    {
        let ghost pfx = match prefix {
            Some(p) => p@,
            None => Seq::<u8>::empty(),
        };
        let mut writer = ByteWriter::new(MAX_PAYLOAD_SIZE);
        let _ = writer.write_slice(adv_addr.raw());
        proof {
            assert(writer.written() =~= adv_addr.spec_bytes());
        }
        if let Some(p) = prefix {
            let res = p.to_bytes(&mut writer);
            if let Err(e) = res {
                return Err(e);
            }
        }
        proof {
            assert(encoding_of(adv_data@.take(0)) =~= Seq::<u8>::empty());
            assert(writer.written() =~= adv_addr.spec_bytes() + pfx + encoding_of(
                adv_data@.take(0),
            ));
        }
        let mut i: usize = 0;
        while i < adv_data.len()
            invariant
                i <= adv_data@.len(),
                writer.wf(),
                writer.spec_cap() == MAX_PAYLOAD_SIZE,
                writer.written() == adv_addr.spec_bytes() + pfx + encoding_of(
                    adv_data@.take(i as int),
                ),
            decreases adv_data@.len() - i,
        {
            let res = adv_data[i].to_bytes(&mut writer);
            proof {
                lemma_encoding_of_take_succ(adv_data@, i as int);
            }
            match res {
                Ok(_) => {
                    proof {
                        assert(writer.written() =~= adv_addr.spec_bytes() + pfx + encoding_of(
                            adv_data@.take(i + 1),
                        ));
                    }
                    i = i + 1;
                },
                Err(e) => {
                    proof {
                        lemma_encoding_of_take_len_le(adv_data@, i as int + 1);
                    }
                    return Err(e);
                },
            }
        }
        proof {
            assert(adv_data@.take(adv_data@.len() as int) =~= adv_data@);
        }
        let left = writer.space_left();
        let used = MAX_PAYLOAD_SIZE - left;
        let mut header = Header::new(ty);
        header.set_payload_length(used as u8);
        header.set_tx_add(adv_addr.is_random());
        header.set_rx_add(false);
        proof {
            lemma_reserved_bits_clear(
                ty.spec_to_u8(),
                used as u8,
                adv_addr.spec_is_random(),
                false,
                header@,
            );
        }
        let ghost written = writer.written();
        let payload_buf = writer.into_buffer();
        let buf = PduBuf { header, payload_buf };
        proof {
            assert(buf.spec_payload() == written);
            assert(adv_addr.spec_bytes() + pfx + encoding_of(adv_data@) =~= adv_addr.spec_bytes()
                + (pfx + encoding_of(adv_data@)));
        }
        Ok(buf)
    }

    /// Creates a connectable undirected advertising PDU (`ADV_IND`).
    ///
    /// The payload is the advertiser address followed by the caller's
    /// advertising data; assembly fails with the capacity error exactly
    /// when that data does not fit.
    pub fn connectable_undirected(
        advertiser_addr: DeviceAddress,
        advertiser_data: &[AdStructure],
    ) -> (r: Result<PduBuf, Error>)
        ensures
            ({
                let data_bytes = encoding_of(advertiser_data@);
                &&& (6 + data_bytes.len() <= 37 <==> r is Ok)
                &&& (r matches Ok(b) ==> assembled(b, PduType::AdvInd, advertiser_addr, data_bytes))
                &&& (r matches Err(e) ==> e is CapacityExceeded && 6 + data_bytes.len() > 37)
            }),
    {
        let r = Self::adv(PduType::AdvInd, &advertiser_addr, None, advertiser_data);
        proof {
            assert(Seq::<u8>::empty() + encoding_of(advertiser_data@) =~= encoding_of(
                advertiser_data@,
            ));
        }
        r
    }

    /// Creates a connectable directed advertising PDU (`ADV_DIRECT_IND`).
    ///
    /// The payload is always exactly the 6 advertiser address bytes
    /// followed by the 6 initiator address bytes; `TxAdd` and `RxAdd`
    /// record the two addresses' kinds. This cannot fail.
    pub fn connectable_directed(
        advertiser_addr: DeviceAddress,
        initiator_addr: DeviceAddress,
    ) -> (r: PduBuf)
        ensures
            r.wf(),
            r.spec_payload() == advertiser_addr.spec_bytes() + initiator_addr.spec_bytes(),
            r.spec_header().spec_payload_length() == 12,
            r.spec_header().spec_type_code() == PduType::AdvDirectInd.spec_to_u8(),
            r.spec_header().spec_tx_add() == advertiser_addr.spec_is_random(),
            r.spec_header().spec_rx_add() == initiator_addr.spec_is_random(),
            r.spec_header()@ & RESERVED_MASK == 0,
    {
        let mut writer = ByteWriter::new(MAX_PAYLOAD_SIZE);
        let _ = writer.write_slice(advertiser_addr.raw());
        let _ = writer.write_slice(initiator_addr.raw());
        proof {
            assert(writer.written() =~= advertiser_addr.spec_bytes()
                + initiator_addr.spec_bytes());
        }
        let mut header = Header::new(PduType::AdvDirectInd);
        header.set_payload_length(6 + 6);
        header.set_tx_add(advertiser_addr.is_random());
        header.set_rx_add(initiator_addr.is_random());
        proof {
            lemma_reserved_bits_clear(
                PduType::AdvDirectInd.spec_to_u8(),
                12,
                advertiser_addr.spec_is_random(),
                initiator_addr.spec_is_random(),
                header@,
            );
        }
        let ghost written = writer.written();
        let payload_buf = writer.into_buffer();
        let buf = PduBuf { header, payload_buf };
        proof {
            assert(buf.spec_payload() == written);
        }
        buf
    }

    /// Creates a non-connectable undirected advertising PDU
    /// (`ADV_NONCONN_IND`).
    ///
    /// This is equivalent to `PduBuf::beacon` without the mandatory flags
    /// element; prefer `beacon` when building a beacon PDU.
    pub fn nonconnectable_undirected(
        advertiser_addr: DeviceAddress,
        advertiser_data: &[AdStructure],
    ) -> (r: Result<PduBuf, Error>)
        ensures
            ({
                let data_bytes = encoding_of(advertiser_data@);
                &&& (6 + data_bytes.len() <= 37 <==> r is Ok)
                &&& (r matches Ok(b) ==> assembled(
                    b,
                    PduType::AdvNonconnInd,
                    advertiser_addr,
                    data_bytes,
                ))
                &&& (r matches Err(e) ==> e is CapacityExceeded && 6 + data_bytes.len() > 37)
            }),
    {
        let r = Self::adv(PduType::AdvNonconnInd, &advertiser_addr, None, advertiser_data);
        proof {
            assert(Seq::<u8>::empty() + encoding_of(advertiser_data@) =~= encoding_of(
                advertiser_data@,
            ));
        }
        r
    }

    /// Creates a scannable undirected advertising PDU (`ADV_SCAN_IND`).
    ///
    /// Note that scanning itself is not supported at the moment.
    pub fn scannable_undirected(
        advertiser_addr: DeviceAddress,
        advertiser_data: &[AdStructure],
    ) -> (r: Result<PduBuf, Error>)
        ensures
            ({
                let data_bytes = encoding_of(advertiser_data@);
                &&& (6 + data_bytes.len() <= 37 <==> r is Ok)
                &&& (r matches Ok(b) ==> assembled(
                    b,
                    PduType::AdvScanInd,
                    advertiser_addr,
                    data_bytes,
                ))
                &&& (r matches Err(e) ==> e is CapacityExceeded && 6 + data_bytes.len() > 37)
            }),
    {
        let r = Self::adv(PduType::AdvScanInd, &advertiser_addr, None, advertiser_data);
        proof {
            assert(Seq::<u8>::empty() + encoding_of(advertiser_data@) =~= encoding_of(
                advertiser_data@,
            ));
        }
        r
    }

    /// Creates an advertising channel PDU suitable for building a simple
    /// beacon.
    ///
    /// This is `nonconnectable_undirected` with the mandatory broadcast
    /// "Flags" element automatically put ahead of the caller's data: the
    /// payload starts with the 6 address bytes immediately followed by the
    /// 3-byte flags element.
    pub fn beacon(
        advertiser_addr: DeviceAddress,
        advertiser_data: &[AdStructure],
    ) -> (r: Result<PduBuf, Error>)
        ensures
            ({
                let data_bytes = seq![2u8, AD_TYPE_FLAGS, FLAGS_BROADCAST] + encoding_of(
                    advertiser_data@,
                );
                &&& (6 + data_bytes.len() <= 37 <==> r is Ok)
                &&& (r matches Ok(b) ==> assembled(
                    b,
                    PduType::AdvNonconnInd,
                    advertiser_addr,
                    data_bytes,
                ))
                &&& (r matches Err(e) ==> e is CapacityExceeded && 6 + data_bytes.len() > 37)
            }),
    {
        let flags = AdStructure::flags_broadcast();
        Self::adv(PduType::AdvNonconnInd, &advertiser_addr, Some(&flags), advertiser_data)
    }

    /// Creates an advertising PDU that makes this device visible for
    /// scanning devices that want to establish a connection.
    ///
    /// This is `connectable_undirected` with the mandatory
    /// general-discoverability "Flags" element automatically put ahead of
    /// the caller's data: the payload starts with the 6 address bytes
    /// immediately followed by the 3-byte flags element. Use it when this
    /// device would like to initiate pairing.
    pub fn discoverable(
        advertiser_addr: DeviceAddress,
        advertiser_data: &[AdStructure],
    ) -> (r: Result<PduBuf, Error>)
        ensures
            ({
                let data_bytes = seq![2u8, AD_TYPE_FLAGS, FLAGS_DISCOVERABLE] + encoding_of(
                    advertiser_data@,
                );
                &&& (6 + data_bytes.len() <= 37 <==> r is Ok)
                &&& (r matches Ok(b) ==> assembled(
                    b,
                    PduType::AdvInd,
                    advertiser_addr,
                    data_bytes,
                ))
                &&& (r matches Err(e) ==> e is CapacityExceeded && 6 + data_bytes.len() > 37)
            }),
    {
        let flags = AdStructure::flags_discoverable();
        Self::adv(PduType::AdvInd, &advertiser_addr, Some(&flags), advertiser_data)
    }

    /// Creates a scan request PDU.
    ///
    /// Scanning has no payload layout in this version, so this fails
    /// deterministically with the unsupported-operation error and never
    /// produces a buffer.
    pub fn scan_request(_scanner: DeviceAddress, _adv: DeviceAddress) -> (r: Result<
        PduBuf,
        Error,
    >)
        ensures
            r matches Err(e) && e is Unsupported,
    {
        Err(Error::Unsupported)
    }

    /// Creates a scan response PDU.
    ///
    /// Scanning has no payload layout in this version, so this fails
    /// deterministically with the unsupported-operation error and never
    /// produces a buffer.
    pub fn scan_response(_adv: DeviceAddress, _scan_data: &[AdStructure]) -> (r: Result<
        PduBuf,
        Error,
    >)
        ensures
            r matches Err(e) && e is Unsupported,
    {
        Err(Error::Unsupported)
    }

    /// Returns a copy of the header.
    pub fn header(&self) -> (h: Header)
        ensures
            h == self.spec_header(),
    {
        self.header
    }

    /// Returns the meaningful payload: the first `payload_length()` bytes
    /// of the buffer.
    pub fn payload(&self) -> (p: &[u8])
        requires
            self.wf(),
        ensures
            p@ == self.spec_payload(),
    {
        let len = self.header.payload_length();
        slice_subrange(self.payload_buf.as_slice(), 0, len as usize)
    }
}

} // verus!
