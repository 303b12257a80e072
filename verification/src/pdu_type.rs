//! The 4-bit advertising-channel PDU type codes.

use vstd::prelude::*;

verus! {

/// The kind of an advertising-channel PDU, as carried in the low 4 bits of
/// the header.
///
/// The code space has reserved values, so decoding is total: a nibble that
/// matches no known kind is kept as `Unknown`, never rejected.
#[derive(Clone, Copy, Debug, PartialEq, Eq, Structural)]
pub enum PduType {
    /// Connectable undirected advertising event.
    AdvInd,
    /// Connectable directed advertising event.
    AdvDirectInd,
    /// Non-connectable undirected advertising event.
    AdvNonconnInd,
    /// Scannable undirected advertising event.
    AdvScanInd,
    /// Scan request, sent by a device in scanning state.
    ScanReq,
    /// Scan response, sent by a device in advertising state.
    ScanRsp,
    /// Connect request, sent by a device in initiating state.
    ConnectReq,
    /// A code this version does not know; the raw value is preserved.
    Unknown(u8),
}

impl PduType {
    /// The 4-bit code of this PDU type (for `Unknown`, the preserved raw value).
    pub open spec fn spec_to_u8(self) -> u8 {
        match self {
            PduType::AdvInd => 0x00,
            PduType::AdvDirectInd => 0x01,
            PduType::AdvNonconnInd => 0x02,
            PduType::ScanReq => 0x03,
            PduType::ScanRsp => 0x04,
            PduType::ConnectReq => 0x05,
            PduType::AdvScanInd => 0x06,
            PduType::Unknown(code) => code,
        }
    }

    /// The PDU type a raw code stands for; codes with no known kind map to
    /// `Unknown`, so the conversion is total.
    pub open spec fn spec_from_u8(code: u8) -> PduType {
        if code == 0x00 {
            PduType::AdvInd
        } else if code == 0x01 {
            PduType::AdvDirectInd
        } else if code == 0x02 {
            PduType::AdvNonconnInd
        } else if code == 0x03 {
            PduType::ScanReq
        } else if code == 0x04 {
            PduType::ScanRsp
        } else if code == 0x05 {
            PduType::ConnectReq
        } else if code == 0x06 {
            PduType::AdvScanInd
        } else {
            PduType::Unknown(code)
        }
    }

    /// Returns the raw code of this PDU type.
    pub fn to_u8(self) -> (code: u8)
        ensures
            code == self.spec_to_u8(),
    {
        match self {
            PduType::AdvInd => 0x00,
            PduType::AdvDirectInd => 0x01,
            PduType::AdvNonconnInd => 0x02,
            PduType::ScanReq => 0x03,
            PduType::ScanRsp => 0x04,
            PduType::ConnectReq => 0x05,
            PduType::AdvScanInd => 0x06,
            PduType::Unknown(code) => code,
        }
    }

    /// Decodes a raw code; never fails.
    pub fn from_u8(code: u8) -> (ty: PduType)
        ensures
            ty == PduType::spec_from_u8(code),
    {
        if code == 0x00 {
            PduType::AdvInd
        } else if code == 0x01 {
            PduType::AdvDirectInd
        } else if code == 0x02 {
            PduType::AdvNonconnInd
        } else if code == 0x03 {
            PduType::ScanReq
        } else if code == 0x04 {
            PduType::ScanRsp
        } else if code == 0x05 {
            PduType::ConnectReq
        } else if code == 0x06 {
            PduType::AdvScanInd
        } else {
            PduType::Unknown(code)
        }
    }
}

/// Decoding undoes encoding: a type's raw code maps back to the type itself,
/// for every kind with a fixed code and for unknown codes outside that set.
pub proof fn lemma_pdu_type_code_round_trip(ty: PduType)
    requires
        ty matches PduType::Unknown(code) ==> code > 0x06,
    ensures
        PduType::spec_from_u8(ty.spec_to_u8()) == ty,
{
}

} // verus!
