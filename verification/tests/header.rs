use ble_advertising::{Header, PduType};

#[test]
fn new_header_has_only_type_bits() {
    let h = Header::new(PduType::AdvInd);
    assert_eq!(h.to_u16(), 0x0000);
    assert_eq!(h.type_(), PduType::AdvInd);
    assert!(!h.tx_add());
    assert!(!h.rx_add());
    assert_eq!(h.payload_length(), 0);

    let h = Header::new(PduType::AdvScanInd);
    assert_eq!(h.to_u16(), 0x0006);
    assert_eq!(h.type_(), PduType::AdvScanInd);
}

#[test]
fn parse_nonconnectable_header() {
    let h = Header::parse(&[0x02, 0x00]);
    assert_eq!(h.type_(), PduType::AdvNonconnInd);
    assert!(!h.tx_add());
    assert!(!h.rx_add());
    assert_eq!(h.payload_length(), 0);
}

#[test]
fn parse_reads_little_endian() {
    let h = Header::parse(&[0x34, 0x12]);
    assert_eq!(h.to_u16(), 0x1234);
    let h = Header::parse(&[0x00, 0xff]);
    assert_eq!(h.to_u16(), 0xff00);
}

#[test]
fn parse_does_not_validate_length() {
    // All six length bits set: 63 is far outside the on-air range, but
    // parsing reports it as-is.
    let h = Header::parse(&[0x00, 0x3f]);
    assert_eq!(h.payload_length(), 63);
    assert!(!h.tx_add());
    assert!(!h.rx_add());
}

#[test]
fn header_round_trip_all_fields() {
    let mut h = Header::new(PduType::ScanRsp);
    h.set_payload_length(20);
    h.set_tx_add(true);
    h.set_rx_add(false);

    let bits = h.to_u16();
    let raw = [(bits & 0xff) as u8, (bits >> 8) as u8];
    let p = Header::parse(&raw);

    assert_eq!(p.to_u16(), h.to_u16());
    assert_eq!(p.type_(), PduType::ScanRsp);
    assert!(p.tx_add());
    assert!(!p.rx_add());
    assert_eq!(p.payload_length(), 20);
}

#[test]
fn flag_setters_touch_only_their_bit() {
    let mut h = Header::new(PduType::AdvDirectInd);
    h.set_payload_length(12);
    h.set_tx_add(true);
    assert_eq!(h.type_(), PduType::AdvDirectInd);
    assert!(h.tx_add());
    assert!(!h.rx_add());
    assert_eq!(h.payload_length(), 12);

    h.set_rx_add(true);
    assert!(h.tx_add());
    assert!(h.rx_add());

    h.set_tx_add(false);
    assert!(!h.tx_add());
    assert!(h.rx_add());
    assert_eq!(h.payload_length(), 12);
    assert_eq!(h.type_(), PduType::AdvDirectInd);
}

#[test]
fn set_payload_length_accepts_boundaries() {
    let mut h = Header::new(PduType::AdvInd);
    h.set_payload_length(6);
    assert_eq!(h.payload_length(), 6);
    h.set_payload_length(37);
    assert_eq!(h.payload_length(), 37);
}

#[test]
fn pdu_type_codes_round_trip() {
    let known = [
        (PduType::AdvInd, 0x00),
        (PduType::AdvDirectInd, 0x01),
        (PduType::AdvNonconnInd, 0x02),
        (PduType::ScanReq, 0x03),
        (PduType::ScanRsp, 0x04),
        (PduType::ConnectReq, 0x05),
        (PduType::AdvScanInd, 0x06),
    ];
    for (ty, code) in known {
        assert_eq!(ty.to_u8(), code);
        assert_eq!(PduType::from_u8(code), ty);
    }
    // A reserved code decodes totally, keeping the raw value.
    assert_eq!(PduType::from_u8(0x0f), PduType::Unknown(0x0f));
    assert_eq!(PduType::Unknown(0x0f).to_u8(), 0x0f);
}
