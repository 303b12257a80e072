use ble_advertising::{AdStructure, DeviceAddress, Error, PduBuf, PduType};

const ADDR: [u8; 6] = [0x11, 0x22, 0x33, 0x44, 0x55, 0x66];

#[test]
fn connectable_undirected_public_address_no_data() {
    let addr = DeviceAddress::new(ADDR, false);
    let buf = PduBuf::connectable_undirected(addr, &[]).unwrap();
    assert_eq!(buf.payload(), &ADDR);
    assert_eq!(buf.header().payload_length(), 6);
    assert_eq!(buf.header().type_(), PduType::AdvInd);
    assert!(!buf.header().tx_add());
    assert!(!buf.header().rx_add());
}

#[test]
fn beacon_prepends_broadcast_flags() {
    let addr = DeviceAddress::new(ADDR, false);
    let buf = PduBuf::beacon(addr, &[]).unwrap();
    let expected = [0x11, 0x22, 0x33, 0x44, 0x55, 0x66, 0x02, 0x01, 0x04];
    assert_eq!(buf.payload(), &expected);
    assert_eq!(buf.header().payload_length(), 9);
    assert_eq!(buf.header().type_(), PduType::AdvNonconnInd);
}

#[test]
fn discoverable_prepends_discoverability_flags() {
    let addr = DeviceAddress::new(ADDR, true);
    let buf = PduBuf::discoverable(addr, &[]).unwrap();
    let expected = [0x11, 0x22, 0x33, 0x44, 0x55, 0x66, 0x02, 0x01, 0x06];
    assert_eq!(buf.payload(), &expected);
    assert_eq!(buf.header().payload_length(), 9);
    assert_eq!(buf.header().type_(), PduType::AdvInd);
    assert!(buf.header().tx_add());
    assert!(!buf.header().rx_add());
}

#[test]
fn connectable_directed_concatenates_both_addresses() {
    let a = DeviceAddress::new(ADDR, true);
    let b_bytes: [u8; 6] = [0xaa, 0xbb, 0xcc, 0xdd, 0xee, 0xff];
    let b = DeviceAddress::new(b_bytes, false);
    let buf = PduBuf::connectable_directed(a, b);
    assert_eq!(buf.header().payload_length(), 12);
    let expected = [
        0x11, 0x22, 0x33, 0x44, 0x55, 0x66, 0xaa, 0xbb, 0xcc, 0xdd, 0xee, 0xff,
    ];
    assert_eq!(buf.payload(), &expected);
    assert_eq!(buf.header().type_(), PduType::AdvDirectInd);
    assert!(buf.header().tx_add());
    assert!(!buf.header().rx_add());
}

#[test]
fn advertising_data_is_encoded_in_order() {
    let addr = DeviceAddress::new(ADDR, false);
    let ads = [AdStructure::new(0x09, b"AB"), AdStructure::new(0xff, &[0x01])];
    let buf = PduBuf::connectable_undirected(addr, &ads).unwrap();
    let expected = [
        0x11, 0x22, 0x33, 0x44, 0x55, 0x66, // address
        0x03, 0x09, 0x41, 0x42, // complete local name "AB"
        0x02, 0xff, 0x01, // manufacturer-specific data
    ];
    assert_eq!(buf.payload(), &expected);
    assert_eq!(buf.header().payload_length(), 13);
}

#[test]
fn largest_fitting_payload_is_accepted() {
    // 6 address bytes + a 31-byte element fill the payload exactly.
    let addr = DeviceAddress::new(ADDR, false);
    let ads = [AdStructure::new(0xff, &[0u8; 29])];
    let buf = PduBuf::nonconnectable_undirected(addr, &ads).unwrap();
    assert_eq!(buf.header().payload_length(), 37);
    assert_eq!(buf.payload().len(), 37);
}

#[test]
fn oversized_advertising_data_is_rejected() {
    let addr = DeviceAddress::new(ADDR, false);
    // One byte more than largest_fitting_payload_is_accepted.
    let ads = [AdStructure::new(0xff, &[0u8; 30])];
    let err = PduBuf::nonconnectable_undirected(addr, &ads).unwrap_err();
    assert_eq!(err, Error::CapacityExceeded);
}

#[test]
fn mandatory_flags_count_against_capacity() {
    let addr = DeviceAddress::new(ADDR, false);
    // 29 bytes of element: fits on its own (6 + 29 = 35), but not after
    // the 3-byte mandatory flags element (6 + 3 + 29 = 38).
    let ads = [AdStructure::new(0xff, &[0u8; 27])];
    assert!(PduBuf::nonconnectable_undirected(addr, &ads).is_ok());
    let err = PduBuf::beacon(addr, &ads).unwrap_err();
    assert_eq!(err, Error::CapacityExceeded);
}

#[test]
fn scannable_undirected_matches_plain_layout() {
    let addr = DeviceAddress::new(ADDR, false);
    let buf = PduBuf::scannable_undirected(addr, &[]).unwrap();
    assert_eq!(buf.payload(), &ADDR);
    assert_eq!(buf.header().type_(), PduType::AdvScanInd);
    assert_eq!(buf.header().payload_length(), 6);
}

#[test]
fn scan_request_and_response_are_unsupported() {
    let a = DeviceAddress::new(ADDR, false);
    let b = DeviceAddress::new(ADDR, true);
    assert_eq!(PduBuf::scan_request(a, b).unwrap_err(), Error::Unsupported);
    assert_eq!(PduBuf::scan_response(a, &[]).unwrap_err(), Error::Unsupported);
}

#[test]
fn payload_length_stays_in_on_air_bounds() {
    let addr = DeviceAddress::new(ADDR, true);
    let bufs = [
        PduBuf::connectable_undirected(addr, &[]).unwrap(),
        PduBuf::beacon(addr, &[]).unwrap(),
        PduBuf::discoverable(addr, &[]).unwrap(),
        PduBuf::connectable_directed(addr, addr),
        PduBuf::nonconnectable_undirected(addr, &[AdStructure::new(0xff, &[0u8; 29])]).unwrap(),
    ];
    for buf in bufs {
        let len = buf.header().payload_length();
        assert!((6..=37).contains(&len));
        assert_eq!(buf.payload().len(), len as usize);
    }
}

#[test]
fn assembled_header_bits_are_exact() {
    let a = DeviceAddress::new(ADDR, true);
    let b = DeviceAddress::new(ADDR, false);
    // Type 0x1, TxAdd set, RxAdd clear, length 12, reserved gaps zero.
    let buf = PduBuf::connectable_directed(a, b);
    assert_eq!(buf.header().to_u16(), 0x0c41);

    // Type 0x2, no flags, length 9, reserved gaps zero.
    let buf = PduBuf::beacon(b, &[]).unwrap();
    assert_eq!(buf.header().to_u16(), 0x0902);
    assert_eq!(buf.header().to_u16() & 0xc030, 0);
}

#[test]
fn random_address_flag_sets_tx_add() {
    let random = DeviceAddress::new(ADDR, true);
    let public = DeviceAddress::new(ADDR, false);
    assert!(PduBuf::beacon(random, &[]).unwrap().header().tx_add());
    assert!(!PduBuf::beacon(public, &[]).unwrap().header().tx_add());
    assert!(random.is_random());
    assert!(!public.is_random());
    assert_eq!(random.raw(), &ADDR);
}
