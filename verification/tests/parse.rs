use arp::address::{Ipv4Addr, MacAddr};
use arp::builder::Builder as Build;
use arp::size::{Max, Min, Size};
use arp::{Error, Operation, Packet};

#[test]
fn from_request_packet() {
    let bytes = [
        0u8, 1, 8, 0, 6, 4, 0, 1, 35, 35, 37, 83, 35, 148, 192, 168, 1, 3, 0, 0, 0, 0, 0, 0, 192,
        168, 1, 4,
    ];

    let source_mac = MacAddr::new([0x23, 0x23, 0x25, 0x53, 0x23, 0x94]);
    let source_ip = Ipv4Addr::new(192, 168, 1, 3);
    let to_find = Ipv4Addr::new(192, 168, 1, 4);

    let packet = Packet::<MacAddr, Ipv4Addr>::unchecked(&bytes);
    assert!(matches!(packet, Packet::Request(_)));

    if let Packet::Request(p) = packet {
        assert_eq!(p.source_mac(), source_mac);
        assert_eq!(p.source_ip(), source_ip);
        assert_eq!(p.ip_to_find(), to_find);
    }
}

#[test]
fn from_response_packet() {
    let bytes = [
        0u8, 1, 8, 0, 6, 4, 0, 2, 35, 35, 37, 83, 35, 148, 192, 168, 1, 3, 135, 35, 37, 16, 35,
        148, 192, 168, 1, 4,
    ];

    let source_mac = MacAddr::new([0x23, 0x23, 0x25, 0x53, 0x23, 0x94]);
    let source_ip = Ipv4Addr::new(192, 168, 1, 3);
    let dest_mac = MacAddr::new([0x87, 0x23, 0x25, 0x10, 0x23, 0x94]);
    let dest_ip = Ipv4Addr::new(192, 168, 1, 4);

    let packet = Packet::<MacAddr, Ipv4Addr>::unchecked(&bytes);
    assert!(matches!(packet, Packet::Response(_)));

    if let Packet::Response(p) = packet {
        assert_eq!(p.source_mac(), source_mac);
        assert_eq!(p.source_ip(), source_ip);
        assert_eq!(p.destination_mac(), dest_mac);
        assert_eq!(p.destination_ip(), dest_ip);
    }
}

#[test]
fn new_rejects_short_buffer() {
    let bytes = [0u8; 27];
    let result = Packet::<MacAddr, Ipv4Addr>::new(&bytes);
    assert_eq!(result.unwrap_err(), Error::SmallBuffer);

    let empty: [u8; 0] = [];
    let result = Packet::<MacAddr, Ipv4Addr>::new(&empty);
    assert_eq!(result.unwrap_err(), Error::SmallBuffer);
}

#[test]
fn new_rejects_unknown_operation() {
    let mut bytes = [0u8; 28];
    bytes[6] = 0x00;
    bytes[7] = 0x03;
    let result = Packet::<MacAddr, Ipv4Addr>::new(&bytes);
    assert_eq!(result.unwrap_err(), Error::InvalidPacket);
}

#[test]
fn new_accepts_both_operations() {
    let mut bytes = [0u8; 28];
    bytes[7] = 1;
    let packet = Packet::<MacAddr, Ipv4Addr>::new(&bytes).unwrap();
    assert!(matches!(packet, Packet::Request(_)));
    assert_eq!(packet.operation(), Operation::Request);

    bytes[7] = 2;
    let packet = Packet::<MacAddr, Ipv4Addr>::new(&bytes).unwrap();
    assert!(matches!(packet, Packet::Response(_)));
    assert_eq!(packet.operation(), Operation::Reply);
}

#[test]
fn parse_built_request_view() {
    // the literal request bytes of the build-side round trip, read back
    // through the zero-copy view over a plain borrow
    let bytes = [
        0x00u8, 0x01, 0x08, 0x00, 0x06, 0x04, 0x00, 0x01, 0x23, 0x23, 0x25, 0x53, 0x23, 0x94,
        0xC0, 0xA8, 0x01, 0x03, 0x00, 0x00, 0x00, 0x00, 0x00, 0x00, 0xC0, 0xA8, 0x01, 0x04,
    ];

    let packet = Packet::<MacAddr, Ipv4Addr>::new(&bytes).unwrap();
    if let Packet::Request(p) = packet {
        assert_eq!(p.source_mac(), MacAddr::new([0x23, 0x23, 0x25, 0x53, 0x23, 0x94]));
        assert_eq!(p.source_ip(), Ipv4Addr::new(192, 168, 1, 3));
        assert_eq!(p.ip_to_find(), Ipv4Addr::new(192, 168, 1, 4));
    } else {
        panic!("expected a request view");
    }
}

#[test]
fn round_trip_request() {
    let source_mac = MacAddr::new([0xAA, 0xBB, 0xCC, 0x01, 0x02, 0x03]);
    let source_ip = Ipv4Addr::new(172, 16, 254, 1);
    let to_find = Ipv4Addr::new(172, 16, 254, 99);

    let packet = arp::RequestBuilder::<MacAddr, Ipv4Addr>::default()
        .source(source_mac, source_ip)
        .unwrap()
        .ip_to_find(to_find)
        .unwrap()
        .build()
        .unwrap();

    let view = Packet::<MacAddr, Ipv4Addr>::new(&packet).unwrap();
    if let Packet::Request(p) = view {
        assert_eq!(p.source_mac(), source_mac);
        assert_eq!(p.source_ip(), source_ip);
        assert_eq!(p.ip_to_find(), to_find);
    } else {
        panic!("expected a request view");
    }
}

#[test]
fn round_trip_response() {
    let source_mac = MacAddr::new([0xAA, 0xBB, 0xCC, 0x01, 0x02, 0x03]);
    let source_ip = Ipv4Addr::new(172, 16, 254, 1);
    let dest_mac = MacAddr::new([0x10, 0x20, 0x30, 0x40, 0x50, 0x60]);
    let dest_ip = Ipv4Addr::new(172, 16, 254, 99);

    let packet = arp::ResponseBuilder::<MacAddr, Ipv4Addr>::default()
        .source(source_mac, source_ip)
        .unwrap()
        .destination(dest_mac, dest_ip)
        .unwrap()
        .build()
        .unwrap();

    let view = Packet::<MacAddr, Ipv4Addr>::new(&packet).unwrap();
    if let Packet::Response(p) = view {
        assert_eq!(p.source_mac(), source_mac);
        assert_eq!(p.source_ip(), source_ip);
        assert_eq!(p.destination_mac(), dest_mac);
        assert_eq!(p.destination_ip(), dest_ip);
    } else {
        panic!("expected a response view");
    }
}

#[test]
fn packet_size_reports() {
    assert_eq!(<Packet<'static, MacAddr, Ipv4Addr> as Min>::min(), 28);
    assert_eq!(<Packet<'static, MacAddr, Ipv4Addr> as Max>::max(), 28);

    let bytes = [
        0u8, 1, 8, 0, 6, 4, 0, 1, 35, 35, 37, 83, 35, 148, 192, 168, 1, 3, 0, 0, 0, 0, 0, 0, 192,
        168, 1, 4,
    ];
    let packet = Packet::<MacAddr, Ipv4Addr>::new(&bytes).unwrap();
    assert_eq!(packet.size(), 28);
}
