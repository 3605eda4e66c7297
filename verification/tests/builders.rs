use arp::address::{Ipv4Addr, MacAddr};
use arp::buffer::Dynamic;
use arp::builder::Builder as Build;
use arp::Error;

#[test]
fn create_request_packet() {
    let buffer = Dynamic::new();

    let source_mac = MacAddr::new([0x23, 0x23, 0x25, 0x53, 0x23, 0x94]);
    let source_ip = Ipv4Addr::new(192, 168, 1, 3);
    let to_find = Ipv4Addr::new(192, 168, 1, 4);

    let packet = arp::Builder::with(buffer)
        .unwrap()
        .request::<MacAddr, Ipv4Addr>()
        .unwrap()
        .source(source_mac, source_ip)
        .unwrap()
        .ip_to_find(to_find)
        .unwrap()
        .build()
        .unwrap();

    assert_eq!(u16::from_be_bytes(packet[..2].try_into().unwrap()), 0x0001); // Ethernet
    assert_eq!(u16::from_be_bytes(packet[2..4].try_into().unwrap()), 0x0800); // IPv4

    assert_eq!(packet[4], 0x06); // mac len
    assert_eq!(packet[5], 0x04); // ipv4 len

    assert_eq!(u16::from_be_bytes(packet[6..8].try_into().unwrap()), 0x0001); // operation request

    assert_eq!(packet[8..14], [0x23, 0x23, 0x25, 0x53, 0x23, 0x94]);
    assert_eq!(packet[14..18], [192, 168, 1, 3]);

    assert_eq!(packet[18..24], [0, 0, 0, 0, 0, 0]);
    assert_eq!(packet[24..28], [192, 168, 1, 4]);
}

#[test]
fn create_response_packet() {
    let buffer = Dynamic::new();

    let source_mac = MacAddr::new([0x23, 0x23, 0x25, 0x53, 0x23, 0x94]);
    let source_ip = Ipv4Addr::new(192, 168, 1, 3);
    let dest_mac = MacAddr::new([0x87, 0x23, 0x25, 0x10, 0x23, 0x94]);
    let dest_ip = Ipv4Addr::new(192, 168, 1, 4);

    let packet = arp::Builder::with(buffer)
        .unwrap()
        .response::<MacAddr, Ipv4Addr>()
        .unwrap()
        .source(source_mac, source_ip)
        .unwrap()
        .destination(dest_mac, dest_ip)
        .unwrap()
        .build()
        .unwrap();

    assert_eq!(u16::from_be_bytes(packet[..2].try_into().unwrap()), 0x0001); // Ethernet
    assert_eq!(u16::from_be_bytes(packet[2..4].try_into().unwrap()), 0x0800); // IPv4

    assert_eq!(packet[4], 0x06); // mac len
    assert_eq!(packet[5], 0x04); // ipv4 len

    assert_eq!(u16::from_be_bytes(packet[6..8].try_into().unwrap()), 0x0002); // operation reply

    assert_eq!(packet[8..14], [0x23, 0x23, 0x25, 0x53, 0x23, 0x94]);
    assert_eq!(packet[14..18], [192, 168, 1, 3]);

    assert_eq!(packet[18..24], [0x87, 0x23, 0x25, 0x10, 0x23, 0x94]);
    assert_eq!(packet[24..28], [192, 168, 1, 4]);
}

#[test]
fn request_wire_bytes_exact() {
    let source_mac = MacAddr::new([0x23, 0x23, 0x25, 0x53, 0x23, 0x94]);
    let source_ip = Ipv4Addr::new(192, 168, 1, 3);
    let to_find = Ipv4Addr::new(192, 168, 1, 4);

    let packet = arp::RequestBuilder::<MacAddr, Ipv4Addr>::default()
        .source(source_mac, source_ip)
        .unwrap()
        .ip_to_find(to_find)
        .unwrap()
        .build()
        .unwrap();

    let expected: Vec<u8> = vec![
        0x00, 0x01, 0x08, 0x00, 0x06, 0x04, 0x00, 0x01, 0x23, 0x23, 0x25, 0x53, 0x23, 0x94, 0xC0,
        0xA8, 0x01, 0x03, 0x00, 0x00, 0x00, 0x00, 0x00, 0x00, 0xC0, 0xA8, 0x01, 0x04,
    ];
    assert_eq!(packet, expected);
}

#[test]
fn response_wire_bytes_exact() {
    let source_mac = MacAddr::new([0x23, 0x23, 0x25, 0x53, 0x23, 0x94]);
    let source_ip = Ipv4Addr::new(192, 168, 1, 3);
    let dest_mac = MacAddr::new([0x87, 0x23, 0x25, 0x10, 0x23, 0x94]);
    let dest_ip = Ipv4Addr::new(192, 168, 1, 4);

    let packet = arp::ResponseBuilder::<MacAddr, Ipv4Addr>::default()
        .source(source_mac, source_ip)
        .unwrap()
        .destination(dest_mac, dest_ip)
        .unwrap()
        .build()
        .unwrap();

    let expected: Vec<u8> = vec![
        0x00, 0x01, 0x08, 0x00, 0x06, 0x04, 0x00, 0x02, 0x23, 0x23, 0x25, 0x53, 0x23, 0x94, 0xC0,
        0xA8, 0x01, 0x03, 0x87, 0x23, 0x25, 0x10, 0x23, 0x94, 0xC0, 0xA8, 0x01, 0x04,
    ];
    assert_eq!(packet, expected);
}

#[test]
fn build_incomplete_request() {
    let source_mac = MacAddr::new([0x23, 0x23, 0x25, 0x53, 0x23, 0x94]);
    let source_ip = Ipv4Addr::new(192, 168, 1, 3);

    let result = arp::RequestBuilder::<MacAddr, Ipv4Addr>::default()
        .source(source_mac, source_ip)
        .unwrap()
        .build();
    assert_eq!(result.unwrap_err(), Error::IncompletePacket);
}

#[test]
fn build_incomplete_response() {
    let source_mac = MacAddr::new([0x23, 0x23, 0x25, 0x53, 0x23, 0x94]);
    let source_ip = Ipv4Addr::new(192, 168, 1, 3);

    let result = arp::ResponseBuilder::<MacAddr, Ipv4Addr>::default()
        .source(source_mac, source_ip)
        .unwrap()
        .build();
    assert_eq!(result.unwrap_err(), Error::IncompletePacket);
}

#[test]
fn build_without_operation() {
    let top = arp::Builder::with(Dynamic::new()).unwrap();
    assert_eq!(top.build().unwrap_err(), Error::InvalidPacket);
}

#[test]
fn field_codes_stable_across_setters() {
    let source_mac = MacAddr::new([0x23, 0x23, 0x25, 0x53, 0x23, 0x94]);
    let source_ip = Ipv4Addr::new(192, 168, 1, 3);
    let dest_mac = MacAddr::new([0x87, 0x23, 0x25, 0x10, 0x23, 0x94]);
    let dest_ip = Ipv4Addr::new(192, 168, 1, 4);

    // the first setter stamps the type and length fields ...
    let first = arp::ResponseBuilder::<MacAddr, Ipv4Addr>::default()
        .source(source_mac, source_ip)
        .unwrap()
        .destination(dest_mac, dest_ip)
        .unwrap()
        .build()
        .unwrap();

    // ... and further setter calls, here with the groups supplied twice in
    // the other order, leave bytes 0..6 exactly as the first call left them
    let second = arp::ResponseBuilder::<MacAddr, Ipv4Addr>::default()
        .destination(dest_mac, dest_ip)
        .unwrap()
        .source(source_mac, source_ip)
        .unwrap()
        .source(source_mac, source_ip)
        .unwrap()
        .build()
        .unwrap();

    assert_eq!(first[..6], second[..6]);
    assert_eq!(first[..6], [0x00, 0x01, 0x08, 0x00, 0x06, 0x04]);
}

#[test]
fn request_builder_default_matches_with() {
    let via_with = arp::Builder::with(Dynamic::new())
        .unwrap()
        .request::<MacAddr, Ipv4Addr>()
        .unwrap()
        .source(
            MacAddr::new([1, 2, 3, 4, 5, 6]),
            Ipv4Addr::new(10, 0, 0, 1),
        )
        .unwrap()
        .ip_to_find(Ipv4Addr::new(10, 0, 0, 2))
        .unwrap()
        .build()
        .unwrap();

    let via_default = arp::RequestBuilder::<MacAddr, Ipv4Addr>::default()
        .source(
            MacAddr::new([1, 2, 3, 4, 5, 6]),
            Ipv4Addr::new(10, 0, 0, 1),
        )
        .unwrap()
        .ip_to_find(Ipv4Addr::new(10, 0, 0, 2))
        .unwrap()
        .build()
        .unwrap();

    assert_eq!(via_with, via_default);
}
