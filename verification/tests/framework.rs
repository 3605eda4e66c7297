use arp::address::{DataLink, HardwareAddress, Ipv4Addr, MacAddr, Protocol, ProtocolAddress};
use arp::buffer::{Buffer, Dynamic, Fixed};
use arp::builder::{Builder as Build, Finalization, Fixup};
use arp::{Error, Operation};

#[test]
fn dynamic_buffer_grows_zeroed() {
    let mut buffer = Dynamic::new();
    assert_eq!(buffer.len(), 0);
    buffer.next(4).unwrap();
    assert_eq!(buffer.len(), 4);
    assert_eq!(buffer.get(0), 0);
    assert_eq!(buffer.get(3), 0);
    buffer.set(2, 0x7F);
    assert_eq!(buffer.get(2), 0x7F);
    assert_eq!(buffer.into_inner(), vec![0, 0, 0x7F, 0]);
}

#[test]
fn fixed_buffer_exhausts() {
    let mut buffer = Fixed::with_capacity(30);
    buffer.next(28).unwrap();
    assert_eq!(buffer.next(3).unwrap_err(), Error::Exhausted);
    // the failed request left the written region alone
    assert_eq!(buffer.len(), 28);
    buffer.next(2).unwrap();
    assert_eq!(buffer.len(), 30);
}

#[test]
fn fixed_buffer_too_small_for_header() {
    let buffer = Fixed::with_capacity(20);
    let result = arp::Builder::with(buffer)
        .unwrap()
        .request::<MacAddr, Ipv4Addr>();
    assert!(matches!(result, Err(Error::Exhausted)));
}

#[test]
fn fixed_buffer_builds_header() {
    let buffer = Fixed::with_capacity(28);
    let packet = arp::Builder::with(buffer)
        .unwrap()
        .request::<MacAddr, Ipv4Addr>()
        .unwrap()
        .source(
            MacAddr::new([1, 2, 3, 4, 5, 6]),
            Ipv4Addr::new(10, 0, 0, 1),
        )
        .unwrap()
        .ip_to_find(Ipv4Addr::new(10, 0, 0, 2))
        .unwrap()
        .build()
        .unwrap();
    assert_eq!(packet.len(), 28);
    assert_eq!(packet[8..14], [1, 2, 3, 4, 5, 6]);
}

#[test]
fn finalization_patches_bytes() {
    let mut chain = Finalization::new();
    chain.push(Fixup::SetByte { offset: 1, value: 0xAB });
    chain.push(Fixup::SetU16 { offset: 2, value: 0x1234 });
    chain.push(Fixup::LengthU16 { offset: 4 });

    let mut buffer = vec![0u8; 40];
    chain.finalize(&mut buffer).unwrap();
    assert_eq!(buffer[1], 0xAB);
    assert_eq!(buffer[2], 0x12);
    assert_eq!(buffer[3], 0x34);
    assert_eq!(buffer[4], 0x00);
    assert_eq!(buffer[5], 40);
}

#[test]
fn finalization_keeps_order_on_extend() {
    let mut inner = Finalization::new();
    inner.push(Fixup::SetByte { offset: 0, value: 0xAA });
    let mut outer = Finalization::new();
    outer.push(Fixup::SetByte { offset: 0, value: 0xBB });

    // the inner chain runs first, so the outer patch lands last and wins
    inner.extend(outer);
    let mut buffer = vec![0u8; 2];
    inner.finalize(&mut buffer).unwrap();
    assert_eq!(buffer[0], 0xBB);
}

#[test]
fn finalization_rejects_out_of_range() {
    let mut chain = Finalization::new();
    chain.push(Fixup::SetU16 { offset: 3, value: 7 });
    let mut buffer = vec![0u8; 4];
    assert_eq!(chain.finalize(&mut buffer).unwrap_err(), Error::SmallBuffer);
}

#[test]
fn finalization_runs_after_build() {
    let mut top = arp::Builder::with(Dynamic::new()).unwrap();
    top.finalizer().push(Fixup::SetByte { offset: 27, value: 0xEE });

    let packet = top
        .request::<MacAddr, Ipv4Addr>()
        .unwrap()
        .source(
            MacAddr::new([1, 2, 3, 4, 5, 6]),
            Ipv4Addr::new(10, 0, 0, 1),
        )
        .unwrap()
        .ip_to_find(Ipv4Addr::new(10, 0, 0, 2))
        .unwrap()
        .build()
        .unwrap();

    // the fix-up registered before the request was even started ran over
    // the finished bytes, replacing the last octet the builder wrote
    assert_eq!(packet[27], 0xEE);
}

#[test]
fn operation_codes_round_trip() {
    assert_eq!(Operation::from_code(1), Operation::Request);
    assert_eq!(Operation::from_code(2), Operation::Reply);
    assert_eq!(Operation::from_code(0x1234), Operation::Unknown(0x1234));
    assert_eq!(Operation::Request.code(), 1);
    assert_eq!(Operation::Reply.code(), 2);
    assert_eq!(Operation::Unknown(0x1234).code(), 0x1234);
}

#[test]
fn datalink_codes() {
    assert_eq!(DataLink::from_code(0x0001), DataLink::Ethernet);
    assert_eq!(DataLink::from_code(0x0042), DataLink::Unknown(0x0042));
    assert_eq!(DataLink::Ethernet.code_and_len(), (0x0001, 6));
    assert_eq!(DataLink::Unknown(0x0042).code_and_len(), (0x0042, 0));
    assert_eq!(DataLink::default(), DataLink::Ethernet);
}

#[test]
fn protocol_codes() {
    assert_eq!(Protocol::from_code(0x0800), Protocol::IPv4);
    assert_eq!(Protocol::from_code(0x0042), Protocol::Unknown(0x0042));
    assert_eq!(Protocol::IPv4.code_and_len(), (0x0800, 4));
    assert_eq!(Protocol::Unknown(0x0042).code_and_len(), (0x0042, 0));
    assert_eq!(Protocol::default(), Protocol::IPv4);
}

#[test]
fn address_accessors() {
    let mac = MacAddr::new([1, 2, 3, 4, 5, 6]);
    assert_eq!(mac.len(), 6);
    assert_eq!(mac.addr_type(), DataLink::Ethernet);
    assert_eq!(mac.octets(), vec![1, 2, 3, 4, 5, 6]);

    let ip = Ipv4Addr::new(192, 168, 0, 1);
    assert_eq!(ip.len(), 4);
    assert_eq!(ip.addr_type(), Protocol::IPv4);
    assert_eq!(ip.octets(), vec![192, 168, 0, 1]);
}
