use bacnet::address::Address;
use bacnet::whohas::{i_have_handler, IHaveData, ObjectId, WhoHas};
use bacnet::whois::{i_am_handler, Destination, IAm, IAmDevice, WhoIs};

fn local(last: u8) -> Address {
    Address { mac_len: 6, mac: [10, 0, 0, last, 0xBA, 0xC0, 9], net: 0, len: 0, adr: [7; 7] }
}

fn routed(net: u16, station: u8) -> Address {
    Address {
        mac_len: 6,
        mac: [10, 0, 0, 1, 0xBA, 0xC0, 9],
        net,
        len: 1,
        adr: [station, 8, 8, 8, 8, 8, 8],
    }
}

#[test]
fn who_is_defaults() {
    let who_is = WhoIs::new();
    assert_eq!(who_is.timeout, 3000);
    assert_eq!(who_is.subnet, None);
    assert_eq!(WhoIs::default(), who_is);
    assert_eq!(who_is.destination(), Destination::Global);
}

#[test]
fn who_is_builder() {
    let who_is = WhoIs::new().timeout(1000).subnet(Some(5));
    assert_eq!(who_is.timeout, 1000);
    assert_eq!(who_is.subnet, Some(5));
    assert_eq!(who_is.destination(), Destination::Network(5));
    let back = who_is.subnet(None);
    assert_eq!(back.timeout, 1000);
    assert_eq!(back.destination(), Destination::Global);
}

#[test]
fn who_is_listens_until_the_timeout() {
    let who_is = WhoIs::new().timeout(1000);
    assert!(who_is.listening(0));
    assert!(who_is.listening(999));
    assert!(!who_is.listening(1000));
    assert!(!who_is.listening(5000));
    assert!(!WhoIs::new().timeout(0).listening(0));
}

#[test]
fn who_is_takes_the_list() {
    let mut discovered = vec![];
    let reply = |device_id| Some(IAm { device_id, max_apdu: 1476, vendor_id: 260 });
    i_am_handler(&mut discovered, reply(1), &local(1));
    i_am_handler(&mut discovered, reply(2), &local(2));
    i_am_handler(&mut discovered, reply(3), &local(3));
    let devices = WhoIs::new().execute(&mut discovered).unwrap();
    let ids: Vec<u32> = devices.iter().map(|d| d.device_id).collect();
    assert_eq!(ids, vec![1, 2, 3]);
    assert!(discovered.is_empty());
    // a second search finds the list empty
    assert_eq!(WhoIs::new().execute(&mut discovered), Ok(vec![]));
}

#[test]
fn i_am_of_a_local_device() {
    let mut discovered = vec![];
    i_am_handler(
        &mut discovered,
        Some(IAm { device_id: 260001, max_apdu: 480, vendor_id: 15 }),
        &local(42),
    );
    assert_eq!(
        discovered,
        vec![IAmDevice {
            device_id: 260001,
            max_apdu: 480,
            vendor_id: 15,
            mac_addr: [10, 0, 0, 42, 0xBA, 0xC0],
            network_number: 0,
            addr: [0; 6],
        }]
    );
}

#[test]
fn i_am_of_a_routed_device() {
    let mut discovered = vec![];
    i_am_handler(
        &mut discovered,
        Some(IAm { device_id: 9, max_apdu: 50, vendor_id: 1 }),
        &routed(12, 34),
    );
    assert_eq!(
        discovered,
        vec![IAmDevice {
            device_id: 9,
            max_apdu: 50,
            vendor_id: 1,
            mac_addr: [10, 0, 0, 1, 0xBA, 0xC0],
            network_number: 12,
            addr: [34, 0, 0, 0, 0, 0],
        }]
    );
}

#[test]
fn i_am_with_a_short_mac_is_padded_with_zeros() {
    let src = Address { mac_len: 1, mac: [5, 6, 7, 8, 9, 10, 11], net: 3, len: 6, adr: [1; 7] };
    let device = IAmDevice::new(IAm { device_id: 1, max_apdu: 2, vendor_id: 3 }, &src);
    assert_eq!(device.mac_addr, [5, 0, 0, 0, 0, 0]);
    assert_eq!(device.addr, [1, 1, 1, 1, 1, 1]);
    assert_eq!(device.network_number, 3);
}

#[test]
fn i_am_that_cannot_be_decoded_is_dropped() {
    let mut discovered = vec![];
    i_am_handler(&mut discovered, None, &local(1));
    assert!(discovered.is_empty());
}

#[test]
fn who_has_defaults() {
    let who_has = WhoHas::new();
    assert_eq!(who_has.object_type, 8);
    assert_eq!(who_has.object_instance, 0);
    assert_eq!(who_has.timeout, 3000);
    assert_eq!(who_has.subnet, None);
    assert_eq!(WhoHas::default(), who_has);
    assert_eq!(who_has.destination(), Destination::Global);
}

#[test]
fn who_has_builder() {
    let who_has = WhoHas::new().object_type(2).object_instance(17).timeout(250).subnet(Some(4));
    assert_eq!(who_has.object_type, 2);
    assert_eq!(who_has.object_instance, 17);
    assert_eq!(who_has.timeout, 250);
    assert_eq!(who_has.subnet, Some(4));
    assert_eq!(who_has.destination(), Destination::Network(4));
    assert!(who_has.listening(249));
    assert!(!who_has.listening(250));
}

#[test]
fn who_has_takes_the_list() {
    let answer = |device: u32, name: &str| IHaveData {
        device_id: ObjectId { object_type: 8, object_instance: device },
        object_id: ObjectId { object_type: 2, object_instance: 17 },
        object_name: String::from(name),
    };
    let mut discovered = vec![];
    i_have_handler(&mut discovered, Some(answer(1, "first")));
    i_have_handler(&mut discovered, None);
    i_have_handler(&mut discovered, Some(answer(2, "second")));
    let answers = WhoHas::new().execute(&mut discovered).unwrap();
    assert_eq!(answers, vec![answer(1, "first"), answer(2, "second")]);
    assert!(discovered.is_empty());
    assert_eq!(WhoHas::new().execute(&mut discovered), Ok(vec![]));
}
