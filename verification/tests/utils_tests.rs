use g910_replay::usb::{Direction, TransferType};
use g910_replay::utils::{
    find_device, get_endpoints, get_readable_endpoints, get_writable_endpoints, nest_prefix,
    resolve_prefix, Endpoint,
};

fn endpoint(address: u8, iface: u8) -> Endpoint {
    Endpoint { config: 1, iface, setting: 0, address, transfer_type: TransferType::Interrupt }
}

#[test]
fn endpoints_filter_by_direction() {
    let all = vec![endpoint(0x81, 0), endpoint(0x02, 1), endpoint(0x82, 1)];
    let readable = get_readable_endpoints(&all);
    assert_eq!(readable.len(), 2);
    assert_eq!(readable[0].address, 0x81);
    assert_eq!(readable[1].address, 0x82);
    let writable = get_writable_endpoints(&all);
    assert_eq!(writable.len(), 1);
    assert_eq!(writable[0].address, 0x02);
    assert!(get_endpoints(&vec![], Direction::In).is_empty());
}

#[test]
fn endpoint_direction_follows_address_bit() {
    assert_eq!(endpoint(0x81, 0).direction(), Direction::In);
    assert_eq!(endpoint(0x01, 0).direction(), Direction::Out);
}

#[test]
fn find_device_picks_first_match() {
    let devices = vec![(0x1111, 0x2222), (0x046d, 0xc32b), (0x046d, 0xc32b)];
    assert_eq!(find_device(&devices, 0x046d, 0xc32b), Some(1));
    assert_eq!(find_device(&devices, 0x1111, 0x2222), Some(0));
    assert_eq!(find_device(&devices, 0xdead, 0xbeef), None);
    assert_eq!(find_device(&vec![], 1, 2), None);
}

#[test]
fn prefixes_nest_by_four_spaces() {
    assert_eq!(resolve_prefix(None), "");
    assert_eq!(resolve_prefix(Some("    ")), "    ");
    assert_eq!(nest_prefix(""), "    ");
    assert_eq!(nest_prefix("    "), "        ");
}
