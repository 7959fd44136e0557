use vmachine::bus::Bus;

#[test]
fn poll_returns_written_bytes_in_order_then_nothing() {
    let mut bus = Bus::new();
    let address = bus.register("id-0".to_string(), "first".to_string());
    bus.write(address, 0xA0);
    bus.write(address, 0x01);
    bus.write(address, 0x02);
    assert_eq!(bus.poll(address), vec![0xA0, 0x01, 0x02]);
    assert_eq!(bus.poll(address), Vec::<u8>::new());
}

#[test]
fn write_to_unregistered_address_is_dropped() {
    let mut bus = Bus::new();
    bus.write(3, 0x42);
    assert_eq!(bus.poll(3), Vec::<u8>::new());
    assert_eq!(bus.device_count(), 0);
}

#[test]
fn register_assigns_sequential_addresses() {
    let mut bus = Bus::new();
    assert_eq!(bus.register("a".to_string(), "A".to_string()), 0);
    assert_eq!(bus.register("b".to_string(), "B".to_string()), 1);
    assert_eq!(bus.register("c".to_string(), "C".to_string()), 2);
    assert_eq!(bus.device_count(), 3);
}

#[test]
fn mailboxes_are_separate() {
    let mut bus = Bus::new();
    let a = bus.register("a".to_string(), "A".to_string());
    let b = bus.register("b".to_string(), "B".to_string());
    bus.write(a, 1);
    bus.write(b, 2);
    bus.write(a, 3);
    assert_eq!(bus.poll(b), vec![2]);
    assert_eq!(bus.poll(a), vec![1, 3]);
}

#[test]
fn devices_lists_address_id_and_name() {
    let mut bus = Bus::new();
    assert_eq!(bus.devices(), "");
    bus.register("vgpu-0000".to_string(), "Graphics".to_string());
    bus.register("snd".to_string(), "Sound".to_string());
    assert_eq!(bus.devices(), "0x00: vgpu-0000 [Graphics]\n0x01: snd [Sound]\n");
}

#[test]
fn devices_listing_uses_uppercase_hex() {
    let mut bus = Bus::new();
    for i in 0..12u8 {
        bus.register(format!("d{}", i), "n".to_string());
    }
    let listing = bus.devices();
    assert!(listing.ends_with("0x0A: d10 [n]\n0x0B: d11 [n]\n"));
}
