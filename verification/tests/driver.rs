use tlc59208::{MockBus, Tlc59208};

const ADDR: u8 = 0x20;

const SETUP_PAYLOAD: [u8; 19] = [
    0x80, 0x81, 0x03, 0x00, 0x00, 0x00, 0x00, 0x00, 0x00, 0x00, 0x00, 0xFF, 0x00, 0xAA, 0xAA,
    0x92, 0x94, 0x98, 0xD0,
];

fn driver() -> Tlc59208<MockBus> {
    Tlc59208::new(MockBus::new(), ADDR).expect("construction cannot fail")
}

fn payload(d: &Tlc59208<MockBus>, i: usize) -> Vec<u8> {
    let bus = d.bus_ref();
    let mut out = Vec::new();
    for j in 0..bus.write_len(i) {
        out.push(bus.write_byte(i, j));
    }
    out
}

fn flushed_shadow(d: &mut Tlc59208<MockBus>) -> Vec<u8> {
    d.update().expect("mock accepts writes");
    let i = d.bus_ref().write_count() - 1;
    let p = payload(d, i);
    assert_eq!(p[0], 0xA2);
    p[1..].to_vec()
}

#[test]
fn new_starts_all_zero() {
    let mut d = driver();
    assert_eq!(flushed_shadow(&mut d), vec![0, 0, 0, 0, 0, 0, 0, 0]);
}

#[test]
fn set_in_range_changes_only_that_channel() {
    for c in 0..8u8 {
        let mut d = driver();
        d.set(c, 0xC3);
        let s = flushed_shadow(&mut d);
        for i in 0..8usize {
            if i == c as usize {
                assert_eq!(s[i], 0xC3);
            } else {
                assert_eq!(s[i], 0);
            }
        }
    }
}

#[test]
fn set_out_of_range_is_a_no_op() {
    let mut d = driver();
    d.set(1, 10);
    d.set(8, 99);
    d.set(255, 99);
    assert_eq!(flushed_shadow(&mut d), vec![0, 10, 0, 0, 0, 0, 0, 0]);
}

#[test]
fn rgb_group_zero_stores_blue_green_red() {
    let mut d = driver();
    d.aux(0, 44);
    d.aux(1, 55);
    d.rgb(0, (1, 2, 3));
    assert_eq!(flushed_shadow(&mut d), vec![3, 2, 1, 44, 0, 0, 0, 55]);
}

#[test]
fn rgb_group_one_stores_blue_green_red() {
    let mut d = driver();
    d.aux(0, 44);
    d.aux(1, 55);
    d.rgb(1, (7, 8, 9));
    assert_eq!(flushed_shadow(&mut d), vec![0, 0, 0, 44, 9, 8, 7, 55]);
}

#[test]
fn rgb_other_groups_fall_back_to_group_zero() {
    for group in [0u8, 2, 5, 255] {
        let mut d = driver();
        d.rgb(group, (10, 20, 30));
        assert_eq!(flushed_shadow(&mut d), vec![30, 20, 10, 0, 0, 0, 0, 0]);
    }
}

#[test]
fn aux_sets_exactly_one_slot_per_group() {
    let mut d = driver();
    d.aux(0, 11);
    assert_eq!(flushed_shadow(&mut d), vec![0, 0, 0, 11, 0, 0, 0, 0]);
    d.aux(1, 22);
    assert_eq!(flushed_shadow(&mut d), vec![0, 0, 0, 11, 0, 0, 0, 22]);
}

#[test]
fn aux_other_groups_are_a_no_op() {
    let mut d = driver();
    d.aux(0, 11);
    d.aux(1, 22);
    d.aux(2, 99);
    d.aux(255, 99);
    assert_eq!(flushed_shadow(&mut d), vec![0, 0, 0, 11, 0, 0, 0, 22]);
}

#[test]
fn setup_issues_exactly_the_configuration_payload() {
    let mut d = driver();
    d.setup().expect("mock accepts writes");
    assert_eq!(d.bus_ref().write_count(), 1);
    assert_eq!(d.bus_ref().write_address(0), ADDR);
    assert_eq!(payload(&d, 0), SETUP_PAYLOAD.to_vec());
}

#[test]
fn setup_leaves_the_shadow_alone() {
    let mut d = driver();
    d.set(5, 123);
    d.setup().expect("mock accepts writes");
    assert_eq!(flushed_shadow(&mut d), vec![0, 0, 0, 0, 0, 123, 0, 0]);
}

#[test]
fn off_zeroes_and_issues_one_all_zero_transaction() {
    let mut d = driver();
    d.set(0, 1);
    d.rgb(1, (2, 3, 4));
    d.off().expect("mock accepts writes");
    assert_eq!(d.bus_ref().write_count(), 1);
    assert_eq!(d.bus_ref().write_address(0), ADDR);
    assert_eq!(payload(&d, 0), vec![0xA2, 0, 0, 0, 0, 0, 0, 0, 0]);
    assert_eq!(flushed_shadow(&mut d), vec![0, 0, 0, 0, 0, 0, 0, 0]);
}

#[test]
fn update_reflects_mutators_in_call_order() {
    let mut d = driver();
    d.set(0, 1);
    d.rgb(0, (5, 6, 7));
    d.rgb(1, (8, 9, 10));
    d.aux(0, 11);
    d.aux(1, 12);
    d.set(1, 200);
    d.update().expect("mock accepts writes");
    assert_eq!(d.bus_ref().write_count(), 1);
    assert_eq!(d.bus_ref().write_address(0), ADDR);
    assert_eq!(payload(&d, 0), vec![0xA2, 7, 200, 5, 11, 10, 9, 8, 12]);
}

#[test]
fn update_twice_issues_two_identical_transactions() {
    let mut d = driver();
    d.set(3, 42);
    d.update().expect("mock accepts writes");
    d.update().expect("mock accepts writes");
    assert_eq!(d.bus_ref().write_count(), 2);
    assert_eq!(payload(&d, 0), payload(&d, 1));
    assert_eq!(payload(&d, 0), vec![0xA2, 0, 0, 0, 42, 0, 0, 0, 0]);
}

#[test]
fn transport_failure_is_propagated() {
    let mut bus = MockBus::new();
    bus.set_failing(true);
    let mut d = Tlc59208::new(bus, ADDR).expect("construction cannot fail");
    assert!(d.setup().is_err());
    assert!(d.update().is_err());
    assert!(d.off().is_err());
    // each refused write was still attempted on the wire
    assert_eq!(d.bus_ref().write_count(), 3);
}

#[test]
fn failed_off_still_resets_the_shadow_in_memory() {
    let mut bus = MockBus::new();
    bus.set_failing(true);
    let mut d = Tlc59208::new(bus, ADDR).expect("construction cannot fail");
    d.set(2, 77);
    assert!(d.off().is_err());
    // the reset happened before the failed write: the attempted payload
    // already carries all zeroes, not the 77 cached just before
    assert_eq!(d.bus_ref().write_count(), 1);
    assert_eq!(payload(&d, 0), vec![0xA2, 0, 0, 0, 0, 0, 0, 0, 0]);
}
