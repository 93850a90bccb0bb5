use eln_plugin_sdk::Permissions;

#[test]
fn admin_is_read_write_modify() {
    assert!(Permissions::ADMIN.contains(Permissions::READ));
    assert!(Permissions::ADMIN.contains(Permissions::WRITE));
    assert!(Permissions::ADMIN.contains(Permissions::MODIFY));
    assert_eq!(
        Permissions::ADMIN,
        Permissions::READ | Permissions::WRITE | Permissions::MODIFY
    );
}

#[test]
fn empty_grants_nothing() {
    let p = Permissions::empty();
    assert!(!p.contains(Permissions::READ));
    assert!(!p.contains(Permissions::WRITE));
    assert!(!p.contains(Permissions::MODIFY));
}

#[test]
fn flag_bits_follow_their_shift() {
    assert_eq!(Permissions::READ.bits(), 1 << 0);
    assert_eq!(Permissions::WRITE.bits(), 1 << 1);
    assert_eq!(Permissions::MODIFY.bits(), 1 << 2);
    assert_eq!(Permissions::ADMIN.bits(), 7);
    assert_eq!(Permissions::empty().bits(), 0);
    assert_eq!(Permissions::all(), Permissions::ADMIN);
}

#[test]
fn admin_contains_every_value() {
    for bits in 0u32..8 {
        let p = Permissions::from_bits_truncate(bits);
        assert!(Permissions::ADMIN.contains(p));
    }
}

#[test]
fn empty_contains_only_empty() {
    let e = Permissions::empty();
    assert!(e.contains(Permissions::empty()));
    assert!(!e.contains(Permissions::READ_WRITE));
    assert!(!e.contains(Permissions::ADMIN));
}

#[test]
fn contains_orders_values() {
    let rw = Permissions::READ | Permissions::WRITE;
    assert!(rw.contains(rw));
    assert!(rw.contains(Permissions::READ));
    assert!(!Permissions::READ.contains(rw));
    assert!(Permissions::ADMIN.contains(rw));
    assert!(!rw.contains(Permissions::MODIFY));
}

#[test]
fn union_is_least_upper_bound() {
    let u = Permissions::READ.union(Permissions::MODIFY);
    assert_eq!(u, Permissions::READ_MODIFY);
    assert_eq!(u.bits(), 5);
    assert!(u.contains(Permissions::READ));
    assert!(u.contains(Permissions::MODIFY));
    assert!(!u.contains(Permissions::WRITE));
    assert_eq!(Permissions::WRITE | Permissions::MODIFY, Permissions::WRITE_MODIFY);
    assert_eq!(Permissions::READ | Permissions::READ, Permissions::READ);
}

#[test]
fn truncation_drops_undefined_bits() {
    assert_eq!(Permissions::from_bits_truncate(9), Permissions::READ);
    assert_eq!(Permissions::from_bits_truncate(0xffff_fff8), Permissions::empty());
    assert_eq!(Permissions::from_bits_truncate(u32::MAX), Permissions::ADMIN);
    assert_eq!(Permissions::from_bits_truncate(6), Permissions::WRITE_MODIFY);
}

#[test]
fn bits_round_trip() {
    for p in [
        Permissions::EMPTY,
        Permissions::READ,
        Permissions::WRITE,
        Permissions::MODIFY,
        Permissions::READ_WRITE,
        Permissions::READ_MODIFY,
        Permissions::WRITE_MODIFY,
        Permissions::ADMIN,
    ] {
        assert_eq!(Permissions::from_bits_truncate(p.bits()), p);
    }
}

#[test]
fn debug_text_names_the_flags() {
    assert_eq!(Permissions::empty().debug_string(), "Permissions(0x0)");
    assert_eq!(Permissions::READ.debug_string(), "Permissions(READ)");
    assert_eq!(
        (Permissions::READ | Permissions::WRITE).debug_string(),
        "Permissions(READ | WRITE)"
    );
    assert_eq!(Permissions::WRITE_MODIFY.debug_string(), "Permissions(WRITE | MODIFY)");
    assert_eq!(Permissions::ADMIN.debug_string(), "Permissions(READ | WRITE | MODIFY)");
}

#[test]
fn set_operations_follow_the_bits() {
    let rw = Permissions::READ_WRITE;
    let wm = Permissions::WRITE_MODIFY;
    assert_eq!(rw.intersection(wm), Permissions::WRITE);
    assert_eq!(rw & wm, Permissions::WRITE);
    assert_eq!(rw.difference(wm), Permissions::READ);
    assert_eq!(rw - wm, Permissions::READ);
    assert_eq!(rw.symmetric_difference(wm), Permissions::READ_MODIFY);
    assert_eq!(rw ^ wm, Permissions::READ_MODIFY);
    assert_eq!(rw.complement(), Permissions::MODIFY);
    assert_eq!(!Permissions::empty(), Permissions::ADMIN);
    assert_eq!(!Permissions::ADMIN, Permissions::empty());
}

#[test]
fn queries_follow_the_bits() {
    assert!(Permissions::empty().is_empty());
    assert!(!Permissions::READ.is_empty());
    assert!(Permissions::ADMIN.is_all());
    assert!(!Permissions::READ_WRITE.is_all());
    assert!(Permissions::READ_WRITE.intersects(Permissions::WRITE_MODIFY));
    assert!(!Permissions::READ.intersects(Permissions::WRITE_MODIFY));
}

#[test]
fn mutators_follow_the_bits() {
    let mut p = Permissions::empty();
    p.insert(Permissions::READ);
    p.insert(Permissions::MODIFY);
    assert_eq!(p, Permissions::READ_MODIFY);
    p.remove(Permissions::READ);
    assert_eq!(p, Permissions::MODIFY);
    p.toggle(Permissions::ADMIN);
    assert_eq!(p, Permissions::READ_WRITE);
    p.set(Permissions::MODIFY, true);
    assert_eq!(p, Permissions::ADMIN);
    p.set(Permissions::WRITE, false);
    assert_eq!(p, Permissions::READ_MODIFY);
}

#[test]
fn from_bits_refuses_undefined_bits() {
    assert_eq!(Permissions::from_bits(3), Some(Permissions::READ_WRITE));
    assert_eq!(Permissions::from_bits(0), Some(Permissions::empty()));
    assert_eq!(Permissions::from_bits(8), None);
    assert_eq!(Permissions::from_bits(15), None);
}

#[test]
fn iter_yields_flags_in_order() {
    assert_eq!(
        Permissions::ADMIN.iter(),
        vec![Permissions::READ, Permissions::WRITE, Permissions::MODIFY]
    );
    assert_eq!(Permissions::WRITE_MODIFY.iter(), vec![Permissions::WRITE, Permissions::MODIFY]);
    assert!(Permissions::empty().iter().is_empty());
}

#[test]
fn version_is_the_package_version() {
    assert_eq!(eln_plugin_sdk::VERSION, "0.1.0");
}
