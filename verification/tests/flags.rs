use javascriptcore::flags::{ValuePropertyFlags, ALL_BITS, CONFIGURABLE_BIT, ENUMERABLE_BIT, WRITABLE_BIT};

#[test]
fn single_flags_have_their_bits() {
    assert_eq!(ValuePropertyFlags::configurable().bits(), CONFIGURABLE_BIT);
    assert_eq!(ValuePropertyFlags::enumerable().bits(), ENUMERABLE_BIT);
    assert_eq!(ValuePropertyFlags::writable().bits(), WRITABLE_BIT);
    assert_eq!(ValuePropertyFlags::empty().bits(), 0);
    assert_eq!(ValuePropertyFlags::all().bits(), ALL_BITS);
    assert!(ValuePropertyFlags::empty().is_empty());
    assert!(ValuePropertyFlags::all().is_all());
    assert!(!ValuePropertyFlags::writable().is_all());
}

#[test]
fn from_bits_rejects_unknown_bits() {
    assert_eq!(ValuePropertyFlags::from_bits(5).map(|f| f.bits()), Some(5));
    assert_eq!(ValuePropertyFlags::from_bits(0).map(|f| f.bits()), Some(0));
    assert!(ValuePropertyFlags::from_bits(8).is_none());
    assert!(ValuePropertyFlags::from_bits(0xffff_fff9).is_none());
}

#[test]
fn from_bits_truncate_drops_unknown_bits() {
    assert_eq!(ValuePropertyFlags::from_bits_truncate(0xff).bits(), 7);
    assert_eq!(ValuePropertyFlags::from_bits_truncate(10).bits(), 2);
    assert_eq!(ValuePropertyFlags::from_bits_truncate(8).bits(), 0);
    let once = ValuePropertyFlags::from_bits_truncate(0xfd);
    assert_eq!(ValuePropertyFlags::from_bits_truncate(once.bits()), once);
}

#[test]
fn from_bits_accepts_what_truncation_keeps() {
    for bits in [0u32, 3, 7, 8, 9, 0x80, 0xffff_ffff] {
        let truncated = ValuePropertyFlags::from_bits_truncate(bits).bits();
        assert_eq!(ValuePropertyFlags::from_bits(bits).is_some(), truncated == bits);
    }
}

#[test]
fn glib_round_trip_keeps_flags() {
    let f = ValuePropertyFlags::configurable().union(ValuePropertyFlags::writable());
    assert_eq!(f.to_glib(), 5);
    assert_eq!(ValuePropertyFlags::from_glib(f.to_glib()), f);
    assert_eq!(ValuePropertyFlags::from_glib(0x1_0006).to_glib(), 6);
}

#[test]
fn set_operations() {
    let cw = ValuePropertyFlags::configurable().union(ValuePropertyFlags::writable());
    let ew = ValuePropertyFlags::enumerable().union(ValuePropertyFlags::writable());
    assert_eq!(cw.intersection(ew).bits(), 4);
    assert_eq!(cw.difference(ew).bits(), 1);
    assert!(cw.contains(ValuePropertyFlags::writable()));
    assert!(!cw.contains(ValuePropertyFlags::enumerable()));
    assert!(cw.intersects(ew));
    assert!(!ValuePropertyFlags::configurable().intersects(ValuePropertyFlags::enumerable()));
}

#[test]
fn insert_and_remove() {
    let mut f = ValuePropertyFlags::empty();
    f.insert(ValuePropertyFlags::enumerable());
    f.insert(ValuePropertyFlags::configurable());
    assert_eq!(f.bits(), 3);
    assert!(f.contains(ValuePropertyFlags::enumerable()));
    f.remove(ValuePropertyFlags::enumerable());
    assert_eq!(f.bits(), 1);
    assert!(!f.intersects(ValuePropertyFlags::enumerable()));
    f.remove(ValuePropertyFlags::writable());
    assert_eq!(f.bits(), 1);
}

#[test]
fn symmetric_difference_complement_toggle_and_set() {
    let c = ValuePropertyFlags::configurable();
    let e = ValuePropertyFlags::enumerable();
    let w = ValuePropertyFlags::writable();
    assert_eq!(c.union(w).symmetric_difference(w.union(e)).bits(), 3);
    assert_eq!(c.complement().bits(), 6);
    assert_eq!(ValuePropertyFlags::empty().complement(), ValuePropertyFlags::all());
    assert_eq!(ValuePropertyFlags::all().complement(), ValuePropertyFlags::empty());
    let mut f = c;
    f.toggle(c.union(e));
    assert_eq!(f.bits(), 2);
    f.set(w, true);
    assert_eq!(f.bits(), 6);
    f.set(e, false);
    assert_eq!(f.bits(), 4);
}

#[test]
fn operators_match_the_methods() {
    let c = ValuePropertyFlags::configurable();
    let e = ValuePropertyFlags::enumerable();
    let w = ValuePropertyFlags::writable();
    assert_eq!((c | w).bits(), 5);
    assert_eq!(((c | w) & (w | e)).bits(), 4);
    assert_eq!(((c | w) ^ (w | e)).bits(), 3);
    assert_eq!(((c | w) - w).bits(), 1);
    assert_eq!((!c).bits(), 6);
}

#[test]
fn flags_are_ordered_by_their_bits() {
    assert!(ValuePropertyFlags::configurable() < ValuePropertyFlags::enumerable());
    assert!(ValuePropertyFlags::all() > ValuePropertyFlags::writable());
    assert_eq!(ValuePropertyFlags::empty().cmp(&ValuePropertyFlags::empty()), std::cmp::Ordering::Equal);
}

#[test]
fn debug_string_names_the_flags() {
    assert_eq!(ValuePropertyFlags::empty().debug_string(), "(empty)");
    assert_eq!(ValuePropertyFlags::enumerable().debug_string(), "ENUMERABLE");
    assert_eq!(
        (ValuePropertyFlags::configurable() | ValuePropertyFlags::writable()).debug_string(),
        "CONFIGURABLE | WRITABLE"
    );
    assert_eq!(ValuePropertyFlags::all().debug_string(), "CONFIGURABLE | ENUMERABLE | WRITABLE");
}

#[test]
fn assignment_operators_match_the_methods() {
    let c = ValuePropertyFlags::configurable();
    let e = ValuePropertyFlags::enumerable();
    let w = ValuePropertyFlags::writable();
    let mut f = c;
    f |= w;
    assert_eq!(f.bits(), 5);
    f &= w | e;
    assert_eq!(f.bits(), 4);
    f ^= c | w;
    assert_eq!(f.bits(), 1);
    f |= e;
    f -= c;
    assert_eq!(f.bits(), 2);
}
