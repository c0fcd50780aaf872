use driver_binding::driver::{IdTable, INFO_SIZE, RAW_ID_SIZE};
use driver_binding::error::EINVAL;
use driver_binding::i2c::{DeviceId, I2C_NAME_SIZE};

fn name(s: &str) -> DeviceId {
    DeviceId::Name(s.as_bytes().to_vec())
}

/// The host's first-match lookup: the first record whose zero-terminated
/// name equals `wanted`.
fn host_lookup<U>(t: &IdTable<U>, wanted: &str) -> Option<usize> {
    for i in 0..t.entries() {
        let rec = t.raw_record(i);
        let len = rec.name.iter().position(|b| *b == 0).unwrap();
        if &rec.name[..len] == wanted.as_bytes() {
            return Some(i);
        }
    }
    None
}

#[test]
fn scenario_dev_a_dev_b() {
    let t = IdTable::new(vec![(name("dev-a"), Some(10u32)), (name("dev-b"), None)]).unwrap();
    let a = host_lookup(&t, "dev-a").unwrap();
    assert_eq!(t.info_at(a), Some(&10));
    let b = host_lookup(&t, "dev-b").unwrap();
    assert_eq!(t.info_at(b), None);
    assert_eq!(host_lookup(&t, "dev-c"), None);
}

#[test]
fn matching_returns_each_entry_context() {
    let t = IdTable::new(vec![
        (name("one"), Some(1u64)),
        (name("two"), None),
        (name("three"), Some(3u64)),
        (name("four"), Some(4u64)),
    ])
    .unwrap();
    assert_eq!(t.entries(), 4);
    assert_eq!(t.info_at(0), Some(&1));
    assert_eq!(t.info_at(1), None);
    assert_eq!(t.info_at(2), Some(&3));
    assert_eq!(t.info_at(3), Some(&4));
}

#[test]
fn records_keep_order_and_terminator_is_zero() {
    let t = IdTable::new(vec![(name("b"), Some(2u8)), (name("a"), Some(1u8))]).unwrap();
    assert_eq!(host_lookup(&t, "b"), Some(0));
    assert_eq!(host_lookup(&t, "a"), Some(1));
    let term = t.raw_record(2);
    assert_eq!(term.name, [0u8; 20]);
    assert_eq!(term.driver_data, 0);
}

#[test]
fn offsets_follow_the_layout() {
    let t = IdTable::new(vec![(name("x"), Some(7i32)), (name("y"), Some(8i32)), (name("z"), None)])
        .unwrap();
    // Three records and a terminator, then three cells.
    assert_eq!(t.raw_record(0).driver_data, (4 * RAW_ID_SIZE) as isize);
    assert_eq!(t.raw_record(1).driver_data, (3 * RAW_ID_SIZE + INFO_SIZE) as isize);
    assert_eq!(t.raw_record(2).driver_data, 0);
    assert_eq!(t.raw_record(0).driver_data, 128);
    assert_eq!(t.raw_record(1).driver_data, 112);
}

#[test]
fn name_at_capacity_is_accepted() {
    let longest = "a".repeat(I2C_NAME_SIZE - 1);
    let t = IdTable::new(vec![(name(&longest), Some(5u32))]).unwrap();
    assert_eq!(t.info_at(0), Some(&5));
    assert_eq!(t.raw_record(0).name[I2C_NAME_SIZE - 1], 0);
}

#[test]
fn name_over_capacity_is_refused() {
    let too_long = "a".repeat(I2C_NAME_SIZE);
    let r = IdTable::new(vec![(name("ok"), Some(1u32)), (name(&too_long), None)]);
    assert_eq!(r.err().unwrap().to_kernel_errno(), EINVAL);
}

#[test]
fn empty_table_has_only_the_terminator() {
    let t: IdTable<u32> = IdTable::new(vec![]).unwrap();
    assert_eq!(t.entries(), 0);
    assert_eq!(t.raw_record(0).driver_data, 0);
    assert_eq!(host_lookup(&t, "any"), None);
}

#[test]
fn to_rawid_encodes_name_and_offset() {
    let r = name("ab").to_rawid(-40);
    assert_eq!(r.name[0], b'a');
    assert_eq!(r.name[1], b'b');
    assert!(r.name[2..].iter().all(|b| *b == 0));
    assert_eq!(r.driver_data, -40);
    assert!(name("ab").fits_record());
    assert!(!name(&"c".repeat(20)).fits_record());
}
