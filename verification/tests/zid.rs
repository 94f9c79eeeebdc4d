use interpreter2::{Zid, ZidParseError};

fn zid(z: u32) -> Zid {
    Zid::from_u32s_panic(Some(z), None)
}

fn zid2(z: u32, k: u32) -> Zid {
    Zid::from_u32s_panic(Some(z), Some(k))
}

#[test]
fn test_from_zid() {
    assert_eq!(Zid::from_str("Z156").unwrap(), zid(156));
    assert_eq!(Zid::from_str("Z30K4").unwrap(), zid2(30, 4),);
    assert_eq!(
        Zid::from_str("K1").unwrap(),
        Zid::from_u32s(None, Some(1)).unwrap()
    );
    assert!(Zid::from_str("T156").is_err());
    assert!(Zid::from_str("Z").is_err());
    assert!(Zid::from_str("Z-9").is_err());
    assert!(Zid::from_str("Z1a").is_err());
    assert!(Zid::from_str("Za1").is_err());
    assert!(Zid::from_str("").is_err());
    assert!(Zid::from_str("Z30K4Z1").is_err());
    assert!(Zid::from_str("Z30K4K1").is_err());
}

#[test]
fn test_to_zid() {
    assert_eq!(zid(156).to_zid(), "Z156");
    assert_eq!(zid2(30, 4).to_zid(), "Z30K4");
}

#[test]
fn zid_test_proc_macro() {
    assert_eq!(zid(6), Zid::from_u32s(Some(6), None).unwrap());
    assert_eq!(zid2(6, 2), Zid::from_u32s(Some(6), Some(2)).unwrap())
}

#[test]
fn zid_parse_errors_name_the_fault() {
    assert_eq!(Zid::from_str(""), Err(ZidParseError::ZAndKUndefined));
    assert_eq!(Zid::from_str("Q1"), Err(ZidParseError::FirstNotZOrK));
    assert_eq!(Zid::from_str("Z0"), Err(ZidParseError::PartZZero));
    assert_eq!(Zid::from_str("Z3K0"), Err(ZidParseError::PartKZero));
    assert_eq!(Zid::from_str("Z1Kx"), Err(ZidParseError::CantParseK));
    assert_eq!(Zid::from_u32s(None, None), Err(ZidParseError::ZAndKUndefined));
    assert_eq!(Zid::from_u32s(Some(0), None), Err(ZidParseError::PartZZero));
    assert_eq!(Zid::from_u32s(None, Some(0)), Err(ZidParseError::PartKZero));
}

#[test]
fn zid_parts_and_code() {
    let z = zid2(30, 4);
    assert_eq!(z.get_z(), Some(30));
    assert_eq!(z.get_k(), Some(4));
    assert_eq!(zid(30).get_k(), None);
    assert_eq!(zid(1).to_code(), 1u64 << 32);
    assert_eq!(zid2(1, 2).to_code(), (1u64 << 32) + 2);
    assert_ne!(zid2(1, 2).to_code(), zid2(2, 1).to_code());
    assert_eq!(zid(844).key_of(2).to_string(), "Z844K2");
    assert_eq!(Zid::from_code(zid2(30, 4).to_code()), zid2(30, 4));
    assert_eq!(Zid::from_code((7u64 << 32) + 9), zid2(7, 9));
    assert_eq!(Zid::from_code(u64::MAX), zid2(u32::MAX, u32::MAX));
    assert_eq!(Zid::from_code(5u64 << 32).get_k(), None);
    assert!(zid(99).well_known());
    assert!(!zid(100).well_known());
}
