use interpreter2::{KeyIndex, KeyIndexParseError};

fn keyindex(z: u32) -> KeyIndex {
    KeyIndex::from_u32s_panic(Some(z), None)
}

fn keyindex2(z: u32, k: u32) -> KeyIndex {
    KeyIndex::from_u32s_panic(Some(z), Some(k))
}

#[test]
fn test_from_str() {
    assert_eq!(KeyIndex::from_str("Z156").unwrap(), keyindex(156));
    assert_eq!(KeyIndex::from_str("Z30K4").unwrap(), keyindex2(30, 4),);
    assert_eq!(
        KeyIndex::from_str("K1").unwrap(),
        KeyIndex::from_u32s(None, Some(1)).unwrap()
    );
    assert!(KeyIndex::from_str("T156").is_err());
    assert!(KeyIndex::from_str("Z").is_err());
    assert!(KeyIndex::from_str("Z-9").is_err());
    assert!(KeyIndex::from_str("Z1a").is_err());
    assert!(KeyIndex::from_str("Za1").is_err());
    assert!(KeyIndex::from_str("").is_err());
    assert!(KeyIndex::from_str("Z30K4Z1").is_err());
    assert!(KeyIndex::from_str("Z30K4K1").is_err());
}

#[test]
fn test_to_string() {
    assert_eq!(keyindex(156).to_string(), "Z156");
    assert_eq!(keyindex2(30, 4).to_string(), "Z30K4");
}

#[test]
fn key_index_test_proc_macro() {
    assert_eq!(keyindex(6), KeyIndex::from_u32s(Some(6), None).unwrap());
    assert_eq!(
        keyindex2(6, 2),
        KeyIndex::from_u32s(Some(6), Some(2)).unwrap()
    )
}

#[test]
fn key_index_parse_errors_name_the_fault() {
    assert_eq!(KeyIndex::from_str(""), Err(KeyIndexParseError::ZAndKUndefined));
    assert_eq!(KeyIndex::from_str("T156"), Err(KeyIndexParseError::FirstNotZOrK));
    assert_eq!(KeyIndex::from_str("z156"), Err(KeyIndexParseError::FirstNotZOrK));
    assert_eq!(KeyIndex::from_str("k1"), Err(KeyIndexParseError::FirstNotZOrK));
    assert_eq!(KeyIndex::from_str("Z"), Err(KeyIndexParseError::CantParseZ));
    assert_eq!(KeyIndex::from_str("Z0"), Err(KeyIndexParseError::PartZZero));
    assert_eq!(KeyIndex::from_str("Z0K0"), Err(KeyIndexParseError::PartZZero));
    assert_eq!(KeyIndex::from_str("Z0K1"), Err(KeyIndexParseError::PartZZero));
    assert_eq!(KeyIndex::from_str("Z0Kx"), Err(KeyIndexParseError::CantParseK));
    assert_eq!(KeyIndex::from_str("K0"), Err(KeyIndexParseError::PartKZero));
    assert_eq!(KeyIndex::from_str("Z000"), Err(KeyIndexParseError::PartZZero));
    assert_eq!(KeyIndex::from_str("Z-9"), Err(KeyIndexParseError::CantParseZ));
    assert_eq!(KeyIndex::from_str("Z1a"), Err(KeyIndexParseError::CantParseZ));
    assert_eq!(KeyIndex::from_str("Z4294967296"), Err(KeyIndexParseError::CantParseZ));
    assert_eq!(KeyIndex::from_str("Z1K"), Err(KeyIndexParseError::CantParseK));
    assert_eq!(KeyIndex::from_str("Z1K0"), Err(KeyIndexParseError::PartKZero));
    assert_eq!(KeyIndex::from_str("K"), Err(KeyIndexParseError::CantParseK));
    assert_eq!(KeyIndex::from_str("Z30K4Z1"), Err(KeyIndexParseError::CantParseK));
    assert_eq!(KeyIndex::from_str("Z30K4K1"), Err(KeyIndexParseError::FirstNotZOrK));
    assert_eq!(KeyIndex::from_str("Z1 "), Err(KeyIndexParseError::CantParseZ));
}

#[test]
fn key_index_from_parts() {
    assert_eq!(KeyIndex::from_u32s(None, None), Err(KeyIndexParseError::ZAndKUndefined));
    assert_eq!(KeyIndex::from_u32s(Some(0), Some(1)), Err(KeyIndexParseError::PartZZero));
    assert_eq!(KeyIndex::from_u32s(Some(1), Some(0)), Err(KeyIndexParseError::PartKZero));
    let key = KeyIndex::from_u32s(Some(7), Some(1)).unwrap();
    assert_eq!(key.get_z(), Some(7));
    assert_eq!(key.get_k(), Some(1));
    let positional = KeyIndex::from_u32s(None, Some(2)).unwrap();
    assert_eq!(positional.get_z(), None);
    assert_eq!(positional.get_k(), Some(2));
    assert_eq!(positional.to_string(), "K2");
}

#[test]
fn key_index_limits() {
    let largest = KeyIndex::from_str("Z4294967295K4294967295").unwrap();
    assert_eq!(largest.get_z(), Some(u32::MAX));
    assert_eq!(largest.get_k(), Some(u32::MAX));
    assert_eq!(largest.to_string(), "Z4294967295K4294967295");
    assert_eq!(KeyIndex::from_str("Z007").unwrap(), keyindex(7));
    assert_eq!(KeyIndex::from_str("Z10K20").unwrap().to_string(), "Z10K20");
}

#[test]
fn key_index_order() {
    assert!(keyindex(1) < keyindex2(1, 1));
    assert!(keyindex2(1, 1) < keyindex2(1, 2));
    assert!(keyindex2(1, 9) < keyindex(2));
    assert!(KeyIndex::from_u32s(None, Some(5)).unwrap() < keyindex(1));
}
