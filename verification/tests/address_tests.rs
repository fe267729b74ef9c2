use cardano_sandbox::{decode_address, derive_pkh_from_address, DecodedAddress, PubKeyHash};

const TEST_ADDRESS: &str = "addr_test1qpmtp5t0t5y6cqkaz7rfsyrx7mld77kpvksgkwm0p7en7qum7a589n30e80tclzrrnj8qr4qvzj6al0vpgtnmrkkksnqd8upj0";

#[test]
fn test_derive_pkh_from_address() {
    // Style #1
    let address = decode_address(TEST_ADDRESS).unwrap();
    let _pkh = derive_pkh_from_address(&address).unwrap();
    assert!(true);

    // Style #2
    let address = decode_address(TEST_ADDRESS).unwrap();
    if let Some(_pkh) = derive_pkh_from_address(&address) {
        assert!(true)
    } else {
        assert!(false);
    }

    // Style #3
    match decode_address(TEST_ADDRESS) {
        Some(address) => {
            if let Some(_pkh) = derive_pkh_from_address(&address) {
                assert!(true)
            } else {
                assert!(false);
            }
        }
        None => assert!(false),
    }
}

#[test]
fn shelley_address_yields_nonempty_hash() {
    let address = decode_address(TEST_ADDRESS).unwrap();
    let pkh = derive_pkh_from_address(&address).unwrap();
    assert!(!pkh.as_bytes().is_empty());
    assert_eq!(pkh.as_bytes().len(), 28);
}

#[test]
fn non_shelley_address_yields_absent() {
    let result = derive_pkh_from_address(&DecodedAddress::Other);
    assert!(result.is_none());
}

#[test]
fn invalid_bech32_decodes_to_none() {
    assert!(decode_address("not a bech32 address").is_none());
    assert!(decode_address("").is_none());
    assert!(decode_address("addr_test1qpmtp5t0t5y6cqka").is_none());
}

#[test]
fn repeated_extraction_yields_equal_hashes() {
    let address = decode_address(TEST_ADDRESS).unwrap();
    let first = derive_pkh_from_address(&address).unwrap();
    let second = derive_pkh_from_address(&address).unwrap();
    assert_eq!(first, second);
    assert_eq!(first.as_bytes(), second.as_bytes());

    let again = decode_address(TEST_ADDRESS).unwrap();
    let third = derive_pkh_from_address(&again).unwrap();
    assert_eq!(first, third);
}

#[test]
fn pub_key_hash_equality_is_by_value() {
    let a = PubKeyHash::new(&[1, 2, 3]);
    let b = PubKeyHash::new(&[1, 2, 3]);
    let c = PubKeyHash::new(&[1, 2, 4]);
    let d = PubKeyHash::new(&[1, 2]);
    assert_eq!(a, b);
    assert!(a != c);
    assert!(a != d);
    assert_eq!(a.as_bytes(), &vec![1u8, 2, 3]);
}
