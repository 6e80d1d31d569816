use nominal_registry::{
    create_registration_message, is_valid_name, split_fee, split_signature,
    RegisterWithSigParams, BPS_DENOMINATOR, MAX_NAME_LEN, MIN_NAME_LEN,
};

#[test]
fn split_fee_five_percent_of_thousand() {
    assert_eq!(split_fee(1000, 500), (50, 950));
}

#[test]
fn split_fee_rounds_down_in_favour_of_treasury() {
    assert_eq!(split_fee(999, 1), (0, 999));
    assert_eq!(split_fee(10001, 5000), (5000, 5001));
    assert_eq!(split_fee(3, 3333), (0, 3));
}

#[test]
fn split_fee_edges() {
    assert_eq!(split_fee(0, 500), (0, 0));
    assert_eq!(split_fee(1234, 0), (0, 1234));
    assert_eq!(split_fee(1234, BPS_DENOMINATOR), (1234, 0));
    assert_eq!(split_fee(u128::MAX, BPS_DENOMINATOR), (u128::MAX, 0));
}

#[test]
fn split_fee_sums_to_total_without_overflow() {
    for &(t, b) in &[(u128::MAX, 5000u16), (u128::MAX - 1, 9999), (123_456_789_012_345_678_901, 777)] {
        let (r, s) = split_fee(t, b);
        assert_eq!(r + s, t);
        let expected = (t / 10000) * (b as u128) + ((t % 10000) * (b as u128)) / 10000;
        assert_eq!(r, expected);
    }
}

#[test]
fn valid_names_accepted() {
    assert!(is_valid_name("alice"));
    assert!(is_valid_name("abc"));
    assert!(is_valid_name("a-b-c"));
    assert!(is_valid_name("web3-name99"));
    assert!(is_valid_name(&"a".repeat(MAX_NAME_LEN)));
}

#[test]
fn invalid_names_rejected() {
    assert!(!is_valid_name(""));
    assert!(!is_valid_name(&"a".repeat(MIN_NAME_LEN - 1)));
    assert!(!is_valid_name(&"a".repeat(MAX_NAME_LEN + 1)));
    assert!(!is_valid_name("-abc"));
    assert!(!is_valid_name("abc-"));
    assert!(!is_valid_name("ab--c"));
    assert!(!is_valid_name("Alice"));
    assert!(!is_valid_name("al_ice"));
    assert!(!is_valid_name("al ice"));
    assert!(!is_valid_name("alïce"));
}

#[test]
fn signature_string_splits_at_single_separator() {
    assert_eq!(split_signature("ab:cd"), Some((b"ab".to_vec(), b"cd".to_vec())));
    assert_eq!(split_signature(":"), Some((vec![], vec![])));
    assert_eq!(split_signature("abcd"), None);
    assert_eq!(split_signature(""), None);
    assert_eq!(split_signature("a:b:c"), None);
}

#[test]
fn registration_message_layout() {
    let p = RegisterWithSigParams {
        name: "ab".to_string(),
        owner: "o".to_string(),
        relayer: "r".to_string(),
        currency: None,
        amount: 258,
        deadline: 1,
        nonce: 2,
    };
    let msg = create_registration_message("x", &p);
    let mut expected: Vec<u8> = Vec::new();
    expected.extend_from_slice(&[1, 0, 0, 0, 0, 0, 0, 0, b'x']);
    expected.extend_from_slice(&[2, 0, 0, 0, 0, 0, 0, 0, b'a', b'b']);
    expected.extend_from_slice(&[1, 0, 0, 0, 0, 0, 0, 0, b'o']);
    expected.extend_from_slice(&[1, 0, 0, 0, 0, 0, 0, 0, b'r']);
    expected.push(0);
    expected.extend_from_slice(&258u128.to_le_bytes());
    expected.extend_from_slice(&1u64.to_le_bytes());
    expected.extend_from_slice(&2u64.to_le_bytes());
    assert_eq!(msg, expected);

    let with_token = RegisterWithSigParams { currency: Some("tk".to_string()), ..p };
    let msg2 = create_registration_message("x", &with_token);
    assert_eq!(msg2.len(), expected.len() + 10);
    assert_eq!(&msg2[37..48], &[1, 2, 0, 0, 0, 0, 0, 0, 0, b't', b'k']);
}
