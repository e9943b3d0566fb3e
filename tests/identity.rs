use onboarding_counter::Identity;

#[test]
fn parses_canister_id() {
    let id = Identity::from_text("u6s2n-gx777-77774-qaaba-cai").unwrap();
    let expected = candid::Principal::from_text("u6s2n-gx777-77774-qaaba-cai").unwrap();
    assert_eq!(id.as_bytes(), expected.as_slice());
    assert_eq!(id.to_text(), "u6s2n-gx777-77774-qaaba-cai");
}

#[test]
fn parse_print_parse_is_stable() {
    for text in [
        "u6s2n-gx777-77774-qaaba-cai",
        "uxrrr-q7777-77774-qaaaq-cai",
        "qmgff-sqaaa-aaaad-qhowa-cai",
        "2vxsx-fae",
        "aaaaa-aa",
    ] {
        let first = Identity::from_text(text).unwrap();
        let printed = first.to_text();
        assert_eq!(printed, text);
        let second = Identity::from_text(&printed).unwrap();
        assert!(first.same_as(&second));
    }
}

#[test]
fn parse_ignores_letter_case() {
    let lower = Identity::from_text("qzbui-tyaaa-aaaad-qhovq-cai").unwrap();
    let upper = Identity::from_text("QZBUI-TYAAA-AAAAD-QHOVQ-CAI").unwrap();
    assert!(lower.same_as(&upper));
    assert_eq!(upper.to_text(), "qzbui-tyaaa-aaaad-qhovq-cai");
}

#[test]
fn bad_texts_are_refused() {
    assert!(Identity::from_text("not-a-principal").is_err());
    assert!(Identity::from_text("u6s2n-gx777-77774-qaaba-caj").is_err());
    assert!(Identity::from_text("u6s2ngx777-77774-qaaba-cai").is_err());
    assert!(Identity::from_text("").is_err());
}

#[test]
fn bytes_beyond_limit_are_refused() {
    assert!(Identity::from_bytes(vec![0u8; 30]).is_none());
    let id = Identity::from_bytes(vec![4u8]).unwrap();
    assert_eq!(id.to_text(), "2vxsx-fae");
}

#[test]
fn distinct_identities_differ() {
    let a = Identity::from_text("u6s2n-gx777-77774-qaaba-cai").unwrap();
    let b = Identity::from_text("uxrrr-q7777-77774-qaaaq-cai").unwrap();
    assert!(!a.same_as(&b));
    assert!(a.same_as(&a.duplicate()));
}
