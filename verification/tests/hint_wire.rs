//! Tests of the hint wire grammar: tag table, round trips, hex and token
//! strictness, and encoding.

use preimage_oracle::codec::is_hex_token;
use preimage_oracle::Hint;
use preimage_oracle::HintType;

fn all_variants() -> Vec<(HintType, &'static str)> {
    vec![
        (HintType::L1BlockHeader, "l1-block-header"),
        (HintType::L1Transactions, "l1-transactions"),
        (HintType::L1Receipts, "l1-receipts"),
        (HintType::L1Blob, "l1-blob"),
        (HintType::L1Precompile, "l1-precompile"),
        (HintType::L2BlockHeader, "l2-block-header"),
        (HintType::L2Transactions, "l2-transactions"),
        (HintType::L2Code, "l2-code"),
        (HintType::StartingL2Output, "starting-l2-output"),
        (HintType::L2StateNode, "l2-state-node"),
        (HintType::L2AccountProof, "l2-account-proof"),
        (HintType::L2AccountStorageProof, "l2-account-storage-proof"),
        (HintType::L2PayloadWitness, "l2-payload-witness"),
    ]
}

#[test]
fn tag_bijection_all_variants() {
    for (ht, tag) in all_variants() {
        let parsed = HintType::from_str(tag).expect("tag from the fixed table must parse");
        assert_eq!(parsed, ht);
        assert_eq!(parsed.to_str(), tag);
    }
}

#[test]
fn unknown_tags_fail() {
    assert!(HintType::from_str("l1-bogus").is_err());
    assert!(HintType::from_str("").is_err());
    assert!(HintType::from_str("L1-BLOB").is_err());
    assert!(HintType::from_str("l1-blob ").is_err());
    assert!(HintType::from_str(" l1-blob").is_err());
}

#[test]
fn hint_round_trip_all_variants() {
    let data = vec![0x00u8, 0x01, 0x7f, 0x80, 0xfe, 0xff];
    for (ht, _) in all_variants() {
        let hint = Hint { hint_type: ht, hint_data: data.clone() };
        let wire = hint.to_wire();
        let back: Hint<HintType> = Hint::from_str(&wire).expect("wire form must parse");
        assert_eq!(back, hint);
    }
}

#[test]
fn hint_round_trip_empty_data() {
    let hint = Hint { hint_type: HintType::L1Blob, hint_data: vec![] };
    let wire = hint.to_wire();
    assert_eq!(wire, "l1-blob ");
    let back: Hint<HintType> = Hint::from_str(&wire).expect("empty payload is valid");
    assert_eq!(back, hint);
}

#[test]
fn wire_form_is_tag_space_hex() {
    let hint = Hint { hint_type: HintType::L2Code, hint_data: vec![0xde, 0xad, 0xbe, 0xef] };
    assert_eq!(hint.to_wire(), "l2-code deadbeef");
}

#[test]
fn encode_with_concatenates_in_order() {
    let s = HintType::L1BlockHeader.encode_with(&[&[0xDE, 0xAD], &[0xBE, 0xEF]]);
    assert_eq!(s, "l1-block-header deadbeef");
}

#[test]
fn encode_with_no_slices_gives_empty_payload() {
    let s = HintType::L1Blob.encode_with(&[]);
    assert_eq!(s, "l1-blob ");
}

#[test]
fn odd_length_hex_fails() {
    assert!(Hint::<HintType>::from_str("l1-blob abc").is_err());
}

#[test]
fn non_hex_character_fails() {
    assert!(Hint::<HintType>::from_str("l1-blob zz").is_err());
    assert!(Hint::<HintType>::from_str("l1-blob a ").is_err());
}

#[test]
fn hex_prefix_is_not_hex() {
    assert!(Hint::<HintType>::from_str("l1-blob 0xdead").is_err());
}

#[test]
fn upper_and_mixed_case_hex_parse() {
    let back: Hint<HintType> =
        Hint::from_str("l1-blob DEadBEef").expect("either case is valid hex");
    assert_eq!(back.hint_data, vec![0xde, 0xad, 0xbe, 0xef]);
    assert_eq!(back.hint_type, HintType::L1Blob);
}

#[test]
fn one_token_fails() {
    assert!(Hint::<HintType>::from_str("l1-blob").is_err());
}

#[test]
fn three_tokens_fail() {
    assert!(Hint::<HintType>::from_str("l1-blob aa bb").is_err());
}

#[test]
fn unknown_tag_with_valid_hex_fails() {
    assert!(Hint::<HintType>::from_str("l1-bogus deadbeef").is_err());
}

#[test]
fn split_returns_components() {
    let hint = Hint { hint_type: HintType::L1Receipts, hint_data: vec![1, 2, 3] };
    let (ht, data) = hint.split();
    assert_eq!(ht, HintType::L1Receipts);
    assert_eq!(data, vec![1, 2, 3]);
}

#[test]
fn hex_token_validity() {
    assert!(is_hex_token(""));
    assert!(is_hex_token("deadbeef"));
    assert!(is_hex_token("DEADbeef"));
    assert!(is_hex_token("0123456789abcdefABCDEF"));
    assert!(!is_hex_token("abc"));
    assert!(!is_hex_token("0x12"));
    assert!(!is_hex_token("g0"));
    assert!(!is_hex_token("aa "));
}
