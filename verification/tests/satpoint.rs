use ordtx::errors::ResolveError;
use ordtx::outpoint::outpoint_from_str;
use ordtx::inscription_id_resolver::satpoint_to_outpoint;

const TXID: &str = "5fddcbdc3eb21a93e8dd1dd3f9087c3677f422b82d5ba39a6b1ec37338154af6";

#[test]
fn test_satpoint_split() {
    let satpoint = "5fddcbdc3eb21a93e8dd1dd3f9087c3677f422b82d5ba39a6b1ec37338154af6:0:0";
    let expected = outpoint_from_str(
        "5fddcbdc3eb21a93e8dd1dd3f9087c3677f422b82d5ba39a6b1ec37338154af6:0",
    )
    .unwrap();

    let actual = satpoint_to_outpoint(satpoint).unwrap();

    assert_eq!(
        actual, expected,
        "satpoint_to_outpoint did not produce expected result"
    );
}

#[test]
fn satpoint_discards_offset() {
    let satpoint = format!("{TXID}:7:12345");
    let op = satpoint_to_outpoint(&satpoint).unwrap();
    assert_eq!(op.txid, TXID);
    assert_eq!(op.vout, 7);
}

#[test]
fn satpoint_with_one_colon_is_malformed() {
    let satpoint = format!("{TXID}:0");
    let r = satpoint_to_outpoint(&satpoint);
    assert_eq!(r.unwrap_err(), ResolveError::MalformedResponse);
}

#[test]
fn satpoint_without_colon_is_malformed() {
    let r = satpoint_to_outpoint(TXID);
    assert_eq!(r.unwrap_err(), ResolveError::MalformedResponse);
}

#[test]
fn satpoint_with_bad_txid_is_malformed() {
    let r = satpoint_to_outpoint("zz:0:0");
    assert_eq!(r.unwrap_err(), ResolveError::MalformedResponse);
}

#[test]
fn outpoint_parses_valid_reference() {
    let s = format!("{TXID}:42");
    let op = outpoint_from_str(&s).unwrap();
    assert_eq!(op.txid, TXID);
    assert_eq!(op.vout, 42);
}

#[test]
fn outpoint_accepts_max_vout() {
    let s = format!("{TXID}:4294967295");
    let op = outpoint_from_str(&s).unwrap();
    assert_eq!(op.vout, u32::MAX);
}

#[test]
fn outpoint_rejects_vout_above_u32() {
    let s = format!("{TXID}:4294967296");
    assert!(outpoint_from_str(&s).is_none());
}

#[test]
fn outpoint_rejects_leading_zero_vout() {
    let s = format!("{TXID}:01");
    assert!(outpoint_from_str(&s).is_none());
}

#[test]
fn outpoint_rejects_short_txid() {
    assert!(outpoint_from_str("abcd:0").is_none());
}

#[test]
fn outpoint_rejects_non_hex_txid() {
    let mut txid = String::from("g");
    txid.push_str(&TXID[1..]);
    let s = format!("{txid}:0");
    assert!(outpoint_from_str(&s).is_none());
}

#[test]
fn outpoint_rejects_empty_vout() {
    let s = format!("{TXID}:");
    assert!(outpoint_from_str(&s).is_none());
}
