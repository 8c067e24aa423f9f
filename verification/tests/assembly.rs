use ordtx::ANCHOR_OUTPUT_SATS;
use ordtx::FEE_SAFETY_OFFSET_SATS;
use ordtx::builder::estimate_fee;
use ordtx::builder::make_transaction;
use ordtx::dummy_witness::WalletType;
use ordtx::errors::AssembleError;
use ordtx::errors::FeeError;
use ordtx::errors::ResolveError;
use ordtx::inscription_id_resolver::InscriptionInfo;
use ordtx::inscription_id_resolver::StaticInscriptionIdResolver;
use ordtx::manifest::Manifest;
use ordtx::manifest::Transfer;
use ordtx::outpoint::outpoint_from_str;
use ordtx::settings::IdResolverConfiguration;
use ordtx::settings::Network;
use ordtx::settings::Settings;

use std::str::FromStr;

const TXID_A: &str = "5fddcbdc3eb21a93e8dd1dd3f9087c3677f422b82d5ba39a6b1ec37338154af6";
const TXID_B: &str = "000102030405060708090a0b0c0d0e0f101112131415161718191a1b1c1d1e1f";
const ADDR_1: &str = "bc1qw508d6qejxtdg4y5r3zarvary0c5xw7kv8f3t4";
const ADDR_2: &str = "1A1zP1eP5QGefi2DMPTfTL5SLmv7DivfNa";
const TESTNET_ADDR: &str = "tb1qw508d6qejxtdg4y5r3zarvary0c5xw7kxpjzsx";

fn settings() -> Settings {
    Settings {
        network: Network::Bitcoin,
        wallet_type: WalletType::SingleSigTaproot,
        id_resolver: IdResolverConfiguration::Static { filename: "unused.json".to_string() },
    }
}

fn resolver() -> StaticInscriptionIdResolver {
    let entries = vec![
        (
            "abc".to_string(),
            InscriptionInfo {
                outpoint: outpoint_from_str(&format!("{TXID_A}:0")).unwrap(),
                amount: 10000,
            },
        ),
        (
            "def".to_string(),
            InscriptionInfo {
                outpoint: outpoint_from_str(&format!("{TXID_B}:2")).unwrap(),
                amount: 600,
            },
        ),
    ];
    StaticInscriptionIdResolver::new(entries)
}

fn transfer(id: &str, address: &str) -> Transfer {
    Transfer {
        inscription_id: Some(id.to_string()),
        outpoint: None,
        amount: None,
        address: address.to_string(),
    }
}

fn one_transfer_manifest() -> Manifest {
    Manifest {
        fee_rate: 5,
        funding_outpoint: None,
        change_address: ADDR_2.to_string(),
        transfers: vec![transfer("abc", ADDR_1)],
    }
}

fn script_of(addr: &str) -> Vec<u8> {
    bitcoin::Address::from_str(addr)
        .unwrap()
        .require_network(bitcoin::Network::Bitcoin)
        .unwrap()
        .script_pubkey()
        .into_bytes()
}

#[test]
fn without_funding_one_more_output_than_inputs() {
    let m = Manifest {
        fee_rate: 2,
        funding_outpoint: None,
        change_address: ADDR_2.to_string(),
        transfers: vec![transfer("abc", ADDR_1), transfer("def", ADDR_2)],
    };
    let tx = make_transaction(&m, &settings(), &resolver()).unwrap();
    assert_eq!(tx.inputs.len(), 2);
    assert_eq!(tx.outputs.len(), 3);
    assert_eq!(tx.inputs.len() + 1, tx.outputs.len());
}

#[test]
fn with_funding_input_count_equals_output_count() {
    let m = Manifest {
        fee_rate: 2,
        funding_outpoint: Some(outpoint_from_str(&format!("{TXID_B}:9")).unwrap()),
        change_address: ADDR_2.to_string(),
        transfers: vec![transfer("abc", ADDR_1), transfer("def", ADDR_2)],
    };
    let tx = make_transaction(&m, &settings(), &resolver()).unwrap();
    assert_eq!(tx.inputs.len(), 3);
    assert_eq!(tx.outputs.len(), 3);
    assert_eq!(tx.inputs[2].txid, TXID_B);
    assert_eq!(tx.inputs[2].vout, 9);
}

#[test]
fn last_output_is_always_the_anchor() {
    let with_funding = Manifest {
        fee_rate: 1,
        funding_outpoint: Some(outpoint_from_str(&format!("{TXID_B}:9")).unwrap()),
        change_address: ADDR_2.to_string(),
        transfers: vec![transfer("abc", ADDR_1)],
    };
    let without_funding = one_transfer_manifest();
    for m in [with_funding, without_funding] {
        let tx = make_transaction(&m, &settings(), &resolver()).unwrap();
        let last = tx.outputs.last().unwrap();
        assert_eq!(last.value, ANCHOR_OUTPUT_SATS);
        assert_eq!(last.script_pubkey, script_of(ADDR_2));
    }
}

#[test]
fn transfers_keep_manifest_order() {
    let explicit = Transfer {
        inscription_id: None,
        outpoint: Some(outpoint_from_str(&format!("{TXID_B}:5")).unwrap()),
        amount: Some(1234),
        address: ADDR_2.to_string(),
    };
    let m = Manifest {
        fee_rate: 1,
        funding_outpoint: None,
        change_address: ADDR_1.to_string(),
        transfers: vec![transfer("abc", ADDR_1), explicit],
    };
    let tx = make_transaction(&m, &settings(), &resolver()).unwrap();
    assert_eq!(tx.inputs[0].txid, TXID_A);
    assert_eq!(tx.inputs[0].vout, 0);
    assert_eq!(tx.outputs[0].value, 10000);
    assert_eq!(tx.outputs[0].script_pubkey, script_of(ADDR_1));
    assert_eq!(tx.inputs[1].txid, TXID_B);
    assert_eq!(tx.inputs[1].vout, 5);
    assert_eq!(tx.outputs[1].value, 1234);
    assert_eq!(tx.outputs[1].script_pubkey, script_of(ADDR_2));
}

#[test]
fn explicit_amount_beats_resolved_amount() {
    let t = Transfer {
        inscription_id: Some("abc".to_string()),
        outpoint: None,
        amount: Some(9999),
        address: ADDR_1.to_string(),
    };
    let m = Manifest {
        fee_rate: 1,
        funding_outpoint: None,
        change_address: ADDR_2.to_string(),
        transfers: vec![t],
    };
    let tx = make_transaction(&m, &settings(), &resolver()).unwrap();
    assert_eq!(tx.outputs[0].value, 9999);
    assert_eq!(tx.inputs[0].txid, TXID_A);
}

#[test]
fn transfer_without_identifier_or_reference_is_refused() {
    let t = Transfer {
        inscription_id: None,
        outpoint: None,
        amount: Some(1),
        address: ADDR_1.to_string(),
    };
    let m = Manifest {
        fee_rate: 1,
        funding_outpoint: None,
        change_address: ADDR_2.to_string(),
        transfers: vec![t],
    };
    let r = make_transaction(&m, &settings(), &resolver());
    assert_eq!(r.unwrap_err(), AssembleError::MissingReference);
}

#[test]
fn unknown_identifier_propagates_not_found() {
    let m = Manifest {
        fee_rate: 1,
        funding_outpoint: None,
        change_address: ADDR_2.to_string(),
        transfers: vec![transfer("missing", ADDR_1)],
    };
    let r = make_transaction(&m, &settings(), &resolver());
    assert_eq!(
        r.unwrap_err(),
        AssembleError::Resolution(ResolveError::NotFound)
    );
}

#[test]
fn unparseable_address_is_refused() {
    let m = Manifest {
        fee_rate: 1,
        funding_outpoint: None,
        change_address: ADDR_2.to_string(),
        transfers: vec![transfer("abc", "X")],
    };
    let r = make_transaction(&m, &settings(), &resolver());
    assert_eq!(r.unwrap_err(), AssembleError::InvalidAddress);
}

#[test]
fn wrong_network_address_is_refused() {
    let m = Manifest {
        fee_rate: 1,
        funding_outpoint: None,
        change_address: ADDR_2.to_string(),
        transfers: vec![transfer("abc", TESTNET_ADDR)],
    };
    let r = make_transaction(&m, &settings(), &resolver());
    assert_eq!(r.unwrap_err(), AssembleError::InvalidAddress);
}

#[test]
fn bad_change_address_is_refused() {
    let m = Manifest {
        fee_rate: 1,
        funding_outpoint: None,
        change_address: "not an address".to_string(),
        transfers: vec![transfer("abc", ADDR_1)],
    };
    let r = make_transaction(&m, &settings(), &resolver());
    assert_eq!(r.unwrap_err(), AssembleError::InvalidAddress);
}

fn expected_bitcoin_tx(m: &Manifest) -> bitcoin::Transaction {
    let tx = make_transaction(m, &settings(), &resolver()).unwrap();
    let mut input: Vec<bitcoin::TxIn> = tx
        .inputs
        .iter()
        .map(|op| bitcoin::TxIn {
            previous_output: bitcoin::OutPoint {
                txid: op.txid.parse().unwrap(),
                vout: op.vout,
            },
            script_sig: bitcoin::ScriptBuf::new(),
            sequence: bitcoin::Sequence::MAX,
            witness: bitcoin::Witness::new(),
        })
        .collect();
    if m.funding_outpoint.is_none() {
        input.push(bitcoin::TxIn {
            previous_output: bitcoin::OutPoint::default(),
            script_sig: bitcoin::ScriptBuf::new(),
            sequence: bitcoin::Sequence::MAX,
            witness: bitcoin::Witness::new(),
        });
    }
    let dummy = vec![vec![0u8; 64]];
    for txin in input.iter_mut() {
        txin.witness = bitcoin::Witness::from(dummy.clone());
    }
    let output = tx
        .outputs
        .iter()
        .map(|o| bitcoin::TxOut {
            value: bitcoin::Amount::from_sat(o.value),
            script_pubkey: bitcoin::ScriptBuf::from(o.script_pubkey.clone()),
        })
        .collect();
    bitcoin::Transaction {
        version: bitcoin::transaction::Version::TWO,
        lock_time: bitcoin::absolute::LockTime::ZERO,
        input,
        output,
    }
}

#[test]
fn end_to_end_single_transfer_estimate() {
    let m = one_transfer_manifest();
    let tx = make_transaction(&m, &settings(), &resolver()).unwrap();
    assert_eq!(tx.inputs.len(), 1);
    assert_eq!(tx.outputs.len(), 2);
    assert_eq!(tx.outputs[0].value, 10000);
    assert_eq!(tx.outputs[0].script_pubkey, script_of(ADDR_1));
    assert_eq!(tx.outputs[1].value, ANCHOR_OUTPUT_SATS);

    let vsize = expected_bitcoin_tx(&m).vsize() as u64;
    let fee = estimate_fee(&m, &settings(), &resolver()).unwrap();
    assert_eq!(fee, vsize * 5 + FEE_SAFETY_OFFSET_SATS);
}

#[test]
fn estimate_fee_grows_with_fee_rate() {
    let mut m = one_transfer_manifest();
    let f5 = estimate_fee(&m, &settings(), &resolver()).unwrap();
    m.fee_rate = 7;
    let f7 = estimate_fee(&m, &settings(), &resolver()).unwrap();
    assert!(f5 <= f7);
}

#[test]
fn estimate_fee_grows_with_transfer_count() {
    let m1 = one_transfer_manifest();
    let mut m2 = one_transfer_manifest();
    m2.transfers.push(transfer("def", ADDR_2));
    let f1 = estimate_fee(&m1, &settings(), &resolver()).unwrap();
    let f2 = estimate_fee(&m2, &settings(), &resolver()).unwrap();
    assert!(f1 <= f2);
}

#[test]
fn estimate_fee_with_funding_adds_no_synthetic_input() {
    let m = Manifest {
        fee_rate: 3,
        funding_outpoint: Some(outpoint_from_str(&format!("{TXID_B}:9")).unwrap()),
        change_address: ADDR_2.to_string(),
        transfers: vec![transfer("abc", ADDR_1)],
    };
    let vsize = expected_bitcoin_tx(&m).vsize() as u64;
    let fee = estimate_fee(&m, &settings(), &resolver()).unwrap();
    assert_eq!(fee, vsize * 3 + FEE_SAFETY_OFFSET_SATS);
}

#[test]
fn estimate_fee_refuses_unsupported_scheme() {
    let mut s = settings();
    s.wallet_type = WalletType::MultiSigSegwit { threshold: 3, max: 5 };
    let m = one_transfer_manifest();
    let r = estimate_fee(&m, &s, &resolver());
    assert!(matches!(r.unwrap_err(), FeeError::Config(_)));
}

#[test]
fn estimate_fee_propagates_assembly_errors() {
    let m = Manifest {
        fee_rate: 1,
        funding_outpoint: None,
        change_address: ADDR_2.to_string(),
        transfers: vec![transfer("missing", ADDR_1)],
    };
    let r = estimate_fee(&m, &settings(), &resolver());
    assert_eq!(
        r.unwrap_err(),
        FeeError::Assemble(AssembleError::Resolution(ResolveError::NotFound))
    );
}

#[test]
fn estimate_fee_overflows_on_absurd_rate() {
    let mut m = one_transfer_manifest();
    m.fee_rate = u64::MAX;
    let r = estimate_fee(&m, &settings(), &resolver());
    assert_eq!(r.unwrap_err(), FeeError::FeeOverflow);
}

#[test]
fn two_of_three_estimate_uses_larger_witness() {
    let m = one_transfer_manifest();
    let single = estimate_fee(&m, &settings(), &resolver()).unwrap();
    let mut s = settings();
    s.wallet_type = WalletType::MultiSigSegwit { threshold: 2, max: 3 };
    let multi = estimate_fee(&m, &s, &resolver()).unwrap();
    assert!(single < multi);
}
