use vstd::prelude::*;

use crate::ANCHOR_OUTPUT_SATS;
use crate::FEE_SAFETY_OFFSET_SATS;
use crate::dummy_witness::WalletType;
use crate::dummy_witness::dummy_witness_spec;
use crate::errors::AssembleError;
use crate::errors::ConfigError;
use crate::errors::EnrichError;
use crate::errors::FeeError;
use crate::errors::ResolveError;
use crate::inscription_id_resolver::InscriptionInfoView;
use crate::inscription_id_resolver::StaticInscriptionIdResolver;
use crate::inscription_id_resolver::lookup_spec;
use crate::manifest::Manifest;
use crate::manifest::ManifestView;
use crate::manifest::Transfer;
use crate::manifest::TransferView;
use crate::outpoint::OutPointRef;
use crate::outpoint::OutPointView;
use crate::outpoint::is_hex_digit;
use crate::settings::Network;
use crate::settings::Settings;
use crate::settings::network_code;

verus! {

/// One output of an assembled transaction: a value in satoshis and the
/// script paying it out.
#[derive(Debug)]
pub struct TxOutput {
    pub value: u64,
    pub script_pubkey: Vec<u8>,
}

/// The mathematical content of a `TxOutput`.
#[verifier::ext_equal]
pub struct TxOutputView {
    pub value: u64,
    pub script_pubkey: Seq<u8>,
}

impl View for TxOutput {
    type V = TxOutputView;

    open spec fn view(&self) -> TxOutputView {
        TxOutputView { value: self.value, script_pubkey: self.script_pubkey@ }
    }
}

impl Clone for TxOutput {
    fn clone(&self) -> (r: Self)
        ensures
            r@ == self@,
    {
        TxOutput { value: self.value, script_pubkey: self.script_pubkey.clone() }
    }
}

/// A structurally valid unsigned transaction: one input and one output per
/// transfer in manifest order, then an optional funding input, then
/// exactly one trailing anchor output. Transaction-level fields are fixed:
/// current standard version, no lock time, maximum sequence numbers, no
/// script or witness on any input.
#[derive(Debug)]
pub struct AssembledTransaction {
    pub inputs: Vec<OutPointRef>,
    pub outputs: Vec<TxOutput>,
}

/// The mathematical content of an `AssembledTransaction`.
#[verifier::ext_equal]
pub struct TransactionView {
    pub inputs: Seq<OutPointView>,
    pub outputs: Seq<TxOutputView>,
}

impl View for AssembledTransaction {
    type V = TransactionView;

    open spec fn view(&self) -> TransactionView {
        TransactionView {
            inputs: Seq::new(self.inputs@.len(), |i: int| self.inputs@[i]@),
            outputs: Seq::new(self.outputs@.len(), |i: int| self.outputs@[i]@),
        }
    }
}

impl AssembledTransaction {
    /// A well-formed transaction holds well-formed coin references
    /// throughout.
    pub open spec fn wf(&self) -> bool {
        forall|i: int| 0 <= i < self.inputs@.len() ==> (#[trigger] self.inputs@[i]).wf()
    }
}

/// What converting an address to the script paying it yields, on a given
/// network: the script's bytes, or nothing when the address does not parse
/// or does not belong to the network. A function of the address text and
/// the network alone.
pub uninterp spec fn address_script(addr: Seq<char>, network: int) -> Option<Seq<u8>>;

/// Relies on bitcoin::Address::from_str, bitcoin::Address::require_network
/// and bitcoin::Address::script_pubkey: parsing an address, checking that
/// it belongs to the network, and producing the script that pays it. The
/// outcome depends on the address text and the network alone and is named
/// `address_script`.
#[verifier::external_body]
fn address_to_script(addr: &str, network: Network) -> (r: Option<Vec<u8>>)
    ensures
        match r {
            Some(v) => address_script(addr@, network_code(network)) matches Some(s) && v@ == s,
            None => address_script(addr@, network_code(network)) is None,
        },
{
    let net = match network {
        Network::Bitcoin => bitcoin::Network::Bitcoin,
        Network::Testnet => bitcoin::Network::Testnet,
        Network::Signet => bitcoin::Network::Signet,
        Network::Regtest => bitcoin::Network::Regtest,
    };
    let unchecked = match addr.parse::<bitcoin::Address<bitcoin::address::NetworkUnchecked>>() {
        Ok(a) => a,
        Err(_) => return None,
    };
    match unchecked.require_network(net) {
        Ok(a) => Some(a.script_pubkey().into_bytes()),
        Err(_) => None,
    }
}

/// The coin and amount a transfer moves: the explicit reference and amount
/// when both are given, otherwise whatever the missing parts resolve to by
/// the transfer's identifier; a transfer that needs resolution but names
/// no identifier is refused.
pub open spec fn resolved_transfer_spec(
    t: TransferView,
    table: Seq<(Seq<char>, InscriptionInfoView)>,
) -> Result<(OutPointView, u64), AssembleError> {
    if t.outpoint is Some && t.amount is Some {
        Ok((t.outpoint->0, t.amount->0))
    } else {
        match t.inscription_id {
            None => Err(AssembleError::MissingReference),
            Some(id) => match lookup_spec(table, id) {
                None => Err(AssembleError::Resolution(ResolveError::NotFound)),
                Some(info) => Ok(
                    (
                        match t.outpoint {
                            Some(op) => op,
                            None => info.outpoint,
                        },
                        match t.amount {
                            Some(a) => a,
                            None => info.amount,
                        },
                    ),
                ),
            },
        }
    }
}

/// The input and output one transfer contributes: its coin reference, and
/// an output paying its amount to its destination address.
pub open spec fn row_spec(
    t: TransferView,
    table: Seq<(Seq<char>, InscriptionInfoView)>,
    network: Network,
) -> Result<(OutPointView, TxOutputView), AssembleError> {
    match resolved_transfer_spec(t, table) {
        Err(e) => Err(e),
        Ok(p) => match address_script(t.address, network_code(network)) {
            None => Err(AssembleError::InvalidAddress),
            Some(spk) => Ok((p.0, TxOutputView { value: p.1, script_pubkey: spk })),
        },
    }
}

/// The rows all transfers contribute, in manifest order, stopping at the
/// first failing transfer.
pub open spec fn rows_spec(
    ts: Seq<TransferView>,
    table: Seq<(Seq<char>, InscriptionInfoView)>,
    network: Network,
) -> Result<Seq<(OutPointView, TxOutputView)>, AssembleError>
    decreases ts.len(),
{
    if ts.len() == 0 {
        Ok(Seq::empty())
    } else {
        match row_spec(ts[0], table, network) {
            Err(e) => Err(e),
            Ok(row) => match rows_spec(ts.drop_first(), table, network) {
                Err(e) => Err(e),
                Ok(rest) => Ok(seq![row] + rest),
            },
        }
    }
}

/// What assembling a manifest yields: inputs and outputs in manifest
/// order — output `i` paying transfer `i` — then the funding input when
/// one is given, then the trailing anchor output paying the fixed anchor
/// value to the change address.
pub open spec fn assemble_spec(
    m: ManifestView,
    table: Seq<(Seq<char>, InscriptionInfoView)>,
    network: Network,
) -> Result<TransactionView, AssembleError> {
    match rows_spec(m.transfers, table, network) {
        Err(e) => Err(e),
        Ok(rows) => match address_script(m.change_address, network_code(network)) {
            None => Err(AssembleError::InvalidAddress),
            Some(spk) => Ok(
                (TransactionView {
                    inputs: rows.map_values(|r: (OutPointView, TxOutputView)| r.0) + (match m
                        .funding_outpoint {
                        Some(op) => seq![op],
                        None => Seq::<OutPointView>::empty(),
                    }),
                    outputs: rows.map_values(|r: (OutPointView, TxOutputView)| r.1).push(
                        TxOutputView { value: ANCHOR_OUTPUT_SATS, script_pubkey: spk },
                    ),
                }),
            ),
        },
    }
}

proof fn lemma_rows_len(
    ts: Seq<TransferView>,
    table: Seq<(Seq<char>, InscriptionInfoView)>,
    network: Network,
)
    ensures
        rows_spec(ts, table, network) matches Ok(rows) ==> rows.len() == ts.len(),
    decreases ts.len(),
{
    if ts.len() > 0 {
        lemma_rows_len(ts.drop_first(), table, network);
    }
}

/// The structural invariant of assembly, for every manifest: one output
/// per transfer plus the trailing anchor output; as many inputs as outputs
/// when a funding reference is supplied, and one input fewer otherwise;
/// and the last output always pays exactly the fixed anchor value.
pub proof fn lemma_assembled_shape(
    m: ManifestView,
    table: Seq<(Seq<char>, InscriptionInfoView)>,
    network: Network,
)
    ensures
        match assemble_spec(m, table, network) {
            Ok(txv) => {
                &&& txv.outputs.len() == m.transfers.len() + 1
                &&& (m.funding_outpoint is Some ==> txv.inputs.len() == txv.outputs.len())
                &&& (m.funding_outpoint is None ==> txv.inputs.len() + 1 == txv.outputs.len())
                &&& txv.outputs[txv.outputs.len() - 1].value == ANCHOR_OUTPUT_SATS
            },
            Err(_) => true,
        },
{
    lemma_rows_len(m.transfers, table, network);
}

/// The rows held so far while assembling: input `j` paired with output
/// `j`.
pub open spec fn rows_of(ins: Seq<OutPointRef>, outs: Seq<TxOutput>) -> Seq<
    (OutPointView, TxOutputView),
> {
    Seq::new(ins.len(), |j: int| (ins[j]@, outs[j]@))
}

/// Resolves one transfer: the explicit coin reference and amount when both
/// are given, otherwise the missing parts come from the resolver.
fn resolve_transfer(t: &Transfer, resolver: &StaticInscriptionIdResolver) -> (r: Result<
    (OutPointRef, u64),
    AssembleError,
>)
    requires
        t.wf(),
        resolver.wf(),
    ensures
        match resolved_transfer_spec(t@, resolver@) {
            Ok(p) => r matches Ok(q) && q.0@ == p.0 && q.1 == p.1 && q.0.wf(),
            Err(e) => r matches Err(e2) && e2 == e,
        },
{
    match (&t.outpoint, &t.amount) {
        (Some(op), Some(a)) => {
            return Ok((op.clone(), *a));
        },
        _ => {},
    }
    match &t.inscription_id {
        None => Err(AssembleError::MissingReference),
        Some(id) => match resolver.resolve_inscription_id(id.as_str()) {
            Err(e) => Err(AssembleError::Resolution(e)),
            Ok(info) => {
                let op: OutPointRef = match &t.outpoint {
                    Some(op) => op.clone(),
                    None => info.outpoint,
                };
                let amt: u64 = match &t.amount {
                    Some(a) => *a,
                    None => info.amount,
                };
                Ok((op, amt))
            },
        },
    }
}

/// Assembles the manifest into a structurally valid unsigned transaction,
/// resolving against the given static table. Inputs and outputs follow
/// manifest order, the funding input and the anchor output stand at fixed
/// trailing positions, and the anchor output always pays the fixed anchor
/// value to the change address.
pub fn make_transaction(
    manifest: &Manifest,
    settings: &Settings,
    resolver: &StaticInscriptionIdResolver,
) -> (r: Result<AssembledTransaction, AssembleError>)
    requires
        manifest.wf(),
        resolver.wf(),
    ensures
        match assemble_spec(manifest@, resolver@, settings.network) {
            Ok(txv) => r matches Ok(tx) && tx@ == txv && tx.wf(),
            Err(e) => r matches Err(e2) && e2 == e,
        },
        r matches Ok(tx) ==> tx.outputs@.len() == manifest.transfers@.len() + 1,
        r matches Ok(tx) ==> (manifest.funding_outpoint is Some ==> tx.inputs@.len()
            == tx.outputs@.len()),
        r matches Ok(tx) ==> (manifest.funding_outpoint is None ==> tx.inputs@.len() + 1
            == tx.outputs@.len()),
        r matches Ok(tx) ==> tx.outputs@[tx.outputs@.len() - 1].value == ANCHOR_OUTPUT_SATS,
{
    let ghost ts = manifest@.transfers;
    let ghost table = resolver@;
    let network = settings.network;
    let n: usize = manifest.transfers.len();
    let mut inputs: Vec<OutPointRef> = Vec::new();
    let mut outputs: Vec<TxOutput> = Vec::new();
    assert(ts.skip(0) =~= ts);
    let mut i: usize = 0;
    while i < n
        invariant
            i <= n,
            n == manifest.transfers@.len(),
            ts == manifest@.transfers,
            table == resolver@,
            network == settings.network,
            manifest.wf(),
            resolver.wf(),
            inputs@.len() == i,
            outputs@.len() == i,
            forall|k: int| 0 <= k < i ==> (#[trigger] inputs@[k]).wf(),
            rows_spec(ts, table, network) == (match rows_spec(ts.skip(i as int), table, network) {
                Err(e) => Err(e),
                Ok(rest) => Ok(rows_of(inputs@, outputs@) + rest),
            }),
        decreases n - i,
    {
        let t: &Transfer = &manifest.transfers[i];
        proof {
            assert(manifest@.transfers[i as int] == manifest.transfers@[i as int]@);
            assert(manifest.transfers@[i as int].wf());
            assert(ts.skip(i as int)[0] == ts[i as int]);
            assert(ts.skip(i as int).drop_first() =~= ts.skip(i + 1));
        }
        let resolved = resolve_transfer(t, resolver);
        let (op, amt) = match resolved {
            Ok(p) => p,
            Err(e) => {
                proof {
                    assert(row_spec(ts[i as int], table, network) == Err::<
                        (OutPointView, TxOutputView),
                        AssembleError,
                    >(e));
                    assert(rows_spec(ts.skip(i as int), table, network) == Err::<
                        Seq<(OutPointView, TxOutputView)>,
                        AssembleError,
                    >(e));
                }
                return Err(e);
            },
        };
        let spk = match address_to_script(t.address.as_str(), network) {
            Some(v) => v,
            None => {
                proof {
                    assert(row_spec(ts[i as int], table, network) == Err::<
                        (OutPointView, TxOutputView),
                        AssembleError,
                    >(AssembleError::InvalidAddress));
                    assert(rows_spec(ts.skip(i as int), table, network) == Err::<
                        Seq<(OutPointView, TxOutputView)>,
                        AssembleError,
                    >(AssembleError::InvalidAddress));
                }
                return Err(AssembleError::InvalidAddress);
            },
        };
        let ghost ins0 = inputs@;
        let ghost outs0 = outputs@;
        let out = TxOutput { value: amt, script_pubkey: spk };
        let ghost row = (op@, out@);
        inputs.push(op);
        outputs.push(out);
        proof {
            assert(row_spec(ts[i as int], table, network) == Ok::<
                (OutPointView, TxOutputView),
                AssembleError,
            >(row));
            assert(rows_of(inputs@, outputs@) =~= rows_of(ins0, outs0).push(row));
            match rows_spec(ts.skip(i + 1), table, network) {
                Err(e) => {
                    assert(rows_spec(ts.skip(i as int), table, network) == Err::<
                        Seq<(OutPointView, TxOutputView)>,
                        AssembleError,
                    >(e));
                },
                Ok(rest) => {
                    assert(rows_spec(ts.skip(i as int), table, network) == Ok::<
                        Seq<(OutPointView, TxOutputView)>,
                        AssembleError,
                    >(seq![row] + rest));
                    assert(rows_of(ins0, outs0) + (seq![row] + rest) =~= rows_of(
                        inputs@,
                        outputs@,
                    ) + rest);
                },
            }
        }
        i = i + 1;
    }
    proof {
        assert(ts.skip(n as int).len() == 0);
        assert(rows_spec(ts.skip(n as int), table, network) == Ok::<
            Seq<(OutPointView, TxOutputView)>,
            AssembleError,
        >(Seq::empty()));
        assert(rows_of(inputs@, outputs@) + Seq::empty() =~= rows_of(inputs@, outputs@));
    }
    let ghost rows = rows_of(inputs@, outputs@);
    let ghost ins_before = inputs@;
    match &manifest.funding_outpoint {
        Some(op) => {
            assert(op.wf());
            inputs.push(op.clone());
        },
        None => {},
    }
    let spk = match address_to_script(manifest.change_address.as_str(), network) {
        Some(v) => v,
        None => {
            return Err(AssembleError::InvalidAddress);
        },
    };
    let ghost outs_before = outputs@;
    outputs.push(TxOutput { value: ANCHOR_OUTPUT_SATS, script_pubkey: spk });
    let tx = AssembledTransaction { inputs, outputs };
    proof {
        match assemble_spec(manifest@, table, network) {
            Ok(txv) => {
                assert(tx@.inputs =~= rows.map_values(|r: (OutPointView, TxOutputView)| r.0)
                    + (match manifest@.funding_outpoint {
                    Some(op) => seq![op],
                    None => Seq::<OutPointView>::empty(),
                }));
                assert(tx@.outputs =~= rows.map_values(|r: (OutPointView, TxOutputView)| r.1).push(
                    TxOutputView { value: ANCHOR_OUTPUT_SATS, script_pubkey: spk@ },
                ));
                assert(tx@ =~= txv);
            },
            Err(_) => {
                assert(false);
            },
        }
    }
    Ok(tx)
}

/// What measuring a transaction's virtual size yields, with every input
/// carrying the given witness: the weight-derived size in virtual bytes
/// under the protocol's witness discount. A function of the transaction's
/// content alone.
pub uninterp spec fn vsize_of(
    inputs: Seq<OutPointView>,
    outputs: Seq<TxOutputView>,
    witness: Seq<Seq<u8>>,
) -> u64;

/// Relies on bitcoin::Transaction::vsize, with the transaction built at
/// the fixed field values of assembly (current standard version, no lock
/// time, maximum sequence numbers, empty signature scripts) and the given
/// witness on every input. The outcome depends on the transaction's
/// content alone and is named `vsize_of`.
#[verifier::external_body]
fn tx_vsize(inputs: &Vec<OutPointRef>, outputs: &Vec<TxOutput>, witness: &Vec<Vec<u8>>) -> (r:
    u64)
    requires
        forall|i: int| 0 <= i < inputs@.len() ==> (#[trigger] inputs@[i]).wf(),
    ensures
        r == vsize_of(
            inputs@.map_values(|o: OutPointRef| o@),
            outputs@.map_values(|o: TxOutput| o@),
            witness.deep_view(),
        ),
{
    let input = inputs.iter().map(|op| bitcoin::TxIn {
        previous_output: bitcoin::OutPoint { txid: op.txid.parse().unwrap(), vout: op.vout },
        script_sig: bitcoin::ScriptBuf::new(),
        sequence: bitcoin::Sequence::MAX,
        witness: bitcoin::Witness::from(witness.clone()),
    }).collect();
    let output = outputs.iter().map(|o| bitcoin::TxOut {
        value: bitcoin::Amount::from_sat(o.value),
        script_pubkey: bitcoin::ScriptBuf::from(o.script_pubkey.clone()),
    }).collect();
    let version = bitcoin::transaction::Version::TWO;
    let lock_time = bitcoin::absolute::LockTime::ZERO;
    bitcoin::Transaction { version, lock_time, input, output }.vsize() as u64
}

/// The all-zero placeholder coin reference given to the synthetic input
/// that fee estimation appends when the manifest supplies no funding
/// input.
pub open spec fn synthetic_outpoint_view() -> OutPointView {
    OutPointView { txid: Seq::new(64, |i: int| '0'), vout: u32::MAX }
}

/// Builds the synthetic input's placeholder coin reference.
pub fn synthetic_funding_outpoint() -> (r: OutPointRef)
    ensures
        r@ == synthetic_outpoint_view(),
        r.wf(),
{
    let mut txid: String = String::new();
    proof {
        reveal_strlit("0");
    }
    let mut i: usize = 0;
    while i < 64
        invariant
            i <= 64,
            "0"@ =~= seq!['0'],
            txid@ == Seq::new(i as nat, |j: int| '0'),
        decreases 64 - i,
    {
        txid.append("0");
        assert(txid@ =~= Seq::new((i + 1) as nat, |j: int| '0'));
        i = i + 1;
    }
    let r = OutPointRef { txid, vout: u32::MAX };
    assert(r.wf()) by {
        assert(forall|i: int| 0 <= i < 64 ==> is_hex_digit(#[trigger] r.txid@[i]));
    }
    r
}

/// The inputs fee estimation measures: the assembled inputs, with one
/// synthetic placeholder input appended when no funding input was
/// supplied, so the size model has something to attach a witness to.
pub open spec fn estimate_inputs_spec(txv: TransactionView, has_funding: bool) -> Seq<
    OutPointView,
> {
    if has_funding {
        txv.inputs
    } else {
        txv.inputs.push(synthetic_outpoint_view())
    }
}

/// The estimated fee before capping: virtual size times fee rate, plus the
/// fixed safety offset.
pub open spec fn fee_total_spec(vsize: u64, fee_rate: u64) -> int {
    vsize * fee_rate + FEE_SAFETY_OFFSET_SATS
}

/// What estimating a fee for an assembled transaction yields: the fee at
/// the measured virtual size, an unsupported-scheme failure, or an
/// overflow failure when the product leaves `u64`.
pub open spec fn estimate_fee_spec(
    txv: TransactionView,
    has_funding: bool,
    fee_rate: u64,
    wt: WalletType,
) -> Result<u64, FeeError> {
    if !wt.supported() {
        Err(FeeError::Config(ConfigError::UnsupportedScheme))
    } else {
        let v = vsize_of(
            estimate_inputs_spec(txv, has_funding),
            txv.outputs,
            dummy_witness_spec(wt),
        );
        if fee_total_spec(v, fee_rate) <= u64::MAX {
            Ok(fee_total_spec(v, fee_rate) as u64)
        } else {
            Err(FeeError::FeeOverflow)
        }
    }
}

/// Estimates the fee for an already assembled transaction: every input —
/// plus a synthetic one when no funding input was supplied — carries the
/// scheme's placeholder witness, the virtual size is measured, and the fee
/// is the size-rate product plus the fixed safety offset.
pub fn estimate_fee_for(
    tx: &AssembledTransaction,
    has_funding: bool,
    fee_rate: u64,
    wallet_type: &WalletType,
) -> (r: Result<u64, FeeError>)
    requires
        tx.wf(),
    ensures
        r == estimate_fee_spec(tx@, has_funding, fee_rate, *wallet_type),
{
    let witness = match wallet_type.dummy_witness() {
        Ok(w) => w,
        Err(_) => {
            return Err(FeeError::Config(ConfigError::UnsupportedScheme));
        },
    };
    let n: usize = tx.inputs.len();
    let mut est_inputs: Vec<OutPointRef> = Vec::new();
    let mut i: usize = 0;
    while i < n
        invariant
            i <= n == tx.inputs@.len(),
            tx.wf(),
            est_inputs@.len() == i,
            forall|k: int| 0 <= k < i ==> est_inputs@[k] == tx.inputs@[k],
        decreases n - i,
    {
        est_inputs.push(tx.inputs[i].clone());
        i = i + 1;
    }
    if !has_funding {
        est_inputs.push(synthetic_funding_outpoint());
    }
    assert(est_inputs@.map_values(|o: OutPointRef| o@) =~= estimate_inputs_spec(
        tx@,
        has_funding,
    ));
    assert(tx.outputs@.map_values(|o: TxOutput| o@) =~= tx@.outputs);
    let vsize: u64 = tx_vsize(&est_inputs, &tx.outputs, &witness);
    let product = match vsize.checked_mul(fee_rate) {
        Some(p) => p,
        None => {
            return Err(FeeError::FeeOverflow);
        },
    };
    match product.checked_add(FEE_SAFETY_OFFSET_SATS) {
        Some(fee) => Ok(fee),
        None => Err(FeeError::FeeOverflow),
    }
}

/// Estimates the eventual on-chain fee of the manifest's transaction
/// before any signature exists. The manifest is never changed; assembly
/// and configuration failures surface unchanged.
pub fn estimate_fee(
    manifest: &Manifest,
    settings: &Settings,
    resolver: &StaticInscriptionIdResolver,
) -> (r: Result<u64, FeeError>)
    requires
        manifest.wf(),
        resolver.wf(),
    ensures
        match assemble_spec(manifest@, resolver@, settings.network) {
            Err(e) => r == Err::<u64, FeeError>(FeeError::Assemble(e)),
            Ok(txv) => r == estimate_fee_spec(
                txv,
                manifest.funding_outpoint is Some,
                manifest.fee_rate,
                settings.wallet_type,
            ),
        },
{
    let tx = match make_transaction(manifest, settings, resolver) {
        Ok(tx) => tx,
        Err(e) => {
            return Err(FeeError::Assemble(e));
        },
    };
    let has_funding: bool = manifest.funding_outpoint.is_some();
    estimate_fee_for(&tx, has_funding, manifest.fee_rate, &settings.wallet_type)
}

/// The estimated fee never decreases when the fee rate rises or the
/// measured virtual size grows, the safety offset being fixed.
pub proof fn lemma_fee_monotone(v1: u64, r1: u64, v2: u64, r2: u64)
    requires
        v1 <= v2,
        r1 <= r2,
    ensures
        fee_total_spec(v1, r1) <= fee_total_spec(v2, r2),
{
    assert(v1 * r1 <= v2 * r2) by (nonlinear_arith)
        requires
            0 <= v1 <= v2,
            0 <= r1 <= r2,
    ;
}

/// For a fixed transaction shape and signing scheme, a higher fee rate
/// never yields a lower estimate, whenever both estimates succeed.
pub proof fn lemma_estimate_monotone_in_rate(
    txv: TransactionView,
    has_funding: bool,
    r1: u64,
    r2: u64,
    wt: WalletType,
)
    requires
        r1 <= r2,
    ensures
        match (
            estimate_fee_spec(txv, has_funding, r1, wt),
            estimate_fee_spec(txv, has_funding, r2, wt),
        ) {
            (Ok(f1), Ok(f2)) => f1 <= f2,
            _ => true,
        },
{
    if wt.supported() {
        let v = vsize_of(estimate_inputs_spec(txv, has_funding), txv.outputs, dummy_witness_spec(wt));
        lemma_fee_monotone(v, r1, v, r2);
    }
}

/// A transaction ready for a downstream signer: the unsigned transaction
/// together with, for each input, the previous output it spends, so the
/// signer can compute signature hashes without re-fetching chain data.
#[derive(Debug)]
pub struct SignablePackage {
    pub tx: AssembledTransaction,
    pub witness_utxos: Vec<TxOutput>,
}

/// The fetched previous transactions' outputs, one list per input.
pub open spec fn prev_views(prevs: Seq<Vec<TxOutput>>) -> Seq<Seq<TxOutputView>> {
    Seq::new(prevs.len(), |i: int| prevs[i]@.map_values(|o: TxOutput| o@))
}

/// What attaching previous outputs yields: for each input, the output of
/// its previous transaction selected by the input's output index; or a
/// failure when some input references an output its previous transaction
/// does not have.
pub open spec fn attach_spec(txv: TransactionView, prevs: Seq<Seq<TxOutputView>>) -> Result<
    Seq<TxOutputView>,
    EnrichError,
> {
    if forall|i: int|
        0 <= i < txv.inputs.len() ==> (#[trigger] txv.inputs[i]).vout < prevs[i].len() {
        Ok(Seq::new(txv.inputs.len(), |i: int| prevs[i][txv.inputs[i].vout as int]))
    } else {
        Err(EnrichError::MissingPrevOutput)
    }
}

/// The previous transactions to fetch while enriching: one identifier per
/// input, in input order, repeated identifiers kept.
pub fn enrichment_txids(tx: &AssembledTransaction) -> (r: Vec<String>)
    ensures
        r@.len() == tx.inputs@.len(),
        forall|i: int| 0 <= i < r@.len() ==> (#[trigger] r@[i])@ == tx@.inputs[i].txid,
{
    let n: usize = tx.inputs.len();
    let mut r: Vec<String> = Vec::new();
    let mut i: usize = 0;
    while i < n
        invariant
            i <= n == tx.inputs@.len(),
            r@.len() == i,
            forall|k: int| 0 <= k < i ==> (#[trigger] r@[k])@ == tx@.inputs[k].txid,
        decreases n - i,
    {
        r.push(tx.inputs[i].txid.clone());
        i = i + 1;
    }
    r
}

/// Attaches to each input the previous output it spends, taken from the
/// fetched previous transactions, matched by the input's output index —
/// also when several inputs reference the same previous transaction with
/// different indices.
pub fn attach_previous_outputs(tx: AssembledTransaction, prevs: &Vec<Vec<TxOutput>>) -> (r:
    Result<SignablePackage, EnrichError>)
    requires
        prevs@.len() == tx.inputs@.len(),
    ensures
        match attach_spec(tx@, prev_views(prevs@)) {
            Ok(utxos) => r matches Ok(p) && p.tx == tx && p.witness_utxos@.map_values(
                |o: TxOutput| o@,
            ) == utxos,
            Err(e) => r matches Err(e2) && e2 == e,
        },
{
    let ghost pv = prev_views(prevs@);
    let n: usize = tx.inputs.len();
    let mut utxos: Vec<TxOutput> = Vec::new();
    let mut i: usize = 0;
    while i < n
        invariant
            i <= n == tx.inputs@.len(),
            prevs@.len() == n,
            pv == prev_views(prevs@),
            utxos@.len() == i,
            forall|k: int|
                0 <= k < i ==> (#[trigger] tx@.inputs[k]).vout < pv[k].len() && utxos@[k]@
                    == pv[k][tx@.inputs[k].vout as int],
        decreases n - i,
    {
        let vout: u32 = tx.inputs[i].vout;
        let prev: &Vec<TxOutput> = &prevs[i];
        assert(pv[i as int].len() == prev@.len());
        if vout as usize >= prev.len() {
            assert(!(tx@.inputs[i as int].vout < pv[i as int].len()));
            return Err(EnrichError::MissingPrevOutput);
        }
        let out: TxOutput = prev[vout as usize].clone();
        assert(out@ == pv[i as int][tx@.inputs[i as int].vout as int]);
        utxos.push(out);
        i = i + 1;
    }
    let ghost txv = tx@;
    proof {
        assert(forall|k: int|
            0 <= k < txv.inputs.len() ==> (#[trigger] txv.inputs[k]).vout < pv[k].len());
        match attach_spec(txv, pv) {
            Ok(expected) => {
                assert(utxos@.map_values(|o: TxOutput| o@) =~= expected);
            },
            Err(_) => {
                assert(false);
            },
        }
    }
    Ok(SignablePackage { tx, witness_utxos: utxos })
}

} // verus!
