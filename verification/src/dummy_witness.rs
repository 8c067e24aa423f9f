use vstd::prelude::*;

use crate::errors::ConfigError;

verus! {

/// The wallet's signing scheme. It determines the shape of the placeholder
/// witness used for size estimation: one signature-sized item for the
/// taproot single signer, or two signature-sized items plus a serialized
/// redeem script for the 2-of-3 multi-signer scheme.
#[derive(Clone, Copy, Debug, PartialEq, Eq, Structural)]
pub enum WalletType {
    SingleSigTaproot,
    MultiSigSegwit { threshold: u8, max: u8 },
}

/// A run of `n` zero bytes.
pub open spec fn zero_bytes(n: nat) -> Seq<u8> {
    Seq::new(n, |i: int| 0u8)
}

/// The placeholder witness for the single-signer taproot scheme: one
/// 64-byte all-zero signature item.
pub open spec fn single_sig_witness_spec() -> Seq<Seq<u8>> {
    seq![zero_bytes(64)]
}

/// The serialized 2-of-3 redeem script with placeholder public keys:
/// `OP_PUSHNUM_2`, three pushes of 33 zero bytes, `OP_PUSHNUM_3`,
/// `OP_CHECKMULTISIG`.
pub open spec fn multisig_2of3_redeem_script_spec() -> Seq<u8> {
    seq![0x52u8] + seq![0x21u8] + zero_bytes(33) + seq![0x21u8] + zero_bytes(33) + seq![0x21u8]
        + zero_bytes(33) + seq![0x53u8, 0xaeu8]
}

/// The placeholder witness for the 2-of-3 multi-signer scheme: two 64-byte
/// all-zero signature items and the serialized redeem script.
pub open spec fn multisig_2of3_witness_spec() -> Seq<Seq<u8>> {
    seq![zero_bytes(64), zero_bytes(64), multisig_2of3_redeem_script_spec()]
}

/// The placeholder witness a supported scheme produces.
pub open spec fn dummy_witness_spec(wt: WalletType) -> Seq<Seq<u8>> {
    match wt {
        WalletType::SingleSigTaproot => single_sig_witness_spec(),
        WalletType::MultiSigSegwit { .. } => multisig_2of3_witness_spec(),
    }
}

/// Builds a vector of `n` zero bytes.
fn zero_vec(n: usize) -> (r: Vec<u8>)
    ensures
        r@ == zero_bytes(n as nat),
{
    let mut v: Vec<u8> = Vec::new();
    let mut i: usize = 0;
    while i < n
        invariant
            i <= n,
            v@ == zero_bytes(i as nat),
        decreases n - i,
    {
        v.push(0u8);
        assert(v@ =~= zero_bytes((i + 1) as nat));
        i = i + 1;
    }
    v
}

/// Appends one push of 33 zero bytes to a script under construction.
fn push_zero_key(script: &mut Vec<u8>)
    ensures
        final(script)@ == old(script)@ + seq![0x21u8] + zero_bytes(33),
{
    script.push(0x21u8);
    let mut i: usize = 0;
    while i < 33
        invariant
            i <= 33,
            script@ == old(script)@ + seq![0x21u8] + zero_bytes(i as nat),
        decreases 33 - i,
    {
        script.push(0u8);
        assert(script@ =~= old(script)@ + seq![0x21u8] + zero_bytes((i + 1) as nat));
        i = i + 1;
    }
}

impl WalletType {
    /// The schemes whose placeholder witness has been modeled: the taproot
    /// single signer, and exactly the 2-of-3 multi-signer configuration.
    pub open spec fn supported(self) -> bool {
        match self {
            WalletType::SingleSigTaproot => true,
            WalletType::MultiSigSegwit { threshold, max } => threshold == 2 && max == 3,
        }
    }

    /// Produces the byte-accurate placeholder witness for this scheme, or
    /// refuses a multi-signer configuration other than 2-of-3: sizes for
    /// those have not been modeled, and guessing one would under-estimate
    /// fees.
    pub fn dummy_witness(&self) -> (r: Result<Vec<Vec<u8>>, ConfigError>)
        ensures
            match r {
                Ok(w) => self.supported() && w.deep_view() == dummy_witness_spec(*self),
                Err(e) => !self.supported() && e == ConfigError::UnsupportedScheme,
            },
    {
        match self {
            WalletType::SingleSigTaproot => {
                let mut w: Vec<Vec<u8>> = Vec::new();
                w.push(zero_vec(64));
                assert(w.deep_view() =~~= single_sig_witness_spec());
                Ok(w)
            },
            WalletType::MultiSigSegwit { threshold, max } => {
                if !(*threshold == 2 && *max == 3) {
                    return Err(ConfigError::UnsupportedScheme);
                }
                let mut script: Vec<u8> = Vec::new();
                script.push(0x52u8);
                push_zero_key(&mut script);
                push_zero_key(&mut script);
                push_zero_key(&mut script);
                script.push(0x53u8);
                script.push(0xaeu8);
                assert(script@ =~= multisig_2of3_redeem_script_spec());
                let mut w: Vec<Vec<u8>> = Vec::new();
                w.push(zero_vec(64));
                w.push(zero_vec(64));
                w.push(script);
                assert(w.deep_view() =~~= multisig_2of3_witness_spec());
                Ok(w)
            },
        }
    }
}

} // verus!
