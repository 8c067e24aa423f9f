use vstd::prelude::*;

use crate::outpoint::OutPointRef;
use crate::outpoint::OutPointView;

verus! {

/// One inscription movement: the inscription to move — named by its
/// identifier, by an explicit coin reference, or both — the destination
/// address, and optionally an explicit amount in satoshis. When the coin
/// reference or the amount is not given explicitly, it is sourced from the
/// resolver.
pub struct Transfer {
    pub inscription_id: Option<String>,
    pub outpoint: Option<OutPointRef>,
    pub amount: Option<u64>,
    pub address: String,
}

/// The mathematical content of a `Transfer`.
#[verifier::ext_equal]
pub struct TransferView {
    pub inscription_id: Option<Seq<char>>,
    pub outpoint: Option<OutPointView>,
    pub amount: Option<u64>,
    pub address: Seq<char>,
}

impl View for Transfer {
    type V = TransferView;

    open spec fn view(&self) -> TransferView {
        TransferView {
            inscription_id: match self.inscription_id {
                Some(id) => Some(id@),
                None => None,
            },
            outpoint: match self.outpoint {
                Some(op) => Some(op@),
                None => None,
            },
            amount: self.amount,
            address: self.address@,
        }
    }
}

impl Transfer {
    /// A well-formed transfer holds a well-formed explicit coin reference,
    /// when it holds one at all.
    pub open spec fn wf(&self) -> bool {
        match self.outpoint {
            Some(op) => op.wf(),
            None => true,
        }
    }
}

/// The transfer request: a fee rate in satoshis per virtual byte, an
/// optional funding coin reference absorbed as the fee and change source, a
/// change address that also anchors future fee bumping, and an ordered list
/// of transfers.
pub struct Manifest {
    pub fee_rate: u64,
    pub funding_outpoint: Option<OutPointRef>,
    pub change_address: String,
    pub transfers: Vec<Transfer>,
}

/// The mathematical content of a `Manifest`.
#[verifier::ext_equal]
pub struct ManifestView {
    pub fee_rate: u64,
    pub funding_outpoint: Option<OutPointView>,
    pub change_address: Seq<char>,
    pub transfers: Seq<TransferView>,
}

impl View for Manifest {
    type V = ManifestView;

    open spec fn view(&self) -> ManifestView {
        ManifestView {
            fee_rate: self.fee_rate,
            funding_outpoint: match self.funding_outpoint {
                Some(op) => Some(op@),
                None => None,
            },
            change_address: self.change_address@,
            transfers: Seq::new(self.transfers@.len(), |i: int| self.transfers@[i]@),
        }
    }
}

impl Manifest {
    /// A well-formed manifest holds well-formed coin references throughout.
    pub open spec fn wf(&self) -> bool {
        &&& match self.funding_outpoint {
            Some(op) => op.wf(),
            None => true,
        }
        &&& forall|i: int|
            0 <= i < self.transfers@.len() ==> (#[trigger] self.transfers@[i]).wf()
    }
}

impl Default for Manifest {
    /// The starting manifest written out for the user to edit: unit fee
    /// rate, no funding reference, and one blank transfer.
    fn default() -> (r: Self)
        ensures
            r.fee_rate == 1,
            r.funding_outpoint is None,
            r.change_address@ == Seq::<char>::empty(),
            r.transfers@.len() == 1,
            r.transfers@[0]@ == (TransferView {
                inscription_id: Some(Seq::<char>::empty()),
                outpoint: None::<OutPointView>,
                amount: None::<u64>,
                address: Seq::<char>::empty(),
            }),
            r.wf(),
    {
        let mut transfers: Vec<Transfer> = Vec::new();
        transfers.push(
            Transfer {
                inscription_id: Some(String::new()),
                outpoint: None,
                amount: None,
                address: String::new(),
            },
        );
        Manifest {
            fee_rate: 1,
            funding_outpoint: None,
            change_address: String::new(),
            transfers,
        }
    }
}

} // verus!
