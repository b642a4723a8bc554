//! The royalty-aware token model: per-token metadata carrying the
//! royalty terms, the royalty computation with its floor rounding, and
//! the provenance bookkeeping of a collection.

use vstd::prelude::*;

use crate::arith::percent_of;
use crate::error::ContractError;
use crate::royalty::RoyaltiesInfoResponse;

verus! {

/// One display attribute of a token.
#[derive(Clone, Debug, PartialEq, Eq)]
pub struct Trait {
    pub display_type: Option<String>,
    pub trait_type: String,
    pub value: String,
}

/// Off-chain metadata of one token, with its royalty terms: the cut the
/// minter takes when the token is sold, and who receives it.
#[derive(Debug, PartialEq, Eq)]
pub struct Metadata {
    pub image: Option<String>,
    pub image_data: Option<String>,
    pub external_url: Option<String>,
    pub description: Option<String>,
    pub name: Option<String>,
    pub attributes: Option<Vec<Trait>>,
    pub background_color: Option<String>,
    pub animation_url: Option<String>,
    pub youtube_url: Option<String>,
    /// Royalties are owed on this token when it is `Some`.
    pub royalty_percentage: Option<u64>,
    /// The payment address; may differ from the minter.
    pub royalty_payment_address: Option<String>,
}

impl Metadata {
    pub fn empty() -> (r: Self)
        ensures
            r.royalty_percentage is None,
            r.royalty_payment_address is None,
    {
        Metadata {
            image: None,
            image_data: None,
            external_url: None,
            description: None,
            name: None,
            attributes: None,
            background_color: None,
            animation_url: None,
            youtube_url: None,
            royalty_percentage: None,
            royalty_payment_address: None,
        }
    }
}

/// Proof material published when the collection's NFTs are distributed.
#[derive(Clone, Debug, PartialEq, Eq)]
pub struct ProvenanceInfo {
    pub final_proof: String,
    pub elements_proof: String,
    pub token_uri_anchor: u32,
    pub distinct_elements_number: u32,
}

/// Collection-level royalty configuration and provenance.
#[derive(Debug, PartialEq, Eq)]
pub struct Config {
    pub royalty_percentage: Option<u64>,
    pub royalty_payment_address: Option<String>,
    pub provenance: Option<ProvenanceInfo>,
}

impl Config {
    /// A valid configuration never takes more than the whole price.
    pub open spec fn wf(&self) -> bool {
        self.royalty_percentage matches Some(p) ==> p <= 100
    }

    /// Builds the collection configuration at instantiation.  A royalty
    /// percentage above 100 is rejected.  When a final provenance proof
    /// is given, the element proofs and the anchor start empty and are
    /// filled in later, at distribution.
    pub fn build(
        royalty_percentage: Option<u64>,
        royalty_payment_address: Option<String>,
        final_proof: Option<String>,
    ) -> (r: Result<Config, ContractError>)
        ensures
            r is Ok <==> (royalty_percentage matches Some(p) ==> p <= 100),
            r matches Ok(c) ==> {
                &&& c.wf()
                &&& c.royalty_percentage == royalty_percentage
                &&& c.royalty_payment_address == royalty_payment_address
                &&& match final_proof {
                    Some(f) => c.provenance matches Some(pr) && pr.final_proof == f
                        && pr.elements_proof@.len() == 0 && pr.token_uri_anchor == 0
                        && pr.distinct_elements_number == 0,
                    None => c.provenance is None,
                }
            },
            r matches Err(e) ==> e matches ContractError::CustomError { val } && val@
                == "Royalty percentage cannot be greater than 100"@,
    {
        if let Some(p) = royalty_percentage {
            if p > 100 {
                return Err(
                    ContractError::CustomError {
                        val: "Royalty percentage cannot be greater than 100".to_owned(),
                    },
                );
            }
        }
        let provenance = match final_proof {
            Some(f) => Some(
                ProvenanceInfo {
                    final_proof: f,
                    elements_proof: String::new(),
                    token_uri_anchor: 0,
                    distinct_elements_number: 0,
                },
            ),
            None => None,
        };
        Ok(Config { royalty_percentage, royalty_payment_address, provenance })
    }

    /// Fills a freshly minted token's metadata with the collection's
    /// royalty terms.  Setting royalty terms in the mint message itself
    /// is rejected.
    pub fn apply_royalty(&self, extension: Metadata) -> (r: Result<Metadata, ContractError>)
        ensures
            r is Ok <==> (extension.royalty_percentage is None
                && extension.royalty_payment_address is None),
            r matches Ok(m) ==> {
                &&& m.royalty_percentage == self.royalty_percentage
                &&& m.royalty_payment_address == self.royalty_payment_address
                &&& m.name == extension.name
                &&& m.description == extension.description
                &&& m.image == extension.image
            },
            r matches Err(e) ==> e matches ContractError::CustomError { val } && val@
                == "Cannot set royalty information in mint message"@,
    {
        if extension.royalty_percentage.is_some() || extension.royalty_payment_address.is_some() {
            return Err(
                ContractError::CustomError {
                    val: "Cannot set royalty information in mint message".to_owned(),
                },
            );
        }
        let royalty_payment_address = match &self.royalty_payment_address {
            Some(a) => Some(a.clone()),
            None => None,
        };
        Ok(
            Metadata {
                royalty_percentage: self.royalty_percentage,
                royalty_payment_address,
                ..extension
            },
        )
    }

    /// Records the distribution proofs once.  Only callable while a
    /// final proof is present and the element proofs are still empty;
    /// re-distributing is rejected.
    pub fn distribute_nfts(
        &mut self,
        elements_proof: String,
        token_uri_anchor: u32,
        distinct_elements_number: u32,
    ) -> (r: Result<(), ContractError>)
        ensures
            r is Ok <==> (old(self).provenance matches Some(pr) && pr.final_proof@.len() > 0
                && pr.elements_proof@.len() == 0),
            r is Ok ==> {
                &&& final(self).provenance matches Some(pr)
                    && pr.final_proof == old(self).provenance->0.final_proof
                    && pr.elements_proof == elements_proof
                    && pr.token_uri_anchor == token_uri_anchor
                    && pr.distinct_elements_number == distinct_elements_number
                &&& final(self).royalty_percentage == old(self).royalty_percentage
                &&& final(self).royalty_payment_address == old(self).royalty_payment_address
            },
            r is Err ==> *final(self) == *old(self),
            r matches Err(e) ==> e matches ContractError::CustomError { val } && val@
                == "Re-distibuting NFTs is not neccessary"@,
    {
        let ok = match &self.provenance {
            Some(pr) => {
                pr.final_proof.as_str().unicode_len() > 0 && pr.elements_proof.as_str().unicode_len()
                    == 0
            },
            None => false,
        };
        if !ok {
            return Err(
                ContractError::CustomError {
                    val: "Re-distibuting NFTs is not neccessary".to_owned(),
                },
            );
        }
        let final_proof = match &self.provenance {
            Some(pr) => pr.final_proof.clone(),
            None => String::new(),
        };
        self.provenance = Some(
            ProvenanceInfo {
                final_proof,
                elements_proof,
                token_uri_anchor,
                distinct_elements_number,
            },
        );
        Ok(())
    }
}

/// Whether this contract pays royalties at all.
#[derive(Clone, Copy, Debug, PartialEq, Eq, Structural)]
pub struct CheckRoyaltiesResponse {
    pub royalty_payments: bool,
}

/// Royalties are specified at token level here, so every token managed
/// by this contract should be checked on sale.
pub fn check_royalties() -> (r: CheckRoyaltiesResponse)
    ensures
        r.royalty_payments,
{
    CheckRoyaltiesResponse { royalty_payments: true }
}

/// What one token's sale owes its creator: the royalty percentage of
/// the sale price rounded toward zero — the floor is a stated
/// compatibility requirement — and the payment address, empty when the
/// token names none.
pub fn query_royalties_info(extension: &Option<Metadata>, sale_price: u128) -> (r:
    RoyaltiesInfoResponse)
    requires
        (match extension {
            Some(m) => m.royalty_percentage matches Some(p) ==> p <= 100,
            None => true,
        }),
    ensures
        r.royalty_amount == (match extension {
            Some(m) => match m.royalty_percentage {
                Some(p) => (sale_price * p) / 100,
                None => 0,
            },
            None => 0,
        }),
        r.address@ == (match extension {
            Some(m) => match m.royalty_payment_address {
                Some(a) => a@,
                None => Seq::<char>::empty(),
            },
            None => Seq::<char>::empty(),
        }),
{
    let royalty_amount = match extension {
        Some(m) => match m.royalty_percentage {
            Some(p) => percent_of(sale_price, p),
            None => 0,
        },
        None => 0,
    };
    let address = match extension {
        Some(m) => match &m.royalty_payment_address {
            Some(a) => a.clone(),
            None => String::new(),
        },
        None => String::new(),
    };
    RoyaltiesInfoResponse { address, royalty_amount }
}

} // verus!
