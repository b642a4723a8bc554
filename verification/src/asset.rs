//! The asset and payment model: a tagged value is a native-currency
//! amount, a fungible-token amount, or an NFT reference.  Only the first
//! two can pay for a trade; the conversion into a payment asset is a
//! checked one and rejects an NFT.

use vstd::prelude::*;

verus! {

/// A native coin attached to a call: a denomination and an amount.
#[derive(Clone, Debug, PartialEq, Eq)]
pub struct Coin {
    pub denom: String,
    pub amount: u128,
}

/// A reference to a token of an NFT contract.  `token_id` is `None` when
/// a whole collection is meant; most operations reject that case.
#[derive(Clone, Debug, PartialEq, Eq)]
pub struct NFT {
    pub contract_address: String,
    pub token_id: Option<String>,
}

/// A fungible-token amount held by a token contract.
#[derive(Clone, Debug, PartialEq, Eq)]
pub struct CW20 {
    pub contract_address: String,
    pub amount: u128,
}

/// A native-currency amount.
#[derive(Clone, Debug, PartialEq, Eq)]
pub struct NATIVE {
    pub denom: String,
    pub amount: u128,
}

/// Any value a trade leg can carry.
#[derive(Clone, Debug, PartialEq, Eq)]
pub enum Asset {
    Nft(NFT),
    Native(NATIVE),
    Cw20(CW20),
}

/// The payment-capable projection of [`Asset`].
#[derive(Clone, Debug, PartialEq, Eq)]
pub enum PaymentAsset {
    Native { denom: String, amount: u128 },
    Cw20 { contract_address: String, amount: u128 },
}

/// Which of the three asset kinds a trade leg holds.
#[derive(Clone, Copy, Debug, PartialEq, Eq, Structural)]
pub enum ItemType {
    NATIVE,
    CW20,
    CW721,
}

/// The side of an order a leg belongs to.
#[derive(Clone, Copy, Debug, PartialEq, Eq, Structural)]
pub enum Side {
    OFFER,
    CONSIDERATION,
}

impl Coin {
    /// A field-by-field copy whose equality with the original is known.
    pub fn duplicate(&self) -> (r: Self)
        ensures
            r == *self,
    {
        Coin { denom: self.denom.clone(), amount: self.amount }
    }
}

impl NATIVE {
    /// A field-by-field copy whose equality with the original is known.
    pub fn duplicate(&self) -> (r: Self)
        ensures
            r == *self,
    {
        NATIVE { denom: self.denom.clone(), amount: self.amount }
    }
}

impl NFT {
    /// A field-by-field copy whose equality with the original is known.
    pub fn duplicate(&self) -> (r: Self)
        ensures
            r == *self,
    {
        NFT {
            contract_address: self.contract_address.clone(),
            token_id: match &self.token_id {
                Some(id) => Some(id.clone()),
                None => None,
            },
        }
    }
}

impl Asset {
    /// A field-by-field copy whose equality with the original is known.
    pub fn duplicate(&self) -> (r: Self)
        ensures
            r == *self,
    {
        match self {
            Asset::Nft(n) => Asset::Nft(n.duplicate()),
            Asset::Native(n) => Asset::Native(
                NATIVE { denom: n.denom.clone(), amount: n.amount },
            ),
            Asset::Cw20(c) => Asset::Cw20(
                CW20 { contract_address: c.contract_address.clone(), amount: c.amount },
            ),
        }
    }

    pub open spec fn spec_is_payment(self) -> bool {
        !(self is Nft)
    }

    /// The payment asset an asset converts to, when it is one.
    pub open spec fn spec_as_payment(self) -> PaymentAsset {
        match self {
            Asset::Native(n) => PaymentAsset::Native { denom: n.denom, amount: n.amount },
            Asset::Cw20(c) => PaymentAsset::Cw20 {
                contract_address: c.contract_address,
                amount: c.amount,
            },
            Asset::Nft(_) => arbitrary(),
        }
    }
}

impl PaymentAsset {
    /// Checked conversion from an asset: an NFT is not a payment and is
    /// rejected instead of aborting.
    pub fn try_from_asset(asset: &Asset) -> (r: Option<PaymentAsset>)
        ensures
            r is Some <==> asset.spec_is_payment(),
            r is Some ==> r->0 == asset.spec_as_payment(),
    {
        match asset {
            Asset::Native(n) => Some(
                PaymentAsset::Native { denom: n.denom.clone(), amount: n.amount },
            ),
            Asset::Cw20(c) => Some(
                PaymentAsset::Cw20 {
                    contract_address: c.contract_address.clone(),
                    amount: c.amount,
                },
            ),
            Asset::Nft(_) => None,
        }
    }

    /// The amount a payment asset carries, whichever kind it is.
    pub open spec fn spec_amount(self) -> u128 {
        match self {
            PaymentAsset::Native { amount, .. } => amount,
            PaymentAsset::Cw20 { amount, .. } => amount,
        }
    }
}

} // verus!
