//! Outbound instructions.  A handler cannot touch balances directly: its
//! only effect is the ordered list of messages it returns, which the host
//! executes after the call commits.  If any message fails, the whole
//! transaction including the state writes is rolled back.

use vstd::prelude::*;

verus! {

/// One outbound instruction.
#[derive(Clone, Debug, PartialEq, Eq)]
pub enum OutboundMsg {
    /// Send native funds held by (or attached to) the contract.
    BankSend { to_address: String, denom: String, amount: u128 },
    /// Ask a fungible-token contract to move pre-authorized funds.
    Cw20TransferFrom { token_address: String, owner: String, recipient: String, amount: u128 },
    /// Ask an NFT contract to move a token.
    TransferNft { contract_address: String, recipient: String, token_id: String },
    /// Ask an NFT contract to mint a token.
    MintNft { contract_address: String, owner: String, token_id: String, token_uri: String },
}

impl OutboundMsg {
    /// Whether the message moves payment funds (as opposed to an NFT).
    pub open spec fn spec_is_payment(self) -> bool {
        self is BankSend || self is Cw20TransferFrom
    }

    /// The amount a payment message moves.
    pub open spec fn spec_amount(self) -> u128 {
        match self {
            OutboundMsg::BankSend { amount, .. } => amount,
            OutboundMsg::Cw20TransferFrom { amount, .. } => amount,
            _ => 0,
        }
    }

    /// The account a payment message pays.
    pub open spec fn spec_payee(self) -> Seq<char> {
        match self {
            OutboundMsg::BankSend { to_address, .. } => to_address@,
            OutboundMsg::Cw20TransferFrom { recipient, .. } => recipient@,
            _ => Seq::empty(),
        }
    }
}

/// What a handler returns: the ordered outbound messages.
#[derive(Clone, Debug, PartialEq, Eq)]
pub struct Response {
    pub messages: Vec<OutboundMsg>,
}

} // verus!
