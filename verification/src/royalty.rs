//! The royalty-aware settlement engine.
//!
//! Given a payment instruction and the royalty oracle's answer for the
//! sold token, it emits a split payment plan: a creator cut followed by
//! the remainder, or one full payment when no royalty applies.  Its only
//! effect is the ordered message list it returns.

use vstd::prelude::*;

use crate::asset::PaymentAsset;
use crate::error::ContractError;
use crate::msgs::OutboundMsg;

verus! {

/// The royalty oracle's answer: who is owed which cut of this sale.
#[derive(Clone, Debug, PartialEq, Eq)]
pub struct RoyaltiesInfoResponse {
    /// The creator address owed the royalty; empty when none is owed.
    pub address: String,
    pub royalty_amount: u128,
}

/// The royalty that actually applies.  A failed query, an empty creator
/// address, a zero amount, or a creator equal to the payee all mean no
/// split; these degenerate cases are deliberate business rules.
pub open spec fn spec_effective_royalty(
    royalty_info: Option<RoyaltiesInfoResponse>,
    payee: Seq<char>,
) -> Option<(Seq<char>, u128)> {
    match royalty_info {
        None => None,
        Some(info) => if info.address@.len() == 0 || info.royalty_amount == 0 || info.address@
            == payee {
            None
        } else {
            Some((info.address@, info.royalty_amount))
        },
    }
}

/// Whether `m` moves `amount` of `token` from `sender` to `to`: a native
/// bank send, or a transfer-from addressed to the token contract.
pub open spec fn spec_is_transfer(
    m: OutboundMsg,
    token: PaymentAsset,
    sender: Seq<char>,
    to: Seq<char>,
    amount: u128,
) -> bool {
    match token {
        PaymentAsset::Native { denom, .. } => {
            &&& m matches OutboundMsg::BankSend { to_address, denom: d, amount: a }
            &&& to_address@ == to
            &&& d@ == denom@
            &&& a == amount
        },
        PaymentAsset::Cw20 { contract_address, .. } => {
            &&& m matches OutboundMsg::Cw20TransferFrom {
                token_address,
                owner,
                recipient,
                amount: a,
            }
            &&& token_address@ == contract_address@
            &&& owner@ == sender
            &&& recipient@ == to
            &&& a == amount
        },
    }
}

/// The settlement plan for one sale: one full payment when no royalty
/// applies, else the creator cut followed by the remainder.
pub open spec fn spec_settlement(
    msgs: Seq<OutboundMsg>,
    token: PaymentAsset,
    sender: Seq<char>,
    recipient: Seq<char>,
    royalty_info: Option<RoyaltiesInfoResponse>,
) -> bool {
    match spec_effective_royalty(royalty_info, recipient) {
        None => {
            &&& msgs.len() == 1
            &&& spec_is_transfer(msgs[0], token, sender, recipient, token.spec_amount())
        },
        Some((creator, royalty_amount)) => {
            &&& msgs.len() == 2
            &&& spec_is_transfer(msgs[0], token, sender, creator, royalty_amount)
            &&& spec_is_transfer(
                msgs[1],
                token,
                sender,
                recipient,
                (token.spec_amount() - royalty_amount) as u128,
            )
        },
    }
}

/// One payment message of `amount` of `token`, `sender` to `to`.
fn transfer_msg(token: &PaymentAsset, sender: &String, to: &String, amount: u128) -> (r:
    OutboundMsg)
    ensures
        spec_is_transfer(r, *token, sender@, to@, amount),
{
    match token {
        PaymentAsset::Native { denom, .. } => OutboundMsg::BankSend {
            to_address: to.clone(),
            denom: denom.clone(),
            amount,
        },
        PaymentAsset::Cw20 { contract_address, .. } => OutboundMsg::Cw20TransferFrom {
            token_address: contract_address.clone(),
            owner: sender.clone(),
            recipient: to.clone(),
            amount,
        },
    }
}

/// Routes one sale's payment, splitting out the creator's royalty cut.
///
/// Fails only when the oracle reports a royalty above the sale amount,
/// which would otherwise underflow the remainder; that signals a broken
/// oracle, not a user error.
pub fn payment_with_royalty(
    token: &PaymentAsset,
    sender: &String,
    recipient: &String,
    royalty_info: Option<RoyaltiesInfoResponse>,
) -> (r: Result<Vec<OutboundMsg>, ContractError>)
    ensures
        r is Ok <==> (match spec_effective_royalty(royalty_info, recipient@) {
            Some((creator, royalty_amount)) => royalty_amount <= token.spec_amount(),
            None => true,
        }),
        r matches Ok(msgs) ==> spec_settlement(msgs@, *token, sender@, recipient@, royalty_info),
        r matches Err(e) ==> e matches ContractError::CustomError { val } && val@
            == "Royalty exceeds sale price"@,
{
    let amount = match token {
        PaymentAsset::Native { amount, .. } => *amount,
        PaymentAsset::Cw20 { amount, .. } => *amount,
    };
    let effective: Option<(String, u128)> = match royalty_info {
        None => None,
        Some(info) => {
            if info.address.as_str().unicode_len() == 0 || info.royalty_amount == 0 || info.address
                == *recipient {
                None
            } else {
                Some((info.address, info.royalty_amount))
            }
        },
    };
    match effective {
        None => {
            let mut msgs: Vec<OutboundMsg> = Vec::new();
            msgs.push(transfer_msg(token, sender, recipient, amount));
            Ok(msgs)
        },
        Some((creator, royalty_amount)) => {
            if royalty_amount > amount {
                return Err(
                    ContractError::CustomError {
                        val: "Royalty exceeds sale price".to_owned(),
                    },
                );
            }
            let mut msgs: Vec<OutboundMsg> = Vec::new();
            msgs.push(transfer_msg(token, sender, &creator, royalty_amount));
            msgs.push(transfer_msg(token, sender, recipient, amount - royalty_amount));
            Ok(msgs)
        },
    }
}

/// Royalty split correctness: when a royalty of `R <= A` applies and the
/// creator differs from the payee, settlement is exactly two payment
/// instructions that sum to the sale amount `A`, the creator's cut first;
/// when none applies it is exactly one instruction for all of `A`.
pub proof fn lemma_royalty_split(
    msgs: Seq<OutboundMsg>,
    token: PaymentAsset,
    sender: Seq<char>,
    recipient: Seq<char>,
    royalty_info: Option<RoyaltiesInfoResponse>,
)
    requires
        spec_settlement(msgs, token, sender, recipient, royalty_info),
        (match spec_effective_royalty(royalty_info, recipient) {
            Some((creator, royalty_amount)) => royalty_amount <= token.spec_amount(),
            None => true,
        }),
    ensures
        match spec_effective_royalty(royalty_info, recipient) {
            Some((creator, royalty_amount)) => {
                &&& msgs.len() == 2
                &&& msgs[0].spec_is_payment() && msgs[1].spec_is_payment()
                &&& msgs[0].spec_amount() + msgs[1].spec_amount() == token.spec_amount()
                &&& msgs[0].spec_payee() == creator
                &&& msgs[0].spec_amount() == royalty_amount
                &&& msgs[1].spec_payee() == recipient
            },
            None => {
                &&& msgs.len() == 1
                &&& msgs[0].spec_is_payment()
                &&& msgs[0].spec_amount() == token.spec_amount()
                &&& msgs[0].spec_payee() == recipient
            },
        },
{
}

} // verus!
