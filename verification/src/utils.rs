//! The token transfer builder.

use vstd::prelude::*;

verus! {

use crate::response::{TransferMsg, TransferMsgV};

/// The one transfer instruction for the given destination and amount:
/// a native send of `denom`, or, when `is_cw20` is set, an invocation of
/// the fungible-token program located at `denom`.
pub open spec fn transfer_msg_spec(
    denom: Seq<char>,
    is_cw20: bool,
    amount: u128,
    receiver: Seq<char>,
) -> TransferMsgV {
    if !is_cw20 {
        TransferMsgV::NativeSend { to_address: receiver, denom, amount }
    } else {
        TransferMsgV::TokenContractTransfer { contract_addr: denom, recipient: receiver, amount }
    }
}

/// Builds the outgoing transfer instruction. No validation happens here:
/// amount and recipient are taken as given, and failures surface when the
/// host executes the instruction.
pub fn transfer_token_message(denom: String, is_cw20: bool, amount: u128, receiver: String) -> (m:
    TransferMsg)
    ensures
        m@ == transfer_msg_spec(denom@, is_cw20, amount, receiver@),
{
    if !is_cw20 {
        TransferMsg::NativeSend { to_address: receiver, denom, amount }
    } else {
        TransferMsg::TokenContractTransfer { contract_addr: denom, recipient: receiver, amount }
    }
}

} // verus!
