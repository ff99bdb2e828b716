//! What a successful command hands back to the host: human-readable
//! attributes and outgoing value-transfer instructions.

use vstd::prelude::*;

verus! {

use vstd::string::StringExecFns;

/// One observability attribute of a response.
#[derive(Debug)]
pub struct Attribute {
    pub key: String,
    pub value: String,
}

#[verifier::ext_equal]
pub ghost struct AttributeV {
    pub key: Seq<char>,
    pub value: Seq<char>,
}

impl View for Attribute {
    type V = AttributeV;

    open spec fn view(&self) -> AttributeV {
        AttributeV { key: self.key@, value: self.value@ }
    }
}

/// One outgoing value transfer, executed by the host after the command
/// commits.
#[derive(Debug)]
pub enum TransferMsg {
    /// A native-currency send of `amount` units of `denom`.
    NativeSend { to_address: String, denom: String, amount: u128 },
    /// An invocation of the fungible-token program at `contract_addr`,
    /// transferring `amount` to `recipient`.
    TokenContractTransfer { contract_addr: String, recipient: String, amount: u128 },
}

#[verifier::ext_equal]
pub ghost enum TransferMsgV {
    NativeSend { to_address: Seq<char>, denom: Seq<char>, amount: u128 },
    TokenContractTransfer { contract_addr: Seq<char>, recipient: Seq<char>, amount: u128 },
}

impl View for TransferMsg {
    type V = TransferMsgV;

    open spec fn view(&self) -> TransferMsgV {
        match self {
            TransferMsg::NativeSend { to_address, denom, amount } => (TransferMsgV::NativeSend {
                to_address: to_address@,
                denom: denom@,
                amount: *amount,
            }),
            TransferMsg::TokenContractTransfer { contract_addr, recipient, amount } => (
            TransferMsgV::TokenContractTransfer {
                contract_addr: contract_addr@,
                recipient: recipient@,
                amount: *amount,
            }),
        }
    }
}

/// The result of a successful command.
#[derive(Debug)]
pub struct Response {
    pub attributes: Vec<Attribute>,
    pub messages: Vec<TransferMsg>,
}

#[verifier::ext_equal]
pub ghost struct ResponseV {
    pub attributes: Seq<AttributeV>,
    pub messages: Seq<TransferMsgV>,
}

impl View for Response {
    type V = ResponseV;

    open spec fn view(&self) -> ResponseV {
        ResponseV {
            attributes: self.attributes@.map(|i: int, a: Attribute| a@),
            messages: self.messages@.map(|i: int, m: TransferMsg| m@),
        }
    }
}

/// A response with no attributes and no messages.
pub open spec fn empty_response_v() -> ResponseV {
    ResponseV { attributes: Seq::empty(), messages: Seq::empty() }
}

impl Response {
    /// The empty response.
    pub fn empty() -> (r: Response)
        ensures
            r@ =~= empty_response_v(),
    {
        Response { attributes: Vec::new(), messages: Vec::new() }
    }
}

/// An attribute from a literal key and an owned value.
pub fn attr(key: &str, value: String) -> (a: Attribute)
    ensures
        a@ == (AttributeV { key: key@, value: value@ }),
{
    Attribute { key: String::from_str(key), value }
}

} // verus!
