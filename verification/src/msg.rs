//! The command and query surface, as plain values.
//!
//! The host runtime decodes incoming messages, performs the external
//! collaborator calls (the ownership query, the embedded-message decode)
//! and hands their outcomes in as `Result` values; everything that
//! decides is in this crate.

use vstd::prelude::*;

verus! {

/// Sets the initial configuration; the caller becomes admin and rerolling
/// starts enabled.
pub struct InstantiateMsg {
    pub collection_address: String,
    pub roll_fees: u128,
    pub denom: String,
    pub decimals: u8,
}

/// One payment entry attached to a command: an amount of a currency.
pub struct Coin {
    pub denom: String,
    pub amount: u128,
}

#[verifier::ext_equal]
pub ghost struct CoinV {
    pub denom: Seq<char>,
    pub amount: u128,
}

impl View for Coin {
    type V = CoinV;

    open spec fn view(&self) -> CoinV {
        CoinV { denom: self.denom@, amount: self.amount }
    }
}

/// The sub-message a token-receive callback must carry; only one variant
/// is defined.
#[derive(Debug)]
pub enum NftReceiveMsg {
    Reroll {},
}

/// A token-receive callback as the host hands it in: the identity that
/// sent the token into custody, the token, and the outcome of decoding
/// the embedded sub-message (`Err` carries the decoder's report).
pub struct NftReceiveWrapper {
    pub sender: String,
    pub token_id: String,
    pub msg: Result<NftReceiveMsg, String>,
}

/// The commands.
pub enum ExecuteMsg {
    /// Overwrites the present optional fields of the configuration;
    /// admin only.
    UpdateConfig {
        admin: Option<String>,
        enabled: Option<bool>,
        roll_fees: Option<u128>,
        denom: Option<String>,
    },
    /// Requests a reroll of `nft_id`. `owner` is the outcome of the
    /// host's ownership query against the collection: the owner's
    /// identity, or the query's error report.
    CreateReroll { nft_id: String, owner: Result<String, String> },
    /// The collection confirms a reroll by transferring the token in.
    ReceiveNft(NftReceiveWrapper),
    /// Sends accumulated funds out; admin only.
    Withdraw { denom: String, is_cw20: bool, amount: u128, address: String },
}

/// What a command came with: the caller, the attached payment, and the
/// host block clock in seconds.
pub struct MessageEnv {
    pub sender: String,
    pub funds: Vec<Coin>,
    pub timestamp: u64,
}

/// The queries.
pub enum QueryMsg {
    GetRerolls {},
    GetUserRerolls { address: String },
}

/// A query's answer.
#[derive(Debug)]
pub enum QueryAnswer {
    /// Every registry entry with its key, in ascending key order.
    Rerolls(Vec<crate::state::RerollData>),
    /// The records of one requester, in ascending key order.
    UserRerolls(Vec<crate::state::Reroll>),
}

/// The view of an optional identity or denomination.
pub open spec fn opt_view(o: Option<String>) -> Option<Seq<char>> {
    match o {
        Some(s) => Some(s@),
        None => None,
    }
}

/// The view of an external call's outcome.
pub open spec fn res_view(r: Result<String, String>) -> Result<Seq<char>, Seq<char>> {
    match r {
        Ok(s) => Ok(s@),
        Err(e) => Err(e@),
    }
}

/// The view of a decoded embedded sub-message.
pub open spec fn submsg_view(r: Result<NftReceiveMsg, String>) -> Result<NftReceiveMsg, Seq<char>> {
    match r {
        Ok(m) => Ok(m),
        Err(e) => Err(e@),
    }
}

/// The view of an attached payment.
pub open spec fn coins_view(funds: Seq<Coin>) -> Seq<CoinV> {
    funds.map(|i: int, c: Coin| c@)
}

} // verus!
