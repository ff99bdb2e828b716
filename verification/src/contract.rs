//! The command and query handlers: each is a state transition over the
//! configuration and the reroll registry, specified against a functional
//! model of the same transition.

use vstd::prelude::*;

verus! {

use vstd::string::StringExecFns;
use crate::error::{ContractError, ErrorV};
use crate::msg::{Coin, CoinV, ExecuteMsg, InstantiateMsg, MessageEnv, NftReceiveMsg,
    NftReceiveWrapper, QueryAnswer, QueryMsg, coins_view, opt_view, res_view};
use crate::num::{dec_str, lemma_pow10_fits_u128, pow10, pow10_spec, u128_to_dec};
use crate::response::{attr, empty_response_v, Attribute, AttributeV, Response, ResponseV,
    TransferMsg, TransferMsgV};
use crate::state::{Config, ConfigV, Registry, RerollDataV, Reroll, RerollData, RerollV, State,
    lemma_insert_pos_bounds, lemma_reg_get_at, lemma_reg_insert_contains, lemma_reg_update_props,
    reg_contains, reg_get, reg_insert, reg_update};

/// The response of a successful initialization.
pub open spec fn init_response_v(collection: Seq<char>, roll_fees: u128, denom: Seq<char>)
    -> ResponseV {
    ResponseV {
        attributes: seq![
            AttributeV { key: "action"@, value: "init contract"@ },
            AttributeV { key: "collection_address"@, value: collection },
            AttributeV { key: "roll_fees"@, value: dec_str(roll_fees as nat) },
            AttributeV { key: "denom"@, value: denom },
        ],
        messages: Seq::empty(),
    }
}

/// The configuration a fresh instance starts with: the caller becomes
/// admin, rerolling starts enabled.
pub open spec fn init_config_v(sender: Seq<char>, msg: InstantiateMsg) -> ConfigV {
    ConfigV {
        admin: sender,
        enabled: true,
        collection_address: msg.collection_address@,
        roll_fees: msg.roll_fees,
        denom: msg.denom@,
        decimals: msg.decimals,
    }
}

/// Sets the initial configuration. The registry starts empty
/// (`Registry::new`); the host persists both.
pub fn instantiate(sender: String, msg: InstantiateMsg) -> (r: (Config, Response))
    requires
        msg.decimals <= 38,
    ensures
        r.0@ == init_config_v(sender@, msg),
        r.0@.wf(),
        r.1@ == init_response_v(msg.collection_address@, msg.roll_fees, msg.denom@),
{
    let fees = u128_to_dec(msg.roll_fees);
    let config = Config {
        enabled: true,
        admin: sender,
        collection_address: msg.collection_address.clone(),
        roll_fees: msg.roll_fees,
        denom: msg.denom.clone(),
        decimals: msg.decimals,
    };
    let mut attributes: Vec<Attribute> = Vec::new();
    attributes.push(attr("action", String::from_str("init contract")));
    attributes.push(attr("collection_address", msg.collection_address));
    attributes.push(attr("roll_fees", fees));
    attributes.push(attr("denom", msg.denom));
    let response = Response { attributes, messages: Vec::new() };
    proof {
        assert(response@ =~= init_response_v(msg.collection_address@, msg.roll_fees, msg.denom@));
    }
    (config, response)
}

/// What the configuration command does: admin only; each present field
/// overwrites its counterpart, absent fields stay.
pub open spec fn update_config_spec(
    cfg: ConfigV,
    sender: Seq<char>,
    admin: Option<Seq<char>>,
    enabled: Option<bool>,
    roll_fees: Option<u128>,
    denom: Option<Seq<char>>,
) -> Result<ConfigV, ErrorV> {
    if sender != cfg.admin {
        Err(ErrorV::Unauthorized)
    } else {
        Ok(
            ConfigV {
                admin: match admin {
                    Some(a) => a,
                    None => cfg.admin,
                },
                enabled: match enabled {
                    Some(e) => e,
                    None => cfg.enabled,
                },
                roll_fees: match roll_fees {
                    Some(f) => f,
                    None => cfg.roll_fees,
                },
                denom: match denom {
                    Some(d) => d,
                    None => cfg.denom,
                },
                collection_address: cfg.collection_address,
                decimals: cfg.decimals,
            },
        )
    }
}

/// Overwrites the present fields of the configuration; the updated
/// configuration is handed back to the host for persistence.
///
/// A non-admin caller is refused and the configuration is left exactly
/// as it was; a call with every field absent leaves it unchanged too.
pub fn update_config(
    config: &mut Config,
    sender: &String,
    admin: Option<String>,
    enabled: Option<bool>,
    roll_fees: Option<u128>,
    denom: Option<String>,
) -> (r: Result<Response, ContractError>)
    ensures
        (match r {
            Ok(resp) => update_config_spec(
                old(config)@,
                sender@,
                opt_view(admin),
                enabled,
                roll_fees,
                opt_view(denom),
            ) == Ok::<ConfigV, ErrorV>(final(config)@) && resp@ == empty_response_v(),
            Err(e) => update_config_spec(
                old(config)@,
                sender@,
                opt_view(admin),
                enabled,
                roll_fees,
                opt_view(denom),
            ) == Err::<ConfigV, ErrorV>(e@) && *final(config) == *old(config),
        }),
        sender@ != old(config)@.admin ==> (r matches Err(e) && e@ == ErrorV::Unauthorized
            && *final(config) == *old(config)),
        r is Ok && admin is None && enabled is None && roll_fees is None && denom is None
            ==> *final(config) == *old(config),
        final(config)@.collection_address == old(config)@.collection_address,
        final(config)@.decimals == old(config)@.decimals,
        old(config)@.wf() ==> final(config)@.wf(),
{
    if !sender.eq(&config.admin) {
        return Err(ContractError::Unauthorized);
    }
    match admin {
        Some(a) => {
            config.admin = a;
        },
        None => {},
    }
    match enabled {
        Some(e) => {
            config.enabled = e;
        },
        None => {},
    }
    match roll_fees {
        Some(f) => {
            config.roll_fees = f;
        },
        None => {},
    }
    match denom {
        Some(d) => {
            config.denom = d;
        },
        None => {},
    }
    proof {
        assert(update_config_spec(
            old(config)@,
            sender@,
            opt_view(admin),
            enabled,
            roll_fees,
            opt_view(denom),
        ) =~= Ok::<ConfigV, ErrorV>(config@));
    }
    Ok(Response::empty())
}

/// The response of a successful reroll request.
pub open spec fn create_response_v(collection: Seq<char>, nft_id: Seq<char>) -> ResponseV {
    ResponseV {
        attributes: seq![
            AttributeV { key: "action"@, value: "create reroll"@ },
            AttributeV { key: "collection_address"@, value: collection },
            AttributeV { key: "nft_id"@, value: nft_id },
        ],
        messages: Seq::empty(),
    }
}

/// What a reroll request does, first failure winning: rerolling must be
/// enabled; the ownership query must have succeeded and name the caller;
/// no record may exist for the token yet; the first attached payment
/// entry must match the configured fee exactly.  On success a fresh
/// unconfirmed record is inserted under the token's key.
pub open spec fn create_roll_spec(
    cfg: ConfigV,
    reg: Seq<RerollDataV>,
    sender: Seq<char>,
    funds: Seq<CoinV>,
    timestamp: u64,
    owner: Result<Seq<char>, Seq<char>>,
    nft_id: Seq<char>,
) -> Result<(Seq<RerollDataV>, ResponseV), ErrorV> {
    if !cfg.enabled {
        Err(ErrorV::NotEnabled)
    } else if owner is Err {
        Err(ErrorV::External { detail: owner->Err_0 })
    } else if owner->Ok_0 != sender {
        Err(ErrorV::NotOwner)
    } else if reg_contains(reg, nft_id) {
        Err(ErrorV::AlreadyRequested)
    } else if funds.len() == 0 || funds[0].denom != cfg.denom || funds[0].amount != cfg.roll_fees {
        Err(ErrorV::PaymentFailed)
    } else {
        Ok(
            (
                reg_insert(reg, nft_id, RerollV { sender, nft_id, rerolled: false, timestamp }),
                create_response_v(cfg.collection_address, nft_id),
            ),
        )
    }
}

/// Requests a reroll of `nft_id`. `owner` is the outcome of the host's
/// read-only ownership query against the collection; the attached
/// payment is kept by the program's balance, so no transfer instruction
/// goes out.
///
/// A token with an existing record is always refused, whatever else
/// holds, and a mismatched payment is refused whenever the earlier
/// checks pass; a refusal leaves the registry exactly as it was.
pub fn create_roll(
    config: &Config,
    registry: &mut Registry,
    sender: &String,
    funds: &Vec<Coin>,
    timestamp: u64,
    owner: &Result<String, String>,
    nft_id: String,
) -> (r: Result<Response, ContractError>)
    requires
        old(registry).wf(),
    ensures
        final(registry).wf(),
        (match r {
            Ok(resp) => create_roll_spec(
                config@,
                old(registry)@,
                sender@,
                coins_view(funds@),
                timestamp,
                res_view(*owner),
                nft_id@,
            ) == Ok::<(Seq<RerollDataV>, ResponseV), ErrorV>((final(registry)@, resp@)),
            Err(e) => create_roll_spec(
                config@,
                old(registry)@,
                sender@,
                coins_view(funds@),
                timestamp,
                res_view(*owner),
                nft_id@,
            ) == Err::<(Seq<RerollDataV>, ResponseV), ErrorV>(e@) && final(registry)@ == old(
                registry,
            )@,
        }),
        reg_contains(old(registry)@, nft_id@) ==> (r is Err && final(registry)@ == old(registry)@),
        r is Ok ==> reg_contains(final(registry)@, nft_id@) && reg_get(final(registry)@, nft_id@)
            == (RerollV { sender: sender@, nft_id: nft_id@, rerolled: false, timestamp }),
        (config@.enabled && res_view(*owner) == Ok::<Seq<char>, Seq<char>>(sender@)
            && !reg_contains(old(registry)@, nft_id@) && (funds@.len() == 0 || funds@[0]@.denom
            != config@.denom || funds@[0]@.amount != config@.roll_fees)) ==> (r matches Err(e)
            && e@ == ErrorV::PaymentFailed),
        forall|k: Seq<char>|
            reg_contains(old(registry)@, k) ==> reg_contains(final(registry)@, k),
{
    if !config.enabled {
        return Err(ContractError::NotEnabled);
    }
    let owner_name = match owner {
        Ok(o) => o,
        Err(e) => {
            return Err(ContractError::External { detail: e.clone() });
        },
    };
    if !owner_name.eq(sender) {
        return Err(ContractError::NotOwner);
    }
    if registry.contains(nft_id.as_str()) {
        return Err(ContractError::AlreadyRequested);
    }
    if funds.len() == 0 {
        return Err(ContractError::PaymentFailed);
    }
    if !funds[0].denom.eq(&config.denom) || funds[0].amount != config.roll_fees {
        return Err(ContractError::PaymentFailed);
    }
    let record = Reroll {
        sender: sender.clone(),
        nft_id: nft_id.clone(),
        rerolled: false,
        timestamp,
    };
    registry.put(nft_id.clone(), record);
    let mut attributes: Vec<Attribute> = Vec::new();
    attributes.push(attr("action", String::from_str("create reroll")));
    attributes.push(attr("collection_address", config.collection_address.clone()));
    attributes.push(attr("nft_id", nft_id));
    let response = Response { attributes, messages: Vec::new() };
    proof {
        let reg0 = old(registry)@;
        let rv = RerollV { sender: sender@, nft_id: nft_id@, rerolled: false, timestamp };
        lemma_reg_insert_contains(reg0, nft_id@, rv);
        lemma_insert_pos_bounds(reg0, nft_id@);
        lemma_reg_get_at(registry@, nft_id@, crate::state::reg_insert_pos(reg0, nft_id@));
        assert(response@ =~= create_response_v(config@.collection_address, nft_id@));
        assert(create_roll_spec(
            config@,
            reg0,
            sender@,
            coins_view(funds@),
            timestamp,
            res_view(*owner),
            nft_id@,
        ) =~= Ok::<(Seq<RerollDataV>, ResponseV), ErrorV>((registry@, response@)));
    }
    Ok(response)
}

/// The response of a successful confirmation: attributes plus the one
/// outgoing reward transfer.
pub open spec fn receive_response_v(
    collection: Seq<char>,
    nft_id: Seq<char>,
    reward: TransferMsgV,
) -> ResponseV {
    ResponseV {
        attributes: seq![
            AttributeV { key: "action"@, value: "execute_reroll"@ },
            AttributeV { key: "collection_address"@, value: collection },
            AttributeV { key: "nft_id"@, value: nft_id },
        ],
        messages: seq![reward],
    }
}

/// The reward for one confirmed reroll: `10^decimals` base units of the
/// reward token, transferred through the token program registered as the
/// collection, to the original requester.
pub open spec fn reward_msg_v(cfg: ConfigV, recipient: Seq<char>) -> TransferMsgV {
    TransferMsgV::TokenContractTransfer {
        contract_addr: cfg.collection_address,
        recipient,
        amount: pow10_spec(cfg.decimals as nat) as u128,
    }
}

/// What a confirmation callback does, first failure winning: rerolling
/// must be enabled; the embedded sub-message must have decoded; the
/// caller must be the registered collection; a record must exist for the
/// token; a record already confirmed is refused rather than paid twice.
/// On success the record is marked rerolled and the reward goes out to
/// its original requester.
pub open spec fn receive_nft_spec(
    cfg: ConfigV,
    reg: Seq<RerollDataV>,
    caller: Seq<char>,
    token_id: Seq<char>,
    submsg: Result<NftReceiveMsg, Seq<char>>,
) -> Result<(Seq<RerollDataV>, ResponseV), ErrorV> {
    if !cfg.enabled {
        Err(ErrorV::NotEnabled)
    } else if submsg is Err {
        Err(ErrorV::InvalidReceiveMsg { detail: submsg->Err_0 })
    } else if caller != cfg.collection_address {
        Err(ErrorV::WrongCollection { expected: cfg.collection_address, received: caller })
    } else if !reg_contains(reg, token_id) {
        Err(ErrorV::NftNotFound)
    } else if reg_get(reg, token_id).rerolled {
        Err(ErrorV::AlreadyConfirmed)
    } else {
        let rec = reg_get(reg, token_id);
        let updated = RerollV {
            sender: rec.sender,
            nft_id: rec.nft_id,
            rerolled: true,
            timestamp: rec.timestamp,
        };
        Ok(
            (
                reg_update(reg, token_id, updated),
                receive_response_v(cfg.collection_address, token_id, reward_msg_v(cfg, rec.sender)),
            ),
        )
    }
}

/// Confirms a reroll when the collection transfers the token in.
/// `caller` is the identity that invoked the callback; only the
/// registered collection is accepted, so an impersonating caller can
/// never mark a record rerolled.
pub fn execute_receive_nft(
    config: &Config,
    registry: &mut Registry,
    caller: &String,
    wrapper: NftReceiveWrapper,
) -> (r: Result<Response, ContractError>)
    requires
        old(registry).wf(),
        config@.wf(),
    ensures
        final(registry).wf(),
        (match r {
            Ok(resp) => receive_nft_spec(
                config@,
                old(registry)@,
                caller@,
                wrapper.token_id@,
                crate::msg::submsg_view(wrapper.msg),
            ) == Ok::<(Seq<RerollDataV>, ResponseV), ErrorV>((final(registry)@, resp@)),
            Err(e) => receive_nft_spec(
                config@,
                old(registry)@,
                caller@,
                wrapper.token_id@,
                crate::msg::submsg_view(wrapper.msg),
            ) == Err::<(Seq<RerollDataV>, ResponseV), ErrorV>(e@) && final(registry)@ == old(
                registry,
            )@,
        }),
        caller@ != config@.collection_address ==> (r is Err && final(registry)@ == old(registry)@),
        (config@.enabled && wrapper.msg is Ok && caller@ == config@.collection_address
            && !reg_contains(old(registry)@, wrapper.token_id@)) ==> (r matches Err(e) && e@
            == ErrorV::NftNotFound),
        r is Ok ==> (resp_of(r).messages =~= seq![
            reward_msg_v(config@, reg_get(old(registry)@, wrapper.token_id@).sender),
        ] && reg_contains(final(registry)@, wrapper.token_id@) && reg_get(
            final(registry)@,
            wrapper.token_id@,
        ).rerolled),
        forall|k: Seq<char>|
            reg_contains(final(registry)@, k) <==> reg_contains(old(registry)@, k),
{
    if !config.enabled {
        return Err(ContractError::NotEnabled);
    }
    match &wrapper.msg {
        Ok(m) => {
            match m {
                NftReceiveMsg::Reroll {} => {},
            }
        },
        Err(e) => {
            return Err(ContractError::InvalidReceiveMsg { detail: e.clone() });
        },
    }
    if !caller.eq(&config.collection_address) {
        return Err(
            ContractError::WrongCollection {
                expected: config.collection_address.clone(),
                received: caller.clone(),
            },
        );
    }
    let record = match registry.get(wrapper.token_id.as_str()) {
        Some(rec) => rec.clone(),
        None => {
            return Err(ContractError::NftNotFound);
        },
    };
    if record.rerolled {
        return Err(ContractError::AlreadyConfirmed);
    }
    let reward_amount = pow10(config.decimals);
    let reward = crate::utils::transfer_token_message(
        config.collection_address.clone(),
        true,
        reward_amount,
        record.sender.clone(),
    );
    let updated = Reroll {
        sender: record.sender,
        nft_id: record.nft_id,
        rerolled: true,
        timestamp: record.timestamp,
    };
    registry.put(wrapper.token_id.clone(), updated);
    let mut attributes: Vec<Attribute> = Vec::new();
    attributes.push(attr("action", String::from_str("execute_reroll")));
    attributes.push(attr("collection_address", config.collection_address.clone()));
    attributes.push(attr("nft_id", wrapper.token_id));
    let mut messages: Vec<TransferMsg> = Vec::new();
    messages.push(reward);
    let response = Response { attributes, messages };
    proof {
        let reg0 = old(registry)@;
        let rec0 = reg_get(reg0, wrapper.token_id@);
        let rv = RerollV {
            sender: rec0.sender,
            nft_id: rec0.nft_id,
            rerolled: true,
            timestamp: rec0.timestamp,
        };
        lemma_pow10_fits_u128(config@.decimals as nat);
        lemma_reg_update_props(reg0, wrapper.token_id@, rv);
        assert(response@ =~= receive_response_v(
            config@.collection_address,
            wrapper.token_id@,
            reward_msg_v(config@, rec0.sender),
        ));
        assert(receive_nft_spec(
            config@,
            reg0,
            caller@,
            wrapper.token_id@,
            crate::msg::submsg_view(wrapper.msg),
        ) =~= Ok::<(Seq<RerollDataV>, ResponseV), ErrorV>((registry@, response@)));
    }
    Ok(response)
}

/// The messages of a successful command's response.
pub open spec fn resp_of(r: Result<Response, ContractError>) -> ResponseV {
    r->Ok_0@
}

/// The response of a successful withdrawal.
pub open spec fn withdraw_response_v(
    denom: Seq<char>,
    amount: u128,
    msg: TransferMsgV,
) -> ResponseV {
    ResponseV {
        attributes: seq![
            AttributeV { key: "action"@, value: "execute_withdraw"@ },
            AttributeV { key: "denom"@, value: denom },
            AttributeV { key: "amount"@, value: dec_str(amount as nat) },
        ],
        messages: seq![msg],
    }
}

/// What a withdrawal does: admin only; one transfer instruction for the
/// requested asset and amount goes to the recipient, and nothing else
/// changes.  Balance sufficiency is the host's concern at execution.
pub open spec fn withdraw_spec(
    cfg: ConfigV,
    sender: Seq<char>,
    denom: Seq<char>,
    is_cw20: bool,
    amount: u128,
    receiver: Seq<char>,
) -> Result<ResponseV, ErrorV> {
    if sender != cfg.admin {
        Err(ErrorV::Unauthorized)
    } else {
        Ok(
            withdraw_response_v(
                denom,
                amount,
                crate::utils::transfer_msg_spec(denom, is_cw20, amount, receiver),
            ),
        )
    }
}

/// Sends accumulated funds out.  A non-admin caller is refused, and a
/// refusal carries no outgoing message at all.
pub fn withdraw(
    config: &Config,
    sender: &String,
    denom: String,
    is_cw20: bool,
    amount: u128,
    receiver: String,
) -> (r: Result<Response, ContractError>)
    ensures
        (match r {
            Ok(resp) => withdraw_spec(config@, sender@, denom@, is_cw20, amount, receiver@)
                == Ok::<ResponseV, ErrorV>(resp@),
            Err(e) => withdraw_spec(config@, sender@, denom@, is_cw20, amount, receiver@)
                == Err::<ResponseV, ErrorV>(e@),
        }),
        sender@ != config@.admin ==> (r matches Err(e) && e@ == ErrorV::Unauthorized),
{
    if !sender.eq(&config.admin) {
        return Err(ContractError::Unauthorized);
    }
    let amount_str = u128_to_dec(amount);
    let transfer = crate::utils::transfer_token_message(denom.clone(), is_cw20, amount, receiver);
    let mut attributes: Vec<Attribute> = Vec::new();
    attributes.push(attr("action", String::from_str("execute_withdraw")));
    attributes.push(attr("denom", denom));
    attributes.push(attr("amount", amount_str));
    let mut messages: Vec<TransferMsg> = Vec::new();
    messages.push(transfer);
    let response = Response { attributes, messages };
    proof {
        assert(response@ =~= withdraw_response_v(
            denom@,
            amount,
            crate::utils::transfer_msg_spec(denom@, is_cw20, amount, receiver@),
        ));
        assert(withdraw_spec(config@, sender@, denom@, is_cw20, amount, receiver@)
            == Ok::<ResponseV, ErrorV>(response@));
    }
    Ok(response)
}

/// The records of one requester: the subsequence of registry records
/// whose `sender` equals the address, in registry key order.
pub open spec fn user_rerolls_spec(reg: Seq<RerollDataV>, address: Seq<char>) -> Seq<RerollV> {
    reg.map_values(|e: RerollDataV| e.reroll).filter(|rv: RerollV| rv.sender == address)
}

/// The view of a listed registry dump.
pub open spec fn rerolls_view(s: Seq<RerollData>) -> Seq<RerollDataV> {
    s.map(|i: int, e: RerollData| e@)
}

/// The view of a listed record sequence.
pub open spec fn records_view(s: Seq<Reroll>) -> Seq<RerollV> {
    s.map(|i: int, rec: Reroll| rec@)
}

/// Every registry entry with its key, in ascending key order.
pub fn query_rerolls(registry: &Registry) -> (r: Vec<RerollData>)
    ensures
        rerolls_view(r@) =~= registry@,
{
    let n = registry.len();
    let mut out: Vec<RerollData> = Vec::new();
    let mut i: usize = 0;
    while i < n
        invariant
            n == registry@.len(),
            0 <= i <= n,
            rerolls_view(out@) =~= registry@.take(i as int),
        decreases n - i,
    {
        let e = registry.entry_at(i);
        let c = e.clone();
        let ghost prev = out@;
        out.push(c);
        proof {
            assert(out@ == prev.push(c));
            assert(out@.len() == prev.len() + 1);
            assert(prev.len() == rerolls_view(prev).len());
            assert(rerolls_view(prev) == registry@.take(i as int));
            assert(prev.len() == i);
            assert forall|j: int| 0 <= j < out@.len() implies rerolls_view(out@)[j]
                == registry@.take(i as int + 1)[j] by {
                assert(out@[j] == if j < prev.len() { prev[j] } else { c });
                assert(rerolls_view(out@)[j] == out@[j]@);
                if j < i {
                    assert(rerolls_view(prev)[j] == prev[j]@);
                    assert(registry@.take(i as int)[j] == registry@[j]);
                }
                assert(registry@.take(i as int + 1)[j] == registry@[j]);
            }
            assert(rerolls_view(out@) =~= registry@.take(i as int + 1));
        }
        i = i + 1;
    }
    proof {
        assert(registry@.take(n as int) =~= registry@);
    }
    out
}

/// The records whose requester is `address`, in registry key order; an
/// address with no records gets the empty sequence, not an error.
pub fn query_user_rerolls(registry: &Registry, address: &String) -> (r: Vec<Reroll>)
    ensures
        records_view(r@) =~= user_rerolls_spec(registry@, address@),
{
    let n = registry.len();
    let mut out: Vec<Reroll> = Vec::new();
    let mut i: usize = 0;
    proof {
        reveal(Seq::filter);
    }
    while i < n
        invariant
            n == registry@.len(),
            0 <= i <= n,
            records_view(out@) =~= user_rerolls_spec(registry@.take(i as int), address@),
        decreases n - i,
    {
        let e = registry.entry_at(i);
        let ghost prev = out@;
        let picked = e.reroll.sender.eq(address);
        if picked {
            let c = e.reroll.clone();
            out.push(c);
        }
        proof {
            reveal(Seq::filter);
            let m1 = registry@.take(i as int + 1).map_values(|en: RerollDataV| en.reroll);
            assert(m1.drop_last() =~= registry@.take(i as int).map_values(
                |en: RerollDataV| en.reroll,
            ));
            assert(m1.last() == registry@[i as int].reroll);
            if picked {
                assert(out@ == prev.push(e.reroll));
                assert forall|j: int| 0 <= j < out@.len() implies records_view(out@)[j]
                    == user_rerolls_spec(registry@.take(i as int + 1), address@)[j] by {
                    if j < prev.len() {
                        assert(records_view(out@)[j] == records_view(prev)[j]);
                    } else {
                        assert(out@[j] == e.reroll);
                    }
                }
                assert(records_view(out@).len() == user_rerolls_spec(
                    registry@.take(i as int + 1),
                    address@,
                ).len());
                assert(records_view(out@) =~= user_rerolls_spec(
                    registry@.take(i as int + 1),
                    address@,
                ));
            } else {
                assert(records_view(out@) =~= user_rerolls_spec(
                    registry@.take(i as int + 1),
                    address@,
                ));
            }
        }
        i = i + 1;
    }
    proof {
        assert(registry@.take(n as int) =~= registry@);
    }
    out
}

/// Answers a query; queries read the registry and mutate nothing.
pub fn query(registry: &Registry, msg: QueryMsg) -> (r: QueryAnswer)
    ensures
        (match msg {
            QueryMsg::GetRerolls {  } => r matches QueryAnswer::Rerolls(v) && v@.map(
                |i: int, e: RerollData| e@,
            ) =~= registry@,
            QueryMsg::GetUserRerolls { address } => r matches QueryAnswer::UserRerolls(v)
                && v@.map(|i: int, rec: Reroll| rec@) =~= user_rerolls_spec(registry@, address@),
        }),
{
    match msg {
        QueryMsg::GetRerolls {} => QueryAnswer::Rerolls(query_rerolls(registry)),
        QueryMsg::GetUserRerolls { address } => QueryAnswer::UserRerolls(
            query_user_rerolls(registry, &address),
        ),
    }
}

/// Runs one command against the state, dispatching on the message as the
/// host delivers it.
pub fn execute(state: &mut State, env: MessageEnv, msg: ExecuteMsg) -> (r: Result<
    Response,
    ContractError,
>)
    requires
        old(state).wf(),
    ensures
        final(state).wf(),
        (match msg {
            ExecuteMsg::UpdateConfig { admin, enabled, roll_fees, denom } => {
                &&& final(state).rerolls@ == old(state).rerolls@
                &&& match r {
                    Ok(resp) => update_config_spec(
                        old(state).config@,
                        env.sender@,
                        opt_view(admin),
                        enabled,
                        roll_fees,
                        opt_view(denom),
                    ) == Ok::<ConfigV, ErrorV>(final(state).config@) && resp@ == empty_response_v(),
                    Err(e) => update_config_spec(
                        old(state).config@,
                        env.sender@,
                        opt_view(admin),
                        enabled,
                        roll_fees,
                        opt_view(denom),
                    ) == Err::<ConfigV, ErrorV>(e@) && final(state).config == old(state).config,
                }
            },
            ExecuteMsg::CreateReroll { nft_id, owner } => {
                &&& final(state).config == old(state).config
                &&& match r {
                    Ok(resp) => create_roll_spec(
                        old(state).config@,
                        old(state).rerolls@,
                        env.sender@,
                        coins_view(env.funds@),
                        env.timestamp,
                        res_view(owner),
                        nft_id@,
                    ) == Ok::<(Seq<RerollDataV>, ResponseV), ErrorV>(
                        (final(state).rerolls@, resp@),
                    ),
                    Err(e) => create_roll_spec(
                        old(state).config@,
                        old(state).rerolls@,
                        env.sender@,
                        coins_view(env.funds@),
                        env.timestamp,
                        res_view(owner),
                        nft_id@,
                    ) == Err::<(Seq<RerollDataV>, ResponseV), ErrorV>(e@) && final(state).rerolls@
                        == old(state).rerolls@,
                }
            },
            ExecuteMsg::ReceiveNft(wrapper) => {
                &&& final(state).config == old(state).config
                &&& match r {
                    Ok(resp) => receive_nft_spec(
                        old(state).config@,
                        old(state).rerolls@,
                        env.sender@,
                        wrapper.token_id@,
                        crate::msg::submsg_view(wrapper.msg),
                    ) == Ok::<(Seq<RerollDataV>, ResponseV), ErrorV>(
                        (final(state).rerolls@, resp@),
                    ),
                    Err(e) => receive_nft_spec(
                        old(state).config@,
                        old(state).rerolls@,
                        env.sender@,
                        wrapper.token_id@,
                        crate::msg::submsg_view(wrapper.msg),
                    ) == Err::<(Seq<RerollDataV>, ResponseV), ErrorV>(e@) && final(state).rerolls@
                        == old(state).rerolls@,
                }
            },
            ExecuteMsg::Withdraw { denom, is_cw20, amount, address } => {
                &&& final(state).config == old(state).config
                &&& final(state).rerolls@ == old(state).rerolls@
                &&& match r {
                    Ok(resp) => withdraw_spec(
                        old(state).config@,
                        env.sender@,
                        denom@,
                        is_cw20,
                        amount,
                        address@,
                    ) == Ok::<ResponseV, ErrorV>(resp@),
                    Err(e) => withdraw_spec(
                        old(state).config@,
                        env.sender@,
                        denom@,
                        is_cw20,
                        amount,
                        address@,
                    ) == Err::<ResponseV, ErrorV>(e@),
                }
            },
        }),
{
    match msg {
        ExecuteMsg::UpdateConfig { admin, enabled, roll_fees, denom } => update_config(
            &mut state.config,
            &env.sender,
            admin,
            enabled,
            roll_fees,
            denom,
        ),
        ExecuteMsg::CreateReroll { nft_id, owner } => create_roll(
            &state.config,
            &mut state.rerolls,
            &env.sender,
            &env.funds,
            env.timestamp,
            &owner,
            nft_id,
        ),
        ExecuteMsg::ReceiveNft(wrapper) => execute_receive_nft(
            &state.config,
            &mut state.rerolls,
            &env.sender,
            wrapper,
        ),
        ExecuteMsg::Withdraw { denom, is_cw20, amount, address } => withdraw(
            &state.config,
            &env.sender,
            denom,
            is_cw20,
            amount,
            address,
        ),
    }
}

/// A reroll is granted at most once per token: a successful request
/// writes the token's record, and against a registry that holds that
/// record every later request for the same token is refused — as the
/// duplicate-state refusal when rerolling is enabled and the caller is
/// the verified owner, and as some refusal in every other case.
pub proof fn lemma_create_reroll_at_most_once(
    cfg1: ConfigV,
    reg: Seq<RerollDataV>,
    sender1: Seq<char>,
    funds1: Seq<CoinV>,
    ts1: u64,
    owner1: Result<Seq<char>, Seq<char>>,
    nft_id: Seq<char>,
    reg2: Seq<RerollDataV>,
    resp: ResponseV,
    cfg2: ConfigV,
    sender2: Seq<char>,
    funds2: Seq<CoinV>,
    ts2: u64,
    owner2: Result<Seq<char>, Seq<char>>,
)
    requires
        create_roll_spec(cfg1, reg, sender1, funds1, ts1, owner1, nft_id) == Ok::<
            (Seq<RerollDataV>, ResponseV),
            ErrorV,
        >((reg2, resp)),
    ensures
        create_roll_spec(cfg2, reg2, sender2, funds2, ts2, owner2, nft_id) is Err,
        (cfg2.enabled && owner2 == Ok::<Seq<char>, Seq<char>>(sender2)) ==> create_roll_spec(
            cfg2,
            reg2,
            sender2,
            funds2,
            ts2,
            owner2,
            nft_id,
        ) == Err::<(Seq<RerollDataV>, ResponseV), ErrorV>(ErrorV::AlreadyRequested),
{
    let rv = RerollV { sender: sender1, nft_id, rerolled: false, timestamp: ts1 };
    lemma_reg_insert_contains(reg, nft_id, rv);
    assert(reg_contains(reg2, nft_id));
}

/// A confirmation changes no keys: every requested token stays
/// requested, the confirmed record is marked rerolled, and every other
/// record is untouched — so confirmation can never undo or add requests.
pub proof fn lemma_confirm_preserves_requests(
    cfg: ConfigV,
    reg: Seq<RerollDataV>,
    caller: Seq<char>,
    token_id: Seq<char>,
    submsg: Result<NftReceiveMsg, Seq<char>>,
    reg2: Seq<RerollDataV>,
    resp: ResponseV,
)
    requires
        crate::state::reg_sorted(reg),
        receive_nft_spec(cfg, reg, caller, token_id, submsg) == Ok::<
            (Seq<RerollDataV>, ResponseV),
            ErrorV,
        >((reg2, resp)),
    ensures
        forall|k: Seq<char>| reg_contains(reg2, k) <==> reg_contains(reg, k),
        reg_get(reg2, token_id).rerolled,
        forall|k: Seq<char>|
            reg_contains(reg, k) && k != token_id ==> reg_get(reg2, k) == reg_get(reg, k),
{
    let rec = reg_get(reg, token_id);
    let rv = RerollV {
        sender: rec.sender,
        nft_id: rec.nft_id,
        rerolled: true,
        timestamp: rec.timestamp,
    };
    lemma_reg_update_props(reg, token_id, rv);
}

} // verus!
