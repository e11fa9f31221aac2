//! The operations on a record. Each does what the state machine of
//! [`crate::model`] says, and leaves the record untouched where it refuses.

use vstd::prelude::*;
use crate::bundle::same_bundle;
use crate::error::ContractError;
use crate::model;
use crate::msg::{
    BankMsg, ConfigResponse, ExecuteMsg, InstantiateMsg, MessageInfo, QueryMsg, Response,
    ResponseView,
};
use crate::state::{coins_view, duplicate_coins, Config, Party};

verus! {

/// An identity as the host validated it, as plain characters.
pub open spec fn validated_view(address: Option<String>) -> Option<Seq<char>> {
    match address {
        Some(a) => Some(a@),
        None => None,
    }
}

/// Makes the record of a new escrow from the terms in `msg`. `validated_a`
/// and `validated_b` are the outcome of the host's validation of the two
/// identities in `msg`: the identity to store, or `None` where the host
/// refused it. The record is made where both were accepted; otherwise the
/// error is `InvalidAddress`.
pub fn instantiate(
    msg: InstantiateMsg,
    validated_a: Option<String>,
    validated_b: Option<String>,
) -> (res: Result<(Config, Response), ContractError>)
    ensures
        match model::instantiate(msg@, validated_view(validated_a), validated_view(validated_b)) {
            Ok((record, response)) => res is Ok && res->Ok_0.0@ == record && res->Ok_0.1@
                == response,
            Err(e) => res == Err::<(Config, Response), ContractError>(e),
        },
{
    let address_a = match validated_a {
        Some(a) => a,
        None => return Err(ContractError::InvalidAddress),
    };
    let address_b = match validated_b {
        Some(b) => b,
        None => return Err(ContractError::InvalidAddress),
    };
    let response = Response::new().add_attribute("action", "instantiate").add_attribute(
        "party_a",
        msg.party_a.as_str(),
    ).add_attribute("party_b", msg.party_b.as_str());
    let config = Config {
        party_a: Party { address: address_a, funds: msg.party_a_funds, deposited: false },
        party_b: Party { address: address_b, funds: msg.party_b_funds, deposited: false },
    };
    assert(response@.attributes =~= model::instantiate_response(msg@).attributes);
    assert(response@.messages =~= model::instantiate_response(msg@).messages);
    Ok((config, response))
}

/// Performs one call on the record. Only a party may call; then the
/// operation named by `msg` decides. On success the record is updated and
/// the response holds the transfers for the host to perform; on refusal the
/// record is left as it was.
pub fn execute(config: &mut Config, info: MessageInfo, msg: ExecuteMsg) -> (res: Result<
    Response,
    ContractError,
>)
    ensures
        match model::execute(old(config)@, info.sender@, coins_view(info.funds@), msg) {
            Ok((next, response)) => res is Ok && res->Ok_0@ == response && final(config)@ == next,
            Err(e) => res == Err::<Response, ContractError>(e) && *final(config) == *old(config),
        },
{
    match only_authorized_party(config, &info) {
        Err(e) => return Err(e),
        Ok(_) => {},
    }
    match msg {
        ExecuteMsg::Deposit {  } => execute_deposit(config, info),
        ExecuteMsg::Exchange {  } => execute_exchange(config),
        ExecuteMsg::Withdraw {  } => execute_withdraw(config, info),
    }
}

/// Answers a query: the record as it stands.
pub fn query(config: &Config, msg: QueryMsg) -> (res: ConfigResponse)
    ensures
        res@ == model::query(config@, msg),
{
    match msg {
        QueryMsg::Config {  } => query_config(config),
    }
}

/// The record as it stands: both parties, their bundles and their flags.
pub fn query_config(config: &Config) -> (res: ConfigResponse)
    ensures
        res@ == config@,
{
    config.duplicate()
}

/// The sender commits the coins attached to the call. They must be the
/// sender's agreed bundle, in any order, and the bundle must not be committed
/// yet. Nothing is transferred: the host has taken the coins into custody
/// with the call.
pub fn execute_deposit(config: &mut Config, info: MessageInfo) -> (res: Result<
    Response,
    ContractError,
>)
    ensures
        match model::deposit(old(config)@, info.sender@, coins_view(info.funds@)) {
            Ok((next, response)) => res is Ok && res->Ok_0@ == response && final(config)@ == next,
            Err(e) => res == Err::<Response, ContractError>(e) && *final(config) == *old(config),
        },
{
    if info.sender == config.party_a.address {
        if !same_bundle(&info.funds, &config.party_a.funds) {
            return Err(ContractError::FundsNotEqualToConfig);
        }
        if config.party_a.deposited {
            return Err(ContractError::FundsAlreadyDeposited);
        }
        config.party_a.deposited = true;
    } else if info.sender == config.party_b.address {
        if !same_bundle(&info.funds, &config.party_b.funds) {
            return Err(ContractError::FundsNotEqualToConfig);
        }
        if config.party_b.deposited {
            return Err(ContractError::FundsAlreadyDeposited);
        }
        config.party_b.deposited = true;
    } else {
        return Err(ContractError::Unauthorized);
    }
    let response = Response::new().add_attribute("action", "deposit").add_attribute(
        "deposited_by",
        info.sender.as_str(),
    );
    assert(response@.attributes =~= model::deposit_response(info.sender@).attributes);
    assert(response@.messages =~= model::deposit_response(info.sender@).messages);
    Ok(response)
}

/// The sender takes its committed bundle back, whatever the other party has
/// done: the response orders the transfer of the bundle to the sender.
pub fn execute_withdraw(config: &mut Config, info: MessageInfo) -> (res: Result<
    Response,
    ContractError,
>)
    ensures
        match model::withdraw(old(config)@, info.sender@) {
            Ok((next, response)) => res is Ok && res->Ok_0@ == response && final(config)@ == next,
            Err(e) => res == Err::<Response, ContractError>(e) && *final(config) == *old(config),
        },
{
    let refund = if info.sender == config.party_a.address {
        if !config.party_a.deposited {
            return Err(ContractError::FundsHaventBeenDeposited);
        }
        config.party_a.deposited = false;
        BankMsg::Send {
            to_address: config.party_a.address.clone(),
            amount: duplicate_coins(&config.party_a.funds),
        }
    } else if info.sender == config.party_b.address {
        if !config.party_b.deposited {
            return Err(ContractError::FundsHaventBeenDeposited);
        }
        config.party_b.deposited = false;
        BankMsg::Send {
            to_address: config.party_b.address.clone(),
            amount: duplicate_coins(&config.party_b.funds),
        }
    } else {
        return Err(ContractError::Unauthorized);
    };
    let response = Response::new().add_attribute("action", "withdraw").add_attribute(
        "withdrawn by",
        info.sender.as_str(),
    ).add_message(refund);
    proof {
        let expected = model::withdraw(old(config)@, info.sender@)->Ok_0.1;
        assert(response@.attributes =~= expected.attributes);
        assert(response@.messages =~= expected.messages);
    }
    Ok(response)
}

/// Swaps the two committed bundles: the response orders party B's bundle to
/// party A and party A's bundle to party B, and both flags are cleared. Who
/// calls is not looked at here; [`execute`] lets only parties through.
pub fn execute_exchange(config: &mut Config) -> (res: Result<Response, ContractError>)
    ensures
        match model::exchange(old(config)@) {
            Ok((next, response)) => res is Ok && res->Ok_0@ == response && final(config)@ == next,
            Err(e) => res == Err::<Response, ContractError>(e) && *final(config) == *old(config),
        },
{
    if !config.party_a.deposited {
        return Err(ContractError::FundsHaventBeenDeposited);
    }
    if !config.party_b.deposited {
        return Err(ContractError::FundsHaventBeenDeposited);
    }
    config.party_a.deposited = false;
    config.party_b.deposited = false;
    let to_a = BankMsg::Send {
        to_address: config.party_a.address.clone(),
        amount: duplicate_coins(&config.party_b.funds),
    };
    let to_b = BankMsg::Send {
        to_address: config.party_b.address.clone(),
        amount: duplicate_coins(&config.party_a.funds),
    };
    let response = Response::new().add_attribute("action", "exchange").add_message(
        to_a,
    ).add_message(to_b);
    proof {
        let expected = model::exchange_response(old(config)@);
        assert(response@.attributes =~= expected.attributes);
        assert(response@.messages =~= expected.messages);
    }
    Ok(response)
}

/// Lets the call pass where the sender is one of the two parties.
pub fn only_authorized_party(config: &Config, info: &MessageInfo) -> (res: Result<
    Response,
    ContractError,
>)
    ensures
        model::is_party(config@, info.sender@) ==> res is Ok && res->Ok_0@ == (ResponseView {
            messages: Seq::empty(),
            attributes: Seq::empty(),
        }),
        !model::is_party(config@, info.sender@) ==> res == Err::<Response, ContractError>(
            ContractError::Unauthorized,
        ),
{
    if info.sender != config.party_a.address && info.sender != config.party_b.address {
        return Err(ContractError::Unauthorized);
    }
    Ok(Response::new())
}

} // verus!
