//! The escrow as a state machine over plain values: what each operation
//! makes of a record, and what it tells the host to do.
//!
//! A record is in one of three conditions: nothing committed, one bundle
//! committed, both committed. Committing and taking back move one party's
//! flag; the exchange needs both flags and clears both.

use vstd::multiset::Multiset;
use vstd::prelude::*;
use crate::error::ContractError;
use crate::msg::{ExecuteMsg, InstantiateMsgView, QueryMsg, ResponseView};
use crate::state::{ConfigView, PartyView};

verus! {

/// Whether `who` is one of the record's two parties.
pub open spec fn is_party(record: ConfigView, who: Seq<char>) -> bool {
    who == record.party_a.address || who == record.party_b.address
}

/// The party as which `sender` acts: party A where the sender is party A,
/// otherwise party B.
pub open spec fn acting_party(record: ConfigView, sender: Seq<char>) -> PartyView {
    if sender == record.party_a.address {
        record.party_a
    } else {
        record.party_b
    }
}

/// The party as which `sender` does not act.
pub open spec fn other_party(record: ConfigView, sender: Seq<char>) -> PartyView {
    if sender == record.party_a.address {
        record.party_b
    } else {
        record.party_a
    }
}

/// The party commits the attached coins. They must be its agreed bundle, in
/// any order, and the bundle must not be committed already.
pub open spec fn commit(party: PartyView, attached: Seq<(Seq<char>, nat)>) -> Result<
    PartyView,
    ContractError,
> {
    if attached.to_multiset() != party.funds.to_multiset() {
        Err(ContractError::FundsNotEqualToConfig)
    } else if party.deposited {
        Err(ContractError::FundsAlreadyDeposited)
    } else {
        Ok(PartyView { deposited: true, ..party })
    }
}

/// The party takes its committed bundle back.
pub open spec fn reclaim(party: PartyView) -> Result<PartyView, ContractError> {
    if party.deposited {
        Ok(PartyView { deposited: false, ..party })
    } else {
        Err(ContractError::FundsHaventBeenDeposited)
    }
}

/// What the host is told after a new record was made.
pub open spec fn instantiate_response(msg: InstantiateMsgView) -> ResponseView {
    ResponseView {
        messages: seq![],
        attributes: seq![
            ("action"@, "instantiate"@),
            ("party_a"@, msg.party_a),
            ("party_b"@, msg.party_b),
        ],
    }
}

/// What the host is told after `sender` committed: nothing is moved.
pub open spec fn deposit_response(sender: Seq<char>) -> ResponseView {
    ResponseView {
        messages: seq![],
        attributes: seq![("action"@, "deposit"@), ("deposited_by"@, sender)],
    }
}

/// What the host is told after `party` took its bundle back: one transfer,
/// of that bundle to that party.
pub open spec fn withdraw_response(party: PartyView) -> ResponseView {
    ResponseView {
        messages: seq![(party.address, party.funds)],
        attributes: seq![("action"@, "withdraw"@), ("withdrawn by"@, party.address)],
    }
}

/// What the host is told after an exchange: party B's bundle goes to party A
/// and party A's bundle to party B.
pub open spec fn exchange_response(record: ConfigView) -> ResponseView {
    ResponseView {
        messages: seq![
            (record.party_a.address, record.party_b.funds),
            (record.party_b.address, record.party_a.funds),
        ],
        attributes: seq![("action"@, "exchange"@)],
    }
}

/// A new record from the terms in `msg`. `party_a` and `party_b` are what the
/// host made of the two identities in `msg`: the validated identity, or
/// `None` where it did not accept one.
pub open spec fn instantiate(
    msg: InstantiateMsgView,
    party_a: Option<Seq<char>>,
    party_b: Option<Seq<char>>,
) -> Result<(ConfigView, ResponseView), ContractError> {
    match (party_a, party_b) {
        (Some(a), Some(b)) => Ok(
            (
                ConfigView {
                    party_a: PartyView { address: a, funds: msg.party_a_funds, deposited: false },
                    party_b: PartyView { address: b, funds: msg.party_b_funds, deposited: false },
                },
                instantiate_response(msg),
            ),
        ),
        _ => Err(ContractError::InvalidAddress),
    }
}

/// `sender` commits the attached coins. A sender that is both parties acts
/// as party A.
pub open spec fn deposit(
    record: ConfigView,
    sender: Seq<char>,
    attached: Seq<(Seq<char>, nat)>,
) -> Result<(ConfigView, ResponseView), ContractError> {
    if sender == record.party_a.address {
        match commit(record.party_a, attached) {
            Ok(party) => Ok((ConfigView { party_a: party, ..record }, deposit_response(sender))),
            Err(e) => Err(e),
        }
    } else if sender == record.party_b.address {
        match commit(record.party_b, attached) {
            Ok(party) => Ok((ConfigView { party_b: party, ..record }, deposit_response(sender))),
            Err(e) => Err(e),
        }
    } else {
        Err(ContractError::Unauthorized)
    }
}

/// `sender` takes its committed bundle back. A sender that is both parties
/// acts as party A.
pub open spec fn withdraw(record: ConfigView, sender: Seq<char>) -> Result<
    (ConfigView, ResponseView),
    ContractError,
> {
    if sender == record.party_a.address {
        match reclaim(record.party_a) {
            Ok(party) => Ok(
                (ConfigView { party_a: party, ..record }, withdraw_response(record.party_a)),
            ),
            Err(e) => Err(e),
        }
    } else if sender == record.party_b.address {
        match reclaim(record.party_b) {
            Ok(party) => Ok(
                (ConfigView { party_b: party, ..record }, withdraw_response(record.party_b)),
            ),
            Err(e) => Err(e),
        }
    } else {
        Err(ContractError::Unauthorized)
    }
}

/// The two committed bundles are swapped and both flags cleared.
pub open spec fn exchange(record: ConfigView) -> Result<(ConfigView, ResponseView), ContractError> {
    if record.party_a.deposited && record.party_b.deposited {
        Ok(
            (
                ConfigView {
                    party_a: PartyView { deposited: false, ..record.party_a },
                    party_b: PartyView { deposited: false, ..record.party_b },
                },
                exchange_response(record),
            ),
        )
    } else {
        Err(ContractError::FundsHaventBeenDeposited)
    }
}

/// The answer to a query: the record as it stands. Anyone may ask.
pub open spec fn query(record: ConfigView, msg: QueryMsg) -> ConfigView {
    match msg {
        QueryMsg::Config {  } => record,
    }
}

/// The coins that the escrow holds for a party: its bundle while it is
/// committed, nothing otherwise.
pub open spec fn held_for(party: PartyView) -> Multiset<(Seq<char>, nat)> {
    if party.deposited {
        party.funds.to_multiset()
    } else {
        Multiset::empty()
    }
}

/// The coins in the escrow's custody.
pub open spec fn held(record: ConfigView) -> Multiset<(Seq<char>, nat)> {
    held_for(record.party_a).add(held_for(record.party_b))
}

/// The coins that a call brings into custody: what is attached to a commit.
pub open spec fn brought(attached: Seq<(Seq<char>, nat)>, msg: ExecuteMsg) -> Multiset<
    (Seq<char>, nat),
> {
    if msg is Deposit {
        attached.to_multiset()
    } else {
        Multiset::empty()
    }
}

/// The coins that a list of transfers moves out of custody.
pub open spec fn sent(messages: Seq<(Seq<char>, Seq<(Seq<char>, nat)>)>) -> Multiset<
    (Seq<char>, nat),
>
    decreases messages.len(),
{
    if messages.len() == 0 {
        Multiset::empty()
    } else {
        sent(messages.drop_last()).add(messages.last().1.to_multiset())
    }
}

/// One call: only a party may call, and then the operation decides.
pub open spec fn execute(
    record: ConfigView,
    sender: Seq<char>,
    attached: Seq<(Seq<char>, nat)>,
    msg: ExecuteMsg,
) -> Result<(ConfigView, ResponseView), ContractError> {
    if !is_party(record, sender) {
        Err(ContractError::Unauthorized)
    } else {
        match msg {
            ExecuteMsg::Deposit {  } => deposit(record, sender, attached),
            ExecuteMsg::Exchange {  } => exchange(record),
            ExecuteMsg::Withdraw {  } => withdraw(record, sender),
        }
    }
}

} // verus!
