//! What holds of the escrow whatever the record, the caller and the coins.
//!
//! The laws are stated over the state machine of [`crate::model`], which the
//! operations of [`crate::contract`] follow exactly.

use vstd::prelude::*;
use crate::error::ContractError;
use crate::model::{
    acting_party, brought, commit, deposit, exchange, exchange_response, execute, held,
    instantiate, is_party, other_party, query, sent, withdraw,
};
use crate::msg::{ExecuteMsg, InstantiateMsgView, QueryMsg, ResponseView};
use crate::state::ConfigView;

verus! {

/// A record is made exactly where the host accepted both identities. The new
/// record holds those identities and the bundles of the terms, and neither
/// bundle is committed, which is also what a query of it answers. The parties
/// are distinct where the identities are.
pub proof fn lemma_new_record_uncommitted(
    msg: InstantiateMsgView,
    party_a: Option<Seq<char>>,
    party_b: Option<Seq<char>>,
    ask: QueryMsg,
)
    ensures
        instantiate(msg, party_a, party_b) is Ok <==> party_a is Some && party_b is Some,
        instantiate(msg, party_a, party_b) is Err ==> instantiate(msg, party_a, party_b) == Err::<
            (ConfigView, ResponseView),
            ContractError,
        >(ContractError::InvalidAddress),
        instantiate(msg, party_a, party_b) matches Ok((record, response)) ==> {
            &&& query(record, ask) == record
            &&& !query(record, ask).party_a.deposited
            &&& !query(record, ask).party_b.deposited
            &&& record.party_a.address == party_a->Some_0
            &&& record.party_b.address == party_b->Some_0
            &&& record.party_a.funds == msg.party_a_funds
            &&& record.party_b.funds == msg.party_b_funds
            &&& (record.parties_distinct() <==> party_a != party_b)
            &&& response.messages.len() == 0
        },
{
}

/// A caller that is neither party is refused as unauthorized, whatever it
/// asks for and whatever it attaches.
pub proof fn lemma_stranger_is_refused(
    record: ConfigView,
    sender: Seq<char>,
    attached: Seq<(Seq<char>, nat)>,
    msg: ExecuteMsg,
)
    requires
        !is_party(record, sender),
    ensures
        execute(record, sender, attached, msg) == Err::<(ConfigView, ResponseView), ContractError>(
            ContractError::Unauthorized,
        ),
        deposit(record, sender, attached) == Err::<(ConfigView, ResponseView), ContractError>(
            ContractError::Unauthorized,
        ),
        withdraw(record, sender) == Err::<(ConfigView, ResponseView), ContractError>(
            ContractError::Unauthorized,
        ),
{
}

/// A party that attaches anything but its agreed bundle is refused with
/// `FundsNotEqualToConfig`, whether or not it has committed before. A party
/// that attaches its bundle, in any order, is never refused for that reason,
/// and commits where it has not committed yet: its flag is set, the other
/// party is untouched and nothing is transferred.
pub proof fn lemma_commit_needs_exact_bundle(
    record: ConfigView,
    sender: Seq<char>,
    attached: Seq<(Seq<char>, nat)>,
)
    requires
        is_party(record, sender),
    ensures
        attached.to_multiset() != acting_party(record, sender).funds.to_multiset() ==> execute(
            record,
            sender,
            attached,
            ExecuteMsg::Deposit {  },
        ) == Err::<(ConfigView, ResponseView), ContractError>(ContractError::FundsNotEqualToConfig),
        attached.to_multiset() == acting_party(record, sender).funds.to_multiset() ==> execute(
            record,
            sender,
            attached,
            ExecuteMsg::Deposit {  },
        ) != Err::<(ConfigView, ResponseView), ContractError>(ContractError::FundsNotEqualToConfig),
        attached.to_multiset() == acting_party(record, sender).funds.to_multiset() && !acting_party(
            record,
            sender,
        ).deposited ==> (execute(record, sender, attached, ExecuteMsg::Deposit {  }) matches Ok(
            (next, response),
        ) && {
            &&& next.same_terms(record)
            &&& acting_party(next, sender).deposited
            &&& other_party(next, sender) == other_party(record, sender)
            &&& response.messages.len() == 0
        }),
{
}

/// The order of the attached coins does not matter: two lists that hold the
/// same coins, each as often, are treated alike.
pub proof fn lemma_commit_ignores_order(
    record: ConfigView,
    sender: Seq<char>,
    attached: Seq<(Seq<char>, nat)>,
    reordered: Seq<(Seq<char>, nat)>,
)
    requires
        attached.to_multiset() == reordered.to_multiset(),
    ensures
        execute(record, sender, attached, ExecuteMsg::Deposit {  }) == execute(
            record,
            sender,
            reordered,
            ExecuteMsg::Deposit {  },
        ),
        commit(acting_party(record, sender), attached) == commit(
            acting_party(record, sender),
            reordered,
        ),
{
}

/// A bundle cut in two and attached with the halves the other way round is
/// still the agreed bundle: the party commits.
pub proof fn lemma_commit_accepts_rotation(
    record: ConfigView,
    sender: Seq<char>,
    front: Seq<(Seq<char>, nat)>,
    back: Seq<(Seq<char>, nat)>,
)
    requires
        is_party(record, sender),
        !acting_party(record, sender).deposited,
        acting_party(record, sender).funds == front + back,
    ensures
        execute(record, sender, back + front, ExecuteMsg::Deposit {  }) is Ok,
{
    vstd::seq_lib::lemma_seq_union_to_multiset_commutative(front, back);
}

/// After a party has committed, a second commit by it is refused: with
/// `FundsAlreadyDeposited` where it attaches its bundle again, and with
/// `FundsNotEqualToConfig` where it attaches anything else.
pub proof fn lemma_no_second_commit(
    record: ConfigView,
    sender: Seq<char>,
    first: Seq<(Seq<char>, nat)>,
    second: Seq<(Seq<char>, nat)>,
)
    requires
        execute(record, sender, first, ExecuteMsg::Deposit {  }) is Ok,
    ensures
        ({
            let next = execute(record, sender, first, ExecuteMsg::Deposit {  })->Ok_0.0;
            let again = execute(next, sender, second, ExecuteMsg::Deposit {  });
            if second.to_multiset() == first.to_multiset() {
                again == Err::<(ConfigView, ResponseView), ContractError>(
                    ContractError::FundsAlreadyDeposited,
                )
            } else {
                again == Err::<(ConfigView, ResponseView), ContractError>(
                    ContractError::FundsNotEqualToConfig,
                )
            }
        }),
{
}

/// A party that has nothing committed cannot take anything back. A party
/// that has committed can, whatever the other party has done: its own flag
/// is cleared, the other party is untouched, and exactly one transfer is
/// ordered, of its own bundle to itself.
pub proof fn lemma_reclaim_returns_own_bundle(
    record: ConfigView,
    sender: Seq<char>,
    attached: Seq<(Seq<char>, nat)>,
)
    requires
        is_party(record, sender),
    ensures
        !acting_party(record, sender).deposited ==> execute(
            record,
            sender,
            attached,
            ExecuteMsg::Withdraw {  },
        ) == Err::<(ConfigView, ResponseView), ContractError>(
            ContractError::FundsHaventBeenDeposited,
        ),
        acting_party(record, sender).deposited ==> (execute(
            record,
            sender,
            attached,
            ExecuteMsg::Withdraw {  },
        ) matches Ok((next, response)) && {
            &&& next.same_terms(record)
            &&& !acting_party(next, sender).deposited
            &&& other_party(next, sender) == other_party(record, sender)
            &&& response.messages == seq![(sender, acting_party(record, sender).funds)]
        }),
{
}

/// The exchange is refused unless both bundles are committed. Where both
/// are, both flags are cleared and exactly two transfers are ordered: party
/// B's bundle to party A and party A's bundle to party B.
pub proof fn lemma_exchange_swaps_bundles(
    record: ConfigView,
    sender: Seq<char>,
    attached: Seq<(Seq<char>, nat)>,
)
    requires
        is_party(record, sender),
    ensures
        !(record.party_a.deposited && record.party_b.deposited) ==> execute(
            record,
            sender,
            attached,
            ExecuteMsg::Exchange {  },
        ) == Err::<(ConfigView, ResponseView), ContractError>(
            ContractError::FundsHaventBeenDeposited,
        ),
        record.party_a.deposited && record.party_b.deposited ==> (execute(
            record,
            sender,
            attached,
            ExecuteMsg::Exchange {  },
        ) matches Ok((next, response)) && {
            &&& next.same_terms(record)
            &&& !next.party_a.deposited
            &&& !next.party_b.deposited
            &&& response.messages == seq![
                (record.party_a.address, record.party_b.funds),
                (record.party_b.address, record.party_a.funds),
            ]
        }),
{
}

/// No operation changes who the parties are or what they agreed to commit,
/// and a refused operation changes nothing at all.
pub proof fn lemma_terms_never_change(
    record: ConfigView,
    sender: Seq<char>,
    attached: Seq<(Seq<char>, nat)>,
    msg: ExecuteMsg,
)
    ensures
        execute(record, sender, attached, msg) matches Ok((next, _)) ==> next.same_terms(record)
            && (next.parties_distinct() <==> record.parties_distinct()),
{
}

/// A call is refused for one of four reasons only: the caller is no party,
/// the attached coins are not the agreed bundle, the bundle is already
/// committed, or a bundle that the operation needs is not committed.
pub proof fn lemma_refusals_are_named(
    record: ConfigView,
    sender: Seq<char>,
    attached: Seq<(Seq<char>, nat)>,
    msg: ExecuteMsg,
)
    ensures
        execute(record, sender, attached, msg) matches Err(e) ==> {
            ||| e == ContractError::Unauthorized
            ||| e == ContractError::FundsNotEqualToConfig
            ||| e == ContractError::FundsAlreadyDeposited
            ||| e == ContractError::FundsHaventBeenDeposited
        },
{
}

/// A flag is set only by a commit of that party, and cleared only by that
/// party taking its bundle back or by an exchange.
pub proof fn lemma_flags_move_as_allowed(
    record: ConfigView,
    sender: Seq<char>,
    attached: Seq<(Seq<char>, nat)>,
    msg: ExecuteMsg,
)
    ensures
        execute(record, sender, attached, msg) matches Ok((next, _)) ==> {
            &&& (!record.party_a.deposited && next.party_a.deposited ==> msg is Deposit && sender
                == record.party_a.address)
            &&& (!record.party_b.deposited && next.party_b.deposited ==> msg is Deposit && sender
                == record.party_b.address)
            &&& (record.party_a.deposited && !next.party_a.deposited ==> msg is Exchange || (msg
                is Withdraw && sender == record.party_a.address))
            &&& (record.party_b.deposited && !next.party_b.deposited ==> msg is Exchange || (msg
                is Withdraw && sender == record.party_b.address))
        },
{
}

/// No coin is made or lost: what the escrow holds after a call, together
/// with what the call orders to be sent out, is what it held before together
/// with what the call brought in.
pub proof fn lemma_custody_is_conserved(
    record: ConfigView,
    sender: Seq<char>,
    attached: Seq<(Seq<char>, nat)>,
    msg: ExecuteMsg,
)
    ensures
        execute(record, sender, attached, msg) matches Ok((next, response)) ==> held(next).add(
            sent(response.messages),
        ) == held(record).add(brought(attached, msg)),
{
    if let Ok((next, response)) = execute(record, sender, attached, msg) {
        let messages = response.messages;
        reveal_with_fuel(sent, 3);
        if messages.len() == 1 {
            assert(messages.drop_last().len() == 0);
        } else if messages.len() == 2 {
            assert(messages.drop_last().len() == 1);
            assert(messages.drop_last().drop_last().len() == 0);
            assert(messages.drop_last().last() == messages[0]);
        }
        assert(held(next).add(sent(messages)) =~= held(record).add(brought(attached, msg)));
    }
}

/// One round of the escrow: party A commits, party B commits, and `caller`
/// asks for the exchange.
pub open spec fn round(
    record: ConfigView,
    attached_a: Seq<(Seq<char>, nat)>,
    attached_b: Seq<(Seq<char>, nat)>,
    caller: Seq<char>,
) -> Result<(ConfigView, ResponseView), ContractError> {
    match execute(record, record.party_a.address, attached_a, ExecuteMsg::Deposit {  }) {
        Ok((after_a, _)) => match execute(
            after_a,
            record.party_b.address,
            attached_b,
            ExecuteMsg::Deposit {  },
        ) {
            Ok((after_b, _)) => execute(after_b, caller, Seq::empty(), ExecuteMsg::Exchange {  }),
            Err(e) => Err(e),
        },
        Err(e) => Err(e),
    }
}

/// The record after `n` rounds, or `None` where one of them was refused.
pub open spec fn after_rounds(
    record: ConfigView,
    attached_a: Seq<(Seq<char>, nat)>,
    attached_b: Seq<(Seq<char>, nat)>,
    caller: Seq<char>,
    n: nat,
) -> Option<ConfigView>
    decreases n,
{
    if n == 0 {
        Some(record)
    } else {
        match after_rounds(record, attached_a, attached_b, caller, (n - 1) as nat) {
            Some(before) => match round(before, attached_a, attached_b, caller) {
                Ok((next, _)) => Some(next),
                Err(_) => None,
            },
            None => None,
        }
    }
}

/// A record with nothing committed, as a new record is and as every exchange
/// leaves it, goes through a whole round: both parties commit their bundles,
/// the exchange succeeds and orders the swap, and the record is again what
/// it was before the round.
pub proof fn lemma_round_restores_record(
    record: ConfigView,
    attached_a: Seq<(Seq<char>, nat)>,
    attached_b: Seq<(Seq<char>, nat)>,
    caller: Seq<char>,
)
    requires
        record.parties_distinct(),
        !record.party_a.deposited,
        !record.party_b.deposited,
        attached_a.to_multiset() == record.party_a.funds.to_multiset(),
        attached_b.to_multiset() == record.party_b.funds.to_multiset(),
        is_party(record, caller),
    ensures
        round(record, attached_a, attached_b, caller) == Ok::<
            (ConfigView, ResponseView),
            ContractError,
        >((record, exchange_response(record))),
{
    let a = record.party_a.address;
    let b = record.party_b.address;
    let after_a = execute(record, a, attached_a, ExecuteMsg::Deposit {  })->Ok_0.0;
    let after_b = execute(after_a, b, attached_b, ExecuteMsg::Deposit {  })->Ok_0.0;
    assert(after_b.party_a.deposited && after_b.party_b.deposited);
    assert(exchange(after_b)->Ok_0.0 == record);
}

/// The escrow can be used again and again: after any number of rounds the
/// record is what it was at the start, so every round meets the same record
/// and behaves as the first.
pub proof fn lemma_rounds_repeat(
    record: ConfigView,
    attached_a: Seq<(Seq<char>, nat)>,
    attached_b: Seq<(Seq<char>, nat)>,
    caller: Seq<char>,
    n: nat,
)
    requires
        record.parties_distinct(),
        !record.party_a.deposited,
        !record.party_b.deposited,
        attached_a.to_multiset() == record.party_a.funds.to_multiset(),
        attached_b.to_multiset() == record.party_b.funds.to_multiset(),
        is_party(record, caller),
    ensures
        after_rounds(record, attached_a, attached_b, caller, n) == Some(record),
    decreases n,
{
    if n > 0 {
        lemma_rounds_repeat(record, attached_a, attached_b, caller, (n - 1) as nat);
        lemma_round_restores_record(record, attached_a, attached_b, caller);
    }
}

} // verus!
