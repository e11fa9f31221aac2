//! The escrow record: two parties, the bundle each has agreed to commit, and
//! whether it has done so.

use vstd::prelude::*;

verus! {

/// An amount of one denomination.
#[derive(Clone, Debug, PartialEq, Eq)]
pub struct Coin {
    pub denom: String,
    pub amount: u128,
}

impl View for Coin {
    type V = (Seq<char>, nat);

    open spec fn view(&self) -> (Seq<char>, nat) {
        (self.denom@, self.amount as nat)
    }
}

impl Coin {
    pub fn new(amount: u128, denom: &str) -> (coin: Coin)
        ensures
            coin@ == (denom@, amount as nat),
    {
        Coin { denom: denom.to_owned(), amount }
    }

    /// Whether two coins are of the same denomination and amount.
    pub fn same_as(&self, other: &Coin) -> (same: bool)
        ensures
            same == (self@ == other@),
    {
        self.denom == other.denom && self.amount == other.amount
    }

    /// A coin of the same denomination and amount.
    pub fn duplicate(&self) -> (coin: Coin)
        ensures
            coin@ == self@,
    {
        Coin { denom: self.denom.clone(), amount: self.amount }
    }
}

/// The coins of a list, in order, each as a pair of denomination and amount.
pub open spec fn coins_view(coins: Seq<Coin>) -> Seq<(Seq<char>, nat)> {
    coins.map_values(|c: Coin| c@)
}

/// A list holding the same coins in the same order.
pub fn duplicate_coins(coins: &Vec<Coin>) -> (copy: Vec<Coin>)
    ensures
        coins_view(copy@) == coins_view(coins@),
{
    let mut copy: Vec<Coin> = Vec::new();
    let mut i: usize = 0;
    while i < coins.len()
        invariant
            i <= coins.len(),
            copy@.len() == i,
            forall|k: int| 0 <= k < i ==> (#[trigger] copy@[k])@ == coins@[k]@,
        decreases coins.len() - i,
    {
        copy.push(coins[i].duplicate());
        i += 1;
    }
    assert(coins_view(copy@) =~= coins_view(coins@));
    copy
}

/// What the record holds of one party.
pub struct PartyView {
    pub address: Seq<char>,
    pub funds: Seq<(Seq<char>, nat)>,
    pub deposited: bool,
}

/// One party of the escrow.
#[derive(Clone, Debug, PartialEq, Eq)]
pub struct Party {
    /// The party's identity.
    pub address: String,
    /// The bundle the party has agreed to commit.
    pub funds: Vec<Coin>,
    /// Whether the bundle is currently committed.
    pub deposited: bool,
}

impl View for Party {
    type V = PartyView;

    open spec fn view(&self) -> PartyView {
        PartyView {
            address: self.address@,
            funds: coins_view(self.funds@),
            deposited: self.deposited,
        }
    }
}

impl Party {
    /// A party with the same identity, bundle and flag.
    pub fn duplicate(&self) -> (copy: Party)
        ensures
            copy@ == self@,
    {
        Party {
            address: self.address.clone(),
            funds: duplicate_coins(&self.funds),
            deposited: self.deposited,
        }
    }
}

/// What the record holds.
pub struct ConfigView {
    pub party_a: PartyView,
    pub party_b: PartyView,
}

impl ConfigView {
    /// The two parties are different identities.
    pub open spec fn parties_distinct(self) -> bool {
        self.party_a.address != self.party_b.address
    }

    /// The same parties and bundles as `other`; the flags may differ.
    pub open spec fn same_terms(self, other: ConfigView) -> bool {
        &&& self.party_a.address == other.party_a.address
        &&& self.party_a.funds == other.party_a.funds
        &&& self.party_b.address == other.party_b.address
        &&& self.party_b.funds == other.party_b.funds
    }
}

/// The escrow record.
#[derive(Clone, Debug, PartialEq, Eq)]
pub struct Config {
    pub party_a: Party,
    pub party_b: Party,
}

impl View for Config {
    type V = ConfigView;

    open spec fn view(&self) -> ConfigView {
        ConfigView { party_a: self.party_a@, party_b: self.party_b@ }
    }
}

impl Config {
    /// A record with the same parties, bundles and flags.
    pub fn duplicate(&self) -> (copy: Config)
        ensures
            copy@ == self@,
    {
        Config { party_a: self.party_a.duplicate(), party_b: self.party_b.duplicate() }
    }
}

} // verus!
