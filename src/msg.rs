use vstd::prelude::*;

verus! {

/// Where released funds go.
#[derive(Clone, Debug, PartialEq, Eq)]
pub enum Receiver {
    /// Across a cross-chain channel to an external address; `claimer` is the
    /// local identity allowed to trigger claims.
    Ibc { address: String, channel_id: String, claimer: String },
    /// Directly on the local ledger; the address is also the claimer.
    Native { address: String },
}

impl Receiver {
    /// The canonical receiver identity: the address field of either variant.
    pub open spec fn address_view(&self) -> Seq<char> {
        match self {
            Receiver::Ibc { address, .. } => address@,
            Receiver::Native { address } => address@,
        }
    }
}

/// A named, fixed vesting duration.
#[derive(Clone, Copy, Debug, PartialEq, Eq, Structural)]
pub enum VestingStrategy {
    Hour,
    Day,
    Week,
    Month,
}

impl VestingStrategy {
    pub open spec fn seconds(self) -> u64 {
        match self {
            VestingStrategy::Hour => 3600,
            VestingStrategy::Day => 86400,
            VestingStrategy::Week => 604800,
            VestingStrategy::Month => 2592000,
        }
    }

    /// Length of the vesting window in seconds.
    pub fn to_seconds(&self) -> (r: u64)
        ensures
            r == self.seconds(),
            r > 0,
    {
        match self {
            VestingStrategy::Hour => 3600,
            VestingStrategy::Day => 86400,
            VestingStrategy::Week => 604800,
            VestingStrategy::Month => 2592000,
        }
    }
}

/// An amount of one denomination.
#[derive(Clone, Debug, PartialEq, Eq)]
pub struct Coin {
    pub denom: String,
    pub amount: u128,
}

/// Creation parameters of a vesting instance; the funds come beside it.
#[derive(Clone, Debug, PartialEq, Eq)]
pub struct InstantiateMsg {
    pub receiver: Receiver,
    pub strategy: VestingStrategy,
}

#[derive(Clone, Debug, PartialEq, Eq)]
pub enum ExecuteMsg {
    Claim {},
}

#[derive(Clone, Debug, PartialEq, Eq)]
pub enum QueryMsg {
    GetClaimable {},
}

} // verus!
