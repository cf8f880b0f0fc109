use crate::error::{ContractError, PaymentError};
use crate::msg::{Coin, ExecuteMsg, InstantiateMsg, QueryMsg, Receiver, VestingStrategy};
use vstd::prelude::*;

verus! {

/// Seconds before a cross-chain transfer times out.
pub const IBC_TIMEOUT_SECONDS: u64 = 3600;

/// State of one vesting instance. Times are in seconds.
#[derive(Clone, Debug, PartialEq, Eq)]
pub struct Config {
    pub denom: String,
    pub receiver: String,
    pub claimer: String,
    /// Start of the current release window; moved to the claim time on each claim.
    pub start: u64,
    /// Time of full vesting; fixed at creation.
    pub end: u64,
    pub ibc_channel_id: Option<String>,
}

/// The single outbound transfer a successful claim dispatches.
#[derive(Clone, Debug, PartialEq, Eq)]
pub enum Transfer {
    Bank { to_address: String, amount: Coin },
    Ibc { channel_id: String, to_address: String, amount: Coin, timeout: u64 },
}

/// What a successful claim asks the host to do, and the amount it reports.
#[derive(Clone, Debug, PartialEq, Eq)]
pub struct ClaimResponse {
    pub message: Transfer,
    pub amount_sent: u128,
}

/// Amount releasable at `now` from `balance` over the window `[start, end]`:
/// everything once `now` is past `end`, else the truncated per-second rate over
/// the remaining window times the seconds elapsed. `None` where the window has
/// no length left.
pub open spec fn releasable(start: u64, end: u64, now: u64, balance: u128) -> Option<int> {
    if now > end {
        Some(balance as int)
    } else if end == start {
        None
    } else {
        Some((balance as int / (end - start) as int) * (now - start))
    }
}

/// What a claim or a claimable query yields on a configuration.
pub open spec fn claimable_spec(c: Config, now: u64, balance: u128) -> Result<u128, ContractError> {
    match releasable(c.start, c.end, now, balance) {
        Some(a) => Ok(a as u128),
        None => Err(ContractError::DivideByZero),
    }
}

pub open spec fn transfer_spec(c: Config, now: u64, amount: u128) -> Transfer {
    let coin = Coin { denom: c.denom, amount };
    match c.ibc_channel_id {
        Some(channel_id) => Transfer::Ibc {
            channel_id,
            to_address: c.receiver,
            amount: coin,
            timeout: (now + IBC_TIMEOUT_SECONDS) as u64,
        },
        None => Transfer::Bank { to_address: c.receiver, amount: coin },
    }
}

/// The configuration after a successful claim at `now`.
pub open spec fn claimed_config(c: Config, now: u64) -> Config {
    Config { start: now, ..c }
}

pub open spec fn transfer_amount(t: Transfer) -> u128 {
    match t {
        Transfer::Bank { amount, .. } => amount.amount,
        Transfer::Ibc { amount, .. } => amount.amount,
    }
}

/// What is released never exceeds the balance.
pub proof fn lemma_releasable_bounded(start: u64, end: u64, now: u64, balance: u128)
    requires
        start <= now,
    ensures
        releasable(start, end, now, balance) matches Some(a) ==> 0 <= a <= balance,
{
    if now <= end && end != start {
        let w = (end - start) as int;
        let e = (now - start) as int;
        let q = balance as int / w;
        assert(0 <= q * e <= q * w) by (nonlinear_arith)
            requires 0 <= e <= w, 0 <= q;
        assert(q * w <= balance as int) by (nonlinear_arith)
            requires q == balance as int / w, w > 0, balance >= 0;
    }
}

/// Total released by claims at `times`, in order, on an instance whose window
/// is `[start, end]` and whose balance is `balance`, with no deposits in
/// between. A claim that fails changes nothing.
pub open spec fn released_total(start: u64, end: u64, balance: u128, times: Seq<u64>) -> int
    decreases times.len(),
{
    if times.len() == 0 {
        0
    } else {
        let now = times[0];
        match releasable(start, end, now, balance) {
            Some(a) => a + released_total(now, end, (balance - a) as u128, times.drop_first()),
            None => released_total(start, end, balance, times.drop_first()),
        }
    }
}

/// An instance created at `created` under any strategy and claimed once at
/// the end of its window pays out its whole principal, provided the window's
/// length divides the principal (else the truncated rate leaves the
/// remainder for a later claim); claimed once at any time after the end, it
/// pays out the whole principal in every case.
pub proof fn lemma_single_claim_at_end(c: Config, created: u64, strategy: VestingStrategy, principal: u128)
    requires
        c.start == created,
        c.end == created + strategy.seconds(),
    ensures
        principal as int % (strategy.seconds() as int) == 0 ==> claimable_spec(c, c.end, principal) == Ok::<u128, ContractError>(principal),
        forall|now: u64| now > c.end ==> claimable_spec(c, now, principal) == Ok::<u128, ContractError>(principal),
{
    let w = strategy.seconds() as int;
    if principal as int % w == 0 {
        assert((principal as int / w) * w == principal as int) by (nonlinear_arith)
            requires principal as int % w == 0, w > 0;
    }
}

/// However claims are spread over time, what they release in total never
/// exceeds the balance held at the start, and equals it exactly once a claim
/// falls after the end of the window.
pub proof fn lemma_claims_release_principal(start: u64, end: u64, principal: u128, times: Seq<u64>)
    requires
        forall|i: int, j: int| 0 <= i <= j < times.len() ==> times[i] <= times[j],
        times.len() > 0 ==> start <= times[0],
    ensures
        0 <= released_total(start, end, principal, times) <= principal,
        times.len() > 0 && times.last() > end ==> released_total(start, end, principal, times) == principal,
    decreases times.len(),
{
    if times.len() > 0 {
        let now = times[0];
        let rest = times.drop_first();
        assert forall|i: int, j: int| 0 <= i <= j < rest.len() implies rest[i] <= rest[j] by {
            assert(rest[i] == times[i + 1] && rest[j] == times[j + 1]);
        }
        if rest.len() > 0 {
            assert(rest[0] == times[1] && now <= times[1]);
            assert(rest.last() == times.last());
        }
        lemma_releasable_bounded(start, end, now, principal);
        match releasable(start, end, now, principal) {
            Some(a) => {
                lemma_claims_release_principal(now, end, (principal - a) as u128, rest);
            },
            None => {
                lemma_claims_release_principal(start, end, principal, rest);
            },
        }
    }
}

/// What a claimable query reports at an instant is exactly the amount that a
/// claim by the claimer at that instant transfers.
pub proof fn lemma_claimable_is_transferred(c: Config, now: u64, balance: u128)
    ensures
        claimable_spec(c, now, balance) matches Ok(a) ==> transfer_amount(transfer_spec(c, now, a)) == a,
{
}

/// Once a claim after the end of the window has paid out the whole balance,
/// every later claim, at the same time or after, releases nothing.
pub proof fn lemma_nothing_left_after_final_claim(c: Config, now: u64, balance: u128, later: u64)
    requires
        now > c.end,
        now <= later,
    ensures
        claimable_spec(c, now, balance) == Ok::<u128, ContractError>(balance),
        claimable_spec(claimed_config(c, now), later, 0) == Ok::<u128, ContractError>(0),
{
}

/// Requires exactly one coin, of `denom`, with a positive amount; returns that amount.
pub fn must_pay(funds: &Vec<Coin>, denom: &String) -> (r: Result<u128, PaymentError>)
    ensures
        funds.len() == 0 ==> r == Err::<u128, PaymentError>(PaymentError::NoFunds),
        funds.len() > 1 ==> r == Err::<u128, PaymentError>(PaymentError::MultipleDenoms),
        funds.len() == 1 && funds[0].amount == 0 ==> r == Err::<u128, PaymentError>(PaymentError::NoFunds),
        funds.len() == 1 && funds[0].amount > 0 && funds[0].denom@ != denom@ ==> (r matches Err(PaymentError::MissingDenom(d)) && d@ == denom@),
        funds.len() == 1 && funds[0].amount > 0 && funds[0].denom@ == denom@ ==> r == Ok::<u128, PaymentError>(funds[0].amount),
{
    if funds.len() == 0 {
        return Err(PaymentError::NoFunds);
    }
    if funds.len() > 1 {
        return Err(PaymentError::MultipleDenoms);
    }
    let coin = &funds[0];
    if coin.amount == 0 {
        Err(PaymentError::NoFunds)
    } else if coin.denom != *denom {
        Err(PaymentError::MissingDenom(denom.clone()))
    } else {
        Ok(coin.amount)
    }
}

/// Creates the configuration of a new vesting instance at time `now`, funded
/// by `funds`. The claimer is the address of a native receiver, or the
/// explicit claimer of a cross-chain one.
pub fn instantiate(now: u64, funds: &Vec<Coin>, msg: InstantiateMsg) -> (r: Result<Config, ContractError>)
    requires
        now + msg.strategy.seconds() <= u64::MAX,
    ensures
        funds.len() == 0 ==> r == Err::<Config, ContractError>(ContractError::NoFundsSent),
        funds.len() > 1 ==> r == Err::<Config, ContractError>(ContractError::Payment(PaymentError::MultipleDenoms)),
        funds.len() == 1 && funds[0].amount == 0 ==> r == Err::<Config, ContractError>(ContractError::Payment(PaymentError::NoFunds)),
        r is Ok <==> funds.len() == 1 && funds[0].amount > 0,
        r matches Ok(c) ==> {
            &&& c.denom@ == funds[0].denom@
            &&& c.receiver@ == msg.receiver.address_view()
            &&& c.start == now
            &&& c.end == now + msg.strategy.seconds()
            &&& match msg.receiver {
                Receiver::Ibc { channel_id, claimer, .. } =>
                    c.claimer@ == claimer@ && (c.ibc_channel_id matches Some(ch) && ch@ == channel_id@),
                Receiver::Native { address } =>
                    c.claimer@ == address@ && c.ibc_channel_id is None,
            }
        },
{
    if funds.len() == 0 {
        return Err(ContractError::NoFundsSent);
    }
    let denom = funds[0].denom.clone();
    match must_pay(funds, &denom) {
        Err(e) => {
            return Err(ContractError::Payment(e));
        },
        Ok(_) => {},
    }
    let (receiver, ibc_channel_id, claimer) = match msg.receiver {
        Receiver::Ibc { address, channel_id, claimer } => (address, Some(channel_id), claimer),
        Receiver::Native { address } => {
            let claimer = address.clone();
            (address, None, claimer)
        },
    };
    let seconds_till_end = msg.strategy.to_seconds();
    Ok(Config { denom, receiver, claimer, start: now, end: now + seconds_till_end, ibc_channel_id })
}

/// The amount a claim at `now` would release from `balance`, the instance's
/// current escrowed balance.
pub fn claimable(config: &Config, now: u64, balance: u128) -> (r: Result<u128, ContractError>)
    requires
        config.start <= now,
    ensures
        r == claimable_spec(*config, now, balance),
        r matches Ok(a) ==> a <= balance,
{
    proof {
        lemma_releasable_bounded(config.start, config.end, now, balance);
    }
    if now > config.end {
        Ok(balance)
    } else if config.end == config.start {
        Err(ContractError::DivideByZero)
    } else {
        let total_seconds = config.end - config.start;
        let amount_per_second = balance / (total_seconds as u128);
        let seconds_from_start = now - config.start;
        proof {
            assert(amount_per_second as int == balance as int / total_seconds as int);
        }
        Ok(amount_per_second * (seconds_from_start as u128))
    }
}

/// Pays out what is releasable at `now` to the receiver, if `sender` is the
/// claimer, and starts the next release window at `now`. On any error the
/// configuration is left as it was.
pub fn execute_claim(config: &mut Config, now: u64, sender: &String, balance: u128) -> (r: Result<ClaimResponse, ContractError>)
    requires
        old(config).start <= now,
        now + IBC_TIMEOUT_SECONDS <= u64::MAX,
    ensures
        sender@ != old(config).claimer@ ==> (r matches Err(ContractError::Unauthorized(_))) && *final(config) == *old(config),
        sender@ == old(config).claimer@ ==> match claimable_spec(*old(config), now, balance) {
            Ok(a) => r == Ok::<ClaimResponse, ContractError>(ClaimResponse { message: transfer_spec(*old(config), now, a), amount_sent: a })
                && *final(config) == claimed_config(*old(config), now),
            Err(e) => r == Err::<ClaimResponse, ContractError>(e) && *final(config) == *old(config),
        },
{
    if *sender != config.claimer {
        return Err(ContractError::Unauthorized("Only the claimer can call this message".to_string()));
    }
    let amount = match claimable(config, now, balance) {
        Ok(a) => a,
        Err(e) => {
            return Err(e);
        },
    };
    let coin = Coin { denom: config.denom.clone(), amount };
    let message = match &config.ibc_channel_id {
        Some(channel_id) => Transfer::Ibc {
            channel_id: channel_id.clone(),
            to_address: config.receiver.clone(),
            amount: coin,
            timeout: now + IBC_TIMEOUT_SECONDS,
        },
        None => Transfer::Bank { to_address: config.receiver.clone(), amount: coin },
    };
    config.start = now;
    Ok(ClaimResponse { message, amount_sent: amount })
}

/// Dispatches an execute message of a vesting instance.
pub fn execute(config: &mut Config, now: u64, sender: &String, balance: u128, msg: ExecuteMsg) -> (r: Result<ClaimResponse, ContractError>)
    requires
        old(config).start <= now,
        now + IBC_TIMEOUT_SECONDS <= u64::MAX,
    ensures
        sender@ != old(config).claimer@ ==> (r matches Err(ContractError::Unauthorized(_))) && *final(config) == *old(config),
        sender@ == old(config).claimer@ ==> match claimable_spec(*old(config), now, balance) {
            Ok(a) => r == Ok::<ClaimResponse, ContractError>(ClaimResponse { message: transfer_spec(*old(config), now, a), amount_sent: a })
                && *final(config) == claimed_config(*old(config), now),
            Err(e) => r == Err::<ClaimResponse, ContractError>(e) && *final(config) == *old(config),
        },
{
    match msg {
        ExecuteMsg::Claim {} => execute_claim(config, now, sender, balance),
    }
}

/// Answers a query of a vesting instance without changing it.
pub fn query(config: &Config, now: u64, balance: u128, msg: QueryMsg) -> (r: Result<u128, ContractError>)
    requires
        config.start <= now,
    ensures
        r == claimable_spec(*config, now, balance),
{
    match msg {
        QueryMsg::GetClaimable {} => claimable(config, now, balance),
    }
}

} // verus!
