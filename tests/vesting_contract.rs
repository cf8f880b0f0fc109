use vesting::contract::{
    claimable, execute, execute_claim, instantiate, must_pay, query, ClaimResponse, Config,
    Transfer,
};
use vesting::error::{ContractError, PaymentError};
use vesting::msg::{Coin, ExecuteMsg, InstantiateMsg, QueryMsg, Receiver, VestingStrategy};

fn coin(amount: u128, denom: &str) -> Coin {
    Coin { denom: denom.to_string(), amount }
}

fn native(address: &str) -> Receiver {
    Receiver::Native { address: address.to_string() }
}

fn create(now: u64, amount: u128, strategy: VestingStrategy) -> Config {
    let msg = InstantiateMsg { receiver: native("addr1"), strategy };
    instantiate(now, &vec![coin(amount, "uusdc")], msg).unwrap()
}

fn claim(config: &mut Config, now: u64, balance: u128) -> u128 {
    execute_claim(config, now, &"addr1".to_string(), balance).unwrap().amount_sent
}

#[test]
fn strategy_seconds() {
    assert_eq!(VestingStrategy::Hour.to_seconds(), 3600);
    assert_eq!(VestingStrategy::Day.to_seconds(), 86400);
    assert_eq!(VestingStrategy::Week.to_seconds(), 604800);
    assert_eq!(VestingStrategy::Month.to_seconds(), 2592000);
}

#[test]
fn instantiate_native_receiver() {
    let config = create(100, 3600, VestingStrategy::Day);
    assert_eq!(
        config,
        Config {
            denom: "uusdc".to_string(),
            receiver: "addr1".to_string(),
            claimer: "addr1".to_string(),
            start: 100,
            end: 86500,
            ibc_channel_id: None,
        }
    );
}

#[test]
fn instantiate_ibc_receiver() {
    let receiver = Receiver::Ibc {
        address: "remote1".to_string(),
        channel_id: "channel-0".to_string(),
        claimer: "local1".to_string(),
    };
    let msg = InstantiateMsg { receiver, strategy: VestingStrategy::Week };
    let config = instantiate(0, &vec![coin(10, "uatom")], msg).unwrap();
    assert_eq!(config.receiver, "remote1");
    assert_eq!(config.claimer, "local1");
    assert_eq!(config.ibc_channel_id, Some("channel-0".to_string()));
    assert_eq!(config.end, 604800);
}

#[test]
fn instantiate_without_funds_fails() {
    let msg = InstantiateMsg { receiver: native("addr1"), strategy: VestingStrategy::Hour };
    assert_eq!(instantiate(0, &vec![], msg), Err(ContractError::NoFundsSent));
}

#[test]
fn instantiate_with_two_coins_fails() {
    let msg = InstantiateMsg { receiver: native("addr1"), strategy: VestingStrategy::Hour };
    let funds = vec![coin(1, "uusdc"), coin(1, "uatom")];
    assert_eq!(
        instantiate(0, &funds, msg),
        Err(ContractError::Payment(PaymentError::MultipleDenoms))
    );
}

#[test]
fn instantiate_with_zero_amount_fails() {
    let msg = InstantiateMsg { receiver: native("addr1"), strategy: VestingStrategy::Hour };
    assert_eq!(
        instantiate(0, &vec![coin(0, "uusdc")], msg),
        Err(ContractError::Payment(PaymentError::NoFunds))
    );
}

#[test]
fn must_pay_checks_denom() {
    let funds = vec![coin(5, "uatom")];
    assert_eq!(
        must_pay(&funds, &"uusdc".to_string()),
        Err(PaymentError::MissingDenom("uusdc".to_string()))
    );
    assert_eq!(must_pay(&funds, &"uatom".to_string()), Ok(5));
}

#[test]
fn half_then_rest_of_an_hour() {
    let mut config = create(0, 3600, VestingStrategy::Hour);
    let first = execute_claim(&mut config, 1800, &"addr1".to_string(), 3600).unwrap();
    assert_eq!(
        first,
        ClaimResponse {
            message: Transfer::Bank { to_address: "addr1".to_string(), amount: coin(1800, "uusdc") },
            amount_sent: 1800,
        }
    );
    assert_eq!(config.start, 1800);
    assert_eq!(config.end, 3600);
    assert_eq!(claim(&mut config, 3600, 1800), 1800);
}

#[test]
fn claim_after_end_pays_everything_then_nothing() {
    let mut config = create(0, 3600, VestingStrategy::Hour);
    assert_eq!(claim(&mut config, 5000, 3600), 3600);
    assert_eq!(config.start, 5000);
    assert_eq!(claim(&mut config, 5000, 0), 0);
    assert_eq!(claim(&mut config, 6000, 0), 0);
}

#[test]
fn single_claim_at_end_pays_principal() {
    for strategy in [VestingStrategy::Hour, VestingStrategy::Day, VestingStrategy::Week, VestingStrategy::Month] {
        let principal = strategy.to_seconds() as u128 * 7;
        let mut config = create(50, principal, strategy);
        let end = config.end;
        assert_eq!(claim(&mut config, end, principal), principal);
    }
}

#[test]
fn single_claim_at_end_leaves_remainder_of_truncated_rate() {
    let mut config = create(0, 3601, VestingStrategy::Hour);
    assert_eq!(claim(&mut config, 3600, 3601), 3600);
    assert_eq!(claim(&mut config, 3601, 1), 1);
}

#[test]
fn many_claims_release_principal_exactly() {
    let principal: u128 = 1_000_003;
    let mut config = create(0, principal, VestingStrategy::Hour);
    let mut balance = principal;
    let mut total: u128 = 0;
    for now in [1u64, 7, 100, 1000, 1001, 2500, 3599, 3600, 3601] {
        let paid = claim(&mut config, now, balance);
        assert!(paid <= balance);
        balance -= paid;
        total += paid;
    }
    assert_eq!(total, principal);
    assert_eq!(balance, 0);
}

#[test]
fn claimable_equals_claimed_amount() {
    let mut config = create(0, 10_000, VestingStrategy::Hour);
    let reported = query(&config, 1234, 10_000, QueryMsg::GetClaimable {}).unwrap();
    let paid = claim(&mut config, 1234, 10_000);
    assert_eq!(reported, paid);
    assert_eq!(reported, 2 * 1234);
}

#[test]
fn claim_by_other_identity_is_unauthorized() {
    let mut config = create(0, 3600, VestingStrategy::Hour);
    let before = config.clone();
    let r = execute_claim(&mut config, 1800, &"mallory".to_string(), 3600);
    assert!(matches!(r, Err(ContractError::Unauthorized(_))));
    assert_eq!(config, before);
}

#[test]
fn second_claim_exactly_at_end_divides_by_zero() {
    let mut config = create(0, 3601, VestingStrategy::Hour);
    assert_eq!(claim(&mut config, 3600, 3601), 3600);
    let before = config.clone();
    let r = execute_claim(&mut config, 3600, &"addr1".to_string(), 1);
    assert_eq!(r, Err(ContractError::DivideByZero));
    assert_eq!(config, before);
    assert_eq!(claimable(&config, 3600, 1), Err(ContractError::DivideByZero));
}

#[test]
fn ibc_claim_sends_timed_transfer() {
    let receiver = Receiver::Ibc {
        address: "remote1".to_string(),
        channel_id: "channel-4".to_string(),
        claimer: "local1".to_string(),
    };
    let msg = InstantiateMsg { receiver, strategy: VestingStrategy::Hour };
    let mut config = instantiate(0, &vec![coin(7200, "uusdc")], msg).unwrap();
    let r = execute(&mut config, 900, &"local1".to_string(), 7200, ExecuteMsg::Claim {}).unwrap();
    assert_eq!(
        r.message,
        Transfer::Ibc {
            channel_id: "channel-4".to_string(),
            to_address: "remote1".to_string(),
            amount: coin(1800, "uusdc"),
            timeout: 4500,
        }
    );
    assert_eq!(r.amount_sent, 1800);
}
