use std::cell::Cell;

use felidae_dao::dao::FelidaeDao;
use felidae_dao::events::{DaoEvent, DepositSuccessful, GovernanceTokenAdded, RedeemSuccessful, Transferred, WithdrawSuccessful};
use felidae_dao::types::{Error, Stake, TokenInfo, TokenType};
use felidae_dao::AccountId;

fn acct(b: u8) -> AccountId {
    AccountId([b; 32])
}

const ADMIN: u8 = 1;
const ALICE: u8 = 10;
const OUTSIDER: u8 = 99;
const TOKEN: u8 = 150;

fn dao_addr() -> AccountId {
    acct(200)
}

fn dao_with_member() -> FelidaeDao {
    let mut dao = FelidaeDao::new(acct(ADMIN), "Felidae".to_string(), None, None, "cats".to_string());
    assert_eq!(dao.add_member(acct(ADMIN), dao_addr(), acct(ALICE), "alice".to_string(), 10), Ok(()));
    dao.drain_events();
    dao
}

#[test]
fn tokens_are_registered_by_the_admin() {
    let mut dao = dao_with_member();
    assert_eq!(dao.add_dao_token(acct(ALICE), dao_addr(), TokenType::Psp22, acct(TOKEN)), Err(Error::ThisFunctionCanBeCalledFromDaoManager));
    assert!(dao.get_token_list(acct(TOKEN)).is_empty());
    assert_eq!(dao.add_dao_token(acct(ADMIN), dao_addr(), TokenType::GovernanceToken, acct(TOKEN)), Ok(()));
    assert_eq!(
        dao.get_token_list(acct(TOKEN)),
        vec![TokenInfo { token_type: TokenType::GovernanceToken, token_address: acct(TOKEN) }]
    );
    assert_eq!(
        dao.drain_events(),
        vec![DaoEvent::GovernanceTokenAdded(GovernanceTokenAdded { dao_address: dao_addr(), token_address: acct(TOKEN) })]
    );
}

#[test]
fn distribution_calls_the_token_only_when_allowed() {
    let mut dao = dao_with_member();
    let calls = Cell::new(0u32);
    let call = |token: AccountId, to: AccountId, amount: u128| {
        calls.set(calls.get() + 1);
        assert_eq!((token, to, amount), (acct(TOKEN), acct(ALICE), 40));
        true
    };
    assert_eq!(dao.distribute_governance_token(acct(ADMIN), acct(TOKEN), acct(ALICE), 40, call), Err(Error::TheTokenDoesNotExist));
    assert_eq!(dao.add_dao_token(acct(ADMIN), dao_addr(), TokenType::Psp22, acct(TOKEN)), Ok(()));
    dao.drain_events();
    assert_eq!(dao.distribute_governance_token(acct(ALICE), acct(TOKEN), acct(ALICE), 40, call), Err(Error::ThisFunctionCanBeCalledFromDaoManager));
    assert_eq!(calls.get(), 0);
    assert_eq!(dao.distribute_governance_token(acct(ADMIN), acct(TOKEN), acct(ALICE), 40, call), Ok(()));
    assert_eq!(calls.get(), 1);
    assert_eq!(
        dao.drain_events(),
        vec![DaoEvent::Transferred(Transferred { from: None, to: acct(ALICE), value: 40 })]
    );
    assert_eq!(
        dao.distribute_governance_token(acct(ADMIN), acct(TOKEN), acct(ALICE), 40, |_, _, _| false),
        Err(Error::DistributionIsFailure)
    );
    assert!(dao.drain_events().is_empty());
}

#[test]
fn rewards_are_distributed_without_event() {
    let mut dao = dao_with_member();
    assert_eq!(dao.distribute_reward(acct(ADMIN), acct(TOKEN), acct(ALICE), 3, |_, _, _| true), Err(Error::TheTokenDoesNotExist));
    assert_eq!(dao.add_dao_token(acct(ADMIN), dao_addr(), TokenType::Psp34, acct(TOKEN)), Ok(()));
    dao.drain_events();
    assert_eq!(dao.distribute_reward(acct(OUTSIDER), acct(TOKEN), acct(ALICE), 3, |_, _, _| true), Err(Error::ThisFunctionCanBeCalledFromDaoManager));
    assert_eq!(dao.distribute_reward(acct(ADMIN), acct(TOKEN), acct(ALICE), 3, |_, _, _| true), Ok(()));
    assert_eq!(dao.distribute_reward(acct(ADMIN), acct(TOKEN), acct(ALICE), 3, |_, _, _| false), Err(Error::DistributionIsFailure));
    assert!(dao.drain_events().is_empty());
    assert_eq!(dao.calculate_efficiency(acct(TOKEN), acct(ALICE), 3), Ok(()));
}

const UNIT: u128 = 1_000_000_000_000;

fn contract() -> AccountId {
    acct(250)
}

#[test]
fn stake_needs_membership_and_is_single() {
    let mut dao = dao_with_member();
    assert_eq!(dao.add_stake(acct(OUTSIDER), contract(), 5, 3 * UNIT), Err(Error::NotAMember));
    assert_eq!(dao.add_stake(acct(ALICE), contract(), 5, 3 * UNIT), Ok(()));
    let expected = Stake { staked_amount: 3 * UNIT, deposit_time: "5".to_string(), release_time: None };
    assert_eq!(dao.get_stake_info(acct(ALICE)), Ok(expected.clone()));
    assert_eq!(dao.get_stake_for_account(acct(ALICE)), Some(expected.clone()));
    assert_eq!(dao.get_account_if_exists(&acct(ALICE)), Ok(expected.clone()));
    assert_eq!(dao.total_stake(), 3);
    assert_eq!(dao.add_stake(acct(ALICE), contract(), 6, 4 * UNIT), Err(Error::AlreadyStaked));
    assert_eq!(
        dao.drain_events(),
        vec![DaoEvent::DepositSuccessful(DepositSuccessful { staker: acct(ALICE), stake: expected })]
    );
    assert_eq!(dao.get_stake_info(acct(OUTSIDER)), Err(Error::NotStaked));
    assert_eq!(dao.get_stake_for_account(acct(OUTSIDER)), None);
    assert_eq!(dao.get_account_if_exists(&acct(OUTSIDER)), Err(Error::AccountNotExist));
}

#[test]
fn no_self_staking_and_no_small_deposits() {
    let mut dao = dao_with_member();
    // the contract's own account, even if it were a member, may not stake
    assert_eq!(dao.add_member(acct(ADMIN), dao_addr(), contract(), "self".to_string(), 1), Ok(()));
    assert_eq!(dao.add_stake(contract(), contract(), 5, 3 * UNIT), Err(Error::SelfStakingNotAllowed));
    assert_eq!(dao.add_stake(acct(ALICE), contract(), 5, 999_999_999), Err(Error::DepositNotSufficient));
    assert_eq!(dao.get_stake_for_account(acct(ALICE)), None);
    assert_eq!(dao.add_stake(acct(ALICE), contract(), 5, 1_000_000_000), Ok(()));
    assert_eq!(dao.total_stake(), 0);
}

#[test]
fn stake_total_counts_whole_units() {
    let mut dao = dao_with_member();
    assert_eq!(dao.set_stake_data(acct(ALICE), 4, 60), Err(Error::NotAAdmin));
    assert_eq!(dao.set_stake_data(acct(ADMIN), 4, 60), Ok(()));
    // 3.5 units add 3 to the total, which becomes 7
    assert_eq!(dao.add_stake(acct(ALICE), contract(), 5, 3 * UNIT + UNIT / 2 + 2), Ok(()));
    assert_eq!(dao.total_stake(), 7);
    // the share is the stake's amount modulo 256 over the total: 10^12 is a
    // multiple of 256, so 2 / 7, truncated to sixteenths (4 / 16), times 100
    assert_eq!((UNIT / 2) % 256, 0);
    assert_eq!(dao.get_ownership(acct(ALICE)), Ok("25".to_string()));
    assert_eq!(dao.get_ownership(acct(OUTSIDER)), Err(Error::NotStaked));
}

#[test]
fn ownership_in_fixed_point() {
    let dao = dao_with_member();
    assert_eq!(dao.calculate_ownership(1, 3), "31.25");
    assert_eq!(dao.calculate_ownership(2, 4), "50");
    assert_eq!(dao.calculate_ownership(3, 3), "100");
    assert_eq!(dao.calculate_ownership(0, 9), "0");
    assert_eq!(felidae_dao::ownership::ownership_in_sixteenths(1, 3), 500);
    assert_eq!(felidae_dao::ownership::ownership_in_sixteenths(255, 1), 408000);
}

#[test]
fn ownership_test_grows_the_total() {
    let mut dao = dao_with_member();
    dao.calculate_ownership_test(3);
    dao.calculate_ownership_test(4);
    assert_eq!(dao.total_stake(), 7);
    assert_eq!(dao.add_stake(acct(ALICE), contract(), 5, 7 * UNIT + 7), Ok(()));
    // total is 14; the share of 7 in it is 50 %
    assert_eq!(dao.get_ownership(acct(ALICE)), Ok("50".to_string()));
}

#[test]
fn redeeming_pays_back_after_the_period() {
    let mut dao = dao_with_member();
    assert_eq!(dao.redeem_stake(acct(ALICE), 9, 100, |_, _| true), Err(Error::NotStaked));
    assert_eq!(dao.set_stake_data(acct(ADMIN), 20, 100), Ok(()));
    let amount = 7 * UNIT + 5;
    assert_eq!(dao.add_stake(acct(ALICE), contract(), 5, amount), Ok(()));
    assert_eq!(dao.stake_deposit_time(acct(ALICE)), Some(5));
    assert_eq!(dao.total_stake(), 27);
    dao.drain_events();
    // the staking period runs until 5 + 100
    assert_eq!(dao.redeem_stake(acct(ALICE), 104, amount, |_, _| panic!("no transfer")), Err(Error::RedeemDurationNotReached));
    assert_eq!(dao.redeem_stake(acct(ALICE), 3, amount, |_, _| panic!("no transfer")), Err(Error::RedeemDurationNotReached));
    assert_eq!(dao.total_stake(), 27);
    assert_eq!(dao.redeem_stake(acct(ALICE), 105, amount - 1, |_, _| true), Err(Error::InsufficientContractBalance));
    assert_eq!(dao.redeem_stake(acct(ALICE), 105, amount, |_, _| false), Err(Error::TransferFailed));
    assert_eq!(dao.get_stake_info(acct(ALICE)).map(|s| s.staked_amount), Ok(amount));
    let paid = Cell::new(None);
    assert_eq!(dao.redeem_stake(acct(ALICE), 105, amount, |to, v| { paid.set(Some((to, v))); true }), Ok(()));
    assert_eq!(paid.get(), Some((acct(ALICE), amount)));
    assert_eq!(dao.get_stake_info(acct(ALICE)), Err(Error::NotStaked));
    assert_eq!(dao.stake_deposit_time(acct(ALICE)), None);
    // the total drops by the amount modulo 256, which is 5
    assert_eq!(dao.total_stake(), 22);
    assert_eq!(
        dao.drain_events(),
        vec![DaoEvent::RedeemSuccessful(RedeemSuccessful {
            staker: acct(ALICE),
            stake: Stake { staked_amount: amount, deposit_time: "5".to_string(), release_time: Some("105".to_string()) },
        })]
    );
    // a new stake may be made after redeeming: 2 units bring the total to 24,
    // and a stake of 12 modulo 256 owns half of it
    assert_eq!(dao.add_stake(acct(ALICE), contract(), 200, 2 * UNIT + 12), Ok(()));
    assert_eq!(dao.get_ownership(acct(ALICE)), Ok("50".to_string()));
}

#[test]
fn redeeming_a_whole_unit_stake_on_a_zero_total() {
    let mut dao = dao_with_member();
    // total 1 after the deposit; the amount modulo 256 is 0
    assert_eq!(dao.add_stake(acct(ALICE), contract(), 5, UNIT), Ok(()));
    assert_eq!(dao.total_stake(), 1);
    assert_eq!(dao.redeem_stake(acct(ALICE), 5, UNIT, |_, _| true), Ok(()));
    assert_eq!(dao.total_stake(), 1);
}

#[test]
fn redeeming_needs_membership() {
    let mut dao = dao_with_member();
    assert_eq!(dao.add_stake(acct(ALICE), contract(), 5, UNIT), Ok(()));
    assert_eq!(dao.delete_member(acct(ADMIN), dao_addr(), acct(ALICE)), Ok(()));
    assert_eq!(dao.redeem_stake(acct(ALICE), 9, 100 * UNIT, |_, _| true), Err(Error::NotAMember));
}

#[test]
fn early_withdraw_returns_the_stake() {
    let mut dao = dao_with_member();
    assert_eq!(dao.set_stake_data(acct(ADMIN), 0, 1_000), Ok(()));
    assert_eq!(dao.early_withdraw(acct(ALICE), 100, |_, _| true), Err(Error::AccountNotExist));
    let amount = 50 * UNIT;
    assert_eq!(dao.add_stake(acct(ALICE), contract(), 5, amount), Ok(()));
    dao.drain_events();
    assert_eq!(dao.early_withdraw(acct(ALICE), amount - 1, |_, _| true), Err(Error::InsufficientContractBalance));
    assert_eq!(dao.early_withdraw(acct(ALICE), amount, |_, _| false), Err(Error::TransferFailed));
    let stake = Stake { staked_amount: amount, deposit_time: "5".to_string(), release_time: None };
    // withdrawing early is allowed within the staking period
    assert_eq!(dao.early_withdraw(acct(ALICE), amount, |_, _| true), Ok(stake.clone()));
    assert_eq!(dao.get_stake_for_account(acct(ALICE)), None);
    assert_eq!(
        dao.drain_events(),
        vec![DaoEvent::WithdrawSuccessful(WithdrawSuccessful { staker: acct(ALICE), stake })]
    );
}

#[test]
fn balance_checks_and_transfers() {
    let mut dao = dao_with_member();
    assert_eq!(dao.check_sufficient_balance(10, 11), Err(Error::InsufficientContractBalance));
    assert_eq!(dao.check_sufficient_balance(10, 10), Ok(()));
    assert_eq!(dao.transfer_balance(10, &acct(ALICE), 11, |_, _| true), Err(Error::InsufficientContractBalance));
    assert_eq!(dao.transfer_balance(10, &acct(ALICE), 10, |_, _| false), Err(Error::TransferFailed));
    assert_eq!(dao.transfer_balance(10, &acct(ALICE), 10, |_, _| true), Ok(()));
    assert!(dao.check_not_self(acct(3), &acct(ALICE)));
    assert!(!dao.check_not_self(acct(ALICE), &acct(ALICE)));
}
