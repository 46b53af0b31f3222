use liquid_staking::model::{
    AccountId, AccountVote, Action, Balance, Config, DispatchError, Error, Event, Origin, Reply,
    Request, UnbondingInformation, Vote,
};
use liquid_staking::pallet::{Dispatch, Pallet};
use frame_support::PalletId;
use sp_arithmetic::Perbill;
use sp_runtime::traits::AccountIdConversion;
use std::collections::BTreeMap;

const LIQUID_ASSET_ID: u32 = 1;

fn config() -> Config {
    Config { pallet_id: *b"lstaking", liquid_asset_id: LIQUID_ASSET_ID }
}

/// Which kind of request the test runtime refuses.
#[derive(Clone, Copy, PartialEq, Debug)]
enum Fault {
    Transfer,
    Mint,
    Burn,
    TransferAsset,
    Bond,
    BondExtra,
    Unbond,
    Withdraw,
    Nominate,
    Vote,
}

/// An in-memory runtime: balances, assets, and a
/// staking system that keeps bonded and unbonding totals per account.
struct World {
    balances: BTreeMap<AccountId, Balance>,
    assets: BTreeMap<(u32, AccountId), Balance>,
    bonded: BTreeMap<AccountId, Balance>,
    unbonding: BTreeMap<AccountId, Balance>,
    current_era: u32,
    bonding_duration: u32,
    nominations: Option<Vec<AccountId>>,
    votes: Vec<(AccountId, u32, AccountVote)>,
    log: Vec<Request>,
    fault: Option<Fault>,
}

impl World {
    fn new(owner: AccountId) -> World {
        let mut balances = BTreeMap::new();
        balances.insert(1, 100000000000000);
        balances.insert(2, 10000000000);
        balances.insert(3, 10000000000);
        balances.insert(4, 10000000000);
        balances.insert(owner, 1000000000000);
        World {
            balances,
            assets: BTreeMap::new(),
            bonded: BTreeMap::new(),
            unbonding: BTreeMap::new(),
            current_era: 0,
            bonding_duration: 3,
            nominations: None,
            votes: Vec::new(),
            log: Vec::new(),
            fault: None,
        }
    }

    fn free_balance(&self, who: AccountId) -> Balance {
        *self.balances.get(&who).unwrap_or(&0)
    }

    fn asset_balance(&self, who: AccountId) -> Balance {
        *self.assets.get(&(LIQUID_ASSET_ID, who)).unwrap_or(&0)
    }

    fn active_stake(&self, who: AccountId) -> Option<Balance> {
        self.bonded.get(&who).copied()
    }

    fn total_stake(&self, who: AccountId) -> Option<Balance> {
        match (self.unbonding.get(&who), self.bonded.get(&who)) {
            (None, None) => None,
            (Some(v), None) | (None, Some(v)) => Some(*v),
            (Some(a), Some(b)) => Some(a + b),
        }
    }

    fn faulty(&self, f: Fault) -> bool {
        self.fault == Some(f)
    }

    fn outcome(ok: bool) -> Reply {
        if ok {
            Reply::Succeeded
        } else {
            Reply::Failed
        }
    }

    fn perform(&mut self, req: Request) -> Reply {
        self.log.push(req.clone());
        match req {
            Request::Transfer { from, to, amount } => {
                let have = self.free_balance(from);
                // Keep the sender alive: one unit must stay.
                if self.faulty(Fault::Transfer) || have < amount + 1 {
                    return Reply::Failed;
                }
                self.balances.insert(from, have - amount);
                let to_have = self.free_balance(to);
                self.balances.insert(to, to_have + amount);
                Reply::Succeeded
            },
            Request::MintAsset { asset, who, amount } => {
                if self.faulty(Fault::Mint) {
                    return Reply::Failed;
                }
                let have = *self.assets.get(&(asset, who)).unwrap_or(&0);
                self.assets.insert((asset, who), have + amount);
                Reply::Succeeded
            },
            Request::BurnAsset { asset, who, amount } => {
                let have = *self.assets.get(&(asset, who)).unwrap_or(&0);
                if self.faulty(Fault::Burn) || have < amount {
                    return Reply::Failed;
                }
                self.assets.insert((asset, who), have - amount);
                Reply::Succeeded
            },
            Request::TransferAsset { asset, from, to, amount } => {
                let have = *self.assets.get(&(asset, from)).unwrap_or(&0);
                if self.faulty(Fault::TransferAsset) || have < amount {
                    return Reply::Failed;
                }
                self.assets.insert((asset, from), have - amount);
                let to_have = *self.assets.get(&(asset, to)).unwrap_or(&0);
                self.assets.insert((asset, to), to_have + amount);
                Reply::Succeeded
            },
            Request::AssetBalance { asset, who } => {
                Reply::Balance(*self.assets.get(&(asset, who)).unwrap_or(&0))
            },
            Request::TotalStake { who } => Reply::TotalStake(self.total_stake(who)),
            Request::Bond { stash, value, .. } => {
                if self.faulty(Fault::Bond) {
                    return Reply::Failed;
                }
                self.bonded.insert(stash, value);
                Reply::Succeeded
            },
            Request::BondExtra { who, extra } => {
                if self.faulty(Fault::BondExtra) {
                    return Reply::Failed;
                }
                if let Some(v) = self.bonded.get_mut(&who) {
                    *v += extra;
                }
                Reply::Succeeded
            },
            Request::Unbond { who, amount } => {
                if self.faulty(Fault::Unbond) {
                    return Reply::Failed;
                }
                let v = self.bonded.get_mut(&who).unwrap();
                *v = v.saturating_sub(amount);
                *self.unbonding.entry(who).or_insert(0) += amount;
                Reply::Succeeded
            },
            Request::WithdrawUnbonded { who, .. } => {
                if self.faulty(Fault::Withdraw) {
                    return Reply::Failed;
                }
                self.unbonding.remove(&who);
                Reply::Succeeded
            },
            Request::Nominate { validators, .. } => {
                if self.faulty(Fault::Nominate) {
                    return Reply::Failed;
                }
                self.nominations = Some(validators);
                Reply::Succeeded
            },
            Request::CurrentEra => Reply::Era(self.current_era),
            Request::BondingDuration => Reply::Era(self.bonding_duration),
            Request::Vote { who, ref_index, vote } => {
                if self.faulty(Fault::Vote) {
                    return Reply::Failed;
                }
                self.votes.push((who, ref_index, vote));
                Reply::Succeeded
            },
        }
    }
}

/// Runs a call to its end against the world.
fn drive(p: &mut Pallet, w: &mut World, start: (Dispatch, Action)) -> Result<Option<Event>, DispatchError> {
    let (mut d, mut a) = start;
    loop {
        match a {
            Action::Done(r) => return r,
            Action::Request(req) => {
                let reply = w.perform(req);
                let (d2, a2) = p.resume(d, reply);
                d = d2;
                a = a2;
            },
        }
    }
}

fn setup() -> (Pallet, World, AccountId) {
    let p = Pallet::new(config());
    let owner = p.account_id();
    let w = World::new(owner);
    (p, w, owner)
}

fn stake(p: &mut Pallet, w: &mut World, who: AccountId, amount: Balance) -> Result<Option<Event>, DispatchError> {
    let start = p.stake(Origin::Signed(who), amount);
    drive(p, w, start)
}

fn unbound(p: &mut Pallet, w: &mut World, who: AccountId, amount: Balance) -> Result<Option<Event>, DispatchError> {
    let start = p.unbound(Origin::Signed(who), amount);
    drive(p, w, start)
}

fn withdraw(p: &mut Pallet, w: &mut World, who: AccountId) -> Result<Option<Event>, DispatchError> {
    let start = p.withdraw_unbonded(Origin::Signed(who));
    drive(p, w, start)
}

fn vote(p: &mut Pallet, w: &mut World, who: AccountId, ref_index: u32, v: AccountVote) -> Result<Option<Event>, DispatchError> {
    let start = p.vote_with_liquid(Origin::Signed(who), ref_index, v);
    drive(p, w, start)
}

fn standard(balance: Balance) -> AccountVote {
    AccountVote::Standard { vote: Vote { aye: true, conviction: 1 }, balance }
}

fn module(e: Error) -> Result<Option<Event>, DispatchError> {
    Err(DispatchError::Module(e))
}

#[test]
fn basic_minting_should_work() {
    let (mut p, mut w, _owner) = setup();
    let amount_1 = 4000u64;
    let amount_2 = 6000u64;

    stake(&mut p, &mut w, 1, amount_1).unwrap();
    stake(&mut p, &mut w, 2, amount_2).unwrap();

    // What account 1 holds for its stake.
    let account_staked = w.asset_balance(1);
    assert_eq!(account_staked, amount_1);

    let total_staked = p.total_stake().unwrap();
    assert_eq!(total_staked, amount_1 + amount_2);
}

#[test]
fn unbound_should_work() {
    let (mut p, mut w, owner) = setup();
    let amount = 4000u64;
    let amount_to_unbound = 1500u64;
    let owner_balance = w.free_balance(owner);

    stake(&mut p, &mut w, 1, amount).unwrap();

    assert_eq!(w.free_balance(owner), owner_balance + amount);
    assert_eq!(w.asset_balance(1), amount);
    assert_eq!(w.active_stake(owner).unwrap(), amount);

    unbound(&mut p, &mut w, 1, amount_to_unbound).unwrap();

    assert_eq!(w.active_stake(owner).unwrap(), amount - amount_to_unbound);
}

#[test]
fn account_id_is_modl_and_pallet_id() {
    let p = Pallet::new(config());
    let bytes: [u8; 16] = [b'm', b'o', b'd', b'l', b'l', b's', b't', b'a', b'k', b'i', b'n', b'g', 0, 0, 0, 0];
    assert_eq!(p.account_id(), u128::from_le_bytes(bytes));
}

#[test]
fn account_id_matches_pallet_id_conversion() {
    let p = Pallet::new(config());
    let expected: u128 = PalletId(*b"lstaking").into_account_truncating();
    assert_eq!(p.account_id(), expected);
    let other = Pallet::new(Config { pallet_id: [0xff; 8], liquid_asset_id: 0 });
    let expected: u128 = PalletId([0xff; 8]).into_account_truncating();
    assert_eq!(other.account_id(), expected);
}

#[test]
fn ratio_matches_perbill() {
    let (mut p, mut w, _owner) = setup();
    stake(&mut p, &mut w, 1, 4000).unwrap();
    for system in [1u64, 3999, 4000, 4001, 12001, 1_000_000_007, u64::MAX] {
        assert_eq!(p.calculate_ratio(Some(system)), Perbill::from_rational(4000u64, system).deconstruct());
    }
}

#[test]
fn stake_requests_in_order_and_reports_event() {
    let (mut p, mut w, owner) = setup();
    let r = stake(&mut p, &mut w, 1, 4000);
    assert_eq!(r, Ok(Some(Event::BalanceStaked { account: 1, amount: 4000 })));
    assert_eq!(
        w.log,
        vec![
            Request::Transfer { from: 1, to: owner, amount: 4000 },
            Request::MintAsset { asset: LIQUID_ASSET_ID, who: 1, amount: 4000 },
            Request::TotalStake { who: owner },
            Request::Bond { stash: owner, controller: owner, value: 4000, payee: owner },
        ]
    );
    w.log.clear();
    stake(&mut p, &mut w, 2, 6000).unwrap();
    assert_eq!(w.log[3], Request::BondExtra { who: owner, extra: 6000 });
    assert_eq!(w.active_stake(owner), Some(10000));
}

#[test]
fn stake_total_saturates() {
    let (mut p, mut w, _owner) = setup();
    w.balances.insert(5, u64::MAX);
    stake(&mut p, &mut w, 5, u64::MAX - 10).unwrap();
    w.balances.insert(6, 1000);
    stake(&mut p, &mut w, 6, 100).unwrap();
    assert_eq!(p.total_stake(), Some(u64::MAX));
}

#[test]
fn unsigned_origin_is_refused() {
    let (p, _w, _owner) = setup();
    assert_eq!(p.stake(Origin::Root, 10).1, Action::Done(Err(DispatchError::BadOrigin)));
    assert_eq!(p.unbound(Origin::Unsigned, 10).1, Action::Done(Err(DispatchError::BadOrigin)));
    assert_eq!(p.withdraw_unbonded(Origin::Root).1, Action::Done(Err(DispatchError::BadOrigin)));
    assert_eq!(
        p.vote_with_liquid(Origin::Unsigned, 0, standard(1)).1,
        Action::Done(Err(DispatchError::BadOrigin))
    );
}

#[test]
fn stake_failures_keep_storage() {
    for (fault, err) in [
        (Fault::Transfer, Error::DepositFailed),
        (Fault::Mint, Error::AssetMintingFailed),
        (Fault::Bond, Error::ErrorBonding),
    ] {
        let (mut p, mut w, _owner) = setup();
        w.fault = Some(fault);
        assert_eq!(stake(&mut p, &mut w, 1, 4000), module(err));
        assert_eq!(p.total_stake(), None);
    }
    let (mut p, mut w, _owner) = setup();
    stake(&mut p, &mut w, 1, 4000).unwrap();
    w.fault = Some(Fault::BondExtra);
    assert_eq!(stake(&mut p, &mut w, 2, 6000), module(Error::ErrorBondingExtra));
    assert_eq!(p.total_stake(), Some(4000));
}

#[test]
fn stake_without_funds_is_refused() {
    let (mut p, mut w, _owner) = setup();
    assert_eq!(stake(&mut p, &mut w, 9, 10), module(Error::DepositFailed));
    assert_eq!(p.total_stake(), None);
}

#[test]
fn nominate_reports_validators() {
    let (mut p, mut w, owner) = setup();
    let start = p.nominate(Origin::Unsigned, vec![10, 11]);
    assert_eq!(drive(&mut p, &mut w, start), Ok(Some(Event::ValidatorsNominated { validators: vec![10, 11] })));
    assert_eq!(w.log, vec![Request::Nominate { who: owner, validators: vec![10, 11] }]);
    assert_eq!(w.nominations, Some(vec![10, 11]));
    w.fault = Some(Fault::Nominate);
    let start = p.nominate(Origin::Root, vec![12]);
    assert_eq!(drive(&mut p, &mut w, start), module(Error::NominationFailed));
}

#[test]
fn unbound_records_era_and_event() {
    let (mut p, mut w, owner) = setup();
    w.current_era = 5;
    stake(&mut p, &mut w, 1, 4000).unwrap();
    w.log.clear();
    let r = unbound(&mut p, &mut w, 1, 1500);
    assert_eq!(r, Ok(Some(Event::StakeUnbonded { account: 1, amount: 1500, unbonding_era: 8 })));
    assert_eq!(p.unbonding(1), Some(UnbondingInformation { balance: 1500, unbonding_era: 8 }));
    assert_eq!(p.total_stake(), Some(2500));
    assert_eq!(w.asset_balance(1), 2500);
    assert_eq!(
        w.log,
        vec![
            Request::AssetBalance { asset: LIQUID_ASSET_ID, who: 1 },
            Request::TotalStake { who: owner },
            Request::CurrentEra,
            Request::BondingDuration,
            Request::Unbond { who: owner, amount: 1500 },
            Request::BurnAsset { asset: LIQUID_ASSET_ID, who: 1, amount: 1500 },
        ]
    );
}

#[test]
fn unbound_more_than_held_is_refused() {
    let (mut p, mut w, _owner) = setup();
    stake(&mut p, &mut w, 1, 4000).unwrap();
    assert_eq!(unbound(&mut p, &mut w, 1, 4001), module(Error::NotEnoughAssets));
    assert_eq!(p.total_stake(), Some(4000));
    assert_eq!(p.unbonding(1), None);
}

#[test]
fn locked_funds_cannot_be_unbonded() {
    let (mut p, mut w, owner) = setup();
    stake(&mut p, &mut w, 1, 4000).unwrap();
    let r = vote(&mut p, &mut w, 1, 7, standard(1000));
    assert_eq!(r, Ok(Some(Event::UserVoted { account: 1, ref_index: 7, amount: 1000 })));
    assert_eq!(p.voting(1), Some(1000));
    assert_eq!(w.asset_balance(1), 3000);
    assert_eq!(w.asset_balance(owner), 1000);
    // The lock is counted against what the account still holds.
    assert_eq!(unbound(&mut p, &mut w, 1, 2500), module(Error::NotEnoughAssetsAvailable));
    assert_eq!(unbound(&mut p, &mut w, 1, 2000), Ok(Some(Event::StakeUnbonded { account: 1, amount: 2000, unbonding_era: 3 })));
}

#[test]
fn unbound_scales_by_stake_ratio() {
    let (mut p, mut w, owner) = setup();
    stake(&mut p, &mut w, 1, 4000).unwrap();
    // The staking system now holds three times the ledger's count.
    w.bonded.insert(owner, 12000);
    assert_eq!(p.calculate_ratio(w.total_stake(owner)), 333_333_333);
    unbound(&mut p, &mut w, 1, 1500).unwrap();
    // 1500 * 333_333_333 / 10^9 = 499.9999995, rounded to 500.
    assert_eq!(p.unbonding(1), Some(UnbondingInformation { balance: 500, unbonding_era: 3 }));
    assert_eq!(w.active_stake(owner), Some(11500));
    assert_eq!(p.total_stake(), Some(2500));
}

#[test]
fn calculate_ratio_values() {
    let (mut p, mut w, _owner) = setup();
    stake(&mut p, &mut w, 1, 4000).unwrap();
    assert_eq!(p.calculate_ratio(Some(8000)), 500_000_000);
    assert_eq!(p.calculate_ratio(Some(4000)), 1_000_000_000);
    assert_eq!(p.calculate_ratio(Some(3000)), 1_000_000_000);
    assert_eq!(p.calculate_ratio(Some(0)), 1_000_000_000);
    assert_eq!(p.calculate_ratio(None), 1_000_000_000);
    assert_eq!(p.calculate_ratio(Some(12001)), 333_305_557);
}

#[test]
fn unbound_failures_keep_storage() {
    for (fault, err) in [(Fault::Unbond, Error::ErrorUnbonding), (Fault::Burn, Error::AssetNotBurnt)] {
        let (mut p, mut w, _owner) = setup();
        stake(&mut p, &mut w, 1, 4000).unwrap();
        w.fault = Some(fault);
        assert_eq!(unbound(&mut p, &mut w, 1, 1000), module(err));
        assert_eq!(p.total_stake(), Some(4000));
        assert_eq!(p.unbonding(1), None);
    }
}

#[test]
fn withdraw_follows_unbonding_era() {
    let (mut p, mut w, owner) = setup();
    assert_eq!(withdraw(&mut p, &mut w, 1), module(Error::WithdrawError));
    stake(&mut p, &mut w, 1, 4000).unwrap();
    unbound(&mut p, &mut w, 1, 1500).unwrap();
    assert_eq!(withdraw(&mut p, &mut w, 1), module(Error::NotUnbondedYet));
    w.current_era = 3;
    let before = w.free_balance(1);
    let owner_before = w.free_balance(owner);
    assert_eq!(withdraw(&mut p, &mut w, 1), Ok(None));
    assert_eq!(w.free_balance(1), before + 1500);
    assert_eq!(w.free_balance(owner), owner_before - 1500);
    assert_eq!(w.total_stake(owner), Some(2500));
    // The record stays: the same unbonding can be paid out again.
    assert_eq!(p.unbonding(1), Some(UnbondingInformation { balance: 1500, unbonding_era: 3 }));
}

#[test]
fn withdraw_failures() {
    for (fault, err) in [(Fault::Withdraw, Error::ErrorUnbonding), (Fault::Transfer, Error::BalanceWithdrawError)] {
        let (mut p, mut w, _owner) = setup();
        stake(&mut p, &mut w, 1, 4000).unwrap();
        unbound(&mut p, &mut w, 1, 1500).unwrap();
        w.current_era = 10;
        w.fault = Some(fault);
        assert_eq!(withdraw(&mut p, &mut w, 1), module(err));
    }
}

#[test]
fn vote_failures_keep_storage() {
    for (fault, err) in [(Fault::TransferAsset, Error::AssetTransferError), (Fault::Vote, Error::GovernanceVotingError)] {
        let (mut p, mut w, _owner) = setup();
        stake(&mut p, &mut w, 1, 4000).unwrap();
        w.fault = Some(fault);
        assert_eq!(vote(&mut p, &mut w, 1, 0, standard(100)), module(err));
        assert_eq!(p.voting(1), None);
    }
}

#[test]
fn split_vote_locks_both_sides() {
    let (mut p, mut w, _owner) = setup();
    stake(&mut p, &mut w, 1, 4000).unwrap();
    let split = AccountVote::Split { aye: 300, nay: 200 };
    assert_eq!(split.balance(), 500);
    assert_eq!(AccountVote::Split { aye: u64::MAX, nay: 1 }.balance(), u64::MAX);
    vote(&mut p, &mut w, 1, 2, split).unwrap();
    assert_eq!(p.voting(1), Some(500));
    assert_eq!(w.votes, vec![(1, 2, split)]);
}

#[test]
fn unbound_undoes_stake_total() {
    let (mut p, mut w, _owner) = setup();
    stake(&mut p, &mut w, 1, 4000).unwrap();
    stake(&mut p, &mut w, 2, 6000).unwrap();
    unbound(&mut p, &mut w, 2, 6000).unwrap();
    assert_eq!(p.total_stake(), Some(4000));
}

#[test]
fn resume_walks_the_stages() {
    let (mut p, _w, owner) = setup();
    let (d, a) = p.stake(Origin::Signed(1), 50);
    assert_eq!(a, Action::Request(Request::Transfer { from: 1, to: owner, amount: 50 }));
    let (d, a) = p.resume(d, Reply::Succeeded);
    assert_eq!(a, Action::Request(Request::MintAsset { asset: LIQUID_ASSET_ID, who: 1, amount: 50 }));
    let (d, a) = p.resume(d, Reply::Succeeded);
    assert_eq!(a, Action::Request(Request::TotalStake { who: owner }));
    let (d, a) = p.resume(d, Reply::TotalStake(Some(7)));
    assert_eq!(a, Action::Request(Request::BondExtra { who: owner, extra: 50 }));
    assert_eq!(p.total_stake(), None);
    let (_d, a) = p.resume(d, Reply::Succeeded);
    assert_eq!(a, Action::Done(Ok(Some(Event::BalanceStaked { account: 1, amount: 50 }))));
    assert_eq!(p.total_stake(), Some(50));
}

#[test]
fn can_resume_flags_steps_that_cannot_go_on() {
    let (mut p, mut w, _owner) = setup();
    // An unbonding that passes its checks before anything was staked.
    let (d, _a) = p.unbound(Origin::Signed(1), 0);
    assert!(!p.can_resume(&d, Reply::Balance(0)));
    assert!(!p.can_resume(&d, Reply::Succeeded));
    // An unbonding that fails its checks can go on to its refusal.
    let (d, _a) = p.unbound(Origin::Signed(1), 5);
    assert!(p.can_resume(&d, Reply::Balance(0)));
    assert_eq!(p.resume(d, Reply::Balance(0)).1, Action::Done(module(Error::NotEnoughAssets)));

    // An unbonding era past u32::MAX.
    stake(&mut p, &mut w, 1, 4000).unwrap();
    let (d, _a) = p.unbound(Origin::Signed(1), 10);
    let (d, a) = p.resume(d, Reply::Balance(4000));
    assert!(matches!(a, Action::Request(Request::TotalStake { .. })));
    let (d, a) = p.resume(d, Reply::TotalStake(Some(4000)));
    assert_eq!(a, Action::Request(Request::CurrentEra));
    let (d, a) = p.resume(d, Reply::Era(u32::MAX - 1));
    assert_eq!(a, Action::Request(Request::BondingDuration));
    assert!(!p.can_resume(&d, Reply::Era(3)));
    assert!(p.can_resume(&d, Reply::Era(1)));
    assert!(!p.can_resume(&d, Reply::Succeeded));
}

#[test]
fn vote_funds_match_democracy() {
    let cases = [(300u64, 200u64), (u64::MAX, 1), (0, 0)];
    for (aye, nay) in cases {
        let ours = AccountVote::Split { aye, nay }.balance();
        let theirs = pallet_democracy::AccountVote::<u64>::Split { aye, nay }.balance();
        assert_eq!(ours, theirs);
    }
    let ours = standard(77).balance();
    let theirs = pallet_democracy::AccountVote::<u64>::Standard {
        vote: pallet_democracy::Vote { aye: true, conviction: pallet_democracy::Conviction::Locked1x },
        balance: 77,
    }
    .balance();
    assert_eq!(ours, theirs);
}
