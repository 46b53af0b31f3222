//! The ledger itself: its storage, and the executable steps of its calls.
use vstd::prelude::*;
use std::collections::HashMap;
use crate::arith::{lemma_rational_parts_bounded, perbill_from_rational, perbill_mul, PERBILL_ONE};
use crate::machine::{
    accepts, account_bytes, entry, begin_stake, begin_unbound, begin_vote, begin_withdraw, le_value, next,
    owner, pallet_account, stake_ratio, unbound_era_overflows, unbound_reads_missing_total, Ledger,
    Stage,
};
use crate::model::{
    AccountId, AccountVote, Action, Balance, Config, DispatchError, Error, Event, Origin,
    ReferendumIndex, Reply, Request, UnbondingInformation,
};

verus! {

broadcast use vstd::std_specs::hash::group_hash_axioms;

/// A call in progress: hand it back to `Pallet::resume` with the reply to its
/// last request.
pub struct Dispatch {
    stage: Stage,
}

impl View for Dispatch {
    type V = Stage;

    closed spec fn view(&self) -> Stage {
        self.stage
    }
}

/// The liquid staking ledger: its constants and its storage.
pub struct Pallet {
    config: Config,
    total_staked: Option<Balance>,
    voting: HashMap<AccountId, Balance>,
    unbonding: HashMap<AccountId, UnbondingInformation>,
}

impl View for Pallet {
    type V = Ledger;

    closed spec fn view(&self) -> Ledger {
        Ledger { total_staked: self.total_staked, voting: self.voting@, unbonding: self.unbonding@ }
    }
}

/// `256^n`.
spec fn byte_power(n: nat) -> nat
    decreases n,
{
    if n == 0 {
        1
    } else {
        256 * byte_power((n - 1) as nat)
    }
}

proof fn lemma_le_value_bounded(b: Seq<u8>)
    ensures
        le_value(b) < byte_power(b.len()),
    decreases b.len(),
{
    if b.len() > 0 {
        lemma_le_value_bounded(b.drop_first());
    }
}

/// The account of the pallet with identifier `pallet_id`: the bytes `modl`,
/// then the identifier, zero-padded and read as a little-endian `u128`.
fn account_of(pallet_id: [u8; 8]) -> (r: AccountId)
    ensures
        r == pallet_account(pallet_id),
{
    let bytes: [u8; 12] = [
        0x6d,
        0x6f,
        0x64,
        0x6c,
        pallet_id[0],
        pallet_id[1],
        pallet_id[2],
        pallet_id[3],
        pallet_id[4],
        pallet_id[5],
        pallet_id[6],
        pallet_id[7],
    ];
    assert(bytes@ =~= account_bytes(pallet_id));
    proof {
        reveal_with_fuel(byte_power, 13);
    }
    assert(byte_power(12) == 0x1_0000_0000_0000_0000_0000_0000nat);
    let mut acc: u128 = 0;
    let mut i: usize = 12;
    while i > 0
        invariant
            i <= 12,
            acc == le_value(bytes@.subrange(i as int, 12)),
            byte_power(12) == 0x1_0000_0000_0000_0000_0000_0000nat,
        decreases i,
    {
        i = i - 1;
        let ghost rest = bytes@.subrange(i + 1, 12);
        assert(bytes@.subrange(i as int, 12).drop_first() =~= rest);
        proof {
            lemma_le_value_bounded(rest);
            lemma_byte_power_monotone((12 - (i + 1)) as nat, 12);
        }
        acc = bytes[i] as u128 + 256 * acc;
    }
    assert(bytes@.subrange(0, 12) =~= bytes@);
    acc
}

proof fn lemma_byte_power_monotone(m: nat, n: nat)
    requires
        m <= n,
    ensures
        256 * byte_power(m) <= 256 * byte_power(n),
        m < n ==> 256 * byte_power(m) <= byte_power(n),
    decreases n,
{
    if m < n {
        lemma_byte_power_monotone(m, (n - 1) as nat);
    }
}

impl Pallet {
    /// The ledger's constants.
    pub closed spec fn settings(&self) -> Config {
        self.config
    }

    /// A ledger with empty storage.
    pub fn new(config: Config) -> (p: Pallet)
        ensures
            p.settings() == config,
            p@.total_staked is None,
            p@.voting == Map::<AccountId, Balance>::empty(),
            p@.unbonding == Map::<AccountId, UnbondingInformation>::empty(),
    {
        Pallet { config, total_staked: None, voting: HashMap::new(), unbonding: HashMap::new() }
    }

    /// The ledger's constants.
    pub fn config(&self) -> (r: Config)
        ensures
            r == self.settings(),
    {
        self.config
    }

    /// The ledger's own account.
    pub fn account_id(&self) -> (r: AccountId)
        ensures
            r == owner(self.settings()),
    {
        account_of(self.config.pallet_id)
    }

    /// The total staked.
    pub fn total_stake(&self) -> (r: Option<Balance>)
        ensures
            r == self@.total_staked,
    {
        self.total_staked
    }

    /// The liquid token that `who` has locked in governance.
    pub fn voting(&self, who: AccountId) -> (r: Option<Balance>)
        ensures
            r == entry(self@.voting, who),
    {
        match self.voting.get(&who) {
            Some(v) => Some(*v),
            None => None,
        }
    }

    /// `who`'s last unbonding.
    pub fn unbonding(&self, who: AccountId) -> (r: Option<UnbondingInformation>)
        ensures
            r == entry(self@.unbonding, who),
    {
        match self.unbonding.get(&who) {
            Some(v) => Some(*v),
            None => None,
        }
    }

    /// The ratio of the total staked to `system_staked`, what the ledger's
    /// account holds in the staking system, in parts per billion.
    pub fn calculate_ratio(&self, system_staked: Option<Balance>) -> (r: u32)
        requires
            self@.total_staked is Some,
        ensures
            r == stake_ratio(self@.total_staked->Some_0, system_staked),
            r <= PERBILL_ONE,
    {
        let received_staked = self.total_staked.unwrap();
        match system_staked {
            Some(staked) => {
                proof {
                    lemma_rational_parts_bounded(received_staked, staked);
                }
                perbill_from_rational(received_staked, staked)
            },
            None => PERBILL_ONE,
        }
    }

    /// Begins staking `amount` of the signer's native currency for as much
    /// liquid token.
    pub fn stake(&self, origin: Origin, amount: Balance) -> (r: (Dispatch, Action))
        ensures
            (r.0@, r.1) == begin_stake(self.settings(), origin, amount),
    {
        match origin {
            Origin::Signed(who) => {
                let owner = self.account_id();
                (
                    Dispatch { stage: Stage::AwaitDeposit { who, amount } },
                    Action::Request(Request::Transfer { from: who, to: owner, amount }),
                )
            },
            _ => (Dispatch { stage: Stage::Finished }, Action::Done(Err(DispatchError::BadOrigin))),
        }
    }

    /// Begins nominating `validators` with the ledger's bond. Any origin may
    /// nominate.
    pub fn nominate(&self, origin: Origin, validators: Vec<AccountId>) -> (r: (Dispatch, Action))
        ensures
            r.0@ == (Stage::AwaitNomination { validators }),
            r.1 matches Action::Request(Request::Nominate { who, validators: v })
                && who == owner(self.settings()) && v@ == validators@,
    {
        let owner = self.account_id();
        let v = validators.clone();
        assert(v@ =~= validators@);
        (
            Dispatch { stage: Stage::AwaitNomination { validators } },
            Action::Request(Request::Nominate { who: owner, validators: v }),
        )
    }

    /// Begins unbonding `amount` of the signer's liquid token.
    pub fn unbound(&self, origin: Origin, amount: Balance) -> (r: (Dispatch, Action))
        ensures
            (r.0@, r.1) == begin_unbound(self.settings(), origin, amount),
    {
        match origin {
            Origin::Signed(who) => (
                Dispatch { stage: Stage::AwaitAssetBalance { who, amount } },
                Action::Request(Request::AssetBalance { asset: self.config.liquid_asset_id, who }),
            ),
            _ => (Dispatch { stage: Stage::Finished }, Action::Done(Err(DispatchError::BadOrigin))),
        }
    }

    /// Begins withdrawing the signer's last unbonding.
    pub fn withdraw_unbonded(&self, origin: Origin) -> (r: (Dispatch, Action))
        ensures
            (r.0@, r.1) == begin_withdraw(self@, origin),
    {
        match origin {
            Origin::Signed(who) => match self.unbonding(who) {
                Some(info) => (
                    Dispatch { stage: Stage::AwaitWithdrawEra { who, info } },
                    Action::Request(Request::CurrentEra),
                ),
                None => (
                    Dispatch { stage: Stage::Finished },
                    Action::Done(Err(DispatchError::Module(Error::WithdrawError))),
                ),
            },
            _ => (Dispatch { stage: Stage::Finished }, Action::Done(Err(DispatchError::BadOrigin))),
        }
    }

    /// Begins voting with the signer's liquid token, which the vote locks in
    /// the ledger's account.
    pub fn vote_with_liquid(&self, origin: Origin, ref_index: ReferendumIndex, vote: AccountVote) -> (r: (
        Dispatch,
        Action,
    ))
        ensures
            (r.0@, r.1) == begin_vote(self.settings(), origin, ref_index, vote),
    {
        match origin {
            Origin::Signed(who) => {
                let owner = self.account_id();
                let amount = vote.balance();
                (
                    Dispatch { stage: Stage::AwaitLock { who, ref_index, vote, amount } },
                    Action::Request(Request::TransferAsset {
                        asset: self.config.liquid_asset_id,
                        from: who,
                        to: owner,
                        amount,
                    }),
                )
            },
            _ => (Dispatch { stage: Stage::Finished }, Action::Done(Err(DispatchError::BadOrigin))),
        }
    }

    /// Whether `resume` may take `d` on `reply`: the reply answers the call's
    /// last request, and the step is not one where the call cannot go on (an
    /// unbonding that passes its checks in a ledger that was never staked
    /// into, or an unbonding era past `u32::MAX`).
    pub fn can_resume(&self, d: &Dispatch, reply: Reply) -> (r: bool)
        ensures
            r == (accepts(d@, reply) && !unbound_reads_missing_total(self@, d@, reply)
                && !unbound_era_overflows(d@, reply)),
    {
        match (&d.stage, reply) {
            (Stage::Finished, _) => false,
            (Stage::AwaitStakeQuery { .. }, Reply::TotalStake(_)) => true,
            (Stage::AwaitSystemStake { .. }, Reply::TotalStake(_)) => true,
            (Stage::AwaitStakeQuery { .. }, _) | (Stage::AwaitSystemStake { .. }, _) => false,
            (Stage::AwaitAssetBalance { who, amount }, Reply::Balance(balance)) => {
                let available = match self.voting(*who) {
                    Some(locked) => balance.saturating_sub(locked),
                    None => *amount,
                };
                !(*amount <= balance && *amount <= available && self.total_staked.is_none())
            },
            (Stage::AwaitAssetBalance { .. }, _) => false,
            (Stage::AwaitCurrentEra { .. }, Reply::Era(_)) => true,
            (Stage::AwaitWithdrawEra { .. }, Reply::Era(_)) => true,
            (Stage::AwaitBondingDuration { era, .. }, Reply::Era(duration)) => era.checked_add(duration).is_some(),
            (Stage::AwaitCurrentEra { .. }, _) | (Stage::AwaitWithdrawEra { .. }, _) | (
                Stage::AwaitBondingDuration { .. },
                _,
            ) => false,
            (_, Reply::Succeeded) | (_, Reply::Failed) => true,
            _ => false,
        }
    }

    /// A call refused with one of the ledger's errors.
    fn refused(e: Error) -> (r: (Dispatch, Action))
        ensures
            r.0@ == Stage::Finished,
            r.1 == Action::Done(Err(DispatchError::Module(e))),
    {
        (Dispatch { stage: Stage::Finished }, Action::Done(Err(DispatchError::Module(e))))
    }

    /// Takes a call one step further on the runtime's reply to its last
    /// request: records what the call has learnt, and answers the next request
    /// or the call's result. Storage is written only when the call succeeds.
    pub fn resume(&mut self, d: Dispatch, reply: Reply) -> (r: (Dispatch, Action))
        requires
            accepts(d@, reply),
            !unbound_reads_missing_total(old(self)@, d@, reply),
            !unbound_era_overflows(d@, reply),
        ensures
            final(self).settings() == old(self).settings(),
            (final(self)@, r.0@, r.1) == next(old(self).settings(), old(self)@, d@, reply),
    {
        let owner = self.account_id();
        let asset = self.config.liquid_asset_id;
        let succeeded = reply == Reply::Succeeded;
        match d.stage {
            Stage::AwaitDeposit { who, amount } => {
                if succeeded {
                    let total = match self.total_staked {
                        Some(t) => t.saturating_add(amount),
                        None => amount,
                    };
                    (
                        Dispatch { stage: Stage::AwaitMint { who, amount, total } },
                        Action::Request(Request::MintAsset { asset, who, amount }),
                    )
                } else {
                    Self::refused(Error::DepositFailed)
                }
            },
            Stage::AwaitMint { who, amount, total } => {
                if succeeded {
                    (
                        Dispatch { stage: Stage::AwaitStakeQuery { who, amount, total } },
                        Action::Request(Request::TotalStake { who: owner }),
                    )
                } else {
                    Self::refused(Error::AssetMintingFailed)
                }
            },
            Stage::AwaitStakeQuery { who, amount, total } => {
                if reply == Reply::TotalStake(None) {
                    (
                        Dispatch { stage: Stage::AwaitBond { who, amount, total, extra: false } },
                        Action::Request(
                            Request::Bond { stash: owner, controller: owner, value: amount, payee: owner },
                        ),
                    )
                } else {
                    (
                        Dispatch { stage: Stage::AwaitBond { who, amount, total, extra: true } },
                        Action::Request(Request::BondExtra { who: owner, extra: amount }),
                    )
                }
            },
            Stage::AwaitBond { who, amount, total, extra } => {
                if succeeded {
                    self.total_staked = Some(total);
                    (
                        Dispatch { stage: Stage::Finished },
                        Action::Done(Ok(Some(Event::BalanceStaked { account: who, amount }))),
                    )
                } else if extra {
                    Self::refused(Error::ErrorBondingExtra)
                } else {
                    Self::refused(Error::ErrorBonding)
                }
            },
            Stage::AwaitNomination { validators } => {
                if succeeded {
                    (
                        Dispatch { stage: Stage::Finished },
                        Action::Done(Ok(Some(Event::ValidatorsNominated { validators }))),
                    )
                } else {
                    Self::refused(Error::NominationFailed)
                }
            },
            Stage::AwaitAssetBalance { who, amount } => {
                let balance = match reply {
                    Reply::Balance(b) => b,
                    _ => 0,
                };
                // Business rule: funds locked in governance cannot be unbonded.
                let available = match self.voting(who) {
                    Some(locked) => balance.saturating_sub(locked),
                    None => amount,
                };
                if amount > balance {
                    Self::refused(Error::NotEnoughAssets)
                } else if amount > available {
                    Self::refused(Error::NotEnoughAssetsAvailable)
                } else {
                    let total = self.total_staked.unwrap();
                    (
                        Dispatch { stage: Stage::AwaitSystemStake { who, amount, total } },
                        Action::Request(Request::TotalStake { who: owner }),
                    )
                }
            },
            Stage::AwaitSystemStake { who, amount, total } => {
                let system = match reply {
                    Reply::TotalStake(s) => s,
                    _ => None,
                };
                let ratio = match system {
                    Some(staked) => {
                        proof {
                            lemma_rational_parts_bounded(total, staked);
                        }
                        perbill_from_rational(total, staked)
                    },
                    None => PERBILL_ONE,
                };
                let unbond = perbill_mul(ratio, amount);
                (
                    Dispatch { stage: Stage::AwaitCurrentEra { who, amount, total, unbond } },
                    Action::Request(Request::CurrentEra),
                )
            },
            Stage::AwaitCurrentEra { who, amount, total, unbond } => {
                let era = match reply {
                    Reply::Era(e) => e,
                    _ => 0,
                };
                (
                    Dispatch { stage: Stage::AwaitBondingDuration { who, amount, total, unbond, era } },
                    Action::Request(Request::BondingDuration),
                )
            },
            Stage::AwaitBondingDuration { who, amount, total, unbond, era } => {
                let duration = match reply {
                    Reply::Era(e) => e,
                    _ => 0,
                };
                let info = UnbondingInformation { balance: unbond, unbonding_era: era + duration };
                (
                    Dispatch { stage: Stage::AwaitUnbond { who, amount, total, info } },
                    Action::Request(Request::Unbond { who: owner, amount: unbond }),
                )
            },
            Stage::AwaitUnbond { who, amount, total, info } => {
                if succeeded {
                    (
                        Dispatch { stage: Stage::AwaitBurn { who, amount, total, info } },
                        Action::Request(Request::BurnAsset { asset, who, amount }),
                    )
                } else {
                    Self::refused(Error::ErrorUnbonding)
                }
            },
            Stage::AwaitBurn { who, amount, total, info } => {
                if succeeded {
                    self.unbonding.insert(who, info);
                    self.total_staked = Some(total.saturating_sub(amount));
                    (
                        Dispatch { stage: Stage::Finished },
                        Action::Done(
                            Ok(
                                Some(
                                    Event::StakeUnbonded {
                                        account: who,
                                        amount,
                                        unbonding_era: info.unbonding_era,
                                    },
                                ),
                            ),
                        ),
                    )
                } else {
                    Self::refused(Error::AssetNotBurnt)
                }
            },
            Stage::AwaitWithdrawEra { who, info } => {
                let current_era = match reply {
                    Reply::Era(e) => e,
                    _ => 0,
                };
                if info.unbonding_era <= current_era {
                    (
                        Dispatch { stage: Stage::AwaitWithdrawal { who, info } },
                        Action::Request(Request::WithdrawUnbonded { who: owner, num_slashing_spans: 10 }),
                    )
                } else {
                    Self::refused(Error::NotUnbondedYet)
                }
            },
            Stage::AwaitWithdrawal { who, info } => {
                if succeeded {
                    (
                        Dispatch { stage: Stage::AwaitPayout { who, info } },
                        Action::Request(Request::Transfer { from: owner, to: who, amount: info.balance }),
                    )
                } else {
                    Self::refused(Error::ErrorUnbonding)
                }
            },
            Stage::AwaitPayout { .. } => {
                if succeeded {
                    (Dispatch { stage: Stage::Finished }, Action::Done(Ok(None)))
                } else {
                    Self::refused(Error::BalanceWithdrawError)
                }
            },
            Stage::AwaitLock { who, ref_index, vote, amount } => {
                if succeeded {
                    (
                        Dispatch { stage: Stage::AwaitVote { who, ref_index, vote, amount } },
                        Action::Request(Request::Vote { who, ref_index, vote }),
                    )
                } else {
                    Self::refused(Error::AssetTransferError)
                }
            },
            Stage::AwaitVote { who, ref_index, vote, amount } => {
                if succeeded {
                    self.voting.insert(who, amount);
                    (
                        Dispatch { stage: Stage::Finished },
                        Action::Done(Ok(Some(Event::UserVoted { account: who, ref_index, amount }))),
                    )
                } else {
                    Self::refused(Error::GovernanceVotingError)
                }
            },
            Stage::Finished => Self::refused(Error::NoneValue),
        }
    }
}

} // verus!

