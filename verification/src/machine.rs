//! The ledger's calls as a state machine, in spec form.
//!
//! A call begins with `begin_*`, which yields the call's first stage and
//! action. While the action is a request, the runtime performs it and hands
//! back a reply; `next` takes the ledger, the stage and the reply to the next
//! ledger, stage and action. A call ends with `Action::Done`.
//!
//! Storage is written only when a call succeeds, at its last step: a refused
//! call leaves the ledger as it was, as the runtime's transactional dispatch
//! leaves storage after an error.
use vstd::prelude::*;
use crate::arith::{rational_parts, scaled, PERBILL_ONE};
use crate::model::{
    sat_add, sat_sub, AccountId, AccountVote, Action, Balance, Config, DispatchError, EraIndex, Error, Event,
    Origin, ReferendumIndex, Reply, Request, UnbondingInformation,
};

verus! {

/// The ledger's storage.
pub struct Ledger {
    /// The liquid token in circulation, as the ledger counts it; `None` before
    /// the first stake.
    pub total_staked: Option<Balance>,
    /// Liquid token that each account has locked in governance.
    pub voting: Map<AccountId, Balance>,
    /// The last unbonding of each account.
    pub unbonding: Map<AccountId, UnbondingInformation>,
}

/// Where a call stands: which reply it awaits, and what it has learnt so far.
pub enum Stage {
    /// `stake`: awaits the deposit of `amount` into the ledger's account.
    AwaitDeposit { who: AccountId, amount: Balance },
    /// `stake`: awaits the minting of the liquid token; `total` is the new total staked.
    AwaitMint { who: AccountId, amount: Balance, total: Balance },
    /// `stake`: awaits the ledger account's total in the staking system.
    AwaitStakeQuery { who: AccountId, amount: Balance, total: Balance },
    /// `stake`: awaits the bond (`extra` when adding to an existing one).
    AwaitBond { who: AccountId, amount: Balance, total: Balance, extra: bool },
    /// `nominate`: awaits the nomination.
    AwaitNomination { validators: Vec<AccountId> },
    /// `unbound`: awaits `who`'s balance of the liquid token.
    AwaitAssetBalance { who: AccountId, amount: Balance },
    /// `unbound`: awaits the ledger account's total in the staking system;
    /// `total` is the total staked.
    AwaitSystemStake { who: AccountId, amount: Balance, total: Balance },
    /// `unbound`: awaits the current era; `unbond` is the amount to unbond.
    AwaitCurrentEra { who: AccountId, amount: Balance, total: Balance, unbond: Balance },
    /// `unbound`: awaits the bonding duration.
    AwaitBondingDuration { who: AccountId, amount: Balance, total: Balance, unbond: Balance, era: EraIndex },
    /// `unbound`: awaits the unbonding in the staking system.
    AwaitUnbond { who: AccountId, amount: Balance, total: Balance, info: UnbondingInformation },
    /// `unbound`: awaits the burning of the liquid token.
    AwaitBurn { who: AccountId, amount: Balance, total: Balance, info: UnbondingInformation },
    /// `withdraw_unbonded`: awaits the current era.
    AwaitWithdrawEra { who: AccountId, info: UnbondingInformation },
    /// `withdraw_unbonded`: awaits the withdrawal from the staking system.
    AwaitWithdrawal { who: AccountId, info: UnbondingInformation },
    /// `withdraw_unbonded`: awaits the payout to `who`.
    AwaitPayout { who: AccountId, info: UnbondingInformation },
    /// `vote_with_liquid`: awaits the transfer of the liquid token to the ledger.
    AwaitLock { who: AccountId, ref_index: ReferendumIndex, vote: AccountVote, amount: Balance },
    /// `vote_with_liquid`: awaits the vote.
    AwaitVote { who: AccountId, ref_index: ReferendumIndex, vote: AccountVote, amount: Balance },
    /// The call has ended.
    Finished,
}

/// The little-endian value of a byte string.
pub open spec fn le_value(b: Seq<u8>) -> nat
    decreases b.len(),
{
    if b.len() == 0 {
        0
    } else {
        b[0] as nat + 256 * le_value(b.drop_first())
    }
}

/// The bytes that a pallet's account is decoded from: the type tag `modl`,
/// then the pallet identifier, padded with zeros.
pub open spec fn account_bytes(pallet_id: [u8; 8]) -> Seq<u8> {
    seq![0x6du8, 0x6fu8, 0x64u8, 0x6cu8] + pallet_id@
}

/// The account that belongs to the pallet with identifier `pallet_id`.
pub open spec fn pallet_account(pallet_id: [u8; 8]) -> AccountId {
    le_value(account_bytes(pallet_id)) as AccountId
}

/// `who`'s entry of a map, if there is one.
pub open spec fn entry<V>(m: Map<AccountId, V>, who: AccountId) -> Option<V> {
    if m.contains_key(who) {
        Some(m[who])
    } else {
        None
    }
}

/// The ledger's own account, which holds the deposited funds and bonds them.
pub open spec fn owner(cfg: Config) -> AccountId {
    pallet_account(cfg.pallet_id)
}

/// The total staked after a stake of `amount`.
pub open spec fn staked_total(current: Option<Balance>, amount: Balance) -> Balance {
    match current {
        Some(t) => sat_add(t, amount),
        None => amount,
    }
}

/// How much of a balance may be unbonded: what governance has not locked;
/// where nothing is locked, the whole amount asked for.
pub open spec fn available(balance: Balance, locked: Option<Balance>, amount: Balance) -> Balance {
    match locked {
        Some(v) => sat_sub(balance, v),
        None => amount,
    }
}

/// The ratio, in parts per billion, of the total staked to what the ledger's
/// account holds in the staking system; a whole where it holds nothing.
pub open spec fn stake_ratio(total: Balance, system: Option<Balance>) -> u32 {
    match system {
        Some(s) => rational_parts(total, s),
        None => PERBILL_ONE,
    }
}

/// The amount unbonded in the staking system for `amount` of liquid token.
pub open spec fn unbond_amount(total: Balance, system: Option<Balance>, amount: Balance) -> Balance {
    scaled(stake_ratio(total, system), amount) as Balance
}

/// A call refused with one of the ledger's errors.
pub open spec fn refuse(s: Ledger, e: Error) -> (Ledger, Stage, Action) {
    (s, Stage::Finished, Action::Done(Err(DispatchError::Module(e))))
}

/// A call that continues with a request.
pub open spec fn ask(s: Ledger, stage: Stage, req: Request) -> (Ledger, Stage, Action) {
    (s, stage, Action::Request(req))
}

/// The first step of `stake`.
pub open spec fn begin_stake(cfg: Config, origin: Origin, amount: Balance) -> (Stage, Action) {
    match origin {
        Origin::Signed(who) => (
            Stage::AwaitDeposit { who, amount },
            Action::Request(Request::Transfer { from: who, to: owner(cfg), amount }),
        ),
        _ => (Stage::Finished, Action::Done(Err(DispatchError::BadOrigin))),
    }
}

/// The first step of `unbound`.
pub open spec fn begin_unbound(cfg: Config, origin: Origin, amount: Balance) -> (Stage, Action) {
    match origin {
        Origin::Signed(who) => (
            Stage::AwaitAssetBalance { who, amount },
            Action::Request(Request::AssetBalance { asset: cfg.liquid_asset_id, who }),
        ),
        _ => (Stage::Finished, Action::Done(Err(DispatchError::BadOrigin))),
    }
}

/// The first step of `withdraw_unbonded`.
pub open spec fn begin_withdraw(s: Ledger, origin: Origin) -> (Stage, Action) {
    match origin {
        Origin::Signed(who) => if s.unbonding.contains_key(who) {
            (Stage::AwaitWithdrawEra { who, info: s.unbonding[who] }, Action::Request(Request::CurrentEra))
        } else {
            (Stage::Finished, Action::Done(Err(DispatchError::Module(Error::WithdrawError))))
        },
        _ => (Stage::Finished, Action::Done(Err(DispatchError::BadOrigin))),
    }
}

/// The first step of `vote_with_liquid`.
pub open spec fn begin_vote(
    cfg: Config,
    origin: Origin,
    ref_index: ReferendumIndex,
    vote: AccountVote,
) -> (Stage, Action) {
    match origin {
        Origin::Signed(who) => (
            Stage::AwaitLock { who, ref_index, vote, amount: vote.funds() },
            Action::Request(Request::TransferAsset {
                asset: cfg.liquid_asset_id,
                from: who,
                to: owner(cfg),
                amount: vote.funds(),
            }),
        ),
        _ => (Stage::Finished, Action::Done(Err(DispatchError::BadOrigin))),
    }
}

/// Whether `stage` awaits a reply of the kind of `reply`.
pub open spec fn accepts(stage: Stage, reply: Reply) -> bool {
    match stage {
        Stage::Finished => false,
        Stage::AwaitStakeQuery { .. } | Stage::AwaitSystemStake { .. } => reply is TotalStake,
        Stage::AwaitAssetBalance { .. } => reply is Balance,
        Stage::AwaitCurrentEra { .. } | Stage::AwaitBondingDuration { .. } | Stage::AwaitWithdrawEra {
            ..
        } => reply is Era,
        _ => reply is Succeeded || reply is Failed,
    }
}

/// `unbound` passes its checks on `who`'s balance, and the ledger has never
/// been staked into: there the call reads a total staked that is not there.
pub open spec fn unbound_reads_missing_total(s: Ledger, stage: Stage, reply: Reply) -> bool {
    &&& stage matches Stage::AwaitAssetBalance { who, amount }
    &&& reply matches Reply::Balance(b)
    &&& amount <= b
    &&& amount <= available(b, entry(s.voting, who), amount)
    &&& s.total_staked is None
}

/// `unbound` adds the bonding duration to the current era past `u32::MAX`.
pub open spec fn unbound_era_overflows(stage: Stage, reply: Reply) -> bool {
    &&& stage matches Stage::AwaitBondingDuration { era, .. }
    &&& reply matches Reply::Era(d)
    &&& era + d > u32::MAX
}

/// The step of a call from `stage` on `reply`, in a ledger `s`: the next
/// ledger, stage and action.
pub open spec fn next(cfg: Config, s: Ledger, stage: Stage, reply: Reply) -> (Ledger, Stage, Action) {
    let o = owner(cfg);
    let asset = cfg.liquid_asset_id;
    match stage {
        Stage::AwaitDeposit { who, amount } => if reply is Succeeded {
            let total = staked_total(s.total_staked, amount);
            ask(s, Stage::AwaitMint { who, amount, total }, Request::MintAsset { asset, who, amount })
        } else {
            refuse(s, Error::DepositFailed)
        },
        Stage::AwaitMint { who, amount, total } => if reply is Succeeded {
            ask(s, Stage::AwaitStakeQuery { who, amount, total }, Request::TotalStake { who: o })
        } else {
            refuse(s, Error::AssetMintingFailed)
        },
        Stage::AwaitStakeQuery { who, amount, total } => if reply == Reply::TotalStake(None) {
            ask(
                s,
                Stage::AwaitBond { who, amount, total, extra: false },
                Request::Bond { stash: o, controller: o, value: amount, payee: o },
            )
        } else {
            ask(
                s,
                Stage::AwaitBond { who, amount, total, extra: true },
                Request::BondExtra { who: o, extra: amount },
            )
        },
        Stage::AwaitBond { who, amount, total, extra } => if reply is Succeeded {
            (
                Ledger { total_staked: Some(total), ..s },
                Stage::Finished,
                Action::Done(Ok(Some(Event::BalanceStaked { account: who, amount }))),
            )
        } else if extra {
            refuse(s, Error::ErrorBondingExtra)
        } else {
            refuse(s, Error::ErrorBonding)
        },
        Stage::AwaitNomination { validators } => if reply is Succeeded {
            (s, Stage::Finished, Action::Done(Ok(Some(Event::ValidatorsNominated { validators }))))
        } else {
            refuse(s, Error::NominationFailed)
        },
        Stage::AwaitAssetBalance { who, amount } => {
            let b = reply->Balance_0;
            let locked = entry(s.voting, who);
            if amount > b {
                refuse(s, Error::NotEnoughAssets)
            } else if amount > available(b, locked, amount) {
                refuse(s, Error::NotEnoughAssetsAvailable)
            } else {
                ask(
                    s,
                    Stage::AwaitSystemStake { who, amount, total: s.total_staked->Some_0 },
                    Request::TotalStake { who: o },
                )
            }
        },
        Stage::AwaitSystemStake { who, amount, total } => {
            let unbond = unbond_amount(total, reply->TotalStake_0, amount);
            ask(s, Stage::AwaitCurrentEra { who, amount, total, unbond }, Request::CurrentEra)
        },
        Stage::AwaitCurrentEra { who, amount, total, unbond } => ask(
            s,
            Stage::AwaitBondingDuration { who, amount, total, unbond, era: reply->Era_0 },
            Request::BondingDuration,
        ),
        Stage::AwaitBondingDuration { who, amount, total, unbond, era } => {
            let info = UnbondingInformation {
                balance: unbond,
                unbonding_era: (era + reply->Era_0) as EraIndex,
            };
            ask(s, Stage::AwaitUnbond { who, amount, total, info }, Request::Unbond { who: o, amount: unbond })
        },
        Stage::AwaitUnbond { who, amount, total, info } => if reply is Succeeded {
            ask(s, Stage::AwaitBurn { who, amount, total, info }, Request::BurnAsset { asset, who, amount })
        } else {
            refuse(s, Error::ErrorUnbonding)
        },
        Stage::AwaitBurn { who, amount, total, info } => if reply is Succeeded {
            (
                Ledger {
                    total_staked: Some(sat_sub(total, amount)),
                    unbonding: s.unbonding.insert(who, info),
                    ..s
                },
                Stage::Finished,
                Action::Done(
                    Ok(
                        Some(
                            Event::StakeUnbonded {
                                account: who,
                                amount,
                                unbonding_era: info.unbonding_era,
                            },
                        ),
                    ),
                ),
            )
        } else {
            refuse(s, Error::AssetNotBurnt)
        },
        Stage::AwaitWithdrawEra { who, info } => if info.unbonding_era <= reply->Era_0 {
            ask(
                s,
                Stage::AwaitWithdrawal { who, info },
                Request::WithdrawUnbonded { who: o, num_slashing_spans: 10 },
            )
        } else {
            refuse(s, Error::NotUnbondedYet)
        },
        Stage::AwaitWithdrawal { who, info } => if reply is Succeeded {
            ask(s, Stage::AwaitPayout { who, info }, Request::Transfer { from: o, to: who, amount: info.balance })
        } else {
            refuse(s, Error::ErrorUnbonding)
        },
        Stage::AwaitPayout { .. } => if reply is Succeeded {
            (s, Stage::Finished, Action::Done(Ok(None)))
        } else {
            refuse(s, Error::BalanceWithdrawError)
        },
        Stage::AwaitLock { who, ref_index, vote, amount } => if reply is Succeeded {
            ask(s, Stage::AwaitVote { who, ref_index, vote, amount }, Request::Vote { who, ref_index, vote })
        } else {
            refuse(s, Error::AssetTransferError)
        },
        Stage::AwaitVote { who, ref_index, vote, amount } => if reply is Succeeded {
            (
                Ledger { voting: s.voting.insert(who, amount), ..s },
                Stage::Finished,
                Action::Done(Ok(Some(Event::UserVoted { account: who, ref_index, amount }))),
            )
        } else {
            refuse(s, Error::GovernanceVotingError)
        },
        // A finished call accepts no reply (see `accepts`).
        Stage::Finished => (s, Stage::Finished, Action::Done(Err(DispatchError::Module(Error::NoneValue)))),
    }
}

} // verus!
