//! The values that the ledger stores, the requests it makes of the runtime,
//! the replies it takes back, and the results it reports.
use vstd::prelude::*;

verus! {

pub type AccountId = u128;

pub type Balance = u64;

pub type EraIndex = u32;

pub type AssetId = u32;

pub type ReferendumIndex = u32;

/// The constants the ledger is configured with.
#[derive(Clone, Copy, Debug)]
pub struct Config {
    /// The identifier from which the ledger's own account is derived.
    pub pallet_id: [u8; 8],
    /// The asset that represents staked funds.
    pub liquid_asset_id: AssetId,
}

/// Who dispatched a call.
#[derive(Clone, Copy, PartialEq, Eq, Structural, Debug)]
pub enum Origin {
    Root,
    Signed(AccountId),
    Unsigned,
}

/// A governance vote: in favour or against, with a conviction level
/// (0 for no lock up to 6 for the longest lock).
#[derive(Clone, Copy, PartialEq, Eq, Structural, Debug)]
pub struct Vote {
    pub aye: bool,
    pub conviction: u8,
}

/// A vote cast by an account in a referendum, with the funds behind it.
#[derive(Clone, Copy, PartialEq, Eq, Structural, Debug)]
pub enum AccountVote {
    Standard { vote: Vote, balance: Balance },
    Split { aye: Balance, nay: Balance },
}

/// `a + b`, saturating at `u64::MAX`.
pub open spec fn sat_add(a: u64, b: u64) -> u64 {
    if a + b > u64::MAX {
        u64::MAX
    } else {
        (a + b) as u64
    }
}

/// `a - b`, saturating at zero.
pub open spec fn sat_sub(a: u64, b: u64) -> u64 {
    if a < b {
        0
    } else {
        (a - b) as u64
    }
}

impl AccountVote {
    /// The funds the vote stands for: the balance of a standard vote, the sum
    /// of both sides of a split vote.
    pub open spec fn funds(self) -> Balance {
        match self {
            AccountVote::Standard { balance, .. } => balance,
            AccountVote::Split { aye, nay } => sat_add(aye, nay),
        }
    }

    /// The funds the vote stands for.
    pub fn balance(self) -> (r: Balance)
        ensures
            r == self.funds(),
    {
        match self {
            AccountVote::Standard { balance, .. } => balance,
            AccountVote::Split { aye, nay } => aye.saturating_add(nay),
        }
    }
}

/// Funds on their way out of the staking system: how much, and from which era
/// on they can be withdrawn.
#[derive(Clone, Copy, PartialEq, Eq, Structural, Debug)]
pub struct UnbondingInformation {
    pub balance: Balance,
    pub unbonding_era: EraIndex,
}

/// A staker's balance and its share of the pool, in parts per billion.
#[derive(Clone, Copy, PartialEq, Eq, Structural, Debug)]
pub struct UserStakeData {
    pub balance: Balance,
    pub percentage: u32,
}

/// The ledger's own errors.
#[derive(Clone, Copy, PartialEq, Eq, Structural, Debug)]
pub enum Error {
    /// No value where one was expected.
    NoneValue,
    /// A stored value would overflow.
    StorageOverflow,
    /// Error during Unbound
    ErrorUnbonding,
    /// Error during bonding funds
    ErrorBonding,
    /// Error bonding extra funds
    ErrorBondingExtra,
    /// Error during withdrawing of bonds
    WithdrawError,
    /// User trying to claim more assets than staked
    NotEnoughAssets,
    /// Not enough available assets to unbond
    NotEnoughAssetsAvailable,
    /// Error burning asset
    AssetNotBurnt,
    /// Error withdrawing native balance
    BalanceWithdrawError,
    /// Nomination failed
    NominationFailed,
    /// Error minting liquid asset
    AssetMintingFailed,
    /// Error depositing native asset
    DepositFailed,
    /// Error transferring liquid asset
    AssetTransferError,
    /// Governance voting failed
    GovernanceVotingError,
    /// Funds were not unbonded yet
    NotUnbondedYet,
}

/// Why a call was refused: a call that needs a signed origin got another one,
/// or the ledger refused it with one of its own errors.
#[derive(Clone, Copy, PartialEq, Eq, Structural, Debug)]
pub enum DispatchError {
    BadOrigin,
    Module(Error),
}

/// What a successful call reports.
#[derive(Clone, PartialEq, Debug)]
pub enum Event {
    /// User deposited balance
    BalanceStaked { account: AccountId, amount: Balance },
    /// Validators nominated
    ValidatorsNominated { validators: Vec<AccountId> },
    /// Funds unbonded
    StakeUnbonded { account: AccountId, amount: Balance, unbonding_era: EraIndex },
    /// User voted
    UserVoted { account: AccountId, ref_index: ReferendumIndex, amount: Balance },
}

/// An operation that the ledger asks the runtime to perform, or a question it
/// asks of it.
#[derive(Clone, PartialEq, Debug)]
pub enum Request {
    /// Move native currency, keeping the sender alive.
    Transfer { from: AccountId, to: AccountId, amount: Balance },
    /// Create `amount` of `asset` in `who`'s account.
    MintAsset { asset: AssetId, who: AccountId, amount: Balance },
    /// Destroy `amount` of `asset` in `who`'s account.
    BurnAsset { asset: AssetId, who: AccountId, amount: Balance },
    /// Move an asset, keeping the sender alive.
    TransferAsset { asset: AssetId, from: AccountId, to: AccountId, amount: Balance },
    /// Ask for `who`'s balance of `asset`; answered by `Reply::Balance`.
    AssetBalance { asset: AssetId, who: AccountId },
    /// Ask for the total that `who` has in the staking system (bonded or
    /// unbonding); answered by `Reply::TotalStake`.
    TotalStake { who: AccountId },
    /// Bond `value` of `stash` for staking.
    Bond { stash: AccountId, controller: AccountId, value: Balance, payee: AccountId },
    /// Add `extra` to what `who` has bonded.
    BondExtra { who: AccountId, extra: Balance },
    /// Schedule `amount` of `who`'s bond to be unlocked.
    Unbond { who: AccountId, amount: Balance },
    /// Withdraw what has finished unbonding.
    WithdrawUnbonded { who: AccountId, num_slashing_spans: u32 },
    /// Nominate validators with `who`'s bond.
    Nominate { who: AccountId, validators: Vec<AccountId> },
    /// Ask for the current era; answered by `Reply::Era`.
    CurrentEra,
    /// Ask for the number of eras that unbonding takes; answered by `Reply::Era`.
    BondingDuration,
    /// Cast `vote` for `who` in referendum `ref_index`.
    Vote { who: AccountId, ref_index: ReferendumIndex, vote: AccountVote },
}

/// The runtime's answer to a request.
#[derive(Clone, Copy, PartialEq, Eq, Structural, Debug)]
pub enum Reply {
    /// The operation was performed.
    Succeeded,
    /// The operation failed.
    Failed,
    /// An asset balance.
    Balance(Balance),
    /// A total in the staking system, `None` for an account that has none.
    TotalStake(Option<Balance>),
    /// An era index, or a number of eras.
    Era(EraIndex),
}

/// What the ledger does next: make a request of the runtime, or finish the
/// call with its result (and the event that a success reports).
#[derive(PartialEq, Debug)]
pub enum Action {
    Request(Request),
    Done(Result<Option<Event>, DispatchError>),
}

} // verus!
