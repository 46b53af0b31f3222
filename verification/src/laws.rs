//! Properties of the ledger as a whole, over the state machine of `machine`.
use vstd::prelude::*;
use crate::arith::{lemma_rational_parts_bounded, lemma_scaled_bounded, scaled, PERBILL_ONE};
use crate::machine::{
    account_bytes, pallet_account, accepts, available, entry, begin_stake, begin_unbound, begin_vote, begin_withdraw, next, owner,
    stake_ratio, staked_total, unbond_amount, Ledger, Stage,
};
use crate::model::{
    sat_add, sat_sub, AccountId, AccountVote, Action, Balance, Config, DispatchError, EraIndex, Error,
    Event, Origin, ReferendumIndex, Reply, Request, UnbondingInformation,
};

verus! {

/// The steps of a call from `stage` on the replies `replies`, in turn: the
/// ledger and stage after them, and the actions they answered.
pub open spec fn run(cfg: Config, s: Ledger, stage: Stage, replies: Seq<Reply>) -> (Ledger, Stage, Seq<Action>)
    decreases replies.len(),
{
    if replies.len() == 0 {
        (s, stage, Seq::empty())
    } else {
        let (s1, stage1, a1) = next(cfg, s, stage, replies[0]);
        let (s2, stage2, rest) = run(cfg, s1, stage1, replies.drop_first());
        (s2, stage2, seq![a1] + rest)
    }
}

/// Storage changes only when a call succeeds: a step that asks the runtime
/// for more, or that refuses the call, leaves the ledger as it was, and a call
/// that is done is finished.
pub proof fn lemma_only_success_writes(cfg: Config, s: Ledger, stage: Stage, reply: Reply)
    requires
        accepts(stage, reply),
    ensures
        !(next(cfg, s, stage, reply).2 matches Action::Done(Ok(_))) ==> next(cfg, s, stage, reply).0 == s,
        next(cfg, s, stage, reply).2 is Done ==> next(cfg, s, stage, reply).1 is Finished,
        next(cfg, s, stage, reply).2 is Request ==> !(next(cfg, s, stage, reply).1 is Finished),
{
}

/// No step forgets an account: the governance locks and the unbondings on
/// record stay on record, and a total staked, once there, stays there.
pub proof fn lemma_records_persist(cfg: Config, s: Ledger, stage: Stage, reply: Reply)
    requires
        accepts(stage, reply),
    ensures
        s.voting.dom().subset_of(next(cfg, s, stage, reply).0.voting.dom()),
        s.unbonding.dom().subset_of(next(cfg, s, stage, reply).0.unbonding.dom()),
        s.total_staked is Some ==> next(cfg, s, stage, reply).0.total_staked is Some,
{
}

/// A stake of `amount` by `who` that the runtime carries out: the ledger takes
/// `amount` of native currency into its account, mints `amount` of liquid token
/// to `who`, bonds `amount` (a first bond when the ledger's account has nothing
/// in the staking system, an extra bond otherwise), and adds `amount` to the
/// total staked, saturating. Nothing else in storage changes.
pub proof fn lemma_stake_run(cfg: Config, s: Ledger, who: AccountId, amount: Balance, system: Option<Balance>)
    ensures
        ({
            let (stage0, a0) = begin_stake(cfg, Origin::Signed(who), amount);
            let o = owner(cfg);
            let bond = if system is None {
                Request::Bond { stash: o, controller: o, value: amount, payee: o }
            } else {
                Request::BondExtra { who: o, extra: amount }
            };
            &&& a0 == Action::Request(Request::Transfer { from: who, to: o, amount })
            &&& run(
                cfg,
                s,
                stage0,
                seq![Reply::Succeeded, Reply::Succeeded, Reply::TotalStake(system), Reply::Succeeded],
            ) == (
                Ledger { total_staked: Some(staked_total(s.total_staked, amount)), ..s },
                Stage::Finished,
                seq![
                    Action::Request(Request::MintAsset { asset: cfg.liquid_asset_id, who, amount }),
                    Action::Request(Request::TotalStake { who: o }),
                    Action::Request(bond),
                    Action::Done(Ok(Some(Event::BalanceStaked { account: who, amount }))),
                ],
            )
        }),
{
    reveal_with_fuel(run, 5);
    let stage0 = begin_stake(cfg, Origin::Signed(who), amount).0;
    let replies = seq![Reply::Succeeded, Reply::Succeeded, Reply::TotalStake(system), Reply::Succeeded];
    assert(replies.drop_first() =~= seq![Reply::Succeeded, Reply::TotalStake(system), Reply::Succeeded]);
    assert(replies.drop_first().drop_first() =~= seq![Reply::TotalStake(system), Reply::Succeeded]);
    assert(replies.drop_first().drop_first().drop_first() =~= seq![Reply::Succeeded]);
    assert(replies.drop_first().drop_first().drop_first().drop_first() =~= Seq::<Reply>::empty());
    let r = run(cfg, s, stage0, replies);
    assert(r.2 =~= seq![
        Action::Request(Request::MintAsset { asset: cfg.liquid_asset_id, who, amount }),
        Action::Request(Request::TotalStake { who: owner(cfg) }),
        Action::Request(
            if system is None {
                Request::Bond { stash: owner(cfg), controller: owner(cfg), value: amount, payee: owner(cfg) }
            } else {
                Request::BondExtra { who: owner(cfg), extra: amount }
            },
        ),
        Action::Done(Ok(Some(Event::BalanceStaked { account: who, amount }))),
    ]);
}

/// An unbonding of `amount` by `who` that passes its checks and that the
/// runtime carries out: the ledger asks for its account's total in the staking
/// system, the current era and the bonding duration; unbonds its share of
/// `amount` (`unbond_amount`) from the staking system; burns `amount` of `who`'s
/// liquid token; records the unbonding for `who`, withdrawable from the current
/// era plus the bonding duration; and takes `amount` from the total staked,
/// saturating. Nothing else in storage changes.
pub proof fn lemma_unbound_run(
    cfg: Config,
    s: Ledger,
    who: AccountId,
    amount: Balance,
    balance: Balance,
    system: Option<Balance>,
    era: EraIndex,
    duration: EraIndex,
)
    requires
        s.total_staked is Some,
        amount <= balance,
        amount <= available(balance, entry(s.voting, who), amount),
        era + duration <= u32::MAX,
    ensures
        ({
            let (stage0, a0) = begin_unbound(cfg, Origin::Signed(who), amount);
            let o = owner(cfg);
            let total = s.total_staked->Some_0;
            let info = UnbondingInformation {
                balance: unbond_amount(total, system, amount),
                unbonding_era: (era + duration) as EraIndex,
            };
            &&& a0 == Action::Request(Request::AssetBalance { asset: cfg.liquid_asset_id, who })
            &&& run(
                cfg,
                s,
                stage0,
                seq![
                    Reply::Balance(balance),
                    Reply::TotalStake(system),
                    Reply::Era(era),
                    Reply::Era(duration),
                    Reply::Succeeded,
                    Reply::Succeeded,
                ],
            ) == (
                Ledger {
                    total_staked: Some(sat_sub(total, amount)),
                    unbonding: s.unbonding.insert(who, info),
                    ..s
                },
                Stage::Finished,
                seq![
                    Action::Request(Request::TotalStake { who: o }),
                    Action::Request(Request::CurrentEra),
                    Action::Request(Request::BondingDuration),
                    Action::Request(Request::Unbond { who: o, amount: info.balance }),
                    Action::Request(Request::BurnAsset { asset: cfg.liquid_asset_id, who, amount }),
                    Action::Done(
                        Ok(
                            Some(
                                Event::StakeUnbonded {
                                    account: who,
                                    amount,
                                    unbonding_era: info.unbonding_era,
                                },
                            ),
                        ),
                    ),
                ],
            )
        }),
{
    reveal_with_fuel(run, 7);
    let stage0 = begin_unbound(cfg, Origin::Signed(who), amount).0;
    let replies = seq![
        Reply::Balance(balance),
        Reply::TotalStake(system),
        Reply::Era(era),
        Reply::Era(duration),
        Reply::Succeeded,
        Reply::Succeeded,
    ];
    let r1 = replies.drop_first();
    let r2 = r1.drop_first();
    let r3 = r2.drop_first();
    let r4 = r3.drop_first();
    let r5 = r4.drop_first();
    let r6 = r5.drop_first();
    assert(r1 =~= seq![Reply::TotalStake(system), Reply::Era(era), Reply::Era(duration), Reply::Succeeded, Reply::Succeeded]);
    assert(r2 =~= seq![Reply::Era(era), Reply::Era(duration), Reply::Succeeded, Reply::Succeeded]);
    assert(r3 =~= seq![Reply::Era(duration), Reply::Succeeded, Reply::Succeeded]);
    assert(r4 =~= seq![Reply::Succeeded, Reply::Succeeded]);
    assert(r5 =~= seq![Reply::Succeeded]);
    assert(r6 =~= Seq::<Reply>::empty());
    let total = s.total_staked->Some_0;
    let info = UnbondingInformation {
        balance: unbond_amount(total, system, amount),
        unbonding_era: (era + duration) as EraIndex,
    };
    let r = run(cfg, s, stage0, replies);
    assert(r.2 =~= seq![
        Action::Request(Request::TotalStake { who: owner(cfg) }),
        Action::Request(Request::CurrentEra),
        Action::Request(Request::BondingDuration),
        Action::Request(Request::Unbond { who: owner(cfg), amount: info.balance }),
        Action::Request(Request::BurnAsset { asset: cfg.liquid_asset_id, who, amount }),
        Action::Done(Ok(Some(Event::StakeUnbonded { account: who, amount, unbonding_era: info.unbonding_era }))),
    ]);
}

/// Liquid token locked in governance cannot be unbonded: an unbonding of a
/// non-zero `amount` by an account with a lock goes past its checks only where
/// its balance covers both the lock and `amount`.
pub proof fn lemma_locked_funds_stay(cfg: Config, s: Ledger, who: AccountId, amount: Balance, balance: Balance)
    requires
        s.voting.contains_key(who),
        amount > 0,
    ensures
        next(cfg, s, Stage::AwaitAssetBalance { who, amount }, Reply::Balance(balance)).2 is Request
            ==> amount + s.voting[who] <= balance,
        amount + s.voting[who] > balance ==> next(
            cfg,
            s,
            Stage::AwaitAssetBalance { who, amount },
            Reply::Balance(balance),
        ).2 == Action::Done(Err(DispatchError::Module(
            if amount > balance { Error::NotEnoughAssets } else { Error::NotEnoughAssetsAvailable },
        ))),
{
}

/// The ledger never unbonds more from the staking system than the liquid
/// token it burns; where its count of stake matches what it holds in the
/// staking system, or it holds nothing there, it unbonds exactly that much.
pub proof fn lemma_unbond_amount_bounded(total: Balance, system: Option<Balance>, amount: Balance)
    ensures
        unbond_amount(total, system, amount) <= amount,
        unbond_amount(total, system, amount) == scaled(stake_ratio(total, system), amount),
        system == Some(total) || system is None ==> unbond_amount(total, system, amount) == amount,
{
    match system {
        Some(sys) => lemma_rational_parts_bounded(total, sys),
        None => {},
    }
    lemma_scaled_bounded(stake_ratio(total, system), amount);
    if system == Some(total) {
        if total > 0 {
            assert((PERBILL_ONE as int) * (total as int) / (total as int) == PERBILL_ONE as int) by (nonlinear_arith)
                requires total > 0;
        }
        assert(stake_ratio(total, system) == PERBILL_ONE);
    }
    if stake_ratio(total, system) == PERBILL_ONE {
        let n = (amount as int) * (PERBILL_ONE as int);
        assert(n / (PERBILL_ONE as int) == amount as int && n % (PERBILL_ONE as int) == 0) by (nonlinear_arith)
            requires n == (amount as int) * (PERBILL_ONE as int);
    }
}

/// Unbonding what was staked takes the total staked back where it was, as
/// long as the stake did not saturate it.
pub proof fn lemma_unbound_undoes_stake(total: Balance, amount: Balance)
    requires
        total + amount <= u64::MAX,
    ensures
        sat_sub(staked_total(Some(total), amount), amount) == total,
        sat_sub(staked_total(None, amount), amount) == 0,
{
}

/// A withdrawal before the recorded unbonding era is refused, and one from that
/// era on withdraws from the staking system and pays `who` the recorded amount,
/// leaving storage as it was. An account with no unbonding on record cannot
/// withdraw.
pub proof fn lemma_withdraw_run(cfg: Config, s: Ledger, who: AccountId, current_era: EraIndex)
    ensures
        !s.unbonding.contains_key(who) ==> begin_withdraw(s, Origin::Signed(who)).1
            == Action::Done(Err(DispatchError::Module(Error::WithdrawError))),
        s.unbonding.contains_key(who) ==> ({
            let info = s.unbonding[who];
            let o = owner(cfg);
            let (stage0, a0) = begin_withdraw(s, Origin::Signed(who));
            &&& a0 == Action::Request(Request::CurrentEra)
            &&& current_era < info.unbonding_era ==> run(cfg, s, stage0, seq![Reply::Era(current_era)]) == (
                s,
                Stage::Finished,
                seq![Action::Done(Err(DispatchError::Module(Error::NotUnbondedYet)))],
            )
            &&& info.unbonding_era <= current_era ==> run(
                cfg,
                s,
                stage0,
                seq![Reply::Era(current_era), Reply::Succeeded, Reply::Succeeded],
            ) == (
                s,
                Stage::Finished,
                seq![
                    Action::Request(Request::WithdrawUnbonded { who: o, num_slashing_spans: 10 }),
                    Action::Request(Request::Transfer { from: o, to: who, amount: info.balance }),
                    Action::Done(Ok(None)),
                ],
            )
        }),
{
    reveal_with_fuel(run, 4);
    let one = seq![Reply::Era(current_era)];
    assert(one.drop_first() =~= Seq::<Reply>::empty());
    let three = seq![Reply::Era(current_era), Reply::Succeeded, Reply::Succeeded];
    assert(three.drop_first() =~= seq![Reply::Succeeded, Reply::Succeeded]);
    assert(three.drop_first().drop_first() =~= seq![Reply::Succeeded]);
    assert(three.drop_first().drop_first().drop_first() =~= Seq::<Reply>::empty());
    if s.unbonding.contains_key(who) {
        let info = s.unbonding[who];
        let stage0 = begin_withdraw(s, Origin::Signed(who)).0;
        let r1 = run(cfg, s, stage0, one);
        assert(r1.2 =~= seq![Action::Done(Err(DispatchError::Module(Error::NotUnbondedYet)))] || info.unbonding_era <= current_era);
        let r3 = run(cfg, s, stage0, three);
        assert(r3.2 =~= seq![
            Action::Request(Request::WithdrawUnbonded { who: owner(cfg), num_slashing_spans: 10 }),
            Action::Request(Request::Transfer { from: owner(cfg), to: who, amount: info.balance }),
            Action::Done(Ok(None)),
        ] || current_era < info.unbonding_era);
    }
}

/// A vote that the runtime carries out locks the vote's funds: the ledger
/// moves that much of `who`'s liquid token into its own account, casts the
/// vote, and records the lock for `who`. Nothing else in storage changes.
pub proof fn lemma_vote_run(cfg: Config, s: Ledger, who: AccountId, ref_index: ReferendumIndex, vote: AccountVote)
    ensures
        ({
            let (stage0, a0) = begin_vote(cfg, Origin::Signed(who), ref_index, vote);
            let amount = vote.funds();
            &&& a0 == Action::Request(Request::TransferAsset {
                asset: cfg.liquid_asset_id,
                from: who,
                to: owner(cfg),
                amount,
            })
            &&& run(cfg, s, stage0, seq![Reply::Succeeded, Reply::Succeeded]) == (
                Ledger { voting: s.voting.insert(who, amount), ..s },
                Stage::Finished,
                seq![
                    Action::Request(Request::Vote { who, ref_index, vote }),
                    Action::Done(Ok(Some(Event::UserVoted { account: who, ref_index, amount }))),
                ],
            )
        }),
{
    reveal_with_fuel(run, 3);
    let two = seq![Reply::Succeeded, Reply::Succeeded];
    assert(two.drop_first() =~= seq![Reply::Succeeded]);
    assert(two.drop_first().drop_first() =~= Seq::<Reply>::empty());
    let stage0 = begin_vote(cfg, Origin::Signed(who), ref_index, vote).0;
    let r = run(cfg, s, stage0, two);
    assert(r.2 =~= seq![
        Action::Request(Request::Vote { who, ref_index, vote }),
        Action::Done(Ok(Some(Event::UserVoted { account: who, ref_index, amount: vote.funds() }))),
    ]);
}

/// Only a signed origin may stake, unbond, withdraw or vote.
pub proof fn lemma_unsigned_refused(cfg: Config, s: Ledger, origin: Origin, amount: Balance, ref_index: ReferendumIndex, vote: AccountVote)
    requires
        !(origin is Signed),
    ensures
        begin_stake(cfg, origin, amount).1 == Action::Done(Err(DispatchError::BadOrigin)),
        begin_unbound(cfg, origin, amount).1 == Action::Done(Err(DispatchError::BadOrigin)),
        begin_withdraw(s, origin).1 == Action::Done(Err(DispatchError::BadOrigin)),
        begin_vote(cfg, origin, ref_index, vote).1 == Action::Done(Err(DispatchError::BadOrigin)),
{
}

/// An unbonding that the account's liquid balance covers, beyond what it has
/// locked in governance, passes its checks: with a lock `v` and a balance `b`,
/// a non-zero `amount` with `amount + v <= b` goes on to ask for the ledger
/// account's stake in the staking system; so does any `amount <= b` of an
/// account with no lock.
pub proof fn lemma_unlocked_funds_unbond(cfg: Config, s: Ledger, who: AccountId, amount: Balance, balance: Balance)
    requires
        s.total_staked is Some,
        amount <= balance,
        s.voting.contains_key(who) ==> 0 < amount && amount + s.voting[who] <= balance,
    ensures
        next(cfg, s, Stage::AwaitAssetBalance { who, amount }, Reply::Balance(balance)) == (
            s,
            Stage::AwaitSystemStake { who, amount, total: s.total_staked->Some_0 },
            Action::Request(Request::TotalStake { who: owner(cfg) }),
        ),
{
}

/// What a lock leaves free to unbond: the balance less the lock, or nothing
/// where the lock exceeds the balance; without a lock, the whole amount asked.
pub proof fn lemma_available_value(balance: Balance, locked: Balance, amount: Balance)
    ensures
        locked <= balance ==> available(balance, Some(locked), amount) == balance - locked,
        locked > balance ==> available(balance, Some(locked), amount) == 0,
        available(balance, None, amount) == amount,
{
}

/// The ratio of the total staked to the ledger's stake `system` in the staking
/// system is `floor(10^9 * total / system)` parts where `0 < system` and
/// `total <= system`, and a whole otherwise (no stake there, or more counted
/// than held).
pub proof fn lemma_stake_ratio_value(total: Balance, system: Balance)
    ensures
        0 < system && total <= system ==> stake_ratio(total, Some(system)) as int
            == 1_000_000_000 * (total as int) / (system as int),
        system == 0 || total > system ==> stake_ratio(total, Some(system)) == 1_000_000_000,
        stake_ratio(total, None) == 1_000_000_000,
{
    lemma_rational_parts_bounded(total, system);
}

/// The amount unbonded for `amount` of liquid token is `amount` scaled by
/// `floor(10^9 * total / system)` parts per billion, rounded to the nearest
/// integer with ties down, where `0 < system` and `total <= system`.
pub proof fn lemma_unbond_amount_value(total: Balance, system: Balance, amount: Balance)
    requires
        0 < system,
        total <= system,
    ensures
        ({
            let parts = 1_000_000_000 * (total as int) / (system as int);
            let n = (amount as int) * parts;
            let q = n / 1_000_000_000;
            unbond_amount(total, Some(system), amount) as int == if n % 1_000_000_000 > 500_000_000 {
                q + 1
            } else {
                q
            }
        }),
{
    lemma_rational_parts_bounded(total, system);
    lemma_unbond_amount_bounded(total, Some(system), amount);
}

/// The funds of a vote: a standard vote's balance, whatever its direction and
/// conviction; both sides of a split vote, saturating at `u64::MAX`.
pub proof fn lemma_vote_funds(vote: crate::model::Vote, balance: Balance, aye: Balance, nay: Balance)
    ensures
        (AccountVote::Standard { vote, balance }).funds() == balance,
        aye + nay <= u64::MAX ==> (AccountVote::Split { aye, nay }).funds() == aye + nay,
        aye + nay > u64::MAX ==> (AccountVote::Split { aye, nay }).funds() == u64::MAX,
{
}

/// A stake of `amount` adds `amount` to the total staked, saturating at
/// `u64::MAX`, whatever the total (zero included); the first stake sets it.
pub proof fn lemma_staked_total_value(total: Balance, amount: Balance)
    ensures
        total + amount <= u64::MAX ==> staked_total(Some(total), amount) == total + amount,
        total + amount > u64::MAX ==> staked_total(Some(total), amount) == u64::MAX,
        staked_total(None, amount) == amount,
{
}

/// The pallet's account is read, little-endian, from the bytes `modl`, then
/// the pallet identifier unchanged, then zeros; the ledger's own account is
/// that of its configured identifier.
pub proof fn lemma_pallet_account_value(id: [u8; 8], cfg: Config)
    ensures
        owner(cfg) == pallet_account(cfg.pallet_id),
        account_bytes(id).len() == 12,
        forall|i: int| 0 <= i < 8 ==> account_bytes(id)[4 + i] == id@[i],
        pallet_account(id) as int == 0x6c646f6d + 0x1_0000_0000 * (
            id@[0] as int
            + 0x100 * id@[1] as int
            + 0x1_0000 * id@[2] as int
            + 0x100_0000 * id@[3] as int
            + 0x1_0000_0000 * id@[4] as int
            + 0x100_0000_0000 * id@[5] as int
            + 0x1_0000_0000_0000 * id@[6] as int
            + 0x100_0000_0000_0000 * id@[7] as int
        ),
{
    let b = account_bytes(id);
    reveal_with_fuel(crate::machine::le_value, 13);
    assert(b.drop_first().drop_first().drop_first().drop_first() =~= id@);
    let d = id@;
    assert(d.drop_first() =~= seq![d[1], d[2], d[3], d[4], d[5], d[6], d[7]]);
    assert(d.drop_first().drop_first() =~= seq![d[2], d[3], d[4], d[5], d[6], d[7]]);
    assert(d.drop_first().drop_first().drop_first() =~= seq![d[3], d[4], d[5], d[6], d[7]]);
    assert(d.drop_first().drop_first().drop_first().drop_first() =~= seq![d[4], d[5], d[6], d[7]]);
    assert(d.drop_first().drop_first().drop_first().drop_first().drop_first() =~= seq![d[5], d[6], d[7]]);
    assert(d.drop_first().drop_first().drop_first().drop_first().drop_first().drop_first() =~= seq![d[6], d[7]]);
    assert(d.drop_first().drop_first().drop_first().drop_first().drop_first().drop_first().drop_first() =~= seq![d[7]]);
    assert(d.drop_first().drop_first().drop_first().drop_first().drop_first().drop_first().drop_first().drop_first() =~= Seq::<u8>::empty());
}

/// Saturating arithmetic on balances: the exact sum or difference where it
/// fits, else the bound it passed.
pub proof fn lemma_saturating_value(a: Balance, b: Balance)
    ensures
        a + b <= u64::MAX ==> sat_add(a, b) == a + b,
        a + b > u64::MAX ==> sat_add(a, b) == u64::MAX,
        b <= a ==> sat_sub(a, b) == a - b,
        b > a ==> sat_sub(a, b) == 0,
{
}

/// An account's entry of a map is its value where the account is in the map,
/// and nothing where it is not.
pub proof fn lemma_entry_value<V>(m: Map<AccountId, V>, who: AccountId)
    ensures
        m.contains_key(who) ==> entry(m, who) == Some(m[who]),
        !m.contains_key(who) ==> entry(m, who) is None,
{
}

/// Which replies a step takes: a stake query answers only with a total in the
/// staking system, a balance query only with a balance, an era query only with
/// an era, and every other request only with success or failure. An unbonding
/// can go on unless it passes its checks in a ledger never staked into, or its
/// era passes `u32::MAX`.
pub proof fn lemma_accepted_replies(s: Ledger, stage: Stage, reply: Reply)
    ensures
        stage is Finished ==> !accepts(stage, reply),
        (stage is AwaitStakeQuery || stage is AwaitSystemStake) ==> (accepts(stage, reply) <==> reply is TotalStake),
        stage is AwaitAssetBalance ==> (accepts(stage, reply) <==> reply is Balance),
        (stage is AwaitCurrentEra || stage is AwaitBondingDuration || stage is AwaitWithdrawEra)
            ==> (accepts(stage, reply) <==> reply is Era),
        (stage is AwaitDeposit || stage is AwaitMint || stage is AwaitBond || stage is AwaitNomination
            || stage is AwaitUnbond || stage is AwaitBurn || stage is AwaitWithdrawal || stage is AwaitPayout
            || stage is AwaitLock || stage is AwaitVote) ==> (accepts(stage, reply) <==> (reply
            == Reply::Succeeded || reply == Reply::Failed)),
        s.total_staked is Some ==> !crate::machine::unbound_reads_missing_total(s, stage, reply),
        ({
            &&& stage matches Stage::AwaitAssetBalance { who, amount }
            &&& reply matches Reply::Balance(b)
            &&& s.total_staked is None
        }) ==> (crate::machine::unbound_reads_missing_total(s, stage, reply) <==> (
            stage->AwaitAssetBalance_amount <= reply->Balance_0 && (!s.voting.contains_key(stage->AwaitAssetBalance_who)
                || stage->AwaitAssetBalance_amount + s.voting[stage->AwaitAssetBalance_who] <= reply->Balance_0
                || stage->AwaitAssetBalance_amount == 0))),
        (stage is AwaitBondingDuration && reply is Era) ==> (crate::machine::unbound_era_overflows(stage, reply)
            <==> stage->AwaitBondingDuration_era + reply->Era_0 > u32::MAX),
        !(stage is AwaitBondingDuration) ==> !crate::machine::unbound_era_overflows(stage, reply),
{
}

} // verus!
