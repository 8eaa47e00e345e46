use vstd::prelude::*;

use crate::identity::Identity;
use crate::state::{GameError, GamePoolAccount, GameStatus, PoolModel, PRIZE_RANKS};

verus! {

/// Accounts of a start request: the pool and the signer asking to start it.
pub struct StartGame {
    pub game_pool: GamePoolAccount,
    pub authority: Identity,
}

/// Accounts of a settlement request: the pool and the signer asking to settle it.
pub struct EndGameAndDistribute {
    pub game_pool: GamePoolAccount,
    pub authority: Identity,
}

/// One prize payout: its recipient, its amount, and whether it is still owed
/// (a rank paid by an earlier, partly failed settlement is not owed again).
#[derive(Clone, Copy, Debug)]
pub struct Payout {
    pub recipient: Identity,
    pub amount: u64,
    pub due: bool,
}

/// What a settlement moves out of custody: `payouts[i]` is the prize of rank
/// `i`, and the house fee goes to the authority.
pub struct Distribution {
    pub payouts: Vec<Payout>,
    pub house_fee: u64,
}

/// The prize table: percentage of the prize pool won by each rank, best first.
pub open spec fn prize_table() -> Seq<u64> {
    seq![50, 30, 20]
}

/// Percentage of the prize pool won at `rank`; ranks past the table win nothing.
pub open spec fn prize_percent(rank: int) -> int {
    if 0 <= rank < prize_table().len() {
        prize_table()[rank] as int
    } else {
        0
    }
}

/// The part of the pool shared among winners, rounded down.
pub open spec fn prize_pool_of(total: int, house_fee_percentage: int) -> int {
    total * (100 - house_fee_percentage) / 100
}

/// The operator's part: everything that is not prize pool.
pub open spec fn house_fee_of(total: int, house_fee_percentage: int) -> int {
    total - prize_pool_of(total, house_fee_percentage)
}

/// Prize of `rank`, rounded down.
pub open spec fn prize_amount(prize_pool: int, rank: int) -> int {
    prize_pool * prize_percent(rank) / 100
}

/// Number of ranks paid for a list of `n_winners` winners.
pub open spec fn ranks_paid(n_winners: int) -> int {
    if n_winners < PRIZE_RANKS {
        n_winners
    } else {
        PRIZE_RANKS as int
    }
}

/// Whether the transfer collaborator reported success for rank `i`; a rank
/// without a report counts as failed.
pub open spec fn transfer_ok(outcomes: Seq<bool>, i: int) -> bool {
    0 <= i < outcomes.len() && outcomes[i]
}

/// Paid flags after a settlement attempt: a rank is paid if it was before or
/// if its payout has now gone through.
pub open spec fn prizes_after(paid: Seq<bool>, n_winners: int, outcomes: Seq<bool>) -> Seq<bool> {
    Seq::new(paid.len(), |i: int| paid[i] || (i < ranks_paid(n_winners) && transfer_ok(outcomes, i)))
}

/// Whether every one of the first `n` ranks is paid.
pub open spec fn all_paid(paid: Seq<bool>, n: int) -> bool {
    forall|i: int| 0 <= i < n ==> #[trigger] paid[i]
}

/// The refusal, if any, of a settlement request by `caller`.
pub open spec fn settle_refusal(p: PoolModel, caller: Identity) -> Option<GameError> {
    if !caller.same(&p.authority) {
        Some(GameError::Unauthorized)
    } else if p.status != GameStatus::Active {
        Some(GameError::InvalidGameStatus)
    } else {
        None
    }
}

/// Start transition: the authority moves a waiting pool to active at `now`.
pub open spec fn start_spec(p: PoolModel, caller: Identity, now: i64) -> Result<PoolModel, GameError> {
    if !caller.same(&p.authority) {
        Err(GameError::Unauthorized)
    } else if p.status != GameStatus::Waiting {
        Err(GameError::InvalidGameStatus)
    } else {
        Ok(PoolModel { status: GameStatus::Active, start_time: now, ..p })
    }
}

/// Settlement transition, given the outcome of each prize payout and of the
/// house-fee transfer. Successful payouts are recorded even when the
/// settlement as a whole fails, so that a retry pays each rank once.
pub open spec fn settle_spec(
    p: PoolModel,
    caller: Identity,
    n_winners: int,
    outcomes: Seq<bool>,
    house_fee_ok: bool,
    now: i64,
) -> (PoolModel, Result<(), GameError>) {
    match settle_refusal(p, caller) {
        Some(e) => (p, Err(e)),
        None => {
            let q = PoolModel { prizes_paid: prizes_after(p.prizes_paid, n_winners, outcomes), ..p };
            if !all_paid(q.prizes_paid, ranks_paid(n_winners)) {
                (q, Err(GameError::PayoutFailed))
            } else if !house_fee_ok {
                (q, Err(GameError::TransferFailed))
            } else {
                (PoolModel { status: GameStatus::Finished, end_time: now, ..q }, Ok(()))
            }
        },
    }
}

/// The prize table as a vector, best rank first.
pub fn prize_shares() -> (r: Vec<u64>)
    ensures
        r@ == prize_table(),
{
    let r = vec![50, 30, 20];
    assert(r@ =~= prize_table());
    r
}

/// The part of `total` shared among winners, computed without overflow.
pub fn prize_pool(total: u64, house_fee_percentage: u8) -> (r: u64)
    requires
        house_fee_percentage <= 100,
    ensures
        r == prize_pool_of(total as int, house_fee_percentage as int),
        r <= total,
{
    let kept: u128 = (100 - house_fee_percentage) as u128;
    proof {
        let (t, k) = (total as int, kept as int);
        assert(0 <= t * k <= t * 100) by (nonlinear_arith)
            requires
                0 <= t,
                0 <= k <= 100,
        ;
    }
    let widened: u128 = total as u128 * kept;
    (widened / 100) as u64
}

/// The operator's part of `total`.
pub fn house_fee(total: u64, house_fee_percentage: u8) -> (r: u64)
    requires
        house_fee_percentage <= 100,
    ensures
        r == house_fee_of(total as int, house_fee_percentage as int),
{
    total - prize_pool(total, house_fee_percentage)
}

/// `percent` per cent of `prize_pool`, rounded down.
pub fn prize_share(prize_pool: u64, percent: u64) -> (r: u64)
    requires
        percent <= 100,
    ensures
        r == prize_pool * percent / 100,
        r <= prize_pool,
{
    proof {
        let (t, k) = (prize_pool as int, percent as int);
        assert(0 <= t * k <= t * 100) by (nonlinear_arith)
            requires
                0 <= t,
                0 <= k <= 100,
        ;
    }
    let widened: u128 = prize_pool as u128 * percent as u128;
    (widened / 100) as u64
}

/// Number of ranks paid for a list of `n_winners` winners.
fn paid_rank_count(n_winners: usize) -> (r: usize)
    ensures
        r == ranks_paid(n_winners as int),
{
    if n_winners < PRIZE_RANKS {
        n_winners
    } else {
        PRIZE_RANKS
    }
}

/// The transfers that settling the pool with `winners` (best first) calls
/// for: the prize of each paid rank, marked as still owed or not, and the house
/// fee. Refused as the settlement itself would refuse it.
pub fn plan_distribution(ctx: &EndGameAndDistribute, winners: &Vec<Identity>) -> (r: Result<
    Distribution,
    GameError,
>)
    requires
        ctx.game_pool.wf(),
    ensures
        match settle_refusal(ctx.game_pool@, ctx.authority) {
            Some(e) => r == Err::<Distribution, GameError>(e),
            None => r is Ok && {
                let d = r->Ok_0;
                let p = ctx.game_pool@;
                let prize = prize_pool_of(p.total_pool as int, p.house_fee_percentage as int);
                &&& d.house_fee == house_fee_of(p.total_pool as int, p.house_fee_percentage as int)
                &&& d.payouts@.len() == ranks_paid(winners@.len() as int)
                &&& forall|i: int|
                    0 <= i < d.payouts@.len() ==> #[trigger] d.payouts@[i] == (Payout {
                        recipient: winners@[i],
                        amount: prize_amount(prize, i) as u64,
                        due: !p.prizes_paid[i],
                    })
            },
        },
{
    let pool = &ctx.game_pool;
    if !(ctx.authority == pool.authority) {
        return Err(GameError::Unauthorized);
    }
    if !matches!(pool.status, GameStatus::Active) {
        return Err(GameError::InvalidGameStatus);
    }
    let prize = prize_pool(pool.total_pool, pool.house_fee_percentage);
    let fee = house_fee(pool.total_pool, pool.house_fee_percentage);
    let shares = prize_shares();
    let n = paid_rank_count(winners.len());
    let mut payouts: Vec<Payout> = Vec::new();
    let mut i: usize = 0;
    while i < n
        invariant
            0 <= i <= n,
            n == ranks_paid(winners@.len() as int),
            n <= PRIZE_RANKS,
            shares@ == prize_table(),
            pool.wf(),
            prize == prize_pool_of(pool.total_pool as int, pool.house_fee_percentage as int),
            payouts@.len() == i,
            forall|j: int|
                0 <= j < i ==> #[trigger] payouts@[j] == (Payout {
                    recipient: winners@[j],
                    amount: prize_amount(prize as int, j) as u64,
                    due: !pool.prizes_paid@[j],
                }),
        decreases n - i,
    {
        let amount = prize_share(prize, shares[i]);
        payouts.push(Payout { recipient: winners[i], amount, due: !pool.prizes_paid[i] });
        i = i + 1;
    }
    Ok(Distribution { payouts, house_fee: fee })
}

/// Moves a waiting pool to active, at the ledger time `now`.
pub fn start_game(ctx: &mut StartGame, now: i64) -> (r: Result<(), GameError>)
    requires
        old(ctx).game_pool.wf(),
    ensures
        final(ctx).game_pool.wf(),
        final(ctx).authority == old(ctx).authority,
        match start_spec(old(ctx).game_pool@, old(ctx).authority, now) {
            Ok(q) => r is Ok && final(ctx).game_pool@ == q,
            Err(e) => r == Err::<(), GameError>(e) && final(ctx).game_pool@ == old(ctx).game_pool@,
        },
{
    if !(ctx.authority == ctx.game_pool.authority) {
        return Err(GameError::Unauthorized);
    }
    if !matches!(ctx.game_pool.status, GameStatus::Waiting) {
        return Err(GameError::InvalidGameStatus);
    }
    ctx.game_pool.status = GameStatus::Active;
    ctx.game_pool.start_time = now;
    Ok(())
}

/// Settles an active pool. `payout_ok[i]` is what the transfer collaborator
/// reported for the prize of rank `i` (see `plan_distribution`), and
/// `house_fee_ok` what it reported for the house fee. Every prize that went
/// through is recorded; the pool is finished at `now` only when all paid ranks
/// are paid and the house fee has moved.
pub fn end_game_and_distribute(
    ctx: &mut EndGameAndDistribute,
    winners: &Vec<Identity>,
    payout_ok: &Vec<bool>,
    house_fee_ok: bool,
    now: i64,
) -> (r: Result<(), GameError>)
    requires
        old(ctx).game_pool.wf(),
    ensures
        final(ctx).game_pool.wf(),
        final(ctx).authority == old(ctx).authority,
        (final(ctx).game_pool@, r) == settle_spec(
            old(ctx).game_pool@,
            old(ctx).authority,
            winners@.len() as int,
            payout_ok@,
            house_fee_ok,
            now,
        ),
{
    if !(ctx.authority == ctx.game_pool.authority) {
        return Err(GameError::Unauthorized);
    }
    if !matches!(ctx.game_pool.status, GameStatus::Active) {
        return Err(GameError::InvalidGameStatus);
    }
    let ghost before = ctx.game_pool@;
    let n = paid_rank_count(winners.len());
    let mut settled = true;
    let mut i: usize = 0;
    while i < n
        invariant
            0 <= i <= n,
            n == ranks_paid(winners@.len() as int),
            n <= PRIZE_RANKS,
            ctx.game_pool@ == (PoolModel { prizes_paid: ctx.game_pool@.prizes_paid, ..before }),
            ctx.authority == old(ctx).authority,
            before.prizes_paid.len() == PRIZE_RANKS,
            ctx.game_pool@.prizes_paid.len() == PRIZE_RANKS,
            forall|j: int|
                0 <= j < PRIZE_RANKS ==> #[trigger] ctx.game_pool@.prizes_paid[j] == if j < i {
                    prizes_after(before.prizes_paid, winners@.len() as int, payout_ok@)[j]
                } else {
                    before.prizes_paid[j]
                },
            settled == forall|j: int| 0 <= j < i ==> #[trigger] ctx.game_pool@.prizes_paid[j],
        decreases n - i,
    {
        let ghost prev = ctx.game_pool@.prizes_paid;
        if !ctx.game_pool.prizes_paid[i] && i < payout_ok.len() && payout_ok[i] {
            ctx.game_pool.prizes_paid.set(i, true);
        }
        if !ctx.game_pool.prizes_paid[i] {
            settled = false;
        }
        assert(ctx.game_pool@.prizes_paid[i as int] == prizes_after(
            before.prizes_paid,
            winners@.len() as int,
            payout_ok@,
        )[i as int]);
        assert(forall|j: int| 0 <= j < i ==> prev[j] == ctx.game_pool@.prizes_paid[j]);
        i = i + 1;
    }
    assert(ctx.game_pool@.prizes_paid =~= prizes_after(before.prizes_paid, winners@.len() as int, payout_ok@));
    if !settled {
        return Err(GameError::PayoutFailed);
    }
    if !house_fee_ok {
        return Err(GameError::TransferFailed);
    }
    ctx.game_pool.status = GameStatus::Finished;
    ctx.game_pool.end_time = now;
    Ok(())
}

} // verus!
