use vstd::prelude::*;

use crate::identity::Identity;
use crate::state::{GameError, GamePoolAccount, GameStatus, PlayerAccount, PoolModel};

verus! {

/// Accounts of a join request: the pool, the pool's own key (recorded in the
/// membership), and the payer of the entry fee.
pub struct JoinGame {
    pub game_pool: GamePoolAccount,
    pub game_pool_key: Identity,
    pub payer: Identity,
}

/// The refusal, if any, of a join request; the first failing check wins.
pub open spec fn join_refusal(p: PoolModel) -> Option<GameError> {
    if p.current_players >= p.max_players {
        Some(GameError::GameFull)
    } else if p.status != GameStatus::Waiting {
        Some(GameError::GameNotWaiting)
    } else if p.total_pool + p.entry_fee > u64::MAX {
        Some(GameError::PoolOverflow)
    } else {
        None
    }
}

/// Join transition, given whether the entry-fee deposit went through: one
/// more member, and one more entry fee in the pool.
pub open spec fn join_spec(p: PoolModel, deposit_ok: bool) -> Result<PoolModel, GameError> {
    match join_refusal(p) {
        Some(e) => Err(e),
        None => if !deposit_ok {
            Err(GameError::TransferFailed)
        } else {
            Ok(
                PoolModel {
                    current_players: (p.current_players + 1) as u8,
                    total_pool: (p.total_pool + p.entry_fee) as u64,
                    ..p
                },
            )
        },
    }
}

/// The deposit that a join request calls for: the entry fee, from the payer
/// into the pool's custody. Refused as the join itself would refuse it, in
/// which case no transfer is to be made.
pub fn entry_deposit(ctx: &JoinGame) -> (r: Result<u64, GameError>)
    ensures
        match join_refusal(ctx.game_pool@) {
            Some(e) => r == Err::<u64, GameError>(e),
            None => r == Ok::<u64, GameError>(ctx.game_pool.entry_fee),
        },
{
    let pool = &ctx.game_pool;
    if pool.current_players >= pool.max_players {
        return Err(GameError::GameFull);
    }
    if !matches!(pool.status, GameStatus::Waiting) {
        return Err(GameError::GameNotWaiting);
    }
    if pool.total_pool.checked_add(pool.entry_fee).is_none() {
        return Err(GameError::PoolOverflow);
    }
    Ok(pool.entry_fee)
}

/// Admits the payer to the pool once its deposit (`deposit_ok`) has gone
/// through, and returns the membership record stamped with `now`. On any
/// refusal the pool is left as it was.
pub fn join_game(ctx: &mut JoinGame, deposit_ok: bool, now: i64) -> (r: Result<PlayerAccount, GameError>)
    requires
        old(ctx).game_pool.wf(),
    ensures
        final(ctx).game_pool.wf(),
        final(ctx).game_pool_key == old(ctx).game_pool_key,
        final(ctx).payer == old(ctx).payer,
        match join_spec(old(ctx).game_pool@, deposit_ok) {
            Ok(q) => final(ctx).game_pool@ == q && r == Ok::<PlayerAccount, GameError>(
                PlayerAccount {
                    game_pool: old(ctx).game_pool_key,
                    wallet_address: old(ctx).payer,
                    entry_time: now,
                },
            ),
            Err(e) => final(ctx).game_pool@ == old(ctx).game_pool@ && r == Err::<
                PlayerAccount,
                GameError,
            >(e),
        },
{
    let fee = match entry_deposit(ctx) {
        Ok(fee) => fee,
        Err(e) => return Err(e),
    };
    if !deposit_ok {
        return Err(GameError::TransferFailed);
    }
    proof {
        let p = ctx.game_pool@;
        assert((p.current_players + 1) * p.entry_fee == p.current_players * p.entry_fee
            + p.entry_fee) by (nonlinear_arith);
    }
    ctx.game_pool.current_players = ctx.game_pool.current_players + 1;
    ctx.game_pool.total_pool = ctx.game_pool.total_pool + fee;
    Ok(PlayerAccount { game_pool: ctx.game_pool_key, wallet_address: ctx.payer, entry_time: now })
}

} // verus!
