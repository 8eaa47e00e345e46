use vstd::prelude::*;

use crate::identity::Identity;
use crate::state::{GamePoolAccount, GameStatus, PoolModel, HOUSE_FEE_PERCENTAGE, PRIZE_RANKS};

verus! {

/// Accounts of a creation request: the signer who becomes the pool's authority.
pub struct InitializeGamePool {
    pub authority: Identity,
}

/// A freshly created pool: empty, waiting, with the fixed house fee and no
/// prize paid.
pub open spec fn created(authority: Identity, entry_fee: u64, max_players: u8) -> PoolModel {
    PoolModel {
        authority,
        entry_fee,
        max_players,
        current_players: 0,
        total_pool: 0,
        house_fee_percentage: HOUSE_FEE_PERCENTAGE,
        status: GameStatus::Waiting,
        start_time: 0,
        end_time: 0,
        prizes_paid: Seq::new(PRIZE_RANKS as nat, |i: int| false),
    }
}

/// Creates the pool record for a competition run by the requesting signer.
pub fn initialize_game_pool(ctx: &InitializeGamePool, entry_fee: u64, max_players: u8) -> (r:
    GamePoolAccount)
    ensures
        r@ == created(ctx.authority, entry_fee, max_players),
        r.wf(),
{
    let prizes_paid = vec![false, false, false];
    assert(prizes_paid@ =~= Seq::new(PRIZE_RANKS as nat, |i: int| false));
    GamePoolAccount {
        authority: ctx.authority,
        entry_fee,
        max_players,
        current_players: 0,
        total_pool: 0,
        house_fee_percentage: HOUSE_FEE_PERCENTAGE,
        status: GameStatus::Waiting,
        start_time: 0,
        end_time: 0,
        prizes_paid,
    }
}

} // verus!
