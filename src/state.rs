use vstd::prelude::*;

use crate::identity::Identity;

verus! {

/// Share of every pool, in percent, kept back for the operator.
pub const HOUSE_FEE_PERCENTAGE: u8 = 20;

/// Number of ranks that the prize table pays.
pub const PRIZE_RANKS: usize = 3;

/// Lifecycle of a pool; it only ever moves forward.
#[derive(Clone, Copy, Debug, PartialEq, Eq, Structural)]
pub enum GameStatus {
    Waiting,
    Active,
    Finished,
}

/// Every way an operation on a pool can be refused.
#[derive(Clone, Copy, Debug, PartialEq, Eq, Structural)]
pub enum GameError {
    /// The pool already holds `max_players` members.
    GameFull,
    /// Members may only join while the pool is waiting.
    GameNotWaiting,
    /// The caller is not the pool's authority.
    Unauthorized,
    /// The pool is not in the status that the transition starts from.
    InvalidGameStatus,
    /// Adding the entry fee would overflow the pool's total.
    PoolOverflow,
    /// The transfer collaborator refused a deposit or the house-fee transfer.
    TransferFailed,
    /// At least one prize payout did not go through; the pool stays active.
    PayoutFailed,
}

/// The escrow record of one competition.
#[derive(Debug)]
pub struct GamePoolAccount {
    pub authority: Identity,
    pub entry_fee: u64,
    pub max_players: u8,
    pub current_players: u8,
    pub total_pool: u64,
    pub house_fee_percentage: u8,
    pub status: GameStatus,
    pub start_time: i64,
    pub end_time: i64,
    /// One flag per prize rank: whether that rank's payout has gone through.
    pub prizes_paid: Vec<bool>,
}

/// The record written when a participant joins a pool; never changed afterwards.
#[derive(Clone, Copy, Debug)]
pub struct PlayerAccount {
    pub game_pool: Identity,
    pub wallet_address: Identity,
    pub entry_time: i64,
}

/// The mathematical value of a pool record.
pub struct PoolModel {
    pub authority: Identity,
    pub entry_fee: u64,
    pub max_players: u8,
    pub current_players: u8,
    pub total_pool: u64,
    pub house_fee_percentage: u8,
    pub status: GameStatus,
    pub start_time: i64,
    pub end_time: i64,
    pub prizes_paid: Seq<bool>,
}

impl PoolModel {
    /// The record's invariant: the total is exactly the fees of the members,
    /// the pool is never over capacity, the fee split is the fixed one, there is
    /// one paid flag per prize rank, and no prize is paid before the game starts.
    pub open spec fn wf(self) -> bool {
        &&& self.current_players <= self.max_players
        &&& self.total_pool == self.current_players * self.entry_fee
        &&& self.house_fee_percentage == HOUSE_FEE_PERCENTAGE
        &&& self.prizes_paid.len() == PRIZE_RANKS
        &&& self.status == GameStatus::Waiting ==> forall|i: int|
            0 <= i < PRIZE_RANKS ==> !#[trigger] self.prizes_paid[i]
    }
}

impl View for GamePoolAccount {
    type V = PoolModel;

    open spec fn view(&self) -> PoolModel {
        PoolModel {
            authority: self.authority,
            entry_fee: self.entry_fee,
            max_players: self.max_players,
            current_players: self.current_players,
            total_pool: self.total_pool,
            house_fee_percentage: self.house_fee_percentage,
            status: self.status,
            start_time: self.start_time,
            end_time: self.end_time,
            prizes_paid: self.prizes_paid@,
        }
    }
}

impl GamePoolAccount {
    pub open spec fn wf(&self) -> bool {
        self@.wf()
    }

    /// Checks the record's invariant, for records that come from storage.
    #[verifier::loop_isolation(false)]
    pub fn is_well_formed(&self) -> (r: bool)
        ensures
            r == self.wf(),
    {
        if self.current_players > self.max_players
            || self.house_fee_percentage != HOUSE_FEE_PERCENTAGE
            || self.prizes_paid.len() != PRIZE_RANKS
        {
            return false;
        }
        proof {
            let (a, b) = (self.current_players as int, self.entry_fee as int);
            assert(a * b <= 255 * 0xffff_ffff_ffff_ffff) by (nonlinear_arith)
                requires
                    0 <= a <= 255,
                    0 <= b <= 0xffff_ffff_ffff_ffff,
            ;
        }
        let expected: u128 = self.current_players as u128 * self.entry_fee as u128;
        if expected != self.total_pool as u128 {
            return false;
        }
        if matches!(self.status, GameStatus::Waiting) {
            let mut i: usize = 0;
            while i < PRIZE_RANKS
                invariant
                    0 <= i <= PRIZE_RANKS,
                    self.prizes_paid@.len() == PRIZE_RANKS,
                    forall|j: int| 0 <= j < i ==> !#[trigger] self.prizes_paid@[j],
                decreases PRIZE_RANKS - i,
            {
                if self.prizes_paid[i] {
                    assert(self@.prizes_paid[i as int]);
                    return false;
                }
                i = i + 1;
            }
        }
        true
    }
}

} // verus!
