use vstd::prelude::*;

use crate::identity::Identity;
use crate::membership::join_spec;
use crate::registry::created;
use crate::settlement::{
    house_fee_of, prize_amount, prize_pool_of, ranks_paid, settle_spec, start_spec, transfer_ok,
};
use crate::state::{GameError, GameStatus, PoolModel, PRIZE_RANKS};

verus! {

/// The pool after a run of join requests, `deposits[k]` being the outcome of
/// the k-th request's deposit; a refused request leaves the pool unchanged.
pub open spec fn after_joins(p: PoolModel, deposits: Seq<bool>) -> PoolModel
    decreases deposits.len(),
{
    if deposits.len() == 0 {
        p
    } else {
        let q = after_joins(p, deposits.drop_last());
        match join_spec(q, deposits.last()) {
            Ok(r) => r,
            Err(_) => q,
        }
    }
}

/// The prize transfers that a settlement attempt actually made: rank `i` is
/// paid by this attempt when it was still owed and its transfer went through.
pub open spec fn payouts_made(p: PoolModel, n_winners: int, outcomes: Seq<bool>) -> Seq<bool> {
    Seq::new(
        ranks_paid(n_winners) as nat,
        |i: int| !p.prizes_paid[i] && transfer_ok(outcomes, i),
    )
}

/// A join keeps the record's invariant; in particular the pool's total stays
/// equal to the number of members times the entry fee.
pub proof fn lemma_join_keeps_invariant(p: PoolModel, deposit_ok: bool)
    requires
        p.wf(),
    ensures
        match join_spec(p, deposit_ok) {
            Ok(q) => q.wf() && q.total_pool == q.current_players * q.entry_fee,
            Err(_) => true,
        },
{
    if let Ok(q) = join_spec(p, deposit_ok) {
        assert((p.current_players + 1) * p.entry_fee == p.current_players * p.entry_fee
            + p.entry_fee) by (nonlinear_arith);
    }
}

/// Along any run of join requests on a new pool, the total always equals the
/// number of members times the entry fee.
pub proof fn lemma_joins_total_matches_members(
    authority: Identity,
    entry_fee: u64,
    max_players: u8,
    deposits: Seq<bool>,
)
    ensures
        after_joins(created(authority, entry_fee, max_players), deposits).wf(),
        after_joins(created(authority, entry_fee, max_players), deposits).total_pool == after_joins(
            created(authority, entry_fee, max_players),
            deposits,
        ).current_players * entry_fee,
    decreases deposits.len(),
{
    let p = created(authority, entry_fee, max_players);
    if deposits.len() > 0 {
        lemma_joins_total_matches_members(authority, entry_fee, max_players, deposits.drop_last());
        lemma_join_keeps_invariant(after_joins(p, deposits.drop_last()), deposits.last());
    }
    lemma_joins_keep_entry_fee(p, deposits);
}

/// Joins never change the entry fee.
proof fn lemma_joins_keep_entry_fee(p: PoolModel, deposits: Seq<bool>)
    ensures
        after_joins(p, deposits).entry_fee == p.entry_fee,
    decreases deposits.len(),
{
    if deposits.len() > 0 {
        lemma_joins_keep_entry_fee(p, deposits.drop_last());
    }
}

/// A full pool refuses every join with `GameFull`, whatever happened before.
pub proof fn lemma_full_pool_refuses_join(p: PoolModel, deposit_ok: bool)
    requires
        p.current_players == p.max_players,
    ensures
        join_spec(p, deposit_ok) == Err::<PoolModel, GameError>(GameError::GameFull),
{
}

/// Only the authority can start or settle a pool; anyone else is refused with
/// `Unauthorized`, and the pool is left as it was.
pub proof fn lemma_only_authority_transitions(
    p: PoolModel,
    caller: Identity,
    n_winners: int,
    outcomes: Seq<bool>,
    house_fee_ok: bool,
    now: i64,
)
    requires
        !caller.same(&p.authority),
    ensures
        start_spec(p, caller, now) == Err::<PoolModel, GameError>(GameError::Unauthorized),
        settle_spec(p, caller, n_winners, outcomes, house_fee_ok, now) == (
            p,
            Err::<(), GameError>(GameError::Unauthorized),
        ),
{
}

/// Starting needs a waiting pool and settling an active one: asked by the
/// authority in any other status, each is refused with `InvalidGameStatus`.
pub proof fn lemma_transitions_need_status(
    p: PoolModel,
    caller: Identity,
    n_winners: int,
    outcomes: Seq<bool>,
    house_fee_ok: bool,
    now: i64,
)
    requires
        caller.same(&p.authority),
    ensures
        p.status != GameStatus::Waiting ==> start_spec(p, caller, now) == Err::<
            PoolModel,
            GameError,
        >(GameError::InvalidGameStatus),
        p.status != GameStatus::Active ==> settle_spec(
            p,
            caller,
            n_winners,
            outcomes,
            house_fee_ok,
            now,
        ) == (p, Err::<(), GameError>(GameError::InvalidGameStatus)),
{
}

/// A successful settlement finishes the pool for good: afterwards no join,
/// start or settlement succeeds.
pub proof fn lemma_finished_is_terminal(
    p: PoolModel,
    caller: Identity,
    n_winners: int,
    outcomes: Seq<bool>,
    now: i64,
    next_caller: Identity,
    next_n_winners: int,
    next_outcomes: Seq<bool>,
    next_house_fee_ok: bool,
    next_deposit_ok: bool,
    next_now: i64,
)
    requires
        settle_spec(p, caller, n_winners, outcomes, true, now).1 is Ok,
    ensures
        ({
            let q = settle_spec(p, caller, n_winners, outcomes, true, now).0;
            &&& q.status == GameStatus::Finished
            &&& join_spec(q, next_deposit_ok) is Err
            &&& start_spec(q, next_caller, next_now) is Err
            &&& settle_spec(
                q,
                next_caller,
                next_n_winners,
                next_outcomes,
                next_house_fee_ok,
                next_now,
            ).1 is Err
        }),
{
}

/// A settlement whose second prize transfer fails reports `PayoutFailed` and
/// leaves the pool active with its total intact; retried with the same
/// winners, once the transfers still owed go through, it finishes the pool,
/// and over the two attempts every rank is paid exactly once.
pub proof fn lemma_retry_pays_each_rank_once(
    p: PoolModel,
    caller: Identity,
    first: Seq<bool>,
    retry: Seq<bool>,
    now: i64,
    retry_now: i64,
)
    requires
        p.wf(),
        p.status == GameStatus::Active,
        caller.same(&p.authority),
        forall|i: int| 0 <= i < PRIZE_RANKS ==> !#[trigger] p.prizes_paid[i],
        !transfer_ok(first, 1),
        forall|i: int| 0 <= i < PRIZE_RANKS && !transfer_ok(first, i) ==> transfer_ok(retry, i),
    ensures
        ({
            let (q, r) = settle_spec(p, caller, 3, first, true, now);
            let (f, s) = settle_spec(q, caller, 3, retry, true, retry_now);
            &&& r == Err::<(), GameError>(GameError::PayoutFailed)
            &&& q.status == GameStatus::Active
            &&& q.total_pool == p.total_pool
            &&& s is Ok
            &&& f.status == GameStatus::Finished
            &&& forall|i: int|
                0 <= i < PRIZE_RANKS ==> (#[trigger] payouts_made(p, 3, first)[i] != payouts_made(
                    q,
                    3,
                    retry,
                )[i])
        }),
{
    let q = settle_spec(p, caller, 3, first, true, now).0;
    assert(!q.prizes_paid[1]);
}

/// Settlement never pays out more than the pool holds: the prizes of all
/// ranks together with the house fee come to at most the total.
pub proof fn lemma_disbursement_within_total(total: u64, house_fee_percentage: u8)
    requires
        house_fee_percentage <= 100,
    ensures
        0 <= prize_pool_of(total as int, house_fee_percentage as int) <= total,
        ({
            let prize = prize_pool_of(total as int, house_fee_percentage as int);
            prize_amount(prize, 0) + prize_amount(prize, 1) + prize_amount(prize, 2)
                + house_fee_of(total as int, house_fee_percentage as int) <= total
        }),
{
    let (t, h) = (total as int, house_fee_percentage as int);
    assert(0 <= t * (100 - h) <= t * 100) by (nonlinear_arith)
        requires
            0 <= t,
            0 <= h <= 100,
    ;
    let prize = prize_pool_of(t, h);
    assert(prize_amount(prize, 0) + prize_amount(prize, 1) + prize_amount(prize, 2) <= prize)
        by (nonlinear_arith)
        requires
            prize >= 0,
            prize_amount(prize, 0) == prize * 50 / 100,
            prize_amount(prize, 1) == prize * 30 / 100,
            prize_amount(prize, 2) == prize * 20 / 100,
    ;
}

} // verus!
