use game_pool::identity::Identity;
use game_pool::membership::{entry_deposit, join_game, JoinGame};
use game_pool::registry::{initialize_game_pool, InitializeGamePool};
use game_pool::settlement::{
    end_game_and_distribute, house_fee, plan_distribution, prize_pool, prize_share, prize_shares,
    start_game, EndGameAndDistribute, StartGame,
};
use game_pool::state::{GameError, GamePoolAccount, GameStatus};

fn key(b: u8) -> Identity {
    Identity { bytes: [b; 32] }
}

fn new_pool(entry_fee: u64, max_players: u8) -> GamePoolAccount {
    initialize_game_pool(&InitializeGamePool { authority: key(1) }, entry_fee, max_players)
}

fn join(pool: GamePoolAccount, payer: u8, deposit_ok: bool) -> (GamePoolAccount, Result<(), GameError>) {
    let mut ctx = JoinGame { game_pool: pool, game_pool_key: key(9), payer: key(payer) };
    let r = join_game(&mut ctx, deposit_ok, 1000).map(|_| ());
    (ctx.game_pool, r)
}

fn start(pool: GamePoolAccount, caller: u8) -> (GamePoolAccount, Result<(), GameError>) {
    let mut ctx = StartGame { game_pool: pool, authority: key(caller) };
    let r = start_game(&mut ctx, 2000);
    (ctx.game_pool, r)
}

fn settle(
    pool: GamePoolAccount,
    caller: u8,
    winners: &Vec<Identity>,
    payout_ok: &Vec<bool>,
    house_fee_ok: bool,
) -> (GamePoolAccount, Result<(), GameError>) {
    let mut ctx = EndGameAndDistribute { game_pool: pool, authority: key(caller) };
    let r = end_game_and_distribute(&mut ctx, winners, payout_ok, house_fee_ok, 3000);
    (ctx.game_pool, r)
}

fn full_active_pool() -> GamePoolAccount {
    let mut pool = new_pool(100, 4);
    for p in 0..4u8 {
        let (next, r) = join(pool, 20 + p, true);
        assert_eq!(r, Ok(()));
        pool = next;
    }
    let (pool, r) = start(pool, 1);
    assert_eq!(r, Ok(()));
    pool
}

fn winners3() -> Vec<Identity> {
    vec![key(20), key(21), key(22)]
}

#[test]
fn new_pool_is_empty_and_waiting() {
    let pool = new_pool(100, 4);
    assert!(pool.authority == key(1));
    assert_eq!(pool.entry_fee, 100);
    assert_eq!(pool.max_players, 4);
    assert_eq!(pool.current_players, 0);
    assert_eq!(pool.total_pool, 0);
    assert_eq!(pool.house_fee_percentage, 20);
    assert_eq!(pool.status, GameStatus::Waiting);
    assert_eq!(pool.start_time, 0);
    assert_eq!(pool.end_time, 0);
    assert_eq!(pool.prizes_paid, vec![false, false, false]);
    assert!(pool.is_well_formed());
}

#[test]
fn join_records_membership() {
    let mut ctx = JoinGame { game_pool: new_pool(100, 4), game_pool_key: key(9), payer: key(5) };
    let record = join_game(&mut ctx, true, 1234).unwrap();
    assert!(record.game_pool == key(9));
    assert!(record.wallet_address == key(5));
    assert_eq!(record.entry_time, 1234);
    assert_eq!(ctx.game_pool.current_players, 1);
    assert_eq!(ctx.game_pool.total_pool, 100);
}

#[test]
fn total_tracks_members_after_each_join() {
    let mut pool = new_pool(37, 5);
    for n in 1..=5u8 {
        let (next, r) = join(pool, n, true);
        assert_eq!(r, Ok(()));
        pool = next;
        assert_eq!(pool.current_players, n);
        assert_eq!(pool.total_pool, n as u64 * 37);
        assert!(pool.is_well_formed());
    }
}

#[test]
fn full_pool_refuses_join() {
    let mut pool = new_pool(10, 2);
    for p in 0..2u8 {
        pool = join(pool, p, true).0;
    }
    let (pool, r) = join(pool, 7, true);
    assert_eq!(r, Err(GameError::GameFull));
    assert_eq!(pool.current_players, 2);
    assert_eq!(pool.total_pool, 20);
}

#[test]
fn zero_capacity_pool_is_full_at_once() {
    let (_, r) = join(new_pool(10, 0), 3, true);
    assert_eq!(r, Err(GameError::GameFull));
}

#[test]
fn full_check_comes_before_status_check() {
    let mut pool = new_pool(10, 1);
    pool = join(pool, 2, true).0;
    let (pool, _) = start(pool, 1);
    let (_, r) = join(pool, 3, true);
    assert_eq!(r, Err(GameError::GameFull));
}

#[test]
fn started_pool_refuses_join() {
    let (pool, _) = start(new_pool(10, 3), 1);
    let (pool, r) = join(pool, 3, true);
    assert_eq!(r, Err(GameError::GameNotWaiting));
    assert_eq!(pool.current_players, 0);
}

#[test]
fn join_refuses_total_overflow() {
    let mut pool = new_pool(u64::MAX / 2 + 1, 3);
    pool = join(pool, 2, true).0;
    let (pool, r) = join(pool, 3, true);
    assert_eq!(r, Err(GameError::PoolOverflow));
    assert_eq!(pool.current_players, 1);
}

#[test]
fn failed_deposit_leaves_pool_unchanged() {
    let (pool, r) = join(new_pool(10, 3), 3, false);
    assert_eq!(r, Err(GameError::TransferFailed));
    assert_eq!(pool.current_players, 0);
    assert_eq!(pool.total_pool, 0);
}

#[test]
fn entry_deposit_is_the_entry_fee() {
    let ctx = JoinGame { game_pool: new_pool(250, 3), game_pool_key: key(9), payer: key(4) };
    assert_eq!(entry_deposit(&ctx), Ok(250));
    let ctx = JoinGame { game_pool: new_pool(250, 0), game_pool_key: key(9), payer: key(4) };
    assert_eq!(entry_deposit(&ctx), Err(GameError::GameFull));
}

#[test]
fn start_activates_and_stamps_time() {
    let (pool, r) = start(new_pool(10, 3), 1);
    assert_eq!(r, Ok(()));
    assert_eq!(pool.status, GameStatus::Active);
    assert_eq!(pool.start_time, 2000);
}

#[test]
fn start_by_stranger_is_unauthorized() {
    let (pool, r) = start(new_pool(10, 3), 2);
    assert_eq!(r, Err(GameError::Unauthorized));
    assert_eq!(pool.status, GameStatus::Waiting);
}

#[test]
fn second_start_is_invalid_status() {
    let (pool, _) = start(new_pool(10, 3), 1);
    let (pool, r) = start(pool, 1);
    assert_eq!(r, Err(GameError::InvalidGameStatus));
    assert_eq!(pool.start_time, 2000);
}

#[test]
fn settle_by_stranger_is_unauthorized() {
    let (pool, r) = settle(full_active_pool(), 2, &winners3(), &vec![true; 3], true);
    assert_eq!(r, Err(GameError::Unauthorized));
    assert_eq!(pool.status, GameStatus::Active);
    let ctx = EndGameAndDistribute { game_pool: full_active_pool(), authority: key(2) };
    assert!(matches!(plan_distribution(&ctx, &winners3()), Err(GameError::Unauthorized)));
}

#[test]
fn settle_of_waiting_pool_is_invalid_status() {
    let (pool, r) = settle(new_pool(10, 3), 1, &winners3(), &vec![true; 3], true);
    assert_eq!(r, Err(GameError::InvalidGameStatus));
    assert_eq!(pool.status, GameStatus::Waiting);
    let ctx = EndGameAndDistribute { game_pool: new_pool(10, 3), authority: key(1) };
    assert!(matches!(plan_distribution(&ctx, &winners3()), Err(GameError::InvalidGameStatus)));
}

#[test]
fn four_players_three_winners() {
    let pool = full_active_pool();
    assert_eq!(pool.total_pool, 400);
    assert_eq!(prize_pool(pool.total_pool, pool.house_fee_percentage), 320);
    assert_eq!(house_fee(pool.total_pool, pool.house_fee_percentage), 80);
    let ctx = EndGameAndDistribute { game_pool: pool, authority: key(1) };
    let plan = plan_distribution(&ctx, &winners3()).unwrap();
    let amounts: Vec<u64> = plan.payouts.iter().map(|p| p.amount).collect();
    assert_eq!(amounts, vec![160, 96, 64]);
    assert_eq!(amounts.iter().sum::<u64>(), 320);
    assert!(plan.payouts.iter().all(|p| p.due));
    assert!(plan.payouts[0].recipient == key(20));
    assert!(plan.payouts[2].recipient == key(22));
    assert_eq!(plan.house_fee, 80);
    assert_eq!(amounts.iter().sum::<u64>() + plan.house_fee, 400);
    let (pool, r) = settle(ctx.game_pool, 1, &winners3(), &vec![true; 3], true);
    assert_eq!(r, Ok(()));
    assert_eq!(pool.status, GameStatus::Finished);
    assert_eq!(pool.end_time, 3000);
    assert_eq!(pool.prizes_paid, vec![true, true, true]);
}

#[test]
fn finished_pool_refuses_everything() {
    let (pool, r) = settle(full_active_pool(), 1, &winners3(), &vec![true; 3], true);
    assert_eq!(r, Ok(()));
    let (pool, r) = settle(pool, 1, &winners3(), &vec![true; 3], true);
    assert_eq!(r, Err(GameError::InvalidGameStatus));
    let (pool, r) = start(pool, 1);
    assert_eq!(r, Err(GameError::InvalidGameStatus));
    let (pool, r) = join(pool, 30, true);
    assert_eq!(r, Err(GameError::GameFull));
    assert_eq!(pool.status, GameStatus::Finished);
}

#[test]
fn failed_second_payout_is_retried_once() {
    let (pool, r) = settle(full_active_pool(), 1, &winners3(), &vec![true, false, true], true);
    assert_eq!(r, Err(GameError::PayoutFailed));
    assert_eq!(pool.status, GameStatus::Active);
    assert_eq!(pool.total_pool, 400);
    assert_eq!(pool.prizes_paid, vec![true, false, true]);
    let ctx = EndGameAndDistribute { game_pool: pool, authority: key(1) };
    let plan = plan_distribution(&ctx, &winners3()).unwrap();
    let due: Vec<bool> = plan.payouts.iter().map(|p| p.due).collect();
    assert_eq!(due, vec![false, true, false]);
    assert_eq!(plan.payouts[1].amount, 96);
    let (pool, r) = settle(ctx.game_pool, 1, &winners3(), &vec![false, true, false], true);
    assert_eq!(r, Ok(()));
    assert_eq!(pool.status, GameStatus::Finished);
    assert_eq!(pool.prizes_paid, vec![true, true, true]);
}

#[test]
fn failed_house_fee_keeps_pool_active() {
    let (pool, r) = settle(full_active_pool(), 1, &winners3(), &vec![true; 3], false);
    assert_eq!(r, Err(GameError::TransferFailed));
    assert_eq!(pool.status, GameStatus::Active);
    assert_eq!(pool.prizes_paid, vec![true, true, true]);
    let (pool, r) = settle(pool, 1, &winners3(), &vec![], true);
    assert_eq!(r, Ok(()));
    assert_eq!(pool.status, GameStatus::Finished);
}

#[test]
fn missing_payout_report_counts_as_failure() {
    let (pool, r) = settle(full_active_pool(), 1, &winners3(), &vec![true], true);
    assert_eq!(r, Err(GameError::PayoutFailed));
    assert_eq!(pool.prizes_paid, vec![true, false, false]);
}

#[test]
fn fewer_winners_pay_only_their_ranks() {
    let pool = full_active_pool();
    let winners = vec![key(20)];
    let ctx = EndGameAndDistribute { game_pool: pool, authority: key(1) };
    let plan = plan_distribution(&ctx, &winners).unwrap();
    assert_eq!(plan.payouts.len(), 1);
    assert_eq!(plan.payouts[0].amount, 160);
    let (pool, r) = settle(ctx.game_pool, 1, &winners, &vec![true], true);
    assert_eq!(r, Ok(()));
    assert_eq!(pool.prizes_paid, vec![true, false, false]);
}

#[test]
fn no_winners_pays_only_house_fee() {
    let (pool, r) = settle(full_active_pool(), 1, &vec![], &vec![], true);
    assert_eq!(r, Ok(()));
    assert_eq!(pool.status, GameStatus::Finished);
}

#[test]
fn ranks_past_the_table_win_nothing() {
    let winners = vec![key(20), key(21), key(22), key(23), key(24)];
    let ctx = EndGameAndDistribute { game_pool: full_active_pool(), authority: key(1) };
    let plan = plan_distribution(&ctx, &winners).unwrap();
    assert_eq!(plan.payouts.len(), 3);
    let (_, r) = settle(ctx.game_pool, 1, &winners, &vec![true; 3], true);
    assert_eq!(r, Ok(()));
}

#[test]
fn split_rounds_down_and_remainder_goes_to_house() {
    assert_eq!(prize_pool(101, 20), 80);
    assert_eq!(house_fee(101, 20), 21);
    assert_eq!(prize_share(80, 30), 24);
    assert_eq!(prize_share(7, 50), 3);
    assert_eq!(prize_pool(u64::MAX, 20), 14757395258967641292);
    assert_eq!(house_fee(u64::MAX, 0), 0);
    assert_eq!(prize_shares(), vec![50, 30, 20]);
}

#[test]
fn identities_compare_by_every_byte() {
    let a = key(3);
    let mut b = key(3);
    assert!(a == b);
    b.bytes[31] = 4;
    assert!(a != b);
}

#[test]
fn well_formedness_check_rejects_bad_records() {
    let mut pool = new_pool(10, 3);
    pool.total_pool = 5;
    assert!(!pool.is_well_formed());
    let mut pool = new_pool(10, 3);
    pool.prizes_paid[0] = true;
    assert!(!pool.is_well_formed());
    let mut pool = new_pool(10, 3);
    pool.current_players = 4;
    assert!(!pool.is_well_formed());
}
