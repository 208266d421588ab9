use vstd::prelude::*;

use crate::errors::CasinoError;
use crate::executor::Authority;
use crate::executor::Transfer;
use crate::resolver::all_zero;
use crate::resolver::is_all_zero;
use crate::resolver::resolve_single;
use crate::resolver::spec_resolve_single;
use crate::state::AccountId;
use crate::state::Game;
use crate::state::GameType;
use crate::state::DiceChoice;
use crate::state::Treasury;
use crate::state::MAX_WAGER;
use crate::state::MIN_WAGER;

verus! {

/// What a single-player settlement decided: whether the player won, the
/// display value derived from the draw, and the payout instruction issued
/// against the bankroll when they did (a losing game issues none; the wager
/// already sits with the treasury since creation).
#[derive(Clone, Copy, Debug, PartialEq, Eq, Structural)]
pub struct Settlement {
    pub player_won: bool,
    pub result_value: u8,
    pub payout: Option<Transfer>,
}

/// The one contract every wager placement meets, for the given variant and
/// encoded choice: success exactly when the stake is inside the bounds and
/// the bankroll covers a doubled payout; the named error for each
/// rejection, with the treasury untouched; and on success the exact fresh
/// record, the exact stake-locking instruction, and the counter bump.
pub open spec fn creation_contract(
    treasury_before: Treasury,
    treasury_after: Treasury,
    treasury_balance: u64,
    player: AccountId,
    player_token_account: AccountId,
    now: i64,
    bump: u8,
    wager: u64,
    game_type: GameType,
    choice: u8,
    r: Result<(Game, Transfer), CasinoError>,
) -> bool {
    &&& r is Ok <==> MIN_WAGER <= wager <= MAX_WAGER && treasury_balance >= 2 * wager
    &&& wager < MIN_WAGER ==> r == Err::<(Game, Transfer), CasinoError>(CasinoError::WagerTooLow)
    &&& wager > MAX_WAGER ==> r == Err::<(Game, Transfer), CasinoError>(CasinoError::WagerTooHigh)
    &&& MIN_WAGER <= wager <= MAX_WAGER && treasury_balance < 2 * wager ==> r == Err::<
        (Game, Transfer),
        CasinoError,
    >(CasinoError::InsufficientTreasury)
    &&& r is Err ==> treasury_after == treasury_before
    &&& r matches Ok(p) ==> p.0 == (Game {
        player,
        wager,
        game_type,
        player_choice: choice,
        vrf_requested: false,
        settled: false,
        timestamp: now,
        bump,
    }) && p.1 == (Transfer {
        from: player_token_account,
        to: treasury_before.token_account,
        amount: wager,
        authority: Authority::Wallet(player),
    }) && treasury_after == (Treasury {
        total_wagered: (treasury_before.total_wagered + wager) as u64,
        ..treasury_before
    }) && p.0.wf()
}

/// Places a wager against the house. Rejects a stake outside the configured
/// bounds, and a house that could not cover the doubled payout of a win at
/// acceptance time. On success the player's stake is instructed into the
/// bankroll, the wagered counter grows by the stake, and a fresh unsettled
/// game record is returned.
pub fn create_game_internal(
    treasury: &mut Treasury,
    treasury_balance: u64,
    player: AccountId,
    player_token_account: AccountId,
    now: i64,
    bump: u8,
    wager: u64,
    game_type: GameType,
    choice: u8,
) -> (r: Result<(Game, Transfer), CasinoError>)
    requires
        old(treasury).total_wagered + wager <= u64::MAX,
        0 <= now,
    ensures
        creation_contract(
            *old(treasury),
            *final(treasury),
            treasury_balance,
            player,
            player_token_account,
            now,
            bump,
            wager,
            game_type,
            choice,
            r,
        ),
{
    if wager < MIN_WAGER {
        return Err(CasinoError::WagerTooLow);
    }
    if wager > MAX_WAGER {
        return Err(CasinoError::WagerTooHigh);
    }
    let potential_payout: u64 = wager * 2;
    if treasury_balance < potential_payout {
        return Err(CasinoError::InsufficientTreasury);
    }
    let lock = Transfer {
        from: player_token_account,
        to: treasury.token_account,
        amount: wager,
        authority: Authority::Wallet(player),
    };
    let game = Game {
        player,
        wager,
        game_type,
        player_choice: choice,
        vrf_requested: false,
        settled: false,
        timestamp: now,
        bump,
    };
    treasury.total_wagered = treasury.total_wagered + wager;
    Ok((game, lock))
}

/// Places a coin-flip wager; the choice byte records `heads` as 1.
pub fn create_coin_flip(
    treasury: &mut Treasury,
    treasury_balance: u64,
    player: AccountId,
    player_token_account: AccountId,
    now: i64,
    bump: u8,
    wager: u64,
    choice: bool,
) -> (r: Result<(Game, Transfer), CasinoError>)
    requires
        old(treasury).total_wagered + wager <= u64::MAX,
        0 <= now,
    ensures
        creation_contract(
            *old(treasury),
            *final(treasury),
            treasury_balance,
            player,
            player_token_account,
            now,
            bump,
            wager,
            GameType::CoinFlip,
            if choice { 1u8 } else { 0u8 },
            r,
        ),
{
    create_game_internal(
        treasury,
        treasury_balance,
        player,
        player_token_account,
        now,
        bump,
        wager,
        GameType::CoinFlip,
        if choice { 1 } else { 0 },
    )
}

/// Places a high/low dice wager; the choice byte records `High` as 1.
pub fn create_dice_game(
    treasury: &mut Treasury,
    treasury_balance: u64,
    player: AccountId,
    player_token_account: AccountId,
    now: i64,
    bump: u8,
    wager: u64,
    choice: DiceChoice,
) -> (r: Result<(Game, Transfer), CasinoError>)
    requires
        old(treasury).total_wagered + wager <= u64::MAX,
        0 <= now,
    ensures
        creation_contract(
            *old(treasury),
            *final(treasury),
            treasury_balance,
            player,
            player_token_account,
            now,
            bump,
            wager,
            GameType::DiceHighLow,
            choice.spec_byte(),
            r,
        ),
{
    let encoded = choice.byte();
    create_game_internal(
        treasury,
        treasury_balance,
        player,
        player_token_account,
        now,
        bump,
        wager,
        GameType::DiceHighLow,
        encoded,
    )
}

/// Places an even/odd wager; the choice byte records `even` as 1.
pub fn create_even_odd(
    treasury: &mut Treasury,
    treasury_balance: u64,
    player: AccountId,
    player_token_account: AccountId,
    now: i64,
    bump: u8,
    wager: u64,
    choice: bool,
) -> (r: Result<(Game, Transfer), CasinoError>)
    requires
        old(treasury).total_wagered + wager <= u64::MAX,
        0 <= now,
    ensures
        creation_contract(
            *old(treasury),
            *final(treasury),
            treasury_balance,
            player,
            player_token_account,
            now,
            bump,
            wager,
            GameType::EvenOdd,
            if choice { 1u8 } else { 0u8 },
            r,
        ),
{
    create_game_internal(
        treasury,
        treasury_balance,
        player,
        player_token_account,
        now,
        bump,
        wager,
        GameType::EvenOdd,
        if choice { 1 } else { 0 },
    )
}

/// The settlement decision as a value: given the game, the treasury, the
/// bankroll balance and the draw, the next game and treasury states and the
/// result. A settled game is terminal; an all-zero draw is refused; a win
/// the bankroll cannot cover is refused and leaves the game open for a
/// later, funded attempt; otherwise the game settles, and a win pays the
/// player double the wager out of the bankroll.
pub open spec fn spec_settle_game(
    g: Game,
    t: Treasury,
    treasury_balance: u64,
    player_token_account: AccountId,
    r: Seq<u8>,
) -> (Game, Treasury, Result<Settlement, CasinoError>) {
    if g.settled {
        (g, t, Err(CasinoError::AlreadySettled))
    } else if all_zero(r) {
        (g, t, Err(CasinoError::InvalidRandomValue))
    } else {
        let outcome = spec_resolve_single(g.game_type, g.player_choice, r[0]);
        if outcome.0 {
            if treasury_balance < 2 * g.wager {
                (g, t, Err(CasinoError::InsufficientTreasury))
            } else {
                (
                    Game { settled: true, vrf_requested: true, ..g },
                    Treasury { total_paid: (t.total_paid + 2 * g.wager) as u64, ..t },
                    Ok(
                        Settlement {
                            player_won: true,
                            result_value: outcome.1,
                            payout: Some(
                                Transfer {
                                    from: t.token_account,
                                    to: player_token_account,
                                    amount: (2 * g.wager) as u64,
                                    authority: Authority::TreasuryAuthority { bump: t.bump },
                                },
                            ),
                        },
                    ),
                )
            }
        } else {
            (
                Game { settled: true, vrf_requested: true, ..g },
                t,
                Ok(Settlement { player_won: false, result_value: outcome.1, payout: None }),
            )
        }
    }
}

/// Settles a single-player game with a 32-byte draw. The record and the
/// treasury move exactly as [`spec_settle_game`] says; the named clauses
/// below restate the corners a caller leans on: settlement is terminal and
/// repeatable only as a failure, an all-zero draw settles nothing, an
/// under-funded win settles nothing, and funds are instructed at most once,
/// only on a win.
pub fn settle_game(
    game: &mut Game,
    treasury: &mut Treasury,
    treasury_balance: u64,
    player_token_account: AccountId,
    vrf_result: [u8; 32],
) -> (r: Result<Settlement, CasinoError>)
    requires
        old(game).wf(),
        old(treasury).total_paid + 2 * old(game).wager <= u64::MAX,
    ensures
        (*final(game), *final(treasury), r) == spec_settle_game(
            *old(game),
            *old(treasury),
            treasury_balance,
            player_token_account,
            vrf_result@,
        ),
        old(game).settled ==> r == Err::<Settlement, CasinoError>(CasinoError::AlreadySettled),
        !old(game).settled && all_zero(vrf_result@) ==> r == Err::<Settlement, CasinoError>(
            CasinoError::InvalidRandomValue,
        ),
        r is Err ==> *final(game) == *old(game) && *final(treasury) == *old(treasury),
        r is Ok ==> final(game).settled && final(game).vrf_requested,
        r matches Ok(s) ==> (s.payout is Some) == spec_resolve_single(
            old(game).game_type,
            old(game).player_choice,
            vrf_result@[0],
        ).0,
{
    if game.settled {
        return Err(CasinoError::AlreadySettled);
    }
    if is_all_zero(&vrf_result) {
        return Err(CasinoError::InvalidRandomValue);
    }
    let (player_won, result_value) = resolve_single(game.game_type, game.player_choice, vrf_result[0]);
    let payout: Option<Transfer> = if player_won {
        let amount: u64 = game.wager * 2;
        if treasury_balance < amount {
            return Err(CasinoError::InsufficientTreasury);
        }
        treasury.total_paid = treasury.total_paid + amount;
        Some(
            Transfer {
                from: treasury.token_account,
                to: player_token_account,
                amount,
                authority: Authority::TreasuryAuthority { bump: treasury.bump },
            },
        )
    } else {
        None
    };
    game.settled = true;
    game.vrf_requested = true;
    Ok(Settlement { player_won, result_value, payout })
}

} // verus!
