use vstd::prelude::*;

use crate::errors::CasinoError;
use crate::game::spec_settle_game;
use crate::pvp::spec_join_room;
use crate::pvp::spec_settle_room;
use crate::resolver::all_zero;
use crate::state::AccountId;
use crate::state::Game;
use crate::state::PvPRoom;
use crate::state::Treasury;

verus! {

/// Settlement of a game is terminal: once one settlement has succeeded,
/// any later settlement of that game — with any draw, any bankroll balance
/// and any payout destination — fails with `AlreadySettled`, changes
/// neither the game nor the treasury, and issues no further payout. Funds
/// move at most once per game.
pub proof fn lemma_settle_game_terminal(
    g: Game,
    t: Treasury,
    balance1: u64,
    account1: AccountId,
    draw1: Seq<u8>,
    balance2: u64,
    account2: AccountId,
    draw2: Seq<u8>,
)
    requires
        spec_settle_game(g, t, balance1, account1, draw1).2 is Ok,
    ensures
        ({
            let first = spec_settle_game(g, t, balance1, account1, draw1);
            let second = spec_settle_game(first.0, first.1, balance2, account2, draw2);
            &&& first.0.settled
            &&& second.0 == first.0
            &&& second.1 == first.1
            &&& second.2 == Err::<crate::game::Settlement, CasinoError>(
                CasinoError::AlreadySettled,
            )
        }),
{
}

/// Settlement of a room is terminal: once one settlement has succeeded,
/// any later settlement of that room fails with `AlreadySettled`, leaves
/// the room unchanged, and instructs no further payout. The pot is paid at
/// most once per room.
pub proof fn lemma_settle_room_terminal(
    room: PvPRoom,
    escrow_balance1: u64,
    escrow_account1: AccountId,
    winner_account1: AccountId,
    draw1: Seq<u8>,
    escrow_balance2: u64,
    escrow_account2: AccountId,
    winner_account2: AccountId,
    draw2: Seq<u8>,
)
    requires
        spec_settle_room(room, escrow_balance1, escrow_account1, winner_account1, draw1).1 is Ok,
    ensures
        ({
            let first = spec_settle_room(
                room,
                escrow_balance1,
                escrow_account1,
                winner_account1,
                draw1,
            );
            let second = spec_settle_room(
                first.0,
                escrow_balance2,
                escrow_account2,
                winner_account2,
                draw2,
            );
            &&& first.0.settled
            &&& second.0 == first.0
            &&& second.1 == Err::<crate::pvp::PvpSettlement, CasinoError>(
                CasinoError::AlreadySettled,
            )
        }),
{
}

/// A join can never settle a room: whatever a join attempt decides, the
/// room it leaves behind is either untouched or the same room with only
/// the opponent slot filled. Together with the creation contracts — every
/// fresh game and room starts with `settled == false` — the settled flag
/// becomes true through the matching settle operation and through nothing
/// else.
pub proof fn lemma_join_changes_only_opponent(
    room: PvPRoom,
    opponent: AccountId,
    opponent_token_account: AccountId,
    escrow_token_account: AccountId,
    now: i64,
)
    ensures
        ({
            let after = spec_join_room(
                room,
                opponent,
                opponent_token_account,
                escrow_token_account,
                now,
            ).0;
            after == room || after == (PvPRoom { opponent: Some(opponent), ..room })
        }),
        spec_join_room(room, opponent, opponent_token_account, escrow_token_account, now).0.settled
            == room.settled,
{
}

/// No under-collateralized payout on the single-player path: whatever the
/// game, the draw and the bankroll balance, any payout instruction a
/// settlement issues is for exactly double the wager, drawn on the
/// bankroll account, and never exceeds the bankroll balance the settlement
/// was shown.
pub proof fn lemma_game_payout_collateralized(
    g: Game,
    t: Treasury,
    treasury_balance: u64,
    player_token_account: AccountId,
    draw: Seq<u8>,
)
    requires
        g.wf(),
    ensures
        ({
            let res = spec_settle_game(g, t, treasury_balance, player_token_account, draw).2;
            res matches Ok(s) ==> s.payout matches Some(p) ==> {
                &&& p.amount == 2 * g.wager
                &&& p.amount <= treasury_balance
                &&& p.from == t.token_account
            }
        }),
{
}

/// No under-collateralized payout on the two-party path: whatever the
/// room, the draw and the escrow balance, the pot instruction a settlement
/// issues is for exactly both stakes and never exceeds the escrow balance
/// the settlement was shown.
pub proof fn lemma_room_payout_collateralized(
    room: PvPRoom,
    escrow_balance: u64,
    escrow_token_account: AccountId,
    winner_token_account: AccountId,
    draw: Seq<u8>,
)
    requires
        room.wf(),
    ensures
        ({
            let res = spec_settle_room(
                room,
                escrow_balance,
                escrow_token_account,
                winner_token_account,
                draw,
            ).1;
            res matches Ok(s) ==> {
                &&& s.payout.amount == 2 * room.wager
                &&& s.payout.amount <= escrow_balance
                &&& s.payout.from == escrow_token_account
            }
        }),
{
}

/// The all-zero draw settles nothing, whatever the variant: an unsettled
/// game meets it with `InvalidRandomValue`, and both the game and the
/// treasury stand exactly as before.
pub proof fn lemma_zero_draw_rejected_game(
    g: Game,
    t: Treasury,
    treasury_balance: u64,
    player_token_account: AccountId,
    draw: Seq<u8>,
)
    requires
        !g.settled,
        all_zero(draw),
    ensures
        spec_settle_game(g, t, treasury_balance, player_token_account, draw) == (
            g,
            t,
            Err::<crate::game::Settlement, CasinoError>(CasinoError::InvalidRandomValue),
        ),
{
}

/// The all-zero draw settles nothing on the two-party path either: a full,
/// unsettled room meets it with `InvalidRandomValue` and stands unchanged,
/// whatever the variant.
pub proof fn lemma_zero_draw_rejected_room(
    room: PvPRoom,
    escrow_balance: u64,
    escrow_token_account: AccountId,
    winner_token_account: AccountId,
    draw: Seq<u8>,
)
    requires
        !room.settled,
        room.opponent is Some,
        all_zero(draw),
    ensures
        spec_settle_room(room, escrow_balance, escrow_token_account, winner_token_account, draw)
            == (
            room,
            Err::<crate::pvp::PvpSettlement, CasinoError>(CasinoError::InvalidRandomValue),
        ),
{
}

} // verus!
