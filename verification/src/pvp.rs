use vstd::prelude::*;

use crate::errors::CasinoError;
use crate::executor::Authority;
use crate::executor::Transfer;
use crate::resolver::all_zero;
use crate::resolver::is_all_zero;
use crate::resolver::resolve_pvp;
use crate::resolver::spec_resolve_pvp;
use crate::state::AccountId;
use crate::state::GameType;
use crate::state::PvPRoom;
use crate::state::MAX_WAGER;
use crate::state::MIN_WAGER;
use crate::state::ROOM_EXPIRY;

verus! {

/// What a room settlement decided: whether the creator won, the display
/// value derived from the draw, the winning identity, and the instruction
/// paying the full pot out of the room's escrow to the winner.
#[derive(Clone, Copy, Debug, PartialEq, Eq, Structural)]
pub struct PvpSettlement {
    pub creator_won: bool,
    pub result_value: u8,
    pub winner: AccountId,
    pub payout: Transfer,
}

/// Opens a two-party room. Rejects a stake outside the configured bounds;
/// on success the creator's stake is instructed into the room-scoped escrow
/// account and a fresh room is returned: no opponent, unsettled, choice
/// bytes zeroed, stamped with the creation time that scopes its escrow
/// derivation.
pub fn create_pvp_room(
    creator: AccountId,
    creator_token_account: AccountId,
    escrow_token_account: AccountId,
    now: i64,
    bump: u8,
    wager: u64,
    game_type: GameType,
) -> (r: Result<(PvPRoom, Transfer), CasinoError>)
    requires
        0 <= now,
    ensures
        r is Ok <==> MIN_WAGER <= wager <= MAX_WAGER,
        wager < MIN_WAGER ==> r == Err::<(PvPRoom, Transfer), CasinoError>(CasinoError::WagerTooLow),
        wager > MAX_WAGER ==> r == Err::<(PvPRoom, Transfer), CasinoError>(
            CasinoError::WagerTooHigh,
        ),
        r matches Ok(p) ==> p.0 == (PvPRoom {
            creator,
            opponent: None,
            wager,
            game_type,
            creator_choice: 0,
            opponent_choice: 0,
            vrf_requested: false,
            settled: false,
            created_at: now,
            bump,
        }) && p.1 == (Transfer {
            from: creator_token_account,
            to: escrow_token_account,
            amount: wager,
            authority: Authority::Wallet(creator),
        }) && p.0.wf(),
{
    if wager < MIN_WAGER {
        return Err(CasinoError::WagerTooLow);
    }
    if wager > MAX_WAGER {
        return Err(CasinoError::WagerTooHigh);
    }
    let lock = Transfer {
        from: creator_token_account,
        to: escrow_token_account,
        amount: wager,
        authority: Authority::Wallet(creator),
    };
    let room = PvPRoom {
        creator,
        opponent: None,
        wager,
        game_type,
        creator_choice: 0,
        opponent_choice: 0,
        vrf_requested: false,
        settled: false,
        created_at: now,
        bump,
    };
    Ok((room, lock))
}

/// The join decision as a value: the next room state and the result. A room
/// with an opponent is full; a room whose join window has elapsed is
/// expired; the creator may not take the opponent's side of their own room.
/// Otherwise the opponent slot fills — the one change a join makes — and
/// the opponent's matching stake is instructed into the escrow.
pub open spec fn spec_join_room(
    room: PvPRoom,
    opponent: AccountId,
    opponent_token_account: AccountId,
    escrow_token_account: AccountId,
    now: i64,
) -> (PvPRoom, Result<Transfer, CasinoError>) {
    if room.opponent is Some {
        (room, Err(CasinoError::RoomFull))
    } else if now - room.created_at >= ROOM_EXPIRY {
        (room, Err(CasinoError::RoomExpired))
    } else if opponent == room.creator {
        (room, Err(CasinoError::InvalidGameState))
    } else {
        (
            PvPRoom { opponent: Some(opponent), ..room },
            Ok(
                Transfer {
                    from: opponent_token_account,
                    to: escrow_token_account,
                    amount: room.wager,
                    authority: Authority::Wallet(opponent),
                },
            ),
        )
    }
}

/// Admits an opponent into an open room, exactly as [`spec_join_room`]
/// says. Succeeds exactly when the room is open, strictly less than
/// `ROOM_EXPIRY` seconds have elapsed, and the joiner is not the creator;
/// the join touches nothing but the opponent slot, so it can never settle a
/// room.
pub fn join_pvp_room(
    room: &mut PvPRoom,
    opponent: AccountId,
    opponent_token_account: AccountId,
    escrow_token_account: AccountId,
    now: i64,
) -> (r: Result<Transfer, CasinoError>)
    requires
        old(room).wf(),
        old(room).created_at <= now,
    ensures
        (*final(room), r) == spec_join_room(
            *old(room),
            opponent,
            opponent_token_account,
            escrow_token_account,
            now,
        ),
        r is Ok <==> old(room).opponent is None && now - old(room).created_at < ROOM_EXPIRY
            && opponent != old(room).creator,
        r is Err ==> *final(room) == *old(room),
        r is Ok ==> *final(room) == (PvPRoom { opponent: Some(opponent), ..*old(room) }),
        r matches Ok(t) ==> t == (Transfer {
            from: opponent_token_account,
            to: escrow_token_account,
            amount: old(room).wager,
            authority: Authority::Wallet(opponent),
        }),
{
    if room.opponent.is_some() {
        return Err(CasinoError::RoomFull);
    }
    if now - room.created_at >= ROOM_EXPIRY {
        return Err(CasinoError::RoomExpired);
    }
    if opponent == room.creator {
        return Err(CasinoError::InvalidGameState);
    }
    room.opponent = Some(opponent);
    Ok(
        Transfer {
            from: opponent_token_account,
            to: escrow_token_account,
            amount: room.wager,
            authority: Authority::Wallet(opponent),
        },
    )
}

/// The room settlement decision as a value: the next room state and the
/// result. A settled room is terminal; settlement needs an opponent and a
/// nonzero draw, and refuses an escrow short of both stakes. Otherwise the
/// room settles: the creator's stored choice alone meets the resolver — the
/// opponent holds the implicit complementary side — and the full pot is
/// instructed from the escrow to the winner under the room-derived
/// authority.
pub open spec fn spec_settle_room(
    room: PvPRoom,
    escrow_balance: u64,
    escrow_token_account: AccountId,
    winner_token_account: AccountId,
    r: Seq<u8>,
) -> (PvPRoom, Result<PvpSettlement, CasinoError>) {
    if room.settled {
        (room, Err(CasinoError::AlreadySettled))
    } else if room.opponent is None {
        (room, Err(CasinoError::NoOpponent))
    } else if all_zero(r) {
        (room, Err(CasinoError::InvalidRandomValue))
    } else if escrow_balance < 2 * room.wager {
        (room, Err(CasinoError::InvalidGameState))
    } else {
        let outcome = spec_resolve_pvp(room.game_type, room.creator_choice, r[0]);
        (
            PvPRoom { settled: true, vrf_requested: true, ..room },
            Ok(
                PvpSettlement {
                    creator_won: outcome.0,
                    result_value: outcome.1,
                    winner: if outcome.0 {
                        room.creator
                    } else {
                        room.opponent->0
                    },
                    payout: Transfer {
                        from: escrow_token_account,
                        to: winner_token_account,
                        amount: (2 * room.wager) as u64,
                        authority: Authority::RoomAuthority {
                            creator: room.creator,
                            created_at: room.created_at,
                            bump: room.bump,
                        },
                    },
                },
            ),
        )
    }
}

/// Settles a full room with a 32-byte draw, exactly as [`spec_settle_room`]
/// says. The named clauses restate the corners a caller leans on:
/// settlement is terminal and repeatable only as a failure, an all-zero
/// draw settles nothing, and on success the winner is paid the full pot —
/// both stakes — in one instruction.
pub fn settle_pvp(
    room: &mut PvPRoom,
    escrow_balance: u64,
    escrow_token_account: AccountId,
    winner_token_account: AccountId,
    vrf_result: [u8; 32],
) -> (r: Result<PvpSettlement, CasinoError>)
    requires
        old(room).wf(),
    ensures
        (*final(room), r) == spec_settle_room(
            *old(room),
            escrow_balance,
            escrow_token_account,
            winner_token_account,
            vrf_result@,
        ),
        old(room).settled ==> r == Err::<PvpSettlement, CasinoError>(CasinoError::AlreadySettled),
        !old(room).settled && old(room).opponent is None ==> r == Err::<
            PvpSettlement,
            CasinoError,
        >(CasinoError::NoOpponent),
        !old(room).settled && old(room).opponent is Some && all_zero(vrf_result@) ==> r == Err::<
            PvpSettlement,
            CasinoError,
        >(CasinoError::InvalidRandomValue),
        r is Err ==> *final(room) == *old(room),
        r is Ok ==> final(room).settled && final(room).vrf_requested,
        r matches Ok(s) ==> s.payout.amount == 2 * old(room).wager && (s.winner
            == old(room).creator || Some(s.winner) == old(room).opponent),
{
    if room.settled {
        return Err(CasinoError::AlreadySettled);
    }
    if room.opponent.is_none() {
        return Err(CasinoError::NoOpponent);
    }
    if is_all_zero(&vrf_result) {
        return Err(CasinoError::InvalidRandomValue);
    }
    let expected_escrow: u64 = room.wager * 2;
    if escrow_balance < expected_escrow {
        return Err(CasinoError::InvalidGameState);
    }
    let (creator_won, result_value) = resolve_pvp(room.game_type, room.creator_choice, vrf_result[0]);
    let winner: AccountId = if creator_won {
        room.creator
    } else {
        match room.opponent {
            Some(op) => op,
            None => room.creator,
        }
    };
    let payout = Transfer {
        from: escrow_token_account,
        to: winner_token_account,
        amount: expected_escrow,
        authority: Authority::RoomAuthority {
            creator: room.creator,
            created_at: room.created_at,
            bump: room.bump,
        },
    };
    room.settled = true;
    room.vrf_requested = true;
    Ok(PvpSettlement { creator_won, result_value, winner, payout })
}

/// Cancels an open room and reclaims its record. Only the creator may
/// cancel, only while no opponent has joined and the room is unsettled; the
/// refund instruction returns exactly the creator's escrowed stake. On
/// success the room value is consumed — the record is destroyed and no
/// longer retrievable; on failure it is handed back unchanged beside the
/// error.
pub fn cancel_pvp_room(
    room: PvPRoom,
    caller: AccountId,
    creator_token_account: AccountId,
    escrow_token_account: AccountId,
) -> (r: Result<Transfer, (PvPRoom, CasinoError)>)
    ensures
        r is Ok <==> caller == room.creator && room.opponent is None && !room.settled,
        caller != room.creator ==> r == Err::<Transfer, (PvPRoom, CasinoError)>(
            (room, CasinoError::Unauthorized),
        ),
        caller == room.creator && room.opponent is Some ==> r == Err::<
            Transfer,
            (PvPRoom, CasinoError),
        >((room, CasinoError::RoomFull)),
        caller == room.creator && room.opponent is None && room.settled ==> r == Err::<
            Transfer,
            (PvPRoom, CasinoError),
        >((room, CasinoError::AlreadySettled)),
        r matches Ok(t) ==> t == (Transfer {
            from: escrow_token_account,
            to: creator_token_account,
            amount: room.wager,
            authority: Authority::RoomAuthority {
                creator: room.creator,
                created_at: room.created_at,
                bump: room.bump,
            },
        }),
{
    if caller != room.creator {
        return Err((room, CasinoError::Unauthorized));
    }
    if room.opponent.is_some() {
        return Err((room, CasinoError::RoomFull));
    }
    if room.settled {
        return Err((room, CasinoError::AlreadySettled));
    }
    Ok(
        Transfer {
            from: escrow_token_account,
            to: creator_token_account,
            amount: room.wager,
            authority: Authority::RoomAuthority {
                creator: room.creator,
                created_at: room.created_at,
                bump: room.bump,
            },
        },
    )
}

} // verus!
