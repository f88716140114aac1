//! Replaying the moves of a record on a board, one snapshot for each ply.

use vstd::prelude::*;
use crate::board::{initial_position, play_notation, snapshot_of, Board, Piece};
use crate::models::KifBody;
use crate::notation::{normalize_fugo, normalized, MoveError, MoveFault};
use crate::parser::{move_views, resign_marker, Move};
use crate::text::{chars_of, contains, has};

verus! {

/// What replaying a record gave: a body for each ply that was played, in
/// order, and the error that stopped the replay, if one did.
pub struct Replay {
    pub bodies: Vec<KifBody>,
    pub failure: Option<MoveError>,
}

/// One ply of a replay: the ply number, the normalized notation, and the
/// cells after the move.
pub struct Step {
    pub te: nat,
    pub fugo: Seq<char>,
    pub cells: Seq<Option<Piece>>,
}

/// The plies played from move `i` on and the error that stopped the replay,
/// if one did. The board holds `cells`, and `prev` is the normalized
/// notation of the move before. Each move is normalized against the move
/// before and played for the first player on an odd ply, for the second on
/// an even one. The replay ends before a move whose notation holds the
/// resignation marker, and at the first move that cannot be played.
pub open spec fn replay_from(
    moves: Seq<(nat, Seq<char>)>,
    i: int,
    cells: Seq<Option<Piece>>,
    prev: Option<Seq<char>>,
) -> (Seq<Step>, Option<MoveFault>)
    decreases moves.len() - i,
{
    if i < 0 || i >= moves.len() {
        (Seq::empty(), None)
    } else if contains(moves[i].1, resign_marker()) {
        (Seq::empty(), None)
    } else {
        let te = moves[i].0;
        let fugo = normalized(moves[i].1, prev);
        match play_notation(cells, fugo, te % 2 == 1) {
            Err(e) => (Seq::empty(), Some(e)),
            Ok(next) => {
                let rest = replay_from(moves, i + 1, next, Some(fugo));
                (seq![Step { te, fugo, cells: next }] + rest.0, rest.1)
            },
        }
    }
}

/// Whether `body` records `step` for the game `kif_id`. The ply number is
/// stored in 32 bits.
pub open spec fn records(body: KifBody, kif_id: i32, step: Step) -> bool {
    &&& body.kif_id == kif_id
    &&& body.te == (step.te as usize) as i32
    &&& body.fugo@ == step.fugo
    &&& body.board@ == snapshot_of(step.cells)
}

/// Whether the bodies record the steps for the game `kif_id`, one by one.
pub open spec fn record_all(bodies: Seq<KifBody>, kif_id: i32, steps: Seq<Step>) -> bool {
    &&& bodies.len() == steps.len()
    &&& forall|k: int| 0 <= k < bodies.len() ==> records(#[trigger] bodies[k], kif_id, steps[k])
}

/// The error of a replay as plain values.
pub open spec fn failure_view(e: Option<MoveError>) -> Option<MoveFault> {
    match e {
        Some(err) => Some(err@),
        None => None,
    }
}

/// Replays the moves of a game from the starting position.
pub fn replay_moves(moves: &Vec<Move>, kif_id: i32) -> (r: Replay)
    ensures
        record_all(
            r.bodies@,
            kif_id,
            replay_from(move_views(moves@), 0, initial_position(), None).0,
        ),
        failure_view(r.failure) == replay_from(move_views(moves@), 0, initial_position(), None).1,
{
    let ghost mv = move_views(moves@);
    let ghost whole = replay_from(mv, 0, initial_position(), None);
    let ghost mut done: Seq<Step> = Seq::empty();
    let mut board = Board::new();
    let mut bodies: Vec<KifBody> = Vec::new();
    let mut prev: Option<String> = None;
    let resign: Vec<char> = vec!['投', '了'];
    let mut i: usize = 0;
    while i < moves.len()
        invariant
            i <= moves.len(),
            mv == move_views(moves@),
            whole == replay_from(mv, 0, initial_position(), None),
            resign@ == resign_marker(),
            record_all(bodies@, kif_id, done),
            whole.0 == done + replay_from(
                mv,
                i as int,
                board@,
                match prev {
                    Some(p) => Some(p@),
                    None => None,
                },
            ).0,
            whole.1 == replay_from(
                mv,
                i as int,
                board@,
                match prev {
                    Some(p) => Some(p@),
                    None => None,
                },
            ).1,
        decreases moves.len() - i,
    {
        let m = &moves[i];
        assert(mv[i as int] == (m.te as nat, m.fugo@));
        let raw = chars_of(m.fugo.as_str());
        if has(&raw, &resign) {
            proof {
                assert(done + Seq::<Step>::empty() =~= done);
            }
            return Replay { bodies, failure: None };
        }
        let fugo = match &prev {
            Some(p) => normalize_fugo(m.fugo.as_str(), Some(p.as_str())),
            None => normalize_fugo(m.fugo.as_str(), None),
        };
        match board.apply_move(fugo.as_str(), m.te % 2 == 1) {
            Err(e) => {
                proof {
                    assert(done + Seq::<Step>::empty() =~= done);
                }
                return Replay { bodies, failure: Some(e) };
            },
            Ok(()) => {
                let ghost step = Step { te: m.te as nat, fugo: fugo@, cells: board@ };
                let body = KifBody {
                    kif_id,
                    te: #[verifier::truncate]
                    (m.te as i32),
                    fugo: fugo.clone(),
                    board: board.to_verbose_sfen(),
                };
                proof {
                    let rest = replay_from(mv, i + 1, board@, Some(fugo@));
                    assert(done + (seq![step] + rest.0) =~= done.push(step) + rest.0);
                    done = done.push(step);
                }
                bodies.push(body);
                prev = Some(fugo);
            },
        }
        i += 1;
    }
    proof {
        assert(done + Seq::<Step>::empty() =~= done);
    }
    Replay { bodies, failure: None }
}

} // verus!
