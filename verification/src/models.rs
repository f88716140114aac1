//! The records that are handed to storage.

use vstd::prelude::*;

verus! {

/// What is stored once for each game.
pub struct KifHeader {
    /// The name of the file that the record came from.
    pub kif_filename: String,
    /// The first player's name.
    pub sente_player: String,
    /// The second player's name.
    pub gote_player: String,
    /// Whether the first player won.
    pub is_sente_win: bool,
    /// When the game began, if the record says so.
    pub started_at: Option<String>,
    /// When the game ended, if the record says so.
    pub ended_at: Option<String>,
    /// When this header was made.
    pub created_at: String,
    /// Who made this header.
    pub created_by: String,
}

/// What is stored for each ply of a game.
pub struct KifBody {
    /// The game that the ply belongs to.
    pub kif_id: i32,
    /// The number of the ply.
    pub te: i32,
    /// The notation of the move.
    pub fugo: String,
    /// The board after the move, as its flat snapshot.
    pub board: [Option<char>; 81],
}

/// The text of an optional text.
pub open spec fn optional_text(s: Option<String>) -> Option<Seq<char>> {
    match s {
        Some(t) => Some(t@),
        None => None,
    }
}

/// What a cell of a snapshot is stored as: the code as a text of one
/// character, or the empty text for an empty cell.
pub open spec fn cell_text(cell: Option<char>) -> Seq<char> {
    match cell {
        Some(c) => seq![c],
        None => Seq::empty(),
    }
}

impl KifBody {
    /// The 81 cells of the board as the texts that storage holds, in order.
    pub fn cell_values(&self) -> (out: Vec<String>)
        ensures
            out@.len() == 81,
            forall|i: int| 0 <= i < 81 ==> (#[trigger] out@[i])@ == cell_text(self.board@[i]),
    {
        let mut out: Vec<String> = Vec::new();
        let mut i: usize = 0;
        while i < 81
            invariant
                i <= 81,
                out@.len() == i,
                forall|j: int| 0 <= j < i ==> (#[trigger] out@[j])@ == cell_text(self.board@[j]),
            decreases 81 - i,
        {
            let mut s = String::new();
            if let Some(c) = self.board[i] {
                s.push(c);
            }
            proof {
                assert(s@ =~= cell_text(self.board@[i as int]));
            }
            out.push(s);
            i += 1;
        }
        out
    }
}

} // verus!
