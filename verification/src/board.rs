//! The 9x9 board: pieces, squares, the starting position, and the flat
//! snapshot that is handed to storage.

use vstd::prelude::*;
use crate::notation::{decode_notation, decode_spec, DecodedMove, MoveError, MoveFault};

verus! {

/// Which player a piece belongs to.
#[derive(Clone, Copy, Debug, PartialEq, Eq, Structural)]
pub enum Side {
    /// The player who moves on odd plies.
    First,
    /// The player who moves on even plies.
    Second,
}

/// What a piece is. `Unknown` stands for a designator outside the vocabulary.
#[derive(Clone, Copy, Debug, PartialEq, Eq, Structural)]
pub enum PieceKind {
    Pawn,
    Lance,
    Knight,
    Silver,
    Gold,
    Bishop,
    Rook,
    King,
    Unknown,
}

/// A piece on the board.
#[derive(Clone, Copy, Debug, PartialEq, Eq, Structural)]
pub struct Piece {
    pub kind: PieceKind,
    pub side: Side,
}

/// A square in the game's own numbering: files run 1..=9 from right to left,
/// ranks 1..=9 from top to bottom.
#[derive(Clone, Copy, Debug, PartialEq, Eq, Structural)]
pub struct Square {
    pub file: u8,
    pub rank: u8,
}

/// The side that moves on a ply: the first player when `is_sente_turn`.
pub open spec fn side_to_move(is_sente_turn: bool) -> Side {
    if is_sente_turn {
        Side::First
    } else {
        Side::Second
    }
}

/// The lower-case letter of a kind.
pub open spec fn kind_letter(kind: PieceKind) -> char {
    match kind {
        PieceKind::Pawn => 'p',
        PieceKind::Lance => 'l',
        PieceKind::Knight => 'n',
        PieceKind::Silver => 's',
        PieceKind::Gold => 'g',
        PieceKind::Bishop => 'b',
        PieceKind::Rook => 'r',
        PieceKind::King => 'k',
        PieceKind::Unknown => '?',
    }
}

/// The upper-case letter of a kind; the unknown kind has no case.
pub open spec fn kind_capital(kind: PieceKind) -> char {
    match kind {
        PieceKind::Pawn => 'P',
        PieceKind::Lance => 'L',
        PieceKind::Knight => 'N',
        PieceKind::Silver => 'S',
        PieceKind::Gold => 'G',
        PieceKind::Bishop => 'B',
        PieceKind::Rook => 'R',
        PieceKind::King => 'K',
        PieceKind::Unknown => '?',
    }
}

/// The kind that a piece designator names.
pub open spec fn kanji_kind(c: char) -> PieceKind {
    if c == '歩' {
        PieceKind::Pawn
    } else if c == '香' {
        PieceKind::Lance
    } else if c == '桂' {
        PieceKind::Knight
    } else if c == '銀' {
        PieceKind::Silver
    } else if c == '金' {
        PieceKind::Gold
    } else if c == '角' {
        PieceKind::Bishop
    } else if c == '飛' {
        PieceKind::Rook
    } else if c == '玉' || c == '王' {
        PieceKind::King
    } else {
        PieceKind::Unknown
    }
}

/// The number 1..=9 that a full-width digit stands for.
pub open spec fn file_glyph_value(c: char) -> Option<u8> {
    if c == '１' {
        Some(1u8)
    } else if c == '２' {
        Some(2u8)
    } else if c == '３' {
        Some(3u8)
    } else if c == '４' {
        Some(4u8)
    } else if c == '５' {
        Some(5u8)
    } else if c == '６' {
        Some(6u8)
    } else if c == '７' {
        Some(7u8)
    } else if c == '８' {
        Some(8u8)
    } else if c == '９' {
        Some(9u8)
    } else {
        None
    }
}

/// The number 1..=9 that a kanji numeral stands for.
pub open spec fn rank_glyph_value(c: char) -> Option<u8> {
    if c == '一' {
        Some(1u8)
    } else if c == '二' {
        Some(2u8)
    } else if c == '三' {
        Some(3u8)
    } else if c == '四' {
        Some(4u8)
    } else if c == '五' {
        Some(5u8)
    } else if c == '六' {
        Some(6u8)
    } else if c == '七' {
        Some(7u8)
    } else if c == '八' {
        Some(8u8)
    } else if c == '九' {
        Some(9u8)
    } else {
        None
    }
}

/// The number that a one-glyph text of a full-width digit stands for.
pub open spec fn file_text_value(s: Seq<char>) -> Option<usize> {
    if s.len() == 1 && file_glyph_value(s[0]) is Some {
        Some(file_glyph_value(s[0])->0 as usize)
    } else {
        None
    }
}

/// The number that a one-glyph text of a kanji numeral stands for.
pub open spec fn rank_text_value(s: Seq<char>) -> Option<usize> {
    if s.len() == 1 && rank_glyph_value(s[0]) is Some {
        Some(rank_glyph_value(s[0])->0 as usize)
    } else {
        None
    }
}

/// The number of a one-glyph text that is a full-width digit 1..=9.
pub fn convert_kanji_to_digit(c: &str) -> (r: Option<usize>)
    ensures
        r == file_text_value(c@),
        r matches Some(n) ==> 1 <= n <= 9,
{
    if c.unicode_len() != 1 {
        return None;
    }
    let g = c.get_char(0);
    if g == '１' {
        Some(1)
    } else if g == '２' {
        Some(2)
    } else if g == '３' {
        Some(3)
    } else if g == '４' {
        Some(4)
    } else if g == '５' {
        Some(5)
    } else if g == '６' {
        Some(6)
    } else if g == '７' {
        Some(7)
    } else if g == '８' {
        Some(8)
    } else if g == '９' {
        Some(9)
    } else {
        None
    }
}

/// The number of a one-glyph text that is a kanji numeral one to nine.
pub fn convert_kanji_to_rank(c: &str) -> (r: Option<usize>)
    ensures
        r == rank_text_value(c@),
        r matches Some(n) ==> 1 <= n <= 9,
{
    if c.unicode_len() != 1 {
        return None;
    }
    let g = c.get_char(0);
    if g == '一' {
        Some(1)
    } else if g == '二' {
        Some(2)
    } else if g == '三' {
        Some(3)
    } else if g == '四' {
        Some(4)
    } else if g == '五' {
        Some(5)
    } else if g == '六' {
        Some(6)
    } else if g == '七' {
        Some(7)
    } else if g == '八' {
        Some(8)
    } else if g == '九' {
        Some(9)
    } else {
        None
    }
}

/// The code of the piece that a designator names, in the hands of the player
/// to move: upper case for the first player, lower case for the second.
pub fn convert_kanji_to_piece(piece_kanji: char, is_sente_turn: bool) -> (c: char)
    ensures
        c == (Piece { kind: kanji_kind(piece_kanji), side: side_to_move(is_sente_turn) }).code_spec(),
{
    let side = if is_sente_turn {
        Side::First
    } else {
        Side::Second
    };
    Piece { kind: PieceKind::from_kanji(piece_kanji), side }.code()
}

impl Side {
    /// The other player.
    pub open spec fn other(self) -> Side {
        match self {
            Side::First => Side::Second,
            Side::Second => Side::First,
        }
    }

    pub fn opponent(self) -> (r: Side)
        ensures
            r == self.other(),
    {
        match self {
            Side::First => Side::Second,
            Side::Second => Side::First,
        }
    }
}

impl PieceKind {
    /// Decodes a piece designator; anything outside the vocabulary is `Unknown`.
    pub fn from_kanji(c: char) -> (r: PieceKind)
        ensures
            r == kanji_kind(c),
    {
        if c == '歩' {
            PieceKind::Pawn
        } else if c == '香' {
            PieceKind::Lance
        } else if c == '桂' {
            PieceKind::Knight
        } else if c == '銀' {
            PieceKind::Silver
        } else if c == '金' {
            PieceKind::Gold
        } else if c == '角' {
            PieceKind::Bishop
        } else if c == '飛' {
            PieceKind::Rook
        } else if c == '玉' || c == '王' {
            PieceKind::King
        } else {
            PieceKind::Unknown
        }
    }
}

impl Piece {
    /// The one-character code: upper case for the first player, lower case
    /// for the second.
    pub open spec fn code_spec(self) -> char {
        match self.side {
            Side::First => kind_capital(self.kind),
            Side::Second => kind_letter(self.kind),
        }
    }

    /// The same piece in the other player's hands.
    pub open spec fn flipped(self) -> Piece {
        Piece { kind: self.kind, side: self.side.other() }
    }

    pub fn new(kind: PieceKind, side: Side) -> (p: Piece)
        ensures
            p == (Piece { kind, side }),
    {
        Piece { kind, side }
    }

    #[verifier::when_used_as_spec(code_spec)]
    pub fn code(self) -> (c: char)
        ensures
            c == self.code_spec(),
    {
        match self.side {
            Side::First => match self.kind {
                PieceKind::Pawn => 'P',
                PieceKind::Lance => 'L',
                PieceKind::Knight => 'N',
                PieceKind::Silver => 'S',
                PieceKind::Gold => 'G',
                PieceKind::Bishop => 'B',
                PieceKind::Rook => 'R',
                PieceKind::King => 'K',
                PieceKind::Unknown => '?',
            },
            Side::Second => match self.kind {
                PieceKind::Pawn => 'p',
                PieceKind::Lance => 'l',
                PieceKind::Knight => 'n',
                PieceKind::Silver => 's',
                PieceKind::Gold => 'g',
                PieceKind::Bishop => 'b',
                PieceKind::Rook => 'r',
                PieceKind::King => 'k',
                PieceKind::Unknown => '?',
            },
        }
    }
}

impl Square {
    /// Both coordinates lie in 1..=9.
    pub open spec fn wf(self) -> bool {
        1 <= self.file <= 9 && 1 <= self.rank <= 9
    }

    /// The row of the grid, counted from the top: `rank - 1`.
    pub open spec fn row(self) -> int {
        self.rank - 1
    }

    /// The column of the grid, counted from the left: `9 - file`.
    pub open spec fn column(self) -> int {
        9 - self.file
    }

    /// The position in the flat, row-major snapshot.
    pub open spec fn index(self) -> int {
        self.row() * 9 + self.column()
    }

    /// A square, if both coordinates lie in 1..=9.
    pub fn new(file: u8, rank: u8) -> (r: Option<Square>)
        ensures
            r == if 1 <= file <= 9 && 1 <= rank <= 9 {
                Some(Square { file, rank })
            } else {
                None
            },
    {
        if 1 <= file && file <= 9 && 1 <= rank && rank <= 9 {
            Some(Square { file, rank })
        } else {
            None
        }
    }
}

/// Two squares of the board that differ lie in different cells.
pub proof fn lemma_squares_have_their_own_cells(a: Square, b: Square)
    requires
        a.wf(),
        b.wf(),
    ensures
        0 <= a.index() < 81,
        a.index() == b.index() <==> a == b,
{
}

/// The kind on column `x` of a player's back rank.
pub open spec fn back_rank_kind(x: int) -> PieceKind {
    if x == 0 || x == 8 {
        PieceKind::Lance
    } else if x == 1 || x == 7 {
        PieceKind::Knight
    } else if x == 2 || x == 6 {
        PieceKind::Silver
    } else if x == 3 || x == 5 {
        PieceKind::Gold
    } else {
        PieceKind::King
    }
}

/// What stands on row `y`, column `x` when a game begins. The second player
/// holds the top three rows, the first player the bottom three.
pub open spec fn initial_cell(y: int, x: int) -> Option<Piece> {
    if y == 0 {
        Some(Piece { kind: back_rank_kind(x), side: Side::Second })
    } else if y == 1 {
        if x == 1 {
            Some(Piece { kind: PieceKind::Rook, side: Side::Second })
        } else if x == 7 {
            Some(Piece { kind: PieceKind::Bishop, side: Side::Second })
        } else {
            None
        }
    } else if y == 2 {
        Some(Piece { kind: PieceKind::Pawn, side: Side::Second })
    } else if y == 6 {
        Some(Piece { kind: PieceKind::Pawn, side: Side::First })
    } else if y == 7 {
        if x == 1 {
            Some(Piece { kind: PieceKind::Bishop, side: Side::First })
        } else if x == 7 {
            Some(Piece { kind: PieceKind::Rook, side: Side::First })
        } else {
            None
        }
    } else if y == 8 {
        Some(Piece { kind: back_rank_kind(x), side: Side::First })
    } else {
        None
    }
}

/// The starting position as 81 cells in row-major order.
pub open spec fn initial_position() -> Seq<Option<Piece>> {
    Seq::new(81, |i: int| initial_cell(i / 9, i % 9))
}

/// The one-character code of a cell, if it holds a piece.
pub open spec fn cell_code(cell: Option<Piece>) -> Option<char> {
    match cell {
        Some(p) => Some(p.code_spec()),
        None => None,
    }
}

/// The snapshot of 81 cells: each cell's code, in the same order.
pub open spec fn snapshot_of(cells: Seq<Option<Piece>>) -> Seq<Option<char>> {
    Seq::new(cells.len(), |i: int| cell_code(cells[i]))
}

/// The cells after `mv` is played on `cells`. A drop puts the named piece
/// on the destination, whatever stood there. A move lifts whatever piece
/// stands on the origin and puts that piece on the destination; it fails
/// where the origin is empty.
pub open spec fn play(cells: Seq<Option<Piece>>, mv: DecodedMove) -> Result<
    Seq<Option<Piece>>,
    MoveFault,
> {
    if mv.is_drop {
        Ok(cells.update(mv.dest.index(), Some(mv.piece)))
    } else {
        match mv.origin {
            None => Err(MoveFault::UnsupportedNotation),
            Some(from) => match cells[from.index()] {
                None => Err(MoveFault::EmptySourceSquare),
                Some(p) => Ok(cells.update(from.index(), None).update(mv.dest.index(), Some(p))),
            },
        }
    }
}

/// The cells after the notation `fugo` is decoded and played on `cells`.
pub open spec fn play_notation(cells: Seq<Option<Piece>>, fugo: Seq<char>, is_sente_turn: bool) -> Result<
    Seq<Option<Piece>>,
    MoveFault,
> {
    match decode_spec(fugo, is_sente_turn) {
        Ok(mv) => play(cells, mv),
        Err(e) => Err(e),
    }
}

/// The board: nine rows of nine cells, row 0 at the top.
#[derive(Clone, Copy, Debug)]
pub struct Board {
    pub squares: [[Option<Piece>; 9]; 9],
}

impl View for Board {
    type V = Seq<Option<Piece>>;

    /// The 81 cells in row-major order.
    open spec fn view(&self) -> Seq<Option<Piece>> {
        Seq::new(81, |i: int| self.squares[i / 9][i % 9])
    }
}

impl Board {
    /// A board in the standard starting position.
    pub fn new() -> (b: Board)
        ensures
            b@ == initial_position(),
    {
        let s = Side::Second;
        let f = Side::First;
        let mut squares: [[Option<Piece>; 9]; 9] = [[None; 9]; 9];
        squares[0] = [
            Some(Piece { kind: PieceKind::Lance, side: s }),
            Some(Piece { kind: PieceKind::Knight, side: s }),
            Some(Piece { kind: PieceKind::Silver, side: s }),
            Some(Piece { kind: PieceKind::Gold, side: s }),
            Some(Piece { kind: PieceKind::King, side: s }),
            Some(Piece { kind: PieceKind::Gold, side: s }),
            Some(Piece { kind: PieceKind::Silver, side: s }),
            Some(Piece { kind: PieceKind::Knight, side: s }),
            Some(Piece { kind: PieceKind::Lance, side: s }),
        ];
        squares[1] = [
            None,
            Some(Piece { kind: PieceKind::Rook, side: s }),
            None,
            None,
            None,
            None,
            None,
            Some(Piece { kind: PieceKind::Bishop, side: s }),
            None,
        ];
        squares[2] = [Some(Piece { kind: PieceKind::Pawn, side: s });9];
        squares[6] = [Some(Piece { kind: PieceKind::Pawn, side: f });9];
        squares[7] = [
            None,
            Some(Piece { kind: PieceKind::Bishop, side: f }),
            None,
            None,
            None,
            None,
            None,
            Some(Piece { kind: PieceKind::Rook, side: f }),
            None,
        ];
        squares[8] = [
            Some(Piece { kind: PieceKind::Lance, side: f }),
            Some(Piece { kind: PieceKind::Knight, side: f }),
            Some(Piece { kind: PieceKind::Silver, side: f }),
            Some(Piece { kind: PieceKind::Gold, side: f }),
            Some(Piece { kind: PieceKind::King, side: f }),
            Some(Piece { kind: PieceKind::Gold, side: f }),
            Some(Piece { kind: PieceKind::Silver, side: f }),
            Some(Piece { kind: PieceKind::Knight, side: f }),
            Some(Piece { kind: PieceKind::Lance, side: f }),
        ];
        let b = Board { squares };
        proof {
            assert forall|y: int, x: int| 0 <= y < 9 && 0 <= x < 9 implies b.squares[y][x]
                == initial_cell(y, x) by {}
            assert(b@ =~= initial_position());
        }
        b
    }

    /// Plays a decoded move. On an error the board stays as it was.
    pub fn apply(&mut self, mv: &DecodedMove) -> (r: Result<(), MoveError>)
        requires
            mv.wf(),
        ensures
            match play(old(self)@, *mv) {
                Ok(cells) => r is Ok && final(self)@ == cells,
                Err(e) => r is Err && r->Err_0@ == e && final(self)@ == old(self)@,
            },
    {
        let to_y: usize = (mv.dest.rank - 1) as usize;
        let to_x: usize = (9 - mv.dest.file) as usize;
        if mv.is_drop {
            self.squares[to_y][to_x] = Some(mv.piece);
            proof {
                assert(self@ =~= old(self)@.update(mv.dest.index(), Some(mv.piece)));
            }
            return Ok(());
        }
        match mv.origin {
            None => Err(MoveError::UnsupportedNotation),
            Some(from) => {
                let from_y: usize = (from.rank - 1) as usize;
                let from_x: usize = (9 - from.file) as usize;
                assert(self@[from.index()] == self.squares[from_y as int][from_x as int]);
                match self.squares[from_y][from_x] {
                    None => Err(MoveError::EmptySourceSquare),
                    Some(p) => {
                        self.squares[from_y][from_x] = None;
                        self.squares[to_y][to_x] = Some(p);
                        proof {
                            assert(self@ =~= old(self)@.update(from.index(), None).update(
                                mv.dest.index(),
                                Some(p),
                            ));
                        }
                        Ok(())
                    },
                }
            },
        }
    }

    /// Decodes the notation `fugo` for the player to move and plays it. On
    /// an error the board stays as it was.
    pub fn apply_move(&mut self, fugo: &str, is_sente_turn: bool) -> (r: Result<(), MoveError>)
        ensures
            match play_notation(old(self)@, fugo@, is_sente_turn) {
                Ok(cells) => r is Ok && final(self)@ == cells,
                Err(e) => r is Err && r->Err_0@ == e && final(self)@ == old(self)@,
            },
    {
        match decode_notation(fugo, is_sente_turn) {
            Ok(mv) => self.apply(&mv),
            Err(e) => Err(e),
        }
    }

    /// The flat snapshot: 81 cells, row by row from the top, each row from
    /// the left, every occupied cell as its piece's code.
    pub fn to_verbose_sfen(&self) -> (flat: [Option<char>; 81])
        ensures
            flat@ == snapshot_of(self@),
    {
        let mut flat: [Option<char>; 81] = [None; 81];
        let mut y: usize = 0;
        while y < 9
            invariant
                y <= 9,
                forall|i: int| 0 <= i < y * 9 ==> flat@[i] == cell_code(self@[i]),
            decreases 9 - y,
        {
            let mut x: usize = 0;
            while x < 9
                invariant
                    y < 9,
                    x <= 9,
                    forall|i: int| 0 <= i < y * 9 + x ==> flat@[i] == cell_code(self@[i]),
                decreases 9 - x,
            {
                let code = match self.squares[y][x] {
                    Some(p) => Some(p.code()),
                    None => None,
                };
                flat[y * 9 + x] = code;
                x += 1;
            }
            y += 1;
        }
        proof {
            assert(flat@ =~= snapshot_of(self@));
        }
        flat
    }
}

/// A drop puts the piece that the notation names, in the mover's hands, on
/// the destination, and changes no other cell; no origin is looked up.
pub proof fn lemma_drop_places_piece(cells: Seq<Option<Piece>>, mv: DecodedMove)
    requires
        cells.len() == 81,
        mv.wf(),
        mv.is_drop,
    ensures
        play(cells, mv) is Ok,
        play(cells, mv)->Ok_0.len() == 81,
        play(cells, mv)->Ok_0[mv.dest.index()] == Some(mv.piece),
        snapshot_of(play(cells, mv)->Ok_0)[mv.dest.index()] == Some(mv.piece.code_spec()),
        forall|i: int|
            0 <= i < 81 && i != mv.dest.index() ==> play(cells, mv)->Ok_0[i] == cells[i],
{
}

/// A move from a square on which nothing stands fails, and no other move
/// with an origin does.
pub proof fn lemma_move_needs_a_piece(cells: Seq<Option<Piece>>, mv: DecodedMove)
    requires
        cells.len() == 81,
        mv.wf(),
        !mv.is_drop,
        mv.origin is Some,
    ensures
        cells[mv.origin->0.index()] is None <==> play(cells, mv) == Err::<
            Seq<Option<Piece>>,
            MoveFault,
        >(MoveFault::EmptySourceSquare),
        cells[mv.origin->0.index()] is Some <==> play(cells, mv) is Ok,
{
}

/// A move between two different squares empties the origin, puts the piece
/// that stood there on the destination, and changes no other cell. The
/// piece that the notation names plays no part.
pub proof fn lemma_move_carries_the_occupant(cells: Seq<Option<Piece>>, mv: DecodedMove)
    requires
        cells.len() == 81,
        mv.wf(),
        !mv.is_drop,
        mv.origin is Some,
        mv.origin->0 != mv.dest,
        cells[mv.origin->0.index()] is Some,
    ensures
        mv.origin->0.index() != mv.dest.index(),
        play(cells, mv) is Ok,
        play(cells, mv)->Ok_0.len() == 81,
        play(cells, mv)->Ok_0[mv.origin->0.index()] is None,
        play(cells, mv)->Ok_0[mv.dest.index()] == cells[mv.origin->0.index()],
        forall|i: int|
            0 <= i < 81 && i != mv.dest.index() && i != mv.origin->0.index() ==> play(
                cells,
                mv,
            )->Ok_0[i] == cells[i],
{
}

/// A move whose origin is its destination leaves the position as it is.
pub proof fn lemma_move_in_place(cells: Seq<Option<Piece>>, mv: DecodedMove)
    requires
        cells.len() == 81,
        mv.wf(),
        !mv.is_drop,
        mv.origin == Some(mv.dest),
        cells[mv.dest.index()] is Some,
    ensures
        play(cells, mv) == Ok::<Seq<Option<Piece>>, MoveFault>(cells),
{
    let from = mv.dest.index();
    let p = cells[from]->0;
    assert(cells.update(from, None).update(from, Some(p)) =~= cells);
}

/// Whether a cell of a snapshot holds a piece.
pub open spec fn is_occupied(cell: Option<char>) -> bool {
    cell is Some
}

/// Whether a cell of a snapshot holds a piece of the first player: an
/// upper-case letter.
pub open spec fn is_first_players(cell: Option<char>) -> bool {
    cell matches Some(c) && 0x41 <= c as u32 <= 0x5a
}

/// Whether a cell of a snapshot holds a piece of the second player: a
/// lower-case letter.
pub open spec fn is_second_players(cell: Option<char>) -> bool {
    cell matches Some(c) && 0x61 <= c as u32 <= 0x7a
}

/// How many of the first `n` cells of a snapshot meet `f`.
pub open spec fn count_cells(s: Seq<Option<char>>, f: spec_fn(Option<char>) -> bool, n: int) -> nat
    decreases n,
{
    if n <= 0 {
        0
    } else {
        count_cells(s, f, n - 1) + if f(s[n - 1]) {
            1nat
        } else {
            0nat
        }
    }
}

proof fn lemma_count_row(s: Seq<Option<char>>, f: spec_fn(Option<char>) -> bool, y: int, k: nat)
    requires
        0 <= y < 9,
        k == (if f(s[9 * y]) { 1nat } else { 0nat }) + (if f(s[9 * y + 1]) { 1nat } else { 0nat })
            + (if f(s[9 * y + 2]) { 1nat } else { 0nat }) + (if f(s[9 * y + 3]) { 1nat } else { 0nat })
            + (if f(s[9 * y + 4]) { 1nat } else { 0nat }) + (if f(s[9 * y + 5]) { 1nat } else { 0nat })
            + (if f(s[9 * y + 6]) { 1nat } else { 0nat }) + (if f(s[9 * y + 7]) { 1nat } else { 0nat })
            + (if f(s[9 * y + 8]) { 1nat } else { 0nat }),
    ensures
        count_cells(s, f, 9 * y + 9) == count_cells(s, f, 9 * y) + k,
{
    reveal_with_fuel(count_cells, 10);
}

proof fn lemma_initial_row_counts(f: spec_fn(Option<char>) -> bool, top: nat, bottom: nat)
    requires
        forall|p: Piece|
            p.kind != PieceKind::Unknown ==> #[trigger] f(Some(p.code_spec())) == (if p.side
                == Side::Second {
                top == 1
            } else {
                bottom == 1
            }),
        !f(None),
        top <= 1,
        bottom <= 1,
    ensures
        count_cells(snapshot_of(initial_position()), f, 81) == 20 * top + 20 * bottom,
        count_cells(snapshot_of(initial_position()), f, 54) - count_cells(
            snapshot_of(initial_position()),
            f,
            27,
        ) == 0,
{
    let s = snapshot_of(initial_position());
    assert forall|i: int| 0 <= i < 81 implies #[trigger] s[i] == cell_code(
        initial_cell(i / 9, i % 9),
    ) by {}
    assert forall|i: int| 0 <= i < 81 implies f(#[trigger] s[i]) == (match initial_cell(
        i / 9,
        i % 9,
    ) {
        Some(p) => if p.side == Side::Second {
            top == 1
        } else {
            bottom == 1
        },
        None => false,
    }) by {
        if let Some(p) = initial_cell(i / 9, i % 9) {
            assert(p.kind != PieceKind::Unknown);
            assert(s[i] == Some(p.code_spec()));
        }
    }
    assert(count_cells(s, f, 0) == 0);
    lemma_count_row(s, f, 0, 9 * top);
    lemma_count_row(s, f, 1, 2 * top);
    lemma_count_row(s, f, 2, 9 * top);
    lemma_count_row(s, f, 3, 0);
    lemma_count_row(s, f, 4, 0);
    lemma_count_row(s, f, 5, 0);
    lemma_count_row(s, f, 6, 9 * bottom);
    lemma_count_row(s, f, 7, 2 * bottom);
    lemma_count_row(s, f, 8, 9 * bottom);
}

/// The snapshot of the starting position holds 40 pieces, 20 of each
/// player, and none on the three middle rows.
pub proof fn lemma_initial_snapshot_counts()
    ensures
        count_cells(snapshot_of(initial_position()), |c: Option<char>| is_occupied(c), 81) == 40,
        count_cells(snapshot_of(initial_position()), |c: Option<char>| is_first_players(c), 81)
            == 20,
        count_cells(snapshot_of(initial_position()), |c: Option<char>| is_second_players(c), 81)
            == 20,
        forall|i: int| 27 <= i < 54 ==> snapshot_of(initial_position())[i] is None,
{
    lemma_initial_row_counts(|c: Option<char>| is_occupied(c), 1, 1);
    lemma_initial_row_counts(|c: Option<char>| is_first_players(c), 0, 1);
    lemma_initial_row_counts(|c: Option<char>| is_second_players(c), 1, 0);
    assert forall|i: int| 27 <= i < 54 implies snapshot_of(initial_position())[i] is None by {
        assert(initial_position()[i] == initial_cell(i / 9, i % 9));
    }
}

} // verus!
