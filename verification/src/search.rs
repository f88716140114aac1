//! The reversal convention of position queries: a query from the second
//! player's side is the same query on the board turned half round, with the
//! pieces changing hands.

use vstd::prelude::*;
use crate::board::{initial_cell, initial_position, snapshot_of, Piece, PieceKind, Square};
use crate::text::{chars_of, digits_value, number_value, parse_digits, parse_number, text_of};

verus! {

/// A letter in the other case; any other character as it is.
pub open spec fn swap_case(c: char) -> char {
    let u = c as u32;
    if 0x61 <= u <= 0x7a {
        (u - 0x20) as char
    } else if 0x41 <= u <= 0x5a {
        (u + 0x20) as char
    } else {
        c
    }
}

/// Turns a lower-case ASCII letter into upper case and an upper-case one
/// into lower case.
pub fn invert_case(c: char) -> (r: char)
    ensures
        r == swap_case(c),
{
    let u: u32 = c as u32;
    if 0x61 <= u && u <= 0x7a {
        ((u - 0x20) as u8) as char
    } else if 0x41 <= u && u <= 0x5a {
        ((u + 0x20) as u8) as char
    } else {
        c
    }
}

/// The number of the cell that cell `c` becomes when the board is turned
/// half round; cells are numbered from 1 to 81.
pub open spec fn mirrored(c: int) -> int {
    82 - c
}

/// The codes of a query with every piece in the other player's hands.
pub open spec fn swapped_codes(codes: Seq<char>) -> Seq<char> {
    Seq::new(codes.len(), |i: int| swap_case(codes[i]))
}

/// The cell of a snapshot with its piece in the other player's hands.
pub open spec fn swapped_cell(cell: Option<char>) -> Option<char> {
    match cell {
        Some(c) => Some(swap_case(c)),
        None => None,
    }
}

/// A cell with its piece in the other player's hands.
pub open spec fn flipped_cell(cell: Option<Piece>) -> Option<Piece> {
    match cell {
        Some(p) => Some(p.flipped()),
        None => None,
    }
}

/// The position as the other player sees it: the board turned half round,
/// and every piece in the other player's hands.
pub open spec fn turned(cells: Seq<Option<Piece>>) -> Seq<Option<Piece>> {
    Seq::new(cells.len(), |i: int| flipped_cell(cells[cells.len() - 1 - i]))
}

/// The cell number that a query names: the number that the text writes,
/// with or without a sign, and 0 for a text that writes none that fits 32
/// bits.
pub open spec fn cell_number(c: Seq<char>) -> int {
    if c.len() > 0 && c[0] == '-' {
        match digits_value(c.skip(1), 0x8000_0000) {
            Some(n) => -(n as int),
            None => 0,
        }
    } else {
        match number_value(c, 0x7fff_ffff) {
            Some(n) => n as int,
            None => 0,
        }
    }
}

/// The number of the cell that cell `c` becomes when the board is turned
/// half round.
pub fn mirror_cell(c: i32) -> (r: i64)
    ensures
        r == mirrored(c as int),
{
    82 - (c as i64)
}

/// The codes of a query with every piece in the other player's hands.
pub fn mirror_codes(sfen: &str) -> (r: String)
    ensures
        r@ == swapped_codes(sfen@),
{
    let v = chars_of(sfen);
    let mut out: Vec<char> = Vec::new();
    let mut i: usize = 0;
    while i < v.len()
        invariant
            i <= v.len(),
            out@.len() == i,
            forall|j: int| 0 <= j < i ==> out@[j] == swap_case(v@[j]),
        decreases v.len() - i,
    {
        out.push(invert_case(v[i]));
        i += 1;
    }
    proof {
        assert(out@.subrange(0, out@.len() as int) =~= swapped_codes(sfen@));
    }
    text_of(&out, 0, out.len())
}

/// Reads the cell number of a query.
pub fn read_cell_number(c: &str) -> (r: i32)
    ensures
        r == cell_number(c@),
{
    let v = chars_of(c);
    if v.len() > 0 && v[0] == '-' {
        match parse_digits(&v, 1, 0x8000_0000) {
            Some(n) => (-(n as i64)) as i32,
            None => 0,
        }
    } else {
        match parse_number(&v, 0x7fff_ffff) {
            Some(n) => n as i32,
            None => 0,
        }
    }
}

/// The query that finds from the second player's side what the query for
/// code `sfen` in cell `c` finds from the first player's side.
pub fn mirror_query(c: &str, sfen: &str) -> (r: (i64, String))
    ensures
        r.0 == mirrored(cell_number(c@)),
        r.1@ == swapped_codes(sfen@),
{
    (mirror_cell(read_cell_number(c)), mirror_codes(sfen))
}

/// Changing hands changes the case of a piece's code and nothing else.
pub proof fn lemma_code_follows_side(p: Piece)
    ensures
        swap_case(p.code_spec()) == p.flipped().code_spec(),
        p.flipped().flipped() == p,
{
}

/// Pieces of known kinds have different codes.
pub proof fn lemma_code_names_piece(p: Piece, q: Piece)
    requires
        p.kind != PieceKind::Unknown,
        q.kind != PieceKind::Unknown,
        p.code_spec() == q.code_spec(),
    ensures
        p == q,
{
}

/// Swapping the case twice gives the character back.
pub proof fn lemma_swap_case_twice(c: char)
    ensures
        swap_case(swap_case(c)) == c,
{
}

/// Turning a square half round takes its cell `c` (from 1) to cell `82 - c`,
/// and turning twice brings every cell back.
pub proof fn lemma_mirrored_square(sq: Square)
    requires
        sq.wf(),
    ensures
        (Square { file: (10 - sq.file) as u8, rank: (10 - sq.rank) as u8 }).index() + 1 == mirrored(
            sq.index() + 1,
        ),
        mirrored(mirrored(sq.index() + 1)) == sq.index() + 1,
{
}

/// The reversal convention: what cell `c` of a snapshot holds is found, in
/// the other case, in cell `82 - c` of the snapshot of the position as the
/// other player sees it. So the occupied cells of the two snapshots
/// correspond one to one.
pub proof fn lemma_reversal_convention(cells: Seq<Option<Piece>>, c: int)
    requires
        cells.len() == 81,
        1 <= c <= 81,
    ensures
        1 <= mirrored(c) <= 81,
        snapshot_of(turned(cells))[mirrored(c) - 1] == swapped_cell(snapshot_of(cells)[c - 1]),
        snapshot_of(turned(cells))[mirrored(c) - 1] is Some <==> snapshot_of(cells)[c - 1] is Some,
        turned(turned(cells)) == cells,
{
    let t = turned(cells);
    assert(t[mirrored(c) - 1] == flipped_cell(cells[c - 1]));
    if let Some(p) = cells[c - 1] {
        lemma_code_follows_side(p);
    }
    assert forall|i: int| 0 <= i < 81 implies turned(t)[i] == cells[i] by {
        assert(t[80 - i] == flipped_cell(cells[i]));
        if let Some(p) = cells[i] {
            lemma_code_follows_side(p);
        }
    }
    assert(turned(t) =~= cells);
}

/// The starting position looks the same from both sides.
pub proof fn lemma_initial_position_is_symmetric()
    ensures
        turned(initial_position()) == initial_position(),
{
    assert forall|i: int| 0 <= i < 81 implies turned(initial_position())[i]
        == initial_position()[i] by {
        let j = 80 - i;
        assert(initial_position()[j] == initial_cell(j / 9, j % 9));
        assert(j / 9 == 8 - i / 9 && j % 9 == 8 - i % 9);
    }
    assert(turned(initial_position()) =~= initial_position());
}

} // verus!
