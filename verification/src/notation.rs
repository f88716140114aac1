//! Move notation: the grammar of one move, its decoding into a move on the
//! board, and the rewriting of the "same square" shorthand.

use vstd::prelude::*;
use crate::board::{Piece, PieceKind, Side, Square};
use crate::board::{file_glyph_value, file_text_value, kanji_kind, rank_glyph_value, rank_text_value, side_to_move};
use crate::text::{chars_of, has_char, lemma_without_concat, remove_char, slice_of, text_of, without};

verus! {

/// The error with which the regex crate refuses a pattern.
#[verifier::external_type_specification]
#[verifier::external_body]
pub struct ExPatternError(regex::Error);

/// The grammar of one move: destination file, destination rank, two
/// characters of piece designator, then an optional two-digit origin.
pub const MOVE_PATTERN: &'static str =
    "(?P<to_file>[１２３４５６７８９])(?P<to_rank>[一二三四五六七八九])(?P<piece>..)（?(?P<from>[1-9]{2})?）?";

/// The grammar of a destination square alone.
pub const DESTINATION_PATTERN: &'static str =
    "(?P<to_file>[１２３４５６７８９])(?P<to_rank>[一二三四五六七八九])";

/// What a search for `pattern` in `haystack` yields: `None` where the
/// pattern is refused, `Some(None)` where nothing matches, and otherwise the
/// text of each capture group of the leftmost match, group 0 (the whole
/// match) first, with `None` for a group that took no part.
pub uninterp spec fn captured_groups(pattern: Seq<char>, haystack: Seq<char>) -> Option<
    Option<Seq<Option<Seq<char>>>>,
>;

/// The texts of a list of groups.
pub open spec fn group_texts(groups: Seq<Option<String>>) -> Seq<Option<Seq<char>>> {
    Seq::new(
        groups.len(),
        |i: int|
            match groups[i] {
                Some(s) => Some(s@),
                None => None,
            },
    )
}

/// A search result as plain values.
pub open spec fn search_view(r: Result<Option<Vec<Option<String>>>, regex::Error>) -> Option<
    Option<Seq<Option<Seq<char>>>>,
> {
    match r {
        Err(_) => None,
        Ok(None) => Some(None),
        Ok(Some(v)) => Some(Some(group_texts(v@))),
    }
}

/// `regex::Regex::new` on `pattern`, then `Regex::captures` on `haystack`,
/// each group read with `Captures::iter` and `Match::as_str`. Claimed: the
/// outcome depends on the two texts alone. What the groups hold is not
/// stated here.
#[verifier::external_body]
fn search_groups(pattern: &str, haystack: &str) -> (r: Result<
    Option<Vec<Option<String>>>,
    regex::Error,
>)
    ensures
        search_view(r) == captured_groups(pattern@, haystack@),
{
    let re = regex::Regex::new(pattern)?;
    Ok(re.captures(haystack).map(|caps| caps.iter().map(|g| g.map(|m| m.as_str().to_string())).collect()))
}

/// Why a move could not be read or played.
#[derive(Debug, PartialEq, Eq)]
pub enum MoveError {
    /// The notation does not match the grammar; holds the notation.
    Grammar(String),
    /// Neither a drop marker nor an origin square: the square that the piece
    /// leaves cannot be told.
    UnsupportedNotation,
    /// The move leaves a square on which no piece stands.
    EmptySourceSquare,
    /// A file or rank glyph outside the vocabulary; holds the glyphs.
    UnrecognizedGlyph(String),
}

/// A `MoveError` with its texts as character sequences.
pub enum MoveFault {
    Grammar(Seq<char>),
    UnsupportedNotation,
    EmptySourceSquare,
    UnrecognizedGlyph(Seq<char>),
}

impl View for MoveError {
    type V = MoveFault;

    open spec fn view(&self) -> MoveFault {
        match self {
            MoveError::Grammar(s) => MoveFault::Grammar(s@),
            MoveError::UnsupportedNotation => MoveFault::UnsupportedNotation,
            MoveError::EmptySourceSquare => MoveFault::EmptySourceSquare,
            MoveError::UnrecognizedGlyph(s) => MoveFault::UnrecognizedGlyph(s@),
        }
    }
}

/// What a `MoveFault` reads as.
pub open spec fn fault_text(fault: MoveFault) -> Seq<char> {
    match fault {
        MoveFault::Grammar(_) => "不正な符号形式です"@,
        MoveFault::UnsupportedNotation => "未対応の指し手です"@,
        MoveFault::EmptySourceSquare => "No piece at source"@,
        MoveFault::UnrecognizedGlyph(glyph) => "符号の数字が不正です: "@ + glyph,
    }
}

impl MoveError {
    /// The error as a line of text.
    pub fn message(&self) -> (r: String)
        ensures
            r@ == fault_text(self@),
    {
        match self {
            MoveError::Grammar(_) => "不正な符号形式です".to_owned(),
            MoveError::UnsupportedNotation => "未対応の指し手です".to_owned(),
            MoveError::EmptySourceSquare => "No piece at source".to_owned(),
            MoveError::UnrecognizedGlyph(glyph) => {
                let mut text = "符号の数字が不正です: ".to_owned();
                text.append(glyph.as_str());
                text
            },
        }
    }
}

/// One move as the board needs it.
#[derive(Clone, Copy, Debug, PartialEq, Eq, Structural)]
pub struct DecodedMove {
    /// The square on which the piece lands.
    pub dest: Square,
    /// The piece that the notation names, in the mover's hands.
    pub piece: Piece,
    /// Whether the piece comes from the mover's reserve.
    pub is_drop: bool,
    /// The square that the piece leaves; a drop has none.
    pub origin: Option<Square>,
    /// Whether the notation carries the promotion glyph.
    pub promotes: bool,
}

impl DecodedMove {
    /// The squares lie on the board, and a drop has no origin.
    pub open spec fn wf(self) -> bool {
        &&& self.dest.wf()
        &&& self.origin matches Some(from) ==> from.wf()
        &&& self.is_drop ==> self.origin is None
    }

    /// A drop of `piece` on `dest`.
    pub fn drop_on(dest: Square, piece: Piece) -> (m: DecodedMove)
        ensures
            m == (DecodedMove { dest, piece, is_drop: true, origin: None, promotes: false }),
    {
        DecodedMove { dest, piece, is_drop: true, origin: None, promotes: false }
    }

    /// A move of `piece` from `origin` to `dest`.
    pub fn step(origin: Square, dest: Square, piece: Piece) -> (m: DecodedMove)
        ensures
            m == (DecodedMove {
                dest,
                piece,
                is_drop: false,
                origin: Some(origin),
                promotes: false,
            }),
    {
        DecodedMove { dest, piece, is_drop: false, origin: Some(origin), promotes: false }
    }
}

/// The glyph that marks a drop.
pub open spec fn drop_glyph() -> char {
    '打'
}

/// The glyph that marks a promotion.
pub open spec fn promotion_glyph() -> char {
    '成'
}

/// The glyph that stands for "the square of the move before".
pub open spec fn same_square_glyph() -> char {
    '同'
}

/// The number 1..=9 that an ASCII digit stands for; `0` stands for none.
pub open spec fn origin_digit_value(c: char) -> Option<u8> {
    if c == '1' {
        Some(1u8)
    } else if c == '2' {
        Some(2u8)
    } else if c == '3' {
        Some(3u8)
    } else if c == '4' {
        Some(4u8)
    } else if c == '5' {
        Some(5u8)
    } else if c == '6' {
        Some(6u8)
    } else if c == '7' {
        Some(7u8)
    } else if c == '8' {
        Some(8u8)
    } else if c == '9' {
        Some(9u8)
    } else {
        None
    }
}

/// The square that a two-digit origin names, file first.
pub open spec fn origin_square(o: Seq<char>) -> Option<Square> {
    if o.len() == 2 && origin_digit_value(o[0]) is Some && origin_digit_value(o[1]) is Some {
        Some(Square { file: origin_digit_value(o[0])->0, rank: origin_digit_value(o[1])->0 })
    } else {
        None
    }
}

/// Whether the notation ends in the drop marker.
pub open spec fn is_drop_notation(fugo: Seq<char>) -> bool {
    fugo.len() > 0 && fugo.last() == drop_glyph()
}

/// The move that the capture groups of the move grammar stand for. The
/// groups are: whole match, destination file, destination rank, piece
/// designator, origin. `fugo` is the notation as it was written, and the
/// mover is the first player when `is_sente_turn`.
pub open spec fn decode_groups(
    groups: Seq<Option<Seq<char>>>,
    fugo: Seq<char>,
    is_sente_turn: bool,
) -> Result<DecodedMove, MoveFault> {
    if groups.len() != 5 || groups[1] is None || groups[2] is None || groups[3] is None
        || groups[3]->0.len() == 0 {
        Err(MoveFault::Grammar(fugo))
    } else if file_text_value(groups[1]->0) is None {
        Err(MoveFault::UnrecognizedGlyph(groups[1]->0))
    } else if rank_text_value(groups[2]->0) is None {
        Err(MoveFault::UnrecognizedGlyph(groups[2]->0))
    } else {
        let dest = Square {
            file: file_glyph_value(groups[1]->0[0])->0,
            rank: rank_glyph_value(groups[2]->0[0])->0,
        };
        let piece = Piece { kind: kanji_kind(groups[3]->0[0]), side: side_to_move(is_sente_turn) };
        let promotes = fugo.contains(promotion_glyph());
        if is_drop_notation(fugo) {
            Ok(DecodedMove { dest, piece, is_drop: true, origin: None, promotes })
        } else {
            match groups[4] {
                None => Err(MoveFault::UnsupportedNotation),
                Some(o) => match origin_square(o) {
                    None => Err(MoveFault::UnrecognizedGlyph(o)),
                    Some(from) => Ok(
                        DecodedMove { dest, piece, is_drop: false, origin: Some(from), promotes },
                    ),
                },
            }
        }
    }
}

/// The move that a search with the move grammar stands for: a refused
/// pattern or a search without a match is a grammar error.
pub open spec fn decode_search(
    found: Option<Option<Seq<Option<Seq<char>>>>>,
    fugo: Seq<char>,
    is_sente_turn: bool,
) -> Result<DecodedMove, MoveFault> {
    match found {
        Some(Some(groups)) => decode_groups(groups, fugo, is_sente_turn),
        _ => Err(MoveFault::Grammar(fugo)),
    }
}

/// What decoding the notation `fugo` yields.
pub open spec fn decode_spec(fugo: Seq<char>, is_sente_turn: bool) -> Result<
    DecodedMove,
    MoveFault,
> {
    decode_search(
        captured_groups(MOVE_PATTERN@, without(fugo, promotion_glyph())),
        fugo,
        is_sente_turn,
    )
}

/// A decoding result with its error as plain values.
pub open spec fn decoded_view(r: Result<DecodedMove, MoveError>) -> Result<DecodedMove, MoveFault> {
    match r {
        Ok(m) => Ok(m),
        Err(e) => Err(e@),
    }
}

/// Reads an ASCII digit 1..=9.
pub fn origin_digit(c: char) -> (r: Option<u8>)
    ensures
        r == origin_digit_value(c),
{
    if c == '1' {
        Some(1)
    } else if c == '2' {
        Some(2)
    } else if c == '3' {
        Some(3)
    } else if c == '4' {
        Some(4)
    } else if c == '5' {
        Some(5)
    } else if c == '6' {
        Some(6)
    } else if c == '7' {
        Some(7)
    } else if c == '8' {
        Some(8)
    } else if c == '9' {
        Some(9)
    } else {
        None
    }
}

/// Reads a two-digit origin.
pub fn parse_origin(o: &str) -> (r: Option<Square>)
    ensures
        r == origin_square(o@),
        r matches Some(sq) ==> sq.wf(),
{
    let v = chars_of(o);
    if v.len() != 2 {
        return None;
    }
    match (origin_digit(v[0]), origin_digit(v[1])) {
        (Some(file), Some(rank)) => Some(Square { file, rank }),
        _ => None,
    }
}

/// Decodes the capture groups of the move grammar into a move.
pub fn decode_move(groups: &Vec<Option<String>>, fugo: &str, is_sente_turn: bool) -> (r: Result<
    DecodedMove,
    MoveError,
>)
    ensures
        decoded_view(r) == decode_groups(group_texts(groups@), fugo@, is_sente_turn),
        r matches Ok(m) ==> m.wf(),
{
    let ghost g = group_texts(groups@);
    if groups.len() != 5 {
        return Err(MoveError::Grammar(fugo.to_owned()));
    }
    assert(g[1] == match groups@[1] { Some(s) => Some(s@), None => None });
    assert(g[2] == match groups@[2] { Some(s) => Some(s@), None => None });
    assert(g[3] == match groups@[3] { Some(s) => Some(s@), None => None });
    assert(g[4] == match groups@[4] { Some(s) => Some(s@), None => None });
    let (file_text, rank_text, piece_text) = match (&groups[1], &groups[2], &groups[3]) {
        (Some(f), Some(r), Some(p)) => (f, r, p),
        _ => {
            return Err(MoveError::Grammar(fugo.to_owned()));
        },
    };
    let piece_chars = chars_of(piece_text.as_str());
    if piece_chars.len() == 0 {
        return Err(MoveError::Grammar(fugo.to_owned()));
    }
    let side = if is_sente_turn {
        Side::First
    } else {
        Side::Second
    };
    let piece = Piece { kind: PieceKind::from_kanji(piece_chars[0]), side };
    let file = match crate::board::convert_kanji_to_digit(file_text.as_str()) {
        Some(n) => n,
        None => {
            return Err(MoveError::UnrecognizedGlyph(file_text.clone()));
        },
    };
    let rank = match crate::board::convert_kanji_to_rank(rank_text.as_str()) {
        Some(n) => n,
        None => {
            return Err(MoveError::UnrecognizedGlyph(rank_text.clone()));
        },
    };
    let dest = Square { file: file as u8, rank: rank as u8 };
    let written = chars_of(fugo);
    let promotes = has_char(&written, '成');
    if written.len() > 0 && written[written.len() - 1] == '打' {
        return Ok(DecodedMove { dest, piece, is_drop: true, origin: None, promotes });
    }
    match &groups[4] {
        None => Err(MoveError::UnsupportedNotation),
        Some(o) => match parse_origin(o.as_str()) {
            None => Err(MoveError::UnrecognizedGlyph(o.clone())),
            Some(from) => Ok(
                DecodedMove { dest, piece, is_drop: false, origin: Some(from), promotes },
            ),
        },
    }
}

/// Decodes one notation: the promotion glyph is taken out, the move grammar
/// is searched for, and the groups found are decoded.
pub fn decode_notation(fugo: &str, is_sente_turn: bool) -> (r: Result<DecodedMove, MoveError>)
    ensures
        decoded_view(r) == decode_spec(fugo@, is_sente_turn),
        r matches Ok(m) ==> m.wf(),
{
    let written = chars_of(fugo);
    let cleaned = remove_char(&written, '成');
    let cleaned_text = text_of(&cleaned, 0, cleaned.len());
    proof {
        assert(cleaned_text@ =~= without(fugo@, promotion_glyph()));
    }
    match search_groups(MOVE_PATTERN, cleaned_text.as_str()) {
        Ok(Some(groups)) => decode_move(&groups, fugo, is_sente_turn),
        _ => Err(MoveError::Grammar(fugo.to_owned())),
    }
}

/// The notation without half-width and full-width spaces.
pub open spec fn strip_spaces(fugo: Seq<char>) -> Seq<char> {
    without(without(fugo, '\u{3000}'), ' ')
}

/// The destination glyphs in the capture groups of the destination grammar:
/// the file text and the rank text.
pub open spec fn destination_glyphs(groups: Seq<Option<Seq<char>>>) -> Option<
    (Seq<char>, Seq<char>),
> {
    if groups.len() == 3 && groups[1] is Some && groups[2] is Some {
        Some((groups[1]->0, groups[2]->0))
    } else {
        None
    }
}

/// The destination glyphs that a search with the destination grammar found.
pub open spec fn found_destination(found: Option<Option<Seq<Option<Seq<char>>>>>) -> Option<
    (Seq<char>, Seq<char>),
> {
    match found {
        Some(Some(groups)) => destination_glyphs(groups),
        _ => None,
    }
}

/// The notation with its spaces removed and, where it begins with the
/// shorthand for "same square" and the move before has a destination, with
/// that shorthand replaced by the destination's two glyphs.
pub open spec fn normalize_spec(fugo: Seq<char>, previous: Option<(Seq<char>, Seq<char>)>) -> Seq<
    char,
> {
    let stripped = strip_spaces(fugo);
    if stripped.len() > 0 && stripped[0] == same_square_glyph() {
        match previous {
            Some((file, rank)) => file + rank + stripped.skip(1),
            None => stripped,
        }
    } else {
        stripped
    }
}

/// The notation `fugo` normalized against the notation of the move before,
/// if there was one.
pub open spec fn normalized(fugo: Seq<char>, prev_fugo: Option<Seq<char>>) -> Seq<char> {
    normalize_spec(
        fugo,
        match prev_fugo {
            Some(prev) => found_destination(captured_groups(DESTINATION_PATTERN@, prev)),
            None => None,
        },
    )
}

/// Rewrites the notation against the capture groups that the destination
/// grammar found in the move before, if there was one and it matched.
pub fn resolve_same_square(fugo: &str, previous: Option<&Vec<Option<String>>>) -> (r: String)
    ensures
        r@ == normalize_spec(
            fugo@,
            match previous {
                Some(groups) => destination_glyphs(group_texts(groups@)),
                None => None,
            },
        ),
{
    let written = chars_of(fugo);
    let no_wide = remove_char(&written, '\u{3000}');
    let stripped = remove_char(&no_wide, ' ');
    if stripped.len() > 0 && stripped[0] == '同' {
        if let Some(groups) = previous {
            if groups.len() == 3 {
                let ghost g = group_texts(groups@);
                assert(g[1] == match groups@[1] { Some(s) => Some(s@), None => None });
                assert(g[2] == match groups@[2] { Some(s) => Some(s@), None => None });
                if let (Some(file), Some(rank)) = (&groups[1], &groups[2]) {
                    let mut out = chars_of(file.as_str());
                    let mut rank_chars = chars_of(rank.as_str());
                    let mut rest = slice_of(&stripped, 1, stripped.len());
                    out.append(&mut rank_chars);
                    out.append(&mut rest);
                    proof {
                        assert(stripped@.subrange(1, stripped@.len() as int) =~= stripped@.skip(1));
                    }
                    return text_of(&out, 0, out.len());
                }
            }
        }
    }
    proof {
        assert(stripped@.subrange(0, stripped@.len() as int) =~= stripped@);
    }
    text_of(&stripped, 0, stripped.len())
}

/// Rewrites the "same square" shorthand of `fugo` into the destination of
/// the move before, `prev_fugo`, and removes the spaces of `fugo`.
pub fn normalize_fugo(fugo: &str, prev_fugo: Option<&str>) -> (r: String)
    ensures
        r@ == normalized(
            fugo@,
            match prev_fugo {
                Some(prev) => Some(prev@),
                None => None,
            },
        ),
{
    match prev_fugo {
        None => resolve_same_square(fugo, None),
        Some(prev) => match search_groups(DESTINATION_PATTERN, prev) {
            Ok(Some(groups)) => resolve_same_square(fugo, Some(&groups)),
            _ => resolve_same_square(fugo, None),
        },
    }
}

/// A decoded move is either a drop, which has no origin, or a move with an
/// origin; it is a drop exactly when the notation ends in the drop marker;
/// and its squares lie on the board.
pub proof fn lemma_decoded_move_shape(
    groups: Seq<Option<Seq<char>>>,
    fugo: Seq<char>,
    is_sente_turn: bool,
)
    requires
        decode_groups(groups, fugo, is_sente_turn) is Ok,
    ensures
        ({
            let m = decode_groups(groups, fugo, is_sente_turn)->Ok_0;
            &&& m.wf()
            &&& m.is_drop <==> m.origin is None
            &&& m.is_drop <==> is_drop_notation(fugo)
            &&& m.piece.side == side_to_move(is_sente_turn)
        }),
{
}

/// A decoded move whose origin is written with other digits than its
/// destination leaves one cell and lands on another. (A notation may name
/// its destination as its origin; the grammar does not forbid it.)
pub proof fn lemma_origin_differs_from_destination(
    groups: Seq<Option<Seq<char>>>,
    fugo: Seq<char>,
    is_sente_turn: bool,
)
    requires
        decode_groups(groups, fugo, is_sente_turn) is Ok,
        !is_drop_notation(fugo),
        origin_digit_value(groups[4]->0[0]) != file_glyph_value(groups[1]->0[0])
            || origin_digit_value(groups[4]->0[1]) != rank_glyph_value(groups[2]->0[0]),
    ensures
        ({
            let m = decode_groups(groups, fugo, is_sente_turn)->Ok_0;
            &&& m.origin is Some
            &&& m.origin->0 != m.dest
            &&& m.origin->0.index() != m.dest.index()
        }),
{
}

/// The same-square shorthand is replaced by the two destination glyphs of
/// the move before, and what follows it is kept: the destination that the
/// rewritten notation begins with reads as the same square.
pub proof fn lemma_same_square_keeps_destination(
    fugo: Seq<char>,
    file: Seq<char>,
    rank: Seq<char>,
)
    requires
        strip_spaces(fugo).len() > 0,
        strip_spaces(fugo)[0] == same_square_glyph(),
        file_text_value(file) is Some,
        rank_text_value(rank) is Some,
    ensures
        ({
            let out = normalize_spec(fugo, Some((file, rank)));
            &&& out.len() == strip_spaces(fugo).len() + 1
            &&& out.take(1) == file
            &&& out.subrange(1, 2) == rank
            &&& out.skip(2) == strip_spaces(fugo).skip(1)
            &&& file_glyph_value(out[0]) == file_glyph_value(file[0])
            &&& rank_glyph_value(out[1]) == rank_glyph_value(rank[0])
        }),
{
    let out = normalize_spec(fugo, Some((file, rank)));
    assert(out.take(1) =~= file);
    assert(out.subrange(1, 2) =~= rank);
    assert(out.skip(2) =~= strip_spaces(fugo).skip(1));
}

/// Without a move before, or without the shorthand at its start, a notation
/// only loses its spaces.
pub proof fn lemma_unresolved_stays(fugo: Seq<char>, previous: Option<(Seq<char>, Seq<char>)>)
    requires
        previous is None || strip_spaces(fugo).len() == 0 || strip_spaces(fugo)[0]
            != same_square_glyph(),
    ensures
        normalize_spec(fugo, previous) == strip_spaces(fugo),
{
}

/// A half-width space and a full-width space between two parts of a
/// notation come to the same: both are removed.
pub proof fn lemma_either_space_is_removed(a: Seq<char>, b: Seq<char>)
    ensures
        strip_spaces(a + seq![' '] + b) == strip_spaces(a + b),
        strip_spaces(a + seq!['\u{3000}'] + b) == strip_spaces(a + b),
{
    let wide = '\u{3000}';
    let w = seq![wide];
    let n = seq![' '];
    reveal_with_fuel(without, 2);
    assert(w.drop_last() =~= Seq::<char>::empty());
    assert(n.drop_last() =~= Seq::<char>::empty());
    assert(without(w, wide) =~= Seq::<char>::empty());
    assert(without(n, wide) =~= n);
    assert(without(n, ' ') =~= Seq::<char>::empty());
    lemma_without_concat(a + n, b, wide);
    lemma_without_concat(a, n, wide);
    lemma_without_concat(a + w, b, wide);
    lemma_without_concat(a, w, wide);
    lemma_without_concat(a, b, wide);
    let a1 = without(a, wide);
    let b1 = without(b, wide);
    assert(a1 + Seq::<char>::empty() =~= a1);
    lemma_without_concat(a1 + n, b1, ' ');
    lemma_without_concat(a1, n, ' ');
    lemma_without_concat(a1, b1, ' ');
    assert(without(a1, ' ') + Seq::<char>::empty() =~= without(a1, ' '));
}

} // verus!
