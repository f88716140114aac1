use shogi_kifu::board::{convert_kanji_to_digit, convert_kanji_to_piece, convert_kanji_to_rank};
use shogi_kifu::board::{Board, Piece, PieceKind, Side, Square};
use shogi_kifu::notation::{DecodedMove, MoveError};

fn snapshot_text(board: &Board) -> String {
    board.to_verbose_sfen().iter().map(|c| c.unwrap_or('.')).collect()
}

const START: &str = "lnsgkgsnl.r.....b.ppppppppp...........................PPPPPPPPP.B.....R.LNSGKGSNL";

#[test]
fn new_board_is_the_starting_position() {
    assert_eq!(snapshot_text(&Board::new()), START);
}

#[test]
fn new_board_has_forty_pieces_twenty_a_side() {
    let flat = Board::new().to_verbose_sfen();
    assert_eq!(flat.len(), 81);
    assert_eq!(flat.iter().filter(|c| c.is_some()).count(), 40);
    assert_eq!(flat.iter().filter(|c| matches!(c, Some(x) if x.is_ascii_uppercase())).count(), 20);
    assert_eq!(flat.iter().filter(|c| matches!(c, Some(x) if x.is_ascii_lowercase())).count(), 20);
    assert!(flat[27..54].iter().all(|c| c.is_none()));
}

#[test]
fn snapshot_is_row_major() {
    let mut board = Board::new();
    board.squares[3][2] = Some(Piece { kind: PieceKind::Gold, side: Side::First });
    let flat = board.to_verbose_sfen();
    assert_eq!(flat[3 * 9 + 2], Some('G'));
    assert_eq!(flat[2 * 9 + 3], Some('p'));
    assert_eq!(flat[3 * 9 + 3], None);
}

#[test]
fn drop_places_lowercase_pawn_for_second_player() {
    let mut board = Board::new();
    assert_eq!(board.apply_move("７四歩打", false), Ok(()));
    let flat = board.to_verbose_sfen();
    assert_eq!(flat[3 * 9 + 2], Some('p'));
    let mut expected: Vec<char> = START.chars().collect();
    expected[29] = 'p';
    assert_eq!(snapshot_text(&board), expected.into_iter().collect::<String>());
}

#[test]
fn drop_places_uppercase_piece_for_first_player_and_overwrites() {
    let mut board = Board::new();
    assert_eq!(board.apply_move("５一角打", true), Ok(()));
    assert_eq!(board.to_verbose_sfen()[4], Some('B'));
}

#[test]
fn move_from_empty_square_is_an_error() {
    let mut board = Board::new();
    assert_eq!(board.apply_move("５五歩(56)", true), Err(MoveError::EmptySourceSquare));
    assert_eq!(snapshot_text(&board), START);
}

#[test]
fn move_carries_the_piece_found_at_the_origin() {
    let mut board = Board::new();
    assert_eq!(board.apply_move("７六歩(77)", true), Ok(()));
    let flat = board.to_verbose_sfen();
    assert_eq!(flat[6 * 9 + 2], None);
    assert_eq!(flat[5 * 9 + 2], Some('P'));
    // The notation names a gold for the second player; the pawn on 3c moves.
    assert_eq!(board.apply_move("３四金(33)", false), Ok(()));
    let flat = board.to_verbose_sfen();
    assert_eq!(flat[2 * 9 + 6], None);
    assert_eq!(flat[3 * 9 + 6], Some('p'));
}

#[test]
fn move_onto_occupied_square_discards_the_occupant() {
    let mut board = Board::new();
    assert_eq!(board.apply_move("２二角成(88)", true), Ok(()));
    let flat = board.to_verbose_sfen();
    assert_eq!(flat[7 * 9 + 1], None);
    assert_eq!(flat[1 * 9 + 7], Some('B'));
    assert_eq!(flat.iter().filter(|c| c.is_some()).count(), 39);
}

#[test]
fn move_with_equal_origin_and_destination_changes_nothing() {
    let mut board = Board::new();
    assert_eq!(board.apply_move("７七歩(77)", true), Ok(()));
    assert_eq!(snapshot_text(&board), START);
}

#[test]
fn apply_move_reports_decode_errors_and_keeps_the_board() {
    let mut board = Board::new();
    assert_eq!(board.apply_move("７六歩右", true), Err(MoveError::UnsupportedNotation));
    assert_eq!(
        board.apply_move("同　銀(48)", true),
        Err(MoveError::Grammar("同　銀(48)".to_string()))
    );
    assert_eq!(snapshot_text(&board), START);
}

#[test]
fn apply_decoded_moves() {
    let mut board = Board::new();
    let pawn = Piece::new(PieceKind::Pawn, Side::Second);
    let drop = DecodedMove::drop_on(Square::new(7, 4).unwrap(), pawn);
    assert_eq!(board.apply(&drop), Ok(()));
    assert_eq!(board.to_verbose_sfen()[29], Some('p'));
    let step = DecodedMove::step(Square::new(5, 5).unwrap(), Square::new(5, 4).unwrap(), pawn);
    assert_eq!(board.apply(&step), Err(MoveError::EmptySourceSquare));
    let lost = DecodedMove { origin: None, ..step };
    assert_eq!(board.apply(&lost), Err(MoveError::UnsupportedNotation));
}

#[test]
fn square_new_checks_the_range() {
    assert_eq!(Square::new(1, 9), Some(Square { file: 1, rank: 9 }));
    assert_eq!(Square::new(0, 5), None);
    assert_eq!(Square::new(5, 0), None);
    assert_eq!(Square::new(10, 5), None);
    assert_eq!(Square::new(5, 10), None);
}

#[test]
fn file_glyphs() {
    let glyphs = ["１", "２", "３", "４", "５", "６", "７", "８", "９"];
    for (i, g) in glyphs.iter().enumerate() {
        assert_eq!(convert_kanji_to_digit(g), Some(i + 1));
    }
    assert_eq!(convert_kanji_to_digit("1"), None);
    assert_eq!(convert_kanji_to_digit("一"), None);
    assert_eq!(convert_kanji_to_digit("１２"), None);
    assert_eq!(convert_kanji_to_digit("０"), None);
    assert_eq!(convert_kanji_to_digit(""), None);
}

#[test]
fn rank_glyphs() {
    let glyphs = ["一", "二", "三", "四", "五", "六", "七", "八", "九"];
    for (i, g) in glyphs.iter().enumerate() {
        assert_eq!(convert_kanji_to_rank(g), Some(i + 1));
    }
    assert_eq!(convert_kanji_to_rank("１"), None);
    assert_eq!(convert_kanji_to_rank("十"), None);
    assert_eq!(convert_kanji_to_rank("一二"), None);
    assert_eq!(convert_kanji_to_rank(""), None);
}

#[test]
fn piece_codes() {
    let table = [
        ('歩', 'p'),
        ('香', 'l'),
        ('桂', 'n'),
        ('銀', 's'),
        ('金', 'g'),
        ('角', 'b'),
        ('飛', 'r'),
        ('玉', 'k'),
        ('王', 'k'),
    ];
    for (kanji, code) in table {
        assert_eq!(convert_kanji_to_piece(kanji, false), code);
        assert_eq!(convert_kanji_to_piece(kanji, true), code.to_ascii_uppercase());
    }
    assert_eq!(convert_kanji_to_piece('龍', true), '?');
    assert_eq!(convert_kanji_to_piece('龍', false), '?');
}

#[test]
fn opponent_and_code_of_piece() {
    assert_eq!(Side::First.opponent(), Side::Second);
    assert_eq!(Side::Second.opponent(), Side::First);
    assert_eq!(PieceKind::from_kanji('飛'), PieceKind::Rook);
    assert_eq!(Piece::new(PieceKind::Rook, Side::First).code(), 'R');
    assert_eq!(Piece::new(PieceKind::Rook, Side::Second).code(), 'r');
}
