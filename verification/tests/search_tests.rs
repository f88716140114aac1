use shogi_kifu::board::Board;
use shogi_kifu::search::{invert_case, mirror_cell, mirror_codes, mirror_query, read_cell_number};

#[test]
fn case_is_inverted_for_letters_only() {
    assert_eq!(invert_case('p'), 'P');
    assert_eq!(invert_case('P'), 'p');
    assert_eq!(invert_case('a'), 'A');
    assert_eq!(invert_case('z'), 'Z');
    assert_eq!(invert_case('Z'), 'z');
    assert_eq!(invert_case('?'), '?');
    assert_eq!(invert_case('1'), '1');
    assert_eq!(invert_case('@'), '@');
    assert_eq!(invert_case('['), '[');
    assert_eq!(invert_case('`'), '`');
    assert_eq!(invert_case('{'), '{');
    assert_eq!(invert_case('歩'), '歩');
    assert_eq!(mirror_codes("pLn?"), "PlN?");
    assert_eq!(mirror_codes(""), "");
}

#[test]
fn cells_are_reflected() {
    assert_eq!(mirror_cell(1), 81);
    assert_eq!(mirror_cell(81), 1);
    assert_eq!(mirror_cell(41), 41);
    assert_eq!(mirror_cell(0), 82);
    assert_eq!(mirror_cell(i32::MIN), 82 + 2147483648i64);
    assert_eq!(mirror_cell(i32::MAX), 82 - 2147483647i64);
}

#[test]
fn cell_numbers_are_read_with_zero_as_default() {
    assert_eq!(read_cell_number("29"), 29);
    assert_eq!(read_cell_number("+29"), 29);
    assert_eq!(read_cell_number("-3"), -3);
    assert_eq!(read_cell_number(""), 0);
    assert_eq!(read_cell_number("-"), 0);
    assert_eq!(read_cell_number("x"), 0);
    assert_eq!(read_cell_number(" 1"), 0);
    assert_eq!(read_cell_number("2147483647"), i32::MAX);
    assert_eq!(read_cell_number("2147483648"), 0);
    assert_eq!(read_cell_number("-2147483648"), i32::MIN);
    assert_eq!(read_cell_number("-2147483649"), 0);
}

#[test]
fn query_is_mirrored() {
    assert_eq!(mirror_query("29", "p"), (53, "P".to_string()));
    assert_eq!(mirror_query("bad", "G"), (82, "g".to_string()));
}

#[test]
fn starting_position_answers_mirrored_queries_alike() {
    let flat = Board::new().to_verbose_sfen();
    for c in 1..=81usize {
        let m = mirror_cell(c as i32) as usize;
        assert_eq!(flat[m - 1], flat[c - 1].map(invert_case));
    }
}

#[test]
fn mirrored_query_finds_the_turned_board() {
    let mut board = Board::new();
    board.apply_move("７六歩(77)", true).unwrap();
    let mut turned = Board::new();
    turned.apply_move("３四歩(33)", false).unwrap();
    let a = board.to_verbose_sfen();
    let b = turned.to_verbose_sfen();
    for c in 1..=81usize {
        let code: String = a[c - 1].map(|x| x.to_string()).unwrap_or_default();
        let (m, swapped) = mirror_query(&c.to_string(), &code);
        let found: String = b[m as usize - 1].map(|x| x.to_string()).unwrap_or_default();
        assert_eq!(found, swapped);
    }
}
