use shogi_kifu::board::{Piece, PieceKind, Side, Square};
use shogi_kifu::notation::{decode_move, decode_notation, normalize_fugo, resolve_same_square, DecodedMove, MoveError};

#[test]
fn test_normalize_fugo_with_doh_doublebyte() {
    let prev = "３七歩成(36)";
    let current = "同　銀(48)";
    let expected = "３七銀(48)";
    assert_eq!(normalize_fugo(current, Some(prev)), expected);
}

#[test]
fn test_normalize_fugo_with_doh_singlebyte() {
    let prev = "３七歩成(36)";
    let current = "同 銀(48)";
    let expected = "３七銀(48)";
    assert_eq!(normalize_fugo(current, Some(prev)), expected);
}

#[test]
fn test_normalize_fugo_without_doh() {
    let prev = "３七歩(36)";
    let current = "４八銀(39)";
    assert_eq!(normalize_fugo(current, Some(prev)), "４八銀(39)");
}

#[test]
fn test_normalize_fugo_without_prev_fugo() {
    let current = "同　銀(48)";
    assert_eq!(normalize_fugo(current, None), "同銀(48)");
}

#[test]
fn normalize_leaves_shorthand_when_previous_has_no_destination() {
    assert_eq!(normalize_fugo("同　銀(48)", Some("投了")), "同銀(48)");
    assert_eq!(normalize_fugo("同　銀(48)", Some("同　歩(23)")), "同銀(48)");
}

#[test]
fn normalize_takes_first_destination_of_previous() {
    assert_eq!(normalize_fugo("同　飛(28)", Some("xx２四歩(23)")), "２四飛(28)");
}

#[test]
fn normalize_keeps_drop_and_promotion_markers() {
    assert_eq!(normalize_fugo("同　角成(88)", Some("２二銀(31)")), "２二角成(88)");
    assert_eq!(normalize_fugo("５ 五 角 打", None), "５五角打");
}

#[test]
fn normalize_only_rewrites_leading_shorthand() {
    assert_eq!(normalize_fugo("５五同(48)", Some("３七歩(36)")), "５五同(48)");
}

#[test]
fn resolve_same_square_uses_given_groups() {
    let groups = vec![
        Some("３七".to_string()),
        Some("３".to_string()),
        Some("七".to_string()),
    ];
    assert_eq!(resolve_same_square("同　銀(48)", Some(&groups)), "３七銀(48)");
    assert_eq!(resolve_same_square("同　銀(48)", None), "同銀(48)");
    let short = vec![Some("３七".to_string()), Some("３".to_string())];
    assert_eq!(resolve_same_square("同　銀(48)", Some(&short)), "同銀(48)");
    let missing = vec![Some("３七".to_string()), None, Some("七".to_string())];
    assert_eq!(resolve_same_square("同　銀(48)", Some(&missing)), "同銀(48)");
}

#[test]
fn round_trip_of_destination_through_shorthand() {
    let prev = decode_notation("３七歩成(36)", true).unwrap();
    let next = normalize_fugo("同　銀(48)", Some("３七歩成(36)"));
    let decoded = decode_notation(&next, false).unwrap();
    assert_eq!(decoded.dest, prev.dest);
    assert_eq!(decoded.dest, Square::new(3, 7).unwrap());
}

#[test]
fn decode_normal_move() {
    let m = decode_notation("７六歩(77)", true).unwrap();
    assert_eq!(
        m,
        DecodedMove {
            dest: Square { file: 7, rank: 6 },
            piece: Piece { kind: PieceKind::Pawn, side: Side::First },
            is_drop: false,
            origin: Some(Square { file: 7, rank: 7 }),
            promotes: false,
        }
    );
}

#[test]
fn decode_drop() {
    let m = decode_notation("７四歩打", false).unwrap();
    assert_eq!(
        m,
        DecodedMove {
            dest: Square { file: 7, rank: 4 },
            piece: Piece { kind: PieceKind::Pawn, side: Side::Second },
            is_drop: true,
            origin: None,
            promotes: false,
        }
    );
}

#[test]
fn decode_promotion_is_flagged_and_stripped() {
    let m = decode_notation("３七歩成(36)", false).unwrap();
    assert_eq!(m.dest, Square { file: 3, rank: 7 });
    assert_eq!(m.origin, Some(Square { file: 3, rank: 6 }));
    assert_eq!(m.piece.kind, PieceKind::Pawn);
    assert!(m.promotes);
    assert!(!m.is_drop);
}

#[test]
fn decode_promoted_piece_name() {
    let m = decode_notation("５五成銀(54)", true).unwrap();
    assert_eq!(m.piece.kind, PieceKind::Silver);
    assert_eq!(m.origin, Some(Square { file: 5, rank: 4 }));
}

#[test]
fn decode_unknown_designator_is_sentinel() {
    let m = decode_notation("５五龍(54)", true).unwrap();
    assert_eq!(m.piece.kind, PieceKind::Unknown);
    assert_eq!(m.piece.code(), '?');
}

#[test]
fn decode_every_piece_kind() {
    let cases = [
        ('歩', PieceKind::Pawn),
        ('香', PieceKind::Lance),
        ('桂', PieceKind::Knight),
        ('銀', PieceKind::Silver),
        ('金', PieceKind::Gold),
        ('角', PieceKind::Bishop),
        ('飛', PieceKind::Rook),
        ('玉', PieceKind::King),
        ('王', PieceKind::King),
    ];
    for (glyph, kind) in cases {
        let text = format!("５五{}(54)", glyph);
        assert_eq!(decode_notation(&text, true).unwrap().piece.kind, kind);
    }
}

#[test]
fn decode_without_origin_or_drop_is_unsupported() {
    assert_eq!(decode_notation("７六歩右", true), Err(MoveError::UnsupportedNotation));
    assert_eq!(decode_notation("７六歩(07)", true), Err(MoveError::UnsupportedNotation));
}

#[test]
fn decode_malformed_is_grammar_error() {
    assert_eq!(
        decode_notation("同銀(48)", true),
        Err(MoveError::Grammar("同銀(48)".to_string()))
    );
    assert_eq!(decode_notation("７六歩", true), Err(MoveError::Grammar("７六歩".to_string())));
    assert_eq!(decode_notation("", true), Err(MoveError::Grammar(String::new())));
    assert_eq!(decode_notation("投了", false), Err(MoveError::Grammar("投了".to_string())));
}

#[test]
fn decode_origin_equal_to_destination_is_accepted() {
    let m = decode_notation("５五歩(55)", true).unwrap();
    assert_eq!(m.origin, Some(m.dest));
}

#[test]
fn decode_move_reports_unrecognized_glyphs() {
    let groups = |file: &str, rank: &str, from: Option<&str>| {
        vec![
            Some("whole".to_string()),
            Some(file.to_string()),
            Some(rank.to_string()),
            Some("歩(".to_string()),
            from.map(|s| s.to_string()),
        ]
    };
    assert_eq!(
        decode_move(&groups("7", "六", Some("77")), "７六歩(77)", true),
        Err(MoveError::UnrecognizedGlyph("7".to_string()))
    );
    assert_eq!(
        decode_move(&groups("７", "6", Some("77")), "７六歩(77)", true),
        Err(MoveError::UnrecognizedGlyph("6".to_string()))
    );
    assert_eq!(
        decode_move(&groups("７", "六", Some("70")), "７六歩(70)", true),
        Err(MoveError::UnrecognizedGlyph("70".to_string()))
    );
    assert_eq!(
        decode_move(&groups("７", "六", Some("777")), "７六歩(777)", true),
        Err(MoveError::UnrecognizedGlyph("777".to_string()))
    );
    assert_eq!(
        decode_move(&groups("７", "六", None), "７六歩", true),
        Err(MoveError::UnsupportedNotation)
    );
    let ok = decode_move(&groups("７", "六", Some("77")), "７六歩(77)", false).unwrap();
    assert_eq!(ok.dest, Square { file: 7, rank: 6 });
    assert_eq!(ok.piece, Piece { kind: PieceKind::Pawn, side: Side::Second });
}

#[test]
fn decode_move_rejects_wrong_shapes() {
    let too_few = vec![Some("７六".to_string()), Some("７".to_string()), Some("六".to_string())];
    assert_eq!(
        decode_move(&too_few, "７六", true),
        Err(MoveError::Grammar("７六".to_string()))
    );
    let no_piece = vec![
        Some("x".to_string()),
        Some("７".to_string()),
        Some("六".to_string()),
        Some(String::new()),
        None,
    ];
    assert_eq!(decode_move(&no_piece, "x", true), Err(MoveError::Grammar("x".to_string())));
    let no_file = vec![
        Some("x".to_string()),
        None,
        Some("六".to_string()),
        Some("歩(".to_string()),
        None,
    ];
    assert_eq!(decode_move(&no_file, "y", true), Err(MoveError::Grammar("y".to_string())));
}

#[test]
fn decode_move_drop_wins_over_origin() {
    let groups = vec![
        Some("whole".to_string()),
        Some("７".to_string()),
        Some("四".to_string()),
        Some("歩打".to_string()),
        Some("77".to_string()),
    ];
    let m = decode_move(&groups, "７四歩打", true).unwrap();
    assert!(m.is_drop);
    assert_eq!(m.origin, None);
}

#[test]
fn decoded_move_constructors() {
    let a = Square::new(7, 7).unwrap();
    let b = Square::new(7, 6).unwrap();
    let p = Piece::new(PieceKind::Pawn, Side::First);
    let step = DecodedMove::step(a, b, p);
    assert_eq!(step.origin, Some(a));
    assert_eq!(step.dest, b);
    assert!(!step.is_drop);
    let drop = DecodedMove::drop_on(b, p);
    assert!(drop.is_drop);
    assert_eq!(drop.origin, None);
}

#[test]
fn move_errors_as_text() {
    assert_eq!(MoveError::Grammar("x".to_string()).message(), "不正な符号形式です");
    assert_eq!(MoveError::UnsupportedNotation.message(), "未対応の指し手です");
    assert_eq!(MoveError::EmptySourceSquare.message(), "No piece at source");
    assert_eq!(
        MoveError::UnrecognizedGlyph("十".to_string()).message(),
        "符号の数字が不正です: 十"
    );
}
