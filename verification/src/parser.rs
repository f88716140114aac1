//! Reading a game record: its move lines, its header lines, and who won.

use vstd::prelude::*;
use crate::models::{optional_text, KifHeader};
use crate::text::{chars_of, has, has_char, has_prefix, leading_token, next_char, next_space, parse_number, slice_of, split_lines, text_of, trimmed};
use crate::text::{contains, find_char, find_space, first_token, is_digit, digit, line_texts, lines_of, number_value, starts_with, trim};
use crate::notation::drop_glyph;

verus! {

/// One move line of a record.
pub struct Move {
    /// The number of the ply.
    pub te: usize,
    /// The notation of the move.
    pub fugo: String,
}

impl View for Move {
    type V = (nat, Seq<char>);

    open spec fn view(&self) -> (nat, Seq<char>) {
        (self.te as nat, self.fugo@)
    }
}

/// The notation in what follows the ply number on a move line. With a drop
/// marker in it, it is the first run without white space. Else it ends with
/// the first `)`, if there is one, and is trimmed.
pub open spec fn notation_part(rest: Seq<char>) -> Seq<char> {
    if rest.contains(drop_glyph()) {
        first_token(rest)
    } else {
        let close = find_char(rest, ')', 0);
        if close < rest.len() {
            trim(rest.take(close + 1))
        } else {
            trim(rest)
        }
    }
}

/// The ply number and the notation of a line, if it is a move line: once
/// trimmed it begins with an ASCII digit, holds white space, and what stands
/// before the first white space is a number that fits.
pub open spec fn move_line(line: Seq<char>) -> Option<(nat, Seq<char>)> {
    let t = trim(line);
    let sep = find_space(t, 0);
    if t.len() > 0 && is_digit(t[0]) && sep < t.len() {
        match number_value(t.take(sep), usize::MAX as nat) {
            Some(te) => Some((te, notation_part(t.skip(sep)))),
            None => None,
        }
    } else {
        None
    }
}

/// The moves of the first `n` lines, in order; lines that are no move lines
/// are passed over.
pub open spec fn moves_of(lines: Seq<Seq<char>>, n: int) -> Seq<(nat, Seq<char>)>
    decreases n,
{
    if n <= 0 || n > lines.len() {
        Seq::empty()
    } else {
        match move_line(lines[n - 1]) {
            Some(m) => moves_of(lines, n - 1).push(m),
            None => moves_of(lines, n - 1),
        }
    }
}

/// The texts of a list of lines.
pub open spec fn texts(lines: Seq<String>) -> Seq<Seq<char>> {
    Seq::new(lines.len(), |i: int| lines[i]@)
}

/// The views of a list of moves.
pub open spec fn move_views(moves: Seq<Move>) -> Seq<(nat, Seq<char>)> {
    Seq::new(moves.len(), |i: int| moves[i]@)
}

/// Reads the notation out of what follows the ply number.
fn read_notation(rest: &Vec<char>) -> (out: Vec<char>)
    ensures
        out@ == notation_part(rest@),
{
    if has_char(rest, '打') {
        leading_token(rest)
    } else {
        let close = next_char(rest, ')', 0);
        if close < rest.len() {
            let head = slice_of(rest, 0, close + 1);
            proof {
                assert(head@ =~= rest@.take(close + 1));
            }
            trimmed(&head)
        } else {
            trimmed(rest)
        }
    }
}

/// Reads one line as a move line.
pub fn parse_move_line(line: &str) -> (r: Option<Move>)
    ensures
        match r {
            Some(m) => move_line(line@) == Some(m@),
            None => move_line(line@) is None,
        },
{
    let raw = chars_of(line);
    let t = trimmed(&raw);
    if t.len() == 0 || !digit(t[0]) {
        return None;
    }
    let sep = next_space(&t, 0);
    if sep >= t.len() {
        return None;
    }
    let head = slice_of(&t, 0, sep);
    let rest = slice_of(&t, sep, t.len());
    proof {
        assert(head@ =~= t@.take(sep as int));
        assert(rest@ =~= t@.skip(sep as int));
    }
    match parse_number(&head, usize::MAX as u64) {
        None => None,
        Some(te) => {
            let fugo = read_notation(&rest);
            Some(Move { te: te as usize, fugo: text_of(&fugo, 0, fugo.len()) })
        },
    }
}

/// The move lines among `lines`, in order, each with its ply number and its
/// notation.
pub fn parse_kif_moves(lines: &[String]) -> (moves: Vec<Move>)
    ensures
        move_views(moves@) == moves_of(texts(lines@), lines@.len() as int),
{
    let mut moves: Vec<Move> = Vec::new();
    let mut i: usize = 0;
    while i < lines.len()
        invariant
            i <= lines.len(),
            move_views(moves@) == moves_of(texts(lines@), i as int),
        decreases lines.len() - i,
    {
        let ghost before = move_views(moves@);
        assert(texts(lines@)[i as int] == lines@[i as int]@);
        match parse_move_line(lines[i].as_str()) {
            Some(m) => {
                proof {
                    assert(move_views(moves@.push(m)) =~= before.push(m@));
                }
                moves.push(m);
            },
            None => {},
        }
        i += 1;
    }
    moves
}

/// The marker of a resignation.
pub open spec fn resign_marker() -> Seq<char> {
    seq!['投', '了']
}

/// The marker of a game ended by an illegal move.
pub open spec fn foul_marker() -> Seq<char> {
    seq!['*', '反', '則', '手']
}

/// The marker of a game ended on time.
pub open spec fn timeout_marker() -> Seq<char> {
    seq!['*', '時', '間', '切', 'れ']
}

/// What a line that names the first player begins with.
pub open spec fn first_player_prefix() -> Seq<char> {
    seq!['先', '手', '：']
}

/// What a line that names the second player begins with.
pub open spec fn second_player_prefix() -> Seq<char> {
    seq!['後', '手', '：']
}

/// What a line that gives the start of the game begins with.
pub open spec fn start_prefix() -> Seq<char> {
    seq!['開', '始', '日', '時', '：']
}

/// What a line that gives the end of the game begins with.
pub open spec fn end_prefix() -> Seq<char> {
    seq!['終', '了', '日', '時', '：']
}

/// The ply number that a line begins with: once trimmed, the line holds
/// white space, and what stands before the first is a number that fits 32
/// bits.
pub open spec fn leading_ply(line: Seq<char>) -> Option<nat> {
    let t = trim(line);
    let sep = find_space(t, 0);
    if sep < t.len() {
        number_value(t.take(sep), u32::MAX as nat)
    } else {
        None
    }
}

/// Whether the first player won a game that a marker line ended after ply
/// `ply`. After an illegal move the mover of that ply has lost; after a
/// timeout the mover of that ply has won.
pub open spec fn marker_verdict(timed_out: bool, ply: nat) -> bool {
    if timed_out {
        ply % 2 == 1
    } else {
        ply % 2 == 0
    }
}

/// Whether the first player won, where `line` is a marker line that decides
/// the game: it holds the marker of an illegal move or of a timeout, and
/// the line before it begins with a ply number.
pub open spec fn marker_line_verdict(line: Seq<char>, before: Option<Seq<char>>) -> Option<bool> {
    if contains(line, foul_marker()) || contains(line, timeout_marker()) {
        match before {
            Some(p) => match leading_ply(p) {
                Some(ply) => Some(marker_verdict(contains(line, timeout_marker()), ply)),
                None => None,
            },
            None => None,
        }
    } else {
        None
    }
}

/// Whether the first player won, where `line` is a resignation that decides
/// the game: it holds the resignation marker and begins with a ply number,
/// whose mover has lost.
pub open spec fn resignation_verdict(line: Seq<char>) -> Option<bool> {
    if contains(line, resign_marker()) {
        match leading_ply(line) {
            Some(ply) => Some(ply % 2 == 0),
            None => None,
        }
    } else {
        None
    }
}

/// Whether the first player won, where `line` decides the game.
pub open spec fn line_verdict(line: Seq<char>, before: Option<Seq<char>>) -> Option<bool> {
    match marker_line_verdict(line, before) {
        Some(won) => Some(won),
        None => resignation_verdict(line),
    }
}

/// The line before line `i`, if there is one.
pub open spec fn line_before(lines: Seq<Seq<char>>, i: int) -> Option<Seq<char>> {
    if 0 < i <= lines.len() {
        Some(lines[i - 1])
    } else {
        None
    }
}

/// The verdict of the first line from `i` on that decides the game.
pub open spec fn first_verdict(lines: Seq<Seq<char>>, i: int) -> Option<bool>
    decreases lines.len() - i,
{
    if i < 0 || i >= lines.len() {
        None
    } else {
        match line_verdict(lines[i], line_before(lines, i)) {
            Some(won) => Some(won),
            None => first_verdict(lines, i + 1),
        }
    }
}

/// The ply number of the last of the first `n` lines that begins with one.
pub open spec fn last_ply(lines: Seq<Seq<char>>, n: int) -> Option<nat>
    decreases n,
{
    if n <= 0 || n > lines.len() {
        None
    } else {
        match leading_ply(lines[n - 1]) {
            Some(ply) => Some(ply),
            None => last_ply(lines, n - 1),
        }
    }
}

/// Whether the first player won the game that `lines` record. The first
/// line that decides the game gives the verdict. Where no line does, the
/// mover of the last ply has won; a record without any ply counts as won by
/// the first player.
pub open spec fn first_player_wins(lines: Seq<Seq<char>>) -> bool {
    match first_verdict(lines, 0) {
        Some(won) => won,
        None => match last_ply(lines, lines.len() as int) {
            Some(ply) => ply % 2 == 1,
            None => true,
        },
    }
}

/// After the same ply, a timeout gives the game to the player to whom an
/// illegal move would have lost it.
pub proof fn lemma_timeout_inverts_foul(ply: nat)
    ensures
        marker_verdict(true, ply) == !marker_verdict(false, ply),
{
}

/// A resignation and the end of a record without a verdict read the same
/// ply in opposite ways: who resigns on a ply has lost, who made the last
/// ply of an undecided record has won.
pub proof fn lemma_fallback_inverts_resignation(lines: Seq<Seq<char>>, line: Seq<char>)
    requires
        first_verdict(lines, 0) is None,
        last_ply(lines, lines.len() as int) is Some,
        resignation_verdict(line) is Some,
        leading_ply(line) == last_ply(lines, lines.len() as int),
    ensures
        first_player_wins(lines) == !resignation_verdict(line)->0,
{
}

fn resign_chars() -> (v: Vec<char>)
    ensures
        v@ == resign_marker(),
{
    vec!['投', '了']
}

fn foul_chars() -> (v: Vec<char>)
    ensures
        v@ == foul_marker(),
{
    vec!['*', '反', '則', '手']
}

fn timeout_chars() -> (v: Vec<char>)
    ensures
        v@ == timeout_marker(),
{
    vec!['*', '時', '間', '切', 'れ']
}

/// Reads the ply number that a line begins with.
pub fn read_leading_ply(line: &Vec<char>) -> (r: Option<u32>)
    ensures
        match r {
            Some(ply) => leading_ply(line@) == Some(ply as nat),
            None => leading_ply(line@) is None,
        },
{
    let t = trimmed(line);
    let sep = next_space(&t, 0);
    if sep >= t.len() {
        return None;
    }
    let head = slice_of(&t, 0, sep);
    proof {
        assert(head@ =~= t@.take(sep as int));
    }
    match parse_number(&head, u32::MAX as u64) {
        Some(n) => Some(n as u32),
        None => None,
    }
}

/// Decides from one line and the line before it whether the game ended
/// there, and if so whether the first player won.
pub fn judge_line(line: &Vec<char>, before: Option<&Vec<char>>) -> (r: Option<bool>)
    ensures
        r == line_verdict(
            line@,
            match before {
                Some(p) => Some(p@),
                None => None,
            },
        ),
{
    let timed_out = has(line, &timeout_chars());
    if timed_out || has(line, &foul_chars()) {
        if let Some(p) = before {
            if let Some(ply) = read_leading_ply(p) {
                return Some(if timed_out {
                    ply % 2 == 1
                } else {
                    ply % 2 == 0
                });
            }
        }
    }
    if has(line, &resign_chars()) {
        if let Some(ply) = read_leading_ply(line) {
            return Some(ply % 2 == 0);
        }
    }
    None
}

/// Works out from the lines of a record whether the first player won.
pub fn resolve_outcome(lines: &Vec<Vec<char>>) -> (won: bool)
    ensures
        won == first_player_wins(line_texts(lines@)),
{
    let ghost ls = line_texts(lines@);
    let mut last: Option<u32> = None;
    let mut i: usize = 0;
    while i < lines.len()
        invariant
            i <= lines.len(),
            ls == line_texts(lines@),
            first_verdict(ls, 0) == first_verdict(ls, i as int),
            match last {
                Some(ply) => last_ply(ls, i as int) == Some(ply as nat),
                None => last_ply(ls, i as int) is None,
            },
        decreases lines.len() - i,
    {
        assert(ls[i as int] == lines@[i as int]@);
        let verdict = if i > 0 {
            assert(ls[i - 1] == lines@[i - 1]@);
            judge_line(&lines[i], Some(&lines[i - 1]))
        } else {
            judge_line(&lines[i], None)
        };
        if let Some(won) = verdict {
            return won;
        }
        if let Some(ply) = read_leading_ply(&lines[i]) {
            last = Some(ply);
        }
        i += 1;
    }
    match last {
        Some(ply) => ply % 2 == 1,
        None => true,
    }
}

/// Works out from the text of a record whether the first player won.
pub fn first_player_won(kif_text: &str) -> (won: bool)
    ensures
        won == first_player_wins(lines_of(kif_text@)),
{
    let chars = chars_of(kif_text);
    let lines = split_lines(&chars);
    resolve_outcome(&lines)
}

/// The value of the last of the first `n` lines that begins with `prefix`:
/// what follows the prefix, trimmed.
pub open spec fn field_value(lines: Seq<Seq<char>>, prefix: Seq<char>, n: int) -> Option<Seq<char>>
    decreases n,
{
    if n <= 0 || n > lines.len() {
        None
    } else if starts_with(lines[n - 1], prefix) {
        Some(trim(lines[n - 1].skip(prefix.len() as int)))
    } else {
        field_value(lines, prefix, n - 1)
    }
}

/// `s` with a dash in place of every slash.
pub open spec fn dashed(s: Seq<char>) -> Seq<char> {
    Seq::new(
        s.len(),
        |i: int|
            if s[i] == '/' {
                '-'
            } else {
                s[i]
            },
    )
}

/// The name that the record gives under `prefix`; empty where it gives none.
pub open spec fn player_name(lines: Seq<Seq<char>>, prefix: Seq<char>) -> Seq<char> {
    match field_value(lines, prefix, lines.len() as int) {
        Some(v) => v,
        None => Seq::empty(),
    }
}

/// The time that the record gives under `prefix`, its date written with
/// dashes.
pub open spec fn timestamp(lines: Seq<Seq<char>>, prefix: Seq<char>) -> Option<Seq<char>> {
    match field_value(lines, prefix, lines.len() as int) {
        Some(v) => Some(dashed(v)),
        None => None,
    }
}

/// Who is recorded as the maker of a header.
pub open spec fn creator() -> Seq<char> {
    seq!['s', 'y', 's', 't', 'e', 'm']
}

/// Whether `h` is the header of the record `text` that came from the file
/// `filename`, whenever it was made.
pub open spec fn describes(h: KifHeader, text: Seq<char>, filename: Seq<char>) -> bool {
    let lines = lines_of(text);
    &&& h.kif_filename@ == filename
    &&& h.sente_player@ == player_name(lines, first_player_prefix())
    &&& h.gote_player@ == player_name(lines, second_player_prefix())
    &&& h.is_sente_win == first_player_wins(lines)
    &&& optional_text(h.started_at) == timestamp(lines, start_prefix())
    &&& optional_text(h.ended_at) == timestamp(lines, end_prefix())
    &&& h.created_by@ == creator()
}

/// Reads the value that the lines give under `prefix`.
fn read_field(lines: &Vec<Vec<char>>, prefix: &Vec<char>) -> (r: Option<Vec<char>>)
    ensures
        match r {
            Some(v) => field_value(line_texts(lines@), prefix@, lines@.len() as int) == Some(v@),
            None => field_value(line_texts(lines@), prefix@, lines@.len() as int) is None,
        },
{
    let ghost ls = line_texts(lines@);
    let mut found: Option<Vec<char>> = None;
    let mut i: usize = 0;
    while i < lines.len()
        invariant
            i <= lines.len(),
            ls == line_texts(lines@),
            match found {
                Some(v) => field_value(ls, prefix@, i as int) == Some(v@),
                None => field_value(ls, prefix@, i as int) is None,
            },
        decreases lines.len() - i,
    {
        assert(ls[i as int] == lines@[i as int]@);
        if has_prefix(&lines[i], prefix) {
            let rest = slice_of(&lines[i], prefix.len(), lines[i].len());
            proof {
                assert(rest@ =~= lines@[i as int]@.skip(prefix@.len() as int));
            }
            found = Some(trimmed(&rest));
        }
        i += 1;
    }
    found
}

/// Writes a dash in place of every slash.
fn with_dashes(v: &Vec<char>) -> (out: Vec<char>)
    ensures
        out@ == dashed(v@),
{
    let mut out: Vec<char> = Vec::new();
    let mut i: usize = 0;
    while i < v.len()
        invariant
            i <= v.len(),
            out@.len() == i,
            forall|j: int| 0 <= j < i ==> out@[j] == dashed(v@)[j],
        decreases v.len() - i,
    {
        out.push(if v[i] == '/' {
            '-'
        } else {
            v[i]
        });
        i += 1;
    }
    proof {
        assert(out@ =~= dashed(v@));
    }
    out
}

/// Reads a player's name.
fn read_name(lines: &Vec<Vec<char>>, prefix: &Vec<char>) -> (r: String)
    ensures
        r@ == player_name(line_texts(lines@), prefix@),
{
    match read_field(lines, prefix) {
        Some(v) => {
            proof {
                assert(v@.subrange(0, v@.len() as int) =~= v@);
            }
            text_of(&v, 0, v.len())
        },
        None => String::new(),
    }
}

/// Reads a time.
fn read_timestamp(lines: &Vec<Vec<char>>, prefix: &Vec<char>) -> (r: Option<String>)
    ensures
        optional_text(r) == timestamp(line_texts(lines@), prefix@),
{
    match read_field(lines, prefix) {
        Some(v) => {
            let d = with_dashes(&v);
            proof {
                assert(d@.subrange(0, d@.len() as int) =~= d@);
            }
            Some(text_of(&d, 0, d.len()))
        },
        None => None,
    }
}

/// The header of the record `kif_text` from the file `filename`, made at
/// the time that `created_at` gives.
pub fn build_header(kif_text: &str, filename: &str, created_at: String) -> (h: KifHeader)
    ensures
        describes(h, kif_text@, filename@),
        h.created_at@ == created_at@,
{
    let chars = chars_of(kif_text);
    let lines = split_lines(&chars);
    let sente_player = read_name(&lines, &vec!['先', '手', '：']);
    let gote_player = read_name(&lines, &vec!['後', '手', '：']);
    let started_at = read_timestamp(&lines, &vec!['開', '始', '日', '時', '：']);
    let ended_at = read_timestamp(&lines, &vec!['終', '了', '日', '時', '：']);
    let is_sente_win = resolve_outcome(&lines);
    let by: Vec<char> = vec!['s', 'y', 's', 't', 'e', 'm'];
    proof {
        assert(by@.subrange(0, by@.len() as int) =~= by@);
    }
    KifHeader {
        kif_filename: filename.to_owned(),
        sente_player,
        gote_player,
        is_sente_win,
        started_at,
        ended_at,
        created_at,
        created_by: text_of(&by, 0, by.len()),
    }
}

/// How the time at which a header is made is written.
pub const TIMESTAMP_PATTERN: &'static str = "%Y-%m-%d %H:%M:%S";

/// `chrono::Local::now()`, written out by `DateTime::format` with the
/// pattern given and `to_string`. Nothing is claimed of the text: it is the
/// time of the call. Writing it out panics on a pattern that chrono cannot
/// read, so only the one pattern is let in.
#[verifier::external_body]
fn local_time_text(pattern: &str) -> (r: String)
    requires
        pattern@ == TIMESTAMP_PATTERN@,
{
    chrono::Local::now().format(pattern).to_string()
}

/// The header of the record `kif_text` from the file `filename`, made now.
pub fn parse_header_and_result(kif_text: &str, filename: &str) -> (h: KifHeader)
    ensures
        describes(h, kif_text@, filename@),
{
    build_header(kif_text, filename, local_time_text(TIMESTAMP_PATTERN))
}

} // verus!
