//! Shogi game records: reading move notation, replaying it on a board and
//! working out who won.
//!
//! - `text`: text as a sequence of characters, and the scanning on it.
//! - `board`: pieces, squares, the board and its flat snapshot.
//! - `notation`: the grammar of a move, decoding, the same-square shorthand.
//! - `parser`: move lines, header lines and the outcome of a record.
//! - `replay`: a record played move by move, one snapshot for each ply.
//! - `encoding`: from the bytes of a record file to its text.
//! - `search`: position queries seen from the other player's side.
//! - `models`: the records that are handed to storage.

pub mod board;
pub mod encoding;
pub mod models;
pub mod notation;
pub mod parser;
pub mod replay;
pub mod search;
pub mod text;
