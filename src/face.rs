//! The text layout of a drawn card face: which row shows the rank, which the
//! suit, and how far each is indented.

use vstd::prelude::*;

verus! {

/// What one row of a card face shows.
#[derive(Debug, Clone, Copy, PartialEq, Eq, Structural)]
pub enum FaceRow {
    /// The rank near the left edge.
    TopRank,
    /// The rank near the right edge.
    BottomRank,
    /// The suit symbol near the middle.
    Suit,
    /// Nothing.
    Blank,
}

/// The content of row `index` of a face `height` rows tall: the first row
/// holds the rank, the third row from the bottom holds it again, and the row
/// just above the middle holds the suit. Where two of these fall on one row,
/// the earlier rule wins.
pub open spec fn face_row_of(index: nat, height: nat) -> FaceRow {
    if index == 0 {
        FaceRow::TopRank
    } else if index + 3 == height {
        FaceRow::BottomRank
    } else if index + 1 == height / 2 {
        FaceRow::Suit
    } else {
        FaceRow::Blank
    }
}

/// The spaces before the text of a row on a face `width` columns wide: one
/// before the top rank, `width - 4` before the bottom rank, `width / 2 - 1`
/// before the suit, each at least zero.
pub open spec fn face_indent_of(row: FaceRow, width: nat) -> nat {
    match row {
        FaceRow::TopRank => 1,
        FaceRow::BottomRank => if width >= 4 { (width - 4) as nat } else { 0 },
        FaceRow::Suit => if width / 2 >= 1 { (width / 2 - 1) as nat } else { 0 },
        FaceRow::Blank => 0,
    }
}

/// The content of row `index` of a face `height` rows tall.
pub fn face_row(index: usize, height: usize) -> (r: FaceRow)
    ensures
        r == face_row_of(index as nat, height as nat),
{
    if index == 0 {
        FaceRow::TopRank
    } else if height >= 3 && index == height - 3 {
        FaceRow::BottomRank
    } else if height / 2 >= 1 && index == height / 2 - 1 {
        FaceRow::Suit
    } else {
        FaceRow::Blank
    }
}

/// The spaces before the text of a row on a face `width` columns wide.
pub fn face_indent(row: FaceRow, width: usize) -> (r: usize)
    ensures
        r as nat == face_indent_of(row, width as nat),
{
    match row {
        FaceRow::TopRank => 1,
        FaceRow::BottomRank => width.saturating_sub(4),
        FaceRow::Suit => (width / 2).saturating_sub(1),
        FaceRow::Blank => 0,
    }
}

} // verus!
