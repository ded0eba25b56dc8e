//! The grid of the table: 17 rows (consonant groups) by 9 columns (vowels
//! and glides), each cell a header, a syllable of the index, or empty.
use vstd::prelude::*;
use crate::index::KanaIndex;
use crate::model::Kana;
use crate::text::{starts_with, str_equals};

verus! {

pub const ROWS: usize = 17;
pub const COLUMNS: usize = 9;

/// The label of row `j`: blank for the header row and the vowel row, then
/// the consonant groups, `N` being the syllabic nasal.
pub open spec fn row_label(j: int) -> Seq<char> {
    if j == 2 { "k"@ }
    else if j == 3 { "s"@ }
    else if j == 4 { "t"@ }
    else if j == 5 { "n"@ }
    else if j == 6 { "h"@ }
    else if j == 7 { "m"@ }
    else if j == 8 { "y"@ }
    else if j == 9 { "r"@ }
    else if j == 10 { "w"@ }
    else if j == 11 { "N"@ }
    else if j == 12 { "g"@ }
    else if j == 13 { "z"@ }
    else if j == 14 { "d"@ }
    else if j == 15 { "b"@ }
    else if j == 16 { "p"@ }
    else { ""@ }
}

/// The label of column `i`: blank for the header column, then the five
/// vowels, then the three glides.
pub open spec fn column_label(i: int) -> Seq<char> {
    if i == 1 { "a"@ }
    else if i == 2 { "i"@ }
    else if i == 3 { "u"@ }
    else if i == 4 { "e"@ }
    else if i == 5 { "o"@ }
    else if i == 6 { "ya"@ }
    else if i == 7 { "yu"@ }
    else if i == 8 { "yo"@ }
    else { ""@ }
}

/// The label of row `j`.
pub fn row_label_of(j: usize) -> (r: &'static str)
    requires
        j < ROWS,
    ensures
        r@ == row_label(j as int),
{
    match j {
        2 => "k",
        3 => "s",
        4 => "t",
        5 => "n",
        6 => "h",
        7 => "m",
        8 => "y",
        9 => "r",
        10 => "w",
        11 => "N",
        12 => "g",
        13 => "z",
        14 => "d",
        15 => "b",
        16 => "p",
        _ => "",
    }
}

/// The label of column `i`.
pub fn column_label_of(i: usize) -> (r: &'static str)
    requires
        i < COLUMNS,
    ensures
        r@ == column_label(i as int),
{
    match i {
        1 => "a",
        2 => "i",
        3 => "u",
        4 => "e",
        5 => "o",
        6 => "ya",
        7 => "yu",
        8 => "yo",
        _ => "",
    }
}

/// One cell of the grid.
#[derive(Debug)]
pub enum GridCell {
    RowHeader(String),
    ColumnHeader(String),
    Kana(String, Kana),
    Empty,
}

/// The key looked up for the cell at row `j`, column `i`.
pub open spec fn cell_key(j: int, i: int) -> Seq<char> {
    row_label(j) + column_label(i)
}

/// `c` is the cell at row `j`, column `i` of the grid over index `m`.
pub open spec fn cell_matches(c: GridCell, m: Map<Seq<char>, Kana>, j: int, i: int) -> bool {
    if i == 0 {
        c matches GridCell::RowHeader(s) && s@ == row_label(j)
    } else if j == 0 {
        c matches GridCell::ColumnHeader(s) && s@ == column_label(i)
    } else if j == 1 && i > 5 {
        c matches GridCell::Empty
    } else if m.contains_key(cell_key(j, i)) {
        c matches GridCell::Kana(k, rec) && k@ == cell_key(j, i) && rec == m[cell_key(j, i)]
    } else {
        c matches GridCell::Empty
    }
}

/// The cell at row `j`, column `i`.
pub fn cell_at(index: &KanaIndex, j: usize, i: usize) -> (c: GridCell)
    requires
        index.wf(),
        j < ROWS,
        i < COLUMNS,
    ensures
        cell_matches(c, index@, j as int, i as int),
{
    if i == 0 {
        GridCell::RowHeader(String::from_str(row_label_of(j)))
    } else if j == 0 {
        GridCell::ColumnHeader(String::from_str(column_label_of(i)))
    } else if j == 1 && i > 5 {
        GridCell::Empty
    } else {
        let key = String::from_str(row_label_of(j)).concat(column_label_of(i));
        match index.get(key.as_str()) {
            Some(rec) => GridCell::Kana(key, rec.duplicate()),
            None => GridCell::Empty,
        }
    }
}

/// The whole grid, row by row: always 17 rows of 9 cells; the glide
/// columns of the vowel row are empty whatever the index holds.
pub fn layout(index: &KanaIndex) -> (g: Vec<Vec<GridCell>>)
    requires
        index.wf(),
    ensures
        g@.len() == ROWS,
        forall|j: int| 0 <= j < ROWS ==> (#[trigger] g@[j])@.len() == COLUMNS,
        forall|j: int, i: int| 0 <= j < ROWS && 0 <= i < COLUMNS ==>
            cell_matches(#[trigger] g@[j]@[i], index@, j, i),
        forall|i: int| 5 < i < COLUMNS ==> (#[trigger] g@[1]@[i]) matches GridCell::Empty,
{
    let mut g: Vec<Vec<GridCell>> = Vec::new();
    let mut j: usize = 0;
    while j < ROWS
        invariant
            index.wf(),
            j <= ROWS,
            g@.len() == j,
            forall|r: int| 0 <= r < j ==> (#[trigger] g@[r])@.len() == COLUMNS,
            forall|r: int, i: int| 0 <= r < j && 0 <= i < COLUMNS ==>
                cell_matches(#[trigger] g@[r]@[i], index@, r, i),
        decreases ROWS - j,
    {
        let mut row: Vec<GridCell> = Vec::new();
        let mut i: usize = 0;
        while i < COLUMNS
            invariant
                index.wf(),
                j < ROWS,
                i <= COLUMNS,
                row@.len() == i,
                forall|c: int| 0 <= c < i ==> cell_matches(#[trigger] row@[c], index@, j as int, c),
            decreases COLUMNS - i,
        {
            row.push(cell_at(index, j, i));
            i = i + 1;
        }
        g.push(row);
        j = j + 1;
    }
    assert forall|i: int| 5 < i < COLUMNS implies (#[trigger] g@[1]@[i]) matches GridCell::Empty by {
        assert(cell_matches(g@[1]@[i], index@, 1, i));
    }
    g
}

/// Whether the syllable `key`, focused, is shown in a card under row `j`:
/// a bare vowel under the vowel row, any other under the row whose label
/// begins its key.
pub open spec fn card_follows(j: int, key: Seq<char>) -> bool {
    (j == 1 && (key == "a"@ || key == "i"@ || key == "u"@ || key == "e"@ || key == "o"@))
        || (j > 1 && key.len() >= row_label(j).len() && key.subrange(0, row_label(j).len() as int) == row_label(j))
}

/// Whether the card of the focused syllable `key` stands under row `j`.
pub fn card_follows_row(j: usize, key: &str) -> (r: bool)
    requires
        j < ROWS,
    ensures
        r == card_follows(j as int, key@),
{
    if j == 1 {
        let v = str_equals(key, "a") || str_equals(key, "i")
            || str_equals(key, "u") || str_equals(key, "e")
            || str_equals(key, "o");
        v
    } else if j > 1 {
        starts_with(key, row_label_of(j))
    } else {
        false
    }
}

} // verus!
