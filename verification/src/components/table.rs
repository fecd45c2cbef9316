use vstd::prelude::*;

use crate::utils::decimal::{decimal, u64_to_decimal};

verus! {

/// One cell of the shared table: its id (column letter and row number) and text.
#[derive(PartialEq, Clone, Debug)]
pub struct Cell {
    pub id: String,
    pub content: String,
}

/// The table has this many rows.
pub const TABLE_ROWS: u64 = 100;

/// The column headers: a blank corner column, then `A` to `Z`.
pub open spec fn header_text() -> Seq<char> {
    seq![' ', 'A', 'B', 'C', 'D', 'E', 'F', 'G', 'H', 'I', 'J', 'K', 'L', 'M', 'N', 'O', 'P', 'Q', 'R', 'S', 'T', 'U', 'V', 'W', 'X', 'Y', 'Z']
}

/// The cells of row `row` (counting from 1): one per column, with the
/// column's header followed by the row number as id, and no text.
pub open spec fn row_ok(cells: Seq<Cell>, row: nat) -> bool {
    &&& cells.len() == header_text().len()
    &&& forall|j: int|
        0 <= j < cells.len() ==> (#[trigger] cells[j]).id@ == seq![header_text()[j]] + decimal(row)
            && cells[j].content@ == Seq::<char>::empty()
}

impl Cell {
    pub fn new(id: String, content: String) -> (r: Self)
        ensures
            r.id == id,
            r.content == content,
    {
        Self { id, content }
    }
}

/// The column headers and the empty rows of the shared table.
pub fn create_table_items() -> (r: (Vec<String>, Vec<Vec<Cell>>))
    ensures
        r.0.len() == header_text().len(),
        forall|j: int| 0 <= j < r.0.len() ==> (#[trigger] r.0[j])@ == seq![header_text()[j]],
        r.1.len() == TABLE_ROWS,
        forall|i: int| 0 <= i < r.1.len() ==> row_ok((#[trigger] r.1[i])@, (i + 1) as nat),
{
    let letters = " ABCDEFGHIJKLMNOPQRSTUVWXYZ";
    proof {
        reveal_strlit(" ABCDEFGHIJKLMNOPQRSTUVWXYZ");
        assert(letters@ =~= header_text());
    }
    let count = letters.unicode_len();
    let mut headers: Vec<String> = Vec::new();
    let mut j: usize = 0;
    while j < count
        invariant
            count == header_text().len(),
            letters@ == header_text(),
            j <= count,
            headers.len() == j,
            forall|k: int| 0 <= k < j ==> (#[trigger] headers[k])@ == seq![header_text()[k]],
        decreases count - j,
    {
        let letter = letters.substring_char(j, j + 1);
        assert(letter@ =~= seq![header_text()[j as int]]);
        headers.push(String::from_str(letter));
        j = j + 1;
    }
    let mut items: Vec<Vec<Cell>> = Vec::new();
    let mut n: u64 = 1;
    while n <= TABLE_ROWS
        invariant
            1 <= n <= TABLE_ROWS + 1,
            items.len() == n - 1,
            headers.len() == header_text().len(),
            forall|k: int| 0 <= k < headers.len() ==> (#[trigger] headers[k])@ == seq![header_text()[k]],
            forall|i: int| 0 <= i < items.len() ==> row_ok((#[trigger] items[i])@, (i + 1) as nat),
        decreases TABLE_ROWS + 1 - n,
    {
        let number = u64_to_decimal(n);
        let mut row: Vec<Cell> = Vec::new();
        let mut k: usize = 0;
        while k < headers.len()
            invariant
                k <= headers.len(),
                headers.len() == header_text().len(),
                forall|m: int| 0 <= m < headers.len() ==> (#[trigger] headers[m])@ == seq![header_text()[m]],
                number@ == decimal(n as nat),
                row.len() == k,
                forall|m: int|
                    0 <= m < k ==> (#[trigger] row[m]).id@ == seq![header_text()[m]] + decimal(n as nat)
                        && row[m].content@ == Seq::<char>::empty(),
            decreases headers.len() - k,
        {
            let mut id = headers[k].clone();
            id.append(number.as_str());
            row.push(Cell::new(id, String::new()));
            k = k + 1;
        }
        items.push(row);
        n = n + 1;
    }
    (headers, items)
}

} // verus!
