//! Rows of a query result held by value, their columns found by name.

use crate::error::{Error, ErrorView};
use vstd::prelude::*;

verus! {

/// One column of an owned row: its name and its value.
#[derive(Debug, Clone)]
pub struct ColumnOwned<V> {
    pub name: String,
    pub value: V,
}

/// A row of a query result, held by value.
#[derive(Debug, Clone)]
pub struct RowOwned<V> {
    pub columns: Vec<ColumnOwned<V>>,
}

/// The position of the first column named `idx` (the number of columns when
/// there is none).
pub open spec fn column_index<V>(columns: Seq<ColumnOwned<V>>, idx: Seq<char>) -> int
    decreases columns.len(),
{
    if columns.len() == 0 {
        0
    } else if columns[0].name@ == idx {
        0
    } else {
        1 + column_index(columns.drop_first(), idx)
    }
}

proof fn lemma_column_index<V>(columns: Seq<ColumnOwned<V>>, idx: Seq<char>)
    ensures
        0 <= column_index(columns, idx) <= columns.len(),
        forall|j: int| 0 <= j < column_index(columns, idx) ==> columns[j].name@ != idx,
        column_index(columns, idx) < columns.len() ==> columns[column_index(columns, idx)].name@ == idx,
    decreases columns.len(),
{
    if columns.len() > 0 && columns[0].name@ != idx {
        lemma_column_index(columns.drop_first(), idx);
        assert forall|j: int| 0 <= j < column_index(columns, idx) implies columns[j].name@ != idx by {
            if j > 0 {
                assert(columns[j] == columns.drop_first()[j - 1]);
            }
        }
        if column_index(columns, idx) < columns.len() {
            assert(columns[column_index(columns, idx)] == columns.drop_first()[column_index(
                columns.drop_first(),
                idx,
            )]);
        }
    }
}

/// The message of a column that the row does not have.
pub open spec fn column_not_found(idx: Seq<char>) -> Seq<char> {
    "column '"@ + idx + "' not found"@
}

impl<V> RowOwned<V> {
    /// Takes the value of the first column named `idx` out of the row; the
    /// last column moves into its place. A row without such a column is left
    /// as it is and answered with a `QueryParams` error.
    pub fn take_value(&mut self, idx: &str) -> (r: Result<V, Error>)
        ensures
            ({
                let i = column_index(old(self).columns@, idx@);
                &&& (r is Ok <==> i < old(self).columns@.len())
                &&& (r matches Ok(v) ==> v == old(self).columns@[i].value && final(self).columns@
                    == old(self).columns@.update(i, old(self).columns@.last()).drop_last())
                &&& (r matches Err(e) ==> e@ == ErrorView::QueryParams(column_not_found(idx@))
                    && final(self).columns@ == old(self).columns@)
            }),
    {
        proof {
            lemma_column_index(self.columns@, idx@);
        }
        let ghost cols = self.columns@;
        let mut i: usize = 0;
        while i < self.columns.len()
            invariant
                self.columns@ == cols,
                cols == old(self).columns@,
                i <= cols.len(),
                forall|j: int| 0 <= j < i ==> cols[j].name@ != idx@,
                0 <= column_index(cols, idx@) <= cols.len(),
                forall|j: int| 0 <= j < column_index(cols, idx@) ==> cols[j].name@ != idx@,
                column_index(cols, idx@) < cols.len() ==> cols[column_index(cols, idx@)].name@ == idx@,
            decreases cols.len() - i,
        {
            if crate::text::text_equal(self.columns[i].name.as_str(), idx) {
                assert(column_index(cols, idx@) == i) by {
                    if column_index(cols, idx@) < i {
                        assert(cols[column_index(cols, idx@)].name@ == idx@);
                    }
                    if column_index(cols, idx@) > i {
                        assert(cols[i as int].name@ != idx@);
                    }
                }
                let c = self.columns.swap_remove(i);
                return Ok(c.value);
            }
            i = i + 1;
        }
        let mut m = String::from_str("column '");
        m.append(idx);
        m.append("' not found");
        Err(Error::QueryParams(m))
    }
}

} // verus!
