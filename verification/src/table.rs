//! The tabular results handed back by the engine: a rectangular grid of
//! cells, held column-major, and the text each cell renders to.

use vstd::prelude::*;

verus! {

/// One cell of a result table.
///
/// The engine's own value kinds reach the library as plain data: a numeric
/// quantity arrives as its decimal rendering, produced where the engine's
/// value crosses into the library, and any engine-defined kind outside the
/// three known ones arrives as its generic rendering.
#[derive(Debug, Clone)]
pub enum Value {
    /// A numeric quantity, carried as its decimal rendering.
    Number(String),
    Bool(bool),
    String(String),
    /// Any other engine-defined kind, carried as its generic rendering.
    Other(String),
}

/// An immutable snapshot of one engine table: `rows * columns` cells with
/// no gaps, held column-major, so `data[column][row]` is one cell.
#[derive(Debug, Clone)]
pub struct Table {
    pub rows: usize,
    pub columns: usize,
    pub data: Vec<Vec<Value>>,
}

/// The text a cell renders to: a numeric quantity prints its decimal
/// rendering, a boolean or an unknown kind prints in the generic
/// constructor-style form, and text prints quoted in that form.
pub open spec fn spec_cell_text(v: Value) -> Seq<char> {
    match v {
        Value::Number(s) => s@,
        Value::Bool(b) => if b {
            "Bool(true)"@
        } else {
            "Bool(false)"@
        },
        Value::String(s) => "String(\""@ + s@ + "\")"@,
        Value::Other(s) => s@,
    }
}

/// Renders one cell as text.
pub fn cell_text(v: &Value) -> (r: String)
    ensures
        r@ == spec_cell_text(*v),
{
    match v {
        Value::Number(s) => s.clone(),
        Value::Bool(b) => {
            if *b {
                String::from_str("Bool(true)")
            } else {
                String::from_str("Bool(false)")
            }
        },
        Value::String(s) => {
            let mut out = String::from_str("String(\"");
            out.append(s.as_str());
            out.append("\")");
            out
        },
        Value::Other(s) => s.clone(),
    }
}

impl Table {
    /// A well-formed table is rectangular: one cell vector per column, each
    /// holding one cell per row.
    pub open spec fn wf(&self) -> bool {
        &&& self.data@.len() == self.columns
        &&& forall|c: int|
            0 <= c < self.columns ==> (#[trigger] self.data@[c])@.len() == self.rows
    }

    /// The cell in column `c`, row `r`.
    pub open spec fn cell(&self, c: int, r: int) -> Value {
        self.data@[c]@[r]
    }

    /// How many cells the grid holds.
    pub open spec fn cell_count(&self) -> int {
        self.rows * self.columns
    }

    /// Checks that the grid is rectangular, so that unverified callers can
    /// validate a snapshot before handing it to the library.
    pub fn check_wf(&self) -> (b: bool)
        ensures
            b == self.wf(),
    {
        if self.data.len() != self.columns {
            return false;
        }
        let mut c: usize = 0;
        while c < self.columns
            invariant
                c <= self.columns,
                self.data@.len() == self.columns,
                forall|j: int| 0 <= j < c ==> (#[trigger] self.data@[j])@.len() == self.rows,
            decreases self.columns - c,
        {
            if self.data[c].len() != self.rows {
                return false;
            }
            c = c + 1;
        }
        true
    }
}

} // verus!
