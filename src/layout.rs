use vstd::prelude::*;
use crate::cell::Cell;

verus! {

/// A fixed-size container of `width` by `height`, its cell's content centred
/// on both axes and the cell's style applied to it.
pub struct Leaf<C, S> {
    pub cell: Cell<C, S>,
    pub width: u16,
    pub height: u16,
}

/// Leaves laid out left to right, `spacing` apart.
pub struct RowNode<C, S> {
    pub leaves: Vec<Leaf<C, S>>,
    pub spacing: u16,
}

/// Rows laid out top to bottom, `spacing` apart, with `padding` on all sides
/// of the whole.
pub struct Layout<C, S> {
    pub rows: Vec<RowNode<C, S>>,
    pub spacing: u16,
    pub padding: u16,
}

impl<C, S> Layout<C, S> {
    /// Number of rows.
    pub open spec fn row_count(&self) -> nat {
        self.rows@.len()
    }

    /// Number of leaves in row `i`.
    pub open spec fn row_len(&self, i: int) -> nat {
        self.rows@[i].leaves@.len()
    }

    /// The leaf at row `i`, column `j`.
    pub open spec fn leaf(&self, i: int, j: int) -> Leaf<C, S> {
        self.rows@[i].leaves@[j]
    }
}

} // verus!
