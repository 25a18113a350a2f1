use vstd::prelude::*;
use crate::cell::{Cell, Factory, Source};
use crate::layout::{Layout, Leaf, RowNode};

verus! {

/// What a grid holds: its rows of factories, in the order they were added,
/// and its four lengths.
pub struct GridView<C, S, F> {
    pub rows: Seq<Seq<Factory<C, S, F>>>,
    pub cell_width: u16,
    pub cell_height: u16,
    pub gutter: u16,
    pub padding: u16,
}

impl<C: Clone, S: Copy + Default, F: Fn() -> Cell<C, S>> GridView<C, S, F> {
    /// The same grid with `rows` added after its own rows.
    pub open spec fn append_rows(self, rows: Seq<Seq<Factory<C, S, F>>>) -> Self {
        GridView { rows: self.rows + rows, ..self }
    }

    /// Every factory of the grid can be called.
    pub open spec fn wf(self) -> bool {
        forall|i: int, j: int|
            0 <= i < self.rows.len() && 0 <= j < self.rows[i].len() ==> (#[trigger] self.rows[i][j]).wf()
    }

    /// `row` is a rendering of row `i`: one leaf of the grid's cell size for
    /// each factory of the row, in order, holding what that factory produced,
    /// and the gutter between adjacent leaves.
    pub open spec fn renders_row(self, i: int, row: RowNode<C, S>) -> bool {
        &&& row.spacing == self.gutter
        &&& row.leaves@.len() == self.rows[i].len()
        &&& forall|j: int|
            0 <= j < row.leaves@.len() ==> {
                let leaf = #[trigger] row.leaves@[j];
                &&& leaf.width == self.cell_width
                &&& leaf.height == self.cell_height
                &&& self.rows[i][j].produces(leaf.cell)
            }
    }

    /// `l` is a rendering of the whole grid: one row composite per row, in
    /// order, the gutter between adjacent rows, and the padding around all.
    pub open spec fn renders(self, l: Layout<C, S>) -> bool {
        &&& l.padding == self.padding
        &&& l.spacing == self.gutter
        &&& l.rows@.len() == self.rows.len()
        &&& forall|i: int| 0 <= i < l.rows@.len() ==> self.renders_row(i, #[trigger] l.rows@[i])
    }
}

/// A grid of cells, built row by row and rendered into a [`Layout`].
pub struct Grid<C, S, F> {
    rows: Vec<Vec<Factory<C, S, F>>>,
    cell_width: u16,
    cell_height: u16,
    gutter: u16,
    padding: u16,
}

/// The factories of each row, as sequences.
pub open spec fn rows_view<C, S, F>(rows: Seq<Vec<Factory<C, S, F>>>) -> Seq<Seq<Factory<C, S, F>>> {
    rows.map_values(|r: Vec<Factory<C, S, F>>| r@)
}

impl<C, S, F> View for Grid<C, S, F> {
    type V = GridView<C, S, F>;

    closed spec fn view(&self) -> GridView<C, S, F> {
        GridView {
            rows: rows_view(self.rows@),
            cell_width: self.cell_width,
            cell_height: self.cell_height,
            gutter: self.gutter,
            padding: self.padding,
        }
    }
}


impl<C: Clone, S: Copy + Default, F: Fn() -> Cell<C, S>> Grid<C, S, F> {
    /// A grid with no rows, and zero cell width, cell height, gutter and padding.
    pub fn new() -> (r: Self)
        ensures
            r@.rows == Seq::<Seq<Factory<C, S, F>>>::empty(),
            r@.cell_width == 0,
            r@.cell_height == 0,
            r@.gutter == 0,
            r@.padding == 0,
    {
        let r = Grid { rows: Vec::new(), cell_width: 0, cell_height: 0, gutter: 0, padding: 0 };
        assert(r@.rows =~= Seq::<Seq<Factory<C, S, F>>>::empty());
        r
    }

    /// The grid with `row` added as its last row.
    pub fn with_row(self, row: Vec<Factory<C, S, F>>) -> (r: Self)
        ensures
            r@ == self@.append_rows(seq![row@]),
    {
        let mut g = self;
        let ghost before = g.rows@;
        g.rows.push(row);
        assert(rows_view(g.rows@) =~= rows_view(before) + seq![row@]);
        g
    }

    /// The grid with `rows` added, in order, after its own rows.
    pub fn with_rows(self, rows: Vec<Vec<Factory<C, S, F>>>) -> (r: Self)
        ensures
            r@ == self@.append_rows(rows_view(rows@)),
    {
        let mut g = self;
        let mut rows = rows;
        let ghost before = g.rows@;
        let ghost added = rows@;
        g.rows.append(&mut rows);
        assert(rows_view(g.rows@) =~= rows_view(before) + rows_view(added));
        g
    }

    /// The grid with each cell's container `cell_width` wide.
    pub fn cell_width(self, cell_width: u16) -> (r: Self)
        ensures
            r@ == (GridView { cell_width, ..self@ }),
    {
        Grid { cell_width, ..self }
    }

    /// The grid with each cell's container `cell_height` high.
    pub fn cell_height(self, cell_height: u16) -> (r: Self)
        ensures
            r@ == (GridView { cell_height, ..self@ }),
    {
        Grid { cell_height, ..self }
    }

    /// The grid with `gutter` between adjacent cells of a row and between
    /// adjacent rows.
    pub fn gutter(self, gutter: u16) -> (r: Self)
        ensures
            r@ == (GridView { gutter, ..self@ }),
    {
        Grid { gutter, ..self }
    }

    /// The grid with `padding` on all sides of the whole.
    pub fn padding(self, padding: u16) -> (r: Self)
        ensures
            r@ == (GridView { padding, ..self@ }),
    {
        Grid { padding, ..self }
    }

    /// One render pass: calls every factory once, row by row and left to
    /// right, and composes the cells into rows inside a padded column.
    pub fn render(&self) -> (l: Layout<C, S>)
        requires
            self@.wf(),
        ensures
            self@.renders(l),
    {
        let mut rows: Vec<RowNode<C, S>> = Vec::new();
        let mut i: usize = 0;
        while i < self.rows.len()
            invariant
                0 <= i <= self.rows@.len(),
                rows@.len() == i,
                self@.wf(),
                forall|k: int| 0 <= k < i ==> self@.renders_row(k, #[trigger] rows@[k]),
            decreases self.rows@.len() - i,
        {
            let row = &self.rows[i];
            assert(self@.rows[i as int] == row@);
            let mut leaves: Vec<Leaf<C, S>> = Vec::new();
            let mut j: usize = 0;
            while j < row.len()
                invariant
                    0 <= j <= row@.len(),
                    leaves@.len() == j,
                    self@.rows[i as int] == row@,
                    self@.wf(),
                    i < self@.rows.len(),
                    forall|k: int|
                        0 <= k < j ==> {
                            let leaf = #[trigger] leaves@[k];
                            &&& leaf.width == self.cell_width
                            &&& leaf.height == self.cell_height
                            &&& row@[k].produces(leaf.cell)
                        },
                decreases row@.len() - j,
            {
                assert(self@.rows[i as int][j as int].wf());
                let cell = row[j].produce();
                leaves.push(Leaf { cell, width: self.cell_width, height: self.cell_height });
                j += 1;
            }
            rows.push(RowNode { leaves, spacing: self.gutter });
            i += 1;
        }
        Layout { rows, spacing: self.gutter, padding: self.padding }
    }
}


impl<C: Clone, S: Copy + Default, F: Fn() -> Cell<C, S>> Default for Grid<C, S, F> {
    /// A grid with no rows, and zero cell width, cell height, gutter and padding.
    fn default() -> (r: Self)
        ensures
            r@.rows == Seq::<Seq<Factory<C, S, F>>>::empty(),
            r@.cell_width == 0,
            r@.cell_height == 0,
            r@.gutter == 0,
            r@.padding == 0,
    {
        Self::new()
    }
}

/// A rendering has one row composite per row of the grid, and in row `i` one
/// leaf per factory of row `i`: short rows stay short.
pub proof fn lemma_render_shape<C: Clone, S: Copy + Default, F: Fn() -> Cell<C, S>>(
    g: GridView<C, S, F>,
    l: Layout<C, S>,
)
    requires
        g.renders(l),
    ensures
        l.row_count() == g.rows.len(),
        forall|i: int| 0 <= i < g.rows.len() ==> l.row_len(i) == (#[trigger] g.rows[i]).len(),
{
    assert forall|i: int| 0 <= i < g.rows.len() implies l.row_len(i) == (#[trigger] g.rows[i]).len() by {
        assert(g.renders_row(i, l.rows@[i]));
    }
}

/// Rows added to a grid keep their place: in any rendering of the extended
/// grid, the leaf at row `i`, column `j` holds what the `j`-th factory of the
/// `i`-th row produced, for the grid's own rows and for the added ones.
pub proof fn lemma_appended_rows_keep_position<C: Clone, S: Copy + Default, F: Fn() -> Cell<C, S>>(
    g: GridView<C, S, F>,
    added: Seq<Seq<Factory<C, S, F>>>,
    l: Layout<C, S>,
)
    requires
        g.append_rows(added).renders(l),
    ensures
        forall|i: int, j: int|
            0 <= i < g.rows.len() && 0 <= j < g.rows[i].len() ==> l.row_len(i) == g.rows[i].len()
                && (#[trigger] g.rows[i][j]).produces(l.leaf(i, j).cell),
        forall|i: int, j: int|
            0 <= i < added.len() && 0 <= j < added[i].len() ==> l.row_len(g.rows.len() + i)
                == added[i].len() && (#[trigger] added[i][j]).produces(
                l.leaf(g.rows.len() + i, j).cell,
            ),
{
    let h = g.append_rows(added);
    assert forall|i: int, j: int|
        0 <= i < g.rows.len() && 0 <= j < g.rows[i].len() implies l.row_len(i) == g.rows[i].len()
            && (#[trigger] g.rows[i][j]).produces(l.leaf(i, j).cell) by {
        assert(h.rows[i] == g.rows[i]);
        assert(h.renders_row(i, l.rows@[i]));
        assert(l.rows@[i].leaves@[j] == l.leaf(i, j));
    }
    assert forall|i: int, j: int|
        0 <= i < added.len() && 0 <= j < added[i].len() implies l.row_len(g.rows.len() + i)
            == added[i].len() && (#[trigger] added[i][j]).produces(
            l.leaf(g.rows.len() + i, j).cell,
        ) by {
        let k = g.rows.len() + i;
        assert(h.rows[k] == added[i]);
        assert(h.renders_row(k, l.rows@[k]));
        assert(l.rows@[k].leaves@[j] == l.leaf(k, j));
    }
}

/// Two renderings of one grid have the same shape, the same lengths, and the
/// same style at every position whose factory produces a single style, even
/// where the content they hold differs.
pub proof fn lemma_render_twice_same_structure<C: Clone, S: Copy + Default, F: Fn() -> Cell<C, S>>(
    g: GridView<C, S, F>,
    l1: Layout<C, S>,
    l2: Layout<C, S>,
)
    requires
        g.renders(l1),
        g.renders(l2),
    ensures
        l1.row_count() == l2.row_count(),
        l1.spacing == l2.spacing,
        l1.padding == l2.padding,
        forall|i: int| 0 <= i < l1.row_count() ==> #[trigger] l1.row_len(i) == l2.row_len(i)
            && l1.rows@[i].spacing == l2.rows@[i].spacing,
        forall|i: int, j: int|
            0 <= i < l1.row_count() && 0 <= j < l1.row_len(i) ==> {
                let a = #[trigger] l1.leaf(i, j);
                let b = l2.leaf(i, j);
                &&& a.width == b.width
                &&& a.height == b.height
                &&& g.rows[i][j].style_determined() ==> a.cell.style == b.cell.style
            },
{
    assert forall|i: int| 0 <= i < l1.row_count() implies #[trigger] l1.row_len(i) == l2.row_len(i)
        && l1.rows@[i].spacing == l2.rows@[i].spacing by {
        assert(g.renders_row(i, l1.rows@[i]));
        assert(g.renders_row(i, l2.rows@[i]));
    }
    assert forall|i: int, j: int| 0 <= i < l1.row_count() && 0 <= j < l1.row_len(i) implies {
        let a = #[trigger] l1.leaf(i, j);
        let b = l2.leaf(i, j);
        &&& a.width == b.width
        &&& a.height == b.height
        &&& g.rows[i][j].style_determined() ==> a.cell.style == b.cell.style
    } by {
        assert(g.renders_row(i, l1.rows@[i]));
        assert(g.renders_row(i, l2.rows@[i]));
        assert(l1.rows@[i].leaves@[j] == l1.leaf(i, j));
        assert(l2.rows@[i].leaves@[j] == l2.leaf(i, j));
        assert(g.rows[i][j].produces(l1.leaf(i, j).cell));
        assert(g.rows[i][j].produces(l2.leaf(i, j).cell));
    }
}

/// The gutter stands between every two adjacent cells of every row and between
/// every two adjacent rows, and the padding once around the whole.
pub proof fn lemma_gutter_and_padding<C: Clone, S: Copy + Default, F: Fn() -> Cell<C, S>>(
    g: GridView<C, S, F>,
    l: Layout<C, S>,
)
    requires
        g.renders(l),
    ensures
        l.spacing == g.gutter,
        l.padding == g.padding,
        forall|i: int| 0 <= i < l.row_count() ==> (#[trigger] l.rows@[i]).spacing == g.gutter,
{
    assert forall|i: int| 0 <= i < l.row_count() implies (#[trigger] l.rows@[i]).spacing == g.gutter by {
        assert(g.renders_row(i, l.rows@[i]));
    }
}

} // verus!
