//! Assembling accepted rows into a dataset of fixed shape.
//!
//! The orchestrator hands over one accepted row per index; the dataset
//! is accepted only when the row count matches and every row has the
//! grid's length, so a well-shaped dataset is the only value that can
//! exist.

use vstd::prelude::*;

verus! {

/// One output row: the accepted curve and, in the extended variant,
/// its paired derivative curve.
pub struct Row {
    /// The accepted curve's samples, one per grid point.
    pub curve: Vec<u64>,
    /// The matching derivative samples, when the variant that keeps
    /// them is in use.
    pub deriv: Option<Vec<u64>>,
}

impl Row {
    /// The curve spans the whole grid, and so does the derivative
    /// curve when present.
    pub open spec fn shape_ok(self, grid_len: int) -> bool {
        &&& self.curve@.len() == grid_len
        &&& match self.deriv {
            Some(d) => d@.len() == grid_len,
            None => true,
        }
    }
}

/// Why a collection of rows was refused as a dataset.
#[derive(Debug, Clone, Copy, PartialEq, Eq, Structural)]
pub enum DatasetError {
    /// The number of rows differs from the number asked for.
    WrongRowCount,
    /// The row at this index (the first such) does not span the grid.
    MalformedRow(usize),
}

/// A complete dataset: one accepted row per index, each spanning the
/// whole grid.
pub struct Dataset {
    grid_len: usize,
    rows: Vec<Row>,
}

impl Dataset {
    /// The grid length every row spans.
    pub closed spec fn spec_grid_len(self) -> int {
        self.grid_len as int
    }

    /// The rows, in row-index order.
    pub closed spec fn spec_rows(self) -> Seq<Row> {
        self.rows@
    }

    /// Every row spans the grid.
    pub open spec fn well_formed(self) -> bool {
        forall|i: int|
            0 <= i < self.spec_rows().len() ==> #[trigger] self.spec_rows()[i].shape_ok(
                self.spec_grid_len(),
            )
    }

    /// Check the collected rows and seal them as a dataset.
    ///
    /// Succeeds exactly when there are `expected_rows` rows and each
    /// spans the grid; a malformed dataset names the first offending
    /// row.
    pub fn assemble(grid_len: usize, expected_rows: usize, rows: Vec<Row>) -> (r: Result<
        Dataset,
        DatasetError,
    >)
        ensures
            match r {
                Ok(ds) => {
                    &&& rows@.len() == expected_rows
                    &&& ds.spec_rows() == rows@
                    &&& ds.spec_grid_len() == grid_len
                    &&& ds.well_formed()
                },
                Err(DatasetError::WrongRowCount) => rows@.len() != expected_rows,
                Err(DatasetError::MalformedRow(i)) => {
                    &&& rows@.len() == expected_rows
                    &&& 0 <= i < rows@.len()
                    &&& !rows@[i as int].shape_ok(grid_len as int)
                    &&& forall|j: int| 0 <= j < i ==> #[trigger] rows@[j].shape_ok(grid_len as int)
                },
            },
            r is Ok <==> rows@.len() == expected_rows && (forall|i: int|
                0 <= i < rows@.len() ==> #[trigger] rows@[i].shape_ok(grid_len as int)),
    {
        if rows.len() != expected_rows {
            return Err(DatasetError::WrongRowCount);
        }
        let mut i: usize = 0;
        while i < rows.len()
            invariant
                0 <= i <= rows@.len(),
                rows@.len() == expected_rows,
                forall|j: int| 0 <= j < i ==> #[trigger] rows@[j].shape_ok(grid_len as int),
            decreases rows@.len() - i,
        {
            let curve_ok = rows[i].curve.len() == grid_len;
            let deriv_ok = match &rows[i].deriv {
                Some(d) => d.len() == grid_len,
                None => true,
            };
            if !(curve_ok && deriv_ok) {
                assert(!rows@[i as int].shape_ok(grid_len as int));
                return Err(DatasetError::MalformedRow(i));
            }
            i = i + 1;
        }
        Ok(Dataset { grid_len, rows })
    }

    /// The rows, for reading the finished dataset out.
    pub fn rows(&self) -> (r: &Vec<Row>)
        ensures
            r@ == self.spec_rows(),
    {
        &self.rows
    }

    /// How many rows the dataset holds.
    pub fn row_count(&self) -> (n: usize)
        ensures
            n == self.spec_rows().len(),
    {
        self.rows.len()
    }

    /// The grid length, as sealed at assembly.
    pub fn grid(&self) -> (n: usize)
        ensures
            n == self.spec_grid_len(),
    {
        self.grid_len
    }
}

/// Dataset shape law: every row of a well-formed dataset has a curve of
/// exactly the grid's length, and a derivative curve, when present, of
/// that same length.
pub proof fn lemma_dataset_shape(ds: Dataset)
    requires
        ds.well_formed(),
    ensures
        forall|i: int|
            0 <= i < ds.spec_rows().len() ==> (#[trigger] ds.spec_rows()[i]).curve@.len()
                == ds.spec_grid_len(),
        forall|i: int|
            0 <= i < ds.spec_rows().len() ==> match (#[trigger] ds.spec_rows()[i]).deriv {
                Some(d) => d@.len() == ds.spec_grid_len(),
                None => true,
            },
{
    assert forall|i: int| 0 <= i < ds.spec_rows().len() implies (#[trigger] ds.spec_rows()[i]).curve@.len()
        == ds.spec_grid_len() by {
        assert(ds.spec_rows()[i].shape_ok(ds.spec_grid_len()));
    }
    assert forall|i: int|
        0 <= i < ds.spec_rows().len() implies match (#[trigger] ds.spec_rows()[i]).deriv {
        Some(d) => d@.len() == ds.spec_grid_len(),
        None => true,
    } by {
        assert(ds.spec_rows()[i].shape_ok(ds.spec_grid_len()));
    }
}

} // verus!
