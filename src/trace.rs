//! The two trace layouts: a column-major source trace and a row-major target
//! matrix, both holding canonical field values.

use crate::error::ConversionError;
use vstd::arithmetic::mul::lemma_mul_inequality;
use vstd::prelude::*;

verus! {

/// Every column holds exactly `height` values.
pub open spec fn columns_of_height(columns: Seq<Vec<u64>>, height: nat) -> bool {
    forall|c: int| 0 <= c < columns.len() ==> #[trigger] columns[c]@.len() == height
}

/// A column-major execution trace: `width` columns of `height` canonical
/// field values each.
#[derive(Debug)]
pub struct SourceTrace {
    height: usize,
    columns: Vec<Vec<u64>>,
}

impl SourceTrace {
    #[verifier::type_invariant]
    closed spec fn is_rectangular(self) -> bool {
        forall|c: int| 0 <= c < self.columns@.len() ==> #[trigger] self.columns@[c]@.len() == self.height
    }

    /// Number of rows.
    pub closed spec fn spec_height(&self) -> nat {
        self.height as nat
    }

    /// The columns, each as the sequence of its values from the first row on.
    pub closed spec fn spec_columns(&self) -> Seq<Seq<u64>> {
        self.columns@.map_values(|c: Vec<u64>| c@)
    }

    /// Number of columns.
    pub open spec fn spec_width(&self) -> nat {
        self.spec_columns().len()
    }

    /// The value in row `row` of column `col`.
    pub open spec fn spec_value(&self, row: int, col: int) -> u64 {
        self.spec_columns()[col][row]
    }

    /// Builds a trace of `height` rows from its columns. Fails with
    /// `InvalidDimensions` when some column does not hold exactly `height`
    /// values.
    pub fn new(height: usize, columns: Vec<Vec<u64>>) -> (r: Result<SourceTrace, ConversionError>)
        ensures
            match r {
                Ok(t) => columns_of_height(columns@, height as nat) && t.spec_height() == height
                    && t.spec_columns() == columns@.map_values(|c: Vec<u64>| c@),
                Err(e) => !columns_of_height(columns@, height as nat)
                    && e == (ConversionError::InvalidDimensions {
                    rows: height,
                    cols: columns@.len() as usize,
                }),
            },
    {
        let mut c: usize = 0;
        while c < columns.len()
            invariant
                c <= columns@.len(),
                forall|j: int| 0 <= j < c ==> #[trigger] columns@[j]@.len() == height,
            decreases columns@.len() - c,
        {
            if columns[c].len() != height {
                return Err(ConversionError::InvalidDimensions { rows: height, cols: columns.len() });
            }
            c = c + 1;
        }
        Ok(SourceTrace { height, columns })
    }

    /// Number of rows.
    pub fn height(&self) -> (r: usize)
        ensures
            r == self.spec_height(),
    {
        self.height
    }

    /// Number of columns.
    pub fn width(&self) -> (r: usize)
        ensures
            r == self.spec_width(),
    {
        self.columns.len()
    }

    /// The value in row `row` of column `col`.
    pub fn get(&self, row: usize, col: usize) -> (r: u64)
        requires
            row < self.spec_height(),
            col < self.spec_width(),
        ensures
            r == self.spec_value(row as int, col as int),
    {
        proof {
            use_type_invariant(self);
        }
        self.columns[col][row]
    }

    /// Column `col`, from the first row on.
    pub fn column(&self, col: usize) -> (r: &[u64])
        requires
            col < self.spec_width(),
        ensures
            r@ == self.spec_columns()[col as int],
    {
        self.columns[col].as_slice()
    }
}

/// A dense row-major matrix of canonical field values.
#[derive(Debug, PartialEq, Eq)]
pub struct TargetMatrix {
    values: Vec<u64>,
    width: usize,
    height: usize,
}

impl View for TargetMatrix {
    type V = Seq<u64>;

    /// The values, row after row.
    closed spec fn view(&self) -> Seq<u64> {
        self.values@
    }
}

impl TargetMatrix {
    #[verifier::type_invariant]
    closed spec fn is_dense(self) -> bool {
        self.values@.len() == self.height * self.width
    }

    /// Number of rows.
    pub closed spec fn spec_height(&self) -> nat {
        self.height as nat
    }

    /// Number of columns.
    pub closed spec fn spec_width(&self) -> nat {
        self.width as nat
    }

    /// The value at `row`, `col`.
    pub open spec fn spec_entry(&self, row: int, col: int) -> u64 {
        self@[row * self.spec_width() + col]
    }

    /// Lays `values` out as `height` rows of `width` values each.
    pub(crate) fn from_row_major(values: Vec<u64>, width: usize, height: usize) -> (r: TargetMatrix)
        requires
            values@.len() == height * width,
        ensures
            r@ == values@,
            r.spec_width() == width,
            r.spec_height() == height,
    {
        TargetMatrix { values, width, height }
    }

    /// Number of rows.
    pub fn height(&self) -> (r: usize)
        ensures
            r == self.spec_height(),
    {
        self.height
    }

    /// Number of columns.
    pub fn width(&self) -> (r: usize)
        ensures
            r == self.spec_width(),
    {
        self.width
    }

    /// The value at `row`, `col`.
    pub fn get(&self, row: usize, col: usize) -> (r: u64)
        requires
            row < self.spec_height(),
            col < self.spec_width(),
        ensures
            r == self.spec_entry(row as int, col as int),
    {
        let n = self.values.len();
        proof {
            use_type_invariant(self);
            lemma_mul_inequality(row as int + 1, self.height as int, self.width as int);
            assert((row as int + 1) * self.width == row * self.width + self.width) by (nonlinear_arith);
            assert(row * self.width + col < n);
        }
        self.values[row * self.width + col]
    }

    /// All values, row after row.
    pub fn values(&self) -> (r: &[u64])
        ensures
            r@ == self@,
    {
        self.values.as_slice()
    }
}

} // verus!
