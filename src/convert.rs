//! Conversion of a column-major source trace into a row-major matrix whose
//! height is padded to a power of two.

use crate::air::{MidenProcessorAir, AUX_TRACE_WIDTH};
use crate::error::ConversionError;
use crate::padding::{ceil_log2, lemma_next_pow2_at_least, next_pow2, next_power_of_two};
use crate::trace::{SourceTrace, TargetMatrix};
use vstd::arithmetic::div_mod::lemma_fundamental_div_mod_converse;
use vstd::arithmetic::mul::lemma_mul_inequality;
use vstd::arithmetic::power2::{lemma_pow2_strictly_increases, pow2};
use vstd::prelude::*;

verus! {

/// What the last row of the source trace carries into the matrix.
///
/// The source machine's final row does not satisfy the clock transition that
/// the target constraint system checks; by default the conversion writes the
/// row's index into its first column to compensate.
#[derive(Debug, Clone, Copy, PartialEq, Eq)]
pub enum BoundaryPolicy {
    /// Column 0 of the last row holds the row's index; other columns are copied.
    RowIndexInFirstColumn,
    /// The last row is copied unchanged.
    Verbatim,
}

/// Figures about one conversion: heights before and after padding, width,
/// number of padding rows, and the base-2 logarithm of the padded height.
#[derive(Debug, Clone, Copy, PartialEq, Eq)]
pub struct TraceStats {
    pub original_height: usize,
    pub padded_height: usize,
    pub width: usize,
    pub padding_rows: usize,
    pub log_height: usize,
}

/// Entry point of the conversion.
pub struct TraceConverter;

/// The padded matrix of `t` fits in memory: its height and its number of
/// entries can be counted in a `usize`.
pub open spec fn fits_in_usize(t: &SourceTrace) -> bool {
    &&& t.spec_height() <= usize::MAX / 2 + 1
    &&& next_pow2(t.spec_height()) * t.spec_width() <= usize::MAX
}

/// The value that converting `t` under `policy` puts at `row`, `col`.
pub open spec fn converted_entry(t: &SourceTrace, policy: BoundaryPolicy, row: int, col: int) -> u64 {
    let h = t.spec_height() as int;
    if row + 1 < h {
        t.spec_value(row, col)
    } else if row + 1 == h {
        if col == 0 && policy == BoundaryPolicy::RowIndexInFirstColumn {
            row as u64
        } else {
            t.spec_value(row, col)
        }
    } else {
        0
    }
}

/// The values of the converted matrix, row after row.
pub open spec fn converted_values(t: &SourceTrace, policy: BoundaryPolicy) -> Seq<u64> {
    let w = t.spec_width() as int;
    Seq::new(
        next_pow2(t.spec_height()) * t.spec_width(),
        |k: int| converted_entry(t, policy, k / w, k % w),
    )
}

/// `r` is what converting `t` under `policy` gives: `EmptyTrace` exactly when
/// `t` has no rows or no columns, else a matrix of `t`'s width whose height is
/// the next power of two and whose values are `converted_values(t, policy)`.
pub open spec fn conversion_result(
    t: &SourceTrace,
    policy: BoundaryPolicy,
    r: Result<TargetMatrix, ConversionError>,
) -> bool {
    match r {
        Ok(m) => t.spec_height() > 0 && t.spec_width() > 0 && m.spec_height() == next_pow2(
            t.spec_height(),
        ) && m.spec_width() == t.spec_width() && m@ == converted_values(t, policy),
        Err(e) => (t.spec_height() == 0 || t.spec_width() == 0) && e == ConversionError::EmptyTrace,
    }
}

/// The statistics of converting `t`.
pub open spec fn expected_stats(t: &SourceTrace) -> TraceStats {
    let h = t.spec_height();
    TraceStats {
        original_height: h as usize,
        padded_height: next_pow2(h) as usize,
        width: t.spec_width() as usize,
        padding_rows: (next_pow2(h) - h) as usize,
        log_height: ceil_log2(h) as usize,
    }
}

/// Relies on p3_util::log2_strict_usize: for a power of two it returns the
/// exponent (it panics on any other input).
#[verifier::external_body]
fn log2_strict(n: usize) -> (r: usize)
    requires
        exists|e: nat| pow2(e) == n,
    ensures
        pow2(r as nat) == n,
{
    p3_util::log2_strict_usize(n)
}

impl TraceConverter {
    /// Converts `source` into a row-major matrix padded with zero rows to the
    /// next power of two, writing the last row's index into its first column.
    /// Fails with `EmptyTrace` when the trace has no rows or no columns.
    pub fn convert(source: &SourceTrace) -> (r: Result<TargetMatrix, ConversionError>)
        requires
            fits_in_usize(source),
        ensures
            conversion_result(source, BoundaryPolicy::RowIndexInFirstColumn, r),
    {
        Self::convert_with_policy(source, BoundaryPolicy::RowIndexInFirstColumn)
    }

    /// Converts `source` into a row-major matrix padded with zero rows to the
    /// next power of two, treating the last row as `policy` says. Fails with
    /// `EmptyTrace` when the trace has no rows or no columns.
    pub fn convert_with_policy(source: &SourceTrace, policy: BoundaryPolicy) -> (r: Result<
        TargetMatrix,
        ConversionError,
    >)
        requires
            fits_in_usize(source),
        ensures
            conversion_result(source, policy, r),
    {
        let height = source.height();
        let width = source.width();
        if height == 0 || width == 0 {
            return Err(ConversionError::EmptyTrace);
        }
        let padded_height = next_power_of_two(height);
        let mut data: Vec<u64> = Vec::with_capacity(padded_height * width);
        let ghost w = width as int;
        let mut row: usize = 0;
        while row < padded_height
            invariant
                height == source.spec_height(),
                width == source.spec_width(),
                width > 0,
                height > 0,
                w == width,
                padded_height == next_pow2(height as nat),
                padded_height * width <= usize::MAX,
                row <= padded_height,
                data@.len() == row * w,
                forall|k: int|
                    0 <= k < row * w ==> #[trigger] data@[k] == converted_entry(
                        source,
                        policy,
                        k / w,
                        k % w,
                    ),
            decreases padded_height - row,
        {
            proof {
                lemma_mul_inequality(row as int + 1, padded_height as int, w);
                assert((row as int + 1) * w == row * w + w) by (nonlinear_arith);
            }
            let mut col: usize = 0;
            while col < width
                invariant
                    height == source.spec_height(),
                    width == source.spec_width(),
                    width > 0,
                    height > 0,
                    w == width,
                    row < padded_height,
                    col <= width,
                    data@.len() == row * w + col,
                    forall|k: int|
                        0 <= k < row * w + col ==> #[trigger] data@[k] == converted_entry(
                            source,
                            policy,
                            k / w,
                            k % w,
                        ),
                decreases width - col,
            {
                let value: u64 = if row < height - 1 {
                    source.get(row, col)
                } else if row == height - 1 {
                    match policy {
                        BoundaryPolicy::RowIndexInFirstColumn => {
                            if col == 0 {
                                row as u64
                            } else {
                                source.get(row, col)
                            }
                        },
                        BoundaryPolicy::Verbatim => source.get(row, col),
                    }
                } else {
                    0
                };
                proof {
                    lemma_fundamental_div_mod_converse(row * w + col, w, row as int, col as int);
                }
                data.push(value);
                col = col + 1;
            }
            row = row + 1;
        }
        proof {
            assert(data@ =~= converted_values(source, policy));
        }
        Ok(TargetMatrix::from_row_major(data, width, padded_height))
    }

    /// Computes the figures of converting `source` without converting it.
    pub fn trace_stats(source: &SourceTrace) -> (r: TraceStats)
        requires
            source.spec_height() <= usize::MAX / 2 + 1,
        ensures
            r == expected_stats(source),
    {
        let height = source.height();
        let padded_height = next_power_of_two(height);
        proof {
            lemma_next_pow2_at_least(height as nat);
        }
        let log_height = log2_strict(padded_height);
        proof {
            let c = ceil_log2(height as nat);
            if log_height < c {
                lemma_pow2_strictly_increases(log_height as nat, c);
            } else if log_height > c {
                lemma_pow2_strictly_increases(c, log_height as nat);
            }
        }
        TraceStats {
            original_height: height,
            padded_height,
            width: source.width(),
            padding_rows: padded_height - height,
            log_height,
        }
    }
}

/// Every row that padding adds, from the source height up to the padded
/// height, holds the additive identity in each column.
pub proof fn law_padding_rows_are_zero(t: &SourceTrace, policy: BoundaryPolicy, row: int, col: int)
    requires
        t.spec_height() <= row < next_pow2(t.spec_height()),
        0 <= col < t.spec_width(),
    ensures
        row * t.spec_width() + col < converted_values(t, policy).len(),
        converted_values(t, policy)[row * t.spec_width() + col] == 0,
{
    let w = t.spec_width() as int;
    lemma_mul_inequality(row + 1, next_pow2(t.spec_height()) as int, w);
    assert((row + 1) * w == row * w + w) by (nonlinear_arith);
    lemma_fundamental_div_mod_converse(row * w + col, w, row, col);
}

/// For a trace with rows and columns, the statistics agree with the
/// conversion: the padded height is the height of the converted matrix, and
/// the padding rows are the difference of the two heights.
pub proof fn law_stats_agree_with_conversion(t: &SourceTrace)
    requires
        t.spec_height() >= 1,
        t.spec_width() >= 1,
        fits_in_usize(t),
    ensures
        expected_stats(t).original_height == t.spec_height(),
        expected_stats(t).padded_height == next_pow2(t.spec_height()),
        expected_stats(t).width == t.spec_width(),
        expected_stats(t).padding_rows == expected_stats(t).padded_height
            - expected_stats(t).original_height,
{
    let h = t.spec_height();
    lemma_next_pow2_at_least(h);
    assert(next_pow2(h) * t.spec_width() >= next_pow2(h) && next_pow2(h) * t.spec_width()
        >= t.spec_width()) by (nonlinear_arith)
        requires
            t.spec_width() >= 1,
            next_pow2(h) >= 1,
    ;
}

/// Two conversions of the same trace under the same policy give the same
/// values.
pub proof fn law_conversion_is_deterministic(a: &SourceTrace, b: &SourceTrace, policy: BoundaryPolicy)
    requires
        a.spec_height() == b.spec_height(),
        a.spec_columns() == b.spec_columns(),
    ensures
        converted_values(a, policy) == converted_values(b, policy),
{
    assert(converted_values(a, policy) =~= converted_values(b, policy));
}

/// Converts `source` as `TraceConverter::convert` does.
pub fn convert_miden_trace(source: &SourceTrace) -> (r: Result<TargetMatrix, ConversionError>)
    requires
        fits_in_usize(source),
    ensures
        conversion_result(source, BoundaryPolicy::RowIndexInFirstColumn, r),
{
    TraceConverter::convert(source)
}

} // verus!

verus! {

/// Converts `source` as `TraceConverter::convert` does, and builds the
/// constraint system, with auxiliary columns, for the same trace.
pub fn convert_miden_execution(source: &SourceTrace) -> (r: Result<
    (TargetMatrix, MidenProcessorAir),
    ConversionError,
>)
    requires
        fits_in_usize(source),
    ensures
        match r {
            Ok((m, air)) => conversion_result(source, BoundaryPolicy::RowIndexInFirstColumn, Ok(m))
                && air == (MidenProcessorAir {
                width: source.spec_width() as usize,
                aux_width: AUX_TRACE_WIDTH,
                has_aux_columns: true,
            }),
            Err(e) => conversion_result(source, BoundaryPolicy::RowIndexInFirstColumn, Err(e)),
        },
{
    let matrix = TraceConverter::convert(source)?;
    let air = MidenProcessorAir::new(source);
    Ok((matrix, air))
}

} // verus!
