use p3_trace_convertor::{
    convert_miden_execution, convert_miden_trace, next_power_of_two, BoundaryPolicy,
    ConversionError, MidenProcessorAir, SourceTrace, TargetMatrix, TraceConverter, TraceStats,
};

/// A trace of `height` rows and `width` columns whose value at (row, col) is
/// `1000 * col + row + 1`.
fn numbered_trace(height: usize, width: usize) -> SourceTrace {
    let columns: Vec<Vec<u64>> = (0..width)
        .map(|col| (0..height).map(|row| (1000 * col + row + 1) as u64).collect())
        .collect();
    SourceTrace::new(height, columns).expect("rectangular columns")
}

fn convert(trace: &SourceTrace) -> TargetMatrix {
    TraceConverter::convert(trace).expect("non-empty trace")
}

#[test]
fn test_conversion_error_empty_trace() {
    let error = ConversionError::EmptyTrace;
    assert!(error.to_string().contains("empty"));
}

#[test]
fn test_trace_stats_calculation() {
    let original_height: usize = 100;
    let padded_height = next_power_of_two(original_height);
    let width: usize = 50;

    let stats = TraceConverter::trace_stats(&numbered_trace(original_height, width));
    assert_eq!(stats.original_height, original_height);
    assert_eq!(stats.width, width);
    assert_eq!(stats.padded_height, padded_height);

    assert_eq!(stats.padded_height, 128);
    assert_eq!(stats.padding_rows, 28);
    assert_eq!(stats.log_height, 7);
}

#[test]
fn test_power_of_two_padding() {
    let original_sizes: [usize; 6] = [10, 64, 100, 127, 128, 200];
    let expected_padded: [usize; 6] = [16, 64, 128, 128, 128, 256];

    for (original, expected) in original_sizes.iter().zip(expected_padded.iter()) {
        let padded = next_power_of_two(*original);
        assert_eq!(
            padded, *expected,
            "Original size {} should pad to {}, got {}",
            original, expected, padded
        );
        assert!(
            padded.is_power_of_two(),
            "Padded size {} should be power of 2",
            padded
        );
    }
}

#[test]
fn test_miden_processor_air_creation() {
    let error = ConversionError::EmptyTrace;
    assert!(error.to_string().contains("empty"));

    let mock_air = MidenProcessorAir {
        width: 100,
        aux_width: 8,
        has_aux_columns: true,
    };
    assert_eq!(mock_air.width(), 100);
}

#[test]
fn test_comprehensive_air_constraint_structure() {
    let mock_air = MidenProcessorAir {
        width: 80,
        aux_width: 8,
        has_aux_columns: true,
    };
    assert_eq!(mock_air.width(), 80);
    assert_eq!(mock_air.aux_width(), 8);
    assert!(mock_air.has_aux_columns);

    let simple_air = MidenProcessorAir {
        width: 80,
        aux_width: 0,
        has_aux_columns: false,
    };
    assert_eq!(simple_air.aux_width(), 0);
    assert!(!simple_air.has_aux_columns);
}

#[test]
fn test_constraint_method_structure() {
    let mock_air = MidenProcessorAir {
        width: 80,
        aux_width: 8,
        has_aux_columns: true,
    };
    let expected_width = 80;
    assert_eq!(mock_air.width(), expected_width);
}

#[test]
fn next_power_of_two_boundary_cases() {
    assert_eq!(next_power_of_two(0), 1);
    assert_eq!(next_power_of_two(1), 1);
    assert_eq!(next_power_of_two(2), 2);
    assert_eq!(next_power_of_two(3), 4);
    assert_eq!(next_power_of_two(128), 128);
    assert_eq!(next_power_of_two(129), 256);
    assert_eq!(next_power_of_two(1 << 40), 1 << 40);
    assert_eq!(next_power_of_two((1 << 40) + 1), 1 << 41);
}

#[test]
fn next_power_of_two_is_smallest_power_at_least_n() {
    for n in 1usize..=1025 {
        let p = next_power_of_two(n);
        assert!(p.is_power_of_two());
        assert!(p >= n);
        assert!(p == 1 || p / 2 < n);
    }
}

#[test]
fn padding_rows_are_all_zero() {
    let trace = numbered_trace(5, 3);
    let matrix = convert(&trace);
    assert_eq!(matrix.height(), 8);
    for row in 5..8 {
        for col in 0..3 {
            assert_eq!(matrix.get(row, col), 0);
        }
    }
}

#[test]
fn rows_before_the_last_are_copied() {
    let trace = numbered_trace(5, 3);
    let matrix = convert(&trace);
    for row in 0..4 {
        for col in 0..3 {
            assert_eq!(matrix.get(row, col), trace.get(row, col));
        }
    }
    assert_eq!(matrix.get(2, 1), 1003);
}

#[test]
fn last_row_carries_its_index_in_first_column() {
    let trace = numbered_trace(5, 3);
    let matrix = convert(&trace);
    assert_eq!(matrix.get(4, 0), 4);
    assert_eq!(matrix.get(4, 1), 1005);
    assert_eq!(matrix.get(4, 2), 2005);
}

#[test]
fn verbatim_policy_copies_last_row() {
    let trace = numbered_trace(5, 3);
    let matrix = TraceConverter::convert_with_policy(&trace, BoundaryPolicy::Verbatim).unwrap();
    assert_eq!(matrix.get(4, 0), 5);
    assert_eq!(matrix.get(4, 1), 1005);
    assert_eq!(matrix.get(5, 0), 0);
}

#[test]
fn values_are_laid_out_row_major() {
    let trace = numbered_trace(3, 2);
    let matrix = convert(&trace);
    assert_eq!(matrix.values(), &[1, 1001, 2, 1002, 2, 1003, 0, 0][..]);
}

#[test]
fn single_row_trace_is_only_the_boundary_row() {
    let trace = numbered_trace(1, 2);
    let matrix = convert(&trace);
    assert_eq!(matrix.height(), 1);
    assert_eq!(matrix.values(), &[0, 1001][..]);
}

#[test]
fn stats_agree_with_conversion() {
    for (height, width) in [(1, 1), (5, 3), (16, 2), (17, 4), (100, 7)] {
        let trace = numbered_trace(height, width);
        let stats = TraceConverter::trace_stats(&trace);
        let matrix = convert(&trace);
        assert_eq!(stats.padded_height, matrix.height());
        assert_eq!(stats.padding_rows, stats.padded_height - stats.original_height);
        assert_eq!(stats.width, matrix.width());
        assert_eq!(1usize << stats.log_height, stats.padded_height);
    }
}

#[test]
fn width_is_preserved() {
    for width in [1, 2, 50, 80] {
        let trace = numbered_trace(3, width);
        assert_eq!(convert(&trace).width(), width);
    }
}

#[test]
fn conversion_is_deterministic() {
    let trace = numbered_trace(11, 4);
    let first = convert(&trace);
    let second = convert(&trace);
    assert_eq!(first, second);
    assert_eq!(convert_miden_trace(&trace).unwrap(), first);
}

#[test]
fn scenario_height_100_width_50() {
    let trace = numbered_trace(100, 50);
    let stats = TraceConverter::trace_stats(&trace);
    assert_eq!(
        stats,
        TraceStats {
            original_height: 100,
            padded_height: 128,
            width: 50,
            padding_rows: 28,
            log_height: 7,
        }
    );
    let matrix = convert(&trace);
    assert_eq!(matrix.height(), 128);
    assert_eq!(matrix.values().len(), 128 * 50);
}

#[test]
fn scenario_padded_heights() {
    let cases: [(usize, usize, usize); 4] = [(10, 16, 6), (64, 64, 0), (127, 128, 1), (200, 256, 56)];
    for (height, padded, padding) in cases {
        let trace = numbered_trace(height, 2);
        let stats = TraceConverter::trace_stats(&trace);
        assert_eq!(stats.padded_height, padded);
        assert_eq!(stats.padding_rows, padding);
        assert_eq!(convert(&trace).height(), padded);
    }
}

#[test]
fn scenario_empty_trace_is_rejected() {
    let no_rows = SourceTrace::new(0, vec![Vec::new(), Vec::new()]).unwrap();
    assert_eq!(TraceConverter::convert(&no_rows), Err(ConversionError::EmptyTrace));
    let no_columns = SourceTrace::new(4, Vec::new()).unwrap();
    assert_eq!(TraceConverter::convert(&no_columns), Err(ConversionError::EmptyTrace));
    assert!(convert_miden_execution(&no_rows).is_err());
}

#[test]
fn stats_of_empty_trace() {
    let no_rows = SourceTrace::new(0, vec![Vec::new()]).unwrap();
    let stats = TraceConverter::trace_stats(&no_rows);
    assert_eq!(stats.padded_height, 1);
    assert_eq!(stats.padding_rows, 1);
    assert_eq!(stats.log_height, 0);
}

#[test]
fn scenario_descriptor_of_width_80() {
    let trace = numbered_trace(2, 80);
    let with_aux = MidenProcessorAir::new(&trace);
    assert_eq!(with_aux.aux_width(), 8);
    assert_eq!(with_aux.width(), 80);
    let main_only = MidenProcessorAir::new_main_only(&trace);
    assert_eq!(main_only.aux_width(), 0);
    assert_eq!(main_only.width(), 80);
}

#[test]
fn disabled_aux_columns_report_zero() {
    let air = MidenProcessorAir {
        width: 80,
        aux_width: 8,
        has_aux_columns: false,
    };
    assert_eq!(air.aux_width(), 0);
}

#[test]
fn conversion_with_descriptor() {
    let trace = numbered_trace(6, 80);
    let (matrix, air) = convert_miden_execution(&trace).unwrap();
    assert_eq!(matrix.width(), air.width());
    assert_eq!(matrix.height(), 8);
    assert_eq!(air.aux_width(), 8);
}

#[test]
fn ragged_columns_are_invalid_dimensions() {
    let result = SourceTrace::new(3, vec![vec![1, 2, 3], vec![4, 5]]);
    assert_eq!(
        result.unwrap_err(),
        ConversionError::InvalidDimensions { rows: 3, cols: 2 }
    );
}

#[test]
fn error_messages() {
    assert_eq!(ConversionError::EmptyTrace.to_string(), "Trace is empty");
    assert_eq!(
        ConversionError::InvalidDimensions { rows: 3, cols: 2 }.to_string(),
        "Invalid trace dimensions: 3×2"
    );
    assert_eq!(
        ConversionError::FieldConversion("too large".to_string()).to_string(),
        "Field conversion error: too large"
    );
    assert_eq!(
        ConversionError::PowerOfTwoPadding {
            current: 8,
            required: 16
        }
        .to_string(),
        "Power of 2 padding error: current=8, required=16"
    );
}

#[test]
fn source_trace_accessors() {
    let trace = numbered_trace(4, 3);
    assert_eq!(trace.height(), 4);
    assert_eq!(trace.width(), 3);
    assert_eq!(trace.column(1), &[1001, 1002, 1003, 1004][..]);
    assert_eq!(trace.get(3, 2), 2004);
}
