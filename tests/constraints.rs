use p3_trace_convertor::{Assertion, Constraint, Expr, Guard, MidenProcessorAir, Segment};

fn air(width: usize) -> MidenProcessorAir {
    MidenProcessorAir {
        width,
        aux_width: 8,
        has_aux_columns: true,
    }
}

fn count(constraints: &[Constraint], segment: Segment) -> usize {
    constraints.iter().filter(|c| c.segment == segment).count()
}

fn max_column(e: &Expr) -> Option<usize> {
    match e {
        Expr::Current(c) | Expr::Next(c) => Some(*c),
        Expr::Constant(_) => None,
        Expr::Sum(a, b) | Expr::Difference(a, b) | Expr::Product(a, b) => {
            max_column(a).max(max_column(b))
        }
    }
}

fn constraint_max_column(c: &Constraint) -> Option<usize> {
    let guard = match &c.guard {
        Guard::When(e) => max_column(e),
        _ => None,
    };
    let assertion = match &c.assertion {
        Assertion::Zero(e) | Assertion::Boolean(e) => max_column(e),
        Assertion::Equal(a, b) => max_column(a).max(max_column(b)),
    };
    guard.max(assertion)
}

fn cur(c: usize) -> Box<Expr> {
    Box::new(Expr::Current(c))
}

#[test]
fn full_width_emits_every_segment() {
    let constraints = air(80).constraints();
    assert_eq!(count(&constraints, Segment::System), 4);
    assert_eq!(count(&constraints, Segment::Decoder), 12);
    assert_eq!(count(&constraints, Segment::Stack), 17);
    assert_eq!(count(&constraints, Segment::RangeCheck), 1);
    assert_eq!(count(&constraints, Segment::Chiplets), 8);
    assert_eq!(count(&constraints, Segment::Boundary), 2);
    assert_eq!(constraints.len(), 44);
}

#[test]
fn narrow_traces_skip_segments() {
    assert_eq!(air(1).constraints().len(), 3);
    assert_eq!(air(8).constraints().len(), 6);
    assert_eq!(air(32).constraints().len(), 18);
    assert_eq!(air(51).constraints().len(), 35);
    assert_eq!(air(53).constraints().len(), 36);
    assert_eq!(air(72).constraints().len(), 36);
    assert_eq!(air(73).constraints().len(), 44);
}

#[test]
fn constraints_read_only_columns_of_the_trace() {
    for width in 1..100 {
        for c in air(width).constraints() {
            if let Some(col) = constraint_max_column(&c) {
                assert!(col < width, "width {} reads column {}", width, col);
            }
        }
    }
}

#[test]
fn clock_constraints() {
    let system = air(80).segment_constraints(Segment::System);
    assert_eq!(
        system[0],
        Constraint {
            segment: Segment::System,
            guard: Guard::Transition,
            assertion: Assertion::Equal(
                Expr::Next(0),
                Expr::Sum(cur(0), Box::new(Expr::Constant(1)))
            ),
        }
    );
    assert_eq!(
        system[1],
        Constraint {
            segment: Segment::System,
            guard: Guard::FirstRow,
            assertion: Assertion::Equal(Expr::Current(0), Expr::Constant(0)),
        }
    );
    assert_eq!(
        system[2].assertion,
        Assertion::Equal(Expr::Current(1), Expr::Constant(1073741824))
    );
    assert_eq!(system[3].assertion, Assertion::Boolean(Expr::Current(3)));
}

#[test]
fn decoder_constraints() {
    let decoder = air(80).segment_constraints(Segment::Decoder);
    let booleans: Vec<Assertion> = (9..16).chain(21..25).map(|c| Assertion::Boolean(Expr::Current(c))).collect();
    for (c, expected) in decoder.iter().zip(booleans.iter()) {
        assert_eq!(&c.assertion, expected);
        assert_eq!(c.guard, Guard::EveryRow);
    }
    let diff = || Box::new(Expr::Difference(cur(25), Box::new(Expr::Next(25))));
    assert_eq!(decoder[11].guard, Guard::Transition);
    assert_eq!(
        decoder[11].assertion,
        Assertion::Zero(Expr::Product(
            diff(),
            Box::new(Expr::Difference(diff(), Box::new(Expr::Constant(1))))
        ))
    );
    assert!(air(31).segment_constraints(Segment::Decoder).is_empty());
}

#[test]
fn stack_constraints() {
    let stack = air(80).segment_constraints(Segment::Stack);
    assert_eq!(
        stack[0].assertion,
        Assertion::Zero(Expr::Difference(
            Box::new(Expr::Product(
                cur(48),
                Box::new(Expr::Difference(cur(48), Box::new(Expr::Constant(16))))
            )),
            Box::new(Expr::Constant(1))
        ))
    );
    for slot in 0..16 {
        assert_eq!(stack[1 + slot].guard, Guard::Transition);
        assert_eq!(
            stack[1 + slot].assertion,
            Assertion::Zero(Expr::Difference(
                Box::new(Expr::Next(32 + slot)),
                cur(32 + slot)
            ))
        );
    }
    assert!(air(50).segment_constraints(Segment::Stack).is_empty());
}

#[test]
fn range_check_constraint() {
    let range = air(53).segment_constraints(Segment::RangeCheck);
    assert_eq!(range.len(), 1);
    assert_eq!(range[0].guard, Guard::EveryRow);
    assert_eq!(
        range[0].assertion,
        Assertion::Zero(Expr::Product(
            Box::new(Expr::Difference(cur(51), Box::new(Expr::Constant(65536)))),
            Box::new(Expr::Difference(cur(51), Box::new(Expr::Constant(0))))
        ))
    );
    assert!(air(52).segment_constraints(Segment::RangeCheck).is_empty());
}

#[test]
fn chiplet_constraints() {
    let chiplets = air(73).segment_constraints(Segment::Chiplets);
    assert_eq!(chiplets.len(), 8);
    for i in 0..6 {
        assert_eq!(chiplets[i].assertion, Assertion::Boolean(Expr::Current(53 + i)));
    }
    assert_eq!(
        chiplets[6].guard,
        Guard::When(Expr::Product(
            Box::new(Expr::Product(cur(53), cur(54))),
            Box::new(Expr::Difference(Box::new(Expr::Constant(1)), cur(55)))
        ))
    );
    assert_eq!(
        chiplets[6].assertion,
        Assertion::Zero(Expr::Difference(Box::new(Expr::Next(63)), cur(63)))
    );
    assert_eq!(
        chiplets[7].guard,
        Guard::When(Expr::Product(
            cur(53),
            Box::new(Expr::Difference(Box::new(Expr::Constant(1)), cur(54)))
        ))
    );
    assert_eq!(
        chiplets[7].assertion,
        Assertion::Zero(Expr::Difference(cur(68), Box::new(Expr::Constant(0))))
    );
    assert!(air(72).segment_constraints(Segment::Chiplets).is_empty());
}

#[test]
fn boundary_constraints() {
    let boundary = air(80).segment_constraints(Segment::Boundary);
    assert_eq!(boundary.len(), 2);
    assert_eq!(boundary[0].guard, Guard::FirstRow);
    assert_eq!(
        boundary[1].assertion,
        Assertion::Equal(Expr::Current(2), Expr::Constant(0))
    );
    assert_eq!(air(2).segment_constraints(Segment::Boundary).len(), 1);
}

#[test]
fn segments_concatenate_to_all_constraints() {
    let a = air(80);
    let mut joined = Vec::new();
    for segment in [
        Segment::System,
        Segment::Decoder,
        Segment::Stack,
        Segment::RangeCheck,
        Segment::Chiplets,
        Segment::Boundary,
    ] {
        joined.extend(a.segment_constraints(segment));
    }
    assert_eq!(joined, a.constraints());
}
