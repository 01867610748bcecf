//! The constraint translator: the source machine's constraint system restated
//! as polynomial assertions over two consecutive rows of the converted matrix.
//!
//! The main trace is laid out as system (8 columns) | decoder (24) | stack (19)
//! | range checker (2) | chiplets (20). A segment's constraints are emitted
//! only when the trace is wide enough to hold the segment.

use crate::trace::SourceTrace;
use vstd::prelude::*;

verus! {

/// Clock column.
pub const CLK_COL: usize = 0;

/// Frame-pointer column.
pub const FMP_COL: usize = 1;

/// Execution-context column.
pub const CTX_COL: usize = 2;

/// In-syscall flag column.
pub const IN_SYSCALL_COL: usize = 3;

/// Value of the frame pointer on the first row (2^30).
pub const INITIAL_FMP: u64 = 1073741824;

/// First column of the decoder.
pub const DECODER_OFFSET: usize = 8;

/// Number of decoder columns.
pub const DECODER_WIDTH: usize = 24;

/// First operation-bit column (decoder offset 1).
pub const OP_BITS_COL: usize = 9;

/// Number of operation bits.
pub const NUM_OP_BITS: usize = 7;

/// First control-flow flag column (decoder offset 13): is_call, is_syscall,
/// is_loop, is_loop_body.
pub const CONTROL_FLAGS_COL: usize = 21;

/// Number of control-flow flags.
pub const NUM_CONTROL_FLAGS: usize = 4;

/// Group-count column (decoder offset 17).
pub const GROUP_COUNT_COL: usize = 25;

/// First column of the stack.
pub const STACK_OFFSET: usize = 32;

/// Number of stack columns.
pub const STACK_WIDTH: usize = 19;

/// Number of visible stack slots.
pub const NUM_STACK_SLOTS: usize = 16;

/// Stack-depth column (stack offset 16).
pub const STACK_DEPTH_COL: usize = 48;

/// Minimum depth of the stack.
pub const MIN_STACK_DEPTH: u64 = 16;

/// First column of the range checker: the value checked.
pub const RANGE_OFFSET: usize = 51;

/// Number of range-checker columns.
pub const RANGE_WIDTH: usize = 2;

/// Bound of the range check (2^16).
pub const RANGE_BOUND: u64 = 65536;

/// First column of the chiplets: the selectors.
pub const CHIPLETS_OFFSET: usize = 53;

/// Number of chiplet columns.
pub const CHIPLETS_WIDTH: usize = 20;

/// Number of chiplet selector columns.
pub const NUM_CHIPLET_SELECTORS: usize = 6;

/// Memory-value column (chiplets offset 10).
pub const MEMORY_VALUE_COL: usize = 63;

/// Bitwise-output column (chiplets offset 15).
pub const BITWISE_OUTPUT_COL: usize = 68;

/// Number of auxiliary columns of the source machine.
pub const AUX_TRACE_WIDTH: usize = 8;

/// A polynomial over the values of the current and the next row.
#[derive(Debug, PartialEq, Eq)]
pub enum Expr {
    /// The value of a column in the current row.
    Current(usize),
    /// The value of a column in the next row.
    Next(usize),
    /// A field constant, by its canonical value.
    Constant(u64),
    /// `a + b`.
    Sum(Box<Expr>, Box<Expr>),
    /// `a - b`.
    Difference(Box<Expr>, Box<Expr>),
    /// `a * b`.
    Product(Box<Expr>, Box<Expr>),
}

/// The rows on which an assertion is checked.
#[derive(Debug, PartialEq, Eq)]
pub enum Guard {
    /// Every row.
    EveryRow,
    /// Every row but the last, together with its successor.
    Transition,
    /// The first row only.
    FirstRow,
    /// Every row, with the assertion multiplied by this selector.
    When(Expr),
}

/// What is asserted of the rows a guard selects.
#[derive(Debug, PartialEq, Eq)]
pub enum Assertion {
    /// The polynomial vanishes.
    Zero(Expr),
    /// The polynomial is 0 or 1.
    Boolean(Expr),
    /// The two polynomials are equal.
    Equal(Expr, Expr),
}

/// The part of the machine a constraint comes from.
#[derive(Debug, Clone, Copy, PartialEq, Eq)]
pub enum Segment {
    System,
    Decoder,
    Stack,
    RangeCheck,
    Chiplets,
    Boundary,
}

/// One assertion over two consecutive rows.
#[derive(Debug, PartialEq, Eq)]
pub struct Constraint {
    pub segment: Segment,
    pub guard: Guard,
    pub assertion: Assertion,
}

/// `a + b`.
pub open spec fn sum(a: Expr, b: Expr) -> Expr {
    Expr::Sum(Box::new(a), Box::new(b))
}

/// `a - b`.
pub open spec fn difference(a: Expr, b: Expr) -> Expr {
    Expr::Difference(Box::new(a), Box::new(b))
}

/// `a * b`.
pub open spec fn product(a: Expr, b: Expr) -> Expr {
    Expr::Product(Box::new(a), Box::new(b))
}

/// Column `col` of the current row is 0 or 1 on every row.
pub open spec fn boolean_column(segment: Segment, col: int) -> Constraint {
    Constraint {
        segment,
        guard: Guard::EveryRow,
        assertion: Assertion::Boolean(Expr::Current(col as usize)),
    }
}

/// Column `col` equals `value` on the first row.
pub open spec fn starts_at(segment: Segment, col: usize, value: u64) -> Constraint {
    Constraint {
        segment,
        guard: Guard::FirstRow,
        assertion: Assertion::Equal(Expr::Current(col), Expr::Constant(value)),
    }
}

/// The clock goes up by one on every transition.
pub open spec fn clock_step() -> Constraint {
    Constraint {
        segment: Segment::System,
        guard: Guard::Transition,
        assertion: Assertion::Equal(
            Expr::Next(CLK_COL),
            sum(Expr::Current(CLK_COL), Expr::Constant(1)),
        ),
    }
}

/// System constraints: the clock steps by one from zero, the frame pointer
/// starts at its initial value, and the in-syscall flag is boolean.
pub open spec fn system_constraints(width: nat) -> Seq<Constraint> {
    (if width > CLK_COL {
        seq![clock_step(), starts_at(Segment::System, CLK_COL, 0)]
    } else {
        seq![]
    }) + (if width > FMP_COL {
        seq![starts_at(Segment::System, FMP_COL, INITIAL_FMP)]
    } else {
        seq![]
    }) + (if width > IN_SYSCALL_COL {
        seq![boolean_column(Segment::System, IN_SYSCALL_COL as int)]
    } else {
        seq![]
    })
}

/// The group count goes down by 0 or 1 on every transition.
pub open spec fn group_count_step() -> Constraint {
    let diff = difference(Expr::Current(GROUP_COUNT_COL), Expr::Next(GROUP_COUNT_COL));
    Constraint {
        segment: Segment::Decoder,
        guard: Guard::Transition,
        assertion: Assertion::Zero(product(diff, difference(diff, Expr::Constant(1)))),
    }
}

/// Decoder constraints: operation bits and control-flow flags are boolean,
/// and the group count steps down by at most one.
pub open spec fn decoder_constraints(width: nat) -> Seq<Constraint> {
    if width < DECODER_OFFSET + DECODER_WIDTH {
        seq![]
    } else {
        Seq::new(NUM_OP_BITS as nat, |i: int| boolean_column(Segment::Decoder, OP_BITS_COL + i))
            + Seq::new(
            NUM_CONTROL_FLAGS as nat,
            |i: int| boolean_column(Segment::Decoder, CONTROL_FLAGS_COL + i),
        ) + seq![group_count_step()]
    }
}

/// The depth column is tied to a narrow two-value relation on every
/// transition: `depth * (depth - 16) - 1 = 0`.
pub open spec fn stack_depth_relation() -> Constraint {
    let depth = Expr::Current(STACK_DEPTH_COL);
    Constraint {
        segment: Segment::Stack,
        guard: Guard::Transition,
        assertion: Assertion::Zero(
            difference(
                product(depth, difference(depth, Expr::Constant(MIN_STACK_DEPTH))),
                Expr::Constant(1),
            ),
        ),
    }
}

/// Column `col` keeps its value across every transition.
pub open spec fn stable_column(col: int) -> Constraint {
    Constraint {
        segment: Segment::Stack,
        guard: Guard::Transition,
        assertion: Assertion::Zero(
            difference(Expr::Next(col as usize), Expr::Current(col as usize)),
        ),
    }
}

/// Stack constraints: the depth relation, and every visible slot stable
/// across a transition.
pub open spec fn stack_constraints(width: nat) -> Seq<Constraint> {
    if width < STACK_OFFSET + STACK_WIDTH {
        seq![]
    } else {
        seq![stack_depth_relation()] + Seq::new(
            NUM_STACK_SLOTS as nat,
            |i: int| stable_column(STACK_OFFSET + i),
        )
    }
}

/// The range-checked value is bound by `(v - 2^16) * (v - 0) = 0` on every row.
pub open spec fn range_bound() -> Constraint {
    let v = Expr::Current(RANGE_OFFSET);
    Constraint {
        segment: Segment::RangeCheck,
        guard: Guard::EveryRow,
        assertion: Assertion::Zero(
            product(
                difference(v, Expr::Constant(RANGE_BOUND)),
                difference(v, Expr::Constant(0)),
            ),
        ),
    }
}

/// Range-check constraints.
pub open spec fn range_check_constraints(width: nat) -> Seq<Constraint> {
    if width < RANGE_OFFSET + RANGE_WIDTH {
        seq![]
    } else {
        seq![range_bound()]
    }
}

/// Under selector pattern `[1, 1, 0, ...]` the memory value keeps its value
/// into the next row.
pub open spec fn memory_consistency() -> Constraint {
    let is_memory_op = product(
        product(Expr::Current(CHIPLETS_OFFSET), Expr::Current((CHIPLETS_OFFSET + 1) as usize)),
        difference(Expr::Constant(1), Expr::Current((CHIPLETS_OFFSET + 2) as usize)),
    );
    Constraint {
        segment: Segment::Chiplets,
        guard: Guard::When(is_memory_op),
        assertion: Assertion::Zero(
            difference(Expr::Next(MEMORY_VALUE_COL), Expr::Current(MEMORY_VALUE_COL)),
        ),
    }
}

/// Under selector pattern `[1, 0, ...]` the bitwise output is zero.
pub open spec fn bitwise_consistency() -> Constraint {
    let is_bitwise_op = product(
        Expr::Current(CHIPLETS_OFFSET),
        difference(Expr::Constant(1), Expr::Current((CHIPLETS_OFFSET + 1) as usize)),
    );
    Constraint {
        segment: Segment::Chiplets,
        guard: Guard::When(is_bitwise_op),
        assertion: Assertion::Zero(
            difference(Expr::Current(BITWISE_OUTPUT_COL), Expr::Constant(0)),
        ),
    }
}

/// Chiplet constraints: the selectors are boolean, and the memory and
/// bitwise assertions apply under their selector patterns.
pub open spec fn chiplet_constraints(width: nat) -> Seq<Constraint> {
    if width < CHIPLETS_OFFSET + CHIPLETS_WIDTH {
        seq![]
    } else {
        Seq::new(
            NUM_CHIPLET_SELECTORS as nat,
            |i: int| boolean_column(Segment::Chiplets, CHIPLETS_OFFSET + i),
        ) + seq![memory_consistency(), bitwise_consistency()]
    }
}

/// Boundary constraints: on the first row the clock and, where present, the
/// context are zero.
pub open spec fn boundary_constraints(width: nat) -> Seq<Constraint> {
    seq![starts_at(Segment::Boundary, CLK_COL, 0)] + (if width > CTX_COL {
        seq![starts_at(Segment::Boundary, CTX_COL, 0)]
    } else {
        seq![]
    })
}

/// The constraints of one segment for a trace of `width` columns.
pub open spec fn segment_spec(segment: Segment, width: nat) -> Seq<Constraint> {
    match segment {
        Segment::System => system_constraints(width),
        Segment::Decoder => decoder_constraints(width),
        Segment::Stack => stack_constraints(width),
        Segment::RangeCheck => range_check_constraints(width),
        Segment::Chiplets => chiplet_constraints(width),
        Segment::Boundary => boundary_constraints(width),
    }
}

/// All constraints for a trace of `width` columns, segment after segment.
pub open spec fn all_constraints(width: nat) -> Seq<Constraint> {
    system_constraints(width) + decoder_constraints(width) + stack_constraints(width)
        + range_check_constraints(width) + chiplet_constraints(width) + boundary_constraints(
        width,
    )
}

/// Every column that `e` reads is below `width`.
pub open spec fn expr_within(e: Expr, width: nat) -> bool
    decreases e,
{
    match e {
        Expr::Current(col) => col < width,
        Expr::Next(col) => col < width,
        Expr::Constant(_) => true,
        Expr::Sum(a, b) => expr_within(*a, width) && expr_within(*b, width),
        Expr::Difference(a, b) => expr_within(*a, width) && expr_within(*b, width),
        Expr::Product(a, b) => expr_within(*a, width) && expr_within(*b, width),
    }
}

/// Every column that `c` reads, in its guard or its assertion, is below `width`.
pub open spec fn constraint_within(c: Constraint, width: nat) -> bool {
    &&& match c.guard {
        Guard::When(selector) => expr_within(selector, width),
        _ => true,
    }
    &&& match c.assertion {
        Assertion::Zero(e) => expr_within(e, width),
        Assertion::Boolean(e) => expr_within(e, width),
        Assertion::Equal(a, b) => expr_within(a, width) && expr_within(b, width),
    }
}

/// For a trace with at least one column, every constraint reads only columns
/// that the trace has: a segment too wide for the trace is left out rather
/// than read out of bounds.
pub proof fn law_constraints_read_inside_trace(width: nat)
    requires
        width >= 1,
    ensures
        forall|i: int|
            0 <= i < all_constraints(width).len() ==> constraint_within(
                #[trigger] all_constraints(width)[i],
                width,
            ),
{
    reveal_with_fuel(expr_within, 5);
    let parts = seq![
        system_constraints(width),
        decoder_constraints(width),
        stack_constraints(width),
        range_check_constraints(width),
        chiplet_constraints(width),
        boundary_constraints(width),
    ];
    assert forall|p: int, i: int| 0 <= p < 6 && 0 <= i < parts[p].len() implies constraint_within(
        #[trigger] parts[p][i],
        width,
    ) by {
        // One case per segment.
        if p == 0 {
        } else if p == 1 {
        } else if p == 2 {
        } else if p == 3 {
        } else if p == 4 {
        }
    }
    let all = all_constraints(width);
    assert forall|i: int| 0 <= i < all.len() implies constraint_within(#[trigger] all[i], width) by {
        let l0 = parts[0].len() as int;
        let l1 = l0 + parts[1].len();
        let l2 = l1 + parts[2].len();
        let l3 = l2 + parts[3].len();
        let l4 = l3 + parts[4].len();
        if i < l0 {
            assert(all[i] == parts[0][i]);
        } else if i < l1 {
            assert(all[i] == parts[1][i - l0]);
        } else if i < l2 {
            assert(all[i] == parts[2][i - l1]);
        } else if i < l3 {
            assert(all[i] == parts[3][i - l2]);
        } else if i < l4 {
            assert(all[i] == parts[4][i - l3]);
        } else {
            assert(all[i] == parts[5][i - l4]);
        }
    }
}

/// Builds `boolean_column(segment, col)`.
fn boolean(segment: Segment, col: usize) -> (c: Constraint)
    ensures
        c == boolean_column(segment, col as int),
{
    Constraint { segment, guard: Guard::EveryRow, assertion: Assertion::Boolean(Expr::Current(col)) }
}

/// Builds `starts_at(segment, col, value)`.
fn first_row_value(segment: Segment, col: usize, value: u64) -> (c: Constraint)
    ensures
        c == starts_at(segment, col, value),
{
    Constraint {
        segment,
        guard: Guard::FirstRow,
        assertion: Assertion::Equal(Expr::Current(col), Expr::Constant(value)),
    }
}

/// Builds `difference(a, b)`.
fn minus(a: Expr, b: Expr) -> (e: Expr)
    ensures
        e == difference(a, b),
{
    Expr::Difference(Box::new(a), Box::new(b))
}

/// Builds `product(a, b)`.
fn times(a: Expr, b: Expr) -> (e: Expr)
    ensures
        e == product(a, b),
{
    Expr::Product(Box::new(a), Box::new(b))
}

/// The constraint system of the source machine, for a main trace of a given
/// width, with or without its auxiliary columns.
#[derive(Debug, Clone, Copy, PartialEq, Eq)]
pub struct MidenProcessorAir {
    /// Number of columns in the main trace.
    pub width: usize,
    /// Number of auxiliary columns.
    pub aux_width: usize,
    /// Whether the auxiliary columns are enabled.
    pub has_aux_columns: bool,
}

impl MidenProcessorAir {
    /// The constraint system for `trace`, with its auxiliary columns.
    pub fn new(trace: &SourceTrace) -> (r: MidenProcessorAir)
        ensures
            r.width == trace.spec_width(),
            r.aux_width == AUX_TRACE_WIDTH,
            r.has_aux_columns,
    {
        MidenProcessorAir { width: trace.width(), aux_width: AUX_TRACE_WIDTH, has_aux_columns: true }
    }

    /// The constraint system for `trace`, without auxiliary columns.
    pub fn new_main_only(trace: &SourceTrace) -> (r: MidenProcessorAir)
        ensures
            r.width == trace.spec_width(),
            r.aux_width == 0,
            !r.has_aux_columns,
    {
        MidenProcessorAir { width: trace.width(), aux_width: 0, has_aux_columns: false }
    }

    /// Number of auxiliary columns: `aux_width` when they are enabled, else 0.
    pub fn aux_width(&self) -> (r: usize)
        ensures
            r == (if self.has_aux_columns {
                self.aux_width
            } else {
                0
            }),
    {
        if self.has_aux_columns {
            self.aux_width
        } else {
            0
        }
    }

    /// Number of columns in the main trace.
    pub fn width(&self) -> (r: usize)
        ensures
            r == self.width,
    {
        self.width
    }

    /// The constraints of one segment.
    pub fn segment_constraints(&self, segment: Segment) -> (r: Vec<Constraint>)
        ensures
            r@ == segment_spec(segment, self.width as nat),
    {
        let mut out: Vec<Constraint> = Vec::new();
        match segment {
            Segment::System => self.enforce_system_constraints(&mut out),
            Segment::Decoder => self.enforce_decoder_constraints(&mut out),
            Segment::Stack => self.enforce_stack_constraints(&mut out),
            Segment::RangeCheck => self.enforce_range_check_constraints(&mut out),
            Segment::Chiplets => self.enforce_chiplet_constraints(&mut out),
            Segment::Boundary => self.enforce_boundary_constraints(&mut out),
        }
        proof {
            assert(out@ =~= segment_spec(segment, self.width as nat));
        }
        out
    }

    /// All constraints, segment after segment: system, decoder, stack, range
    /// check, chiplets, boundary.
    pub fn constraints(&self) -> (r: Vec<Constraint>)
        ensures
            r@ == all_constraints(self.width as nat),
    {
        let mut out: Vec<Constraint> = Vec::new();
        self.enforce_system_constraints(&mut out);
        self.enforce_decoder_constraints(&mut out);
        self.enforce_stack_constraints(&mut out);
        self.enforce_range_check_constraints(&mut out);
        self.enforce_chiplet_constraints(&mut out);
        self.enforce_boundary_constraints(&mut out);
        proof {
            assert(out@ =~= all_constraints(self.width as nat));
        }
        out
    }

    /// Appends the system constraints.
    fn enforce_system_constraints(&self, out: &mut Vec<Constraint>)
        ensures
            final(out)@ == old(out)@ + system_constraints(self.width as nat),
    {
        let ghost start = out@;
        if self.width > CLK_COL {
            out.push(
                Constraint {
                    segment: Segment::System,
                    guard: Guard::Transition,
                    assertion: Assertion::Equal(
                        Expr::Next(CLK_COL),
                        Expr::Sum(Box::new(Expr::Current(CLK_COL)), Box::new(Expr::Constant(1))),
                    ),
                },
            );
            out.push(first_row_value(Segment::System, CLK_COL, 0));
        }
        if self.width > FMP_COL {
            out.push(first_row_value(Segment::System, FMP_COL, INITIAL_FMP));
        }
        if self.width > IN_SYSCALL_COL {
            out.push(boolean(Segment::System, IN_SYSCALL_COL));
        }
        proof {
            assert(out@ =~= start + system_constraints(self.width as nat));
        }
    }

    /// Appends the decoder constraints, when the trace holds the decoder.
    fn enforce_decoder_constraints(&self, out: &mut Vec<Constraint>)
        ensures
            final(out)@ == old(out)@ + decoder_constraints(self.width as nat),
    {
        let ghost start = out@;
        if self.width < DECODER_OFFSET + DECODER_WIDTH {
            proof {
                assert(out@ =~= start + decoder_constraints(self.width as nat));
            }
            return;
        }
        let mut i: usize = 0;
        while i < NUM_OP_BITS
            invariant
                i <= NUM_OP_BITS,
                out@ == start + Seq::new(
                    i as nat,
                    |j: int| boolean_column(Segment::Decoder, OP_BITS_COL + j),
                ),
            decreases NUM_OP_BITS - i,
        {
            out.push(boolean(Segment::Decoder, OP_BITS_COL + i));
            proof {
                assert(out@ =~= start + Seq::new(
                    (i + 1) as nat,
                    |j: int| boolean_column(Segment::Decoder, OP_BITS_COL + j),
                ));
            }
            i = i + 1;
        }
        let ghost after_op_bits = out@;
        let mut k: usize = 0;
        while k < NUM_CONTROL_FLAGS
            invariant
                k <= NUM_CONTROL_FLAGS,
                out@ == after_op_bits + Seq::new(
                    k as nat,
                    |j: int| boolean_column(Segment::Decoder, CONTROL_FLAGS_COL + j),
                ),
            decreases NUM_CONTROL_FLAGS - k,
        {
            out.push(boolean(Segment::Decoder, CONTROL_FLAGS_COL + k));
            proof {
                assert(out@ =~= after_op_bits + Seq::new(
                    (k + 1) as nat,
                    |j: int| boolean_column(Segment::Decoder, CONTROL_FLAGS_COL + j),
                ));
            }
            k = k + 1;
        }
        // Group count: diff * (diff - 1) = 0 with diff = count - count'.
        let diff = minus(Expr::Current(GROUP_COUNT_COL), Expr::Next(GROUP_COUNT_COL));
        let diff_again = minus(Expr::Current(GROUP_COUNT_COL), Expr::Next(GROUP_COUNT_COL));
        out.push(
            Constraint {
                segment: Segment::Decoder,
                guard: Guard::Transition,
                assertion: Assertion::Zero(times(diff, minus(diff_again, Expr::Constant(1)))),
            },
        );
        proof {
            assert(out@ =~= start + decoder_constraints(self.width as nat));
        }
    }

    /// Appends the stack constraints, when the trace holds the stack.
    fn enforce_stack_constraints(&self, out: &mut Vec<Constraint>)
        ensures
            final(out)@ == old(out)@ + stack_constraints(self.width as nat),
    {
        let ghost start = out@;
        if self.width < STACK_OFFSET + STACK_WIDTH {
            proof {
                assert(out@ =~= start + stack_constraints(self.width as nat));
            }
            return;
        }
        let depth = Expr::Current(STACK_DEPTH_COL);
        let depth_again = Expr::Current(STACK_DEPTH_COL);
        out.push(
            Constraint {
                segment: Segment::Stack,
                guard: Guard::Transition,
                assertion: Assertion::Zero(
                    minus(
                        times(depth, minus(depth_again, Expr::Constant(MIN_STACK_DEPTH))),
                        Expr::Constant(1),
                    ),
                ),
            },
        );
        let ghost after_depth = out@;
        let mut slot: usize = 0;
        while slot < NUM_STACK_SLOTS
            invariant
                slot <= NUM_STACK_SLOTS,
                out@ == after_depth + Seq::new(
                    slot as nat,
                    |j: int| stable_column(STACK_OFFSET + j),
                ),
            decreases NUM_STACK_SLOTS - slot,
        {
            let col = STACK_OFFSET + slot;
            out.push(
                Constraint {
                    segment: Segment::Stack,
                    guard: Guard::Transition,
                    assertion: Assertion::Zero(minus(Expr::Next(col), Expr::Current(col))),
                },
            );
            proof {
                assert(out@ =~= after_depth + Seq::new(
                    (slot + 1) as nat,
                    |j: int| stable_column(STACK_OFFSET + j),
                ));
            }
            slot = slot + 1;
        }
        proof {
            assert(out@ =~= start + stack_constraints(self.width as nat));
        }
    }

    /// Appends the range-check constraint, when the trace holds the range
    /// checker.
    fn enforce_range_check_constraints(&self, out: &mut Vec<Constraint>)
        ensures
            final(out)@ == old(out)@ + range_check_constraints(self.width as nat),
    {
        let ghost start = out@;
        if self.width >= RANGE_OFFSET + RANGE_WIDTH {
            out.push(
                Constraint {
                    segment: Segment::RangeCheck,
                    guard: Guard::EveryRow,
                    assertion: Assertion::Zero(
                        times(
                            minus(Expr::Current(RANGE_OFFSET), Expr::Constant(RANGE_BOUND)),
                            minus(Expr::Current(RANGE_OFFSET), Expr::Constant(0)),
                        ),
                    ),
                },
            );
        }
        proof {
            assert(out@ =~= start + range_check_constraints(self.width as nat));
        }
    }

    /// Appends the chiplet constraints, when the trace holds the chiplets.
    fn enforce_chiplet_constraints(&self, out: &mut Vec<Constraint>)
        ensures
            final(out)@ == old(out)@ + chiplet_constraints(self.width as nat),
    {
        let ghost start = out@;
        if self.width < CHIPLETS_OFFSET + CHIPLETS_WIDTH {
            proof {
                assert(out@ =~= start + chiplet_constraints(self.width as nat));
            }
            return;
        }
        let mut i: usize = 0;
        while i < NUM_CHIPLET_SELECTORS
            invariant
                i <= NUM_CHIPLET_SELECTORS,
                out@ == start + Seq::new(
                    i as nat,
                    |j: int| boolean_column(Segment::Chiplets, CHIPLETS_OFFSET + j),
                ),
            decreases NUM_CHIPLET_SELECTORS - i,
        {
            out.push(boolean(Segment::Chiplets, CHIPLETS_OFFSET + i));
            proof {
                assert(out@ =~= start + Seq::new(
                    (i + 1) as nat,
                    |j: int| boolean_column(Segment::Chiplets, CHIPLETS_OFFSET + j),
                ));
            }
            i = i + 1;
        }
        // Memory operation: selectors [1, 1, 0, ...].
        let is_memory_op = times(
            times(Expr::Current(CHIPLETS_OFFSET), Expr::Current(CHIPLETS_OFFSET + 1)),
            minus(Expr::Constant(1), Expr::Current(CHIPLETS_OFFSET + 2)),
        );
        out.push(
            Constraint {
                segment: Segment::Chiplets,
                guard: Guard::When(is_memory_op),
                assertion: Assertion::Zero(
                    minus(Expr::Next(MEMORY_VALUE_COL), Expr::Current(MEMORY_VALUE_COL)),
                ),
            },
        );
        // Bitwise operation: selectors [1, 0, ...].
        let is_bitwise_op = times(
            Expr::Current(CHIPLETS_OFFSET),
            minus(Expr::Constant(1), Expr::Current(CHIPLETS_OFFSET + 1)),
        );
        out.push(
            Constraint {
                segment: Segment::Chiplets,
                guard: Guard::When(is_bitwise_op),
                assertion: Assertion::Zero(
                    minus(Expr::Current(BITWISE_OUTPUT_COL), Expr::Constant(0)),
                ),
            },
        );
        proof {
            assert(out@ =~= start + chiplet_constraints(self.width as nat));
        }
    }

    /// Appends the first-row constraints on the clock and the context.
    fn enforce_boundary_constraints(&self, out: &mut Vec<Constraint>)
        ensures
            final(out)@ == old(out)@ + boundary_constraints(self.width as nat),
    {
        let ghost start = out@;
        out.push(first_row_value(Segment::Boundary, CLK_COL, 0));
        if self.width > CTX_COL {
            out.push(first_row_value(Segment::Boundary, CTX_COL, 0));
        }
        proof {
            assert(out@ =~= start + boundary_constraints(self.width as nat));
        }
    }
}

} // verus!
