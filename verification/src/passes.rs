//! The pass pipeline: a deterministic, totally ordered sequence of named
//! transformation passes.
//!
//! The order of the mandatory conversion passes is a correctness requirement,
//! not a convenience: each step assumes its input still contains the
//! constructs the previous steps were responsible for eliminating, and
//! produces constructs only the following steps know how to lower further.
//! The pipeline therefore admits exactly one arrangement of the mandatory
//! passes; [`lemma_mandatory_order_unique`] states that as a theorem.

use vstd::prelude::*;

verus! {

/// A named, stateless transformation descriptor.
///
/// A pass is a pure configuration value: it owns no state between runs and is
/// requested at most once per pipeline. The first eight variants are the
/// mandatory dialect conversions; the last five are the optional optimization
/// block.
#[derive(Clone, Copy, PartialEq, Eq, Structural, Debug)]
pub enum Pass {
    /// Function-calling-convention lowering into the LLVM dialect.
    FuncToLlvm,
    /// Structured control flow into an unstructured control-flow graph.
    ScfToCf,
    /// Unstructured control flow into the LLVM dialect.
    CfToLlvm,
    /// Arithmetic operations into the LLVM dialect.
    ArithToLlvm,
    /// Index types into the LLVM dialect.
    IndexToLlvm,
    /// Math intrinsics into the LLVM dialect.
    MathToLlvm,
    /// Memory references into the LLVM dialect.
    MemrefToLlvm,
    /// Reconciliation of unrealized type casts left behind by the conversions.
    ReconcileCasts,
    /// Canonicalization of redundant operation forms.
    Canonicalizer,
    /// Inlining.
    Inliner,
    /// Dead-symbol elimination.
    SymbolDce,
    /// Common-subexpression elimination.
    Cse,
    /// Sparse conditional constant propagation.
    Sccp,
}

/// The position a pass holds in the one total order the pipeline admits.
///
/// Positions 1 through 8 are the mandatory conversions, 9 through 13 the
/// optimization block appended after them.
pub open spec fn pipeline_position(p: Pass) -> int {
    match p {
        Pass::FuncToLlvm => 1,
        Pass::ScfToCf => 2,
        Pass::CfToLlvm => 3,
        Pass::ArithToLlvm => 4,
        Pass::IndexToLlvm => 5,
        Pass::MathToLlvm => 6,
        Pass::MemrefToLlvm => 7,
        Pass::ReconcileCasts => 8,
        Pass::Canonicalizer => 9,
        Pass::Inliner => 10,
        Pass::SymbolDce => 11,
        Pass::Cse => 12,
        Pass::Sccp => 13,
    }
}

/// The mandatory conversion sequence, identical for both output modes.
pub open spec fn mandatory_pass_seq() -> Seq<Pass> {
    seq![
        Pass::FuncToLlvm,
        Pass::ScfToCf,
        Pass::CfToLlvm,
        Pass::ArithToLlvm,
        Pass::IndexToLlvm,
        Pass::MathToLlvm,
        Pass::MemrefToLlvm,
        Pass::ReconcileCasts,
    ]
}

/// The optional optimization block, appended after the mandatory sequence.
pub open spec fn optimization_pass_seq() -> Seq<Pass> {
    seq![Pass::Canonicalizer, Pass::Inliner, Pass::SymbolDce, Pass::Cse, Pass::Sccp]
}

/// The full pipeline for one run: the mandatory conversions, followed by the
/// optimization block when `optimized` holds.
pub open spec fn pipeline_pass_seq(optimized: bool) -> Seq<Pass> {
    if optimized {
        mandatory_pass_seq() + optimization_pass_seq()
    } else {
        mandatory_pass_seq()
    }
}

/// A sequence of passes respects the pipeline order when its positions are
/// strictly increasing: no pass runs before one it depends on, and no pass is
/// requested twice.
pub open spec fn well_ordered(s: Seq<Pass>) -> bool {
    forall|i: int, j: int|
        0 <= i < j < s.len() ==> #[trigger] pipeline_position(s[i]) < #[trigger] pipeline_position(
            s[j],
        )
}

/// Builds the mandatory conversion sequence.
pub fn mandatory_passes() -> (r: Vec<Pass>)
    ensures
        r@ == mandatory_pass_seq(),
{
    let mut r: Vec<Pass> = Vec::new();
    r.push(Pass::FuncToLlvm);
    r.push(Pass::ScfToCf);
    r.push(Pass::CfToLlvm);
    r.push(Pass::ArithToLlvm);
    r.push(Pass::IndexToLlvm);
    r.push(Pass::MathToLlvm);
    r.push(Pass::MemrefToLlvm);
    r.push(Pass::ReconcileCasts);
    proof {
        assert(r@ =~= mandatory_pass_seq());
    }
    r
}

/// Builds the optimization block.
pub fn optimization_passes() -> (r: Vec<Pass>)
    ensures
        r@ == optimization_pass_seq(),
{
    let mut r: Vec<Pass> = Vec::new();
    r.push(Pass::Canonicalizer);
    r.push(Pass::Inliner);
    r.push(Pass::SymbolDce);
    r.push(Pass::Cse);
    r.push(Pass::Sccp);
    proof {
        assert(r@ =~= optimization_pass_seq());
    }
    r
}

/// Builds the full pipeline for one run.
pub fn pipeline_passes(optimized: bool) -> (r: Vec<Pass>)
    ensures
        r@ == pipeline_pass_seq(optimized),
{
    let mut r = mandatory_passes();
    if optimized {
        let mut opt = optimization_passes();
        r.append(&mut opt);
    }
    r
}

/// The mandatory sequence respects the pipeline order.
pub proof fn lemma_mandatory_seq_well_ordered()
    ensures
        well_ordered(mandatory_pass_seq()),
{
}

/// The full pipeline respects the pipeline order in both configurations.
pub proof fn lemma_pipeline_seq_well_ordered(optimized: bool)
    ensures
        well_ordered(pipeline_pass_seq(optimized)),
{
}

/// A pass is requested at most once per pipeline: the strict order leaves no
/// room for a repeated pass in either configuration.
pub proof fn lemma_no_pass_requested_twice(optimized: bool)
    ensures
        forall|i: int, j: int|
            0 <= i < j < pipeline_pass_seq(optimized).len() ==> #[trigger] pipeline_pass_seq(
                optimized,
            )[i] != #[trigger] pipeline_pass_seq(optimized)[j],
{
    lemma_pipeline_seq_well_ordered(optimized);
    let s = pipeline_pass_seq(optimized);
    assert forall|i: int, j: int| 0 <= i < j < s.len() implies s[i] != s[j] by {
        assert(pipeline_position(s[i]) < pipeline_position(s[j]));
    }
}

/// In a well-ordered sequence whose positions all lie at or above 1, the
/// position of the element at `i` is at least `i + 1`.
proof fn lemma_position_lower_bound(s: Seq<Pass>, i: int)
    requires
        well_ordered(s),
        forall|k: int| 0 <= k < s.len() ==> 1 <= #[trigger] pipeline_position(s[k]),
        0 <= i < s.len(),
    ensures
        pipeline_position(s[i]) >= i + 1,
    decreases i,
{
    if i > 0 {
        lemma_position_lower_bound(s, i - 1);
        assert(pipeline_position(s[i - 1]) < pipeline_position(s[i]));
    }
}

/// In a well-ordered sequence whose positions all lie at or below `bound`,
/// the position of the element at `i` leaves room for everything after it.
proof fn lemma_position_upper_bound(s: Seq<Pass>, i: int, bound: int)
    requires
        well_ordered(s),
        forall|k: int| 0 <= k < s.len() ==> #[trigger] pipeline_position(s[k]) <= bound,
        0 <= i < s.len(),
    ensures
        pipeline_position(s[i]) <= bound - (s.len() - 1 - i),
    decreases s.len() - i,
{
    if i < s.len() - 1 {
        lemma_position_upper_bound(s, i + 1, bound);
        assert(pipeline_position(s[i]) < pipeline_position(s[i + 1]));
    }
}

/// Order-dependence of the mandatory sequence: among all arrangements of
/// mandatory conversion passes of the right length, the specified order is
/// the only one that respects the pipeline order. In particular, every
/// permutation of the mandatory sequence other than the sequence itself is
/// rejected.
pub proof fn lemma_mandatory_order_unique(s: Seq<Pass>)
    requires
        s.len() == mandatory_pass_seq().len(),
        forall|k: int| 0 <= k < s.len() ==> mandatory_pass_seq().contains(#[trigger] s[k]),
        well_ordered(s),
    ensures
        s == mandatory_pass_seq(),
{
    assert forall|k: int| 0 <= k < s.len() implies 1 <= #[trigger] pipeline_position(s[k])
        <= 8 by {
        let j = choose|j: int|
            0 <= j < mandatory_pass_seq().len() && mandatory_pass_seq()[j] == s[k];
        assert(pipeline_position(mandatory_pass_seq()[j]) == j + 1);
    }
    assert forall|i: int| 0 <= i < s.len() implies s[i] == mandatory_pass_seq()[i] by {
        lemma_position_lower_bound(s, i);
        lemma_position_upper_bound(s, i, 8);
        assert(pipeline_position(s[i]) == i + 1);
        assert(pipeline_position(mandatory_pass_seq()[i]) == i + 1);
    }
    assert(s =~= mandatory_pass_seq());
}

/// The mandatory sequence with structured-control-flow lowering and
/// memory-reference lowering swapped: the same eight passes, out of order.
pub open spec fn mandatory_with_memref_swap() -> Seq<Pass> {
    seq![
        Pass::FuncToLlvm,
        Pass::MemrefToLlvm,
        Pass::CfToLlvm,
        Pass::ArithToLlvm,
        Pass::IndexToLlvm,
        Pass::MathToLlvm,
        Pass::ScfToCf,
        Pass::ReconcileCasts,
    ]
}

/// Swapping structured-control-flow lowering with memory-reference lowering
/// yields an arrangement of the same mandatory passes that violates the
/// pipeline order, so the pipeline rejects it.
pub proof fn lemma_memref_swap_rejected()
    ensures
        mandatory_with_memref_swap().len() == mandatory_pass_seq().len(),
        forall|k: int|
            0 <= k < mandatory_with_memref_swap().len() ==> mandatory_pass_seq().contains(
                #[trigger] mandatory_with_memref_swap()[k],
            ),
        !well_ordered(mandatory_with_memref_swap()),
        mandatory_with_memref_swap() != mandatory_pass_seq(),
{
    let s = mandatory_with_memref_swap();
    let m = mandatory_pass_seq();
    assert forall|k: int| 0 <= k < s.len() implies m.contains(#[trigger] s[k]) by {
        assert(s[k] == m[pipeline_position(s[k]) - 1]);
    }
    assert(pipeline_position(s[1]) == 7);
    assert(pipeline_position(s[6]) == 2);
    assert(!well_ordered(s));
    assert(s[1] != m[1]);
}

/// Only the optimized pipeline contains dead-symbol elimination; the
/// unoptimized pipeline leaves dead symbols in place.
pub proof fn lemma_dead_symbol_elimination_only_when_optimized()
    ensures
        pipeline_pass_seq(true).contains(Pass::SymbolDce),
        !pipeline_pass_seq(false).contains(Pass::SymbolDce),
{
    assert(pipeline_pass_seq(true)[10] == Pass::SymbolDce);
    assert(forall|i: int|
        0 <= i < pipeline_pass_seq(false).len() ==> #[trigger] pipeline_pass_seq(false)[i]
            != Pass::SymbolDce);
}

} // verus!
