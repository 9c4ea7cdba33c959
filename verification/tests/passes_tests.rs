use sierra2mlir::passes::mandatory_passes;
use sierra2mlir::passes::optimization_passes;
use sierra2mlir::passes::pipeline_passes;
use sierra2mlir::passes::Pass;

#[test]
fn mandatory_sequence_is_the_specified_order() {
    let expected = vec![
        Pass::FuncToLlvm,
        Pass::ScfToCf,
        Pass::CfToLlvm,
        Pass::ArithToLlvm,
        Pass::IndexToLlvm,
        Pass::MathToLlvm,
        Pass::MemrefToLlvm,
        Pass::ReconcileCasts,
    ];
    assert_eq!(mandatory_passes(), expected);
}

#[test]
fn optimization_block_is_the_specified_order() {
    let expected = vec![
        Pass::Canonicalizer,
        Pass::Inliner,
        Pass::SymbolDce,
        Pass::Cse,
        Pass::Sccp,
    ];
    assert_eq!(optimization_passes(), expected);
}

#[test]
fn unoptimized_pipeline_is_exactly_the_mandatory_sequence() {
    assert_eq!(pipeline_passes(false), mandatory_passes());
    assert_eq!(pipeline_passes(false).len(), 8);
}

#[test]
fn optimized_pipeline_appends_the_optimization_block() {
    let mut expected = mandatory_passes();
    expected.extend(optimization_passes());
    assert_eq!(pipeline_passes(true), expected);
    assert_eq!(pipeline_passes(true).len(), 13);
}

#[test]
fn only_the_optimized_pipeline_eliminates_dead_symbols() {
    assert!(pipeline_passes(true).contains(&Pass::SymbolDce));
    assert!(!pipeline_passes(false).contains(&Pass::SymbolDce));
}

#[test]
fn the_two_pipelines_differ_exactly_in_the_optimization_block() {
    let optimized = pipeline_passes(true);
    let unoptimized = pipeline_passes(false);
    assert_eq!(&optimized[..unoptimized.len()], &unoptimized[..]);
    assert_eq!(&optimized[unoptimized.len()..], &optimization_passes()[..]);
}
