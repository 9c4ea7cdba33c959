use sierra2mlir::driver::compile_request;
use sierra2mlir::driver::execute_request;
use sierra2mlir::driver::initial_action;
use sierra2mlir::driver::step;
use sierra2mlir::driver::Action;
use sierra2mlir::driver::Event;
use sierra2mlir::driver::Stage;
use sierra2mlir::emit::Artifact;
use sierra2mlir::emit::CompileError;
use sierra2mlir::emit::RuntimeLibraries;
use sierra2mlir::emit::JIT_OPT_LEVEL;
use sierra2mlir::passes::pipeline_passes;

fn libraries() -> RuntimeLibraries {
    RuntimeLibraries {
        runner_utils: "/toolchain/lib/libmlir_c_runner_utils.so".to_string(),
        support: "/build/libsierra2mlir_utils.so".to_string(),
    }
}

#[test]
fn full_text_run_hands_back_the_serialized_module() {
    let req = compile_request(false, false, false, 1, None);
    let first = initial_action(&req);
    assert_eq!(
        first,
        Action::BuildModule { main_print: false, print_fd: 1, available_gas: None }
    );

    let (stage, action) = step(Stage::Building, &req, Event::ModuleBuilt);
    assert_eq!(stage, Stage::Lowering);
    assert_eq!(
        action,
        Action::RunPasses { passes: pipeline_passes(false), enable_verifier: true }
    );

    let (stage, action) = step(stage, &req, Event::PassesRan);
    assert_eq!(stage, Stage::Verifying);
    assert_eq!(action, Action::VerifyModule);

    let (stage, action) = step(stage, &req, Event::VerifierAccepted);
    assert_eq!(stage, Stage::Emitting);
    assert_eq!(action, Action::EmitText { debug_info: false });

    let text = "module {\n}\n".to_string();
    let (stage, action) = step(stage, &req, Event::TextReady(text.clone()));
    assert_eq!(stage, Stage::Done);
    assert_eq!(action, Action::Finish(Artifact::Text(text)));
}

#[test]
fn executable_run_always_includes_the_optimization_block() {
    let req = execute_request(true, 2, Some(1000), libraries());
    let (stage, action) = step(Stage::Building, &req, Event::ModuleBuilt);
    assert_eq!(stage, Stage::Lowering);
    assert_eq!(
        action,
        Action::RunPasses { passes: pipeline_passes(true), enable_verifier: true }
    );
}

#[test]
fn executable_run_links_exactly_two_runtime_libraries() {
    let req = execute_request(false, 1, None, libraries());
    let (stage, action) = step(Stage::Verifying, &req, Event::VerifierAccepted);
    assert_eq!(stage, Stage::Emitting);
    assert_eq!(
        action,
        Action::LinkExecutable {
            opt_level: JIT_OPT_LEVEL,
            runner_utils: "/toolchain/lib/libmlir_c_runner_utils.so".to_string(),
            support: "/build/libsierra2mlir_utils.so".to_string(),
        }
    );

    let (stage, action) = step(stage, &req, Event::ExecutableReady);
    assert_eq!(stage, Stage::Done);
    assert_eq!(action, Action::Finish(Artifact::Executable));
}

#[test]
fn verifier_rejection_aborts_a_text_run_with_no_artifact() {
    let req = compile_request(true, true, false, 1, None);
    let (stage, action) = step(Stage::Verifying, &req, Event::VerifierRejected);
    assert_eq!(stage, Stage::Failed);
    assert_eq!(action, Action::Abort(CompileError::Verification));
}

#[test]
fn verifier_rejection_aborts_an_executable_run_with_no_artifact() {
    let req = execute_request(false, 1, None, libraries());
    let (stage, action) = step(Stage::Verifying, &req, Event::VerifierRejected);
    assert_eq!(stage, Stage::Failed);
    assert_eq!(action, Action::Abort(CompileError::Verification));
}

#[test]
fn debug_info_changes_emission_only() {
    let plain = compile_request(false, false, false, 1, None);
    let annotated = compile_request(false, true, false, 1, None);

    let (_, run_plain) = step(Stage::Building, &plain, Event::ModuleBuilt);
    let (_, run_annotated) = step(Stage::Building, &annotated, Event::ModuleBuilt);
    assert_eq!(run_plain, run_annotated);

    let (_, emit_plain) = step(Stage::Verifying, &plain, Event::VerifierAccepted);
    let (_, emit_annotated) = step(Stage::Verifying, &annotated, Event::VerifierAccepted);
    assert_eq!(emit_plain, Action::EmitText { debug_info: false });
    assert_eq!(emit_annotated, Action::EmitText { debug_info: true });
}

#[test]
fn the_optimized_flag_selects_the_text_pipeline() {
    let optimized = compile_request(true, false, false, 1, None);
    let unoptimized = compile_request(false, false, false, 1, None);

    let (_, action) = step(Stage::Building, &optimized, Event::ModuleBuilt);
    assert_eq!(
        action,
        Action::RunPasses { passes: pipeline_passes(true), enable_verifier: true }
    );

    let (_, action) = step(Stage::Building, &unoptimized, Event::ModuleBuilt);
    assert_eq!(
        action,
        Action::RunPasses { passes: pipeline_passes(false), enable_verifier: true }
    );
}

#[test]
fn construction_failure_aborts_before_the_pipeline_runs() {
    let req = compile_request(false, false, false, 1, None);
    let (stage, action) = step(
        Stage::Building,
        &req,
        Event::BuildFailed("invalid program".to_string()),
    );
    assert_eq!(stage, Stage::Failed);
    assert_eq!(
        action,
        Action::Abort(CompileError::Construction("invalid program".to_string()))
    );
}

#[test]
fn pass_failure_aborts_with_a_pipeline_error() {
    let req = execute_request(false, 1, None, libraries());
    let (stage, action) = step(
        Stage::Lowering,
        &req,
        Event::PassRunFailed("legalization exhausted".to_string()),
    );
    assert_eq!(stage, Stage::Failed);
    assert_eq!(
        action,
        Action::Abort(CompileError::Pipeline("legalization exhausted".to_string()))
    );
}

#[test]
fn emission_failure_aborts_with_an_emission_error() {
    let req = execute_request(false, 1, None, libraries());
    let (stage, action) = step(
        Stage::Emitting,
        &req,
        Event::EmitFailed("missing runtime library".to_string()),
    );
    assert_eq!(stage, Stage::Failed);
    assert_eq!(
        action,
        Action::Abort(CompileError::Emission("missing runtime library".to_string()))
    );
}

#[test]
fn gas_and_print_options_are_forwarded_to_module_construction() {
    let req = compile_request(true, false, true, 7, Some(42));
    assert_eq!(
        initial_action(&req),
        Action::BuildModule { main_print: true, print_fd: 7, available_gas: Some(42) }
    );
}
