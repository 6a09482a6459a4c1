use rustacean::langs::Lang;
use rustacean::pipeline::{Action, Event, ExecutionPipeline, Phase, PipelineError, Settings};
use rustacean::runner::ExecResult;

fn settings() -> Settings {
    Settings {
        cpu_load: "0.5".to_string(),
        ram_load: "100m".to_string(),
        kernel_memory: "8m".to_string(),
        compilation_timeout: 60,
        execution_timeout: 10,
    }
}

fn ok_result(exit_code: i32, stdout: &str, stderr: &str) -> ExecResult {
    ExecResult {
        exit_code: Some(exit_code),
        stdout: stdout.to_string(),
        stderr: stderr.to_string(),
        timed_out: false,
        duration_ms: 15,
    }
}

fn args_of(a: &Action) -> Vec<String> {
    match a {
        Action::StartContainer { args } => args.clone(),
        Action::Copy { args } => args.clone(),
        Action::RunTimed { args, .. } => args.clone(),
        _ => panic!("the action carries no argument list"),
    }
}

#[test]
fn c_snippet_is_wrapped_compiled_and_executed() {
    let code = "printf(\"test\");\nreturn 5;".to_string();
    let mut p = ExecutionPipeline::new(
        Lang::C(rustacean::langs::C),
        settings(),
        code,
        "snippets/42/ab12cd.c".to_string(),
    );
    // the fragment has no main, so it is wrapped and must be persisted
    assert!(p.rewritten);
    assert_eq!(
        p.code,
        "#include <stdio.h>\r\n#include <stdlib.h>\r\nint main(int argc, char** argv) {\r\n\
         printf(\"test\");\nreturn 5;\r\n}"
    );
    assert_eq!(p.path_in_container, "/home/ab12cd.c");
    assert_eq!(p.out_path, "/home/ab12cd.c.out");

    assert_eq!(
        args_of(&p.next_action()),
        vec![
            "run", "--network=none", "--kernel-memory", "8m", "--cpus", "0.5", "--memory",
            "100m", "-t", "-d", "rustacean-c"
        ]
        .into_iter()
        .map(str::to_string)
        .collect::<Vec<_>>()
    );
    p.step(Event::Started(Ok("cid77".to_string())));

    assert_eq!(
        args_of(&p.next_action()),
        vec!["cp", "snippets/42/ab12cd.c", "cid77:/home/ab12cd.c"]
            .into_iter()
            .map(str::to_string)
            .collect::<Vec<_>>()
    );
    p.step(Event::Copied(Ok(())));

    match p.next_action() {
        Action::RunTimed { args, timeout_seconds } => {
            assert_eq!(
                args,
                vec![
                    "exec",
                    "-w",
                    "/home",
                    "cid77",
                    "gcc",
                    "/home/ab12cd.c",
                    "-o",
                    "/home/ab12cd.c.out"
                ]
                .into_iter()
                .map(str::to_string)
                .collect::<Vec<_>>()
            );
            assert_eq!(timeout_seconds, 60);
        }
        other => panic!("expected the compile step, got {:?}", other),
    }
    p.step(Event::Ran(Ok(ok_result(0, "", ""))));

    match p.next_action() {
        Action::RunTimed { args, timeout_seconds } => {
            assert_eq!(
                args,
                vec!["exec", "-w", "/home", "cid77", "/home/ab12cd.c.out"]
                    .into_iter()
                    .map(str::to_string)
                    .collect::<Vec<_>>()
            );
            assert_eq!(timeout_seconds, 10);
        }
        other => panic!("expected the execution step, got {:?}", other),
    }
    p.step(Event::Ran(Ok(ok_result(5, "test", ""))));

    match p.next_action() {
        Action::Cleanup { scratch_path, container } => {
            assert_eq!(scratch_path, "snippets/42/ab12cd.c");
            assert_eq!(container, Some("cid77".to_string()));
        }
        other => panic!("expected cleanup, got {:?}", other),
    }
    p.step(Event::CleanedUp);

    assert!(p.is_terminal());
    assert!(matches!(p.phase, Phase::Done));
    assert_eq!(p.compilation.exit_code, Some(0));
    assert_eq!(p.execution.exit_code, Some(5));
    assert_eq!(p.execution.stdout, "test");
    assert_eq!(p.execution.stderr, "");
    assert!(!p.execution.timed_out);
}

#[test]
fn compile_failure_short_circuits_execution() {
    let code = "fn main() { let x: = 3; }".to_string();
    let mut p = ExecutionPipeline::new(
        Lang::Rust(rustacean::langs::Rust),
        settings(),
        code,
        "snippets/42/qq1.rs".to_string(),
    );
    assert!(!p.rewritten);
    p.step(Event::Started(Ok("cid9".to_string())));
    p.step(Event::Copied(Ok(())));
    // the single rustc step fails with diagnostics
    p.step(Event::Ran(Ok(ok_result(1, "", "error: expected type"))));
    // execution is skipped entirely: the next action is already cleanup
    assert!(matches!(p.next_action(), Action::Cleanup { .. }));
    p.step(Event::CleanedUp);
    assert!(matches!(p.phase, Phase::Done));
    assert!(p.error.is_none());
    assert_eq!(p.compilation.exit_code, Some(1));
    assert_eq!(p.compilation.stderr, "error: expected type");
    // the execution result is the untouched all-default value
    assert_eq!(p.execution.exit_code, None);
    assert_eq!(p.execution.stdout, "");
    assert_eq!(p.execution.stderr, "");
    assert!(!p.execution.timed_out);
    assert_eq!(p.execution.duration_ms, 0);
}

#[test]
fn compile_timeout_short_circuits_execution() {
    let mut p = ExecutionPipeline::new(
        Lang::Rust(rustacean::langs::Rust),
        settings(),
        "fn main() {}".to_string(),
        "snippets/42/tt2.rs".to_string(),
    );
    p.step(Event::Started(Ok("cid".to_string())));
    p.step(Event::Copied(Ok(())));
    p.step(Event::Ran(Ok(rustacean::runner::timeout_result(60250))));
    assert!(matches!(p.next_action(), Action::Cleanup { .. }));
    p.step(Event::CleanedUp);
    assert!(matches!(p.phase, Phase::Done));
    assert!(p.compilation.timed_out);
    assert_eq!(p.compilation.exit_code, None);
    assert_eq!(p.execution.exit_code, None);
}

#[test]
fn interpreted_language_skips_the_compile_phase() {
    let code = "print('test', end='')".to_string();
    let mut p = ExecutionPipeline::new(
        Lang::Python(rustacean::langs::Python),
        settings(),
        code,
        "snippets/42/py9.py".to_string(),
    );
    assert!(!p.rewritten);
    p.step(Event::Started(Ok("cid3".to_string())));
    p.step(Event::Copied(Ok(())));
    // the identity "build": the source is copied straight to the artifact path
    assert_eq!(
        args_of(&p.next_action()),
        vec!["cp", "snippets/42/py9.py", "cid3:/home/py9.py.out"]
            .into_iter()
            .map(str::to_string)
            .collect::<Vec<_>>()
    );
    p.step(Event::Copied(Ok(())));
    match p.next_action() {
        Action::RunTimed { args, timeout_seconds } => {
            assert_eq!(
                args,
                vec!["exec", "-w", "/home", "cid3", "python3", "/home/py9.py.out"]
                    .into_iter()
                    .map(str::to_string)
                    .collect::<Vec<_>>()
            );
            assert_eq!(timeout_seconds, 10);
        }
        other => panic!("expected the execution step, got {:?}", other),
    }
    p.step(Event::Ran(Ok(ok_result(0, "test", ""))));
    p.step(Event::CleanedUp);
    assert!(matches!(p.phase, Phase::Done));
    // the compilation result is the default zero value
    assert_eq!(p.compilation.exit_code, None);
    assert_eq!(p.compilation.stdout, "");
    assert!(!p.compilation.timed_out);
    assert_eq!(p.execution.exit_code, Some(0));
    assert_eq!(p.execution.stdout, "test");
}

#[test]
fn container_start_failure_still_cleans_up() {
    let mut p = ExecutionPipeline::new(
        Lang::C(rustacean::langs::C),
        settings(),
        "int main() { return 0; }".to_string(),
        "snippets/42/zz.c".to_string(),
    );
    p.step(Event::Started(Err("docker missing".to_string())));
    match p.next_action() {
        Action::Cleanup { scratch_path, container } => {
            assert_eq!(scratch_path, "snippets/42/zz.c");
            assert_eq!(container, None);
        }
        other => panic!("expected cleanup, got {:?}", other),
    }
    p.step(Event::CleanedUp);
    assert!(matches!(p.phase, Phase::Failed));
    assert!(matches!(
        p.error,
        Some(PipelineError::ContainerStartFailed { .. })
    ));
}

#[test]
fn copy_failure_aborts_after_cleanup() {
    let mut p = ExecutionPipeline::new(
        Lang::C(rustacean::langs::C),
        settings(),
        "int main() { return 0; }".to_string(),
        "snippets/42/zz2.c".to_string(),
    );
    p.step(Event::Started(Ok("cid".to_string())));
    p.step(Event::Copied(Err("no such container".to_string())));
    match p.next_action() {
        Action::Cleanup { container, .. } => assert_eq!(container, Some("cid".to_string())),
        other => panic!("expected cleanup, got {:?}", other),
    }
    p.step(Event::CleanedUp);
    assert!(matches!(p.phase, Phase::Failed));
    assert!(matches!(p.error, Some(PipelineError::CopyFailed { .. })));
}

#[test]
fn two_step_compile_runs_both_steps_in_order() {
    let mut p = ExecutionPipeline::new(
        Lang::Asmx86(rustacean::langs::Asmx86),
        settings(),
        "section .text".to_string(),
        "snippets/42/a1.asm".to_string(),
    );
    p.step(Event::Started(Ok("cid".to_string())));
    p.step(Event::Copied(Ok(())));
    assert_eq!(
        args_of(&p.next_action()),
        vec!["exec", "-w", "/home", "cid", "nasm", "-f", "elf32", "/home/a1.asm"]
            .into_iter()
            .map(str::to_string)
            .collect::<Vec<_>>()
    );
    p.step(Event::Ran(Ok(ok_result(0, "", ""))));
    assert_eq!(
        args_of(&p.next_action()),
        vec![
            "exec",
            "-w",
            "/home",
            "cid",
            "ld",
            "-melf_i386",
            "a1.o",
            "-o",
            "/home/a1.asm.out"
        ]
        .into_iter()
        .map(str::to_string)
        .collect::<Vec<_>>()
    );
    p.step(Event::Ran(Ok(ok_result(0, "", ""))));
    // both steps passed: the execution phase is next
    assert!(matches!(p.next_action(), Action::RunTimed { .. }));
}

#[test]
fn identical_event_traces_give_identical_results() {
    let run = || {
        let mut p = ExecutionPipeline::new(
            Lang::Python(rustacean::langs::Python),
            settings(),
            "print('test', end='')".to_string(),
            "snippets/42/d.py".to_string(),
        );
        p.step(Event::Started(Ok("cid".to_string())));
        p.step(Event::Copied(Ok(())));
        p.step(Event::Copied(Ok(())));
        p.step(Event::Ran(Ok(ok_result(0, "test", ""))));
        p.step(Event::CleanedUp);
        (p.compilation.exit_code, p.execution.exit_code, p.execution.stdout.clone())
    };
    assert_eq!(run(), run());
}

#[test]
fn zero_width_characters_are_stripped_before_wrapping() {
    let code = "printf(\u{200B}\"test\");\u{200E}".to_string();
    let p = ExecutionPipeline::new(
        Lang::C(rustacean::langs::C),
        settings(),
        code,
        "snippets/42/s.c".to_string(),
    );
    assert!(p.code.contains("printf(\"test\");"));
    assert!(!p.code.contains('\u{200B}'));
    assert!(!p.code.contains('\u{200E}'));
}

#[test]
fn empty_snippet_still_runs_the_full_pipeline() {
    let mut p = ExecutionPipeline::new(
        Lang::Shell(rustacean::langs::Shell),
        settings(),
        String::new(),
        "snippets/42/e.sh".to_string(),
    );
    assert!(!p.rewritten);
    assert_eq!(p.code, "");
    p.step(Event::Started(Ok("cid".to_string())));
    p.step(Event::Copied(Ok(())));
    p.step(Event::Copied(Ok(())));
    p.step(Event::Ran(Ok(ok_result(0, "", ""))));
    p.step(Event::CleanedUp);
    assert!(matches!(p.phase, Phase::Done));
    assert_eq!(p.execution.exit_code, Some(0));
}

#[test]
fn snippet_body_splits_into_code_line_and_code() {
    let (lang, code) = rustacean::pipeline::split_snippet(" Rust \nfn main() {}\nextra");
    assert_eq!(lang, "rust");
    assert_eq!(code, "fn main() {}\nextra");
    let (lang, code) = rustacean::pipeline::split_snippet("python");
    assert_eq!(lang, "python");
    assert_eq!(code, "");
    let (lang, code) = rustacean::pipeline::split_snippet("");
    assert_eq!(lang, "");
    assert_eq!(code, "");
}
