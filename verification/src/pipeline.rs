//! The execution pipeline: one request is turned into an ephemeral,
//! network-isolated, resource-capped container run, strictly forward
//! through save, preprocess, container start, copy-in, optional compile,
//! conditional execute, and an unconditional cleanup sink.
//!
//! The pipeline is a state machine: every step returns the next external
//! action to perform, and consumes the outcome of the previous one. All
//! container work happens outside the library; the machine guarantees
//! that, whatever those outcomes are, every run ends only after the
//! scratch file and the container have been released.

use vstd::prelude::*;

use crate::langs::Lang;
use crate::language::Language;
use crate::runner::ExecResult;
use crate::sanitize::pre_process_code;
use crate::sanitize::strip_invisible;
use crate::strutil::concat2;
use crate::strutil::concat3;
use crate::strutil::file_name;
use crate::strutil::suffix_after_last;

verus! {

/// The per-request knobs read once from configuration: container resource
/// caps and the two phase timeouts, in seconds (0 means uncapped).
pub struct Settings {
    pub cpu_load: String,
    pub ram_load: String,
    pub kernel_memory: String,
    pub compilation_timeout: u64,
    pub execution_timeout: u64,
}

/// A request that failed before or between the sandbox phases. A compile
/// failure or timeout is not an error: it is a successful pipeline outcome
/// carrying a failure result.
#[derive(Debug)]
pub enum PipelineError {
    /// The snippet could not be written to its scratch path.
    SaveFailed { detail: String },
    /// The container did not start.
    ContainerStartFailed { detail: String },
    /// The snippet could not be copied into the container.
    CopyFailed { detail: String },
    /// A compile step could not even be launched.
    CompileFailed { detail: String },
    /// The execution command could not even be launched.
    ExecuteFailed { detail: String },
}

/// Where a run stands. Strictly forward; every path funnels through
/// `CleaningUp` before reaching a terminal phase.
#[derive(Debug)]
pub enum Phase {
    /// Waiting for the container to start.
    Starting,
    /// Waiting for the snippet to be copied into the container.
    CopyingIn,
    /// Waiting for compile step `step` to finish.
    Compiling { step: usize },
    /// Interpreted language: waiting for the source to be copied to the
    /// artifact path, the identity "build".
    CopyingInterpreted,
    /// Waiting for the execution command to finish.
    Executing,
    /// Waiting for the scratch file and the container to be released.
    CleaningUp,
    /// Finished; results carry the outcome (which may be a compile
    /// failure).
    Done,
    /// Aborted by a pipeline error; cleanup has still run.
    Failed,
}

/// What the caller must do next on behalf of the machine.
#[derive(Debug)]
pub enum Action {
    /// Run the container program with these arguments, capturing stdout as
    /// the container handle; answer with `Started`.
    StartContainer { args: Vec<String> },
    /// Run the container program with these arguments; answer with
    /// `Copied`.
    Copy { args: Vec<String> },
    /// Run the container program with these arguments under the deadline
    /// runner; answer with `Ran`.
    RunTimed { args: Vec<String>, timeout_seconds: u64 },
    /// Delete the scratch file and, if a container was started, kill and
    /// remove it; errors are logged, never surfaced. Answer `CleanedUp`.
    Cleanup { scratch_path: String, container: Option<String> },
    /// The run is over.
    Finished,
}

/// The outcome of the previous action, reported back to the machine. An
/// `Err` is a runner-level failure (the command could not run at all); a
/// non-zero exit comes back as an ordinary `ExecResult`.
#[derive(Debug)]
pub enum Event {
    Started(Result<String, String>),
    Copied(Result<(), String>),
    Ran(Result<ExecResult, String>),
    CleanedUp,
}

/// One snippet run against one language, from container start to cleanup.
pub struct ExecutionPipeline {
    pub lang: Lang,
    pub settings: Settings,
    /// The preprocessed code: the source of truth reported to the caller.
    pub code: String,
    /// Whether preprocessing rewrote the snippet, so the scratch file must
    /// be persisted again before the container starts.
    pub rewritten: bool,
    /// Host scratch path of the snippet.
    pub src_path: String,
    /// Fixed well-known path of the snippet inside the container.
    pub path_in_container: String,
    /// Artifact path inside the container.
    pub out_path: String,
    /// Handle of the started container, once there is one.
    pub container: Option<String>,
    pub compilation: ExecResult,
    pub execution: ExecResult,
    pub error: Option<PipelineError>,
    /// Both the scratch file and the container have been released.
    pub cleaned_up: bool,
    pub phase: Phase,
}

/// Splits a snippet body as the engine consumes it: the first line names
/// the language code (trimmed and case-folded, ready for lookup), the
/// remaining lines are the code.
pub fn split_snippet(body: &str) -> (r: (String, String))
    ensures
        r.0@ == crate::strutil::lower_seq(
            crate::strutil::trim_seq(crate::strutil::prefix_before_first(body@, '\n')),
        ),
        r.1@ == crate::strutil::suffix_after_first(body@, '\n'),
{
    let n: usize = body.unicode_len();
    let (first, rest): (String, String) = match crate::strutil::find_char(body, '\n') {
        Some(k) => {
            proof {
                crate::strutil::lemma_first_occurrence(body@, '\n', k as int);
            }
            (
                body.substring_char(0, k).to_owned(),
                body.substring_char(k + 1, n).to_owned(),
            )
        },
        None => {
            proof {
                crate::strutil::lemma_no_first_occurrence(body@, '\n');
            }
            (body.to_owned(), String::new())
        },
    };
    let trimmed = crate::strutil::trim_str(first.as_str());
    (crate::strutil::to_lower_str(trimmed.as_str()), rest)
}

/// Arguments starting one detached, network-isolated container with the
/// configured CPU, memory and kernel-memory caps.
pub open spec fn spec_start_args(settings: Settings, image: Seq<char>) -> Seq<Seq<char>> {
    seq![
        "run"@,
        "--network=none"@,
        "--kernel-memory"@,
        settings.kernel_memory@,
        "--cpus"@,
        settings.cpu_load@,
        "--memory"@,
        settings.ram_load@,
        "-t"@,
        "-d"@,
        image,
    ]
}

/// Arguments copying a host file to a path inside a running container.
pub open spec fn spec_copy_args(src: Seq<char>, container: Seq<char>, dest: Seq<char>)
    -> Seq<Seq<char>> {
    seq!["cp"@, src, container + ":"@ + dest]
}

/// Arguments running a command inside a running container with the fixed
/// working directory.
pub open spec fn spec_exec_args(container: Seq<char>, inner: Seq<Seq<char>>) -> Seq<Seq<char>> {
    seq!["exec"@, "-w"@, "/home"@, container] + inner
}

/// Arguments forcibly stopping a running container.
pub open spec fn spec_kill_args(container: Seq<char>) -> Seq<Seq<char>> {
    seq!["kill"@, container]
}

/// Arguments removing a stopped container.
pub open spec fn spec_remove_args(container: Seq<char>) -> Seq<Seq<char>> {
    seq!["rm"@, container]
}

pub fn kill_args(container: &str) -> (r: Vec<String>)
    ensures
        r.deep_view() == spec_kill_args(container@),
{
    crate::language::argv2("kill", container)
}

pub fn remove_args(container: &str) -> (r: Vec<String>)
    ensures
        r.deep_view() == spec_remove_args(container@),
{
    crate::language::argv2("rm", container)
}

pub fn start_args(settings: &Settings, image: &str) -> (r: Vec<String>)
    ensures
        r.deep_view() == spec_start_args(*settings, image@),
{
    let mut v: Vec<String> = Vec::new();
    v.push("run".to_owned());
    v.push("--network=none".to_owned());
    v.push("--kernel-memory".to_owned());
    v.push(settings.kernel_memory.clone());
    v.push("--cpus".to_owned());
    v.push(settings.cpu_load.clone());
    v.push("--memory".to_owned());
    v.push(settings.ram_load.clone());
    v.push("-t".to_owned());
    v.push("-d".to_owned());
    v.push(image.to_owned());
    proof {
        assert(v.deep_view() =~= spec_start_args(*settings, image@));
    }
    v
}

pub fn copy_args(src: &str, container: &str, dest: &str) -> (r: Vec<String>)
    ensures
        r.deep_view() == spec_copy_args(src@, container@, dest@),
{
    let target = concat3(container, ":", dest);
    let mut v: Vec<String> = Vec::new();
    v.push("cp".to_owned());
    v.push(src.to_owned());
    v.push(target);
    proof {
        assert(v.deep_view() =~= spec_copy_args(src@, container@, dest@));
    }
    v
}

pub fn exec_args(container: &str, inner: &Vec<String>) -> (r: Vec<String>)
    ensures
        r.deep_view() == spec_exec_args(container@, inner.deep_view()),
{
    let mut v: Vec<String> = Vec::new();
    v.push("exec".to_owned());
    v.push("-w".to_owned());
    v.push("/home".to_owned());
    v.push(container.to_owned());
    let ghost head = v.deep_view();
    proof {
        assert(head =~= seq!["exec"@, "-w"@, "/home"@, container@]);
    }
    let n: usize = inner.len();
    for i in 0..n
        invariant
            n == inner@.len(),
            inner.deep_view().len() == n,
            v.deep_view() == head + inner.deep_view().subrange(0, i as int),
    {
        v.push(inner[i].clone());
        proof {
            assert(v.deep_view() =~= (head + inner.deep_view().subrange(0, i as int)).push(
                inner.deep_view()[i as int],
            ));
            assert((head + inner.deep_view().subrange(0, i as int)).push(
                inner.deep_view()[i as int],
            ) =~= head + inner.deep_view().subrange(0, i + 1));
        }
    }
    proof {
        assert(inner.deep_view().subrange(0, n as int) =~= inner.deep_view());
    }
    v
}

impl ExecutionPipeline {
    /// The compile steps for this run, `None` for an interpreted language.
    pub open spec fn spec_steps(&self) -> Option<Seq<Seq<Seq<char>>>> {
        self.lang.spec_compiler_command(self.path_in_container@, self.out_path@)
    }

    /// The machine's internal invariant: resources and results are
    /// consistent with the phase, and a terminal phase is reached only
    /// after cleanup.
    pub open spec fn wf(&self) -> bool {
        match self.phase {
            Phase::Starting => {
                &&& self.container is None
                &&& self.error is None
                &&& !self.cleaned_up
                &&& self.compilation.is_default()
                &&& self.execution.is_default()
            },
            Phase::CopyingIn => {
                &&& self.container is Some
                &&& self.error is None
                &&& !self.cleaned_up
                &&& self.compilation.is_default()
                &&& self.execution.is_default()
            },
            Phase::Compiling { step } => {
                &&& self.container is Some
                &&& self.error is None
                &&& !self.cleaned_up
                &&& self.spec_steps() is Some
                &&& (step as int) < self.spec_steps().unwrap().len()
                &&& self.execution.is_default()
            },
            Phase::CopyingInterpreted => {
                &&& self.container is Some
                &&& self.error is None
                &&& !self.cleaned_up
                &&& self.spec_steps() is None
                &&& self.compilation.is_default()
                &&& self.execution.is_default()
            },
            Phase::Executing => {
                &&& self.container is Some
                &&& self.error is None
                &&& !self.cleaned_up
                &&& !self.compilation.is_failure()
                &&& self.execution.is_default()
            },
            Phase::CleaningUp => !self.cleaned_up,
            Phase::Done => self.cleaned_up && self.error is None,
            Phase::Failed => self.cleaned_up && self.error is Some,
        }
    }

    /// The preprocessed body for `code` at `src_path`: invisible controls
    /// stripped, then wrapped by the language when no entry point is
    /// found.
    pub open spec fn spec_final_code(lang: Lang, code: Seq<char>, src_path: Seq<char>) -> Seq<
        char,
    > {
        match lang.spec_pre_process_code(strip_invisible(code), src_path) {
            Some(modified) => modified,
            None => strip_invisible(code),
        }
    }

    /// Prepares one run: strips and preprocesses the snippet and computes
    /// the in-container paths. The caller must persist `code` back to the
    /// scratch file when `rewritten` is set, then drive the machine.
    pub fn new(lang: Lang, settings: Settings, code: String, src_path: String) -> (r:
        ExecutionPipeline)
        ensures
            r.wf(),
            r.phase is Starting,
            r.lang == lang,
            r.settings == settings,
            r.src_path == src_path,
            r.path_in_container@ == "/home/"@ + suffix_after_last(src_path@, '/'),
            r.out_path@ == lang.spec_out_path(r.path_in_container@),
            r.code@ == Self::spec_final_code(lang, code@, src_path@),
            r.rewritten == (lang.spec_pre_process_code(strip_invisible(code@), src_path@)
                is Some),
    {
        let stripped = pre_process_code(code);
        let (final_code, rewritten) = match lang.pre_process_code(stripped.as_str(), src_path.as_str()) {
            Some(modified) => (modified, true),
            None => (stripped, false),
        };
        let name = file_name(src_path.as_str());
        let path_in_container = concat2("/home/", name.as_str());
        let out_path = lang.get_out_path(path_in_container.as_str());
        ExecutionPipeline {
            lang,
            settings,
            code: final_code,
            rewritten,
            src_path,
            path_in_container,
            out_path,
            container: None,
            compilation: ExecResult::default(),
            execution: ExecResult::default(),
            error: None,
            cleaned_up: false,
            phase: Phase::Starting,
        }
    }

    /// The next external action demanded by the current phase.
    pub fn next_action(&self) -> (a: Action)
        requires
            self.wf(),
        ensures
            match self.phase {
                Phase::Starting => a matches Action::StartContainer { args } && args.deep_view()
                    == spec_start_args(self.settings, self.lang.spec_image_name()),
                Phase::CopyingIn => a matches Action::Copy { args } && args.deep_view()
                    == spec_copy_args(
                    self.src_path@,
                    self.container.unwrap()@,
                    self.path_in_container@,
                ),
                Phase::Compiling { step } => a matches Action::RunTimed { args, timeout_seconds }
                    && args.deep_view() == spec_exec_args(
                    self.container.unwrap()@,
                    self.spec_steps().unwrap()[step as int],
                ) && timeout_seconds == self.settings.compilation_timeout,
                Phase::CopyingInterpreted => a matches Action::Copy { args } && args.deep_view()
                    == spec_copy_args(self.src_path@, self.container.unwrap()@, self.out_path@),
                Phase::Executing => a matches Action::RunTimed { args, timeout_seconds }
                    && args.deep_view() == spec_exec_args(
                    self.container.unwrap()@,
                    self.lang.spec_execution_command(self.out_path@),
                ) && timeout_seconds == self.settings.execution_timeout,
                Phase::CleaningUp => a matches Action::Cleanup { scratch_path, container } && (
                scratch_path@ == self.src_path@ && container.deep_view()
                    == self.container.deep_view()),
                Phase::Done => a is Finished,
                Phase::Failed => a is Finished,
            },
    {
        match &self.phase {
            Phase::Starting => {
                let image = self.lang.get_image_name();
                Action::StartContainer { args: start_args(&self.settings, image.as_str()) }
            },
            Phase::CopyingIn => {
                let container = self.container_handle();
                Action::Copy {
                    args: copy_args(
                        self.src_path.as_str(),
                        container.as_str(),
                        self.path_in_container.as_str(),
                    ),
                }
            },
            Phase::Compiling { step } => {
                let container = self.container_handle();
                let steps = match self.lang.get_compiler_command(
                    self.path_in_container.as_str(),
                    self.out_path.as_str(),
                ) {
                    Some(steps) => steps,
                    None => {
                        proof {
                            assert(false);
                        }
                        Vec::new()
                    },
                };
                Action::RunTimed {
                    args: exec_args(container.as_str(), &steps[*step]),
                    timeout_seconds: self.settings.compilation_timeout,
                }
            },
            Phase::CopyingInterpreted => {
                let container = self.container_handle();
                Action::Copy {
                    args: copy_args(
                        self.src_path.as_str(),
                        container.as_str(),
                        self.out_path.as_str(),
                    ),
                }
            },
            Phase::Executing => {
                let container = self.container_handle();
                let command = self.lang.get_execution_command(self.out_path.as_str());
                Action::RunTimed {
                    args: exec_args(container.as_str(), &command),
                    timeout_seconds: self.settings.execution_timeout,
                }
            },
            Phase::CleaningUp => {
                let container = match &self.container {
                    Some(c) => Some(c.clone()),
                    None => None,
                };
                Action::Cleanup { scratch_path: self.src_path.clone(), container }
            },
            Phase::Done => Action::Finished,
            Phase::Failed => Action::Finished,
        }
    }

    fn container_handle(&self) -> (r: String)
        requires
            self.container is Some,
        ensures
            r@ == self.container.unwrap()@,
    {
        match &self.container {
            Some(c) => c.clone(),
            None => {
                proof {
                    assert(false);
                }
                String::new()
            },
        }
    }

    /// The run has reached `Done` or `Failed`.
    pub fn is_terminal(&self) -> (r: bool)
        ensures
            r == (self.phase is Done || self.phase is Failed),
    {
        match &self.phase {
            Phase::Done => true,
            Phase::Failed => true,
            _ => false,
        }
    }

    /// Feeds the outcome of the last action back into the machine.
    pub fn step(&mut self, ev: Event)
        requires
            old(self).wf(),
            spec_event_fits(*old(self), ev),
        ensures
            *final(self) == spec_step(*old(self), ev),
            final(self).wf(),
    {
        proof {
            lemma_step_preserves_wf(*old(self), ev);
        }
        let stepnum: usize = match &self.phase {
            Phase::Compiling { step } => *step,
            _ => 0,
        };
        match ev {
            Event::Started(res) => match res {
                Ok(id) => {
                    self.container = Some(id);
                    self.phase = Phase::CopyingIn;
                },
                Err(detail) => {
                    self.error = Some(PipelineError::ContainerStartFailed { detail });
                    self.phase = Phase::CleaningUp;
                },
            },
            Event::Copied(res) => match &self.phase {
                Phase::CopyingIn => match res {
                    Ok(_) => {
                        let compiled = match self.lang.get_compiler_command(
                            self.path_in_container.as_str(),
                            self.out_path.as_str(),
                        ) {
                            Some(_) => true,
                            None => false,
                        };
                        if compiled {
                            self.phase = Phase::Compiling { step: 0 };
                        } else {
                            self.phase = Phase::CopyingInterpreted;
                        }
                    },
                    Err(detail) => {
                        self.error = Some(PipelineError::CopyFailed { detail });
                        self.phase = Phase::CleaningUp;
                    },
                },
                _ => {
                    // the identity "build" of an interpreted language: the
                    // copy outcome is deliberately ignored
                    self.phase = Phase::Executing;
                },
            },
            Event::Ran(res) => match &self.phase {
                Phase::Compiling { .. } => match res {
                    Ok(result) => {
                        let failed = result.timed_out || match result.exit_code {
                            Some(c) => c != 0,
                            None => false,
                        };
                        self.compilation = result;
                        if failed {
                            // a compile failure short-circuits the rest and
                            // skips execution; the run still succeeds
                            self.phase = Phase::CleaningUp;
                        } else {
                            let steps = match self.lang.get_compiler_command(
                                self.path_in_container.as_str(),
                                self.out_path.as_str(),
                            ) {
                                Some(steps) => steps,
                                None => {
                                    proof {
                                        assert(false);
                                    }
                                    Vec::new()
                                },
                            };
                            if stepnum + 1 < steps.len() {
                                self.phase = Phase::Compiling { step: stepnum + 1 };
                            } else {
                                self.phase = Phase::Executing;
                            }
                        }
                    },
                    Err(detail) => {
                        self.error = Some(PipelineError::CompileFailed { detail });
                        self.phase = Phase::CleaningUp;
                    },
                },
                _ => match res {
                    Ok(result) => {
                        self.execution = result;
                        self.phase = Phase::CleaningUp;
                    },
                    Err(detail) => {
                        self.error = Some(PipelineError::ExecuteFailed { detail });
                        self.phase = Phase::CleaningUp;
                    },
                },
            },
            Event::CleanedUp => {
                self.cleaned_up = true;
                if self.error.is_some() {
                    self.phase = Phase::Failed;
                } else {
                    self.phase = Phase::Done;
                }
            },
        }
    }
}

/// The event answers the action that the current phase demands.
pub open spec fn spec_event_fits(p: ExecutionPipeline, ev: Event) -> bool {
    match (p.phase, ev) {
        (Phase::Starting, Event::Started(_)) => true,
        (Phase::CopyingIn, Event::Copied(_)) => true,
        (Phase::Compiling { .. }, Event::Ran(_)) => true,
        (Phase::CopyingInterpreted, Event::Copied(_)) => true,
        (Phase::Executing, Event::Ran(_)) => true,
        (Phase::CleaningUp, Event::CleanedUp) => true,
        _ => false,
    }
}

/// The transition function: what one observed outcome does to the run.
/// The machine is deterministic; all nondeterminism of a real run enters
/// through the events.
pub open spec fn spec_step(p: ExecutionPipeline, ev: Event) -> ExecutionPipeline {
    match (p.phase, ev) {
        (Phase::Starting, Event::Started(res)) => match res {
            Ok(id) => ExecutionPipeline { container: Some(id), phase: Phase::CopyingIn, ..p },
            Err(detail) => ExecutionPipeline {
                error: Some(PipelineError::ContainerStartFailed { detail }),
                phase: Phase::CleaningUp,
                ..p
            },
        },
        (Phase::CopyingIn, Event::Copied(res)) => match res {
            Ok(_) => if p.spec_steps() is Some {
                ExecutionPipeline { phase: Phase::Compiling { step: 0 }, ..p }
            } else {
                ExecutionPipeline { phase: Phase::CopyingInterpreted, ..p }
            },
            Err(detail) => ExecutionPipeline {
                error: Some(PipelineError::CopyFailed { detail }),
                phase: Phase::CleaningUp,
                ..p
            },
        },
        (Phase::Compiling { step }, Event::Ran(res)) => match res {
            Ok(result) => if result.is_failure() {
                ExecutionPipeline { compilation: result, phase: Phase::CleaningUp, ..p }
            } else if step + 1 < p.spec_steps().unwrap().len() {
                ExecutionPipeline {
                    compilation: result,
                    phase: Phase::Compiling { step: (step + 1) as usize },
                    ..p
                }
            } else {
                ExecutionPipeline { compilation: result, phase: Phase::Executing, ..p }
            },
            Err(detail) => ExecutionPipeline {
                error: Some(PipelineError::CompileFailed { detail }),
                phase: Phase::CleaningUp,
                ..p
            },
        },
        (Phase::CopyingInterpreted, Event::Copied(_)) => ExecutionPipeline {
            phase: Phase::Executing,
            ..p
        },
        (Phase::Executing, Event::Ran(res)) => match res {
            Ok(result) => ExecutionPipeline {
                execution: result,
                phase: Phase::CleaningUp,
                ..p
            },
            Err(detail) => ExecutionPipeline {
                error: Some(PipelineError::ExecuteFailed { detail }),
                phase: Phase::CleaningUp,
                ..p
            },
        },
        (Phase::CleaningUp, Event::CleanedUp) => ExecutionPipeline {
            cleaned_up: true,
            phase: if p.error is Some {
                Phase::Failed
            } else {
                Phase::Done
            },
            ..p
        },
        _ => p,
    }
}

/// Every fitting event leads from a well-formed state to a well-formed
/// state; in particular a terminal state is only ever entered with
/// cleanup done.
pub proof fn lemma_step_preserves_wf(p: ExecutionPipeline, ev: Event)
    requires
        p.wf(),
        spec_event_fits(p, ev),
    ensures
        spec_step(p, ev).wf(),
{
}

/// The state after driving the machine through a whole event trace.
pub open spec fn run_steps(p: ExecutionPipeline, evs: Seq<Event>) -> ExecutionPipeline
    decreases evs.len(),
{
    if evs.len() == 0 {
        p
    } else {
        run_steps(spec_step(p, evs[0]), evs.drop_first())
    }
}

/// Every event of the trace answers the action of the state it meets.
pub open spec fn events_fit(p: ExecutionPipeline, evs: Seq<Event>) -> bool
    decreases evs.len(),
{
    evs.len() == 0 || (spec_event_fits(p, evs[0]) && events_fit(
        spec_step(p, evs[0]),
        evs.drop_first(),
    ))
}

/// A well-formed run stays well-formed along any fitting trace.
pub proof fn lemma_run_preserves_wf(p: ExecutionPipeline, evs: Seq<Event>)
    requires
        p.wf(),
        events_fit(p, evs),
    ensures
        run_steps(p, evs).wf(),
    decreases evs.len(),
{
    if evs.len() > 0 {
        lemma_step_preserves_wf(p, evs[0]);
        lemma_run_preserves_wf(spec_step(p, evs[0]), evs.drop_first());
    }
}

/// Cleanup invariant: whatever the trace — success, compile failure,
/// execution failure, or timeout — a run that has reached a terminal
/// phase has released the scratch file and the container first.
pub proof fn lemma_terminal_means_cleaned_up(p: ExecutionPipeline, evs: Seq<Event>)
    requires
        p.wf(),
        events_fit(p, evs),
    ensures
        run_steps(p, evs).phase is Done || run_steps(p, evs).phase is Failed ==> run_steps(
            p,
            evs,
        ).cleaned_up,
{
    lemma_run_preserves_wf(p, evs);
}

/// Determinism: the machine's whole outcome is a function of the starting
/// state and the observed events alone. Two runs over the same events end
/// in the same state, with the same exit codes and output; real runs
/// differ only through the events the outside world reports.
pub proof fn lemma_run_deterministic(
    p: ExecutionPipeline,
    q: ExecutionPipeline,
    evs1: Seq<Event>,
    evs2: Seq<Event>,
)
    requires
        p == q,
        evs1 == evs2,
    ensures
        run_steps(p, evs1) == run_steps(q, evs2),
{
}

/// No step changes what was asked: the language, the paths, the settings
/// and the preprocessed code are fixed for the whole run.
pub proof fn lemma_step_keeps_request(p: ExecutionPipeline, ev: Event)
    ensures
        spec_step(p, ev).lang == p.lang,
        spec_step(p, ev).settings == p.settings,
        spec_step(p, ev).code == p.code,
        spec_step(p, ev).src_path == p.src_path,
        spec_step(p, ev).path_in_container == p.path_in_container,
        spec_step(p, ev).out_path == p.out_path,
{
}

/// Outside the compile phase, the compilation result never changes.
pub proof fn lemma_step_keeps_compilation(p: ExecutionPipeline, ev: Event)
    requires
        !(p.phase is Compiling),
    ensures
        spec_step(p, ev).compilation == p.compilation,
{
}

/// Interpreted-language contract: with no compile command, no reachable
/// state of the run ever waits on a compile step, and the compilation
/// result stays the all-default value; the execution command is handed
/// the artifact path, which holds the copied source itself.
pub proof fn lemma_interpreted_never_compiles(p: ExecutionPipeline, evs: Seq<Event>)
    requires
        p.wf(),
        events_fit(p, evs),
        p.spec_steps() is None,
    ensures
        !(run_steps(p, evs).phase is Compiling),
        run_steps(p, evs).compilation == p.compilation,
    decreases evs.len(),
{
    if evs.len() == 0 {
    } else {
        lemma_step_preserves_wf(p, evs[0]);
        lemma_step_keeps_request(p, evs[0]);
        lemma_step_keeps_compilation(p, evs[0]);
        lemma_interpreted_never_compiles(spec_step(p, evs[0]), evs.drop_first());
    }
}

} // verus!
