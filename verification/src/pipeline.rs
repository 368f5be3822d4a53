//! The deployment pipeline: a fixed sequence of remote-execution steps that
//! takes an already-built enclave image and an already-running host to a
//! verified "enclave running" state.
//!
//! The pipeline is a single linear attempt: each step's non-zero exit status
//! aborts it immediately with a stage-tagged error, and no later step ever
//! executes. Retry policy is a caller concern.

use vstd::prelude::*;
use vstd::arithmetic::div_mod::lemma_div_is_ordered;
use crate::commands::{
    copy_image_argv_spec, copy_image_command, describe_enclaves_argv_spec,
    describe_enclaves_command, reconfigure_argv_spec, reconfigure_command,
    restart_allocator_argv_spec, restart_allocator_command, run_enclave_argv_spec,
    run_enclave_command, terminate_argv_spec, terminate_command,
};
use crate::enclave::{running_verified, verify_running, EnclaveSummary};
use crate::errors::{Error, Stage};

verus! {

/// The inputs of one deployment attempt, constructed once and not reused.
#[derive(Clone, Debug)]
pub struct DeploymentRequest {
    /// Address of the provisioned host.
    pub host: String,
    /// Path of the enclave image file on the local machine.
    pub eif_path: String,
    /// Reference to the remote credential (the SSH private key file).
    pub ssh_key: String,
    /// Number of processors to give the enclave.
    pub cpu_count: u64,
    /// Memory budget in megabytes.
    pub memory_mb: u64,
    /// Whether to start the enclave with console log capture enabled.
    pub debug_mode: bool,
}

/// Where a deployment attempt stands.
#[derive(Debug)]
pub enum PipelineState {
    /// The given stage is the next one to execute.
    Ready { stage: Stage },
    /// Every stage succeeded: the enclave is verified running.
    Running,
    /// The given stage failed with this detail; the pipeline has aborted.
    Failed { stage: Stage, detail: String },
}

/// The position of a stage in the fixed order.
pub open spec fn stage_index(s: Stage) -> int {
    match s {
        Stage::Terminating => 0,
        Stage::Reconfiguring => 1,
        Stage::RestartingService => 2,
        Stage::CopyingImage => 3,
        Stage::Starting => 4,
        Stage::Verifying => 5,
    }
}

/// The stage that follows `s`, if any.
pub open spec fn next_stage(s: Stage) -> Option<Stage> {
    match s {
        Stage::Terminating => Some(Stage::Reconfiguring),
        Stage::Reconfiguring => Some(Stage::RestartingService),
        Stage::RestartingService => Some(Stage::CopyingImage),
        Stage::CopyingImage => Some(Stage::Starting),
        Stage::Starting => Some(Stage::Verifying),
        Stage::Verifying => None,
    }
}

fn next_stage_exec(s: Stage) -> (r: Option<Stage>)
    ensures
        r == next_stage(s),
{
    match s {
        Stage::Terminating => Some(Stage::Reconfiguring),
        Stage::Reconfiguring => Some(Stage::RestartingService),
        Stage::RestartingService => Some(Stage::CopyingImage),
        Stage::CopyingImage => Some(Stage::Starting),
        Stage::Starting => Some(Stage::Verifying),
        Stage::Verifying => None,
    }
}

/// How one observed step result moves the pipeline: a failure pins the
/// failing stage, success hands control to the next stage in the fixed
/// order, and a pipeline that has settled never moves again.
pub open spec fn step_spec(st: PipelineState, ok: bool, detail: String) -> PipelineState {
    match st {
        PipelineState::Ready { stage } => {
            if !ok {
                PipelineState::Failed { stage, detail }
            } else {
                match next_stage(stage) {
                    Some(t) => PipelineState::Ready { stage: t },
                    None => PipelineState::Running,
                }
            }
        },
        _ => st,
    }
}

/// The pipeline folded over a sequence of observed step results.
pub open spec fn run_steps(st: PipelineState, events: Seq<(bool, String)>) -> PipelineState
    decreases events.len(),
{
    if events.len() == 0 {
        st
    } else {
        run_steps(step_spec(st, events[0].0, events[0].1), events.drop_first())
    }
}

/// A settled pipeline (running or failed) never moves again.
pub proof fn lemma_settled_is_absorbing(st: PipelineState, events: Seq<(bool, String)>)
    requires
        !(st is Ready),
    ensures
        run_steps(st, events) == st,
    decreases events.len(),
{
    if events.len() > 0 {
        lemma_settled_is_absorbing(st, events.drop_first());
    }
}

/// Folding over a split event sequence equals folding over its parts.
proof fn lemma_run_steps_split(st: PipelineState, events: Seq<(bool, String)>, i: int)
    requires
        0 <= i <= events.len(),
    ensures
        run_steps(st, events) == run_steps(run_steps(st, events.take(i)), events.skip(i)),
    decreases i,
{
    if i == 0 {
        assert(events.take(0) =~= Seq::<(bool, String)>::empty());
        assert(events.skip(0) =~= events);
    } else {
        let st1 = step_spec(st, events[0].0, events[0].1);
        let rest = events.drop_first();
        lemma_run_steps_split(st1, rest, i - 1);
        assert(rest.take(i - 1) =~= events.take(i).drop_first());
        assert(rest.skip(i - 1) =~= events.skip(i));
        assert(events.take(i)[0] == events[0]);
    }
}

/// Law: if any step fails, no later step executes. A failure at position `i`
/// settles the pipeline in the failed state of the stage that was ready
/// there, and every later point of the run still shows exactly that state.
pub proof fn lemma_no_step_after_failure(
    st: PipelineState,
    events: Seq<(bool, String)>,
    i: int,
    stage: Stage,
)
    requires
        0 <= i < events.len(),
        !events[i].0,
        run_steps(st, events.take(i)) == (PipelineState::Ready { stage }),
    ensures
        run_steps(st, events) == (PipelineState::Failed { stage, detail: events[i].1 }),
        forall|k: int|
            i < k <= events.len() ==> run_steps(st, events.take(k)) == (PipelineState::Failed {
                stage,
                detail: events[i].1,
            }),
{
    let failed = PipelineState::Failed { stage, detail: events[i].1 };
    assert forall|k: int| i < k <= events.len() implies run_steps(st, events.take(k)) == failed by {
        let ev = events.take(k);
        lemma_run_steps_split(st, ev, i);
        assert(ev.take(i) =~= events.take(i));
        assert(ev.skip(i)[0] == events[i]);
        let mid = step_spec(PipelineState::Ready { stage }, events[i].0, events[i].1);
        assert(mid == failed);
        assert(run_steps(st, ev) == run_steps(failed, ev.skip(i).drop_first()));
        lemma_settled_is_absorbing(failed, ev.skip(i).drop_first());
    }
    assert(events.take(events.len() as int) =~= events);
}

/// Law: a fresh pipeline whose six steps all succeed, and only that one,
/// completes: it settles in the running state after exactly one event per
/// stage.
pub proof fn lemma_successful_run_completes(events: Seq<(bool, String)>)
    requires
        events.len() == 6,
        forall|i: int| 0 <= i < events.len() ==> events[i].0,
    ensures
        run_steps(PipelineState::Ready { stage: Stage::Terminating }, events)
            == PipelineState::Running,
{
    let s0 = PipelineState::Ready { stage: Stage::Terminating };
    let e1 = events.drop_first();
    let e2 = e1.drop_first();
    let e3 = e2.drop_first();
    let e4 = e3.drop_first();
    let e5 = e4.drop_first();
    let e6 = e5.drop_first();
    assert(e1[0] == events[1] && e2[0] == events[2] && e3[0] == events[3] && e4[0] == events[4]
        && e5[0] == events[5]);
    let s1 = step_spec(s0, events[0].0, events[0].1);
    let s2 = step_spec(s1, events[1].0, events[1].1);
    let s3 = step_spec(s2, events[2].0, events[2].1);
    let s4 = step_spec(s3, events[3].0, events[3].1);
    let s5 = step_spec(s4, events[4].0, events[4].1);
    let s6 = step_spec(s5, events[5].0, events[5].1);
    assert(s6 == PipelineState::Running);
    assert(run_steps(s0, events) == run_steps(s1, e1));
    assert(run_steps(s1, e1) == run_steps(s2, e2));
    assert(run_steps(s2, e2) == run_steps(s3, e3));
    assert(run_steps(s3, e3) == run_steps(s4, e4));
    assert(run_steps(s4, e4) == run_steps(s5, e5));
    assert(run_steps(s5, e5) == run_steps(s6, e6));
    assert(e6.len() == 0);
    assert(run_steps(s6, e6) == PipelineState::Running);
}

/// Law: the stages run strictly in their fixed order — a step that leaves
/// the pipeline ready again has moved it to exactly the next stage, never
/// skipping ahead or falling back.
pub proof fn lemma_stages_strictly_ordered(
    st: PipelineState,
    ok: bool,
    detail: String,
    s: Stage,
    t: Stage,
)
    requires
        st == (PipelineState::Ready { stage: s }),
        step_spec(st, ok, detail) == (PipelineState::Ready { stage: t }),
    ensures
        ok,
        next_stage(s) == Some(t),
        stage_index(t) == stage_index(s) + 1,
{
}

/// The image size in whole megabytes.
pub open spec fn size_in_mb(eif_size_bytes: u64) -> int {
    eif_size_bytes as int / 1000000
}

/// The memory the enclave is given: the requested budget verbatim when one
/// was supplied, and five times the image's size in megabytes otherwise —
/// a fixed heuristic covering enclave runtime overhead relative to image
/// size, which callers may always override.
pub fn compute_memory_budget(eif_size_bytes: u64, requested: Option<u64>) -> (r: u64)
    ensures
        match requested {
            Some(x) => r == x,
            None => r == 5 * size_in_mb(eif_size_bytes),
        },
{
    match requested {
        Some(x) => x,
        None => {
            let mb = eif_size_bytes / 1000000;
            proof {
                lemma_div_is_ordered(eif_size_bytes as int, u64::MAX as int, 1000000);
            }
            5 * mb
        },
    }
}

/// What the driver must do for the pipeline's current stage.
#[derive(Debug)]
pub enum StepAction {
    /// Run this argument vector on the host over the remote command channel.
    RemoteCommand { argv: Vec<String> },
    /// Copy the image with these secure-copy arguments.
    FileCopy { argv: Vec<String> },
}

/// Whether a stage transfers a file rather than running a remote command.
pub open spec fn stage_is_copy(stage: Stage) -> bool {
    stage == Stage::CopyingImage
}

/// The exact arguments the given stage hands to the remote channel.
pub open spec fn stage_argv_spec(req: DeploymentRequest, stage: Stage) -> Seq<Seq<char>> {
    match stage {
        Stage::Terminating => terminate_argv_spec(req.ssh_key@, req.host@),
        Stage::Reconfiguring => reconfigure_argv_spec(req.ssh_key@, req.host@, req.memory_mb),
        Stage::RestartingService => restart_allocator_argv_spec(req.ssh_key@, req.host@),
        Stage::CopyingImage => copy_image_argv_spec(req.ssh_key@, req.eif_path@, req.host@),
        Stage::Starting => run_enclave_argv_spec(
            req.ssh_key@,
            req.host@,
            req.eif_path@,
            req.cpu_count,
            req.memory_mb,
            req.debug_mode,
        ),
        Stage::Verifying => describe_enclaves_argv_spec(req.ssh_key@, req.host@),
    }
}

/// One deployment attempt over a fixed request.
#[derive(Debug)]
pub struct Pipeline {
    request: DeploymentRequest,
    state: PipelineState,
}

impl Pipeline {
    /// The request this attempt was constructed for.
    pub closed spec fn spec_request(&self) -> DeploymentRequest {
        self.request
    }

    /// Where the attempt stands.
    pub closed spec fn spec_state(&self) -> PipelineState {
        self.state
    }

    /// Starts an attempt: the first stage, terminating any prior enclave,
    /// is ready to run.
    pub fn new(request: DeploymentRequest) -> (r: Pipeline)
        ensures
            r.spec_request() == request,
            r.spec_state() == (PipelineState::Ready { stage: Stage::Terminating }),
    {
        Pipeline { request, state: PipelineState::Ready { stage: Stage::Terminating } }
    }

    /// Reads the attempt's state.
    pub fn state(&self) -> (r: &PipelineState)
        ensures
            r == self.spec_state(),
    {
        &self.state
    }

    /// Reads the attempt's request.
    pub fn request(&self) -> (r: &DeploymentRequest)
        ensures
            r == self.spec_request(),
    {
        &self.request
    }

    /// What to execute next: the ready stage's exact arguments, and nothing
    /// once the pipeline has settled.
    pub fn next_action(&self) -> (r: Option<StepAction>)
        ensures
            match self.spec_state() {
                PipelineState::Ready { stage } => r matches Some(a) && match a {
                    StepAction::RemoteCommand { argv } => !stage_is_copy(stage)
                        && argv.deep_view() == stage_argv_spec(self.spec_request(), stage),
                    StepAction::FileCopy { argv } => stage_is_copy(stage)
                        && argv.deep_view() == stage_argv_spec(self.spec_request(), stage),
                },
                _ => r is None,
            },
    {
        let req = &self.request;
        match &self.state {
            PipelineState::Ready { stage } => {
                let argv = match stage {
                    Stage::Terminating => terminate_command(
                        req.ssh_key.as_str(),
                        req.host.as_str(),
                    ),
                    Stage::Reconfiguring => reconfigure_command(
                        req.ssh_key.as_str(),
                        req.host.as_str(),
                        req.memory_mb,
                    ),
                    Stage::RestartingService => restart_allocator_command(
                        req.ssh_key.as_str(),
                        req.host.as_str(),
                    ),
                    Stage::CopyingImage => copy_image_command(
                        req.ssh_key.as_str(),
                        req.eif_path.as_str(),
                        req.host.as_str(),
                    ),
                    Stage::Starting => run_enclave_command(
                        req.ssh_key.as_str(),
                        req.host.as_str(),
                        req.eif_path.as_str(),
                        req.cpu_count,
                        req.memory_mb,
                        req.debug_mode,
                    ),
                    Stage::Verifying => describe_enclaves_command(
                        req.ssh_key.as_str(),
                        req.host.as_str(),
                    ),
                };
                if matches!(stage, Stage::CopyingImage) {
                    Some(StepAction::FileCopy { argv })
                } else {
                    Some(StepAction::RemoteCommand { argv })
                }
            },
            _ => None,
        }
    }

    /// Feeds one step's observed result in: success readies the next stage
    /// in the fixed order, failure settles the pipeline on this stage with
    /// the observed detail, and a settled pipeline stays as it is.
    pub fn advance(&mut self, ok: bool, detail: String)
        ensures
            final(self).spec_request() == old(self).spec_request(),
            final(self).spec_state() == step_spec(old(self).spec_state(), ok, detail),
    {
        let next = match &self.state {
            PipelineState::Ready { stage } => {
                let s: Stage = *stage;
                if !ok {
                    Some(PipelineState::Failed { stage: s, detail })
                } else {
                    match next_stage_exec(s) {
                        Some(t) => Some(PipelineState::Ready { stage: t }),
                        None => Some(PipelineState::Running),
                    }
                }
            },
            _ => None,
        };
        if let Some(st) = next {
            self.state = st;
        }
    }

    /// Completes the verification stage from the observed describe call: an
    /// exit failure or a list that does not show a running enclave settles
    /// the pipeline as failed and returns the typed error; only a verified
    /// running enclave completes the attempt.
    pub fn resolve_verification(
        &mut self,
        exit_ok: bool,
        detail: String,
        entries: &Vec<EnclaveSummary>,
    ) -> (r: Result<(), Error>)
        requires
            old(self).spec_state() == (PipelineState::Ready { stage: Stage::Verifying }),
        ensures
            final(self).spec_request() == old(self).spec_request(),
            r is Ok <==> (exit_ok && running_verified(entries@)),
            r is Ok ==> final(self).spec_state() is Running,
            !exit_ok ==> (r matches Err(e) && (e matches Error::DeploymentStepError {
                stage,
                detail: d,
            } && stage == Stage::Verifying && d@ == detail@)),
            !exit_ok ==> (final(self).spec_state() matches PipelineState::Failed {
                stage: fs,
                detail: fd,
            } && fs == Stage::Verifying && fd@ == detail@),
            exit_ok && !running_verified(entries@) ==> (final(self).spec_state() matches
                PipelineState::Failed { stage: fs, detail: _ } && fs == Stage::Verifying),
            exit_ok && entries@.len() == 0 ==> (r matches Err(e) && e is NotRunningError),
            exit_ok && !running_verified(entries@) && entries@.len() > 0 ==> (r matches Err(e)
                && e is UnknownStateError),
    {
        if !exit_ok {
            self.state = PipelineState::Failed { stage: Stage::Verifying, detail: detail.clone() };
            return Err(Error::DeploymentStepError { stage: Stage::Verifying, detail });
        }
        match verify_running(entries) {
            Ok(()) => {
                self.state = PipelineState::Running;
                Ok(())
            },
            Err(e) => {
                self.state = PipelineState::Failed {
                    stage: Stage::Verifying,
                    detail: "enclave state verification failed".to_owned(),
                };
                Err(e)
            },
        }
    }

    /// The stage-tagged error of a failed attempt, and nothing otherwise.
    pub fn into_error(&self) -> (r: Option<Error>)
        ensures
            match self.spec_state() {
                PipelineState::Failed { stage, detail } => r matches Some(e) && (e matches
                    Error::DeploymentStepError { stage: s, detail: d } && s == stage
                    && d@ == detail@),
                _ => r is None,
            },
    {
        match &self.state {
            PipelineState::Failed { stage, detail } => Some(
                Error::DeploymentStepError { stage: *stage, detail: detail.clone() },
            ),
            _ => None,
        }
    }
}

} // verus!
