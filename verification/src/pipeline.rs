//! PipelineExecutor: the four-stage state machine each restaurant key
//! runs through — key selection, menu fetch, flagging, apply — with its
//! halt-on-first-failure rule and the bounded retry policy.
//!
//! The machine is data: callers perform a stage's outside work, then
//! record its outcome here. A stage can only be recorded while the
//! machine stands on it, so a key whose fetch or flag stage failed can
//! never reach the apply stage.

use vstd::prelude::*;

use crate::platform::ResponseClass;

verus! {

/// The four pipeline stages, in their fixed linear order.
#[derive(Clone, Copy, Debug, PartialEq, Eq, Structural)]
pub enum RoofStep {
    KeyFiltrele,
    MenuGetir,
    Flagger,
    IstekAt,
}

/// The recorded result of one stage for one key; never mutated after
/// creation.
#[derive(Debug)]
pub struct RoofStepResult {
    pub step: RoofStep,
    pub result: Result<(), String>,
}

/// Position of a stage in the fixed order.
pub open spec fn step_index(s: RoofStep) -> int {
    match s {
        RoofStep::KeyFiltrele => 0,
        RoofStep::MenuGetir => 1,
        RoofStep::Flagger => 2,
        RoofStep::IstekAt => 3,
    }
}

/// The stage standing at one position of the fixed order.
pub open spec fn step_of_index(i: int) -> RoofStep {
    if i == 0 {
        RoofStep::KeyFiltrele
    } else if i == 1 {
        RoofStep::MenuGetir
    } else if i == 2 {
        RoofStep::Flagger
    } else {
        RoofStep::IstekAt
    }
}

/// The stage after one stage, if any.
pub open spec fn spec_next_step(s: RoofStep) -> Option<RoofStep> {
    match s {
        RoofStep::KeyFiltrele => Some(RoofStep::MenuGetir),
        RoofStep::MenuGetir => Some(RoofStep::Flagger),
        RoofStep::Flagger => Some(RoofStep::IstekAt),
        RoofStep::IstekAt => None,
    }
}

/// Where one key's pipeline stands: on a stage, finished, or halted at
/// the stage that failed.
#[derive(Clone, Copy, Debug, PartialEq, Eq, Structural)]
pub enum PipelineState {
    Running(RoofStep),
    Done,
    Failed(RoofStep),
}

/// The stage a running state stands on.
pub open spec fn running_step(s: PipelineState) -> RoofStep {
    match s {
        PipelineState::Running(x) => x,
        PipelineState::Done => RoofStep::KeyFiltrele,
        PipelineState::Failed(x) => x,
    }
}

/// One key's pipeline instance: its state and the outcomes recorded so
/// far, in stage order.
#[derive(Debug)]
pub struct KeyPipeline {
    pub state: PipelineState,
    pub outcomes: Vec<RoofStepResult>,
}

impl KeyPipeline {
    /// Well-formedness: the recorded outcomes are exactly the stages
    /// passed so far, in order; every outcome before the current position
    /// succeeded; a halted machine's last outcome is the failure that
    /// halted it.
    pub open spec fn wf(&self) -> bool {
        &&& forall|i: int|
            0 <= i < self.outcomes@.len() ==> (#[trigger] self.outcomes@[i]).step
                == step_of_index(i)
        &&& match self.state {
            PipelineState::Running(s) => {
                &&& self.outcomes@.len() == step_index(s)
                &&& forall|i: int|
                    0 <= i < self.outcomes@.len() ==> (#[trigger] self.outcomes@[i]).result is Ok
            },
            PipelineState::Done => {
                &&& self.outcomes@.len() == 4
                &&& forall|i: int|
                    0 <= i < self.outcomes@.len() ==> (#[trigger] self.outcomes@[i]).result is Ok
            },
            PipelineState::Failed(s) => {
                &&& self.outcomes@.len() == step_index(s) + 1
                &&& forall|i: int|
                    0 <= i < self.outcomes@.len() - 1 ==> (
                    #[trigger] self.outcomes@[i]).result is Ok
                &&& self.outcomes@.last().result is Err
            },
        }
    }

    /// A fresh pipeline, standing on key selection with nothing recorded.
    pub fn new() -> (r: KeyPipeline)
        ensures
            r.wf(),
            r.state == PipelineState::Running(RoofStep::KeyFiltrele),
            r.outcomes@.len() == 0,
    {
        KeyPipeline { state: PipelineState::Running(RoofStep::KeyFiltrele), outcomes: Vec::new() }
    }

    /// The stage whose outside work must be performed next; nothing when
    /// the pipeline is finished or halted.
    pub fn current_step(&self) -> (r: Option<RoofStep>)
        ensures
            match self.state {
                PipelineState::Running(s) => r == Some(s),
                PipelineState::Done => r is None,
                PipelineState::Failed(_) => r is None,
            },
    {
        match self.state {
            PipelineState::Running(s) => Some(s),
            PipelineState::Done => None,
            PipelineState::Failed(_) => None,
        }
    }

    /// Records the outcome of the stage the machine stands on and moves:
    /// success advances to the next stage (or finishes after apply);
    /// failure halts the whole key immediately, so no later stage can be
    /// recorded.
    pub fn record(&mut self, result: Result<(), String>)
        requires
            old(self).wf(),
            old(self).state is Running,
        ensures
            final(self).wf(),
            final(self).outcomes@ == old(self).outcomes@.push(
                RoofStepResult { step: running_step(old(self).state), result },
            ),
            result is Ok ==> final(self).state == (match spec_next_step(
                running_step(old(self).state),
            ) {
                Some(n) => PipelineState::Running(n),
                None => PipelineState::Done,
            }),
            result is Err ==> final(self).state == PipelineState::Failed(
                running_step(old(self).state),
            ),
    {
        let step = match self.state {
            PipelineState::Running(s) => s,
            PipelineState::Done => RoofStep::KeyFiltrele,
            PipelineState::Failed(s) => s,
        };
        let ok = result.is_ok();
        self.outcomes.push(RoofStepResult { step, result });
        if ok {
            self.state = match step {
                RoofStep::KeyFiltrele => PipelineState::Running(RoofStep::MenuGetir),
                RoofStep::MenuGetir => PipelineState::Running(RoofStep::Flagger),
                RoofStep::Flagger => PipelineState::Running(RoofStep::IstekAt),
                RoofStep::IstekAt => PipelineState::Done,
            };
        } else {
            self.state = PipelineState::Failed(step);
        }
    }
}

/// The apply stage is unreachable past a failure: whenever a well-formed
/// pipeline holds an apply outcome, the fetch and flag stages stand
/// before it and both succeeded.
pub proof fn lemma_apply_only_after_success(p: KeyPipeline, i: int)
    requires
        p.wf(),
        0 <= i < p.outcomes@.len(),
        p.outcomes@[i].step == RoofStep::IstekAt,
    ensures
        i == 3,
        p.outcomes@.len() == 4,
        p.outcomes@[1].step == RoofStep::MenuGetir,
        p.outcomes@[1].result is Ok,
        p.outcomes@[2].step == RoofStep::Flagger,
        p.outcomes@[2].result is Ok,
{
    assert(p.outcomes@[i].step == step_of_index(i));
}

/// A well-formed pipeline records at most four outcomes — exactly four
/// when it finished, fewer when it halted early.
pub proof fn lemma_outcome_count(p: KeyPipeline)
    requires
        p.wf(),
    ensures
        p.outcomes@.len() <= 4,
        p.state is Done ==> p.outcomes@.len() == 4,
        p.state is Failed ==> p.outcomes@.len() <= 4,
{
}

/// The outcomes recorded by a batch of pipelines, counted over all keys.
pub open spec fn total_outcomes(ps: Seq<KeyPipeline>) -> int
    decreases ps.len(),
{
    if ps.len() == 0 {
        0
    } else {
        total_outcomes(ps.drop_last()) + ps.last().outcomes@.len()
    }
}

/// N independent keys produce at most N times four outcome records,
/// whatever order the keys ran or interleaved in.
pub proof fn lemma_batch_outcome_bound(ps: Seq<KeyPipeline>)
    requires
        forall|i: int| 0 <= i < ps.len() ==> (#[trigger] ps[i]).wf(),
    ensures
        total_outcomes(ps) <= 4 * ps.len(),
    decreases ps.len(),
{
    if ps.len() > 0 {
        assert(forall|i: int|
            0 <= i < ps.drop_last().len() ==> (#[trigger] ps.drop_last()[i]).wf());
        lemma_batch_outcome_bound(ps.drop_last());
        assert(ps.last() == ps[ps.len() - 1]);
        lemma_outcome_count(ps.last());
    }
}

/// The retry policy: how often a retryable stage may be attempted again.
/// The bound and the delay between attempts are configuration, not fixed
/// constants.
#[derive(Clone, Copy, Debug, PartialEq, Eq, Structural)]
pub struct RetryPolicy {
    pub max_retries: u32,
    pub delay_ms: u64,
}

/// True of the stages whose outside calls the policy retries: menu fetch
/// and apply.
pub open spec fn spec_stage_retries(s: RoofStep) -> bool {
    s == RoofStep::MenuGetir || s == RoofStep::IstekAt
}

impl RetryPolicy {
    /// Whether a failed attempt should be tried again: only the fetch and
    /// apply stages retry, only retryable failures are retried, and only
    /// while the bounded count is not exhausted. Non-retryable failures
    /// and exhausted budgets halt the stage immediately.
    pub fn may_retry(&self, step: RoofStep, class: ResponseClass, retries_done: u32) -> (r: bool)
        ensures
            r <==> (spec_stage_retries(step) && class == ResponseClass::Retryable && retries_done
                < self.max_retries),
    {
        let stage_ok = match step {
            RoofStep::MenuGetir => true,
            RoofStep::IstekAt => true,
            RoofStep::KeyFiltrele => false,
            RoofStep::Flagger => false,
        };
        let class_ok = match class {
            ResponseClass::Retryable => true,
            ResponseClass::Success => false,
            ResponseClass::NonRetryable => false,
        };
        stage_ok && class_ok && retries_done < self.max_retries
    }
}

} // verus!
