use vstd::prelude::*;

use crate::failure::{class_of, Failure, FailureClass, Stage};
use crate::mode::{is_supported, supported, ProofMode};

verus! {

/// What the backend reports after running one stage.
#[derive(Clone, Copy, Debug, PartialEq, Eq, Structural)]
pub enum StageOutcome {
    /// The stage succeeded; `cycles` is the cycle count that it measured
    /// (read only after the core stage).
    Done { cycles: u64 },
    /// The stage failed in the backend or its surroundings.
    Failed,
    /// The backend refused the stage because of the request: the payload or
    /// the program could not be used.
    Rejected,
}

/// What the driver of the pipeline must do next.
#[derive(Clone, Copy, Debug, PartialEq, Eq, Structural)]
pub enum Action {
    /// Run this stage on the backend and report its outcome.
    Run(Stage),
    /// The proof of `mode` is complete; report `cycles` with it.
    Finish { mode: ProofMode, cycles: u64 },
    /// Stop: the request failed for this cause.
    Fail(Failure),
}

/// The progress of one proof request through the stages.
#[derive(Clone, Copy, Debug, PartialEq, Eq, Structural)]
pub struct Pipeline {
    /// The mode that was asked for.
    pub mode: ProofMode,
    /// The stage being run, or `None` once the request has ended.
    pub stage: Option<Stage>,
    /// The cycle count measured by the core stage (zero before it).
    pub cycles: u64,
}

impl Pipeline {
    /// A pipeline that can still run: its mode is one that it produces.
    pub open spec fn wf(self) -> bool {
        supported(self.mode)
    }

    /// Whether the request has ended.
    pub open spec fn ended(self) -> bool {
        self.stage is None
    }
}

/// The state in which a request for a supported mode starts.
pub open spec fn initial(mode: ProofMode) -> Pipeline {
    Pipeline { mode, stage: Some(Stage::Ready), cycles: 0 }
}

/// How the pipeline answers a request for `mode`: a mode that it does not
/// produce is refused before any backend work; otherwise the readiness check
/// runs first.
pub open spec fn start_spec(mode: ProofMode) -> Result<(Pipeline, Action), Failure> {
    if supported(mode) {
        Ok((initial(mode), Action::Run(Stage::Ready)))
    } else {
        Err(Failure::UnsupportedMode)
    }
}

/// One step of the pipeline: from the stage that ran and its outcome to the
/// next state and action.
pub open spec fn step_spec(p: Pipeline, o: StageOutcome) -> (Pipeline, Action) {
    let ended = Pipeline { stage: None, ..p };
    match p.stage {
        None => (p, Action::Fail(Failure::InvalidRequest)),
        Some(s) => match o {
            StageOutcome::Rejected => (ended, Action::Fail(Failure::InvalidRequest)),
            StageOutcome::Failed => if s == Stage::Ready {
                (ended, Action::Fail(Failure::BackendNotReady))
            } else {
                (ended, Action::Fail(Failure::StageFailed(s)))
            },
            StageOutcome::Done { cycles } => match s {
                Stage::Ready => (Pipeline { stage: Some(Stage::Core), ..p }, Action::Run(Stage::Core)),
                Stage::Core => (
                    Pipeline { stage: Some(Stage::Compress), cycles, ..p },
                    Action::Run(Stage::Compress),
                ),
                Stage::Compress => if p.mode == ProofMode::Compressed {
                    (ended, Action::Finish { mode: ProofMode::Compressed, cycles: p.cycles })
                } else {
                    (Pipeline { stage: Some(Stage::Shrink), ..p }, Action::Run(Stage::Shrink))
                },
                Stage::Shrink => (Pipeline { stage: Some(Stage::Wrap), ..p }, Action::Run(Stage::Wrap)),
                Stage::Wrap => (
                    Pipeline { stage: Some(Stage::Groth16Wrap), ..p },
                    Action::Run(Stage::Groth16Wrap),
                ),
                Stage::Groth16Wrap => (ended, Action::Finish { mode: ProofMode::Groth16, cycles: 0 }),
            },
        },
    }
}

impl Pipeline {
    /// Begins a request for `mode`: refuses a mode that the pipeline does not
    /// produce, with no backend work; else asks for the readiness check.
    pub fn start(mode: ProofMode) -> (r: Result<(Pipeline, Action), Failure>)
        ensures
            r == start_spec(mode),
            r is Ok ==> r->Ok_0.0.wf(),
    {
        if is_supported(mode) {
            Ok((Pipeline { mode, stage: Some(Stage::Ready), cycles: 0 }, Action::Run(Stage::Ready)))
        } else {
            Err(Failure::UnsupportedMode)
        }
    }

    /// Takes the outcome of the stage that ran and returns the next action; a
    /// failed stage ends the request.
    pub fn step(&mut self, o: StageOutcome) -> (a: Action)
        requires
            old(self).wf(),
            !old(self).ended(),
        ensures
            (*final(self), a) == step_spec(*old(self), o),
            final(self).wf(),
            final(self).mode == old(self).mode,
            o is Failed ==> final(self).ended() && a is Fail && class_of(a->Fail_0)
                == FailureClass::Transient,
            o is Rejected ==> final(self).ended() && a == Action::Fail(Failure::InvalidRequest)
                && class_of(a->Fail_0) == FailureClass::Permanent,
            a is Run <==> !final(self).ended(),
    {
        let s = match self.stage {
            Some(s) => s,
            None => {
                return Action::Fail(Failure::InvalidRequest);
            },
        };
        match o {
            StageOutcome::Rejected => {
                self.stage = None;
                Action::Fail(Failure::InvalidRequest)
            },
            StageOutcome::Failed => {
                self.stage = None;
                match s {
                    Stage::Ready => Action::Fail(Failure::BackendNotReady),
                    _ => Action::Fail(Failure::StageFailed(s)),
                }
            },
            StageOutcome::Done { cycles } => match s {
                Stage::Ready => {
                    self.stage = Some(Stage::Core);
                    Action::Run(Stage::Core)
                },
                Stage::Core => {
                    self.stage = Some(Stage::Compress);
                    self.cycles = cycles;
                    Action::Run(Stage::Compress)
                },
                Stage::Compress => {
                    match self.mode {
                        ProofMode::Compressed => {
                            self.stage = None;
                            Action::Finish { mode: ProofMode::Compressed, cycles: self.cycles }
                        },
                        _ => {
                            self.stage = Some(Stage::Shrink);
                            Action::Run(Stage::Shrink)
                        },
                    }
                },
                Stage::Shrink => {
                    self.stage = Some(Stage::Wrap);
                    Action::Run(Stage::Wrap)
                },
                Stage::Wrap => {
                    self.stage = Some(Stage::Groth16Wrap);
                    Action::Run(Stage::Groth16Wrap)
                },
                Stage::Groth16Wrap => {
                    self.stage = None;
                    Action::Finish { mode: ProofMode::Groth16, cycles: 0 }
                },
            },
        }
    }
}

/// The actions that the pipeline asks for when, from state `p`, the backend
/// reports the outcomes `outs` in turn; nothing is asked once it has ended.
pub open spec fn drive(p: Pipeline, outs: Seq<StageOutcome>) -> Seq<Action>
    decreases outs.len(),
{
    if outs.len() == 0 || p.ended() {
        Seq::empty()
    } else {
        let (q, a) = step_spec(p, outs[0]);
        seq![a].add(drive(q, outs.drop_first()))
    }
}

/// The number of stages that a request for a supported mode runs.
pub open spec fn stage_count(mode: ProofMode) -> nat {
    if mode == ProofMode::Compressed { 3 } else { 6 }
}

/// The cycle count reported with a complete proof of `mode` whose core stage
/// measured `cycles`: the final succinct wrap reports zero.
pub open spec fn reported_cycles(mode: ProofMode, cycles: u64) -> u64 {
    if mode == ProofMode::Groth16 { 0 } else { cycles }
}

/// Every supported mode, with every stage succeeding, ends in a proof of
/// exactly that mode: each earlier action runs a stage, and the last finishes
/// with the core stage's cycle count, or zero after the succinct wrap.
pub proof fn lemma_supported_mode_completes(mode: ProofMode, cycles: u64)
    requires
        supported(mode),
    ensures
        ({
            let acts = drive(
                initial(mode),
                Seq::new(stage_count(mode), |i: int| StageOutcome::Done { cycles }),
            );
            &&& acts.len() == stage_count(mode)
            &&& acts.last() == (Action::Finish { mode, cycles: reported_cycles(mode, cycles) })
            &&& forall|i: int| 0 <= i < acts.len() - 1 ==> #[trigger] acts[i] is Run
        }),
{
    let outs = Seq::new(stage_count(mode), |i: int| StageOutcome::Done { cycles });
    reveal_with_fuel(drive, 7);
    let p0 = initial(mode);
    let (p1, a1) = step_spec(p0, outs[0]);
    let (p2, a2) = step_spec(p1, outs[1]);
    let (p3, a3) = step_spec(p2, outs[2]);
    assert(outs.drop_first() =~= outs.subrange(1, outs.len() as int));
    assert(outs.drop_first().drop_first() =~= outs.subrange(2, outs.len() as int));
    assert(outs.drop_first().drop_first().drop_first() =~= outs.subrange(3, outs.len() as int));
    if mode == ProofMode::Compressed {
        assert(drive(p0, outs) =~= seq![a1, a2, a3]);
    } else {
        let (p4, a4) = step_spec(p3, outs[3]);
        let (p5, a5) = step_spec(p4, outs[4]);
        let (p6, a6) = step_spec(p5, outs[5]);
        assert(outs.subrange(3, 6).drop_first() =~= outs.subrange(4, 6));
        assert(outs.subrange(4, 6).drop_first() =~= outs.subrange(5, 6));
        assert(outs.subrange(5, 6).drop_first() =~= outs.subrange(6, 6));
        assert(drive(p0, outs) =~= seq![a1, a2, a3, a4, a5, a6]);
    }
}

/// A mode that the pipeline does not produce is refused before any backend
/// work, and the refusal is permanent.
pub proof fn lemma_unsupported_mode_refused(mode: ProofMode)
    requires
        !supported(mode),
    ensures
        start_spec(mode) == Err::<(Pipeline, Action), Failure>(Failure::UnsupportedMode),
        class_of(Failure::UnsupportedMode) == FailureClass::Permanent,
{
}

/// A failed readiness check ends the request with a transient failure, and
/// no stage runs after it, whatever the backend would report next.
pub proof fn lemma_not_ready_stops(mode: ProofMode, later: Seq<StageOutcome>)
    requires
        supported(mode),
    ensures
        drive(initial(mode), seq![StageOutcome::Failed].add(later))
            == seq![Action::Fail(Failure::BackendNotReady)],
        class_of(Failure::BackendNotReady) == FailureClass::Transient,
{
    let outs = seq![StageOutcome::Failed].add(later);
    reveal_with_fuel(drive, 2);
    assert(outs[0] == StageOutcome::Failed);
    let (q, a) = step_spec(initial(mode), outs[0]);
    assert(q.ended());
    assert(drive(q, outs.drop_first()) =~= Seq::<Action>::empty());
    assert(drive(initial(mode), outs) =~= seq![Action::Fail(Failure::BackendNotReady)]);
}

} // verus!
