use vstd::prelude::*;

verus! {

/// Pixels per inch of the capture geometry: margins given in pixels are
/// divided by this to obtain inches.
pub const PX_PER_INCH: u32 = 96;

/// The parameters of one PDF capture: background graphics on, portrait
/// orientation, US-letter paper (given in thousandths of an inch), all four
/// margins equal (given in pixels, to be divided by `PX_PER_INCH` for
/// inches), and CSS-declared page size preferred when present.
#[derive(Clone, Copy, PartialEq, Eq, Structural, Debug)]
pub struct CaptureRequest {
    pub print_background: bool,
    pub landscape: bool,
    pub paper_width_thou_in: u32,
    pub paper_height_thou_in: u32,
    pub margin_top_px: u32,
    pub margin_bottom_px: u32,
    pub margin_left_px: u32,
    pub margin_right_px: u32,
    pub prefer_css_page_size: bool,
}

/// Build the capture request for one conversion: all four margins carry the
/// requested pixel value; everything else is fixed.
pub fn capture_request(margin_px: u32) -> (r: CaptureRequest)
    ensures
        r.print_background,
        !r.landscape,
        r.paper_width_thou_in == 8500,
        r.paper_height_thou_in == 11000,
        r.margin_top_px == margin_px,
        r.margin_bottom_px == margin_px,
        r.margin_left_px == margin_px,
        r.margin_right_px == margin_px,
        r.prefer_css_page_size,
{
    CaptureRequest {
        print_background: true,
        landscape: false,
        paper_width_thou_in: 8500,
        paper_height_thou_in: 11000,
        margin_top_px: margin_px,
        margin_bottom_px: margin_px,
        margin_left_px: margin_px,
        margin_right_px: margin_px,
        prefer_css_page_size: true,
    }
}

/// One outward step of the render-to-PDF protocol, to be performed by the
/// caller driving the rendering engine.
#[derive(Clone, Copy, PartialEq, Eq, Structural, Debug)]
pub enum PdfStep {
    WriteArtifact,
    LaunchEngine,
    OpenPage,
    Navigate,
    Settle,
    Capture,
    WriteOutput,
    DeleteArtifact,
    CloseEngine,
}

/// How far the protocol has come. The stages through `Saving` form the
/// success path; `Deleting` and `Closing` are the cleanup tail that every
/// run passes through, whether it failed or not.
#[derive(Clone, Copy, PartialEq, Eq, Structural, Debug)]
pub enum PdfStage {
    Writing,
    Launching,
    Opening,
    Navigating,
    Settling,
    Capturing,
    Saving,
    Deleting,
    Closing,
    Done,
}

/// The controller state of one conversion's render-to-PDF protocol:
/// the current stage, whether the temporary artifact may exist on disk,
/// whether the engine handle is live, and whether any step has failed.
#[derive(Clone, Copy, PartialEq, Eq, Structural, Debug)]
pub struct PdfState {
    pub stage: PdfStage,
    pub artifact: bool,
    pub engine: bool,
    pub failed: bool,
}

pub open spec fn initial_pdf_state() -> PdfState {
    PdfState { stage: PdfStage::Writing, artifact: false, engine: false, failed: false }
}

/// The action to perform in the given state: the step of the current
/// stage, skipping a cleanup step whose resource was never acquired, and
/// nothing when the run is over.
pub open spec fn spec_pdf_action(s: PdfState) -> Option<PdfStep> {
    match s.stage {
        PdfStage::Writing => Some(PdfStep::WriteArtifact),
        PdfStage::Launching => Some(PdfStep::LaunchEngine),
        PdfStage::Opening => Some(PdfStep::OpenPage),
        PdfStage::Navigating => Some(PdfStep::Navigate),
        PdfStage::Settling => Some(PdfStep::Settle),
        PdfStage::Capturing => Some(PdfStep::Capture),
        PdfStage::Saving => Some(PdfStep::WriteOutput),
        PdfStage::Deleting => if s.artifact {
            Some(PdfStep::DeleteArtifact)
        } else {
            None
        },
        PdfStage::Closing => if s.engine {
            Some(PdfStep::CloseEngine)
        } else {
            None
        },
        PdfStage::Done => None,
    }
}

/// The transition on the outcome of the last action. Success walks the
/// success path; any failure turns to the cleanup tail with the failure
/// recorded. Writing the artifact marks it as possibly on disk even when
/// the write failed; launching marks the engine live only on success.
pub open spec fn spec_pdf_advance(s: PdfState, ok: bool) -> PdfState {
    match s.stage {
        PdfStage::Writing => if ok {
            PdfState { stage: PdfStage::Launching, artifact: true, engine: s.engine, failed: s.failed }
        } else {
            PdfState { stage: PdfStage::Deleting, artifact: true, engine: s.engine, failed: true }
        },
        PdfStage::Launching => if ok {
            PdfState { stage: PdfStage::Opening, artifact: s.artifact, engine: true, failed: s.failed }
        } else {
            PdfState { stage: PdfStage::Deleting, artifact: s.artifact, engine: s.engine, failed: true }
        },
        PdfStage::Opening => if ok {
            PdfState { stage: PdfStage::Navigating, ..s }
        } else {
            PdfState { stage: PdfStage::Deleting, artifact: s.artifact, engine: s.engine, failed: true }
        },
        PdfStage::Navigating => if ok {
            PdfState { stage: PdfStage::Settling, ..s }
        } else {
            PdfState { stage: PdfStage::Deleting, artifact: s.artifact, engine: s.engine, failed: true }
        },
        PdfStage::Settling => if ok {
            PdfState { stage: PdfStage::Capturing, ..s }
        } else {
            PdfState { stage: PdfStage::Deleting, artifact: s.artifact, engine: s.engine, failed: true }
        },
        PdfStage::Capturing => if ok {
            PdfState { stage: PdfStage::Saving, ..s }
        } else {
            PdfState { stage: PdfStage::Deleting, artifact: s.artifact, engine: s.engine, failed: true }
        },
        PdfStage::Saving => PdfState {
            stage: PdfStage::Deleting,
            artifact: s.artifact,
            engine: s.engine,
            failed: s.failed || !ok,
        },
        PdfStage::Deleting => PdfState {
            stage: PdfStage::Closing,
            artifact: if ok {
                false
            } else {
                s.artifact
            },
            engine: s.engine,
            failed: s.failed || !ok,
        },
        PdfStage::Closing => PdfState {
            stage: PdfStage::Done,
            artifact: s.artifact,
            engine: if ok {
                false
            } else {
                s.engine
            },
            failed: s.failed || !ok,
        },
        PdfStage::Done => s,
    }
}

/// Start the protocol for one conversion.
pub fn pdf_start() -> (s: PdfState)
    ensures
        s == initial_pdf_state(),
{
    PdfState { stage: PdfStage::Writing, artifact: false, engine: false, failed: false }
}

/// What to do next; `None` when there is nothing to perform in this state.
pub fn pdf_action(s: &PdfState) -> (a: Option<PdfStep>)
    ensures
        a == spec_pdf_action(*s),
{
    match s.stage {
        PdfStage::Writing => Some(PdfStep::WriteArtifact),
        PdfStage::Launching => Some(PdfStep::LaunchEngine),
        PdfStage::Opening => Some(PdfStep::OpenPage),
        PdfStage::Navigating => Some(PdfStep::Navigate),
        PdfStage::Settling => Some(PdfStep::Settle),
        PdfStage::Capturing => Some(PdfStep::Capture),
        PdfStage::Saving => Some(PdfStep::WriteOutput),
        PdfStage::Deleting => if s.artifact {
            Some(PdfStep::DeleteArtifact)
        } else {
            None
        },
        PdfStage::Closing => if s.engine {
            Some(PdfStep::CloseEngine)
        } else {
            None
        },
        PdfStage::Done => None,
    }
}

/// Advance on the outcome of the last action (`true` for success). A
/// skipped action advances with `true`.
pub fn pdf_advance(s: PdfState, ok: bool) -> (r: PdfState)
    ensures
        r == spec_pdf_advance(s, ok),
{
    match s.stage {
        PdfStage::Writing => if ok {
            PdfState { stage: PdfStage::Launching, artifact: true, engine: s.engine, failed: s.failed }
        } else {
            PdfState { stage: PdfStage::Deleting, artifact: true, engine: s.engine, failed: true }
        },
        PdfStage::Launching => if ok {
            PdfState { stage: PdfStage::Opening, artifact: s.artifact, engine: true, failed: s.failed }
        } else {
            PdfState { stage: PdfStage::Deleting, artifact: s.artifact, engine: s.engine, failed: true }
        },
        PdfStage::Opening => if ok {
            PdfState { stage: PdfStage::Navigating, ..s }
        } else {
            PdfState { stage: PdfStage::Deleting, artifact: s.artifact, engine: s.engine, failed: true }
        },
        PdfStage::Navigating => if ok {
            PdfState { stage: PdfStage::Settling, ..s }
        } else {
            PdfState { stage: PdfStage::Deleting, artifact: s.artifact, engine: s.engine, failed: true }
        },
        PdfStage::Settling => if ok {
            PdfState { stage: PdfStage::Capturing, ..s }
        } else {
            PdfState { stage: PdfStage::Deleting, artifact: s.artifact, engine: s.engine, failed: true }
        },
        PdfStage::Capturing => if ok {
            PdfState { stage: PdfStage::Saving, ..s }
        } else {
            PdfState { stage: PdfStage::Deleting, artifact: s.artifact, engine: s.engine, failed: true }
        },
        PdfStage::Saving => PdfState {
            stage: PdfStage::Deleting,
            artifact: s.artifact,
            engine: s.engine,
            failed: s.failed || !ok,
        },
        PdfStage::Deleting => PdfState {
            stage: PdfStage::Closing,
            artifact: if ok {
                false
            } else {
                s.artifact
            },
            engine: s.engine,
            failed: s.failed || !ok,
        },
        PdfStage::Closing => PdfState {
            stage: PdfStage::Done,
            artifact: s.artifact,
            engine: if ok {
                false
            } else {
                s.engine
            },
            failed: s.failed || !ok,
        },
        PdfStage::Done => s,
    }
}

/// Whether the run is over.
pub fn pdf_done(s: &PdfState) -> (b: bool)
    ensures
        b == (s.stage is Done),
{
    match s.stage {
        PdfStage::Done => true,
        _ => false,
    }
}

/// Whether any step of the run failed.
pub fn pdf_failed(s: &PdfState) -> (b: bool)
    ensures
        b == s.failed,
{
    s.failed
}

/// How many advances the machine can still make before `Done`.
pub open spec fn pdf_rank(s: PdfState) -> nat {
    match s.stage {
        PdfStage::Writing => 9,
        PdfStage::Launching => 8,
        PdfStage::Opening => 7,
        PdfStage::Navigating => 6,
        PdfStage::Settling => 5,
        PdfStage::Capturing => 4,
        PdfStage::Saving => 3,
        PdfStage::Deleting => 2,
        PdfStage::Closing => 1,
        PdfStage::Done => 0,
    }
}

/// The ordered list of steps a run performs from state `s`, one outcome
/// consumed per advance, skipped actions omitted.
pub open spec fn run_steps(s: PdfState, outs: Seq<bool>) -> Seq<PdfStep>
    decreases outs.len(),
{
    if outs.len() == 0 || s.stage is Done {
        Seq::empty()
    } else {
        let head = match spec_pdf_action(s) {
            Option::Some(a) => seq![a],
            Option::None => Seq::<PdfStep>::empty(),
        };
        head + run_steps(spec_pdf_advance(s, outs[0]), outs.drop_first())
    }
}

/// The state a run ends in from state `s` on the given outcomes.
pub open spec fn run_state(s: PdfState, outs: Seq<bool>) -> PdfState
    decreases outs.len(),
{
    if outs.len() == 0 || s.stage is Done {
        s
    } else {
        run_state(spec_pdf_advance(s, outs[0]), outs.drop_first())
    }
}

/// Law: every run ends. Given at least as many outcomes as the rank of its
/// state, the machine reaches `Done`, whatever the outcomes are.
pub proof fn lemma_run_completes(s: PdfState, outs: Seq<bool>)
    requires
        outs.len() >= pdf_rank(s),
    ensures
        run_state(s, outs).stage is Done,
    decreases outs.len(),
{
    if !(s.stage is Done) {
        lemma_advance_rank(s, outs[0]);
        lemma_run_completes(spec_pdf_advance(s, outs[0]), outs.drop_first());
    }
}

pub proof fn lemma_advance_rank(s: PdfState, ok: bool)
    requires
        !(s.stage is Done),
    ensures
        pdf_rank(spec_pdf_advance(s, ok)) < pdf_rank(s),
{
}

proof fn lemma_contains_tail(a: PdfStep, rest: Seq<PdfStep>, x: PdfStep)
    requires
        (seq![a] + rest).contains(x),
        a != x,
    ensures
        rest.contains(x),
{
    let t = seq![a] + rest;
    let i = choose|i: int| 0 <= i < t.len() && t[i] == x;
    assert(rest[i - 1] == x);
}

/// Law: the temporary artifact never leaks. From any state in which the
/// artifact may exist and deletion is still ahead, every run that is given
/// enough outcomes to finish performs the deletion, whatever the outcomes
/// are.
pub proof fn lemma_artifact_always_deleted(s: PdfState, outs: Seq<bool>)
    requires
        s.artifact,
        pdf_rank(s) >= 2,
        outs.len() >= pdf_rank(s),
    ensures
        run_steps(s, outs).contains(PdfStep::DeleteArtifact),
    decreases outs.len(),
{
    if s.stage is Deleting {
        assert(run_steps(s, outs)[0] == PdfStep::DeleteArtifact);
    } else {
        let s2 = spec_pdf_advance(s, outs[0]);
        lemma_advance_rank(s, outs[0]);
        lemma_artifact_always_deleted(s2, outs.drop_first());
        let head = match spec_pdf_action(s) {
            Option::Some(a) => seq![a],
            Option::None => Seq::<PdfStep>::empty(),
        };
        let rest = run_steps(s2, outs.drop_first());
        let j = choose|j: int| 0 <= j < rest.len() && rest[j] == PdfStep::DeleteArtifact;
        assert(run_steps(s, outs)[head.len() + j] == PdfStep::DeleteArtifact);
    }
}

/// Law: the engine handle never leaks. From any state in which the engine
/// is live and teardown is still ahead, every run that is given enough
/// outcomes to finish tears the handle down, whatever the outcomes are.
pub proof fn lemma_engine_always_closed(s: PdfState, outs: Seq<bool>)
    requires
        s.engine,
        pdf_rank(s) >= 1,
        outs.len() >= pdf_rank(s),
    ensures
        run_steps(s, outs).contains(PdfStep::CloseEngine),
    decreases outs.len(),
{
    if s.stage is Closing {
        assert(run_steps(s, outs)[0] == PdfStep::CloseEngine);
    } else {
        let s2 = spec_pdf_advance(s, outs[0]);
        lemma_advance_rank(s, outs[0]);
        lemma_engine_always_closed(s2, outs.drop_first());
        let head = match spec_pdf_action(s) {
            Option::Some(a) => seq![a],
            Option::None => Seq::<PdfStep>::empty(),
        };
        let rest = run_steps(s2, outs.drop_first());
        let j = choose|j: int| 0 <= j < rest.len() && rest[j] == PdfStep::CloseEngine;
        assert(run_steps(s, outs)[head.len() + j] == PdfStep::CloseEngine);
    }
}

/// Law: once a step has failed the run is in its cleanup tail, and a run
/// in the cleanup tail never writes the output file.
pub proof fn lemma_failed_run_writes_no_output(s: PdfState, outs: Seq<bool>)
    requires
        s.stage is Deleting || s.stage is Closing || s.stage is Done,
    ensures
        !run_steps(s, outs).contains(PdfStep::WriteOutput),
    decreases outs.len(),
{
    if outs.len() == 0 || s.stage is Done {
    } else {
        lemma_failed_run_writes_no_output(spec_pdf_advance(s, outs[0]), outs.drop_first());
        let head = match spec_pdf_action(s) {
            Option::Some(a) => seq![a],
            Option::None => Seq::<PdfStep>::empty(),
        };
        let rest = run_steps(spec_pdf_advance(s, outs[0]), outs.drop_first());
        assert forall|i: int|
            0 <= i < run_steps(s, outs).len() implies run_steps(s, outs)[i]
            != PdfStep::WriteOutput by {
            if i >= head.len() {
                assert(run_steps(s, outs)[i] == rest[i - head.len()]);
            }
        }
    }
}

/// Law: the output file is written only when every step up to and
/// including the capture succeeded.
pub proof fn lemma_output_only_after_success(outs: Seq<bool>)
    requires
        run_steps(initial_pdf_state(), outs).contains(PdfStep::WriteOutput),
    ensures
        outs.len() >= 7,
        forall|i: int| 0 <= i < 6 ==> outs[i],
    decreases outs.len(),
{
    lemma_output_prefix(initial_pdf_state(), outs, 0);
}

/// Helper for the law above, walking the success path: from a success-path
/// state other than `Saving`, a run that writes the output must take its
/// first outcome as a success.
proof fn lemma_output_prefix(s: PdfState, outs: Seq<bool>, depth: int)
    requires
        run_steps(s, outs).contains(PdfStep::WriteOutput),
        pdf_rank(s) >= 3,
        depth == 9 - pdf_rank(s),
    ensures
        outs.len() >= pdf_rank(s) - 2,
        forall|i: int| 0 <= i < pdf_rank(s) - 3 ==> outs[i],
    decreases outs.len(),
{
    assert(outs.len() > 0);
    let head = match spec_pdf_action(s) {
        Option::Some(a) => seq![a],
        Option::None => Seq::<PdfStep>::empty(),
    };
    let s2 = spec_pdf_advance(s, outs[0]);
    let rest = run_steps(s2, outs.drop_first());
    if s.stage is Saving {
    } else {
        assert(spec_pdf_action(s) matches Some(a) && a != PdfStep::WriteOutput);
        lemma_contains_tail(spec_pdf_action(s)->Some_0, rest, PdfStep::WriteOutput);
        if !outs[0] {
            lemma_failed_run_writes_no_output(s2, outs.drop_first());
            assert(false);
        }
        lemma_output_prefix(s2, outs.drop_first(), depth + 1);
        assert forall|i: int| 0 <= i < pdf_rank(s) - 3 implies outs[i] by {
            if i > 0 {
                assert(outs.drop_first()[i - 1]);
            }
        }
    }
}

} // verus!
