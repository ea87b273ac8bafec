//! The application core: the message protocol between the background
//! recognition job and the control loop, the job dispatcher with its
//! generation counter, and the state machine that sequences image load,
//! recognition and display.
//!
//! The control loop owns an `AppCore` and drives it with messages drained
//! from the mailbox once per tick; the background context communicates
//! only through that mailbox, never through shared mutable state.

use vstd::prelude::*;

use crate::ImageInfo;
use crate::numfmt::spec_decimal;
use crate::ocr::{EngineError, OcrEngine, OcrResult, spec_engine_result, spec_no_backend_text};
use crate::ui::StatusDisplay;

verus! {

/// A message carried from a producer to the control loop.  Outcome
/// messages are tagged with the generation of the request they answer, so
/// the control loop can discard outcomes of superseded requests.
#[derive(Debug, Clone, PartialEq)]
pub enum AppMessage {
    /// The user picked an image; the payload is its path.
    ImageSelected(String),
    /// A job finished; the payload is its generation and its result.
    OcrCompleted(u64, OcrResult),
    /// A job failed; the payload is its generation and the reason.
    OcrError(u64, String),
}

/// The visible state of the application.  There is no terminal state: the
/// machine is long-lived and cycles.
#[derive(Debug, Clone, PartialEq)]
pub enum AppState {
    Idle,
    Loading,
    Processing,
    Completed,
    Error(String),
}

/// One in-flight recognition request.  A job is not cloneable and is
/// consumed when its outcome message is made, so each accepted request
/// yields at most one outcome message.
#[derive(Debug)]
pub struct Job {
    pub generation: u64,
    pub image: ImageInfo,
    pub source_path: String,
}

/// Hands out jobs tagged with strictly increasing generations.
#[derive(Debug, Clone, PartialEq, Eq, Structural)]
pub struct JobDispatcher {
    pub next_generation: u64,
}

impl JobDispatcher {
    pub fn new() -> (r: JobDispatcher)
        ensures
            r.next_generation == 1,
    {
        JobDispatcher { next_generation: 1 }
    }

    /// Accepts one request: the job carries the current generation, and
    /// the counter moves on, so no two jobs ever share a generation.
    pub fn dispatch(&mut self, image: ImageInfo, source_path: String) -> (job: Job)
        requires
            old(self).next_generation < u64::MAX,
        ensures
            job.generation == old(self).next_generation,
            job.image == image,
            job.source_path == source_path,
            final(self).next_generation == old(self).next_generation + 1,
    {
        let generation = self.next_generation;
        self.next_generation = self.next_generation + 1;
        Job { generation, image, source_path }
    }
}

impl Job {
    /// Wraps a job's outcome in the one message owed for it, consuming
    /// the job: success becomes `OcrCompleted`, failure `OcrError` with a
    /// displayable reason.
    pub fn into_message(self, outcome: Result<OcrResult, EngineError>) -> (m: AppMessage)
        ensures
            outcome matches Ok(res) ==> m == AppMessage::OcrCompleted(self.generation, res),
            outcome matches Err(e) ==> (m matches AppMessage::OcrError(g, reason) && g
                == self.generation && (e is NoBackend ==> reason@ == spec_no_backend_text()) && (
            e matches EngineError::Backend(s) ==> reason@ == s@)),
    {
        match outcome {
            Ok(res) => AppMessage::OcrCompleted(self.generation, res),
            Err(e) => AppMessage::OcrError(self.generation, e.describe()),
        }
    }
}

/// Runs one job on the engine and returns the single outcome message owed
/// for it: the engine's reading on success, the reported reason on
/// failure, never a silently dropped request.
pub fn run_job(engine: &OcrEngine, job: Job) -> (m: AppMessage)
    requires
        engine.wf(),
    ensures
        engine.spec_has_backend() ==> (m matches AppMessage::OcrCompleted(g, res) && g
            == job.generation && spec_engine_result(job.image, res)),
        !engine.spec_has_backend() ==> (m matches AppMessage::OcrError(g, reason) && g
            == job.generation && reason@ == spec_no_backend_text()),
{
    let outcome = engine.process_image(&job.image, job.source_path.as_str());
    job.into_message(outcome)
}

// ---------------------------------------------------------------------
// The mailbox.  An unbounded, ordered, multi-producer/single-consumer
// channel; the control loop drains it without blocking.
// ---------------------------------------------------------------------

/// Declares `tokio::sync::mpsc::UnboundedReceiver` so the receiving end
/// of the mailbox can be held and drained; its contents stay opaque.
#[verifier::external_type_specification]
#[verifier::external_body]
#[verifier::reject_recursive_types(T)]
pub struct ExUnboundedReceiver<T>(tokio::sync::mpsc::UnboundedReceiver<T>);

/// Relies on tokio::sync::mpsc::UnboundedReceiver::try_recv: the next
/// pending message if one is ready, and `None` when the mailbox is empty
/// or closed.  Which message arrives depends on the producers, so nothing
/// is promised of the value.
#[verifier::external_body]
fn try_recv_message(rx: &mut tokio::sync::mpsc::UnboundedReceiver<AppMessage>) -> Option<
    AppMessage,
> {
    rx.try_recv().ok()
}

/// Drains every message currently pending in the mailbox, in arrival
/// order, without blocking.
pub fn drain_mailbox(rx: &mut tokio::sync::mpsc::UnboundedReceiver<AppMessage>) -> Vec<AppMessage> {
    let mut msgs: Vec<AppMessage> = Vec::new();
    let mut fuel: usize = usize::MAX;
    while fuel > 0
        decreases fuel,
    {
        match try_recv_message(rx) {
            Some(m) => {
                msgs.push(m);
                fuel = fuel - 1;
            },
            None => {
                return msgs;
            },
        }
    }
    msgs
}

// ---------------------------------------------------------------------
// The state machine.
// ---------------------------------------------------------------------

/// The mathematical model of the application core: everything the
/// transition relation speaks of, status text aside.
pub struct CoreModel {
    pub state: AppState,
    pub path: Option<String>,
    pub image: Option<ImageInfo>,
    pub result: Option<OcrResult>,
    pub latest_generation: u64,
    pub next_generation: u64,
}

/// One step of the transition relation for a received message.
///
/// A new selection supersedes whatever was in flight, from any state.  An
/// outcome message applies only while a job is awaited and only when its
/// generation is the latest accepted one; any other outcome is stale and
/// is discarded without a visible change.
pub open spec fn spec_step(m: CoreModel, msg: AppMessage) -> CoreModel {
    match msg {
        AppMessage::ImageSelected(p) => CoreModel {
            state: AppState::Loading,
            path: Some(p),
            result: None,
            ..m
        },
        AppMessage::OcrCompleted(gen, res) => if m.state is Processing && gen
            == m.latest_generation {
            CoreModel { state: AppState::Completed, result: Some(res), ..m }
        } else {
            m
        },
        AppMessage::OcrError(gen, reason) => if m.state is Processing && gen
            == m.latest_generation {
            CoreModel { state: AppState::Error(reason), ..m }
        } else {
            m
        },
    }
}

/// The transition relation folded over a whole drain pass, applying the
/// messages strictly in arrival order.
pub open spec fn spec_steps(m: CoreModel, msgs: Seq<AppMessage>) -> CoreModel
    decreases msgs.len(),
{
    if msgs.len() == 0 {
        m
    } else {
        spec_steps(spec_step(m, msgs[0]), msgs.skip(1))
    }
}

/// The step taken when the image of the latest selection has been
/// decoded: success accepts a new job under a fresh generation and awaits
/// it; failure reports the reason.
pub open spec fn spec_decode_step(m: CoreModel, outcome: Result<ImageInfo, String>) -> CoreModel {
    match outcome {
        Ok(img) => CoreModel {
            state: AppState::Processing,
            image: Some(img),
            latest_generation: m.next_generation,
            next_generation: (m.next_generation + 1) as u64,
            ..m
        },
        Err(reason) => CoreModel { state: AppState::Error(reason), ..m },
    }
}

/// The reset step: back to `Idle`, with no result retained.
pub open spec fn spec_reset(m: CoreModel) -> CoreModel {
    CoreModel { state: AppState::Idle, result: None, ..m }
}

/// Whether `msg` is the outcome of the request with generation `gen`.
pub open spec fn is_outcome_for(msg: AppMessage, gen: u64) -> bool {
    ||| msg matches AppMessage::OcrCompleted(g, _) && g == gen
    ||| msg matches AppMessage::OcrError(g, _) && g == gen
}

/// Whether `msg` is any job outcome.
pub open spec fn is_outcome(msg: AppMessage) -> bool {
    msg is OcrCompleted || msg is OcrError
}

/// A stale outcome — one whose generation is not the latest accepted
/// one — never changes the machine.
pub proof fn lemma_stale_outcome_discarded(m: CoreModel, msg: AppMessage)
    requires
        is_outcome(msg),
        !is_outcome_for(msg, m.latest_generation),
    ensures
        spec_step(m, msg) == m,
{
}

/// Once a job's outcome has been applied, the machine no longer awaits a
/// job, so every further outcome is discarded.
pub proof fn lemma_outcome_settles(m: CoreModel, msg: AppMessage, later: AppMessage)
    requires
        is_outcome(msg),
        is_outcome(later),
    ensures
        !(spec_step(m, msg).state is Processing) ==> spec_step(spec_step(m, msg), later)
            == spec_step(m, msg),
        m.state is Processing && is_outcome_for(msg, m.latest_generation) ==> spec_step(
            spec_step(m, msg),
            later,
        ) == spec_step(m, msg),
{
}

/// Superseding requests: while the machine awaits request B — the latest
/// accepted one — the outcome of an earlier request A is discarded, and
/// the machine ends in the state B's own outcome decides, whichever order
/// the two outcomes arrive in.
pub proof fn lemma_superseding_requests(m: CoreModel, stale: AppMessage, latest: AppMessage)
    requires
        m.state is Processing,
        is_outcome(stale),
        !is_outcome_for(stale, m.latest_generation),
        is_outcome(latest),
        is_outcome_for(latest, m.latest_generation),
    ensures
        spec_steps(m, seq![stale, latest]) == spec_step(m, latest),
        spec_steps(m, seq![latest, stale]) == spec_step(m, latest),
{
    reveal_with_fuel(spec_steps, 3);
    lemma_stale_outcome_discarded(m, stale);
    lemma_outcome_settles(m, latest, stale);
    assert(seq![stale, latest].skip(1) =~= seq![latest]);
    assert(seq![latest, stale].skip(1) =~= seq![stale]);
    assert(seq![latest].skip(1) =~= Seq::<AppMessage>::empty());
    assert(seq![stale].skip(1) =~= Seq::<AppMessage>::empty());
}

/// The latest request's outcome, arriving while the machine awaits it,
/// decides the final state: completion shows its result, failure its
/// reason.
pub proof fn lemma_latest_outcome_decides(m: CoreModel, res: OcrResult, reason: String)
    requires
        m.state is Processing,
    ensures
        spec_step(m, AppMessage::OcrCompleted(m.latest_generation, res)).state is Completed,
        spec_step(m, AppMessage::OcrCompleted(m.latest_generation, res)).result == Some(res),
        spec_step(m, AppMessage::OcrError(m.latest_generation, reason)).state == AppState::Error(
            reason,
        ),
{
}

/// Reset always yields `Idle` with no result retained, and resetting
/// again changes nothing more.
pub proof fn lemma_reset_idempotent(m: CoreModel)
    requires
        m.state is Completed || m.state is Error,
    ensures
        spec_reset(m).state is Idle,
        spec_reset(m).result is None,
        spec_reset(spec_reset(m)) == spec_reset(m),
{
}

// ---------------------------------------------------------------------
// Status text.  The status line is a pure function of the visible state,
// so the transition relation need not speak of it.
// ---------------------------------------------------------------------

pub open spec fn spec_loading_text() -> Seq<char> {
    "loading image..."@
}

pub open spec fn spec_processing_text() -> Seq<char> {
    "recognizing text..."@
}

/// The status line shown for a completed result: confidence as a
/// percentage with one decimal place, and the processing time.
pub open spec fn spec_success_text(r: OcrResult) -> Seq<char> {
    "recognition finished: confidence "@ + spec_decimal((r.confidence / 10) as nat) + "."@
        + spec_decimal((r.confidence % 10) as nat) + "%, time "@ + spec_decimal(
        r.processing_time as nat,
    ) + "ms"@
}

/// The status line shown for a failure, whether the image could not be
/// loaded or the job failed.
pub open spec fn spec_failure_text(reason: Seq<char>) -> Seq<char> {
    "failed: "@ + reason
}

/// Builds the completed-result status line.
fn success_text(r: &OcrResult) -> (t: String)
    ensures
        t@ == spec_success_text(*r),
{
    let mut t = "recognition finished: confidence ".to_owned();
    t.append(crate::numfmt::u64_to_decimal((r.confidence / 10) as u64).as_str());
    t.append(".");
    t.append(crate::numfmt::u64_to_decimal((r.confidence % 10) as u64).as_str());
    t.append("%, time ");
    t.append(crate::numfmt::u64_to_decimal(r.processing_time).as_str());
    t.append("ms");
    t
}

/// Builds the failure status line.
fn failure_text(reason: &str) -> (t: String)
    ensures
        t@ == spec_failure_text(reason@),
{
    let mut t = "failed: ".to_owned();
    t.append(reason);
    t
}

// ---------------------------------------------------------------------
// The application core.
// ---------------------------------------------------------------------

/// The state machine that the control loop owns: the visible state, the
/// current selection and result, the dispatcher, and the status line.
/// Mutated only through its methods, never by a background context.
pub struct AppCore {
    pub state: AppState,
    pub selected_image_path: Option<String>,
    pub current_image: Option<ImageInfo>,
    pub ocr_result: Option<OcrResult>,
    pub dispatcher: JobDispatcher,
    pub latest_generation: u64,
    pub status_display: StatusDisplay,
}

impl AppCore {
    /// The mathematical model the transition relation speaks of.
    pub open spec fn model(&self) -> CoreModel {
        CoreModel {
            state: self.state,
            path: self.selected_image_path,
            image: self.current_image,
            result: self.ocr_result,
            latest_generation: self.latest_generation,
            next_generation: self.dispatcher.next_generation,
        }
    }

    /// The status line reflects the visible state.
    pub open spec fn status_ok(&self) -> bool {
        match self.state {
            AppState::Idle => self.status_display.message@ == Seq::<char>::empty()
                && self.status_display.status_type is Empty,
            AppState::Loading => self.status_display.status_type is Info
                && self.status_display.message@ == spec_loading_text(),
            AppState::Processing => self.status_display.status_type is Info
                && self.status_display.message@ == spec_processing_text(),
            AppState::Completed => self.status_display.status_type is Success
                && (self.ocr_result matches Some(r) && self.status_display.message@
                == spec_success_text(r)),
            AppState::Error(reason) => self.status_display.status_type is Error
                && self.status_display.message@ == spec_failure_text(reason@),
        }
    }

    /// The machine is always in a well-defined state: a completed state
    /// shows a result, a loading state knows its selection, accepted
    /// generations stay below the dispatcher's counter, and the status
    /// line matches the state.
    pub open spec fn wf(&self) -> bool {
        &&& self.latest_generation < self.dispatcher.next_generation
        &&& (self.state is Completed ==> self.ocr_result is Some)
        &&& (self.state is Loading ==> self.selected_image_path is Some)
        &&& self.status_ok()
    }

    pub fn new() -> (c: AppCore)
        ensures
            c.wf(),
            c.state is Idle,
            c.ocr_result is None,
            c.selected_image_path is None,
            c.current_image is None,
            c.latest_generation == 0,
            c.model().next_generation == 1,
    {
        AppCore {
            state: AppState::Idle,
            selected_image_path: None,
            current_image: None,
            ocr_result: None,
            dispatcher: JobDispatcher::new(),
            latest_generation: 0,
            status_display: StatusDisplay::new(),
        }
    }

    /// Back to `Idle`: the result is dropped and the status cleared.  The
    /// selection, the image and the generation bookkeeping stay.
    pub fn reset_state(&mut self)
        requires
            old(self).wf(),
        ensures
            final(self).wf(),
            final(self).model() == spec_reset(old(self).model()),
            final(self).state is Idle,
            final(self).ocr_result is None,
    {
        self.state = AppState::Idle;
        self.ocr_result = None;
        self.status_display.clear();
    }

    /// Applies one received message: a new selection supersedes whatever
    /// was in flight; an outcome applies only while awaited and only for
    /// the latest accepted generation, and is discarded otherwise.
    pub fn handle_message(&mut self, msg: AppMessage)
        requires
            old(self).wf(),
        ensures
            final(self).wf(),
            final(self).model() == spec_step(old(self).model(), msg),
    {
        match msg {
            AppMessage::ImageSelected(path) => {
                self.reset_state();
                self.state = AppState::Loading;
                self.selected_image_path = Some(path);
                self.status_display.set_message("loading image...");
            },
            AppMessage::OcrCompleted(generation, result) => {
                if matches!(self.state, AppState::Processing) && generation
                    == self.latest_generation {
                    let line = success_text(&result);
                    self.status_display.set_success(line.as_str());
                    self.state = AppState::Completed;
                    self.ocr_result = Some(result);
                }
            },
            AppMessage::OcrError(generation, reason) => {
                if matches!(self.state, AppState::Processing) && generation
                    == self.latest_generation {
                    let line = failure_text(reason.as_str());
                    self.status_display.set_error(line.as_str());
                    self.state = AppState::Error(reason);
                }
            },
        }
    }

    /// Applies a whole drain pass, strictly in arrival order.
    pub fn handle_messages(&mut self, msgs: Vec<AppMessage>)
        requires
            old(self).wf(),
        ensures
            final(self).wf(),
            final(self).model() == spec_steps(old(self).model(), msgs@),
    {
        let mut rest = msgs;
        loop
            invariant
                self.wf(),
                spec_steps(old(self).model(), msgs@) == spec_steps(self.model(), rest@),
            ensures
                self.wf(),
                self.model() == spec_steps(old(self).model(), msgs@),
            decreases rest@.len(),
        {
            if rest.len() == 0 {
                break ;
            }
            let ghost before = rest@;
            let msg = rest.remove(0);
            proof {
                assert(rest@ =~= before.skip(1));
            }
            self.handle_message(msg);
        }
    }

    /// The path the control loop must decode next: the latest selection,
    /// exactly while the machine is loading it.
    pub fn pending_decode(&self) -> (r: Option<String>)
        requires
            self.wf(),
        ensures
            self.state is Loading ==> (r matches Some(p) && (self.selected_image_path matches Some(
                q,
            ) && p@ == q@)),
            !(self.state is Loading) ==> r is None,
    {
        if matches!(self.state, AppState::Loading) {
            match &self.selected_image_path {
                Some(p) => Some(p.clone()),
                None => None,
            }
        } else {
            None
        }
    }

    /// Applies the decode outcome of the latest selection: a decoded
    /// image is accepted as a new job under a fresh generation and
    /// awaited; a decode failure reports its reason and never reaches
    /// `Processing`.
    pub fn on_decode_result(&mut self, outcome: Result<ImageInfo, String>) -> (job: Option<Job>)
        requires
            old(self).wf(),
            old(self).state is Loading,
            old(self).model().next_generation < u64::MAX,
        ensures
            final(self).wf(),
            final(self).model() == spec_decode_step(old(self).model(), outcome),
            outcome matches Ok(img) ==> (job matches Some(j) && j.generation == old(
                self,
            ).model().next_generation && j.image == img && (old(
                self,
            ).selected_image_path matches Some(p) && j.source_path@ == p@)),
            outcome is Err ==> job is None,
    {
        match outcome {
            Ok(img) => {
                let path = match &self.selected_image_path {
                    Some(p) => p.clone(),
                    None => String::new(),
                };
                self.current_image = Some(img);
                let job = self.dispatcher.dispatch(img, path);
                self.latest_generation = job.generation;
                self.state = AppState::Processing;
                self.status_display.set_message("recognizing text...");
                Some(job)
            },
            Err(reason) => {
                let line = failure_text(reason.as_str());
                self.status_display.set_error(line.as_str());
                self.state = AppState::Error(reason);
                None
            },
        }
    }
}

} // verus!
