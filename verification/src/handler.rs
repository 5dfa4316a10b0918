//! The request-handler state machine: admission and exclusivity policy for
//! consensus-layer requests, delegation to the tree handler, and translation
//! of tree outcomes into events, pipeline escalations or download requests.
//!
//! Every transition of [`EngineApiRequestHandler`] is specified by a
//! mathematical step function over [`HandlerModel`], so that properties of
//! whole event sequences can be proved once over the model.

use vstd::prelude::*;

use crate::events::DownloadNeed;
use crate::events::DownloadNeedModel;
use crate::events::DownloadRequest;
use crate::events::DownloadRequestModel;
use crate::events::EngineApiEvent;
use crate::events::EngineApiRequest;
use crate::events::FromEngine;
use crate::events::FromEngineModel;
use crate::events::FromOrchestrator;
use crate::events::HandlerEvent;
use crate::events::OrchestratorState;
use crate::events::PayloadStatus;
use crate::events::RequestHandlerEvent;
use crate::events::RequestHandlerEventModel;
use crate::events::RequestOrigin;
use crate::events::SealedBlock;
use crate::events::TreeOutcome;
use crate::events::TreeOutcomeModel;
use crate::events::TreeSubmission;
use crate::events::TreeSubmissionModel;

verus! {

/// Mathematical state of the request handler.
#[verifier::ext_equal]
pub struct HandlerModel {
    /// The tracked orchestrating mode.
    pub orchestrator_state: OrchestratorState,
    /// Hashes of payload executions currently in flight, in admission order.
    pub pending_payloads: Seq<u64>,
    /// Target head of the fork-choice update currently in flight, if any.
    pub pending_fcu: Option<u64>,
    /// The single coalesced fork-choice update queued behind the active one.
    pub next_fcu: Option<u64>,
    /// Download requests emitted and not yet answered, with their origins.
    pub pending_downloads: Seq<DownloadNeedModel>,
    /// Everything handed to the tree handler, in submission order.
    pub tree_submissions: Seq<TreeSubmissionModel>,
    /// Outcomes delivered by the tree handler and not yet translated.
    pub tree_outcomes: Seq<TreeOutcomeModel>,
    /// Domain events generated during admission, awaiting the next poll.
    pub buffered_events: Seq<EngineApiEvent>,
    /// How many fork-choice submissions are no longer outstanding: completed
    /// by the tree handler, or abandoned when bulk sync began.
    pub fcu_finished: nat,
}

/// The event reporting the deferral verdict for a request that arrived while
/// bulk sync was in progress.
pub open spec fn deferred_event(req: EngineApiRequest) -> EngineApiEvent {
    match req {
        EngineApiRequest::NewPayload { hash } => EngineApiEvent::PayloadStatusReported {
            hash,
            status: PayloadStatus::Syncing,
        },
        EngineApiRequest::ForkchoiceUpdated { head } => EngineApiEvent::ForkchoiceStatusReported {
            head,
            status: PayloadStatus::Syncing,
        },
    }
}

/// Effect of a mode-transition notification: the new mode is tracked and the
/// tree handler is notified. Entering bulk sync drops all in-flight live-sync
/// work, since it has become irrelevant; the dropped active fork-choice
/// update, if any, counts as no longer outstanding.
pub open spec fn step_notification(m: HandlerModel, state: OrchestratorState) -> HandlerModel {
    let notified = HandlerModel {
        orchestrator_state: state,
        tree_submissions: m.tree_submissions.push(
            TreeSubmissionModel::StateNotification { state },
        ),
        ..m
    };
    if state is PipelineSync {
        HandlerModel {
            pending_payloads: Seq::empty(),
            pending_fcu: None,
            next_fcu: None,
            pending_downloads: Seq::empty(),
            fcu_finished: m.fcu_finished + if m.pending_fcu is Some {
                1nat
            } else {
                0nat
            },
            ..notified
        }
    } else {
        notified
    }
}

/// Effect of an external request.
///
/// While bulk sync is in progress nothing is admitted: the request is answered
/// with a `Syncing` verdict rather than buffered for replay. In live mode a
/// new payload is admitted unconditionally (a hash already pending is left as
/// it stands); a fork-choice update is admitted as the active one when none is
/// active, and otherwise coalesced into the single queued slot, replacing any
/// queued target, since only the latest finality view needs to be honored.
pub open spec fn step_request(m: HandlerModel, req: EngineApiRequest) -> HandlerModel {
    if m.orchestrator_state is PipelineSync {
        HandlerModel { buffered_events: m.buffered_events.push(deferred_event(req)), ..m }
    } else {
        match req {
            EngineApiRequest::NewPayload { hash } => {
                if m.pending_payloads.contains(hash) {
                    m
                } else {
                    HandlerModel {
                        pending_payloads: m.pending_payloads.push(hash),
                        tree_submissions: m.tree_submissions.push(
                            TreeSubmissionModel::Payload { hash },
                        ),
                        ..m
                    }
                }
            },
            EngineApiRequest::ForkchoiceUpdated { head } => {
                if m.pending_fcu is Some {
                    HandlerModel { next_fcu: Some(head), ..m }
                } else {
                    HandlerModel {
                        pending_fcu: Some(head),
                        tree_submissions: m.tree_submissions.push(
                            TreeSubmissionModel::ForkchoiceUpdate { head },
                        ),
                        ..m
                    }
                }
            },
        }
    }
}

/// Whether a downloaded batch answers a recorded download request: an explicit
/// hash list is answered by exactly those blocks in the requested order; a
/// range is answered by a parent-linked run of the requested length starting
/// at the requested hash.
pub open spec fn batch_answers(request: DownloadRequestModel, blocks: Seq<SealedBlock>) -> bool {
    match request {
        DownloadRequestModel::Blocks(hashes) => blocks.map_values(
            |b: SealedBlock| b.hash,
        ) == hashes,
        DownloadRequestModel::Range(start, count) => {
            &&& blocks.len() == count
            &&& (count > 0 ==> blocks[0].hash == start)
            &&& (forall|i: int|
                1 <= i < blocks.len() ==> blocks[i].parent_hash == blocks[i - 1].hash)
        },
    }
}

/// Index of the oldest recorded download need that the batch answers.
pub open spec fn first_match(needs: Seq<DownloadNeedModel>, blocks: Seq<SealedBlock>) -> Option<
    int,
>
    decreases needs.len(),
{
    if needs.len() == 0 {
        None
    } else if batch_answers(needs[0].request, blocks) {
        Some(0int)
    } else {
        match first_match(needs.drop_first(), blocks) {
            Some(i) => Some(i + 1),
            None => None,
        }
    }
}

/// Effect of a completed download. The batch is matched against the oldest
/// recorded need it answers and forwarded to the tree handler tagged with that
/// need's origin, so the tree handler resumes exactly the stalled operation.
/// A batch matching no recorded need is stale (for example, it answers work
/// dropped at a mode switch) and is discarded, as is any batch arriving while
/// bulk sync is in progress.
pub open spec fn step_blocks(m: HandlerModel, blocks: Seq<SealedBlock>) -> HandlerModel {
    if m.orchestrator_state is PipelineSync {
        m
    } else {
        match first_match(m.pending_downloads, blocks) {
            Some(i) => HandlerModel {
                pending_downloads: m.pending_downloads.remove(i),
                tree_submissions: m.tree_submissions.push(
                    TreeSubmissionModel::DownloadedBlocks {
                        origin: m.pending_downloads[i].origin,
                        blocks,
                    },
                ),
                ..m
            },
            None => m,
        }
    }
}

/// Effect of one inbound event.
pub open spec fn step_inbound(
    m: HandlerModel,
    event: FromEngineModel<EngineApiRequest>,
) -> HandlerModel {
    match event {
        FromEngineModel::Event(FromOrchestrator::StateChanged(state)) => step_notification(
            m,
            state,
        ),
        FromEngineModel::Request(req) => step_request(m, req),
        FromEngineModel::DownloadedBlocks(blocks) => step_blocks(m, blocks),
    }
}

/// Whether the given origin names an entry that is actually outstanding.
pub open spec fn origin_pending(m: HandlerModel, origin: RequestOrigin) -> bool {
    match origin {
        RequestOrigin::Payload(hash) => m.pending_payloads.contains(hash),
        RequestOrigin::ForkchoiceUpdate(head) => m.pending_fcu == Some(head),
    }
}

/// Effect and report of one poll of the handler: buffered admission verdicts
/// are yielded first, then the oldest untranslated tree outcome.
///
/// A terminal verdict removes its pending entry; completing the active
/// fork-choice update promotes the queued one, if any, and submits it. A
/// missing-ancestors signal records the need and asks for a download, leaving
/// the originating entry outstanding. A bulk-sync signal is escalated with all
/// pending state left untouched. An outcome naming an entry that was never
/// submitted surfaces as an unrecoverable fault event.
pub open spec fn step_poll(m: HandlerModel) -> (HandlerModel, RequestHandlerEventModel<
    EngineApiEvent,
>) {
    if m.buffered_events.len() > 0 {
        (
            HandlerModel { buffered_events: m.buffered_events.drop_first(), ..m },
            RequestHandlerEventModel::HandlerEvent(HandlerEvent::Event(m.buffered_events[0])),
        )
    } else if m.tree_outcomes.len() > 0 {
        let rest = HandlerModel { tree_outcomes: m.tree_outcomes.drop_first(), ..m };
        match m.tree_outcomes[0] {
            TreeOutcomeModel::PayloadProcessed { hash, status } => {
                if m.pending_payloads.contains(hash) {
                    (
                        HandlerModel {
                            pending_payloads: rest.pending_payloads.remove_value(hash),
                            ..rest
                        },
                        RequestHandlerEventModel::HandlerEvent(
                            HandlerEvent::Event(
                                EngineApiEvent::PayloadStatusReported { hash, status },
                            ),
                        ),
                    )
                } else {
                    (
                        rest,
                        RequestHandlerEventModel::HandlerEvent(
                            HandlerEvent::Event(
                                EngineApiEvent::UnexpectedTreeOutcome {
                                    origin: RequestOrigin::Payload(hash),
                                },
                            ),
                        ),
                    )
                }
            },
            TreeOutcomeModel::ForkchoiceProcessed { head, status } => {
                if m.pending_fcu == Some(head) {
                    let promoted = match m.next_fcu {
                        Some(next) => HandlerModel {
                            pending_fcu: Some(next),
                            next_fcu: None,
                            tree_submissions: rest.tree_submissions.push(
                                TreeSubmissionModel::ForkchoiceUpdate { head: next },
                            ),
                            fcu_finished: m.fcu_finished + 1,
                            ..rest
                        },
                        None => HandlerModel {
                            pending_fcu: None,
                            fcu_finished: m.fcu_finished + 1,
                            ..rest
                        },
                    };
                    (
                        promoted,
                        RequestHandlerEventModel::HandlerEvent(
                            HandlerEvent::Event(
                                EngineApiEvent::ForkchoiceStatusReported { head, status },
                            ),
                        ),
                    )
                } else {
                    (
                        rest,
                        RequestHandlerEventModel::HandlerEvent(
                            HandlerEvent::Event(
                                EngineApiEvent::UnexpectedTreeOutcome {
                                    origin: RequestOrigin::ForkchoiceUpdate(head),
                                },
                            ),
                        ),
                    )
                }
            },
            TreeOutcomeModel::MissingBlocks { origin, request } => {
                if origin_pending(m, origin) {
                    (
                        HandlerModel {
                            pending_downloads: rest.pending_downloads.push(
                                DownloadNeedModel { request, origin },
                            ),
                            ..rest
                        },
                        RequestHandlerEventModel::Download(request),
                    )
                } else {
                    (
                        rest,
                        RequestHandlerEventModel::HandlerEvent(
                            HandlerEvent::Event(EngineApiEvent::UnexpectedTreeOutcome { origin }),
                        ),
                    )
                }
            },
            TreeOutcomeModel::BulkSyncNeeded { target } => (
                rest,
                RequestHandlerEventModel::HandlerEvent(HandlerEvent::Pipeline(target)),
            ),
        }
    } else {
        (m, RequestHandlerEventModel::Idle)
    }
}

/// Effect of the tree handler delivering one outcome.
pub open spec fn enqueue_outcome(m: HandlerModel, outcome: TreeOutcomeModel) -> HandlerModel {
    HandlerModel { tree_outcomes: m.tree_outcomes.push(outcome), ..m }
}

/// How many fork-choice updates have been submitted to the tree handler.
pub open spec fn count_fcu_submissions(s: Seq<TreeSubmissionModel>) -> nat
    decreases s.len(),
{
    if s.len() == 0 {
        0nat
    } else {
        count_fcu_submissions(s.drop_last()) + if s.last() is ForkchoiceUpdate {
            1nat
        } else {
            0nat
        }
    }
}

/// How many fork-choice submissions are still outstanding to the tree
/// handler.
pub open spec fn outstanding_fcu_submissions(m: HandlerModel) -> int {
    count_fcu_submissions(m.tree_submissions) - m.fcu_finished
}

/// Well-formedness of the handler state: no payload is pending twice, a
/// fork-choice update is queued only behind an active one, bulk sync leaves no
/// live-sync work pending, and the submission log accounts for exactly the
/// finished fork-choice updates plus the active one.
pub open spec fn handler_inv(m: HandlerModel) -> bool {
    &&& m.pending_payloads.no_duplicates()
    &&& (m.next_fcu is Some ==> m.pending_fcu is Some)
    &&& (m.orchestrator_state is PipelineSync ==> m.pending_payloads.len() == 0
        && m.pending_fcu is None && m.next_fcu is None && m.pending_downloads.len() == 0)
    &&& count_fcu_submissions(m.tree_submissions) == m.fcu_finished + if m.pending_fcu is Some {
        1nat
    } else {
        0nat
    }
}

/// The state of a freshly constructed handler: live mode, nothing pending,
/// nothing submitted.
pub open spec fn init_handler_model() -> HandlerModel {
    HandlerModel {
        orchestrator_state: OrchestratorState::Live,
        pending_payloads: Seq::empty(),
        pending_fcu: None,
        next_fcu: None,
        pending_downloads: Seq::empty(),
        tree_submissions: Seq::empty(),
        tree_outcomes: Seq::empty(),
        buffered_events: Seq::empty(),
        fcu_finished: 0nat,
    }
}

/// Characterizes [`first_match`]: the index it returns names the oldest need
/// answered by the batch, and `None` means no recorded need is answered.
pub proof fn lemma_first_match_ensures(needs: Seq<DownloadNeedModel>, blocks: Seq<SealedBlock>)
    ensures
        match first_match(needs, blocks) {
            Some(i) => 0 <= i < needs.len() && batch_answers(needs[i].request, blocks) && forall|
                j: int,
            | 0 <= j < i ==> !batch_answers(needs[j].request, blocks),
            None => forall|j: int|
                0 <= j < needs.len() ==> !batch_answers(needs[j].request, blocks),
        },
    decreases needs.len(),
{
    if needs.len() > 0 && !batch_answers(needs[0].request, blocks) {
        lemma_first_match_ensures(needs.drop_first(), blocks);
        assert(forall|j: int|
            1 <= j < needs.len() ==> needs[j] == needs.drop_first()[j - 1]);
    }
}

/// The view of a sequence of tree submissions.
pub open spec fn submissions_view(s: Seq<TreeSubmission>) -> Seq<TreeSubmissionModel> {
    s.map_values(|sub: TreeSubmission| sub@)
}

/// The view of a sequence of tree outcomes.
pub open spec fn outcomes_view(s: Seq<TreeOutcome>) -> Seq<TreeOutcomeModel> {
    s.map_values(|o: TreeOutcome| o@)
}

/// The view of a sequence of download needs.
pub open spec fn needs_view(s: Seq<DownloadNeed>) -> Seq<DownloadNeedModel> {
    s.map_values(|n: DownloadNeed| n@)
}

/// Processes engine API requests during live sync, delegating to the tree
/// handler through a submission log and translating its outcomes.
///
/// The tree handler itself executes payloads and commits fork-choice
/// transitions elsewhere; this type owns the admission policy (concurrent
/// payloads, exclusive coalesced fork-choice updates, deferral during bulk
/// sync) and the download bookkeeping. Its whole behaviour is given by
/// [`step_inbound`], [`step_poll`] and [`enqueue_outcome`] over its view.
pub struct EngineApiRequestHandler {
    /// The tracked state of the top level orchestrator.
    orchestrator_state: OrchestratorState,
    /// Currently in progress payload requests, by candidate hash.
    pending_payloads: Vec<u64>,
    /// Currently in progress fork choice update, by target head.
    pending_fcu: Option<u64>,
    /// Next fork choice update to process once the active one completes.
    next_fcu: Option<u64>,
    /// Download requests emitted and not yet answered.
    pending_downloads: Vec<DownloadNeed>,
    /// Everything handed to the tree handler, in submission order.
    tree_submissions: Vec<TreeSubmission>,
    /// Outcomes delivered by the tree handler, awaiting translation.
    tree_outcomes: std::collections::VecDeque<TreeOutcome>,
    /// Events to yield before consuming further tree outcomes.
    buffered_events: std::collections::VecDeque<EngineApiEvent>,
    /// Accounting of fork-choice submissions that are no longer outstanding.
    fcu_finished: Ghost<nat>,
}

impl View for EngineApiRequestHandler {
    type V = HandlerModel;

    closed spec fn view(&self) -> HandlerModel {
        HandlerModel {
            orchestrator_state: self.orchestrator_state,
            pending_payloads: self.pending_payloads@,
            pending_fcu: self.pending_fcu,
            next_fcu: self.next_fcu,
            pending_downloads: needs_view(self.pending_downloads@),
            tree_submissions: submissions_view(self.tree_submissions@),
            tree_outcomes: outcomes_view(self.tree_outcomes@),
            buffered_events: self.buffered_events@,
            fcu_finished: self.fcu_finished@,
        }
    }
}

/// Whether the vector contains the hash.
#[verifier::loop_isolation(false)]
fn contains_hash(v: &Vec<u64>, hash: u64) -> (r: bool)
    ensures
        r == v@.contains(hash),
{
    let mut i: usize = 0;
    while i < v.len()
        invariant
            i <= v@.len(),
            forall|j: int| 0 <= j < i ==> v@[j] != hash,
        decreases v@.len() - i,
    {
        if v[i] == hash {
            return true;
        }
        i += 1;
    }
    false
}

/// Index of the first occurrence of the hash, if any.
#[verifier::loop_isolation(false)]
fn find_hash_index(v: &Vec<u64>, hash: u64) -> (r: Option<usize>)
    ensures
        match r {
            Some(i) => 0 <= i < v@.len() && v@[i as int] == hash && forall|j: int|
                0 <= j < i ==> v@[j] != hash,
            None => !v@.contains(hash),
        },
{
    let mut i: usize = 0;
    while i < v.len()
        invariant
            i <= v@.len(),
            forall|j: int| 0 <= j < i ==> v@[j] != hash,
        decreases v@.len() - i,
    {
        if v[i] == hash {
            return Some(i);
        }
        i += 1;
    }
    None
}

/// Whether the batch answers the recorded request.
#[verifier::loop_isolation(false)]
fn answers(request: &DownloadRequest, blocks: &Vec<SealedBlock>) -> (r: bool)
    ensures
        r == batch_answers(request@, blocks@),
{
    match request {
        DownloadRequest::Blocks(hashes) => {
            if hashes.len() != blocks.len() {
                proof {
                    assert(blocks@.map_values(|b: SealedBlock| b.hash).len() == blocks@.len());
                }
                return false;
            }
            let mut i: usize = 0;
            while i < hashes.len()
                invariant
                    i <= hashes@.len(),
                    hashes@.len() == blocks@.len(),
                    forall|j: int| 0 <= j < i ==> blocks@[j].hash == hashes@[j],
                decreases hashes@.len() - i,
            {
                if blocks[i].hash != hashes[i] {
                    proof {
                        assert(blocks@.map_values(|b: SealedBlock| b.hash)[i as int]
                            != hashes@[i as int]);
                    }
                    return false;
                }
                i += 1;
            }
            proof {
                assert(blocks@.map_values(|b: SealedBlock| b.hash) =~= hashes@);
            }
            true
        },
        DownloadRequest::Range(start, count) => {
            if blocks.len() != *count {
                return false;
            }
            if blocks.len() > 0 && blocks[0].hash != *start {
                return false;
            }
            let mut i: usize = 1;
            while i < blocks.len()
                invariant
                    1 <= i,
                    i <= blocks@.len() || blocks@.len() == 0,
                    forall|j: int| 1 <= j < i ==> blocks@[j].parent_hash == blocks@[j - 1].hash,
                decreases blocks@.len() - i,
            {
                if blocks[i].parent_hash != blocks[i - 1].hash {
                    return false;
                }
                i += 1;
            }
            true
        },
    }
}

/// A structural copy of a download request.
#[verifier::loop_isolation(false)]
fn duplicate_request(request: &DownloadRequest) -> (r: DownloadRequest)
    ensures
        r@ == request@,
{
    match request {
        DownloadRequest::Blocks(hashes) => {
            let mut copy: Vec<u64> = Vec::new();
            let mut i: usize = 0;
            while i < hashes.len()
                invariant
                    i <= hashes@.len(),
                    copy@ == hashes@.take(i as int),
                decreases hashes@.len() - i,
            {
                copy.push(hashes[i]);
                proof {
                    assert(copy@ =~= hashes@.take(i as int + 1));
                }
                i += 1;
            }
            proof {
                assert(hashes@.take(hashes@.len() as int) =~= hashes@);
            }
            DownloadRequest::Blocks(copy)
        },
        DownloadRequest::Range(start, count) => DownloadRequest::Range(*start, *count),
    }
}

impl EngineApiRequestHandler {
    /// A fresh handler in live mode with nothing pending.
    pub fn new() -> (r: Self)
        ensures
            r@ == init_handler_model(),
    {
        let r = EngineApiRequestHandler {
            orchestrator_state: OrchestratorState::Live,
            pending_payloads: Vec::new(),
            pending_fcu: None,
            next_fcu: None,
            pending_downloads: Vec::new(),
            tree_submissions: Vec::new(),
            tree_outcomes: std::collections::VecDeque::new(),
            buffered_events: std::collections::VecDeque::new(),
            fcu_finished: Ghost(0nat),
        };
        proof {
            assert(r@ =~~= init_handler_model());
        }
        r
    }

    /// Informs the handler about an inbound event; its whole effect is
    /// [`step_inbound`] on the handler's view.
    pub fn on_event(&mut self, event: FromEngine<EngineApiRequest>)
        ensures
            final(self)@ == step_inbound(old(self)@, event@),
    {
        match event {
            FromEngine::Event(FromOrchestrator::StateChanged(state)) => {
                self.orchestrator_state = state;
                self.tree_submissions.push(TreeSubmission::StateNotification { state });
                match state {
                    OrchestratorState::PipelineSync => {
                        let ghost abandoned: nat = if self.pending_fcu is Some {
                            1nat
                        } else {
                            0nat
                        };
                        self.fcu_finished = Ghost(self.fcu_finished@ + abandoned);
                        self.pending_payloads.clear();
                        self.pending_fcu = None;
                        self.next_fcu = None;
                        self.pending_downloads.clear();
                    },
                    OrchestratorState::Live => {},
                }
                proof {
                    assert(self@ =~~= step_inbound(old(self)@, event@));
                }
            },
            FromEngine::Request(req) => {
                match self.orchestrator_state {
                    OrchestratorState::PipelineSync => {
                        let deferred = match req {
                            EngineApiRequest::NewPayload { hash } => {
                                EngineApiEvent::PayloadStatusReported {
                                    hash,
                                    status: PayloadStatus::Syncing,
                                }
                            },
                            EngineApiRequest::ForkchoiceUpdated { head } => {
                                EngineApiEvent::ForkchoiceStatusReported {
                                    head,
                                    status: PayloadStatus::Syncing,
                                }
                            },
                        };
                        self.buffered_events.push_back(deferred);
                    },
                    OrchestratorState::Live => {
                        match req {
                            EngineApiRequest::NewPayload { hash } => {
                                if !contains_hash(&self.pending_payloads, hash) {
                                    self.pending_payloads.push(hash);
                                    self.tree_submissions.push(TreeSubmission::Payload { hash });
                                }
                            },
                            EngineApiRequest::ForkchoiceUpdated { head } => {
                                if self.pending_fcu.is_some() {
                                    self.next_fcu = Some(head);
                                } else {
                                    self.pending_fcu = Some(head);
                                    self.tree_submissions.push(
                                        TreeSubmission::ForkchoiceUpdate { head },
                                    );
                                }
                            },
                        }
                    },
                }
                proof {
                    assert(self@ =~~= step_inbound(old(self)@, event@));
                }
            },
            FromEngine::DownloadedBlocks(blocks) => {
                match self.orchestrator_state {
                    OrchestratorState::PipelineSync => {
                        // Stale: answers work dropped when bulk sync began.
                    },
                    OrchestratorState::Live => {
                        proof {
                            lemma_first_match_ensures(self@.pending_downloads, blocks@);
                        }
                        let found = find_first_need(&self.pending_downloads, &blocks);
                        match found {
                            Some(i) => {
                                let need = self.pending_downloads.remove(i);
                                self.tree_submissions.push(
                                    TreeSubmission::DownloadedBlocks {
                                        origin: need.origin,
                                        blocks,
                                    },
                                );
                            },
                            None => {
                                // Stale: no recorded need is answered.
                            },
                        }
                    },
                }
                proof {
                    assert(self@ =~~= step_inbound(old(self)@, event@));
                }
            },
        }
    }

    /// Accepts one outcome from the tree handler for later translation.
    pub fn on_tree_outcome(&mut self, outcome: TreeOutcome)
        ensures
            final(self)@ == enqueue_outcome(old(self)@, outcome@),
    {
        self.tree_outcomes.push_back(outcome);
        proof {
            assert(self@ =~~= enqueue_outcome(old(self)@, outcome@));
        }
    }

    /// Advances the handler by one step; its whole effect and report are
    /// [`step_poll`] on the handler's view.
    pub fn poll(&mut self) -> (r: RequestHandlerEvent<EngineApiEvent>)
        ensures
            final(self)@ == step_poll(old(self)@).0,
            r@ == step_poll(old(self)@).1,
    {
        if let Some(buffered) = self.buffered_events.pop_front() {
            proof {
                assert(self@ =~~= step_poll(old(self)@).0);
            }
            return RequestHandlerEvent::HandlerEvent(HandlerEvent::Event(buffered));
        }
        let next = self.tree_outcomes.pop_front();
        match next {
            None => {
                proof {
                    assert(self@ =~~= step_poll(old(self)@).0);
                }
                RequestHandlerEvent::Idle
            },
            Some(TreeOutcome::PayloadProcessed { hash, status }) => {
                let found = find_hash_index(&self.pending_payloads, hash);
                match found {
                    Some(i) => {
                        proof {
                            old(self)@.pending_payloads.index_of_first_ensures(hash);
                        }
                        self.pending_payloads.remove(i);
                        proof {
                            assert(self@ =~~= step_poll(old(self)@).0);
                        }
                        RequestHandlerEvent::HandlerEvent(
                            HandlerEvent::Event(
                                EngineApiEvent::PayloadStatusReported { hash, status },
                            ),
                        )
                    },
                    None => {
                        proof {
                            assert(self@ =~~= step_poll(old(self)@).0);
                        }
                        RequestHandlerEvent::HandlerEvent(
                            HandlerEvent::Event(
                                EngineApiEvent::UnexpectedTreeOutcome {
                                    origin: RequestOrigin::Payload(hash),
                                },
                            ),
                        )
                    },
                }
            },
            Some(TreeOutcome::ForkchoiceProcessed { head, status }) => {
                let active = match self.pending_fcu {
                    Some(a) => a == head,
                    None => false,
                };
                if active {
                    self.fcu_finished = Ghost(self.fcu_finished@ + 1);
                    match self.next_fcu {
                        Some(next_head) => {
                            self.pending_fcu = Some(next_head);
                            self.next_fcu = None;
                            self.tree_submissions.push(
                                TreeSubmission::ForkchoiceUpdate { head: next_head },
                            );
                        },
                        None => {
                            self.pending_fcu = None;
                        },
                    }
                    proof {
                        assert(self@ =~~= step_poll(old(self)@).0);
                    }
                    RequestHandlerEvent::HandlerEvent(
                        HandlerEvent::Event(
                            EngineApiEvent::ForkchoiceStatusReported { head, status },
                        ),
                    )
                } else {
                    proof {
                        assert(self@ =~~= step_poll(old(self)@).0);
                    }
                    RequestHandlerEvent::HandlerEvent(
                        HandlerEvent::Event(
                            EngineApiEvent::UnexpectedTreeOutcome {
                                origin: RequestOrigin::ForkchoiceUpdate(head),
                            },
                        ),
                    )
                }
            },
            Some(TreeOutcome::MissingBlocks { origin, request }) => {
                let pending = match origin {
                    RequestOrigin::Payload(hash) => contains_hash(&self.pending_payloads, hash),
                    RequestOrigin::ForkchoiceUpdate(head) => match self.pending_fcu {
                        Some(a) => a == head,
                        None => false,
                    },
                };
                if pending {
                    let emitted = duplicate_request(&request);
                    self.pending_downloads.push(DownloadNeed { request, origin });
                    proof {
                        assert(self@ =~~= step_poll(old(self)@).0);
                        assert(RequestHandlerEvent::Download(emitted)@ =~~= step_poll(
                            old(self)@,
                        ).1);
                    }
                    RequestHandlerEvent::Download(emitted)
                } else {
                    proof {
                        assert(self@ =~~= step_poll(old(self)@).0);
                    }
                    RequestHandlerEvent::HandlerEvent(
                        HandlerEvent::Event(EngineApiEvent::UnexpectedTreeOutcome { origin }),
                    )
                }
            },
            Some(TreeOutcome::BulkSyncNeeded { target }) => {
                proof {
                    assert(self@ =~~= step_poll(old(self)@).0);
                }
                RequestHandlerEvent::HandlerEvent(HandlerEvent::Pipeline(target))
            },
        }
    }

    /// Everything handed to the tree handler so far, in submission order.
    pub fn submitted_to_tree(&self) -> (r: &Vec<TreeSubmission>)
        ensures
            submissions_view(r@) == self@.tree_submissions,
    {
        &self.tree_submissions
    }

    /// How many payload executions are currently in flight.
    pub fn pending_payload_count(&self) -> (r: usize)
        ensures
            r == self@.pending_payloads.len(),
    {
        self.pending_payloads.len()
    }

    /// Whether the given candidate hash has a payload execution in flight.
    pub fn is_payload_pending(&self, hash: u64) -> (r: bool)
        ensures
            r == self@.pending_payloads.contains(hash),
    {
        contains_hash(&self.pending_payloads, hash)
    }

    /// Target head of the active fork-choice update, if any.
    pub fn active_fork_choice(&self) -> (r: Option<u64>)
        ensures
            r == self@.pending_fcu,
    {
        self.pending_fcu
    }

    /// Target head of the single queued fork-choice update, if any.
    pub fn queued_fork_choice(&self) -> (r: Option<u64>)
        ensures
            r == self@.next_fcu,
    {
        self.next_fcu
    }

    /// The orchestrating mode the handler currently tracks.
    pub fn current_state(&self) -> (r: OrchestratorState)
        ensures
            r == self@.orchestrator_state,
    {
        self.orchestrator_state
    }

    /// How many emitted download requests are still unanswered.
    pub fn pending_download_count(&self) -> (r: usize)
        ensures
            r == self@.pending_downloads.len(),
    {
        self.pending_downloads.len()
    }
}

/// Index of the oldest recorded need answered by the batch, if any.
#[verifier::loop_isolation(false)]
fn find_first_need(needs: &Vec<DownloadNeed>, blocks: &Vec<SealedBlock>) -> (r: Option<usize>)
    ensures
        match r {
            Some(i) => first_match(needs_view(needs@), blocks@) == Some(i as int),
            None => first_match(needs_view(needs@), blocks@) is None,
        },
{
    let mut i: usize = 0;
    while i < needs.len()
        invariant
            i <= needs@.len(),
            forall|j: int|
                0 <= j < i ==> !batch_answers(needs_view(needs@)[j].request, blocks@),
        decreases needs@.len() - i,
    {
        if answers(&needs[i].request, blocks) {
            proof {
                lemma_first_match_ensures(needs_view(needs@), blocks@);
                assert(needs_view(needs@)[i as int].request == needs@[i as int]@.request);
                assert(batch_answers(needs_view(needs@)[i as int].request, blocks@));
                match first_match(needs_view(needs@), blocks@) {
                    Some(k) => {
                        if k < i as int {
                            assert(!batch_answers(needs_view(needs@)[k].request, blocks@));
                        } else if k > i as int {
                            assert(!batch_answers(
                                needs_view(needs@)[i as int].request,
                                blocks@,
                            ));
                        }
                    },
                    None => {
                        assert(!batch_answers(needs_view(needs@)[i as int].request, blocks@));
                    },
                }
            }
            return Some(i);
        }
        i += 1;
    }
    proof {
        lemma_first_match_ensures(needs_view(needs@), blocks@);
    }
    None
}

} // verus!
