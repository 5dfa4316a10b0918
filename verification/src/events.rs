//! Shared vocabulary of the orchestration core: the inbound events the request
//! handler consumes, the submissions it hands to the tree handler, the
//! outcomes the tree handler produces, and the events it yields upward.

use vstd::prelude::*;

verus! {

/// Whether the node is following the live chain tip or performing bulk
/// historical synchronization driven from outside.
#[derive(Clone, Copy, Debug, PartialEq, Eq, Structural)]
pub enum OrchestratorState {
    /// Following the tip of the chain; requests are admitted.
    Live,
    /// Bulk historical sync is in progress; the tree is not in a consistent
    /// tip state, so new requests are deferred.
    PipelineSync,
}

/// A transition notification from the top-level orchestrator. It carries no
/// data beyond the new mode.
#[derive(Clone, Copy, Debug, PartialEq, Eq, Structural)]
pub enum FromOrchestrator {
    /// The orchestrating mode changed to the given state.
    StateChanged(OrchestratorState),
}

/// A fully decoded block with recovered sender addresses, modelled by the
/// plain values the orchestration logic reads: its hash, its parent's hash and
/// its height. Execution of its contents belongs to the tree handler.
#[derive(Clone, Copy, Debug, PartialEq, Eq, Structural)]
pub struct SealedBlock {
    /// Hash identifying the block.
    pub hash: u64,
    /// Hash of the parent block.
    pub parent_hash: u64,
    /// Height of the block.
    pub number: u64,
}

/// A request arriving from the consensus layer.
#[derive(Clone, Copy, Debug, PartialEq, Eq, Structural)]
pub enum EngineApiRequest {
    /// Execute and validate the candidate block with the given hash. Many may
    /// be outstanding concurrently.
    NewPayload { hash: u64 },
    /// Mark the given block hash as the new head. Requires exclusive mutating
    /// access to the canonical chain pointer, so at most one is applied at a
    /// time.
    ForkchoiceUpdated { head: u64 },
}

/// Verdict attached to a processed request.
#[derive(Clone, Copy, Debug, PartialEq, Eq, Structural)]
pub enum PayloadStatus {
    /// The request was applied successfully.
    Valid,
    /// The request failed validation; this is recoverable and does not halt
    /// the loop.
    Invalid,
    /// The request arrived while bulk sync was in progress and was deferred.
    Syncing,
}

/// Identifies the pending entry on whose behalf the tree handler needs data.
#[derive(Clone, Copy, Debug, PartialEq, Eq, Structural)]
pub enum RequestOrigin {
    /// A pending payload execution, identified by the candidate block's hash.
    Payload(u64),
    /// The active fork-choice update, identified by its target head hash.
    ForkchoiceUpdate(u64),
}

/// A user-visible domain event yielded upward by the request handler.
#[derive(Clone, Copy, Debug, PartialEq, Eq, Structural)]
pub enum EngineApiEvent {
    /// A payload execution reached a verdict.
    PayloadStatusReported { hash: u64, status: PayloadStatus },
    /// A fork-choice update reached a verdict.
    ForkchoiceStatusReported { head: u64, status: PayloadStatus },
    /// The tree handler produced output for a request the handler never
    /// submitted: a contract violation surfaced as an unrecoverable fault.
    UnexpectedTreeOutcome { origin: RequestOrigin },
}

/// A request to download blocks from the network.
#[derive(Debug, PartialEq, Eq)]
pub enum DownloadRequest {
    /// Point-fetch of an explicit set of block hashes; the resulting batch
    /// delivers the blocks in the requested order.
    Blocks(Vec<u64>),
    /// Bulk backfill of a run of blocks: the hash of the first block of the
    /// run and how many blocks follow it, delivered ancestor to descendant.
    Range(u64, usize),
}

/// Mathematical shape of a [`DownloadRequest`].
#[verifier::ext_equal]
pub enum DownloadRequestModel {
    Blocks(Seq<u64>),
    Range(u64, usize),
}

impl View for DownloadRequest {
    type V = DownloadRequestModel;

    open spec fn view(&self) -> DownloadRequestModel {
        match self {
            DownloadRequest::Blocks(hashes) => DownloadRequestModel::Blocks(hashes@),
            DownloadRequest::Range(start, count) => DownloadRequestModel::Range(*start, *count),
        }
    }
}

/// What the request handler hands to the tree handler.
#[derive(Debug, PartialEq, Eq)]
pub enum TreeSubmission {
    /// Execute and validate the candidate block with the given hash.
    Payload { hash: u64 },
    /// Apply a fork-choice update targeting the given head.
    ForkchoiceUpdate { head: u64 },
    /// Blocks that answer an earlier missing-ancestors signal, tagged with the
    /// pending entry that triggered the need, in download order.
    DownloadedBlocks { origin: RequestOrigin, blocks: Vec<SealedBlock> },
    /// The orchestrating mode changed; in-flight partial work tied to the old
    /// mode may be discarded.
    StateNotification { state: OrchestratorState },
}

/// Mathematical shape of a [`TreeSubmission`].
#[verifier::ext_equal]
pub enum TreeSubmissionModel {
    Payload { hash: u64 },
    ForkchoiceUpdate { head: u64 },
    DownloadedBlocks { origin: RequestOrigin, blocks: Seq<SealedBlock> },
    StateNotification { state: OrchestratorState },
}

impl View for TreeSubmission {
    type V = TreeSubmissionModel;

    open spec fn view(&self) -> TreeSubmissionModel {
        match self {
            TreeSubmission::Payload { hash } => TreeSubmissionModel::Payload { hash: *hash },
            TreeSubmission::ForkchoiceUpdate { head } => TreeSubmissionModel::ForkchoiceUpdate {
                head: *head,
            },
            TreeSubmission::DownloadedBlocks { origin, blocks } => {
                TreeSubmissionModel::DownloadedBlocks { origin: *origin, blocks: blocks@ }
            },
            TreeSubmission::StateNotification { state } => TreeSubmissionModel::StateNotification {
                state: *state,
            },
        }
    }
}

/// What the tree handler produces when polled.
#[derive(Debug, PartialEq, Eq)]
pub enum TreeOutcome {
    /// A payload execution finished with a verdict.
    PayloadProcessed { hash: u64, status: PayloadStatus },
    /// A fork-choice update finished with a verdict.
    ForkchoiceProcessed { head: u64, status: PayloadStatus },
    /// The named blocks must be fetched before the originating pending entry
    /// can make progress; the entry remains outstanding meanwhile.
    MissingBlocks { origin: RequestOrigin, request: DownloadRequest },
    /// Bulk historical sync is required up to the given target block.
    BulkSyncNeeded { target: u64 },
}

/// Mathematical shape of a [`TreeOutcome`].
#[verifier::ext_equal]
pub enum TreeOutcomeModel {
    PayloadProcessed { hash: u64, status: PayloadStatus },
    ForkchoiceProcessed { head: u64, status: PayloadStatus },
    MissingBlocks { origin: RequestOrigin, request: DownloadRequestModel },
    BulkSyncNeeded { target: u64 },
}

impl View for TreeOutcome {
    type V = TreeOutcomeModel;

    open spec fn view(&self) -> TreeOutcomeModel {
        match self {
            TreeOutcome::PayloadProcessed { hash, status } => TreeOutcomeModel::PayloadProcessed {
                hash: *hash,
                status: *status,
            },
            TreeOutcome::ForkchoiceProcessed { head, status } => {
                TreeOutcomeModel::ForkchoiceProcessed { head: *head, status: *status }
            },
            TreeOutcome::MissingBlocks { origin, request } => TreeOutcomeModel::MissingBlocks {
                origin: *origin,
                request: request@,
            },
            TreeOutcome::BulkSyncNeeded { target } => TreeOutcomeModel::BulkSyncNeeded {
                target: *target,
            },
        }
    }
}

/// An escalation bubbled up to the caller of the orchestration loop: either
/// chain-state progress or a required fallback to bulk sync.
#[derive(Clone, Copy, Debug, PartialEq, Eq, Structural)]
pub enum HandlerEvent<T> {
    /// Bulk historical sync is required up to the given target block; the
    /// caller is expected to run it and notify a mode transition back.
    Pipeline(u64),
    /// A domain event to surface to the caller.
    Event(T),
}

/// What the request handler reports when polled.
#[derive(Debug, PartialEq, Eq)]
pub enum RequestHandlerEvent<T> {
    /// Nothing ready this cycle.
    Idle,
    /// An escalation for the caller; it has priority over everything else.
    HandlerEvent(HandlerEvent<T>),
    /// Blocks must be downloaded; the orchestrator forwards this to the
    /// downloader and keeps polling.
    Download(DownloadRequest),
}

/// Mathematical shape of a [`RequestHandlerEvent`].
#[verifier::ext_equal]
pub enum RequestHandlerEventModel<T> {
    Idle,
    HandlerEvent(HandlerEvent<T>),
    Download(DownloadRequestModel),
}

impl<T> View for RequestHandlerEvent<T> {
    type V = RequestHandlerEventModel<T>;

    open spec fn view(&self) -> RequestHandlerEventModel<T> {
        match self {
            RequestHandlerEvent::Idle => RequestHandlerEventModel::Idle,
            RequestHandlerEvent::HandlerEvent(ev) => RequestHandlerEventModel::HandlerEvent(*ev),
            RequestHandlerEvent::Download(req) => RequestHandlerEventModel::Download(req@),
        }
    }
}

/// An inbound event consumed by the request handler.
#[derive(Debug, PartialEq, Eq)]
pub enum FromEngine<Req> {
    /// A mode-transition notification from the orchestrator.
    Event(FromOrchestrator),
    /// An external request from the consensus layer.
    Request(Req),
    /// A completed download: sealed blocks in the order the downloader
    /// produced them.
    DownloadedBlocks(Vec<SealedBlock>),
}

/// Mathematical shape of a [`FromEngine`] event.
#[verifier::ext_equal]
pub enum FromEngineModel<Req> {
    Event(FromOrchestrator),
    Request(Req),
    DownloadedBlocks(Seq<SealedBlock>),
}

impl<Req> View for FromEngine<Req> {
    type V = FromEngineModel<Req>;

    open spec fn view(&self) -> FromEngineModel<Req> {
        match self {
            FromEngine::Event(ev) => FromEngineModel::Event(*ev),
            FromEngine::Request(req) => FromEngineModel::Request(*req),
            FromEngine::DownloadedBlocks(blocks) => FromEngineModel::DownloadedBlocks(blocks@),
        }
    }
}

impl<Req> From<FromOrchestrator> for FromEngine<Req> {
    fn from(event: FromOrchestrator) -> (r: Self) {
        FromEngine::Event(event)
    }
}

impl<Req> vstd::std_specs::convert::FromSpecImpl<FromOrchestrator> for FromEngine<Req> {
    open spec fn obeys_from_spec() -> bool {
        true
    }

    open spec fn from_spec(event: FromOrchestrator) -> Self {
        FromEngine::Event(event)
    }
}

/// A download need recorded while its blocks are fetched: the request that was
/// emitted and the pending entry that triggered it.
#[derive(Debug, PartialEq, Eq)]
pub struct DownloadNeed {
    /// The download request handed to the downloader.
    pub request: DownloadRequest,
    /// The pending entry waiting on the blocks.
    pub origin: RequestOrigin,
}

/// Mathematical shape of a [`DownloadNeed`].
#[verifier::ext_equal]
pub struct DownloadNeedModel {
    pub request: DownloadRequestModel,
    pub origin: RequestOrigin,
}

impl View for DownloadNeed {
    type V = DownloadNeedModel;

    open spec fn view(&self) -> DownloadNeedModel {
        DownloadNeedModel { request: self.request@, origin: self.origin }
    }
}

} // verus!
