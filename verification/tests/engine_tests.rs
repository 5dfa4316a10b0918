use live_sync::engine::BlockDownloader;
use live_sync::engine::EngineHandler;
use live_sync::events::DownloadRequest;
use live_sync::events::EngineApiEvent;
use live_sync::events::EngineApiRequest;
use live_sync::events::FromOrchestrator;
use live_sync::events::HandlerEvent;
use live_sync::events::OrchestratorState;
use live_sync::events::PayloadStatus;
use live_sync::events::RequestOrigin;
use live_sync::events::SealedBlock;
use live_sync::events::TreeOutcome;
use live_sync::events::TreeSubmission;
use live_sync::handler::EngineApiRequestHandler;

fn block(hash: u64, parent_hash: u64, number: u64) -> SealedBlock {
    SealedBlock { hash, parent_hash, number }
}

fn fresh_engine() -> EngineHandler {
    EngineHandler::new(EngineApiRequestHandler::new(), BlockDownloader::new())
}

#[test]
fn idle_stability() {
    let mut engine = fresh_engine();
    assert_eq!(engine.advance(), None);
    assert_eq!(engine.advance(), None);
    assert_eq!(engine.advance(), None);
    assert_eq!(engine.handler().pending_payload_count(), 0);
    assert_eq!(engine.handler().active_fork_choice(), None);
    assert!(engine.handler().submitted_to_tree().is_empty());
    assert!(engine.downloader().actions_sent().is_empty());
}

#[test]
fn concurrent_payload_admission() {
    let mut engine = fresh_engine();
    engine.push_request(EngineApiRequest::NewPayload { hash: 1 });
    engine.push_request(EngineApiRequest::NewPayload { hash: 2 });
    engine.push_request(EngineApiRequest::NewPayload { hash: 3 });
    assert_eq!(engine.advance(), None);
    assert_eq!(engine.handler().pending_payload_count(), 3);
    assert!(engine.handler().is_payload_pending(1));
    assert!(engine.handler().is_payload_pending(2));
    assert!(engine.handler().is_payload_pending(3));
    assert_eq!(
        engine.handler().submitted_to_tree().as_slice(),
        &[
            TreeSubmission::Payload { hash: 1 },
            TreeSubmission::Payload { hash: 2 },
            TreeSubmission::Payload { hash: 3 },
        ]
    );
}

#[test]
fn fork_choice_coalescing_and_exclusivity() {
    let mut engine = fresh_engine();
    engine.push_request(EngineApiRequest::ForkchoiceUpdated { head: 10 });
    assert_eq!(engine.advance(), None);
    // Three more arrive while the first is active: none is submitted, only the
    // latest is kept queued.
    engine.push_request(EngineApiRequest::ForkchoiceUpdated { head: 11 });
    engine.push_request(EngineApiRequest::ForkchoiceUpdated { head: 12 });
    engine.push_request(EngineApiRequest::ForkchoiceUpdated { head: 13 });
    assert_eq!(engine.advance(), None);
    assert_eq!(engine.handler().active_fork_choice(), Some(10));
    assert_eq!(engine.handler().queued_fork_choice(), Some(13));
    assert_eq!(
        engine.handler().submitted_to_tree().as_slice(),
        &[TreeSubmission::ForkchoiceUpdate { head: 10 }]
    );
    // Completing the active update promotes exactly the latest queued one.
    engine.on_tree_outcome(TreeOutcome::ForkchoiceProcessed {
        head: 10,
        status: PayloadStatus::Valid,
    });
    assert_eq!(
        engine.advance(),
        Some(HandlerEvent::Event(EngineApiEvent::ForkchoiceStatusReported {
            head: 10,
            status: PayloadStatus::Valid,
        }))
    );
    assert_eq!(engine.handler().active_fork_choice(), Some(13));
    assert_eq!(engine.handler().queued_fork_choice(), None);
    assert_eq!(
        engine.handler().submitted_to_tree().as_slice(),
        &[
            TreeSubmission::ForkchoiceUpdate { head: 10 },
            TreeSubmission::ForkchoiceUpdate { head: 13 },
        ]
    );
}

#[test]
fn download_round_trip() {
    let mut engine = fresh_engine();
    engine.push_request(EngineApiRequest::NewPayload { hash: 1 });
    assert_eq!(engine.advance(), None);
    // The tree handler reports two missing ancestors for payload 1.
    engine.on_tree_outcome(TreeOutcome::MissingBlocks {
        origin: RequestOrigin::Payload(1),
        request: DownloadRequest::Blocks(vec![10, 11]),
    });
    assert_eq!(engine.advance(), None);
    assert_eq!(
        engine.downloader().actions_sent().as_slice(),
        &[DownloadRequest::Blocks(vec![10, 11])]
    );
    assert!(engine.handler().is_payload_pending(1));
    assert_eq!(engine.handler().pending_download_count(), 1);
    // The batch arrives and is resubmitted tagged with payload 1.
    engine.deliver_blocks(vec![block(10, 9, 100), block(11, 10, 101)]);
    assert_eq!(engine.advance(), None);
    assert_eq!(engine.handler().pending_download_count(), 0);
    assert_eq!(
        engine.handler().submitted_to_tree().last().unwrap(),
        &TreeSubmission::DownloadedBlocks {
            origin: RequestOrigin::Payload(1),
            blocks: vec![block(10, 9, 100), block(11, 10, 101)],
        }
    );
    // The terminal outcome removes the payload from the pending set.
    engine.on_tree_outcome(TreeOutcome::PayloadProcessed {
        hash: 1,
        status: PayloadStatus::Valid,
    });
    assert_eq!(
        engine.advance(),
        Some(HandlerEvent::Event(EngineApiEvent::PayloadStatusReported {
            hash: 1,
            status: PayloadStatus::Valid,
        }))
    );
    assert!(!engine.handler().is_payload_pending(1));
    assert_eq!(engine.handler().pending_payload_count(), 0);
}

#[test]
fn range_download_round_trip() {
    let mut engine = fresh_engine();
    engine.push_request(EngineApiRequest::ForkchoiceUpdated { head: 6 });
    assert_eq!(engine.advance(), None);
    engine.on_tree_outcome(TreeOutcome::MissingBlocks {
        origin: RequestOrigin::ForkchoiceUpdate(6),
        request: DownloadRequest::Range(5, 2),
    });
    assert_eq!(engine.advance(), None);
    assert_eq!(
        engine.downloader().actions_sent().as_slice(),
        &[DownloadRequest::Range(5, 2)]
    );
    // A contiguous parent-linked run of length two starting at hash 5.
    engine.deliver_blocks(vec![block(5, 4, 5), block(6, 5, 6)]);
    assert_eq!(engine.advance(), None);
    assert_eq!(engine.handler().pending_download_count(), 0);
    assert_eq!(
        engine.handler().submitted_to_tree().last().unwrap(),
        &TreeSubmission::DownloadedBlocks {
            origin: RequestOrigin::ForkchoiceUpdate(6),
            blocks: vec![block(5, 4, 5), block(6, 5, 6)],
        }
    );
}

#[test]
fn unmatched_batch_is_dropped() {
    let mut engine = fresh_engine();
    engine.push_request(EngineApiRequest::NewPayload { hash: 1 });
    assert_eq!(engine.advance(), None);
    engine.on_tree_outcome(TreeOutcome::MissingBlocks {
        origin: RequestOrigin::Payload(1),
        request: DownloadRequest::Blocks(vec![10, 11]),
    });
    assert_eq!(engine.advance(), None);
    let before = engine.handler().submitted_to_tree().len();
    // Wrong order: does not answer the recorded request.
    engine.deliver_blocks(vec![block(11, 10, 101), block(10, 9, 100)]);
    assert_eq!(engine.advance(), None);
    assert_eq!(engine.handler().submitted_to_tree().len(), before);
    assert_eq!(engine.handler().pending_download_count(), 1);
}

#[test]
fn priority_external_request_before_download() {
    let mut engine = fresh_engine();
    // Leave payload 1 stalled on a download so a later batch is delegated.
    engine.push_request(EngineApiRequest::NewPayload { hash: 1 });
    assert_eq!(engine.advance(), None);
    engine.on_tree_outcome(TreeOutcome::MissingBlocks {
        origin: RequestOrigin::Payload(1),
        request: DownloadRequest::Blocks(vec![10]),
    });
    assert_eq!(engine.advance(), None);
    // At one instant: the handler is idle, an external request is queued, and
    // a download batch is ready.
    engine.push_request(EngineApiRequest::NewPayload { hash: 2 });
    engine.deliver_blocks(vec![block(10, 9, 100)]);
    assert_eq!(engine.advance(), None);
    // The external request was delegated to the tree handler first.
    assert_eq!(
        engine.handler().submitted_to_tree().as_slice(),
        &[
            TreeSubmission::Payload { hash: 1 },
            TreeSubmission::Payload { hash: 2 },
            TreeSubmission::DownloadedBlocks {
                origin: RequestOrigin::Payload(1),
                blocks: vec![block(10, 9, 100)],
            },
        ]
    );
}

#[test]
fn pipeline_escalation_leaves_pending_untouched() {
    let mut engine = fresh_engine();
    engine.push_request(EngineApiRequest::NewPayload { hash: 1 });
    assert_eq!(engine.advance(), None);
    engine.on_tree_outcome(TreeOutcome::BulkSyncNeeded { target: 99 });
    assert_eq!(engine.advance(), Some(HandlerEvent::Pipeline(99)));
    // The originating pending entry is neither removed nor resubmitted.
    assert!(engine.handler().is_payload_pending(1));
    assert_eq!(
        engine.handler().submitted_to_tree().as_slice(),
        &[TreeSubmission::Payload { hash: 1 }]
    );
}

#[test]
fn requests_deferred_while_pipeline_syncing() {
    let mut engine = fresh_engine();
    engine.on_event(FromOrchestrator::StateChanged(OrchestratorState::PipelineSync));
    assert_eq!(engine.handler().current_state(), OrchestratorState::PipelineSync);
    engine.push_request(EngineApiRequest::NewPayload { hash: 1 });
    engine.push_request(EngineApiRequest::ForkchoiceUpdated { head: 2 });
    // Both requests are answered with a syncing verdict, not admitted.
    assert_eq!(
        engine.advance(),
        Some(HandlerEvent::Event(EngineApiEvent::PayloadStatusReported {
            hash: 1,
            status: PayloadStatus::Syncing,
        }))
    );
    assert_eq!(
        engine.advance(),
        Some(HandlerEvent::Event(EngineApiEvent::ForkchoiceStatusReported {
            head: 2,
            status: PayloadStatus::Syncing,
        }))
    );
    assert_eq!(engine.advance(), None);
    assert_eq!(engine.handler().pending_payload_count(), 0);
    assert_eq!(engine.handler().active_fork_choice(), None);
    // Back in live mode, requests are admitted again.
    engine.on_event(FromOrchestrator::StateChanged(OrchestratorState::Live));
    engine.push_request(EngineApiRequest::NewPayload { hash: 1 });
    assert_eq!(engine.advance(), None);
    assert!(engine.handler().is_payload_pending(1));
}

#[test]
fn entering_pipeline_sync_drops_inflight_work() {
    let mut engine = fresh_engine();
    engine.push_request(EngineApiRequest::NewPayload { hash: 1 });
    engine.push_request(EngineApiRequest::ForkchoiceUpdated { head: 2 });
    assert_eq!(engine.advance(), None);
    assert_eq!(engine.handler().pending_payload_count(), 1);
    engine.on_event(FromOrchestrator::StateChanged(OrchestratorState::PipelineSync));
    assert_eq!(engine.handler().pending_payload_count(), 0);
    assert_eq!(engine.handler().active_fork_choice(), None);
    assert_eq!(
        engine.handler().submitted_to_tree().last().unwrap(),
        &TreeSubmission::StateNotification { state: OrchestratorState::PipelineSync }
    );
}

#[test]
fn unexpected_outcome_surfaces_as_fault() {
    let mut engine = fresh_engine();
    engine.on_tree_outcome(TreeOutcome::PayloadProcessed {
        hash: 77,
        status: PayloadStatus::Valid,
    });
    assert_eq!(
        engine.advance(),
        Some(HandlerEvent::Event(EngineApiEvent::UnexpectedTreeOutcome {
            origin: RequestOrigin::Payload(77),
        }))
    );
    engine.on_tree_outcome(TreeOutcome::ForkchoiceProcessed {
        head: 78,
        status: PayloadStatus::Valid,
    });
    assert_eq!(
        engine.advance(),
        Some(HandlerEvent::Event(EngineApiEvent::UnexpectedTreeOutcome {
            origin: RequestOrigin::ForkchoiceUpdate(78),
        }))
    );
}

#[test]
fn duplicate_payload_is_not_resubmitted() {
    let mut engine = fresh_engine();
    engine.push_request(EngineApiRequest::NewPayload { hash: 1 });
    engine.push_request(EngineApiRequest::NewPayload { hash: 1 });
    assert_eq!(engine.advance(), None);
    assert_eq!(engine.handler().pending_payload_count(), 1);
    assert_eq!(
        engine.handler().submitted_to_tree().as_slice(),
        &[TreeSubmission::Payload { hash: 1 }]
    );
}

#[test]
fn invalid_payload_is_reported_and_removed() {
    let mut engine = fresh_engine();
    engine.push_request(EngineApiRequest::NewPayload { hash: 1 });
    assert_eq!(engine.advance(), None);
    engine.on_tree_outcome(TreeOutcome::PayloadProcessed {
        hash: 1,
        status: PayloadStatus::Invalid,
    });
    assert_eq!(
        engine.advance(),
        Some(HandlerEvent::Event(EngineApiEvent::PayloadStatusReported {
            hash: 1,
            status: PayloadStatus::Invalid,
        }))
    );
    assert_eq!(engine.handler().pending_payload_count(), 0);
}
