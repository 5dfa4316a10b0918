//! Proved laws of the request handler and of the orchestration loop: the
//! well-formedness invariant is established and preserved, fork-choice
//! submissions are exclusive and coalesced, payload admission is concurrent,
//! download round trips resume exactly the stalled entry, pipeline escalation
//! leaves pending work untouched, and a quiescent engine is stable.

use vstd::prelude::*;

use crate::engine::EngineModel;
use crate::engine::advance_spec;
use crate::engine::engine_measure;
use crate::engine::engine_quiescent;
use crate::events::DownloadNeedModel;
use crate::events::DownloadRequestModel;
use crate::events::EngineApiEvent;
use crate::events::EngineApiRequest;
use crate::events::FromEngineModel;
use crate::events::HandlerEvent;
use crate::events::PayloadStatus;
use crate::events::RequestHandlerEventModel;
use crate::events::RequestOrigin;
use crate::events::SealedBlock;
use crate::events::TreeOutcomeModel;
use crate::events::TreeSubmissionModel;
use crate::handler::HandlerModel;
use crate::handler::batch_answers;
use crate::handler::count_fcu_submissions;
use crate::handler::enqueue_outcome;
use crate::handler::first_match;
use crate::handler::handler_inv;
use crate::handler::init_handler_model;
use crate::handler::outstanding_fcu_submissions;
use crate::handler::step_blocks;
use crate::handler::step_inbound;
use crate::handler::step_poll;
use crate::handler::step_request;

verus! {

/// Effect of a whole sequence of external requests, oldest first.
pub open spec fn step_requests(m: HandlerModel, reqs: Seq<EngineApiRequest>) -> HandlerModel
    decreases reqs.len(),
{
    if reqs.len() == 0 {
        m
    } else {
        step_requests(step_request(m, reqs[0]), reqs.drop_first())
    }
}

/// The given heads as fork-choice-update requests.
pub open spec fn fcu_requests(heads: Seq<u64>) -> Seq<EngineApiRequest> {
    heads.map_values(|head: u64| EngineApiRequest::ForkchoiceUpdated { head })
}

/// The given hashes as new-payload requests.
pub open spec fn payload_requests(hashes: Seq<u64>) -> Seq<EngineApiRequest> {
    hashes.map_values(|hash: u64| EngineApiRequest::NewPayload { hash })
}

/// The given hashes as payload submissions to the tree handler.
pub open spec fn payload_submissions(hashes: Seq<u64>) -> Seq<TreeSubmissionModel> {
    hashes.map_values(|hash: u64| TreeSubmissionModel::Payload { hash })
}

/// Counting fork-choice submissions commutes with appending one submission.
proof fn lemma_count_fcu_push(s: Seq<TreeSubmissionModel>, x: TreeSubmissionModel)
    ensures
        count_fcu_submissions(s.push(x)) == count_fcu_submissions(s) + if x is ForkchoiceUpdate {
            1nat
        } else {
            0nat
        },
{
    assert(s.push(x).drop_last() =~= s);
    assert(s.push(x).last() == x);
}

/// A fresh handler is well formed.
pub proof fn lemma_init_inv()
    ensures
        handler_inv(init_handler_model()),
{
}

/// Every inbound event preserves the handler invariant.
pub proof fn lemma_step_inbound_preserves_inv(
    m: HandlerModel,
    event: FromEngineModel<EngineApiRequest>,
)
    requires
        handler_inv(m),
    ensures
        handler_inv(step_inbound(m, event)),
{
    match event {
        FromEngineModel::Event(notification) => {
            let state = notification->StateChanged_0;
            lemma_count_fcu_push(
                m.tree_submissions,
                TreeSubmissionModel::StateNotification { state },
            );
        },
        FromEngineModel::Request(req) => {
            if m.orchestrator_state is Live {
                match req {
                    EngineApiRequest::NewPayload { hash } => {
                        if !m.pending_payloads.contains(hash) {
                            lemma_count_fcu_push(
                                m.tree_submissions,
                                TreeSubmissionModel::Payload { hash },
                            );
                            assert(m.pending_payloads.push(hash).no_duplicates()) by {
                                assert(forall|i: int|
                                    0 <= i < m.pending_payloads.len()
                                        ==> m.pending_payloads.push(hash)[i]
                                        == m.pending_payloads[i]);
                            }
                        }
                    },
                    EngineApiRequest::ForkchoiceUpdated { head } => {
                        if m.pending_fcu is None {
                            lemma_count_fcu_push(
                                m.tree_submissions,
                                TreeSubmissionModel::ForkchoiceUpdate { head },
                            );
                        }
                    },
                }
            }
        },
        FromEngineModel::DownloadedBlocks(blocks) => {
            if m.orchestrator_state is Live {
                match first_match(m.pending_downloads, blocks) {
                    Some(i) => {
                        lemma_count_fcu_push(
                            m.tree_submissions,
                            TreeSubmissionModel::DownloadedBlocks {
                                origin: m.pending_downloads[i].origin,
                                blocks,
                            },
                        );
                    },
                    None => {},
                }
            }
        },
    }
}

/// Removing one occurrence of a value keeps a duplicate-free sequence
/// duplicate free.
proof fn lemma_remove_value_no_duplicates(s: Seq<u64>, value: u64)
    requires
        s.no_duplicates(),
    ensures
        s.remove_value(value).no_duplicates(),
{
    s.index_of_first_ensures(value);
    if s.contains(value) {
        let i = s.index_of_first(value)->0;
        let removed = s.remove(i);
        assert forall|p: int, q: int|
            0 <= p < removed.len() && 0 <= q < removed.len() && p != q implies removed[p]
            != removed[q] by {
            assert(removed[p] == if p < i {
                s[p]
            } else {
                s[p + 1]
            });
            assert(removed[q] == if q < i {
                s[q]
            } else {
                s[q + 1]
            });
        }
    }
}

/// Every poll step preserves the handler invariant.
pub proof fn lemma_step_poll_preserves_inv(m: HandlerModel)
    requires
        handler_inv(m),
    ensures
        handler_inv(step_poll(m).0),
{
    if m.buffered_events.len() > 0 {
    } else if m.tree_outcomes.len() > 0 {
        match m.tree_outcomes[0] {
            TreeOutcomeModel::PayloadProcessed { hash, status } => {
                if m.pending_payloads.contains(hash) {
                    lemma_remove_value_no_duplicates(m.pending_payloads, hash);
                }
            },
            TreeOutcomeModel::ForkchoiceProcessed { head, status } => {
                if m.pending_fcu == Some(head) {
                    match m.next_fcu {
                        Some(next) => {
                            lemma_count_fcu_push(
                                m.tree_submissions,
                                TreeSubmissionModel::ForkchoiceUpdate { head: next },
                            );
                        },
                        None => {},
                    }
                }
            },
            TreeOutcomeModel::MissingBlocks { origin, request } => {},
            TreeOutcomeModel::BulkSyncNeeded { target } => {},
        }
    }
}

/// Delivering a tree outcome preserves the handler invariant.
pub proof fn lemma_enqueue_outcome_preserves_inv(m: HandlerModel, outcome: TreeOutcomeModel)
    requires
        handler_inv(m),
    ensures
        handler_inv(enqueue_outcome(m, outcome)),
{
}

/// Exclusivity: in every well-formed state, at most one fork-choice-update
/// submission is outstanding to the tree handler — the submission log never
/// runs more than one ahead of the finished count.
pub proof fn lemma_fork_choice_exclusivity(m: HandlerModel)
    requires
        handler_inv(m),
    ensures
        0 <= outstanding_fcu_submissions(m) <= 1,
{
}

/// A whole advance cycle preserves the handler invariant.
pub proof fn lemma_advance_preserves_inv(m: EngineModel)
    requires
        handler_inv(m.handler),
    ensures
        handler_inv(advance_spec(m).0.handler),
    decreases engine_measure(m),
{
    lemma_step_poll_preserves_inv(m.handler);
    let (polled, report) = step_poll(m.handler);
    match report {
        RequestHandlerEventModel::HandlerEvent(ev) => {},
        RequestHandlerEventModel::Download(request) => {
            lemma_advance_preserves_inv(
                EngineModel {
                    handler: polled,
                    downloader: crate::engine::DownloaderModel {
                        actions: m.downloader.actions.push(request),
                        ..m.downloader
                    },
                    ..m
                },
            );
        },
        RequestHandlerEventModel::Idle => {
            if m.incoming.len() > 0 {
                lemma_step_inbound_preserves_inv(
                    m.handler,
                    FromEngineModel::Request(m.incoming[0]),
                );
                lemma_advance_preserves_inv(
                    EngineModel {
                        handler: step_request(m.handler, m.incoming[0]),
                        incoming: m.incoming.drop_first(),
                        ..m
                    },
                );
            } else if m.downloader.outcomes.len() > 0 {
                lemma_step_inbound_preserves_inv(
                    m.handler,
                    FromEngineModel::DownloadedBlocks(m.downloader.outcomes[0]),
                );
                lemma_advance_preserves_inv(
                    EngineModel {
                        handler: step_blocks(m.handler, m.downloader.outcomes[0]),
                        downloader: crate::engine::DownloaderModel {
                            outcomes: m.downloader.outcomes.drop_first(),
                            ..m.downloader
                        },
                        ..m
                    },
                );
            }
        },
    }
}

/// Coalescing: however many fork-choice-update requests arrive while one is
/// active, none of them is submitted to the tree handler — only the latest is
/// retained in the queued slot, ready to be submitted when the active one
/// completes; the intermediate targets are dropped.
pub proof fn lemma_fork_choice_coalescing(m: HandlerModel, heads: Seq<u64>)
    requires
        m.orchestrator_state is Live,
        m.pending_fcu is Some,
    ensures
        ({
            let end = step_requests(m, fcu_requests(heads));
            &&& end.tree_submissions == m.tree_submissions
            &&& end.pending_fcu == m.pending_fcu
            &&& end.orchestrator_state == m.orchestrator_state
            &&& end.pending_payloads == m.pending_payloads
            &&& (heads.len() > 0 ==> end.next_fcu == Some(heads.last()))
            &&& (heads.len() == 0 ==> end == m)
        }),
    decreases heads.len(),
{
    let reqs = fcu_requests(heads);
    if heads.len() > 0 {
        let m1 = step_request(m, reqs[0]);
        assert(fcu_requests(heads.drop_first()) =~= reqs.drop_first());
        lemma_fork_choice_coalescing(m1, heads.drop_first());
        if heads.len() > 1 {
            assert(heads.drop_first().last() == heads.last());
        }
    }
}

/// Concurrent payload admission: distinct, not-yet-pending payload requests
/// arriving in live mode are all admitted without any completing first — each
/// is registered and submitted to the tree handler, and nothing else changes.
pub proof fn lemma_concurrent_payload_admission(m: HandlerModel, hashes: Seq<u64>)
    requires
        m.orchestrator_state is Live,
        hashes.no_duplicates(),
        forall|i: int| 0 <= i < hashes.len() ==> !m.pending_payloads.contains(hashes[i]),
    ensures
        ({
            let end = step_requests(m, payload_requests(hashes));
            &&& end.pending_payloads == m.pending_payloads + hashes
            &&& end.pending_payloads.len() == m.pending_payloads.len() + hashes.len()
            &&& end.tree_submissions == m.tree_submissions + payload_submissions(hashes)
            &&& end.orchestrator_state == m.orchestrator_state
            &&& end.pending_fcu == m.pending_fcu
            &&& end.next_fcu == m.next_fcu
            &&& end.buffered_events == m.buffered_events
        }),
    decreases hashes.len(),
{
    let reqs = payload_requests(hashes);
    if hashes.len() == 0 {
        assert(m.pending_payloads + hashes =~= m.pending_payloads);
        assert(m.tree_submissions + payload_submissions(hashes) =~= m.tree_submissions);
    } else {
        let h0 = hashes[0];
        let m1 = step_request(m, reqs[0]);
        assert(m1.pending_payloads == m.pending_payloads.push(h0));
        assert(payload_requests(hashes.drop_first()) =~= reqs.drop_first());
        assert(hashes.drop_first().no_duplicates()) by {
            assert(forall|i: int|
                0 <= i < hashes.drop_first().len() ==> hashes.drop_first()[i] == hashes[i + 1]);
        }
        assert forall|i: int|
            0 <= i < hashes.drop_first().len() implies !m1.pending_payloads.contains(
            hashes.drop_first()[i],
        ) by {
            let x = hashes.drop_first()[i];
            assert(x == hashes[i + 1]);
            assert(x != h0);
            if m1.pending_payloads.contains(x) {
                let j = choose|j: int|
                    0 <= j < m1.pending_payloads.len() && m1.pending_payloads[j] == x;
                assert(j < m.pending_payloads.len() ==> m.pending_payloads[j] == x);
            }
        }
        lemma_concurrent_payload_admission(m1, hashes.drop_first());
        assert(m.pending_payloads.push(h0) + hashes.drop_first() =~= m.pending_payloads + hashes);
        assert(m.tree_submissions.push(TreeSubmissionModel::Payload { hash: h0 })
            + payload_submissions(hashes.drop_first()) =~= m.tree_submissions
            + payload_submissions(hashes));
    }
}

/// Appending a need that the batch answers to needs none of which answer it
/// makes that need the first match.
proof fn lemma_first_match_push(
    needs: Seq<DownloadNeedModel>,
    x: DownloadNeedModel,
    blocks: Seq<SealedBlock>,
)
    requires
        first_match(needs, blocks) is None,
        batch_answers(x.request, blocks),
    ensures
        first_match(needs.push(x), blocks) == Some(needs.len() as int),
    decreases needs.len(),
{
    if needs.len() == 0 {
        assert(needs.push(x)[0] == x);
    } else {
        assert(needs.push(x)[0] == needs[0]);
        assert(needs.push(x).drop_first() =~= needs.drop_first().push(x));
        lemma_first_match_push(needs.drop_first(), x, blocks);
    }
}

/// Download round trip: a missing-ancestors outcome for a pending payload
/// yields exactly one download request and leaves the payload pending; once a
/// batch answering that request is delivered, the blocks are resubmitted to
/// the tree handler tagged with that payload, the recorded need is consumed,
/// and the payload's terminal outcome then removes it from the pending set.
pub proof fn lemma_download_round_trip(
    m: HandlerModel,
    hash: u64,
    request: DownloadRequestModel,
    blocks: Seq<SealedBlock>,
    status: PayloadStatus,
)
    requires
        m.orchestrator_state is Live,
        m.buffered_events.len() == 0,
        m.tree_outcomes.len() == 1,
        m.tree_outcomes[0] == (TreeOutcomeModel::MissingBlocks {
            origin: RequestOrigin::Payload(hash),
            request,
        }),
        m.pending_payloads.contains(hash),
        batch_answers(request, blocks),
        first_match(m.pending_downloads, blocks) is None,
    ensures
        ({
            let (m1, report) = step_poll(m);
            let m2 = step_blocks(m1, blocks);
            let m3 = step_poll(
                enqueue_outcome(m2, TreeOutcomeModel::PayloadProcessed { hash, status }),
            ).0;
            &&& report == RequestHandlerEventModel::<EngineApiEvent>::Download(request)
            &&& m1.pending_payloads == m.pending_payloads
            &&& m2.tree_submissions == m1.tree_submissions.push(
                TreeSubmissionModel::DownloadedBlocks {
                    origin: RequestOrigin::Payload(hash),
                    blocks,
                },
            )
            &&& m2.pending_downloads == m.pending_downloads
            &&& m3.pending_payloads == m.pending_payloads.remove_value(hash)
        }),
{
    let (m1, report) = step_poll(m);
    let need = DownloadNeedModel { request, origin: RequestOrigin::Payload(hash) };
    lemma_first_match_push(m.pending_downloads, need, blocks);
    let m2 = step_blocks(m1, blocks);
    assert(m1.pending_downloads[m.pending_downloads.len() as int] == need);
    assert(m1.pending_downloads.remove(m.pending_downloads.len() as int)
        =~= m.pending_downloads);
}

/// Pipeline escalation: a bulk-sync-required outcome is escalated exactly as a
/// pipeline event for its target, with every pending entry, the queue and the
/// submission log left untouched until a mode notification follows.
pub proof fn lemma_pipeline_escalation(m: HandlerModel, target: u64)
    requires
        m.buffered_events.len() == 0,
        m.tree_outcomes.len() > 0,
        m.tree_outcomes[0] == (TreeOutcomeModel::BulkSyncNeeded { target }),
    ensures
        ({
            let (m1, report) = step_poll(m);
            &&& report == RequestHandlerEventModel::<EngineApiEvent>::HandlerEvent(
                HandlerEvent::Pipeline(target),
            )
            &&& m1.pending_payloads == m.pending_payloads
            &&& m1.pending_fcu == m.pending_fcu
            &&& m1.next_fcu == m.next_fcu
            &&& m1.pending_downloads == m.pending_downloads
            &&& m1.tree_submissions == m.tree_submissions
            &&& m1.orchestrator_state == m.orchestrator_state
            &&& m1.tree_outcomes == m.tree_outcomes.drop_first()
        }),
{
}

/// Idle stability: advancing a quiescent engine reports no progress and leaves
/// the state exactly as it was — so advancing it any number of times does too.
pub proof fn lemma_idle_stability(m: EngineModel)
    requires
        engine_quiescent(m),
    ensures
        advance_spec(m) == (m, None::<HandlerEvent<EngineApiEvent>>),
{
}

} // verus!
