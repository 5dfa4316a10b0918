//! The top-level orchestration loop: merges internally-generated handler
//! progress, externally-arriving consensus-layer requests and asynchronous
//! block-download completions into one prioritized control loop.
//!
//! The loop's whole behaviour is given by the recursive [`advance_spec`]
//! function over [`EngineModel`].

use vstd::prelude::*;

use crate::events::DownloadRequest;
use crate::events::DownloadRequestModel;
use crate::events::EngineApiEvent;
use crate::events::EngineApiRequest;
use crate::events::FromEngine;
use crate::events::FromEngineModel;
use crate::events::FromOrchestrator;
use crate::events::HandlerEvent;
use crate::events::RequestHandlerEvent;
use crate::events::RequestHandlerEventModel;
use crate::events::SealedBlock;
use crate::handler::EngineApiRequestHandler;
use crate::handler::HandlerModel;
use crate::handler::step_blocks;
use crate::handler::step_inbound;
use crate::handler::step_poll;
use crate::handler::step_request;

verus! {

/// Mathematical state of the downloader mailbox.
#[verifier::ext_equal]
pub struct DownloaderModel {
    /// Download requests handed over, in order.
    pub actions: Seq<DownloadRequestModel>,
    /// Completed batches awaiting pickup, in completion order.
    pub outcomes: Seq<Seq<SealedBlock>>,
}

/// Mailbox interface to the network block downloader. The network side is an
/// external collaborator: it consumes the recorded actions, deduplicates and
/// tracks them, and delivers completed batches of sealed blocks with recovered
/// senders; this type only records what was asked and what arrived.
pub struct BlockDownloader {
    /// Download requests handed over (fire-and-forget), in order.
    actions: Vec<DownloadRequest>,
    /// Completed batches awaiting pickup, in completion order.
    outcomes: std::collections::VecDeque<Vec<SealedBlock>>,
}

impl View for BlockDownloader {
    type V = DownloaderModel;

    closed spec fn view(&self) -> DownloaderModel {
        DownloaderModel {
            actions: self.actions@.map_values(|a: DownloadRequest| a@),
            outcomes: self.outcomes@.map_values(|b: Vec<SealedBlock>| b@),
        }
    }
}

impl BlockDownloader {
    /// A downloader mailbox with nothing asked and nothing delivered.
    pub fn new() -> (r: Self)
        ensures
            r@.actions.len() == 0,
            r@.outcomes.len() == 0,
    {
        let r = BlockDownloader {
            actions: Vec::new(),
            outcomes: std::collections::VecDeque::new(),
        };
        proof {
            assert(r@.actions =~= Seq::<DownloadRequestModel>::empty());
            assert(r@.outcomes =~= Seq::<Seq<SealedBlock>>::empty());
        }
        r
    }

    /// Records a download request for the network side to pick up.
    pub fn on_action(&mut self, request: DownloadRequest)
        ensures
            final(self)@.actions == old(self)@.actions.push(request@),
            final(self)@.outcomes == old(self)@.outcomes,
    {
        self.actions.push(request);
        proof {
            assert(final(self)@.actions =~= old(self)@.actions.push(request@));
            assert(final(self)@.outcomes =~= old(self)@.outcomes);
        }
    }

    /// Yields the oldest completed batch, if one has arrived.
    pub fn poll(&mut self) -> (r: Option<Vec<SealedBlock>>)
        ensures
            final(self)@.actions == old(self)@.actions,
            match r {
                Some(blocks) => old(self)@.outcomes.len() > 0 && blocks@ == old(
                    self,
                )@.outcomes[0] && final(self)@.outcomes == old(self)@.outcomes.drop_first(),
                None => old(self)@.outcomes.len() == 0 && final(self)@.outcomes == old(
                    self,
                )@.outcomes,
            },
    {
        let r = self.outcomes.pop_front();
        proof {
            assert(final(self)@.actions =~= old(self)@.actions);
            if old(self).outcomes@.len() > 0 {
                assert(final(self)@.outcomes =~= old(self)@.outcomes.drop_first());
            } else {
                assert(final(self)@.outcomes =~= old(self)@.outcomes);
            }
        }
        r
    }

    /// Called by the network side when a requested batch has been downloaded.
    pub fn deliver(&mut self, blocks: Vec<SealedBlock>)
        ensures
            final(self)@.actions == old(self)@.actions,
            final(self)@.outcomes == old(self)@.outcomes.push(blocks@),
    {
        self.outcomes.push_back(blocks);
        proof {
            assert(final(self)@.actions =~= old(self)@.actions);
            assert(final(self)@.outcomes =~= old(self)@.outcomes.push(blocks@));
        }
    }

    /// The download requests handed over so far, in order.
    pub fn actions_sent(&self) -> (r: &Vec<DownloadRequest>)
        ensures
            r@.map_values(|a: DownloadRequest| a@) == self@.actions,
    {
        &self.actions
    }

    /// How many completed batches are waiting to be picked up.
    pub fn outcome_count(&self) -> (r: usize)
        ensures
            r == self@.outcomes.len(),
    {
        self.outcomes.len()
    }
}

/// Mathematical state of the whole engine: the request handler, the incoming
/// request stream and the downloader mailbox.
#[verifier::ext_equal]
pub struct EngineModel {
    /// State of the request handler.
    pub handler: HandlerModel,
    /// External requests received and not yet handed to the handler.
    pub incoming: Seq<EngineApiRequest>,
    /// State of the downloader mailbox.
    pub downloader: DownloaderModel,
}

/// Work remaining before an advance cycle must report: used as the termination
/// measure of the loop. Handing a request or a batch to the handler can buffer
/// at most one event, so each counts twice.
pub open spec fn engine_measure(m: EngineModel) -> nat {
    m.handler.buffered_events.len() + m.handler.tree_outcomes.len() + 2 * m.incoming.len() + 2
        * m.downloader.outcomes.len()
}

/// Nothing is waiting anywhere: polling the handler reports idle and there is
/// no inbound event to hand to it.
pub open spec fn engine_quiescent(m: EngineModel) -> bool {
    &&& m.handler.buffered_events.len() == 0
    &&& m.handler.tree_outcomes.len() == 0
    &&& m.incoming.len() == 0
    &&& m.downloader.outcomes.len() == 0
}

/// One advance cycle: drain the handler first, forwarding download requests to
/// the downloader, and return an escalation as soon as one appears; once the
/// handler is idle, hand it the next external request if one is available —
/// observed before any download bookkeeping — otherwise the oldest completed
/// download batch; report no progress only when nothing is waiting anywhere.
pub open spec fn advance_spec(m: EngineModel) -> (EngineModel, Option<
    HandlerEvent<EngineApiEvent>,
>)
    decreases engine_measure(m),
{
    let (polled, report) = step_poll(m.handler);
    match report {
        RequestHandlerEventModel::HandlerEvent(ev) => (
            EngineModel { handler: polled, ..m },
            Some(ev),
        ),
        RequestHandlerEventModel::Download(request) => advance_spec(
            EngineModel {
                handler: polled,
                downloader: DownloaderModel {
                    actions: m.downloader.actions.push(request),
                    ..m.downloader
                },
                ..m
            },
        ),
        RequestHandlerEventModel::Idle => {
            if m.incoming.len() > 0 {
                advance_spec(
                    EngineModel {
                        handler: step_request(m.handler, m.incoming[0]),
                        incoming: m.incoming.drop_first(),
                        ..m
                    },
                )
            } else if m.downloader.outcomes.len() > 0 {
                advance_spec(
                    EngineModel {
                        handler: step_blocks(m.handler, m.downloader.outcomes[0]),
                        downloader: DownloaderModel {
                            outcomes: m.downloader.outcomes.drop_first(),
                            ..m.downloader
                        },
                        ..m
                    },
                )
            } else {
                (m, None)
            }
        },
    }
}

/// Advances the chain based on incoming requests.
///
/// This is the top-level orchestrator: it owns the request handler, the
/// receiver of incoming consensus-layer requests and the downloader mailbox,
/// and runs the prioritized poll loop. It owns no chain state itself, only the
/// plumbing.
pub struct EngineHandler {
    /// Processes requests.
    handler: EngineApiRequestHandler,
    /// Receiver for incoming requests that need to be processed, in arrival
    /// order, each consumed exactly once.
    incoming_requests: std::collections::VecDeque<EngineApiRequest>,
    /// Mailbox of the downloader used to download blocks on demand.
    downloader: BlockDownloader,
}

impl View for EngineHandler {
    type V = EngineModel;

    closed spec fn view(&self) -> EngineModel {
        EngineModel {
            handler: self.handler@,
            incoming: self.incoming_requests@,
            downloader: self.downloader@,
        }
    }
}

impl EngineHandler {
    /// A fresh engine around the given handler and downloader, with no
    /// requests received yet.
    pub fn new(handler: EngineApiRequestHandler, downloader: BlockDownloader) -> (r: Self)
        ensures
            r@ == (EngineModel { handler: handler@, incoming: Seq::empty(), downloader: downloader@ }),
    {
        let r = EngineHandler {
            handler,
            incoming_requests: std::collections::VecDeque::new(),
            downloader,
        };
        proof {
            assert(r@ =~~= (EngineModel {
                handler: r.handler@,
                incoming: Seq::empty(),
                downloader: r.downloader@,
            }));
        }
        r
    }

    /// Forwards a mode-transition notification to the request handler
    /// immediately, with no buffering.
    pub fn on_event(&mut self, event: FromOrchestrator)
        ensures
            final(self)@ == (EngineModel {
                handler: step_inbound(old(self)@.handler, FromEngineModel::Event(event)),
                ..old(self)@
            }),
    {
        self.handler.on_event(FromEngine::from(event));
        proof {
            assert(self@ =~~= (EngineModel {
                handler: step_inbound(old(self)@.handler, FromEngineModel::Event(event)),
                ..old(self)@
            }));
        }
    }

    /// Receives one external request from the consensus layer; it will be
    /// handed to the request handler by a later advance cycle.
    pub fn push_request(&mut self, request: EngineApiRequest)
        ensures
            final(self)@ == (EngineModel {
                incoming: old(self)@.incoming.push(request),
                ..old(self)@
            }),
    {
        self.incoming_requests.push_back(request);
        proof {
            assert(self@ =~~= (EngineModel {
                incoming: old(self)@.incoming.push(request),
                ..old(self)@
            }));
        }
    }

    /// Called by the network side when a requested batch has been downloaded.
    pub fn deliver_blocks(&mut self, blocks: Vec<SealedBlock>)
        ensures
            final(self)@ == (EngineModel {
                downloader: DownloaderModel {
                    outcomes: old(self)@.downloader.outcomes.push(blocks@),
                    ..old(self)@.downloader
                },
                ..old(self)@
            }),
    {
        self.downloader.deliver(blocks);
        proof {
            assert(self@ =~~= (EngineModel {
                downloader: DownloaderModel {
                    outcomes: old(self)@.downloader.outcomes.push(blocks@),
                    ..old(self)@.downloader
                },
                ..old(self)@
            }));
        }
    }

    /// Runs one advance cycle and reports chain progress, a pipeline
    /// escalation, or no progress; its whole effect is [`advance_spec`] on the
    /// engine's view.
    #[verifier::loop_isolation(false)]
    pub fn advance(&mut self) -> (r: Option<HandlerEvent<EngineApiEvent>>)
        ensures
            final(self)@ == advance_spec(old(self)@).0,
            r == advance_spec(old(self)@).1,
    {
        loop
            invariant
                advance_spec(self@) == advance_spec(old(self)@),
            decreases engine_measure(self@),
        {
            let ghost pre = self@;
            let report = self.handler.poll();
            match report {
                RequestHandlerEvent::HandlerEvent(ev) => {
                    proof {
                        assert(self@ =~~= (EngineModel {
                            handler: step_poll(pre.handler).0,
                            ..pre
                        }));
                    }
                    return Some(ev);
                },
                RequestHandlerEvent::Download(request) => {
                    self.downloader.on_action(request);
                    proof {
                        assert(self@ =~~= (EngineModel {
                            handler: step_poll(pre.handler).0,
                            downloader: DownloaderModel {
                                actions: pre.downloader.actions.push(
                                    step_poll(pre.handler).1->Download_0,
                                ),
                                ..pre.downloader
                            },
                            ..pre
                        }));
                    }
                },
                RequestHandlerEvent::Idle => {
                    let next = self.incoming_requests.pop_front();
                    match next {
                        Some(request) => {
                            self.handler.on_event(FromEngine::Request(request));
                            proof {
                                assert(self@ =~~= (EngineModel {
                                    handler: step_request(pre.handler, pre.incoming[0]),
                                    incoming: pre.incoming.drop_first(),
                                    ..pre
                                }));
                            }
                        },
                        None => {
                            let batch = self.downloader.poll();
                            match batch {
                                Some(blocks) => {
                                    self.handler.on_event(FromEngine::DownloadedBlocks(blocks));
                                    proof {
                                        assert(self@ =~~= (EngineModel {
                                            handler: step_blocks(
                                                pre.handler,
                                                pre.downloader.outcomes[0],
                                            ),
                                            downloader: DownloaderModel {
                                                outcomes: pre.downloader.outcomes.drop_first(),
                                                ..pre.downloader
                                            },
                                            ..pre
                                        }));
                                    }
                                },
                                None => {
                                    proof {
                                        assert(self@ =~~= pre);
                                    }
                                    return None;
                                },
                            }
                        },
                    }
                },
            }
        }
    }

    /// The request handler, for inspection.
    pub fn handler(&self) -> (r: &EngineApiRequestHandler)
        ensures
            r@ == self@.handler,
    {
        &self.handler
    }

    /// The downloader mailbox, for inspection and for the network side.
    pub fn downloader(&self) -> (r: &BlockDownloader)
        ensures
            r@ == self@.downloader,
    {
        &self.downloader
    }

    /// Hands each tree outcome to the request handler; the tree handler's
    /// asynchronous side calls this as results become ready.
    pub fn on_tree_outcome(&mut self, outcome: crate::events::TreeOutcome)
        ensures
            final(self)@ == (EngineModel {
                handler: crate::handler::enqueue_outcome(old(self)@.handler, outcome@),
                ..old(self)@
            }),
    {
        self.handler.on_tree_outcome(outcome);
        proof {
            assert(self@ =~~= (EngineModel {
                handler: crate::handler::enqueue_outcome(old(self)@.handler, outcome@),
                ..old(self)@
            }));
        }
    }
}

} // verus!
