//! The coordinating actor: the sole owner of the pending-operation tables.
//! Commands register pending operations; network events resolve them, each
//! exactly once. Every transition is proved to implement the corresponding
//! step of the model in `model`.

use vstd::prelude::*;

use vstd::hash_map::HashMapWithView;
use vstd::hash_set::HashSetWithView;

use crate::events::{ConsistencyViolation, Effect, Event, NetworkEvent, RespondAction};
use crate::model::{event_step, respond_step, LoopModel, ModelEffect};
use crate::reply::{Reply, ReplyHandle, ReplyValue};

verus! {

broadcast use vstd::std_specs::hash::group_hash_axioms;

/// The result of planning a dial: either the peer already has a pending dial
/// (a duplicate, rejected at once) or the dial should be issued.
pub enum DialPlan {
    /// A dial for this peer is already pending: the command's reply fails
    /// without anything being issued.
    Duplicate(Reply),
    /// No dial is pending for this peer: register the routing hint, issue the
    /// dial, and settle with the issue outcome.
    Issue { peer_id: u64, sender: ReplyHandle },
}

/// Maps an exec outcome of event handling to its model-level description.
pub open spec fn effect_model(r: Result<Effect, ConsistencyViolation>) -> Result<
    ModelEffect,
    ConsistencyViolation,
> {
    match r {
        Ok(Effect::Reply(rep)) => Ok(ModelEffect::Deliver { handle: rep.handle, value: rep.value }),
        Ok(Effect::Emit(Event::InboundRequest { request, channel })) => Ok(
            ModelEffect::Emit { request, channel },
        ),
        Ok(Effect::Nothing) => Ok(ModelEffect::Nothing),
        Err(v) => Err(v),
    }
}

/// The coordinating actor's state: the four pending-operation tables and the
/// inbound response channels that are still unanswered.
pub struct EventLoop {
    pending_dial: HashMapWithView<u64, ReplyHandle>,
    pending_start_providing: HashMapWithView<u64, ReplyHandle>,
    pending_get_providers: HashMapWithView<u64, ReplyHandle>,
    pending_request_file: HashMapWithView<u64, ReplyHandle>,
    open_channels: HashSetWithView<u64>,
}

impl View for EventLoop {
    type V = LoopModel;

    closed spec fn view(&self) -> LoopModel {
        LoopModel {
            dials: self.pending_dial@,
            advertisements: self.pending_start_providing@,
            lookups: self.pending_get_providers@,
            requests: self.pending_request_file@,
            channels: self.open_channels@,
        }
    }
}

impl EventLoop {
    /// A fresh actor with no pending operations and no open channels.
    pub fn new() -> (r: EventLoop)
        ensures
            r@ == LoopModel::empty(),
    {
        let r = EventLoop {
            pending_dial: HashMapWithView::new(),
            pending_start_providing: HashMapWithView::new(),
            pending_get_providers: HashMapWithView::new(),
            pending_request_file: HashMapWithView::new(),
            open_channels: HashSetWithView::new(),
        };
        proof {
            assert(r@ =~= LoopModel::empty());
        }
        r
    }

    /// Whether a dial for this peer is pending.
    pub fn dial_is_pending(&self, peer_id: u64) -> (r: bool)
        ensures
            r == self@.dials.contains_key(peer_id),
    {
        self.pending_dial.contains_key(&peer_id)
    }

    /// Whether an advertise operation with this query identifier is pending.
    pub fn advertise_is_pending(&self, query_id: u64) -> (r: bool)
        ensures
            r == self@.advertisements.contains_key(query_id),
    {
        self.pending_start_providing.contains_key(&query_id)
    }

    /// Whether a lookup operation with this query identifier is pending.
    pub fn lookup_is_pending(&self, query_id: u64) -> (r: bool)
        ensures
            r == self@.lookups.contains_key(query_id),
    {
        self.pending_get_providers.contains_key(&query_id)
    }

    /// Whether an outbound file request with this identifier is pending.
    pub fn request_is_pending(&self, request_id: u64) -> (r: bool)
        ensures
            r == self@.requests.contains_key(request_id),
    {
        self.pending_request_file.contains_key(&request_id)
    }

    /// Whether this inbound response channel is still open.
    pub fn channel_is_open(&self, channel: u64) -> (r: bool)
        ensures
            r == self@.channels.contains(channel),
    {
        self.open_channels.contains(&channel)
    }

    /// Decides a `Dial` command before anything is issued: a peer with a dial
    /// already pending is a duplicate-dial error, reported at once; otherwise
    /// the dial is to be issued and settled with `settle_dial`.
    pub fn plan_dial(&self, peer_id: u64, sender: ReplyHandle) -> (r: DialPlan)
        ensures
            self@.dials.contains_key(peer_id) ==> ({
                &&& r matches DialPlan::Duplicate(rep)
                &&& rep.handle@ == sender@
                &&& rep.value matches ReplyValue::Failed(m)
                &&& m@ == "already dialing peer"@
            }),
            !self@.dials.contains_key(peer_id) ==> r == (DialPlan::Issue { peer_id, sender }),
    {
        if self.pending_dial.contains_key(&peer_id) {
            DialPlan::Duplicate(sender.fulfill(ReplyValue::Failed("already dialing peer".to_owned())))
        } else {
            DialPlan::Issue { peer_id, sender }
        }
    }

    /// Settles an issued dial: on successful initiation the reply handle is
    /// parked in the pending-dial table until a connection outcome arrives;
    /// on immediate failure the reply fails at once and nothing is inserted.
    pub fn settle_dial(&mut self, peer_id: u64, sender: ReplyHandle, issue: Result<(), String>) -> (r:
        Option<Reply>)
        requires
            !old(self)@.dials.contains_key(peer_id),
        ensures
            issue is Ok ==> final(self)@ == old(self)@.with_dials(
                old(self)@.dials.insert(peer_id, sender),
            ) && r is None,
            issue matches Err(e) ==> ({
                &&& final(self)@ == old(self)@
                &&& r matches Some(rep)
                &&& rep.handle@ == sender@
                &&& rep.value == ReplyValue::Failed(e)
            }),
    {
        match issue {
            Ok(()) => {
                self.pending_dial.insert(peer_id, sender);
                proof {
                    assert(final(self)@ =~= old(self)@.with_dials(
                        old(self)@.dials.insert(peer_id, sender),
                    ));
                }
                None
            },
            Err(e) => Some(sender.fulfill(ReplyValue::Failed(e))),
        }
    }

    /// Parks the reply handle of an issued advertise operation under its
    /// query identifier.
    pub fn register_start_providing(&mut self, query_id: u64, sender: ReplyHandle)
        requires
            !old(self)@.advertisements.contains_key(query_id),
        ensures
            final(self)@ == old(self)@.with_advertisements(
                old(self)@.advertisements.insert(query_id, sender),
            ),
    {
        self.pending_start_providing.insert(query_id, sender);
        proof {
            assert(final(self)@ =~= old(self)@.with_advertisements(
                old(self)@.advertisements.insert(query_id, sender),
            ));
        }
    }

    /// Parks the reply handle of an issued lookup operation under its query
    /// identifier.
    pub fn register_get_providers(&mut self, query_id: u64, sender: ReplyHandle)
        requires
            !old(self)@.lookups.contains_key(query_id),
        ensures
            final(self)@ == old(self)@.with_lookups(old(self)@.lookups.insert(query_id, sender)),
    {
        self.pending_get_providers.insert(query_id, sender);
        proof {
            assert(final(self)@ =~= old(self)@.with_lookups(
                old(self)@.lookups.insert(query_id, sender),
            ));
        }
    }

    /// Parks the reply handle of an issued outbound file request under its
    /// request identifier.
    pub fn register_request_file(&mut self, request_id: u64, sender: ReplyHandle)
        requires
            !old(self)@.requests.contains_key(request_id),
        ensures
            final(self)@ == old(self)@.with_requests(
                old(self)@.requests.insert(request_id, sender),
            ),
    {
        self.pending_request_file.insert(request_id, sender);
        proof {
            assert(final(self)@ =~= old(self)@.with_requests(
                old(self)@.requests.insert(request_id, sender),
            ));
        }
    }

    /// Handles a `RespondFile` command: the channel is consumed exactly when
    /// it is still open, and the substrate is asked to send the content; a
    /// second respond through the same channel is rejected.
    pub fn handle_respond_file(&mut self, file: String, channel: u64) -> (r: Result<
        RespondAction,
        ConsistencyViolation,
    >)
        ensures
            final(self)@ == respond_step(old(self)@, channel).0,
            r matches Ok(a) ==> respond_step(old(self)@, channel).1 == Ok::<
                u64,
                ConsistencyViolation,
            >(a.channel) && a.channel == channel && a.file == file,
            r matches Err(v) ==> respond_step(old(self)@, channel).1 == Err::<
                u64,
                ConsistencyViolation,
            >(v),
    {
        if self.open_channels.remove(&channel) {
            proof {
                assert(final(self)@ =~= old(self)@.with_channels(old(self)@.channels.remove(channel)));
            }
            Ok(RespondAction { channel, file })
        } else {
            proof {
                assert(final(self)@ =~= old(self)@);
            }
            Err(ConsistencyViolation::ChannelAlreadyUsed { channel })
        }
    }

    /// Handles one network event: a terminal completion resolves its pending
    /// entry, removing it and delivering exactly one reply; a completion that
    /// correlates with no pending entry is a consistency violation; an
    /// inbound request opens its channel and is pushed to the driver; every
    /// other event is observed and ignored. Implements `event_step` exactly.
    pub fn handle_event(&mut self, ev: NetworkEvent) -> (r: Result<Effect, ConsistencyViolation>)
        ensures
            final(self)@ == event_step(old(self)@, ev).0,
            effect_model(r) == event_step(old(self)@, ev).1,
    {
        match ev {
            NetworkEvent::AdvertiseCompleted { query_id } => {
                match self.pending_start_providing.remove(&query_id) {
                    Some(sender) => {
                        proof {
                            assert(final(self)@ =~= event_step(old(self)@, ev).0);
                        }
                        Ok(Effect::Reply(sender.fulfill(ReplyValue::Done)))
                    },
                    None => Err(ConsistencyViolation::UnknownAdvertiseCompletion { query_id }),
                }
            },
            NetworkEvent::LookupCompleted { query_id, providers } => {
                match self.pending_get_providers.remove(&query_id) {
                    Some(sender) => {
                        proof {
                            assert(final(self)@ =~= event_step(old(self)@, ev).0);
                        }
                        Ok(Effect::Reply(sender.fulfill(ReplyValue::Providers(providers))))
                    },
                    None => Err(ConsistencyViolation::UnknownLookupCompletion { query_id }),
                }
            },
            NetworkEvent::InboundRequestMessage { request, channel } => {
                if self.open_channels.insert(channel) {
                    proof {
                        assert(final(self)@ =~= event_step(old(self)@, ev).0);
                    }
                    Ok(Effect::Emit(Event::InboundRequest { request, channel }))
                } else {
                    proof {
                        assert(final(self)@ =~= old(self)@);
                    }
                    Err(ConsistencyViolation::ChannelReopened { channel })
                }
            },
            NetworkEvent::OutboundResponseMessage { request_id, response } => {
                match self.pending_request_file.remove(&request_id) {
                    Some(sender) => {
                        proof {
                            assert(final(self)@ =~= event_step(old(self)@, ev).0);
                        }
                        Ok(Effect::Reply(sender.fulfill(ReplyValue::File(response))))
                    },
                    None => Err(ConsistencyViolation::UnknownRequestCompletion { request_id }),
                }
            },
            NetworkEvent::OutboundFailure { request_id, error } => {
                match self.pending_request_file.remove(&request_id) {
                    Some(sender) => {
                        proof {
                            assert(final(self)@ =~= event_step(old(self)@, ev).0);
                        }
                        Ok(Effect::Reply(sender.fulfill(ReplyValue::Failed(error))))
                    },
                    None => Err(ConsistencyViolation::UnknownRequestCompletion { request_id }),
                }
            },
            NetworkEvent::ConnectionEstablished { peer_id, dialer } => {
                if dialer {
                    match self.pending_dial.remove(&peer_id) {
                        Some(sender) => {
                            proof {
                                assert(final(self)@ =~= event_step(old(self)@, ev).0);
                            }
                            Ok(Effect::Reply(sender.fulfill(ReplyValue::Done)))
                        },
                        None => Ok(Effect::Nothing),
                    }
                } else {
                    Ok(Effect::Nothing)
                }
            },
            NetworkEvent::OutgoingConnectionError { peer_id, error } => {
                match peer_id {
                    Some(p) => {
                        match self.pending_dial.remove(&p) {
                            Some(sender) => {
                                proof {
                                    assert(final(self)@ =~= event_step(old(self)@, ev).0);
                                }
                                Ok(Effect::Reply(sender.fulfill(ReplyValue::Failed(error))))
                            },
                            None => Ok(Effect::Nothing),
                        }
                    },
                    None => Ok(Effect::Nothing),
                }
            },
            NetworkEvent::ResponseSent => Ok(Effect::Nothing),
            NetworkEvent::NewListenAddr { .. } => Ok(Effect::Nothing),
            NetworkEvent::IncomingConnection => Ok(Effect::Nothing),
            NetworkEvent::ConnectionClosed => Ok(Effect::Nothing),
            NetworkEvent::IncomingConnectionError => Ok(Effect::Nothing),
            NetworkEvent::Dialing { .. } => Ok(Effect::Nothing),
        }
    }
}

/// The reply for a `StartListening` command: binding the transport completes
/// synchronously, so the outcome is known at once and no pending entry is
/// needed.
pub fn listen_reply(sender: ReplyHandle, outcome: Result<(), String>) -> (r: Reply)
    ensures
        r.handle@ == sender@,
        outcome is Ok ==> r.value == ReplyValue::Done,
        outcome matches Err(e) ==> r.value == ReplyValue::Failed(e),
{
    match outcome {
        Ok(()) => sender.fulfill(ReplyValue::Done),
        Err(e) => sender.fulfill(ReplyValue::Failed(e)),
    }
}

} // verus!
