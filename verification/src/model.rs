//! The mathematical model of the coordinating actor: its pending-operation
//! state and the transition its event handling performs on it. The executable
//! actor in `event_loop` is proved to implement these transitions exactly.

use vstd::prelude::*;

use crate::events::{ConsistencyViolation, NetworkEvent};
use crate::reply::{ReplyHandle, ReplyValue};

verus! {

/// The actor's pending-operation tables, as specifications see them: each
/// table maps an in-flight operation's correlation number to the reply handle
/// awaiting its outcome, and `channels` holds the inbound response channels
/// that are still unanswered.
#[verifier::ext_equal]
pub struct LoopModel {
    /// Pending dials, keyed by peer identifier.
    pub dials: Map<u64, ReplyHandle>,
    /// Pending advertise operations, keyed by query identifier.
    pub advertisements: Map<u64, ReplyHandle>,
    /// Pending lookup operations, keyed by query identifier.
    pub lookups: Map<u64, ReplyHandle>,
    /// Pending outbound file requests, keyed by request identifier.
    pub requests: Map<u64, ReplyHandle>,
    /// Open inbound response channels, each answerable at most once.
    pub channels: Set<u64>,
}

impl LoopModel {
    /// The model with every table empty.
    pub open spec fn empty() -> LoopModel {
        LoopModel {
            dials: Map::empty(),
            advertisements: Map::empty(),
            lookups: Map::empty(),
            requests: Map::empty(),
            channels: Set::empty(),
        }
    }

    pub open spec fn with_dials(self, m: Map<u64, ReplyHandle>) -> LoopModel {
        LoopModel { dials: m, ..self }
    }

    pub open spec fn with_advertisements(self, m: Map<u64, ReplyHandle>) -> LoopModel {
        LoopModel { advertisements: m, ..self }
    }

    pub open spec fn with_lookups(self, m: Map<u64, ReplyHandle>) -> LoopModel {
        LoopModel { lookups: m, ..self }
    }

    pub open spec fn with_requests(self, m: Map<u64, ReplyHandle>) -> LoopModel {
        LoopModel { requests: m, ..self }
    }

    pub open spec fn with_channels(self, s: Set<u64>) -> LoopModel {
        LoopModel { channels: s, ..self }
    }
}

/// What one transition of the model produces besides the next state.
pub enum ModelEffect {
    /// The handle is fulfilled with this value and delivered to its caller.
    Deliver { handle: ReplyHandle, value: ReplyValue },
    /// An inbound request is pushed to the application driver.
    Emit { request: String, channel: u64 },
    /// The event affects no pending operation.
    Nothing,
}

/// The transition the actor performs for one network event: which pending
/// entry it resolves, what it delivers, and which events it must reject as
/// internal-consistency violations.
pub open spec fn event_step(pre: LoopModel, ev: NetworkEvent) -> (LoopModel, Result<
    ModelEffect,
    ConsistencyViolation,
>) {
    match ev {
        NetworkEvent::AdvertiseCompleted { query_id } => {
            if pre.advertisements.contains_key(query_id) {
                (
                    pre.with_advertisements(pre.advertisements.remove(query_id)),
                    Ok(
                        ModelEffect::Deliver {
                            handle: pre.advertisements[query_id],
                            value: ReplyValue::Done,
                        },
                    ),
                )
            } else {
                (pre, Err(ConsistencyViolation::UnknownAdvertiseCompletion { query_id }))
            }
        },
        NetworkEvent::LookupCompleted { query_id, providers } => {
            if pre.lookups.contains_key(query_id) {
                (
                    pre.with_lookups(pre.lookups.remove(query_id)),
                    Ok(
                        ModelEffect::Deliver {
                            handle: pre.lookups[query_id],
                            value: ReplyValue::Providers(providers),
                        },
                    ),
                )
            } else {
                (pre, Err(ConsistencyViolation::UnknownLookupCompletion { query_id }))
            }
        },
        NetworkEvent::InboundRequestMessage { request, channel } => {
            if pre.channels.contains(channel) {
                (pre, Err(ConsistencyViolation::ChannelReopened { channel }))
            } else {
                (
                    pre.with_channels(pre.channels.insert(channel)),
                    Ok(ModelEffect::Emit { request, channel }),
                )
            }
        },
        NetworkEvent::OutboundResponseMessage { request_id, response } => {
            if pre.requests.contains_key(request_id) {
                (
                    pre.with_requests(pre.requests.remove(request_id)),
                    Ok(
                        ModelEffect::Deliver {
                            handle: pre.requests[request_id],
                            value: ReplyValue::File(response),
                        },
                    ),
                )
            } else {
                (pre, Err(ConsistencyViolation::UnknownRequestCompletion { request_id }))
            }
        },
        NetworkEvent::OutboundFailure { request_id, error } => {
            if pre.requests.contains_key(request_id) {
                (
                    pre.with_requests(pre.requests.remove(request_id)),
                    Ok(
                        ModelEffect::Deliver {
                            handle: pre.requests[request_id],
                            value: ReplyValue::Failed(error),
                        },
                    ),
                )
            } else {
                (pre, Err(ConsistencyViolation::UnknownRequestCompletion { request_id }))
            }
        },
        NetworkEvent::ConnectionEstablished { peer_id, dialer } => {
            if dialer && pre.dials.contains_key(peer_id) {
                (
                    pre.with_dials(pre.dials.remove(peer_id)),
                    Ok(ModelEffect::Deliver { handle: pre.dials[peer_id], value: ReplyValue::Done }),
                )
            } else {
                (pre, Ok(ModelEffect::Nothing))
            }
        },
        NetworkEvent::OutgoingConnectionError { peer_id, error } => {
            match peer_id {
                Some(p) => {
                    if pre.dials.contains_key(p) {
                        (
                            pre.with_dials(pre.dials.remove(p)),
                            Ok(
                                ModelEffect::Deliver {
                                    handle: pre.dials[p],
                                    value: ReplyValue::Failed(error),
                                },
                            ),
                        )
                    } else {
                        (pre, Ok(ModelEffect::Nothing))
                    }
                },
                None => (pre, Ok(ModelEffect::Nothing)),
            }
        },
        _ => (pre, Ok(ModelEffect::Nothing)),
    }
}

/// The transition for answering an inbound request: the channel is consumed
/// exactly when it is still open; answering through a consumed or unknown
/// channel is a violation.
pub open spec fn respond_step(pre: LoopModel, channel: u64) -> (LoopModel, Result<
    u64,
    ConsistencyViolation,
>) {
    if pre.channels.contains(channel) {
        (pre.with_channels(pre.channels.remove(channel)), Ok(channel))
    } else {
        (pre, Err(ConsistencyViolation::ChannelAlreadyUsed { channel }))
    }
}

/// Whether some entry of the table awaits this handle.
pub open spec fn table_awaits(m: Map<u64, ReplyHandle>, h: ReplyHandle) -> bool {
    exists|k: u64| #[trigger] m.contains_key(k) && m[k] == h
}

/// Whether at most one entry of the table awaits this handle.
pub open spec fn table_awaits_at_most_once(m: Map<u64, ReplyHandle>, h: ReplyHandle) -> bool {
    forall|k1: u64, k2: u64|
        #[trigger] m.contains_key(k1) && #[trigger] m.contains_key(k2) && m[k1] == h && m[k2] == h
            ==> k1 == k2
}

/// Whether some pending operation awaits this handle.
pub open spec fn awaits(pre: LoopModel, h: ReplyHandle) -> bool {
    ||| table_awaits(pre.dials, h)
    ||| table_awaits(pre.advertisements, h)
    ||| table_awaits(pre.lookups, h)
    ||| table_awaits(pre.requests, h)
}

/// Whether at most one pending operation, across all four tables, awaits this
/// handle — what holds of every handle the client facade mints, since a
/// handle is owned and parked under exactly one correlation number.
pub open spec fn uniquely_pending(pre: LoopModel, h: ReplyHandle) -> bool {
    &&& table_awaits_at_most_once(pre.dials, h)
    &&& table_awaits_at_most_once(pre.advertisements, h)
    &&& table_awaits_at_most_once(pre.lookups, h)
    &&& table_awaits_at_most_once(pre.requests, h)
    &&& table_awaits(pre.dials, h) ==> !table_awaits(pre.advertisements, h) && !table_awaits(
        pre.lookups,
        h,
    ) && !table_awaits(pre.requests, h)
    &&& table_awaits(pre.advertisements, h) ==> !table_awaits(pre.lookups, h) && !table_awaits(
        pre.requests,
        h,
    )
    &&& table_awaits(pre.lookups, h) ==> !table_awaits(pre.requests, h)
}

/// How many replies a run over the given events, in order, delivers to the
/// handle.
pub open spec fn deliveries_to(pre: LoopModel, evs: Seq<NetworkEvent>, h: ReplyHandle) -> nat
    decreases evs.len(),
{
    if evs.len() == 0 {
        0
    } else {
        let step = event_step(pre, evs[0]);
        (match step.1 {
            Ok(ModelEffect::Deliver { handle, .. }) => if handle == h {
                1nat
            } else {
                0nat
            },
            _ => 0nat,
        }) + deliveries_to(step.0, evs.drop_first(), h)
    }
}

proof fn lemma_table_remove(m: Map<u64, ReplyHandle>, k: u64, h: ReplyHandle)
    requires
        m.contains_key(k),
        table_awaits_at_most_once(m, h),
    ensures
        table_awaits_at_most_once(m.remove(k), h),
        m[k] == h ==> !table_awaits(m.remove(k), h),
        m[k] != h ==> (table_awaits(m.remove(k), h) <==> table_awaits(m, h)),
        !table_awaits(m, h) ==> !table_awaits(m.remove(k), h),
{
    if m[k] != h && table_awaits(m, h) {
        let w = choose|w: u64| #[trigger] m.contains_key(w) && m[w] == h;
        assert(m.remove(k).contains_key(w) && m.remove(k)[w] == h);
    }
}

/// One step's effect on a handle's pending entries: tables only shrink, so a
/// handle nobody awaits stays that way and gets no reply; and when the step
/// delivers to a uniquely pending handle, no entry awaits it afterwards.
proof fn lemma_step_delivery(pre: LoopModel, ev: NetworkEvent, h: ReplyHandle)
    requires
        uniquely_pending(pre, h),
    ensures
        uniquely_pending(event_step(pre, ev).0, h),
        event_step(pre, ev).1 matches Ok(ModelEffect::Deliver { handle, .. }) && handle == h
            ==> awaits(pre, h) && !awaits(event_step(pre, ev).0, h),
        !awaits(pre, h) ==> !awaits(event_step(pre, ev).0, h),
{
    let post = event_step(pre, ev).0;
    match ev {
        NetworkEvent::AdvertiseCompleted { query_id } => {
            if pre.advertisements.contains_key(query_id) {
                lemma_table_remove(pre.advertisements, query_id, h);
                if pre.advertisements[query_id] == h {
                    assert(table_awaits(pre.advertisements, h));
                }
            }
        },
        NetworkEvent::LookupCompleted { query_id, .. } => {
            if pre.lookups.contains_key(query_id) {
                lemma_table_remove(pre.lookups, query_id, h);
                if pre.lookups[query_id] == h {
                    assert(table_awaits(pre.lookups, h));
                }
            }
        },
        NetworkEvent::OutboundResponseMessage { request_id, .. } => {
            if pre.requests.contains_key(request_id) {
                lemma_table_remove(pre.requests, request_id, h);
                if pre.requests[request_id] == h {
                    assert(table_awaits(pre.requests, h));
                }
            }
        },
        NetworkEvent::OutboundFailure { request_id, .. } => {
            if pre.requests.contains_key(request_id) {
                lemma_table_remove(pre.requests, request_id, h);
                if pre.requests[request_id] == h {
                    assert(table_awaits(pre.requests, h));
                }
            }
        },
        NetworkEvent::ConnectionEstablished { peer_id, dialer } => {
            if dialer && pre.dials.contains_key(peer_id) {
                lemma_table_remove(pre.dials, peer_id, h);
                if pre.dials[peer_id] == h {
                    assert(table_awaits(pre.dials, h));
                }
            }
        },
        NetworkEvent::OutgoingConnectionError { peer_id, .. } => {
            if let Some(p) = peer_id {
                if pre.dials.contains_key(p) {
                    lemma_table_remove(pre.dials, p, h);
                    if pre.dials[p] == h {
                        assert(table_awaits(pre.dials, h));
                    }
                }
            }
        },
        _ => {
            assert(post == pre || post == pre.with_channels(post.channels));
        },
    }
}

proof fn lemma_no_delivery_when_absent(pre: LoopModel, evs: Seq<NetworkEvent>, h: ReplyHandle)
    requires
        uniquely_pending(pre, h),
        !awaits(pre, h),
    ensures
        deliveries_to(pre, evs, h) == 0,
    decreases evs.len(),
{
    if evs.len() > 0 {
        lemma_step_delivery(pre, evs[0], h);
        lemma_no_delivery_when_absent(event_step(pre, evs[0]).0, evs.drop_first(), h);
    }
}

/// Exactly one reply is ever delivered per issued command, whatever the event
/// source does: over any sequence of network events, adversarial
/// double-completions included, a handle that at most one pending operation
/// awaits is delivered at most one reply.
pub proof fn lemma_at_most_one_reply_per_command(
    pre: LoopModel,
    evs: Seq<NetworkEvent>,
    h: ReplyHandle,
)
    requires
        uniquely_pending(pre, h),
    ensures
        deliveries_to(pre, evs, h) <= 1,
    decreases evs.len(),
{
    if evs.len() > 0 {
        let step = event_step(pre, evs[0]);
        lemma_step_delivery(pre, evs[0], h);
        match step.1 {
            Ok(ModelEffect::Deliver { handle, .. }) => {
                if handle == h {
                    lemma_no_delivery_when_absent(step.0, evs.drop_first(), h);
                } else {
                    lemma_at_most_one_reply_per_command(step.0, evs.drop_first(), h);
                }
            },
            _ => {
                lemma_at_most_one_reply_per_command(step.0, evs.drop_first(), h);
            },
        }
    }
}

/// Exactly one reply is delivered per issued command: once an event has
/// resolved a pending entry and delivered its reply, handling the same event
/// again delivers no second reply. A repeated correlated completion
/// (advertise, lookup, or outbound request) is rejected as an
/// internal-consistency violation; a repeated dial completion is observed and
/// ignored, since connections may establish without a pending dial. Either
/// way the state does not change again.
pub proof fn lemma_second_completion_delivers_nothing(pre: LoopModel, ev: NetworkEvent)
    requires
        event_step(pre, ev).1 matches Ok(ModelEffect::Deliver { .. }),
    ensures
        !(event_step(event_step(pre, ev).0, ev).1 matches Ok(ModelEffect::Deliver { .. })),
        event_step(event_step(pre, ev).0, ev).0 == event_step(pre, ev).0,
        (ev matches NetworkEvent::AdvertiseCompleted { .. } || ev
            matches NetworkEvent::LookupCompleted { .. } || ev
            matches NetworkEvent::OutboundResponseMessage { .. } || ev
            matches NetworkEvent::OutboundFailure { .. }) ==> event_step(
            event_step(pre, ev).0,
            ev,
        ).1 is Err,
{
}

/// An inbound response channel answers at most one `RespondFile`: after the
/// first respond consumes it, a second respond through the same channel is
/// rejected, and the state does not change again.
pub proof fn lemma_second_respond_rejected(pre: LoopModel, channel: u64)
    requires
        respond_step(pre, channel).1 is Ok,
    ensures
        respond_step(respond_step(pre, channel).0, channel).1 == Err::<
            u64,
            ConsistencyViolation,
        >(ConsistencyViolation::ChannelAlreadyUsed { channel }),
        respond_step(respond_step(pre, channel).0, channel).0 == respond_step(pre, channel).0,
{
}

} // verus!
