//! The bookkeeping of one shared connection: which correlation ids are
//! outstanding, what an inbound message means for them, and how every
//! outstanding call is settled when the connection closes.
//!
//! The connection itself is owned by a single worker. The worker reads and
//! writes the wire; what it has to do with each message is decided here.

use crate::framing::{frame_id, frame_of, frame_payload, get_request_id, lemma_frame_round_trip};
use std::collections::HashMap;
use vstd::prelude::*;
use vstd::std_specs::iter::IteratorSpec;

verus! {

/// How many unsent frames may wait for the worker before callers are held back.
pub const OUTBOUND_CAPACITY: usize = 100;

/// How the response to an outstanding call is delivered.
#[derive(Debug, Clone, Copy, PartialEq, Eq, Structural)]
pub enum SlotKind {
    /// One response, after which the call is over.
    Unary,
    /// Any number of items, until the stream ends.
    Stream,
}

/// An error from a client on a shared connection
#[derive(Debug, Clone, PartialEq, Eq)]
pub enum WebsocketError {
    /// The worker no longer takes requests
    RequestChannelClosed,
    /// The worker went away before it delivered a response
    ResponseChannelClosed,
    /// The client is not using the same content type as the connection
    IncorrectContentType {
        /// The content type that the connection was opened with
        expected: String,
        /// The content type that the client asked for
        received: String,
    },
    /// The connection has closed
    ConnectionClosed,
}

impl WebsocketError {
    /// The error as a sentence.
    pub fn message(&self) -> (text: String)
        ensures
            text@ == match self {
                WebsocketError::RequestChannelClosed =>
                    "Failed to send request to worker: channel closed"@,
                WebsocketError::ResponseChannelClosed =>
                    "Failed to read response from worker: channel closed"@,
                WebsocketError::IncorrectContentType { expected, received } =>
                    "The client is not using the same content type as the websocket transport, expected: "@
                        + expected@ + ", received: "@ + received@,
                WebsocketError::ConnectionClosed => "Websocket connection closed"@,
            },
    {
        match self {
            WebsocketError::RequestChannelClosed => String::from_str(
                "Failed to send request to worker: channel closed",
            ),
            WebsocketError::ResponseChannelClosed => String::from_str(
                "Failed to read response from worker: channel closed",
            ),
            WebsocketError::IncorrectContentType { expected, received } => String::from_str(
                "The client is not using the same content type as the websocket transport, expected: ",
            ).concat(expected.as_str()).concat(", received: ").concat(received.as_str()),
            WebsocketError::ConnectionClosed => String::from_str("Websocket connection closed"),
        }
    }
}

/// What arrives at the worker from the wire.
#[derive(Debug, Clone, PartialEq, Eq)]
pub enum Inbound {
    /// A response frame: correlation id, then payload
    Binary(Vec<u8>),
    /// A textual complaint from the other side
    Text(String),
    /// A keep-alive probe with its bytes
    Ping(Vec<u8>),
    /// The answer to a keep-alive probe
    Pong,
    /// The other side closes the connection
    Close,
    /// The connection reported an error and goes on
    Error,
    /// The connection has ended
    End,
}

/// A broken invariant of the local bookkeeping.
#[derive(Debug, Clone, Copy, PartialEq, Eq, Structural)]
pub enum Fault {
    /// A response arrived under an id that no outstanding call holds
    UnknownId(u32),
    /// A frame arrived that is too short to hold an id
    Truncated,
}

/// How an outstanding call ends when the connection closes.
#[derive(Debug, Clone, Copy, PartialEq, Eq, Structural)]
pub enum Outcome {
    /// The unary call fails with [`WebsocketError::ConnectionClosed`]
    ConnectionClosed,
    /// The stream ends, with no further item
    StreamEnded,
}

impl Outcome {
    /// The error that the caller of a unary call gets; the end of a stream is
    /// no error.
    pub fn error(&self) -> (error: Option<WebsocketError>)
        ensures
            error == match self {
                Outcome::ConnectionClosed => Some(WebsocketError::ConnectionClosed),
                Outcome::StreamEnded => None,
            },
    {
        match self {
            Outcome::ConnectionClosed => Some(WebsocketError::ConnectionClosed),
            Outcome::StreamEnded => None,
        }
    }
}

/// The end of one outstanding call.
#[derive(Debug, Clone, Copy, PartialEq, Eq, Structural)]
pub struct Settlement {
    /// The call's correlation id
    pub id: u32,
    /// How the call ends
    pub outcome: Outcome,
}

/// What the worker has to do after a message.
#[derive(Debug, Clone, PartialEq, Eq)]
pub enum Action {
    /// Nothing: go on with the next message
    Continue,
    /// Answer the probe with these bytes
    Pong(Vec<u8>),
    /// Hand the payload to the unary call `id`, which is then over
    Reply {
        /// The call's correlation id
        id: u32,
        /// The formatted response
        payload: Vec<u8>,
    },
    /// Hand the payload to the stream `id` as its next item
    Item {
        /// The stream's correlation id
        id: u32,
        /// The formatted item
        payload: Vec<u8>,
    },
    /// Stop: the bookkeeping is broken
    Fault(Fault),
    /// Close the connection and settle every outstanding call as listed
    Shutdown(Vec<Settlement>),
}

/// Where a response frame belongs.
pub enum Route {
    /// To the unary call with this id
    Reply(u32, Seq<u8>),
    /// To the stream with this id
    Item(u32, Seq<u8>),
    /// Nowhere: no outstanding call has this id
    Unknown(u32),
    /// Nowhere: the frame holds no id
    Truncated,
}

/// The route of a frame, given the outstanding calls.
pub open spec fn route(outstanding: Map<u32, SlotKind>, frame: Seq<u8>) -> Route {
    if frame.len() < 4 {
        Route::Truncated
    } else if !outstanding.contains_key(frame_id(frame)) {
        Route::Unknown(frame_id(frame))
    } else if outstanding[frame_id(frame)] == SlotKind::Unary {
        Route::Reply(frame_id(frame), frame_payload(frame))
    } else {
        Route::Item(frame_id(frame), frame_payload(frame))
    }
}

/// The outstanding calls after a frame was routed: a unary call that got its
/// reply is over, everything else stays.
pub open spec fn after_route(outstanding: Map<u32, SlotKind>, frame: Seq<u8>) -> Map<
    u32,
    SlotKind,
> {
    match route(outstanding, frame) {
        Route::Reply(id, _) => outstanding.remove(id),
        _ => outstanding,
    }
}

/// How a call of the given kind ends when the connection closes.
pub open spec fn outcome_of(kind: SlotKind) -> Outcome {
    match kind {
        SlotKind::Unary => Outcome::ConnectionClosed,
        SlotKind::Stream => Outcome::StreamEnded,
    }
}

/// The id that follows `id`, starting over after the largest.
pub open spec fn next_after(id: u32) -> u32 {
    if id == u32::MAX {
        0
    } else {
        (id + 1) as u32
    }
}

/// Whether an action is the one that a route asks for.
pub open spec fn action_follows(action: Action, route: Route) -> bool {
    match route {
        Route::Reply(id, payload) => action matches Action::Reply { id: i, payload: p } && i == id
            && p@ == payload,
        Route::Item(id, payload) => action matches Action::Item { id: i, payload: p } && i == id
            && p@ == payload,
        Route::Unknown(id) => action matches Action::Fault(Fault::UnknownId(i)) && i == id,
        Route::Truncated => action matches Action::Fault(Fault::Truncated),
    }
}

/// Whether `settlements` settles exactly the calls of `outstanding`, each once
/// and each as its kind asks.
pub open spec fn settles(settlements: Seq<Settlement>, outstanding: Map<u32, SlotKind>) -> bool {
    &&& forall|i: int, j: int|
        0 <= i < j < settlements.len() ==> settlements[i].id != settlements[j].id
    &&& forall|i: int|
        0 <= i < settlements.len() ==> outstanding.contains_key(#[trigger] settlements[i].id)
            && settlements[i].outcome == outcome_of(outstanding[settlements[i].id])
    &&& forall|id: u32| #[trigger]
        outstanding.contains_key(id) ==> exists|i: int|
            0 <= i < settlements.len() && #[trigger] settlements[i].id == id
}

/// The state of one shared connection, as far as the protocol goes.
pub struct Connection {
    content_type: String,
    next_id: u32,
    slots: HashMap<u32, SlotKind>,
    closed: bool,
}

impl Connection {
    /// The calls that wait for a response, each with its kind.
    pub closed spec fn outstanding(&self) -> Map<u32, SlotKind> {
        self.slots@
    }

    /// The id that the next call gets.
    pub closed spec fn upcoming_id(&self) -> u32 {
        self.next_id
    }

    /// Whether the connection was shut down.
    pub closed spec fn is_shut(&self) -> bool {
        self.closed
    }

    /// The content type that the connection was opened with.
    pub closed spec fn negotiated(&self) -> Seq<char> {
        self.content_type@
    }

    /// Finitely many calls are outstanding, and none after shutdown.
    pub open spec fn wf(&self) -> bool {
        &&& self.outstanding().dom().finite()
        &&& self.is_shut() ==> self.outstanding() == Map::<u32, SlotKind>::empty()
    }

    /// A connection on which no call is outstanding and ids start at zero.
    pub fn new(content_type: &str) -> (conn: Self)
        ensures
            conn.wf(),
            conn.outstanding() == Map::<u32, SlotKind>::empty(),
            conn.upcoming_id() == 0,
            !conn.is_shut(),
            conn.negotiated() == content_type@,
    {
        Connection {
            content_type: String::from_str(content_type),
            next_id: 0,
            slots: HashMap::new(),
            closed: false,
        }
    }

    /// A connection on which no call is outstanding and ids start at `first_id`.
    pub fn starting_at(content_type: &str, first_id: u32) -> (conn: Self)
        ensures
            conn.wf(),
            conn.outstanding() == Map::<u32, SlotKind>::empty(),
            conn.upcoming_id() == first_id,
            !conn.is_shut(),
            conn.negotiated() == content_type@,
    {
        Connection {
            content_type: String::from_str(content_type),
            next_id: first_id,
            slots: HashMap::new(),
            closed: false,
        }
    }

    /// The number of outstanding calls.
    pub fn pending(&self) -> (n: usize)
        ensures
            n == self.outstanding().len(),
    {
        broadcast use vstd::std_specs::hash::group_hash_axioms;

        self.slots.len()
    }

    /// The content type that the connection was opened with.
    pub fn content_type(&self) -> (name: &str)
        ensures
            name@ == self.negotiated(),
    {
        self.content_type.as_str()
    }

    /// The id that the next call gets.
    pub fn next_id(&self) -> (id: u32)
        ensures
            id == self.upcoming_id(),
    {
        self.next_id
    }

    /// Whether the connection was shut down.
    pub fn is_closed(&self) -> (closed: bool)
        ensures
            closed == self.is_shut(),
    {
        self.closed
    }

    /// The kind of the outstanding call `id`, if there is one.
    pub fn kind_of(&self, id: u32) -> (kind: Option<SlotKind>)
        ensures
            kind == if self.outstanding().contains_key(id) {
                Some(self.outstanding()[id])
            } else {
                None
            },
    {
        broadcast use vstd::std_specs::hash::group_hash_axioms;

        match self.slots.get(&id) {
            Some(kind) => Some(*kind),
            None => None,
        }
    }

    /// Registers a call of the given kind and returns the id under which its
    /// frame is to be sent. The id is taken before the frame is queued, so that
    /// no response can arrive for a call that is not yet registered. Ids count
    /// up and start over after the largest; a call that is still outstanding
    /// when its id comes round again gives its place to the new call.
    ///
    /// Fails when the caller's content type is not the connection's, and when
    /// the connection was shut down; nothing is registered then.
    pub fn begin_call(&mut self, content_type: &str, kind: SlotKind) -> (started: Result<
        u32,
        WebsocketError,
    >)
        requires
            old(self).wf(),
        ensures
            final(self).wf(),
            final(self).negotiated() == old(self).negotiated(),
            final(self).is_shut() == old(self).is_shut(),
            started is Ok <==> content_type@ == old(self).negotiated() && !old(self).is_shut(),
            started matches Ok(id) ==> id == old(self).upcoming_id() && final(self).upcoming_id()
                == next_after(id) && final(self).outstanding() == old(self).outstanding().insert(
                id,
                kind,
            ),
            started is Err ==> final(self).upcoming_id() == old(self).upcoming_id() && final(self).outstanding() == old(self).outstanding(),
            content_type@ != old(self).negotiated() ==> (started matches Err(
                WebsocketError::IncorrectContentType { expected, received },
            ) && expected@ == old(self).negotiated() && received@ == content_type@),
            content_type@ == old(self).negotiated() && old(self).is_shut() ==> started matches Err(
                WebsocketError::RequestChannelClosed,
            ),
    {
        broadcast use vstd::std_specs::hash::group_hash_axioms;

        let received = String::from_str(content_type);
        if self.content_type != received {
            return Err(
                WebsocketError::IncorrectContentType {
                    expected: self.content_type.clone(),
                    received,
                },
            );
        }
        if self.closed {
            return Err(WebsocketError::RequestChannelClosed);
        }
        let id = self.next_id;
        self.slots.insert(id, kind);
        self.next_id = if id == u32::MAX {
            0
        } else {
            id + 1
        };
        Ok(id)
    }

    /// Forgets the stream `id`, so that no further item is delivered to it.
    /// Says whether there was such a stream; a unary call is not touched.
    pub fn end_stream(&mut self, id: u32) -> (ended: bool)
        requires
            old(self).wf(),
        ensures
            final(self).wf(),
            final(self).negotiated() == old(self).negotiated(),
            final(self).is_shut() == old(self).is_shut(),
            final(self).upcoming_id() == old(self).upcoming_id(),
            ended == (old(self).outstanding().contains_key(id) && old(self).outstanding()[id]
                == SlotKind::Stream),
            final(self).outstanding() == if ended {
                old(self).outstanding().remove(id)
            } else {
                old(self).outstanding()
            },
    {
        broadcast use vstd::std_specs::hash::group_hash_axioms;

        match self.kind_of(id) {
            Some(SlotKind::Stream) => {
                self.slots.remove(&id);
                true
            },
            _ => false,
        }
    }

    /// Routes a response frame: strips the id, looks the call up and says to
    /// whom the payload goes. A unary call is over with its reply; a stream
    /// stays registered. A frame for no outstanding call is a fault.
    pub fn on_frame(&mut self, frame: &[u8]) -> (action: Action)
        requires
            old(self).wf(),
        ensures
            final(self).wf(),
            final(self).negotiated() == old(self).negotiated(),
            final(self).is_shut() == old(self).is_shut(),
            final(self).upcoming_id() == old(self).upcoming_id(),
            action_follows(action, route(old(self).outstanding(), frame@)),
            final(self).outstanding() == after_route(old(self).outstanding(), frame@),
    {
        broadcast use vstd::std_specs::hash::group_hash_axioms;

        if frame.len() < 4 {
            return Action::Fault(Fault::Truncated);
        }
        let (id, payload) = get_request_id(frame);
        match self.kind_of(id) {
            Some(SlotKind::Unary) => {
                self.slots.remove(&id);
                Action::Reply { id, payload }
            },
            Some(SlotKind::Stream) => Action::Item { id, payload },
            None => Action::Fault(Fault::UnknownId(id)),
        }
    }

    /// Shuts the connection down: every outstanding unary call fails with
    /// `ConnectionClosed`, every outstanding stream ends, and nothing stays
    /// registered. No response is made up. The calls are settled in no
    /// particular order.
    pub fn close(&mut self) -> (settlements: Vec<Settlement>)
        requires
            old(self).wf(),
        ensures
            final(self).wf(),
            final(self).is_shut(),
            final(self).negotiated() == old(self).negotiated(),
            final(self).upcoming_id() == old(self).upcoming_id(),
            final(self).outstanding() == Map::<u32, SlotKind>::empty(),
            settles(settlements@, old(self).outstanding()),
            settlements@.len() == old(self).outstanding().len(),
    {
        let settlements = settle_all(&self.slots);
        self.slots.clear();
        self.closed = true;
        settlements
    }

    /// Decides what the worker does with one inbound message. Control
    /// messages are settled here and reach no caller: a probe is answered,
    /// text, an answer to a probe and a reported error are passed over. A
    /// response frame is routed by its id. When the other side closes, or the
    /// connection ends, the connection is shut down.
    pub fn on_message(&mut self, message: Inbound) -> (action: Action)
        requires
            old(self).wf(),
        ensures
            final(self).wf(),
            final(self).negotiated() == old(self).negotiated(),
            final(self).upcoming_id() == old(self).upcoming_id(),
            match message {
                Inbound::Binary(frame) => action_follows(
                    action,
                    route(old(self).outstanding(), frame@),
                ) && final(self).outstanding() == after_route(old(self).outstanding(), frame@)
                    && final(self).is_shut() == old(self).is_shut(),
                Inbound::Ping(bytes) => action matches Action::Pong(b) && b@ == bytes@ && final(self).outstanding() == old(self).outstanding() && final(self).is_shut() == old(self).is_shut(),
                Inbound::Text(_) | Inbound::Pong | Inbound::Error => action is Continue && final(self).outstanding() == old(self).outstanding() && final(self).is_shut() == old(self).is_shut(),
                Inbound::Close | Inbound::End => action matches Action::Shutdown(settlements)
                    && settles(settlements@, old(self).outstanding()) && final(self).outstanding()
                    == Map::<u32, SlotKind>::empty() && final(self).is_shut(),
            },
    {
        match message {
            Inbound::Binary(frame) => self.on_frame(frame.as_slice()),
            Inbound::Ping(bytes) => Action::Pong(bytes),
            Inbound::Text(_) => Action::Continue,
            Inbound::Pong => Action::Continue,
            Inbound::Error => Action::Continue,
            Inbound::Close => Action::Shutdown(self.close()),
            Inbound::End => Action::Shutdown(self.close()),
        }
    }
}

/// The end of every call in the registry: one settlement for each, as its
/// kind asks, in the order in which the registry hands its entries out.
fn settle_all(slots: &HashMap<u32, SlotKind>) -> (settlements: Vec<Settlement>)
    ensures
        settles(settlements@, slots@),
        settlements@.len() == slots@.len(),
{
    broadcast use vstd::std_specs::hash::group_hash_axioms;

    let mut settlements: Vec<Settlement> = Vec::new();
    let ghost all = slots.iter().remaining();
    for entry in entries: slots.iter()
        invariant
            entries.seq() == all,
            all.no_duplicates(),
            settlements@.len() == entries.index(),
            forall|k: int|
                0 <= k < settlements@.len() ==> (#[trigger] settlements@[k]).id == *all[k].0
                    && settlements@[k].outcome == outcome_of(*all[k].1),
    {
        let (id, kind) = entry;
        let outcome = match kind {
            SlotKind::Unary => Outcome::ConnectionClosed,
            SlotKind::Stream => Outcome::StreamEnded,
        };
        settlements.push(Settlement { id: *id, outcome });
    }
    proof {
        assert forall|i: int, j: int| 0 <= i < j < settlements@.len() implies settlements@[i].id
            != settlements@[j].id by {
            if settlements@[i].id == settlements@[j].id {
                assert(slots@.contains_key(*all[i].0));
                assert(slots@.contains_key(*all[j].0));
                assert(all[i] == all[j]);
            }
        }
        assert forall|i: int| 0 <= i < settlements@.len() implies slots@.contains_key(
            #[trigger] settlements@[i].id,
        ) && settlements@[i].outcome == outcome_of(slots@[settlements@[i].id]) by {
            assert(slots@.contains_key(*all[i].0));
        }
        assert forall|id: u32| #[trigger] slots@.contains_key(id) implies exists|i: int|
            0 <= i < settlements@.len() && #[trigger] settlements@[i].id == id by {
            assert(all.contains((&id, &slots@[id])));
            let i = choose|i: int| 0 <= i < all.len() && all[i] == (&id, &slots@[id]);
            assert(settlements@[i].id == id);
        }
    }
    settlements
}

/// The routes of several frames that arrive one after another.
pub open spec fn route_all(outstanding: Map<u32, SlotKind>, frames: Seq<Seq<u8>>) -> Seq<Route>
    decreases frames.len(),
{
    if frames.len() == 0 {
        Seq::empty()
    } else {
        seq![route(outstanding, frames[0])] + route_all(
            after_route(outstanding, frames[0]),
            frames.drop_first(),
        )
    }
}

/// The outstanding calls after several frames were routed.
pub open spec fn after_all(outstanding: Map<u32, SlotKind>, frames: Seq<Seq<u8>>) -> Map<
    u32,
    SlotKind,
>
    decreases frames.len(),
{
    if frames.len() == 0 {
        outstanding
    } else {
        after_all(after_route(outstanding, frames[0]), frames.drop_first())
    }
}

/// The frame of each reply, in the order of the replies.
pub open spec fn frames_of(replies: Seq<(u32, Seq<u8>)>) -> Seq<Seq<u8>> {
    Seq::new(replies.len(), |i: int| frame_of(replies[i].0, replies[i].1))
}

/// Correlation does not depend on the order of the replies: when the replies
/// to any number of outstanding unary calls arrive in whatever order, each is
/// routed to the call whose id it carries, with its own payload, and
/// afterwards exactly those calls are over.
pub proof fn lemma_replies_reach_their_callers(
    outstanding: Map<u32, SlotKind>,
    replies: Seq<(u32, Seq<u8>)>,
)
    requires
        forall|i: int|
            0 <= i < replies.len() ==> outstanding.contains_key(#[trigger] replies[i].0)
                && outstanding[replies[i].0] == SlotKind::Unary,
        forall|i: int, j: int| 0 <= i < j < replies.len() ==> replies[i].0 != replies[j].0,
    ensures
        route_all(outstanding, frames_of(replies)).len() == replies.len(),
        forall|i: int|
            0 <= i < replies.len() ==> #[trigger] route_all(outstanding, frames_of(replies))[i]
                == Route::Reply(replies[i].0, replies[i].1),
        forall|id: u32|
            after_all(outstanding, frames_of(replies)).contains_key(id) <==> (
            outstanding.contains_key(id) && forall|i: int|
                0 <= i < replies.len() ==> #[trigger] replies[i].0 != id),
        forall|id: u32| #[trigger]
            after_all(outstanding, frames_of(replies)).contains_key(id) ==> after_all(
                outstanding,
                frames_of(replies),
            )[id] == outstanding[id],
    decreases replies.len(),
{
    let frames = frames_of(replies);
    if replies.len() > 0 {
        let first = replies[0];
        let rest = replies.drop_first();
        lemma_frame_round_trip(first.0, first.1);
        assert(frames[0] == frame_of(first.0, first.1));
        assert(route(outstanding, frames[0]) == Route::Reply(first.0, first.1));
        let remaining = after_route(outstanding, frames[0]);
        assert(remaining == outstanding.remove(first.0));
        assert(frames.drop_first() =~= frames_of(rest));
        assert forall|i: int| 0 <= i < rest.len() implies remaining.contains_key(
            #[trigger] rest[i].0,
        ) && remaining[rest[i].0] == SlotKind::Unary by {
            assert(rest[i] == replies[i + 1]);
        }
        assert forall|i: int, j: int| 0 <= i < j < rest.len() implies rest[i].0 != rest[j].0 by {
            assert(rest[i] == replies[i + 1]);
            assert(rest[j] == replies[j + 1]);
        }
        lemma_replies_reach_their_callers(remaining, rest);
        let routes = route_all(outstanding, frames);
        assert forall|i: int| 0 <= i < replies.len() implies #[trigger] routes[i] == Route::Reply(
            replies[i].0,
            replies[i].1,
        ) by {
            if i > 0 {
                assert(routes[i] == route_all(remaining, frames_of(rest))[i - 1]);
                assert(rest[i - 1] == replies[i]);
            }
        }
        let done = after_all(outstanding, frames);
        assert(done == after_all(remaining, frames_of(rest)));
        assert forall|id: u32|
            done.contains_key(id) <==> (outstanding.contains_key(id) && forall|i: int|
                0 <= i < replies.len() ==> #[trigger] replies[i].0 != id) by {
            if done.contains_key(id) {
                assert(remaining.contains_key(id));
                assert forall|i: int| 0 <= i < replies.len() implies #[trigger] replies[i].0
                    != id by {
                    if i > 0 {
                        assert(rest[i - 1] == replies[i]);
                        assert(rest[i - 1].0 != id);
                    }
                }
            }
            if outstanding.contains_key(id) && forall|i: int|
                0 <= i < replies.len() ==> #[trigger] replies[i].0 != id {
                assert(replies[0].0 != id);
                assert(remaining.contains_key(id));
                assert forall|i: int| 0 <= i < rest.len() implies #[trigger] rest[i].0 != id by {
                    assert(rest[i] == replies[i + 1]);
                    assert(replies[i + 1].0 != id);
                }
            }
        }
        assert forall|id: u32| #[trigger] done.contains_key(id) implies done[id]
            == outstanding[id] by {
            assert(remaining.contains_key(id));
            assert(done[id] == remaining[id]);
        }
    }
}

/// What a subscriber learns from its source of values.
#[derive(Debug, Clone, Copy, PartialEq, Eq, Structural)]
pub enum Feed {
    /// The next value is there
    Value,
    /// The subscriber fell behind and this many values were dropped
    Lagged(u64),
    /// The producer has closed the source
    Closed,
}

/// What a subscriber does next.
#[derive(Debug, Clone, Copy, PartialEq, Eq, Structural)]
pub enum Step {
    /// Hand the value on and wait for the next
    Forward,
    /// Go on with the next value that is there
    Resume,
    /// End the subscription
    Finish,
}

/// The policy of a subscription that cannot keep up: values may be dropped,
/// and only the producer's closing ends it.
pub open spec fn step_for(feed: Feed) -> Step {
    match feed {
        Feed::Value => Step::Forward,
        Feed::Lagged(_) => Step::Resume,
        Feed::Closed => Step::Finish,
    }
}

/// Decides how a subscription goes on after `feed`.
pub fn subscription_step(feed: Feed) -> (step: Step)
    ensures
        step == step_for(feed),
        step == Step::Finish <==> feed == Feed::Closed,
{
    match feed {
        Feed::Value => Step::Forward,
        Feed::Lagged(_) => Step::Resume,
        Feed::Closed => Step::Finish,
    }
}

/// How many values a subscription hands on while it goes through `feeds`: it
/// stops at the first closing and at nothing else.
pub open spec fn forwarded(feeds: Seq<Feed>) -> nat
    decreases feeds.len(),
{
    if feeds.len() == 0 {
        0
    } else {
        match step_for(feeds[0]) {
            Step::Forward => 1 + forwarded(feeds.drop_first()),
            Step::Resume => forwarded(feeds.drop_first()),
            Step::Finish => 0,
        }
    }
}

/// The values among `feeds`.
pub open spec fn values_in(feeds: Seq<Feed>) -> nat
    decreases feeds.len(),
{
    if feeds.len() == 0 {
        0
    } else if feeds[0] == Feed::Value {
        1 + values_in(feeds.drop_first())
    } else {
        values_in(feeds.drop_first())
    }
}

/// Falling behind does not end a subscription: as long as the producer has
/// not closed, every value that is there is handed on, however often the
/// subscriber fell behind in between.
pub proof fn lemma_lag_keeps_subscription(feeds: Seq<Feed>)
    requires
        forall|i: int| 0 <= i < feeds.len() ==> feeds[i] != Feed::Closed,
    ensures
        forwarded(feeds) == values_in(feeds),
    decreases feeds.len(),
{
    if feeds.len() > 0 {
        let rest = feeds.drop_first();
        assert forall|i: int| 0 <= i < rest.len() implies rest[i] != Feed::Closed by {
            assert(rest[i] == feeds[i + 1]);
        }
        lemma_lag_keeps_subscription(rest);
    }
}

} // verus!
