//! Bidirectional streaming: after the initial request the client may send
//! updates and the server may send responses.
//!
//! Both halves of a call are state machines. The client half is told how the
//! opening of the substream and the sending of the request went; the server
//! half is told what the handler produced, how each write went, and whether
//! the update stream failed. Each answers with the next thing to do.

use crate::client::{RpcClient, UpdateSink};
use crate::message::{
    decodes, downcast, encodes, lossless, to_wire, typed_of, wire_of, InteractionPattern, Msg,
    Service,
};
use crate::server::{RpcChannel, RpcServerError, UpdateStream};
use crate::transport::ConnectionErrors;
use std::marker::PhantomData;
use vstd::prelude::*;

verus! {

/// Bidirectional streaming interaction pattern.
#[derive(Debug, Clone, Copy)]
pub struct BidiStreaming;

impl InteractionPattern for BidiStreaming {

}

/// Binds a request of service `S` to the updates that may follow it and to
/// the responses that answer it.
pub trait BidiStreamingMsg<S: Service>: Msg<S, Pattern = BidiStreaming> {
    /// The type of the updates that follow the request.
    ///
    /// A request without updates may name any type here, itself included:
    /// every update received for it then fails to convert.
    type Update: Into<S::Req> + TryFrom<S::Req>;

    /// The type of the responses.
    type Response: Into<S::Res> + TryFrom<S::Res>;
}

/// Why a client call could not be set up.
#[derive(Debug)]
pub enum Error<C: ConnectionErrors> {
    /// No substream could be opened.
    Open(C::OpenError),
    /// The request could not be sent on the new substream.
    Send(C::SendError),
}

/// Why an element of a client's response sequence is not a response.
#[derive(Debug)]
pub enum ItemError<C: ConnectionErrors> {
    /// The transport failed to read.
    RecvError(C::RecvError),
    /// A message arrived that is not a response of this call.
    DowncastError,
}

/// Where the set-up of a client call stands.
#[derive(Debug)]
pub enum ClientPhase<W> {
    /// A substream is being opened. The request waits here, already in its
    /// wire form.
    Opening(W),
    /// The request is being sent on the new substream.
    Sending,
    /// The request was sent: updates may be sent and responses read.
    Established,
    /// The call could not be set up.
    Failed,
}

/// What the transport did for a client call.
#[derive(Debug)]
pub enum ClientEvent<C: ConnectionErrors> {
    /// The attempt to open a substream ended.
    Opened(Result<(), C::OpenError>),
    /// The attempt to send the request ended.
    Sent(Result<(), C::SendError>),
}

/// What a client call asks for next.
#[derive(Debug)]
pub enum ClientAction<C: ConnectionErrors, W> {
    /// Send this, the request, on the substream that was opened.
    Send(W),
    /// The call is set up: its typed halves can be taken.
    Ready,
    /// The call has failed: hand the caller this error.
    Fail(Error<C>),
    /// Nothing: the event did not answer anything the call had asked for.
    Idle,
}

/// The phase that follows `phase` on `event`, and the action that the call
/// asks for.
pub open spec fn client_step<C: ConnectionErrors, W>(
    phase: ClientPhase<W>,
    event: ClientEvent<C>,
) -> (ClientPhase<W>, ClientAction<C, W>) {
    match (phase, event) {
        (ClientPhase::Opening(request), ClientEvent::Opened(Ok(_))) => (
            ClientPhase::Sending,
            ClientAction::Send(request),
        ),
        (ClientPhase::Opening(_), ClientEvent::Opened(Err(e))) => (
            ClientPhase::Failed,
            ClientAction::Fail(Error::Open(e)),
        ),
        (ClientPhase::Sending, ClientEvent::Sent(Ok(_))) => (
            ClientPhase::Established,
            ClientAction::Ready,
        ),
        (ClientPhase::Sending, ClientEvent::Sent(Err(e))) => (
            ClientPhase::Failed,
            ClientAction::Fail(Error::Send(e)),
        ),
        _ => (phase, ClientAction::Idle),
    }
}

/// The set-up of one client call.
///
/// A new call waits for a substream: the caller opens one and reports
/// [`ClientEvent::Opened`]. From then on the call says what to do.
pub struct ClientCall<S: Service, C: ConnectionErrors, M: BidiStreamingMsg<S>> {
    phase: ClientPhase<S::Req>,
    marker: PhantomData<(C, M)>,
}

impl<S: Service, C: ConnectionErrors, M: BidiStreamingMsg<S>> ClientCall<S, C, M> {
    /// Where the call stands.
    pub closed spec fn phase(&self) -> ClientPhase<S::Req> {
        self.phase
    }

    /// Takes what the transport did and returns what to do next.
    pub fn step(&mut self, event: ClientEvent<C>) -> (action: ClientAction<C, S::Req>)
        ensures
            (final(self).phase(), action) == client_step::<C, S::Req>(old(self).phase(), event),
    {
        let mut phase = ClientPhase::Failed;
        std::mem::swap(&mut self.phase, &mut phase);
        match (phase, event) {
            (ClientPhase::Opening(request), ClientEvent::Opened(Ok(_))) => {
                self.phase = ClientPhase::Sending;
                ClientAction::Send(request)
            },
            (ClientPhase::Opening(_), ClientEvent::Opened(Err(e))) => {
                ClientAction::Fail(Error::Open(e))
            },
            (ClientPhase::Sending, ClientEvent::Sent(Ok(_))) => {
                self.phase = ClientPhase::Established;
                ClientAction::Ready
            },
            (ClientPhase::Sending, ClientEvent::Sent(Err(e))) => {
                ClientAction::Fail(Error::Send(e))
            },
            (phase, _) => {
                self.phase = phase;
                ClientAction::Idle
            },
        }
    }

    /// Whether the call is set up.
    pub fn is_established(&self) -> (established: bool)
        ensures
            established == self.phase() is Established,
    {
        match self.phase {
            ClientPhase::Established => true,
            _ => false,
        }
    }

    /// The two typed halves of the substream, once the call is set up: the
    /// sink for the updates and the sequence of the responses. They share
    /// nothing but the substream.
    pub fn into_halves(self) -> (halves: Option<
        (UpdateSink<S, C, M::Update>, ResponseStream<S, C, M>),
    >)
        ensures
            halves is Some <==> self.phase() is Established,
    {
        match self.phase {
            ClientPhase::Established => Some(
                (UpdateSink::new(), ResponseStream { marker: PhantomData }),
            ),
            _ => None,
        }
    }
}

impl<S: Service, C: ConnectionErrors> RpcClient<S, C> {
    /// Starts a bidirectional streaming call with the request `msg`.
    ///
    /// The call that comes back holds the request in its wire form and waits
    /// for a substream.
    pub fn bidi<M: BidiStreamingMsg<S>>(&self, msg: M) -> (call: ClientCall<S, C, M>)
        ensures
            call.phase() is Opening,
            encodes::<M, S::Req>() ==> call.phase() == ClientPhase::Opening(
                wire_of::<M, S::Req>(msg),
            ),
    {
        ClientCall { phase: ClientPhase::Opening(to_wire(msg)), marker: PhantomData }
    }
}

/// The element of the client's response sequence that the raw element `raw`
/// stands for.
pub open spec fn response_of<S: Service, C: ConnectionErrors, M: BidiStreamingMsg<S>>(
    raw: Result<S::Res, C::RecvError>,
) -> Result<M::Response, ItemError<C>> {
    match raw {
        Ok(w) => match typed_of::<M::Response, S::Res>(w) {
            Some(response) => Ok(response),
            None => Err(ItemError::DowncastError),
        },
        Err(e) => Err(ItemError::RecvError(e)),
    }
}

/// The typed response sequence of one client call: it says what each
/// element of the raw incoming stream is to the caller.
///
/// Failures are elements of the sequence, at their place: a read that failed
/// and a message that is no response each give one `Err`, and the sequence
/// goes on.
pub struct ResponseStream<S: Service, C: ConnectionErrors, M: BidiStreamingMsg<S>> {
    marker: PhantomData<(S, C, M)>,
}

impl<S: Service, C: ConnectionErrors, M: BidiStreamingMsg<S>> ResponseStream<S, C, M> {
    /// Turns one element of the raw incoming stream into an element of the
    /// response sequence: the typed response, or the reason why there is
    /// none.
    pub fn item(&self, raw: Result<S::Res, C::RecvError>) -> (item: Result<
        M::Response,
        ItemError<C>,
    >)
        ensures
            raw matches Err(e) ==> item == Err::<M::Response, ItemError<C>>(
                ItemError::RecvError(e),
            ),
            raw is Ok ==> item is Ok || item == Err::<M::Response, ItemError<C>>(
                ItemError::DowncastError,
            ),
            decodes::<M::Response, S::Res>() ==> item == response_of::<S, C, M>(raw),
    {
        match raw {
            Ok(w) => match downcast::<M::Response, S::Res>(w) {
                Some(response) => Ok(response),
                None => Err(ItemError::DowncastError),
            },
            Err(e) => Err(ItemError::RecvError(e)),
        }
    }

    /// What the response sequence yields for what the raw incoming stream
    /// produced: it ends where the raw stream ends, and until then every raw
    /// element gives one element, as [`ResponseStream::item`] says.
    pub fn next(&self, raw: Option<Result<S::Res, C::RecvError>>) -> (item: Option<
        Result<M::Response, ItemError<C>>,
    >)
        ensures
            raw is None <==> item is None,
            raw matches Some(Err(e)) ==> item == Some(
                Err::<M::Response, ItemError<C>>(ItemError::RecvError(e)),
            ),
            raw matches Some(Ok(_)) ==> item->Some_0 is Ok || item == Some(
                Err::<M::Response, ItemError<C>>(ItemError::DowncastError),
            ),
            raw matches Some(element) ==> decodes::<M::Response, S::Res>() ==> item == Some(
                response_of::<S, C, M>(element),
            ),
    {
        match raw {
            Some(element) => Some(self.item(element)),
            None => None,
        }
    }
}

/// A response that travels without loss arrives as itself: what the server
/// writes for it, the client's response sequence yields as that response.
pub proof fn response_survives_the_wire<S: Service, C: ConnectionErrors, M: BidiStreamingMsg<S>>(
    response: M::Response,
)
    requires
        lossless::<M::Response, S::Res>(),
    ensures
        response_of::<S, C, M>(Ok(wire_of::<M::Response, S::Res>(response))) == Ok::<
            M::Response,
            ItemError<C>,
        >(response),
{
    assert(typed_of::<M::Response, S::Res>(wire_of::<M::Response, S::Res>(response)) == Some(
        response,
    ));
}

/// The actions that a client call in `phase` answers to `events`, one for
/// each event.
pub open spec fn client_run<C: ConnectionErrors, W>(
    phase: ClientPhase<W>,
    events: Seq<ClientEvent<C>>,
) -> Seq<ClientAction<C, W>>
    decreases events.len(),
{
    if events.len() == 0 {
        Seq::empty()
    } else {
        let (next, action) = client_step::<C, W>(phase, events.first());
        seq![action] + client_run::<C, W>(next, events.drop_first())
    }
}

/// The phase of a client call that was in `phase` and has taken `events`.
pub open spec fn client_phase_after<C: ConnectionErrors, W>(
    phase: ClientPhase<W>,
    events: Seq<ClientEvent<C>>,
) -> ClientPhase<W>
    decreases events.len(),
{
    if events.len() == 0 {
        phase
    } else {
        client_phase_after::<C, W>(
            client_step::<C, W>(phase, events.first()).0,
            events.drop_first(),
        )
    }
}

/// A call that is set up, or has failed, stays as it is and asks for
/// nothing more of the transport.
pub proof fn settled_call_is_silent<C: ConnectionErrors, W>(
    phase: ClientPhase<W>,
    events: Seq<ClientEvent<C>>,
)
    requires
        phase is Established || phase is Failed,
    ensures
        client_phase_after::<C, W>(phase, events) == phase,
        client_run::<C, W>(phase, events).len() == events.len(),
        forall|k: int|
            0 <= k < events.len() ==> #[trigger] client_run::<C, W>(phase, events)[k]
                == ClientAction::<C, W>::Idle,
    decreases events.len(),
{
    if events.len() > 0 {
        settled_call_is_silent::<C, W>(phase, events.drop_first());
        let rest = client_run::<C, W>(phase, events.drop_first());
        let actions = client_run::<C, W>(phase, events);
        assert(actions == seq![ClientAction::<C, W>::Idle] + rest);
        assert forall|k: int| 0 <= k < events.len() implies #[trigger] actions[k]
            == ClientAction::<C, W>::Idle by {
            if k > 0 {
                assert(actions[k] == rest[k - 1]);
            }
        }
    }
}

/// Where no substream can be opened, the call fails with the transport's
/// error, unchanged, and never asks to send anything, whatever happens
/// afterwards.
pub proof fn open_failure_never_sends<C: ConnectionErrors, W>(
    request: W,
    failure: C::OpenError,
    after: Seq<ClientEvent<C>>,
)
    ensures
        ({
            let events = seq![ClientEvent::<C>::Opened(Err(failure))] + after;
            let actions = client_run::<C, W>(ClientPhase::Opening(request), events);
            &&& actions.len() == 1 + after.len()
            &&& actions[0] == ClientAction::<C, W>::Fail(Error::Open(failure))
            &&& forall|k: int|
                0 <= k < actions.len() ==> !((#[trigger] actions[k]) is Send)
            &&& forall|k: int|
                1 <= k < actions.len() ==> #[trigger] actions[k] == ClientAction::<C, W>::Idle
            &&& client_phase_after::<C, W>(ClientPhase::Opening(request), events)
                == ClientPhase::<W>::Failed
        }),
{
    let events = seq![ClientEvent::<C>::Opened(Err(failure))] + after;
    let actions = client_run::<C, W>(ClientPhase::Opening(request), events);
    let silence = client_run::<C, W>(ClientPhase::Failed, after);
    assert(events.drop_first() == after);
    settled_call_is_silent::<C, W>(ClientPhase::Failed, after);
    assert(actions == seq![ClientAction::<C, W>::Fail(Error::Open(failure))] + silence);
    assert forall|k: int| 1 <= k < actions.len() implies #[trigger] actions[k]
        == ClientAction::<C, W>::Idle by {
        assert(actions[k] == silence[k - 1]);
    }
}

/// Where the substream opens, the call asks to send the request on it, and
/// nothing else. If that succeeds the call is set up; if it fails the call
/// fails with the transport's error, unchanged. Either way the call asks for
/// nothing more.
pub proof fn request_is_sent_once<C: ConnectionErrors, W>(
    request: W,
    outcome: Result<(), C::SendError>,
    after: Seq<ClientEvent<C>>,
)
    ensures
        ({
            let events = seq![ClientEvent::<C>::Opened(Ok(())), ClientEvent::Sent(outcome)]
                + after;
            let actions = client_run::<C, W>(ClientPhase::Opening(request), events);
            &&& actions.len() == 2 + after.len()
            &&& actions[0] == ClientAction::<C, W>::Send(request)
            &&& actions[1] == match outcome {
                Ok(_) => ClientAction::<C, W>::Ready,
                Err(e) => ClientAction::Fail(Error::Send(e)),
            }
            &&& forall|k: int|
                2 <= k < actions.len() ==> #[trigger] actions[k] == ClientAction::<C, W>::Idle
            &&& client_phase_after::<C, W>(ClientPhase::Opening(request), events) == match outcome {
                Ok(_) => ClientPhase::<W>::Established,
                Err(_) => ClientPhase::Failed,
            }
        }),
{
    let events = seq![ClientEvent::<C>::Opened(Ok(())), ClientEvent::Sent(outcome)] + after;
    let actions = client_run::<C, W>(ClientPhase::Opening(request), events);
    let settled = client_step::<C, W>(ClientPhase::Sending, ClientEvent::Sent(outcome));
    let silence = client_run::<C, W>(settled.0, after);
    assert(events.drop_first().drop_first() == after);
    assert(events.drop_first().first() == ClientEvent::<C>::Sent(outcome));
    settled_call_is_silent::<C, W>(settled.0, after);
    assert(actions == seq![ClientAction::<C, W>::Send(request)] + (seq![settled.1] + silence))
        by {
        reveal_with_fuel(client_run, 2);
    }
    assert(client_phase_after::<C, W>(ClientPhase::Opening(request), events) == settled.0) by {
        reveal_with_fuel(client_phase_after, 2);
    }
    assert forall|k: int| 2 <= k < actions.len() implies #[trigger] actions[k]
        == ClientAction::<C, W>::Idle by {
        assert(actions[k] == silence[k - 2]);
    }
}

/// Where a server call stands.
#[derive(Debug, Clone, Copy, PartialEq, Eq, Structural)]
pub enum ServerPhase {
    /// The call waits for the handler's next response.
    AwaitingResponse,
    /// A response is being written.
    Sending,
    /// The call is over.
    Finished,
}

/// What happened to a server call.
#[derive(Debug)]
pub enum ServerEvent<C: ConnectionErrors, R> {
    /// The error signal of the update source fired.
    UpdateFailed(RpcServerError<C>),
    /// The handler's response sequence produced an element, or ended.
    Response(Option<R>),
    /// The write of a response ended.
    Sent(Result<(), C::SendError>),
}

/// What a server call asks for next.
#[derive(Debug)]
pub enum ServerAction<C: ConnectionErrors, W> {
    /// Wait for the handler's next response, watching the update source.
    AwaitResponse,
    /// Write this response, watching the update source.
    Send(W),
    /// The call is over, with this result.
    Finish(Result<(), RpcServerError<C>>),
    /// Nothing: the call is over already, or the event did not answer what
    /// the call had asked for.
    Idle,
}

/// The phase that follows `phase` on `event`, and the action that the call
/// asks for.
///
/// A failure of the update source ends a running call at once, whatever the
/// call was waiting for. Otherwise responses are written one by one, each
/// after the one before it was written, until the handler's sequence ends or
/// a write fails.
pub open spec fn server_step<C: ConnectionErrors, R: Into<W>, W>(
    phase: ServerPhase,
    event: ServerEvent<C, R>,
) -> (ServerPhase, ServerAction<C, W>) {
    match (phase, event) {
        (ServerPhase::Finished, _) => (ServerPhase::Finished, ServerAction::Idle),
        (_, ServerEvent::UpdateFailed(e)) => (ServerPhase::Finished, ServerAction::Finish(Err(e))),
        (ServerPhase::AwaitingResponse, ServerEvent::Response(Some(response))) => (
            ServerPhase::Sending,
            ServerAction::Send(wire_of::<R, W>(response)),
        ),
        (ServerPhase::AwaitingResponse, ServerEvent::Response(None)) => (
            ServerPhase::Finished,
            ServerAction::Finish(Ok(())),
        ),
        (ServerPhase::Sending, ServerEvent::Sent(Ok(_))) => (
            ServerPhase::AwaitingResponse,
            ServerAction::AwaitResponse,
        ),
        (ServerPhase::Sending, ServerEvent::Sent(Err(e))) => (
            ServerPhase::Finished,
            ServerAction::Finish(Err(RpcServerError::SendError(e))),
        ),
        _ => (phase, ServerAction::Idle),
    }
}

/// One server call: the loop that writes the handler's responses, coupled
/// with the error signal of the update source.
///
/// A new call waits for the handler's first response.
pub struct ServerCall<S: Service, C: ConnectionErrors, M: BidiStreamingMsg<S>> {
    phase: ServerPhase,
    marker: PhantomData<(S, C, M)>,
}

impl<S: Service, C: ConnectionErrors, M: BidiStreamingMsg<S>> ServerCall<S, C, M> {
    /// Where the call stands.
    pub closed spec fn phase(&self) -> ServerPhase {
        self.phase
    }

    /// Where the call stands.
    pub fn current_phase(&self) -> (phase: ServerPhase)
        ensures
            phase == self.phase(),
    {
        self.phase
    }

    /// Takes what happened and returns what to do next.
    ///
    /// The phase never depends on how a response converts, and neither does
    /// any action but the write of a response.
    pub fn step(&mut self, event: ServerEvent<C, M::Response>) -> (action: ServerAction<
        C,
        S::Res,
    >)
        ensures
            final(self).phase() == server_step::<C, M::Response, S::Res>(
                old(self).phase(),
                event,
            ).0,
            action is Send <==> server_step::<C, M::Response, S::Res>(
                old(self).phase(),
                event,
            ).1 is Send,
            !(action is Send) || encodes::<M::Response, S::Res>() ==> action == server_step::<
                C,
                M::Response,
                S::Res,
            >(old(self).phase(), event).1,
    {
        match (self.phase, event) {
            (ServerPhase::Finished, _) => ServerAction::Idle,
            (_, ServerEvent::UpdateFailed(e)) => {
                self.phase = ServerPhase::Finished;
                ServerAction::Finish(Err(e))
            },
            (ServerPhase::AwaitingResponse, ServerEvent::Response(Some(response))) => {
                self.phase = ServerPhase::Sending;
                ServerAction::Send(to_wire(response))
            },
            (ServerPhase::AwaitingResponse, ServerEvent::Response(None)) => {
                self.phase = ServerPhase::Finished;
                ServerAction::Finish(Ok(()))
            },
            (ServerPhase::Sending, ServerEvent::Sent(Ok(_))) => {
                self.phase = ServerPhase::AwaitingResponse;
                ServerAction::AwaitResponse
            },
            (ServerPhase::Sending, ServerEvent::Sent(Err(e))) => {
                self.phase = ServerPhase::Finished;
                ServerAction::Finish(Err(RpcServerError::SendError(e)))
            },
            _ => ServerAction::Idle,
        }
    }
}

impl<S: Service, C: ConnectionErrors> RpcChannel<S, C> {
    /// Serves one bidirectional streaming call on this channel: hands the
    /// request `req` to the handler `f`, with `target` and with the typed
    /// source of the updates that follow the request.
    ///
    /// The handler is called once, with `target` and `req` as they came and
    /// with a source that has received nothing. What it returns, its
    /// sequence of responses, comes back as it is, beside the call that will
    /// write them. The call waits for the first response.
    pub fn bidi_streaming<M, F, Str, T>(self, req: M, target: T, f: F) -> (serving: (
        Str,
        ServerCall<S, C, M>,
    )) where
        M: BidiStreamingMsg<S>,
        F: FnOnce(T, M, UpdateStream<S, C, M::Update>) -> Str,

        requires
            call_requires(f, (target, req, UpdateStream::<S, C, M::Update>::fresh())),
        ensures
            call_ensures(f, (target, req, UpdateStream::<S, C, M::Update>::fresh()), serving.0),
            serving.1.phase() == ServerPhase::AwaitingResponse,
    {
        let responses = f(target, req, UpdateStream::new());
        (responses, ServerCall { phase: ServerPhase::AwaitingResponse, marker: PhantomData })
    }
}

/// The actions that a server call in `phase` answers to `events`, one for
/// each event.
pub open spec fn server_run<C: ConnectionErrors, R: Into<W>, W>(
    phase: ServerPhase,
    events: Seq<ServerEvent<C, R>>,
) -> Seq<ServerAction<C, W>>
    decreases events.len(),
{
    if events.len() == 0 {
        Seq::empty()
    } else {
        let (next, action) = server_step::<C, R, W>(phase, events.first());
        seq![action] + server_run::<C, R, W>(next, events.drop_first())
    }
}

/// The phase of a server call that was in `phase` and has taken `events`.
pub open spec fn server_phase_after<C: ConnectionErrors, R: Into<W>, W>(
    phase: ServerPhase,
    events: Seq<ServerEvent<C, R>>,
) -> ServerPhase
    decreases events.len(),
{
    if events.len() == 0 {
        phase
    } else {
        server_phase_after::<C, R, W>(
            server_step::<C, R, W>(phase, events.first()).0,
            events.drop_first(),
        )
    }
}

/// The responses that `actions` ask to write, in their order.
pub open spec fn writes<C: ConnectionErrors, W>(actions: Seq<ServerAction<C, W>>) -> Seq<W>
    decreases actions.len(),
{
    if actions.len() == 0 {
        Seq::empty()
    } else {
        let rest = writes(actions.drop_first());
        match actions.first() {
            ServerAction::Send(w) => seq![w] + rest,
            _ => rest,
        }
    }
}

/// The result that `actions` report: that of the first
/// [`ServerAction::Finish`] among them.
pub open spec fn result_of<C: ConnectionErrors, W>(actions: Seq<ServerAction<C, W>>) -> Option<
    Result<(), RpcServerError<C>>,
>
    decreases actions.len(),
{
    if actions.len() == 0 {
        None
    } else {
        match actions.first() {
            ServerAction::Finish(result) => Some(result),
            _ => result_of(actions.drop_first()),
        }
    }
}

/// What happens to a call while its handler produces `responses`, one after
/// the other, and the transport accepts the write of each.
pub open spec fn accepted_rounds<C: ConnectionErrors, R>(responses: Seq<R>) -> Seq<
    ServerEvent<C, R>,
>
    decreases responses.len(),
{
    if responses.len() == 0 {
        Seq::empty()
    } else {
        seq![ServerEvent::Response(Some(responses.first())), ServerEvent::Sent(Ok(()))]
            + accepted_rounds(responses.drop_first())
    }
}

/// What happens to a call whose handler produces `responses` and then ends,
/// while the transport accepts every write and the update source stays
/// quiet.
pub open spec fn all_accepted<C: ConnectionErrors, R>(responses: Seq<R>) -> Seq<ServerEvent<C, R>> {
    accepted_rounds(responses) + seq![ServerEvent::Response(None)]
}

/// A call answers every event with one action.
pub proof fn server_run_len<C: ConnectionErrors, R: Into<W>, W>(
    phase: ServerPhase,
    events: Seq<ServerEvent<C, R>>,
)
    ensures
        server_run::<C, R, W>(phase, events).len() == events.len(),
    decreases events.len(),
{
    if events.len() > 0 {
        server_run_len::<C, R, W>(
            server_step::<C, R, W>(phase, events.first()).0,
            events.drop_first(),
        );
    }
}

/// Taking `head` and then `tail` is taking `head + tail`.
pub proof fn server_run_concat<C: ConnectionErrors, R: Into<W>, W>(
    phase: ServerPhase,
    head: Seq<ServerEvent<C, R>>,
    tail: Seq<ServerEvent<C, R>>,
)
    ensures
        server_run::<C, R, W>(phase, head + tail) == server_run::<C, R, W>(phase, head)
            + server_run::<C, R, W>(server_phase_after::<C, R, W>(phase, head), tail),
        server_phase_after::<C, R, W>(phase, head + tail) == server_phase_after::<C, R, W>(
            server_phase_after::<C, R, W>(phase, head),
            tail,
        ),
    decreases head.len(),
{
    if head.len() == 0 {
        assert(head + tail == tail);
    } else {
        assert((head + tail).first() == head.first());
        assert((head + tail).drop_first() == head.drop_first() + tail);
        server_run_concat::<C, R, W>(
            server_step::<C, R, W>(phase, head.first()).0,
            head.drop_first(),
            tail,
        );
    }
}

/// The writes and the result of two runs of actions, one after the other.
pub proof fn actions_concat<C: ConnectionErrors, W>(
    head: Seq<ServerAction<C, W>>,
    tail: Seq<ServerAction<C, W>>,
)
    ensures
        writes(head + tail) == writes(head) + writes(tail),
        result_of(head + tail) == if result_of(head) is Some {
            result_of(head)
        } else {
            result_of(tail)
        },
    decreases head.len(),
{
    if head.len() == 0 {
        assert(head + tail == tail);
    } else {
        assert((head + tail).first() == head.first());
        assert((head + tail).drop_first() == head.drop_first() + tail);
        actions_concat(head.drop_first(), tail);
    }
}

/// A call that is over stays over and asks for nothing: no write, no wait,
/// no second result.
pub proof fn finished_call_is_silent<C: ConnectionErrors, R: Into<W>, W>(
    events: Seq<ServerEvent<C, R>>,
)
    ensures
        server_phase_after::<C, R, W>(ServerPhase::Finished, events) == ServerPhase::Finished,
        server_run::<C, R, W>(ServerPhase::Finished, events).len() == events.len(),
        forall|k: int|
            0 <= k < events.len() ==> #[trigger] server_run::<C, R, W>(
                ServerPhase::Finished,
                events,
            )[k] == ServerAction::<C, W>::Idle,
        writes(server_run::<C, R, W>(ServerPhase::Finished, events)) == Seq::<W>::empty(),
        result_of(server_run::<C, R, W>(ServerPhase::Finished, events)) is None,
    decreases events.len(),
{
    if events.len() > 0 {
        finished_call_is_silent::<C, R, W>(events.drop_first());
        let rest = server_run::<C, R, W>(ServerPhase::Finished, events.drop_first());
        let actions = server_run::<C, R, W>(ServerPhase::Finished, events);
        assert(actions == seq![ServerAction::<C, W>::Idle] + rest);
        assert(actions.drop_first() == rest);
        assert forall|k: int| 0 <= k < events.len() implies #[trigger] actions[k]
            == ServerAction::<C, W>::Idle by {
            if k > 0 {
                assert(actions[k] == rest[k - 1]);
            }
        }
    }
}

/// A call that is still running has reported no result.
pub proof fn running_call_has_no_result<C: ConnectionErrors, R: Into<W>, W>(
    phase: ServerPhase,
    events: Seq<ServerEvent<C, R>>,
)
    requires
        server_phase_after::<C, R, W>(phase, events) != ServerPhase::Finished,
    ensures
        result_of(server_run::<C, R, W>(phase, events)) is None,
    decreases events.len(),
{
    if events.len() > 0 {
        let (next, action) = server_step::<C, R, W>(phase, events.first());
        let rest = server_run::<C, R, W>(next, events.drop_first());
        if next == ServerPhase::Finished {
            finished_call_is_silent::<C, R, W>(events.drop_first());
        }
        running_call_has_no_result::<C, R, W>(next, events.drop_first());
        assert((seq![action] + rest).drop_first() == rest);
    }
}

/// A call answers each event by itself, from the phase that the events
/// before it have led to.
pub proof fn server_run_at<C: ConnectionErrors, R: Into<W>, W>(
    phase: ServerPhase,
    events: Seq<ServerEvent<C, R>>,
    i: int,
)
    requires
        0 <= i < events.len(),
    ensures
        server_run::<C, R, W>(phase, events).len() == events.len(),
        server_run::<C, R, W>(phase, events)[i] == server_step::<C, R, W>(
            server_phase_after::<C, R, W>(phase, events.take(i)),
            events[i],
        ).1,
    decreases events.len(),
{
    server_run_len::<C, R, W>(phase, events);
    if i == 0 {
        assert(events.take(0) == Seq::<ServerEvent<C, R>>::empty());
    } else {
        let next = server_step::<C, R, W>(phase, events.first()).0;
        server_run_at::<C, R, W>(next, events.drop_first(), i - 1);
        server_run_len::<C, R, W>(next, events.drop_first());
        assert(events.take(i).first() == events.first());
        assert(events.take(i).drop_first() == events.drop_first().take(i - 1));
    }
}

/// A call reports one result at most: once it has asked to finish, it
/// answers every later event with nothing.
pub proof fn result_is_reported_once<C: ConnectionErrors, R: Into<W>, W>(
    phase: ServerPhase,
    events: Seq<ServerEvent<C, R>>,
    i: int,
    j: int,
)
    requires
        0 <= i < j < events.len(),
        server_run::<C, R, W>(phase, events)[i] is Finish,
    ensures
        server_run::<C, R, W>(phase, events)[j] == ServerAction::<C, W>::Idle,
{
    let upto = events.take(i);
    let one = seq![events[i]];
    let between = events.subrange(i + 1, j);
    server_run_at::<C, R, W>(phase, events, i);
    server_run_at::<C, R, W>(phase, events, j);
    assert(events.take(j) == upto + one + between);
    assert(upto + one + between == upto + (one + between));
    server_run_concat::<C, R, W>(phase, upto, one + between);
    assert((one + between).first() == events[i]);
    assert((one + between).drop_first() == between);
    finished_call_is_silent::<C, R, W>(between);
}

/// While the handler produces responses and the transport accepts every
/// write, the call writes exactly these responses, each in its wire form, in
/// the order produced, reports nothing, and waits for the next response.
pub proof fn accepted_rounds_are_written<C: ConnectionErrors, R: Into<W>, W>(responses: Seq<R>)
    ensures
        writes(
            server_run::<C, R, W>(ServerPhase::AwaitingResponse, accepted_rounds(responses)),
        ) == responses.map_values(|r: R| wire_of::<R, W>(r)),
        result_of(
            server_run::<C, R, W>(ServerPhase::AwaitingResponse, accepted_rounds(responses)),
        ) is None,
        server_phase_after::<C, R, W>(ServerPhase::AwaitingResponse, accepted_rounds(responses))
            == ServerPhase::AwaitingResponse,
    decreases responses.len(),
{
    let events = accepted_rounds::<C, R>(responses);
    let actions = server_run::<C, R, W>(ServerPhase::AwaitingResponse, events);
    let wires = responses.map_values(|r: R| wire_of::<R, W>(r));
    if responses.len() == 0 {
        assert(writes(actions) == wires);
    } else {
        let round = seq![
            ServerEvent::<C, R>::Response(Some(responses.first())),
            ServerEvent::Sent(Ok(())),
        ];
        let rest = accepted_rounds::<C, R>(responses.drop_first());
        let rest_actions = server_run::<C, R, W>(ServerPhase::AwaitingResponse, rest);
        let round_actions = seq![
            ServerAction::<C, W>::Send(wire_of::<R, W>(responses.first())),
            ServerAction::AwaitResponse,
        ];
        accepted_rounds_are_written::<C, R, W>(responses.drop_first());
        server_run_concat::<C, R, W>(ServerPhase::AwaitingResponse, round, rest);
        assert(round.drop_first() == seq![ServerEvent::<C, R>::Sent(Ok(()))]);
        assert(round.drop_first().drop_first() == Seq::<ServerEvent<C, R>>::empty());
        assert(server_phase_after::<C, R, W>(ServerPhase::AwaitingResponse, round)
            == ServerPhase::AwaitingResponse) by {
            reveal_with_fuel(server_phase_after, 3);
        }
        assert(server_run::<C, R, W>(ServerPhase::AwaitingResponse, round) == round_actions) by {
            reveal_with_fuel(server_run, 3);
        }
        assert(actions == round_actions + rest_actions);
        actions_concat(round_actions, rest_actions);
        assert(round_actions.drop_first() == seq![ServerAction::<C, W>::AwaitResponse]);
        assert(round_actions.drop_first().drop_first() == Seq::<ServerAction<C, W>>::empty());
        assert(writes(round_actions) == seq![wire_of::<R, W>(responses.first())]) by {
            reveal_with_fuel(writes, 3);
        }
        assert(result_of(round_actions) is None) by {
            reveal_with_fuel(result_of, 3);
        }
        assert(wires == seq![wire_of::<R, W>(responses.first())] + responses.drop_first().map_values(
            |r: R| wire_of::<R, W>(r),
        ));
    }
}

/// Where the handler produces `responses` and then ends, and the transport
/// accepts every write, the call writes exactly these responses, each in
/// its wire form and once, in the order produced, and then reports success.
pub proof fn accepted_responses_are_all_written<C: ConnectionErrors, R: Into<W>, W>(
    responses: Seq<R>,
)
    ensures
        writes(
            server_run::<C, R, W>(ServerPhase::AwaitingResponse, all_accepted(responses)),
        ) == responses.map_values(|r: R| wire_of::<R, W>(r)),
        writes(
            server_run::<C, R, W>(ServerPhase::AwaitingResponse, all_accepted(responses)),
        ).len() == responses.len(),
        result_of(
            server_run::<C, R, W>(ServerPhase::AwaitingResponse, all_accepted(responses)),
        ) == Some(Ok::<(), RpcServerError<C>>(())),
        server_phase_after::<C, R, W>(ServerPhase::AwaitingResponse, all_accepted(responses))
            == ServerPhase::Finished,
{
    let start = ServerPhase::AwaitingResponse;
    let rounds = accepted_rounds::<C, R>(responses);
    let close = seq![ServerEvent::<C, R>::Response(None)];
    let end = seq![ServerAction::<C, W>::Finish(Ok(()))];
    accepted_rounds_are_written::<C, R, W>(responses);
    server_run_concat::<C, R, W>(start, rounds, close);
    assert(close.drop_first() == Seq::<ServerEvent<C, R>>::empty());
    assert(server_run::<C, R, W>(start, close) == end) by {
        reveal_with_fuel(server_run, 2);
    }
    assert(server_phase_after::<C, R, W>(start, close) == ServerPhase::Finished) by {
        reveal_with_fuel(server_phase_after, 2);
    }
    actions_concat(server_run::<C, R, W>(start, rounds), end);
    assert(end.drop_first() == Seq::<ServerAction<C, W>>::empty());
    assert(writes(end) == Seq::<W>::empty()) by {
        reveal_with_fuel(writes, 2);
    }
    assert(result_of(end) == Some(Ok::<(), RpcServerError<C>>(())));
}

/// Where the transport refuses the write of a response, after it accepted
/// those of the responses `written` before it, the call ends there and
/// reports the transport's error as a send error: the refused response is
/// the last that the call asked to write, whatever happens afterwards.
pub proof fn failed_write_ends_the_call<C: ConnectionErrors, R: Into<W>, W>(
    written: Seq<R>,
    refused: R,
    failure: C::SendError,
    after: Seq<ServerEvent<C, R>>,
)
    ensures
        ({
            let events = accepted_rounds(written) + seq![
                ServerEvent::Response(Some(refused)),
                ServerEvent::Sent(Err(failure)),
            ] + after;
            let actions = server_run::<C, R, W>(ServerPhase::AwaitingResponse, events);
            &&& writes(actions) == written.map_values(|r: R| wire_of::<R, W>(r)).push(
                wire_of::<R, W>(refused),
            )
            &&& result_of(actions) == Some(
                Err::<(), RpcServerError<C>>(RpcServerError::SendError(failure)),
            )
            &&& server_phase_after::<C, R, W>(ServerPhase::AwaitingResponse, events)
                == ServerPhase::Finished
        }),
{
    let start = ServerPhase::AwaitingResponse;
    let rounds = accepted_rounds::<C, R>(written);
    let round = seq![
        ServerEvent::<C, R>::Response(Some(refused)),
        ServerEvent::Sent(Err(failure)),
    ];
    let round_actions = seq![
        ServerAction::<C, W>::Send(wire_of::<R, W>(refused)),
        ServerAction::Finish(Err(RpcServerError::SendError(failure))),
    ];
    let silence = server_run::<C, R, W>(ServerPhase::Finished, after);
    let head = server_run::<C, R, W>(start, rounds);

    accepted_rounds_are_written::<C, R, W>(written);
    assert(rounds + round + after == rounds + (round + after));
    server_run_concat::<C, R, W>(start, rounds, round + after);
    server_run_concat::<C, R, W>(start, round, after);
    assert(round.drop_first() == seq![ServerEvent::<C, R>::Sent(Err(failure))]);
    assert(round.drop_first().drop_first() == Seq::<ServerEvent<C, R>>::empty());
    assert(server_phase_after::<C, R, W>(start, round) == ServerPhase::Finished) by {
        reveal_with_fuel(server_phase_after, 3);
    }
    assert(server_run::<C, R, W>(start, round) == round_actions) by {
        reveal_with_fuel(server_run, 3);
    }
    finished_call_is_silent::<C, R, W>(after);
    actions_concat(head, round_actions + silence);
    actions_concat(round_actions, silence);
    assert(round_actions.drop_first() == seq![
        ServerAction::<C, W>::Finish(Err(RpcServerError::SendError(failure))),
    ]);
    assert(round_actions.drop_first().drop_first() == Seq::<ServerAction<C, W>>::empty());
    assert(writes(round_actions) == seq![wire_of::<R, W>(refused)]) by {
        reveal_with_fuel(writes, 3);
    }
    assert(result_of(round_actions) == Some(
        Err::<(), RpcServerError<C>>(RpcServerError::SendError(failure)),
    )) by {
        reveal_with_fuel(result_of, 3);
    }
}

/// Where the update source fails while the call is still running, the call
/// ends there and reports that failure: nothing is written from then on,
/// not even the response whose write was under way, and whatever happens
/// afterwards, a failed write included, changes nothing.
pub proof fn update_failure_ends_the_call<C: ConnectionErrors, R: Into<W>, W>(
    before: Seq<ServerEvent<C, R>>,
    failure: RpcServerError<C>,
    after: Seq<ServerEvent<C, R>>,
)
    requires
        server_phase_after::<C, R, W>(ServerPhase::AwaitingResponse, before)
            != ServerPhase::Finished,
    ensures
        ({
            let events = before + seq![ServerEvent::UpdateFailed(failure)] + after;
            let actions = server_run::<C, R, W>(ServerPhase::AwaitingResponse, events);
            &&& actions.len() == before.len() + 1 + after.len()
            &&& actions[before.len() as int] == ServerAction::<C, W>::Finish(Err(failure))
            &&& forall|k: int|
                before.len() < k < actions.len() ==> #[trigger] actions[k] == ServerAction::<
                    C,
                    W,
                >::Idle
            &&& writes(actions) == writes(
                server_run::<C, R, W>(ServerPhase::AwaitingResponse, before),
            )
            &&& result_of(actions) == Some(Err::<(), RpcServerError<C>>(failure))
            &&& server_phase_after::<C, R, W>(ServerPhase::AwaitingResponse, events)
                == ServerPhase::Finished
        }),
{
    let start = ServerPhase::AwaitingResponse;
    let fail = seq![ServerEvent::<C, R>::UpdateFailed(failure)];
    let events = before + fail + after;
    let actions = server_run::<C, R, W>(start, events);
    let running = server_phase_after::<C, R, W>(start, before);
    let head = server_run::<C, R, W>(start, before);
    let end = seq![ServerAction::<C, W>::Finish(Err(failure))];
    let silence = server_run::<C, R, W>(ServerPhase::Finished, after);

    assert(events == before + (fail + after));
    server_run_concat::<C, R, W>(start, before, fail + after);
    assert((fail + after).first() == fail[0]);
    assert((fail + after).drop_first() == after);
    assert(server_run::<C, R, W>(running, fail + after) == end + silence);
    assert(actions == head + (end + silence));

    server_run_len::<C, R, W>(start, before);
    finished_call_is_silent::<C, R, W>(after);
    running_call_has_no_result::<C, R, W>(start, before);

    actions_concat(head, end + silence);
    actions_concat(end, silence);
    assert(end.drop_first() == Seq::<ServerAction<C, W>>::empty());
    assert(writes(end) == Seq::<W>::empty()) by {
        reveal_with_fuel(writes, 2);
    }
    assert(result_of(end) == Some(Err::<(), RpcServerError<C>>(failure)));
    assert(writes(actions) == writes(head));
    assert forall|k: int| before.len() < k < actions.len() implies #[trigger] actions[k]
        == ServerAction::<C, W>::Idle by {
        assert(actions[k] == silence[k - before.len() - 1]);
    }
}

} // verus!
