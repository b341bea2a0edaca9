use bidi_rpc::pattern::bidi_streaming::{
    BidiStreaming, BidiStreamingMsg, ServerAction, ServerCall, ServerEvent, ServerPhase,
};
use bidi_rpc::{
    race2, ConnectionErrors, Msg, RpcChannel, RpcServerError, Service, UpdateStep, UpdateStream,
};

#[derive(Debug, Clone, PartialEq)]
struct Watch(u32);

#[derive(Debug, Clone, PartialEq)]
struct Narrow(u8);

#[derive(Debug, Clone, PartialEq)]
struct Change(u64);

/// A request without updates: it names itself as its update type.
#[derive(Debug, Clone, PartialEq)]
struct Dump;

#[derive(Debug, Clone, PartialEq)]
enum Up {
    Watch(Watch),
    Narrow(Narrow),
    Dump(Dump),
    Noise,
}

#[derive(Debug, Clone, PartialEq)]
enum Down {
    Change(Change),
    Dump(Dump),
}

impl From<Watch> for Up {
    fn from(m: Watch) -> Up {
        Up::Watch(m)
    }
}

impl TryFrom<Up> for Watch {
    type Error = ();
    fn try_from(w: Up) -> Result<Watch, ()> {
        match w {
            Up::Watch(m) => Ok(m),
            _ => Err(()),
        }
    }
}

impl From<Narrow> for Up {
    fn from(m: Narrow) -> Up {
        Up::Narrow(m)
    }
}

impl TryFrom<Up> for Narrow {
    type Error = ();
    fn try_from(w: Up) -> Result<Narrow, ()> {
        match w {
            Up::Narrow(m) => Ok(m),
            _ => Err(()),
        }
    }
}

impl From<Dump> for Up {
    fn from(m: Dump) -> Up {
        Up::Dump(m)
    }
}

impl TryFrom<Up> for Dump {
    type Error = ();
    fn try_from(w: Up) -> Result<Dump, ()> {
        match w {
            Up::Dump(m) => Ok(m),
            _ => Err(()),
        }
    }
}

impl From<Change> for Down {
    fn from(m: Change) -> Down {
        Down::Change(m)
    }
}

impl TryFrom<Down> for Change {
    type Error = ();
    fn try_from(w: Down) -> Result<Change, ()> {
        match w {
            Down::Change(m) => Ok(m),
            _ => Err(()),
        }
    }
}

impl From<Dump> for Down {
    fn from(m: Dump) -> Down {
        Down::Dump(m)
    }
}

impl TryFrom<Down> for Dump {
    type Error = ();
    fn try_from(w: Down) -> Result<Dump, ()> {
        match w {
            Down::Dump(m) => Ok(m),
            _ => Err(()),
        }
    }
}

#[derive(Debug, Clone)]
struct Store;

impl Service for Store {
    type Req = Up;
    type Res = Down;
}

impl Msg<Store> for Watch {
    type Pattern = BidiStreaming;
}

impl BidiStreamingMsg<Store> for Watch {
    type Update = Narrow;
    type Response = Change;
}

impl Msg<Store> for Dump {
    type Pattern = BidiStreaming;
}

impl BidiStreamingMsg<Store> for Dump {
    type Update = Dump;
    type Response = Dump;
}

#[derive(Debug, Clone)]
struct Pipe;

impl ConnectionErrors for Pipe {
    type OpenError = ();
    type SendError = &'static str;
    type RecvError = u8;
}

type Event = ServerEvent<Pipe, Change>;

fn serve_watch() -> (UpdateStream<Store, Pipe, Narrow>, ServerCall<Store, Pipe, Watch>) {
    RpcChannel::<Store, Pipe>::new().bidi_streaming(Watch(0), (), |_target, _req, updates| updates)
}

#[test]
fn handler_gets_the_target_and_the_request_as_they_came() {
    let channel = RpcChannel::<Store, Pipe>::new();
    let handler = |target: &'static str, req: Watch, updates: UpdateStream<Store, Pipe, Narrow>| {
        (target, req, updates.has_fired(), vec![Change(1), Change(2)])
    };
    let ((target, req, fired, responses), call) = channel.bidi_streaming(Watch(77), "db", handler);
    assert_eq!(target, "db");
    assert_eq!(req, Watch(77));
    assert!(!fired);
    assert_eq!(responses, vec![Change(1), Change(2)]);
    assert_eq!(call.current_phase(), ServerPhase::AwaitingResponse);
}

#[test]
fn new_server_call_waits_for_a_response_and_has_not_fired() {
    let (updates, call) = serve_watch();
    assert!(!updates.has_fired());
    assert_eq!(call.current_phase(), ServerPhase::AwaitingResponse);
}

#[test]
fn all_responses_are_sent_in_order_and_the_call_succeeds() {
    let (_updates, mut call) = serve_watch();
    let produced = [Change(10), Change(20), Change(30), Change(40)];
    let mut sent = Vec::new();
    for response in produced.iter().cloned() {
        match call.step(Event::Response(Some(response))) {
            ServerAction::Send(wire) => sent.push(wire),
            other => panic!("expected a write, got {:?}", other),
        }
        assert_eq!(call.current_phase(), ServerPhase::Sending);
        assert!(matches!(call.step(Event::Sent(Ok(()))), ServerAction::AwaitResponse));
        assert_eq!(call.current_phase(), ServerPhase::AwaitingResponse);
    }
    assert!(matches!(call.step(Event::Response(None)), ServerAction::Finish(Ok(()))));
    assert_eq!(call.current_phase(), ServerPhase::Finished);
    assert_eq!(
        sent,
        vec![
            Down::Change(Change(10)),
            Down::Change(Change(20)),
            Down::Change(Change(30)),
            Down::Change(Change(40)),
        ]
    );
}

#[test]
fn handler_without_responses_succeeds_without_a_write() {
    let (_updates, mut call) = serve_watch();
    assert!(matches!(call.step(Event::Response(None)), ServerAction::Finish(Ok(()))));
    assert_eq!(call.current_phase(), ServerPhase::Finished);
}

#[test]
fn update_failure_during_a_write_ends_the_call_with_that_failure() {
    let (_updates, mut call) = serve_watch();
    assert!(matches!(call.step(Event::Response(Some(Change(1)))), ServerAction::Send(_)));
    assert!(matches!(call.step(Event::Sent(Ok(()))), ServerAction::AwaitResponse));
    assert!(matches!(call.step(Event::Response(Some(Change(2)))), ServerAction::Send(_)));
    let action = call.step(Event::UpdateFailed(RpcServerError::RecvError(9)));
    assert!(matches!(action, ServerAction::Finish(Err(RpcServerError::RecvError(9)))));
    assert_eq!(call.current_phase(), ServerPhase::Finished);
    // The write that was under way fails later: it no longer counts.
    assert!(matches!(call.step(Event::Sent(Err("reset"))), ServerAction::Idle));
    assert!(matches!(call.step(Event::Response(Some(Change(3)))), ServerAction::Idle));
    assert_eq!(call.current_phase(), ServerPhase::Finished);
}

#[test]
fn update_failure_while_waiting_ends_the_call() {
    let (_updates, mut call) = serve_watch();
    let action = call.step(Event::UpdateFailed(RpcServerError::UnexpectedUpdateMessage));
    assert!(matches!(action, ServerAction::Finish(Err(RpcServerError::UnexpectedUpdateMessage))));
    assert!(matches!(call.step(Event::Response(Some(Change(1)))), ServerAction::Idle));
}

#[test]
fn failed_write_ends_the_call_with_a_send_error() {
    let (_updates, mut call) = serve_watch();
    assert!(matches!(call.step(Event::Response(Some(Change(1)))), ServerAction::Send(_)));
    let action = call.step(Event::Sent(Err("broken pipe")));
    assert!(matches!(action, ServerAction::Finish(Err(RpcServerError::SendError("broken pipe")))));
    assert_eq!(call.current_phase(), ServerPhase::Finished);
    // A failure of the update source after that is not reported again.
    let late = call.step(Event::UpdateFailed(RpcServerError::RecvError(1)));
    assert!(matches!(late, ServerAction::Idle));
}

#[test]
fn finished_call_asks_for_nothing() {
    let (_updates, mut call) = serve_watch();
    assert!(matches!(call.step(Event::Response(None)), ServerAction::Finish(Ok(()))));
    let later = [
        call.step(Event::Response(None)),
        call.step(Event::Response(Some(Change(5)))),
        call.step(Event::Sent(Ok(()))),
        call.step(Event::Sent(Err("late"))),
        call.step(Event::UpdateFailed(RpcServerError::UnexpectedUpdateMessage)),
    ];
    for action in later {
        assert!(matches!(action, ServerAction::Idle));
    }
    assert_eq!(call.current_phase(), ServerPhase::Finished);
}

#[test]
fn server_events_out_of_turn_are_ignored() {
    let (_updates, mut call) = serve_watch();
    assert!(matches!(call.step(Event::Sent(Ok(()))), ServerAction::Idle));
    assert!(matches!(call.step(Event::Sent(Err("stray"))), ServerAction::Idle));
    assert_eq!(call.current_phase(), ServerPhase::AwaitingResponse);
    assert!(matches!(call.step(Event::Response(Some(Change(1)))), ServerAction::Send(_)));
    assert!(matches!(call.step(Event::Response(Some(Change(2)))), ServerAction::Idle));
    assert!(matches!(call.step(Event::Response(None)), ServerAction::Idle));
    assert_eq!(call.current_phase(), ServerPhase::Sending);
}

#[test]
fn typed_updates_reach_the_handler_in_order() {
    let (mut updates, _call) = serve_watch();
    let raw = [Up::Narrow(Narrow(1)), Up::Narrow(Narrow(2)), Up::Narrow(Narrow(3))];
    let mut seen = Vec::new();
    for w in raw {
        match updates.receive(Some(Ok(w))) {
            UpdateStep::Update(u) => seen.push(u),
            other => panic!("expected an update, got {:?}", other),
        }
    }
    assert_eq!(seen, vec![Narrow(1), Narrow(2), Narrow(3)]);
    assert!(matches!(updates.receive(None), UpdateStep::End));
    assert!(!updates.has_fired());
}

#[test]
fn mismatched_message_fires_the_signal_and_is_no_update() {
    let (mut updates, _call) = serve_watch();
    assert!(matches!(updates.receive(Some(Ok(Up::Narrow(Narrow(1))))), UpdateStep::Update(_)));
    let step = updates.receive(Some(Ok(Up::Noise)));
    assert!(matches!(step, UpdateStep::Failed(RpcServerError::UnexpectedUpdateMessage)));
    assert!(updates.has_fired());
}

#[test]
fn failed_read_fires_the_signal_with_the_transport_error() {
    let (mut updates, _call) = serve_watch();
    let step = updates.receive(Some(Err(23)));
    assert!(matches!(step, UpdateStep::Failed(RpcServerError::RecvError(23))));
    assert!(updates.has_fired());
}

#[test]
fn signal_fires_only_once() {
    let (mut updates, _call) = serve_watch();
    assert!(matches!(updates.receive(Some(Err(1))), UpdateStep::Failed(_)));
    assert!(matches!(updates.receive(Some(Err(2))), UpdateStep::Dropped));
    assert!(matches!(updates.receive(Some(Ok(Up::Noise))), UpdateStep::Dropped));
    assert!(matches!(updates.receive(Some(Ok(Up::Watch(Watch(1))))), UpdateStep::Dropped));
    // An update that does convert is still an update.
    assert!(matches!(updates.receive(Some(Ok(Up::Narrow(Narrow(4))))), UpdateStep::Update(Narrow(4))));
    assert!(matches!(updates.receive(None), UpdateStep::End));
    assert!(updates.has_fired());
}

#[test]
fn clean_end_never_fires_the_signal() {
    let (mut updates, _call) = serve_watch();
    assert!(matches!(updates.receive(None), UpdateStep::End));
    assert!(!updates.has_fired());
    assert!(matches!(updates.receive(None), UpdateStep::End));
    assert!(!updates.has_fired());
}

#[test]
fn request_without_updates_rejects_every_update() {
    let (mut updates, mut call) =
        RpcChannel::<Store, Pipe>::new().bidi_streaming(Dump, (), |_target, _req, updates| updates);
    let step = updates.receive(Some(Ok(Up::Narrow(Narrow(1)))));
    assert!(matches!(step, UpdateStep::Failed(RpcServerError::UnexpectedUpdateMessage)));
    let action = call.step(ServerEvent::UpdateFailed(RpcServerError::UnexpectedUpdateMessage));
    assert!(matches!(action, ServerAction::Finish(Err(RpcServerError::UnexpectedUpdateMessage))));
}

#[test]
fn update_written_by_the_sink_is_read_by_the_source() {
    let (mut updates, _call) = serve_watch();
    for n in [0u8, 7, 255] {
        let wire: Up = bidi_rpc::message::to_wire(Narrow(n));
        match updates.receive(Some(Ok(wire))) {
            UpdateStep::Update(u) => assert_eq!(u, Narrow(n)),
            other => panic!("expected an update, got {:?}", other),
        }
    }
    assert!(!updates.has_fired());
}

#[test]
fn race_goes_to_the_first_result_that_is_there() {
    assert_eq!(race2(Some(1), Some(2)), Some(1));
    assert_eq!(race2(Some(1), None), Some(1));
    assert_eq!(race2(None, Some(2)), Some(2));
    assert_eq!(race2::<u8>(None, None), None);
}

#[test]
fn race_between_update_failure_and_success_reports_the_failure() {
    let failure: Result<(), RpcServerError<Pipe>> = Err(RpcServerError::RecvError(4));
    let winner = race2(Some(failure), Some(Ok(())));
    assert!(matches!(winner, Some(Err(RpcServerError::RecvError(4)))));
    let winner = race2(None, Some(Ok::<(), RpcServerError<Pipe>>(())));
    assert!(matches!(winner, Some(Ok(()))));
}
