use vstd::prelude::*;

verus! {

#[verifier::external_type_specification]
#[verifier::external_body]
pub struct ExMessage(tungstenite::Message);

#[verifier::external_type_specification]
#[verifier::external_body]
pub struct ExWsError(tungstenite::Error);

/// What the stream hands the server next.
pub enum ServerEvent {
    /// A frame arrived.
    Frame(tungstenite::Message),
    /// The peer closed the stream cleanly.
    EndOfStream,
    /// Reading from the stream failed.
    Failed(tungstenite::Error),
}

/// What the server does with an event.
pub enum ServerAction {
    /// Report the frame, as it arrived, and wait for the next event.
    Report(tungstenite::Message),
    /// Report that the peer closed the stream; the loop ends without error.
    Closed,
    /// The loop ends with the read error.
    Fail(tungstenite::Error),
    /// The loop has ended: the event is not reported.
    Idle,
}

/// The server's step: whether the loop has ended after an event, and what it
/// does with the event, given whether it had ended before.
pub open spec fn server_step(finished: bool, ev: ServerEvent) -> (bool, ServerAction) {
    if finished {
        (true, ServerAction::Idle)
    } else {
        match ev {
            ServerEvent::Frame(m) => (false, ServerAction::Report(m)),
            ServerEvent::EndOfStream => (true, ServerAction::Closed),
            ServerEvent::Failed(e) => (true, ServerAction::Fail(e)),
        }
    }
}

/// What the server does with each of a series of events, in order.
pub open spec fn server_run(finished: bool, evs: Seq<ServerEvent>) -> Seq<ServerAction>
    decreases evs.len(),
{
    if evs.len() == 0 {
        Seq::empty()
    } else {
        let (f, a) = server_step(finished, evs[0]);
        seq![a] + server_run(f, evs.drop_first())
    }
}

/// The events of a stream that delivers `frames` in order.
pub open spec fn frame_events(frames: Seq<tungstenite::Message>) -> Seq<ServerEvent> {
    frames.map_values(|m: tungstenite::Message| ServerEvent::Frame(m))
}

/// The reports of `frames` in order.
pub open spec fn frame_reports(frames: Seq<tungstenite::Message>) -> Seq<ServerAction> {
    frames.map_values(|m: tungstenite::Message| ServerAction::Report(m))
}

proof fn lemma_run_after_end(evs: Seq<ServerEvent>)
    ensures
        server_run(true, evs) =~= Seq::new(evs.len(), |i: int| ServerAction::Idle),
    decreases evs.len(),
{
    if evs.len() > 0 {
        lemma_run_after_end(evs.drop_first());
    }
}

/// When the peer closes the stream cleanly after the frames F1..Fk, the server
/// reports exactly F1..Fk, in order, then that the stream closed, and nothing
/// for any event after that.
pub proof fn lemma_server_reports_frames_then_close(
    frames: Seq<tungstenite::Message>,
    later: Seq<ServerEvent>,
)
    ensures
        server_run(false, frame_events(frames) + seq![ServerEvent::EndOfStream] + later)
            =~= frame_reports(frames) + seq![ServerAction::Closed] + Seq::new(
            later.len(),
            |i: int| ServerAction::Idle,
        ),
    decreases frames.len(),
{
    let evs = frame_events(frames) + seq![ServerEvent::EndOfStream] + later;
    if frames.len() == 0 {
        assert(evs.drop_first() =~= later);
        lemma_run_after_end(later);
    } else {
        let rest = frames.drop_first();
        lemma_server_reports_frames_then_close(rest, later);
        assert(evs.drop_first() =~= frame_events(rest) + seq![ServerEvent::EndOfStream] + later);
        assert(frame_reports(frames) =~= seq![ServerAction::Report(frames[0])] + frame_reports(
            rest,
        ));
    }
}

/// The server's message loop: it reports every frame as it arrives until the
/// stream ends, cleanly or with an error.
pub struct ServerLoop {
    finished: bool,
}

impl ServerLoop {
    /// Whether the loop has ended.
    pub closed spec fn is_finished(&self) -> bool {
        self.finished
    }

    /// A loop on a stream that was just established.
    pub fn new() -> (r: ServerLoop)
        ensures
            !r.is_finished(),
    {
        ServerLoop { finished: false }
    }

    /// Whether the loop has ended.
    pub fn finished(&self) -> (r: bool)
        ensures
            r == self.is_finished(),
    {
        self.finished
    }

    /// Takes the next event of the stream: a frame is reported and the loop
    /// goes on; a clean end or an error ends it; once ended, nothing is
    /// reported.
    pub fn on_event(&mut self, ev: ServerEvent) -> (r: ServerAction)
        ensures
            (final(self).is_finished(), r) == server_step(old(self).is_finished(), ev),
    {
        if self.finished {
            return ServerAction::Idle;
        }
        match ev {
            ServerEvent::Frame(m) => ServerAction::Report(m),
            ServerEvent::EndOfStream => {
                self.finished = true;
                ServerAction::Closed
            },
            ServerEvent::Failed(e) => {
                self.finished = true;
                ServerAction::Fail(e)
            },
        }
    }
}

} // verus!
