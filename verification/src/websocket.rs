//! The streaming ingestor: one long-lived trade-feed connection,
//! decoded frame by frame. Text frames become ticks, non-text frames
//! are ignored, a transport error or a clean remote close ends the one
//! invocation — no reconnection is attempted. The socket itself lives
//! with the caller; what is verified here is the state machine and
//! what each inbound event does to the produced tick sequence.

use vstd::prelude::*;

verus! {

/// One thing the socket can hand the ingestor: a decoded text frame,
/// a frame of any other kind, a transport error, or the remote end
/// closing cleanly.
#[derive(Clone, Debug)]
pub enum StreamEvent {
    Text(String),
    NonText,
    TransportError(String),
    Closed,
}

/// Where one invocation of the ingestor stands.
#[derive(Clone, Copy, Debug, PartialEq, Eq, Structural)]
pub enum IngestorState {
    Disconnected,
    Connected,
    Streaming,
    Terminated,
}

/// What one inbound event asks the caller to do.
#[derive(Clone, Debug)]
pub enum TickAction {
    /// Report this tick to the consumer and keep streaming.
    Emit(String),
    /// A non-text frame: produce nothing and keep streaming.
    Skip,
    /// The remote end closed cleanly: stop without error.
    StopClean,
    /// A transport error: stop and surface it once.
    StopError(String),
}

/// The ticks a sequence of events produces: the text payloads before
/// the first terminating event, in order.
pub open spec fn spec_ticks(events: Seq<StreamEvent>) -> Seq<Seq<char>>
    decreases events.len(),
{
    if events.len() == 0 {
        seq![]
    } else {
        match events[0] {
            StreamEvent::Text(t) => seq![t@] + spec_ticks(events.drop_first()),
            StreamEvent::NonText => spec_ticks(events.drop_first()),
            StreamEvent::TransportError(_) => seq![],
            StreamEvent::Closed => seq![],
        }
    }
}

/// How a sequence of events ends: the first transport error's text,
/// or `None` when the stream closes cleanly or the events run out
/// first.
pub open spec fn spec_stream_error(events: Seq<StreamEvent>) -> Option<Seq<char>>
    decreases events.len(),
{
    if events.len() == 0 {
        None
    } else {
        match events[0] {
            StreamEvent::Text(_) => spec_stream_error(events.drop_first()),
            StreamEvent::NonText => spec_stream_error(events.drop_first()),
            StreamEvent::TransportError(e) => Some(e@),
            StreamEvent::Closed => None,
        }
    }
}

/// The views of a vector of tick payloads.
pub open spec fn views_of(ticks: Seq<String>) -> Seq<Seq<char>> {
    ticks.map_values(|t: String| t@)
}

/// The live-trade stream endpoint for one symbol, already lowercased.
pub open spec fn spec_stream_url(symbol_lower: Seq<char>) -> Seq<char> {
    "wss://stream.binance.com:9443/ws/"@ + symbol_lower + "@trade"@
}

/// The URL the ingestor's one connection is made to.
pub fn stream_url(symbol_lower: &str) -> (r: String)
    ensures
        r@ == spec_stream_url(symbol_lower@),
{
    let mut u = String::new();
    u.append("wss://stream.binance.com:9443/ws/");
    u.append(symbol_lower);
    u.append("@trade");
    proof {
        assert(u@ =~= spec_stream_url(symbol_lower@));
    }
    u
}

/// The ingestor's state machine. `Connected` is reached when the
/// socket is opened, `Streaming` once the handshake completes, and
/// `Terminated` on the first transport error or clean remote close.
pub struct Ingestor {
    pub state: IngestorState,
}

impl Ingestor {
    pub fn new() -> (s: Ingestor)
        ensures
            s.state is Disconnected,
    {
        Ingestor { state: IngestorState::Disconnected }
    }

    /// The socket is open.
    pub fn connect(&mut self)
        requires
            old(self).state is Disconnected,
        ensures
            final(self).state is Connected,
    {
        self.state = IngestorState::Connected;
    }

    /// The handshake completed; frames flow from here on.
    pub fn start_streaming(&mut self)
        requires
            old(self).state is Connected,
        ensures
            final(self).state is Streaming,
    {
        self.state = IngestorState::Streaming;
    }

    /// One inbound event while streaming: a text frame is emitted as a
    /// tick, a non-text frame produces nothing and does not advance the
    /// tick sequence, and a transport error or clean close terminates
    /// the invocation — with the error surfaced exactly when there was
    /// one.
    pub fn on_event(&mut self, event: &StreamEvent) -> (a: TickAction)
        requires
            old(self).state is Streaming,
        ensures
            match *event {
                StreamEvent::Text(t) => (a matches TickAction::Emit(p) && p@ == t@)
                    && final(self).state is Streaming,
                StreamEvent::NonText => a is Skip && final(self).state is Streaming,
                StreamEvent::TransportError(e) => (a matches TickAction::StopError(p) && p@ == e@)
                    && final(self).state is Terminated,
                StreamEvent::Closed => a is StopClean && final(self).state is Terminated,
            },
    {
        match event {
            StreamEvent::Text(t) => TickAction::Emit(t.clone()),
            StreamEvent::NonText => TickAction::Skip,
            StreamEvent::TransportError(e) => {
                self.state = IngestorState::Terminated;
                TickAction::StopError(e.clone())
            },
            StreamEvent::Closed => {
                self.state = IngestorState::Terminated;
                TickAction::StopClean
            },
        }
    }
}

/// One whole invocation over the events a socket delivers, in order:
/// the ticks are exactly the text payloads before the first
/// terminating event, and the returned error is exactly the transport
/// error that ended the stream, `None` on a clean close or when the
/// events run out.
pub fn ingest(events: &Vec<StreamEvent>) -> (r: (Vec<String>, Option<String>))
    ensures
        views_of(r.0@) == spec_ticks(events@),
        match r.1 {
            Some(e) => spec_stream_error(events@) matches Some(se) && se == e@,
            None => spec_stream_error(events@) is None,
        },
{
    let mut ticks: Vec<String> = Vec::new();
    let mut error: Option<String> = None;
    let mut ing = Ingestor::new();
    ing.connect();
    ing.start_streaming();
    let mut i: usize = 0;
    let mut done: bool = false;
    proof {
        assert(events@.skip(0) =~= events@);
        assert(views_of(ticks@) =~= Seq::<Seq<char>>::empty());
        assert(views_of(ticks@) + spec_ticks(events@) =~= spec_ticks(events@));
    }
    while !done && i < events.len()
        invariant
            i <= events@.len(),
            !done ==> ing.state is Streaming,
            !done ==> error is None,
            !done ==> spec_ticks(events@) == views_of(ticks@) + spec_ticks(events@.skip(i as int)),
            !done ==> spec_stream_error(events@) == spec_stream_error(events@.skip(i as int)),
            done ==> spec_ticks(events@) == views_of(ticks@),
            done ==> match error {
                Some(e) => spec_stream_error(events@) matches Some(se) && se == e@,
                None => spec_stream_error(events@) is None,
            },
        decreases events@.len() - i,
    {
        proof {
            assert(events@.skip(i as int)[0] == events@[i as int]);
            assert(events@.skip(i as int).drop_first() =~= events@.skip(i as int + 1));
        }
        let ghost pre_ticks = ticks@;
        let a = ing.on_event(&events[i]);
        i += 1;
        match a {
            TickAction::Emit(t) => {
                ticks.push(t);
                proof {
                    assert(views_of(ticks@) =~= views_of(pre_ticks).push(ticks@[ticks@.len() - 1]@));
                }
            },
            TickAction::Skip => {},
            TickAction::StopClean => {
                done = true;
            },
            TickAction::StopError(e) => {
                error = Some(e);
                done = true;
            },
        }
    }
    proof {
        if !done {
            assert(events@.skip(i as int) =~= Seq::<StreamEvent>::empty());
        }
    }
    (ticks, error)
}

} // verus!
