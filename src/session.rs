//! The session multiplexer: one channel upgraded with a live token, over which
//! framed requests are routed and the external tool's output is relayed.

use crate::text::{last_segment, last_segment_of, same_text, split_words, upper_of, uppercase, words_of};
use crate::token::{parse_uuid, uuid_value, TokenAuthority};
use vstd::prelude::*;

verus! {

/// The internal path through which a frame asks to run the external tool.
pub const TOOL_PATH: &'static str = "/api/yas";

/// The origin of the plain request surface, to which forwarded requests go.
pub const SERVICE_ORIGIN: &'static str = "http://127.0.0.1:32333";

/// The body forwarded when a request carries none.
pub const EMPTY_BODY: &'static str = "null";

/// The body of the reply that turns away a second tool run.
pub const BUSY_BODY: &'static str = "{\"msg\":\"busy\"}";

/// The status of the reply that turns away a second tool run.
pub const BUSY_STATUS: u16 = 409;

/// The bytes written once to the external tool's input before it is closed.
pub open spec fn tool_input() -> Seq<u8> {
    seq![49u8, 49u8, 52u8, 53u8, 49u8, 52u8]
}

/// A frame received on a session.
#[derive(Debug, Clone)]
pub enum Inbound {
    /// A request for an internal endpoint; running the tool is one of them.
    Api {
        /// The caller's correlation id, as JSON text, echoed in the reply.
        id: String,
        /// The internal path.
        url: String,
        /// The HTTP method, in any case.
        method: String,
        /// The request body as JSON text, if any.
        body: Option<String>,
        /// The tool's argument line, when the body is a JSON text holding one.
        argv: Option<String>,
    },
    /// A frame whose action is not recognised.
    Other,
}

/// A lifecycle marker of a tool run.
#[derive(Debug, Clone, Copy, PartialEq, Eq, Structural)]
pub enum ToolStatus {
    /// The tool was started.
    Load,
    /// The tool's output ended.
    Exit,
    /// The tool could not be started, or its output could not be read to the end.
    Failed,
}

impl ToolStatus {
    /// The marker as it stands in a frame.
    pub fn as_str(&self) -> (r: &'static str)
        ensures
            r@ == match *self {
                ToolStatus::Load => "load"@,
                ToolStatus::Exit => "exit"@,
                ToolStatus::Failed => "error"@,
            },
    {
        match self {
            ToolStatus::Load => "load",
            ToolStatus::Exit => "exit",
            ToolStatus::Failed => "error",
        }
    }
}

/// A frame sent on a session.
#[derive(Debug, Clone)]
pub enum Outbound {
    /// The reply to an `Api` frame.
    ApiReply { id: String, status: u16, body: String },
    /// One line of the tool's output.
    ToolOutput { line: String },
    /// A lifecycle marker of the tool run.
    Tool { marker: ToolStatus },
}

/// What the owner of a session does with an inbound frame.
#[derive(Debug)]
pub enum SessionAction {
    /// Send the request to the plain request surface and reply with the result.
    Forward { id: String, method: String, url: String, body: String },
    /// Start the external tool with these arguments and this input.
    RunTool { args: Vec<String>, argv: String, stdin: Vec<u8> },
    /// Send this frame back at once.
    Reply { frame: Outbound },
    /// Nothing to do.
    Ignore,
}

/// What happened to the tool run of a session.
#[derive(Debug, Clone)]
pub enum ToolEvent {
    /// The tool wrote a line of progress.
    Line { line: String },
    /// The tool's output ended: the tool exited.
    Ended,
    /// Reading the tool's output failed before it ended.
    ReadFailed,
    /// The tool could not be started.
    SpawnFailed,
}

/// The session was refused: its token is not live.
#[derive(Debug, Clone, Copy, PartialEq, Eq, Structural)]
pub struct Unauthorized;

/// What a session is: the token it was opened with and whether a tool run is active.
pub struct SessionView {
    pub token: u128,
    pub tool_running: bool,
}

/// One upgraded channel.
pub struct Session {
    token: u128,
    tool_running: bool,
}

impl View for Session {
    type V = SessionView;

    closed spec fn view(&self) -> SessionView {
        SessionView { token: self.token, tool_running: self.tool_running }
    }
}

/// How a session answers an inbound frame.
pub enum Dispatch {
    Ignore,
    Forward,
    Run,
    Busy,
}

/// Whether a frame asks to run the tool.
pub open spec fn is_tool_request(frame: Inbound) -> bool {
    frame matches Inbound::Api { url, .. } && url@ == TOOL_PATH@
}

/// How a session in a given state answers a frame.
pub open spec fn dispatch_kind(s: SessionView, frame: Inbound) -> Dispatch {
    match frame {
        Inbound::Other => Dispatch::Ignore,
        Inbound::Api { url, argv, .. } => {
            if url@ != TOOL_PATH@ {
                Dispatch::Forward
            } else if s.tool_running {
                Dispatch::Busy
            } else if argv is None {
                Dispatch::Ignore
            } else {
                Dispatch::Run
            }
        },
    }
}

/// The state of a session after it answered a frame.
pub open spec fn dispatch_next(s: SessionView, frame: Inbound) -> SessionView {
    if dispatch_kind(s, frame) is Run {
        SessionView { tool_running: true, ..s }
    } else {
        s
    }
}

/// The frame that a tool event gives on a session, and the session after it.
pub open spec fn tool_step(s: SessionView, ev: ToolEvent) -> (SessionView, Option<Outbound>) {
    if !s.tool_running {
        (s, None)
    } else {
        match ev {
            ToolEvent::Line { line } => (s, Some(Outbound::ToolOutput { line })),
            ToolEvent::Ended => (
                SessionView { tool_running: false, ..s },
                Some(Outbound::Tool { marker: ToolStatus::Exit }),
            ),
            ToolEvent::SpawnFailed | ToolEvent::ReadFailed => (
                SessionView { tool_running: false, ..s },
                Some(Outbound::Tool { marker: ToolStatus::Failed }),
            ),
        }
    }
}

/// The frames that a run of tool events gives, in order, and the session after them.
pub open spec fn relay(s: SessionView, evs: Seq<ToolEvent>) -> (SessionView, Seq<Outbound>)
    decreases evs.len(),
{
    if evs.len() == 0 {
        (s, Seq::empty())
    } else {
        let (mid, frames) = relay(s, evs.drop_last());
        let (end, out) = tool_step(mid, evs.last());
        match out {
            Some(f) => (end, frames.push(f)),
            None => (end, frames),
        }
    }
}

/// The events of a tool run that wrote `lines` and then ended.
pub open spec fn line_events(lines: Seq<String>) -> Seq<ToolEvent> {
    lines.map_values(|l: String| ToolEvent::Line { line: l })
}

/// The output frames of the given lines, in the same order.
pub open spec fn output_frames(lines: Seq<String>) -> Seq<Outbound> {
    lines.map_values(|l: String| Outbound::ToolOutput { line: l })
}

/// Relaying lines of an active run sends each as one output frame, in order,
/// and leaves the run active.
proof fn lemma_relay_lines(s: SessionView, lines: Seq<String>)
    requires
        s.tool_running,
    ensures
        relay(s, line_events(lines)) == (s, output_frames(lines)),
    decreases lines.len(),
{
    if lines.len() == 0 {
        assert(line_events(lines) =~= Seq::empty());
        assert(output_frames(lines) =~= Seq::empty());
    } else {
        let prefix = lines.drop_last();
        lemma_relay_lines(s, prefix);
        assert(line_events(lines).drop_last() =~= line_events(prefix));
        assert(output_frames(lines) =~= output_frames(prefix).push(Outbound::ToolOutput { line: lines.last() }));
    }
}

/// A tool run that writes `lines` and then ends reaches the session as exactly
/// those lines, in the order written, followed by one `exit` marker; the marker
/// is the last frame and the only lifecycle marker among them.
pub proof fn lemma_tool_output_in_order(s: SessionView, lines: Seq<String>)
    requires
        s.tool_running,
    ensures
        ({
            let (end, frames) = relay(s, line_events(lines).push(ToolEvent::Ended));
            &&& frames.len() == lines.len() + 1
            &&& forall|i: int| 0 <= i < lines.len() ==> #[trigger] frames[i] == (Outbound::ToolOutput { line: lines[i] })
            &&& frames.last() == (Outbound::Tool { marker: ToolStatus::Exit })
            &&& forall|i: int| 0 <= i < frames.len() && (#[trigger] frames[i] is Tool) ==> i == lines.len()
            &&& end == (SessionView { tool_running: false, ..s })
        }),
{
    let evs = line_events(lines).push(ToolEvent::Ended);
    lemma_relay_lines(s, lines);
    assert(evs.drop_last() =~= line_events(lines));
    let frames = relay(s, evs).1;
    assert(frames =~= output_frames(lines).push(Outbound::Tool { marker: ToolStatus::Exit }));
}

/// A tool run whose output could not be read to the end, after `lines`,
/// reaches the session as exactly those lines, in order, followed by one
/// `error` marker, the last frame and the only lifecycle marker among them.
pub proof fn lemma_tool_read_failure_marked(s: SessionView, lines: Seq<String>)
    requires
        s.tool_running,
    ensures
        ({
            let (end, frames) = relay(s, line_events(lines).push(ToolEvent::ReadFailed));
            &&& frames.len() == lines.len() + 1
            &&& forall|i: int| 0 <= i < lines.len() ==> #[trigger] frames[i] == (Outbound::ToolOutput { line: lines[i] })
            &&& frames.last() == (Outbound::Tool { marker: ToolStatus::Failed })
            &&& forall|i: int| 0 <= i < frames.len() && (#[trigger] frames[i] is Tool) ==> i == lines.len()
            &&& !end.tool_running
        }),
{
    let evs = line_events(lines).push(ToolEvent::ReadFailed);
    lemma_relay_lines(s, lines);
    assert(evs.drop_last() =~= line_events(lines));
    let frames = relay(s, evs).1;
    assert(frames =~= output_frames(lines).push(Outbound::Tool { marker: ToolStatus::Failed }));
}

/// On a session with no tool run, a frame that asks to run the tool with an
/// argument line starts a run; if the tool then writes at least one line and
/// exits, the session sends at least one output frame and ends with exactly
/// one `exit` marker, after every line.
pub proof fn lemma_tool_invocation(s: SessionView, frame: Inbound, lines: Seq<String>)
    requires
        !s.tool_running,
        is_tool_request(frame),
        frame matches Inbound::Api { argv: Some(_), .. },
        lines.len() >= 1,
    ensures
        dispatch_kind(s, frame) is Run,
        ({
            let (end, frames) = relay(dispatch_next(s, frame), line_events(lines).push(ToolEvent::Ended));
            &&& frames.len() == lines.len() + 1
            &&& frames[0] is ToolOutput
            &&& forall|i: int| 0 <= i < lines.len() ==> #[trigger] frames[i] == (Outbound::ToolOutput { line: lines[i] })
            &&& frames.last() == (Outbound::Tool { marker: ToolStatus::Exit })
            &&& forall|i: int| 0 <= i < frames.len() && (#[trigger] frames[i] is Tool) ==> i == frames.len() - 1
            &&& end == s
        }),
{
    let started = dispatch_next(s, frame);
    lemma_tool_output_in_order(started, lines);
    let frames = relay(started, line_events(lines).push(ToolEvent::Ended)).1;
    assert(frames[0] == (Outbound::ToolOutput { line: lines[0] }));
}

/// While a tool run started by one frame is active, a second request to run the
/// tool on the same session is turned away, whatever the first has written so far.
pub proof fn lemma_second_tool_run_rejected(s: SessionView, first: Inbound, lines: Seq<String>, second: Inbound)
    requires
        dispatch_kind(s, first) is Run,
        is_tool_request(second),
    ensures
        dispatch_kind(relay(dispatch_next(s, first), line_events(lines)).0, second) is Busy,
{
    lemma_relay_lines(dispatch_next(s, first), lines);
}

impl Session {
    /// Opens a session with a presented token value, which must be live.
    pub fn upgrade(authority: &TokenAuthority, candidate: Option<u128>) -> (r: Result<Session, Unauthorized>)
        ensures
            match candidate {
                Some(t) => if authority@.contains(t) {
                    r matches Ok(s) && s@ == (SessionView { token: t, tool_running: false })
                } else {
                    r == Err::<Session, Unauthorized>(Unauthorized)
                },
                None => r == Err::<Session, Unauthorized>(Unauthorized),
            },
    {
        match candidate {
            Some(t) => {
                if authority.contains_token(t) {
                    Ok(Session { token: t, tool_running: false })
                } else {
                    Err(Unauthorized)
                }
            },
            None => Err(Unauthorized),
        }
    }

    /// Opens a session from the channel path, whose last segment is the token.
    pub fn open(authority: &TokenAuthority, path: &str) -> (r: Result<Session, Unauthorized>)
        ensures
            match uuid_value(last_segment_of(path@)) {
                Some(t) => if authority@.contains(t) {
                    r matches Ok(s) && s@ == (SessionView { token: t, tool_running: false })
                } else {
                    r == Err::<Session, Unauthorized>(Unauthorized)
                },
                None => r == Err::<Session, Unauthorized>(Unauthorized),
            },
    {
        let segment = last_segment(path);
        let candidate = parse_uuid(segment);
        Session::upgrade(authority, candidate)
    }

    /// The token the session was opened with.
    pub fn token(&self) -> (r: u128)
        ensures
            r == self@.token,
    {
        self.token
    }

    /// Whether a tool run is active on the session.
    pub fn tool_running(&self) -> (r: bool)
        ensures
            r == self@.tool_running,
    {
        self.tool_running
    }

    /// Routes an inbound frame: a request is forwarded, a tool run is started
    /// unless one is active, anything else is ignored.
    pub fn dispatch(&mut self, frame: Inbound) -> (r: SessionAction)
        ensures
            final(self)@ == dispatch_next(old(self)@, frame),
            match dispatch_kind(old(self)@, frame) {
                Dispatch::Ignore => r is Ignore,
                Dispatch::Busy => r matches SessionAction::Reply { frame: Outbound::ApiReply { id, status, body } }
                    && frame matches Inbound::Api { id: fid, .. } && id == fid
                    && status == BUSY_STATUS && body@ == BUSY_BODY@,
                Dispatch::Forward => r matches SessionAction::Forward { id, method, url, body }
                    && frame matches Inbound::Api { id: fid, url: furl, method: fmethod, body: fbody, .. }
                    && id == fid && method@ == upper_of(fmethod@)
                    && url@ == SERVICE_ORIGIN@ + furl@
                    && body@ == match fbody { Some(b) => b@, None => EMPTY_BODY@ },
                Dispatch::Run => r matches SessionAction::RunTool { args, argv, stdin }
                    && frame matches Inbound::Api { argv: Some(fargv), .. }
                    && argv == fargv && stdin@ == tool_input()
                    && args@.len() == words_of(fargv@).len()
                    && forall|i: int| 0 <= i < args@.len() ==> #[trigger] args@[i]@ == words_of(fargv@)[i],
            },
    {
        match frame {
            Inbound::Other => SessionAction::Ignore,
            Inbound::Api { id, url, method, body, argv } => {
                if !same_text(url.as_str(), TOOL_PATH) {
                    let method = uppercase(method.as_str());
                    let target = SERVICE_ORIGIN.to_owned().concat(url.as_str());
                    let body = match body {
                        Some(b) => b,
                        None => EMPTY_BODY.to_owned(),
                    };
                    SessionAction::Forward { id, method, url: target, body }
                } else if self.tool_running {
                    SessionAction::Reply {
                        frame: Outbound::ApiReply { id, status: BUSY_STATUS, body: BUSY_BODY.to_owned() },
                    }
                } else {
                    match argv {
                        None => SessionAction::Ignore,
                        Some(argv) => {
                            let args = split_words(argv.as_str());
                            self.tool_running = true;
                            SessionAction::RunTool { args, argv, stdin: vec![49u8, 49u8, 52u8, 53u8, 49u8, 52u8] }
                        },
                    }
                }
            },
        }
    }

    /// The frames that open a tool run: the command line that was started, then
    /// the `load` marker.
    pub fn tool_started(&self, command: &str, argv: &str) -> (r: Vec<Outbound>)
        ensures
            r@.len() == 2,
            r@[0] matches Outbound::ToolOutput { line } && line@ == command@ + " "@ + argv@,
            r@[1] == (Outbound::Tool { marker: ToolStatus::Load }),
    {
        let line = command.to_owned().concat(" ").concat(argv);
        vec![Outbound::ToolOutput { line }, Outbound::Tool { marker: ToolStatus::Load }]
    }

    /// Relays one event of the active tool run; with no run active nothing is sent.
    pub fn tool_event(&mut self, ev: ToolEvent) -> (r: Option<Outbound>)
        ensures
            (final(self)@, r) == tool_step(old(self)@, ev),
    {
        if !self.tool_running {
            return None;
        }
        match ev {
            ToolEvent::Line { line } => Some(Outbound::ToolOutput { line }),
            ToolEvent::Ended => {
                self.tool_running = false;
                Some(Outbound::Tool { marker: ToolStatus::Exit })
            },
            ToolEvent::SpawnFailed | ToolEvent::ReadFailed => {
                self.tool_running = false;
                Some(Outbound::Tool { marker: ToolStatus::Failed })
            },
        }
    }
}

} // verus!
