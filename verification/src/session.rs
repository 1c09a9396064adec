//! Per-connection session state machine.
//!
//! One `Session` exists per upgraded WebSocket connection. It owns that
//! connection's liveness and shutdown state and decides, frame by frame,
//! which wire actions the transport must perform. Sessions share nothing:
//! stepping one session never reads or writes another.

use vstd::prelude::*;

verus! {

/// One inbound WebSocket frame, as handed over by the transport after
/// framing. `ProtocolError` stands for a frame the framing layer rejected
/// (for example an invalid opcode).
pub enum Frame {
    Text(Vec<u8>),
    Binary(Vec<u8>),
    Ping(Vec<u8>),
    Pong(Vec<u8>),
    Close,
    ProtocolError,
}

/// Mathematical model of a frame: payloads as byte sequences.
pub enum FrameModel {
    Text(Seq<u8>),
    Binary(Seq<u8>),
    Ping(Seq<u8>),
    Pong(Seq<u8>),
    Close,
    ProtocolError,
}

impl View for Frame {
    type V = FrameModel;

    open spec fn view(&self) -> FrameModel {
        match self {
            Frame::Text(p) => FrameModel::Text(p@),
            Frame::Binary(p) => FrameModel::Binary(p@),
            Frame::Ping(p) => FrameModel::Ping(p@),
            Frame::Pong(p) => FrameModel::Pong(p@),
            Frame::Close => FrameModel::Close,
            Frame::ProtocolError => FrameModel::ProtocolError,
        }
    }
}

/// Status carried by an outbound Close frame.
#[derive(Clone, Copy, PartialEq, Eq, Structural, Debug)]
pub enum CloseStatus {
    /// Ordinary close acknowledgement.
    Normal,
    /// Close caused by a malformed frame.
    ProtocolError,
}

/// One outbound action the transport must perform for this session.
pub enum Action {
    /// Send a Pong frame carrying exactly this payload.
    SendPong(Vec<u8>),
    /// Send a Close frame with the given status.
    SendClose(CloseStatus),
    /// Release the connection handle: no further frames are sent.
    Release,
}

/// Mathematical model of an action.
pub enum ActionModel {
    SendPong(Seq<u8>),
    SendClose(CloseStatus),
    Release,
}

impl View for Action {
    type V = ActionModel;

    open spec fn view(&self) -> ActionModel {
        match self {
            Action::SendPong(p) => ActionModel::SendPong(p@),
            Action::SendClose(s) => ActionModel::SendClose(*s),
            Action::Release => ActionModel::Release,
        }
    }
}

/// Lifecycle state of a session.
#[derive(Clone, Copy, PartialEq, Eq, Structural, Debug)]
pub enum SessionState {
    /// Frames are received and acted upon.
    Open,
    /// A close was initiated; the session waits for the socket to confirm.
    Closing,
    /// Terminal: no frame is processed or emitted any more.
    Closed,
}

/// The state a session keeps for one connection.
pub struct Session {
    /// Where the session stands in its lifecycle.
    pub state: SessionState,
    /// Whether an outbound Close frame has already been sent.
    pub close_sent: bool,
    /// Liveness flag: set when the last Pong was observed.
    pub pong_seen: bool,
}

impl Session {
    /// A session is well formed when an open session has not yet sent a
    /// Close frame, and a closing session has.
    pub open spec fn wf(&self) -> bool {
        &&& self.state == SessionState::Open ==> !self.close_sent
        &&& self.state == SessionState::Closing ==> self.close_sent
    }

    /// Fresh session for a just-upgraded connection.
    pub fn new() -> (s: Session)
        ensures
            s.state == SessionState::Open,
            !s.close_sent,
            !s.pong_seen,
            s.wf(),
    {
        Session { state: SessionState::Open, close_sent: false, pong_seen: false }
    }
}

/// The models of a sequence of actions.
pub open spec fn models(actions: Seq<Action>) -> Seq<ActionModel> {
    actions.map_values(|a: Action| a@)
}

/// The close frame and handle release owed when a session leaves `Open`:
/// the acknowledgement is sent only if no Close frame went out before.
pub open spec fn leave_open_actions(close_sent: bool, status: CloseStatus) -> Seq<ActionModel> {
    if close_sent {
        seq![ActionModel::Release]
    } else {
        seq![ActionModel::SendClose(status), ActionModel::Release]
    }
}

/// The session transition relation: from a session and an inbound frame to
/// the next session and the actions the transport must perform, in order.
///
/// - `Open` stays `Open` on Text/Binary (observed only), on Ping (answered
///   at once by a Pong with the identical payload) and on Pong (the
///   liveness flag is set).
/// - `Open` goes to `Closing` on Close: the close acknowledgement is sent
///   and the connection handle released.
/// - A malformed frame is fatal to the session: `Open` or `Closing` goes
///   straight to `Closed`, with a protocol-error close if none went out.
/// - `Closed` is terminal: nothing is processed or emitted.
pub open spec fn step(s: Session, f: FrameModel) -> (Session, Seq<ActionModel>) {
    match s.state {
        SessionState::Open => match f {
            FrameModel::Text(_) => (s, Seq::<ActionModel>::empty()),
            FrameModel::Binary(_) => (s, Seq::<ActionModel>::empty()),
            FrameModel::Ping(p) => (s, seq![ActionModel::SendPong(p)]),
            FrameModel::Pong(_) => (
                Session { state: s.state, close_sent: s.close_sent, pong_seen: true },
                Seq::<ActionModel>::empty(),
            ),
            FrameModel::Close => (
                Session { state: SessionState::Closing, close_sent: true, pong_seen: s.pong_seen },
                leave_open_actions(s.close_sent, CloseStatus::Normal),
            ),
            FrameModel::ProtocolError => (
                Session { state: SessionState::Closed, close_sent: true, pong_seen: s.pong_seen },
                leave_open_actions(s.close_sent, CloseStatus::ProtocolError),
            ),
        },
        SessionState::Closing => match f {
            FrameModel::ProtocolError => (
                Session { state: SessionState::Closed, close_sent: s.close_sent, pong_seen: s.pong_seen },
                Seq::<ActionModel>::empty(),
            ),
            _ => (s, Seq::<ActionModel>::empty()),
        },
        SessionState::Closed => (s, Seq::<ActionModel>::empty()),
    }
}

/// The transition taken when the underlying socket confirms shutdown
/// (both directions closed, or an I/O error): the session becomes
/// `Closed` whatever state it was in.
pub open spec fn socket_closed_step(s: Session) -> Session {
    Session { state: SessionState::Closed, close_sent: s.close_sent, pong_seen: s.pong_seen }
}

/// The transition taken on a local shutdown request: an open session
/// closes gracefully exactly as on an inbound Close frame; any other
/// session is left as it is.
pub open spec fn shutdown_step(s: Session) -> (Session, Seq<ActionModel>) {
    if s.state == SessionState::Open {
        (
            Session { state: SessionState::Closing, close_sent: true, pong_seen: s.pong_seen },
            leave_open_actions(s.close_sent, CloseStatus::Normal),
        )
    } else {
        (s, Seq::<ActionModel>::empty())
    }
}

impl Session {
    /// Process one inbound frame: the session moves exactly as `step` says
    /// and returns the actions the transport must perform, in order.
    pub fn handle_frame(&mut self, f: Frame) -> (r: Vec<Action>)
        ensures
            *final(self) == step(*old(self), f@).0,
            models(r@) == step(*old(self), f@).1,
            old(self).wf() ==> final(self).wf(),
    {
        let mut out: Vec<Action> = Vec::new();
        match self.state {
            SessionState::Open => match f {
                Frame::Text(_p) => {},
                Frame::Binary(_p) => {},
                Frame::Ping(p) => {
                    out.push(Action::SendPong(p));
                },
                Frame::Pong(_p) => {
                    self.pong_seen = true;
                },
                Frame::Close => {
                    if !self.close_sent {
                        out.push(Action::SendClose(CloseStatus::Normal));
                    }
                    self.close_sent = true;
                    self.state = SessionState::Closing;
                    out.push(Action::Release);
                },
                Frame::ProtocolError => {
                    if !self.close_sent {
                        out.push(Action::SendClose(CloseStatus::ProtocolError));
                    }
                    self.close_sent = true;
                    self.state = SessionState::Closed;
                    out.push(Action::Release);
                },
            },
            SessionState::Closing => match f {
                Frame::ProtocolError => {
                    self.state = SessionState::Closed;
                },
                _ => {},
            },
            SessionState::Closed => {},
        }
        proof {
            assert(models(out@) =~= step(*old(self), f@).1);
        }
        out
    }

    /// Local shutdown request: close the session gracefully, exactly as
    /// `shutdown_step` says.
    pub fn local_shutdown(&mut self) -> (r: Vec<Action>)
        ensures
            *final(self) == shutdown_step(*old(self)).0,
            models(r@) == shutdown_step(*old(self)).1,
            old(self).wf() ==> final(self).wf(),
    {
        let mut out: Vec<Action> = Vec::new();
        if matches!(self.state, SessionState::Open) {
            if !self.close_sent {
                out.push(Action::SendClose(CloseStatus::Normal));
            }
            self.close_sent = true;
            self.state = SessionState::Closing;
            out.push(Action::Release);
        }
        proof {
            assert(models(out@) =~= shutdown_step(*old(self)).1);
        }
        out
    }

    /// The underlying socket confirmed shutdown: the session is terminal.
    pub fn socket_closed(&mut self)
        ensures
            *final(self) == socket_closed_step(*old(self)),
            final(self).state == SessionState::Closed,
            final(self).wf(),
    {
        self.state = SessionState::Closed;
    }
}

/// Every step keeps a session well formed.
pub proof fn lemma_step_preserves_wf(s: Session, f: FrameModel)
    requires
        s.wf(),
    ensures
        step(s, f).0.wf(),
{
}

/// Liveness law: a Ping carrying any payload, delivered to an open
/// session, yields exactly one Pong with the byte-identical payload — it
/// is the only action emitted, so nothing queues ahead of it — and the
/// session stays open, unchanged.
pub proof fn lemma_ping_pong_echo(s: Session, p: Seq<u8>)
    requires
        s.state == SessionState::Open,
    ensures
        step(s, FrameModel::Ping(p)).0 == s,
        step(s, FrameModel::Ping(p)).1 =~= seq![ActionModel::SendPong(p)],
{
}

/// Shutdown law: a Close frame moves an open session to `Closing`,
/// emitting the close acknowledgement and then the release of the
/// connection handle — so no handle dangles — and the socket's shutdown
/// confirmation then makes the session `Closed`, terminally.
pub proof fn lemma_close_releases(s: Session)
    requires
        s.state == SessionState::Open,
        s.wf(),
    ensures
        step(s, FrameModel::Close).0.state == SessionState::Closing,
        step(s, FrameModel::Close).1 =~= seq![
            ActionModel::SendClose(CloseStatus::Normal),
            ActionModel::Release,
        ],
        socket_closed_step(step(s, FrameModel::Close).0).state == SessionState::Closed,
{
}

/// Terminal law: a closed session processes nothing — any frame leaves it
/// unchanged and emits no action.
pub proof fn lemma_closed_is_terminal(s: Session, f: FrameModel)
    requires
        s.state == SessionState::Closed,
    ensures
        step(s, f).0 == s,
        step(s, f).1 =~= Seq::<ActionModel>::empty(),
{
}

/// Malformed-frame law: a protocol error drives the session to `Closed`
/// at once; the only actions ever emitted for it are a protocol-error
/// close and the release of the handle — never a Pong, never application
/// data — and a session that was open and had sent no close emits exactly
/// those two.
pub proof fn lemma_protocol_error_closes(s: Session)
    requires
        s.wf(),
    ensures
        step(s, FrameModel::ProtocolError).0.state == SessionState::Closed,
        forall|k: int|
            0 <= k < step(s, FrameModel::ProtocolError).1.len() ==> !(#[trigger] step(
                s,
                FrameModel::ProtocolError,
            ).1[k] is SendPong),
        s.state == SessionState::Open ==> step(s, FrameModel::ProtocolError).1 =~= seq![
            ActionModel::SendClose(CloseStatus::ProtocolError),
            ActionModel::Release,
        ],
{
}

/// Closing law: a session that has initiated its close accepts no new
/// work — whatever frame arrives, it emits nothing, and it only ever
/// moves on to `Closed`.
pub proof fn lemma_closing_emits_nothing(s: Session, f: FrameModel)
    requires
        s.state == SessionState::Closing,
    ensures
        step(s, f).1 =~= Seq::<ActionModel>::empty(),
        step(s, f).0.state == SessionState::Closing || step(s, f).0.state
            == SessionState::Closed,
{
}

/// A collection of concurrently open sessions, one per connection
/// identifier; delivering a frame steps only the addressed session.
pub open spec fn sessions_step(m: Map<int, Session>, id: int, f: FrameModel) -> Map<
    int,
    Session,
> {
    if m.dom().contains(id) {
        m.insert(id, step(m[id], f).0)
    } else {
        m
    }
}

/// Independence law: sessions share nothing. Delivering any frame to one
/// session — a Ping, the Close that ends it, or a malformed frame —
/// leaves every other session exactly as it was, and changes which
/// sessions exist not at all.
pub proof fn lemma_sessions_independent(m: Map<int, Session>, id: int, other: int, f: FrameModel)
    requires
        other != id,
        m.dom().contains(other),
    ensures
        sessions_step(m, id, f).dom() =~= m.dom(),
        sessions_step(m, id, f)[other] == m[other],
{
}

} // verus!
