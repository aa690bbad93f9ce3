//! The connection supervisor: a state machine that keeps the connection
//! parameters, decides when to dial and over which scheme, answers the
//! server's `RoomInfo` with the handshake, and hands every other message on.
//! The loop that performs its actions and feeds it events lives outside it.
use vstd::prelude::*;
use crate::codec::{
    batch_error_is, batch_ok, decode_batch, decodes_to, is_room_info, message_fails, DecodeError,
};
use crate::encode::{connect_text_of, encode_client_batch, message_list};
use crate::json::{elements, Json};
use crate::messages::{APClientMessage, APServerMessage, Connect, Version, TRACKER_TAG};

verus! {

/// Where and as whom to connect. Each update replaces the whole value.
#[derive(Debug, Clone, PartialEq)]
pub struct ConnectionInfo {
    pub ip: String,
    pub port: String,
    pub slot: String,
    pub password: String,
}

/// The host connected to when none is given.
pub const DEFAULT_IP: &'static str = "127.0.0.1";

/// The port connected to when none is given.
pub const DEFAULT_PORT: &'static str = "38281";

impl Default for ConnectionInfo {
    fn default() -> (r: ConnectionInfo)
        ensures
            r.ip@ == DEFAULT_IP@,
            r.port@ == DEFAULT_PORT@,
            r.slot@ == Seq::<char>::empty(),
            r.password@ == Seq::<char>::empty(),
    {
        ConnectionInfo {
            ip: DEFAULT_IP.to_owned(),
            port: DEFAULT_PORT.to_owned(),
            slot: String::new(),
            password: String::new(),
        }
    }
}

/// A command from the consumer to the supervisor.
#[derive(Debug, Clone, PartialEq)]
pub enum InputMessage {
    /// Replace the connection parameters and (re)connect with them.
    Connect(ConnectionInfo),
}

/// The scheme of a dial: TLS first, plain as the fallback.
#[derive(Debug, Clone, Copy, PartialEq, Eq)]
pub enum Scheme {
    Secure,
    Plain,
}

/// The state of the transport.
#[derive(Debug, Clone, Copy, PartialEq, Eq)]
pub enum Link {
    /// No transport; nothing happens until the next command.
    Waiting,
    /// A dial over the given scheme is under way.
    Dialing(Scheme),
    /// A transport is open.
    Open,
}

/// How a dial ended.
#[derive(Debug, Clone, Copy, PartialEq, Eq)]
pub enum DialOutcome {
    Connected,
    /// The TLS negotiation failed.
    TlsFailure,
    /// Any other failure.
    OtherFailure,
}

/// One frame read from the open transport.
#[derive(Debug, PartialEq)]
pub enum Inbound {
    /// A text frame, read as JSON.
    Text(Json),
    /// A text frame that is not JSON.
    Malformed,
    /// A frame of another kind (binary, ping, pong, close).
    Other,
}

/// What the supervisor asks the loop around it to do.
#[derive(Debug, Clone, PartialEq)]
pub enum Action {
    /// Dial the URL.
    Dial(String),
    /// Send the text frame on the open transport.
    Send(String),
    /// Hand the message to the consumer.
    Forward(APServerMessage),
    /// Close and forget the open transport.
    DropTransport,
    /// Report that the dial failed.
    DialFailed,
    /// Report that a batch was dropped.
    DropBatch(DecodeError),
}

/// What the loop should wait for next.
#[derive(Debug, Clone, Copy, PartialEq, Eq)]
pub enum Wait {
    Command,
    DialResult,
    /// The next frame or the next command, whichever comes first.
    FrameOrCommand,
}

/// The supervisor's state: the last parameters it was given and the state of
/// its transport. There is at most one transport.
#[derive(Debug, Clone, PartialEq)]
pub struct Supervisor {
    pub params: Option<ConnectionInfo>,
    pub link: Link,
}

pub open spec fn scheme_prefix(s: Scheme) -> Seq<char> {
    match s {
        Scheme::Secure => "wss://"@,
        Scheme::Plain => "ws://"@,
    }
}

/// The URL dialed for the parameters over a scheme: `scheme://ip:port`.
pub open spec fn url_of(s: Scheme, p: ConnectionInfo) -> Seq<char> {
    scheme_prefix(s) + p.ip@ + ":"@ + p.port@
}

pub open spec fn is_dial(a: Action, s: Scheme, p: ConnectionInfo) -> bool {
    a matches Action::Dial(u) && u@ == url_of(s, p)
}

/// The frame that answers `RoomInfo`: a batch of one `Connect` for the slot
/// and password, protocol 5.0.0, tagged as a tracker.
pub open spec fn handshake_text(p: ConnectionInfo) -> Seq<char> {
    "["@ + connect_text_of(
        p.slot@,
        p.password@,
        Seq::empty(),
        Seq::empty(),
        Version { major: 5, minor: 0, build: 0 },
        0,
        seq![TRACKER_TAG@],
        false,
    ) + "]"@
}

/// The answer to one element of an accepted batch.
pub open spec fn reaction(p: ConnectionInfo, item: Json, a: Action) -> bool {
    if is_room_info(item) {
        a matches Action::Send(t) && t@ == handshake_text(p)
    } else {
        a matches Action::Forward(m) && decodes_to(item, m)
    }
}

/// One answer per element of an accepted batch, in order.
pub open spec fn reactions(p: ConnectionInfo, items: Seq<Json>, out: Seq<Action>) -> bool {
    &&& out.len() == items.len()
    &&& forall|i: int| 0 <= i < items.len() ==> reaction(p, items[i], #[trigger] out[i])
}

impl Supervisor {
    /// Every link but `Waiting` has parameters to dial or answer with.
    pub open spec fn wf(&self) -> bool {
        !(self.link is Waiting) ==> self.params is Some
    }

    /// Whether frames are read: only while a transport is open.
    pub open spec fn hears_frames(&self) -> bool {
        self.link is Open
    }

    pub open spec fn after_command(&self, info: ConnectionInfo) -> Supervisor {
        Supervisor {
            params: Some(info),
            link: match self.link {
                Link::Dialing(s) => Link::Dialing(s),
                _ => Link::Dialing(Scheme::Secure),
            },
        }
    }

    pub open spec fn command_actions(&self, info: ConnectionInfo, out: Seq<Action>) -> bool {
        match self.link {
            Link::Waiting => out.len() == 1 && is_dial(out[0], Scheme::Secure, info),
            Link::Open => {
                &&& out.len() == 2
                &&& out[0] is DropTransport
                &&& is_dial(out[1], Scheme::Secure, info)
            },
            Link::Dialing(_) => out.len() == 0,
        }
    }

    pub open spec fn after_dial(&self, outcome: DialOutcome) -> Supervisor {
        match self.link {
            Link::Dialing(s) => Supervisor {
                params: self.params,
                link: match outcome {
                    DialOutcome::Connected => Link::Open,
                    DialOutcome::TlsFailure => match s {
                        Scheme::Secure => Link::Dialing(Scheme::Plain),
                        Scheme::Plain => Link::Waiting,
                    },
                    DialOutcome::OtherFailure => Link::Waiting,
                },
            },
            _ => *self,
        }
    }

    pub open spec fn dial_actions(&self, outcome: DialOutcome, out: Seq<Action>) -> bool {
        match self.after_dial(outcome).link {
            Link::Dialing(Scheme::Plain) => self.params matches Some(p) && out.len() == 1 && is_dial(
                out[0],
                Scheme::Plain,
                p,
            ),
            Link::Waiting => if self.link is Dialing {
                out == seq![Action::DialFailed]
            } else {
                out.len() == 0
            },
            _ => out.len() == 0,
        }
    }

    pub open spec fn frame_actions(&self, frame: Inbound, out: Seq<Action>) -> bool {
        if !self.hears_frames() {
            out.len() == 0
        } else {
            match frame {
                Inbound::Text(j) => if batch_ok(j) {
                    &&& self.params matches Some(p)
                    &&& elements(j) matches Some(items)
                    &&& reactions(p, items, out)
                } else {
                    &&& out.len() == 1
                    &&& out[0] matches Action::DropBatch(e)
                    &&& batch_error_is(j, e)
                },
                Inbound::Malformed => out == seq![Action::DropBatch(DecodeError::Syntax)],
                Inbound::Other => out.len() == 0,
            }
        }
    }

    pub open spec fn after_loss(&self) -> Supervisor {
        match self.link {
            Link::Open => Supervisor { params: self.params, link: Link::Dialing(Scheme::Secure) },
            _ => *self,
        }
    }

    pub open spec fn loss_actions(&self, out: Seq<Action>) -> bool {
        match self.link {
            Link::Open => {
                &&& out.len() == 2
                &&& out[0] is DropTransport
                &&& self.params matches Some(p) && is_dial(out[1], Scheme::Secure, p)
            },
            _ => out.len() == 0,
        }
    }

    /// A supervisor with no parameters and no transport.
    pub fn new() -> (r: Supervisor)
        ensures
            r.wf(),
            r.params is None,
            r.link == Link::Waiting,
    {
        Supervisor { params: None, link: Link::Waiting }
    }

    /// What to wait for next.
    pub fn waiting_on(&self) -> (r: Wait)
        ensures
            r == (match self.link {
                Link::Waiting => Wait::Command,
                Link::Dialing(_) => Wait::DialResult,
                Link::Open => Wait::FrameOrCommand,
            }),
    {
        match self.link {
            Link::Waiting => Wait::Command,
            Link::Dialing(_) => Wait::DialResult,
            Link::Open => Wait::FrameOrCommand,
        }
    }
}

/// The URL for the parameters over a scheme.
pub fn dial_url(s: Scheme, p: &ConnectionInfo) -> (r: String)
    ensures
        r@ == url_of(s, *p),
{
    let mut u = match s {
        Scheme::Secure => "wss://".to_owned(),
        Scheme::Plain => "ws://".to_owned(),
    };
    u.append(p.ip.as_str());
    u.append(":");
    u.append(p.port.as_str());
    u
}

/// The frame that answers `RoomInfo` for the parameters.
pub fn handshake(p: &ConnectionInfo) -> (r: String)
    ensures
        r@ == handshake_text(*p),
{
    let c = Connect { name: p.slot.clone(), password: p.password.clone(), ..Connect::default() };
    let ghost cv = c;
    let mut batch: Vec<APClientMessage> = Vec::new();
    batch.push(APClientMessage::Connect(c));
    let r = encode_client_batch(&batch);
    proof {
        assert(batch@ =~= seq![APClientMessage::Connect(cv)]);
        assert(cv.tags@.map_values(|t: String| t@) =~= seq![TRACKER_TAG@]);
        assert(message_list(batch@) == message_list(seq![APClientMessage::Connect(cv)]));
        assert(r@ =~= handshake_text(*p));
    }
    r
}

impl Supervisor {
    /// A command: keep its parameters and dial with them over TLS. An open
    /// transport is dropped first; a dial under way is left to finish.
    pub fn on_command(&mut self, cmd: InputMessage) -> (out: Vec<Action>)
        requires
            old(self).wf(),
        ensures
            final(self).wf(),
            *final(self) == old(self).after_command(cmd->Connect_0),
            old(self).command_actions(cmd->Connect_0, out@),
    {
        let InputMessage::Connect(info) = cmd;
        let mut out: Vec<Action> = Vec::new();
        match self.link {
            Link::Dialing(_) => {
                self.params = Some(info);
            },
            Link::Waiting => {
                let url = dial_url(Scheme::Secure, &info);
                out.push(Action::Dial(url));
                self.params = Some(info);
                self.link = Link::Dialing(Scheme::Secure);
            },
            Link::Open => {
                out.push(Action::DropTransport);
                let url = dial_url(Scheme::Secure, &info);
                out.push(Action::Dial(url));
                self.params = Some(info);
                self.link = Link::Dialing(Scheme::Secure);
            },
        }
        out
    }

    /// The end of a dial. A TLS failure of the secure dial is retried once
    /// over the plain scheme; any other failure waits for the next command.
    pub fn on_dialed(&mut self, outcome: DialOutcome) -> (out: Vec<Action>)
        requires
            old(self).wf(),
        ensures
            final(self).wf(),
            *final(self) == old(self).after_dial(outcome),
            old(self).dial_actions(outcome, out@),
    {
        let mut out: Vec<Action> = Vec::new();
        if let Link::Dialing(s) = self.link {
            match outcome {
                DialOutcome::Connected => {
                    self.link = Link::Open;
                },
                DialOutcome::TlsFailure => match s {
                    Scheme::Secure => {
                        if let Some(p) = &self.params {
                            out.push(Action::Dial(dial_url(Scheme::Plain, p)));
                        }
                        self.link = Link::Dialing(Scheme::Plain);
                    },
                    Scheme::Plain => {
                        out.push(Action::DialFailed);
                        self.link = Link::Waiting;
                    },
                },
                DialOutcome::OtherFailure => {
                    out.push(Action::DialFailed);
                    self.link = Link::Waiting;
                },
            }
        }
        proof {
            if out@.len() == 1 && out@[0] is DialFailed {
                assert(out@ =~= seq![Action::DialFailed]);
            }
        }
        out
    }

    /// A frame from the open transport. An accepted batch is answered element
    /// by element: `RoomInfo` with the handshake, every other message by
    /// handing it on. A batch that is not accepted is dropped whole. Frames
    /// change no state, and none is read unless a transport is open.
    pub fn on_frame(&self, frame: Inbound) -> (out: Vec<Action>)
        requires
            self.wf(),
        ensures
            self.frame_actions(frame, out@),
    {
        let mut out: Vec<Action> = Vec::new();
        if !matches!(self.link, Link::Open) {
            return out;
        }
        let p = match &self.params {
            Some(p) => p,
            None => return out,
        };
        match frame {
            Inbound::Text(j) => match decode_batch(&j) {
                Err(e) => {
                    out.push(Action::DropBatch(e));
                },
                Ok(ms) => {
                    let ghost all = ms@;
                    let ghost items = elements(j)->0;
                    let mut ms = ms;
                    let mut i: usize = 0;
                    let n = ms.len();
                    while i < n
                        invariant
                            n == all.len(),
                            i <= n,
                            ms@ == all.subrange(i as int, n as int),
                            out@.len() == i,
                            items.len() == n,
                            forall|k: int| 0 <= k < n ==> #[trigger] decodes_to(items[k], all[k]),
                            forall|k: int| 0 <= k < i ==> reaction(*p, items[k], #[trigger] out@[k]),
                        decreases n - i,
                    {
                        let m = ms.remove(0);
                        assert(m == all[i as int]);
                        assert(decodes_to(items[i as int], all[i as int]));
                        match m {
                            APServerMessage::RoomInfo(_) => {
                                out.push(Action::Send(handshake(p)));
                            },
                            other => {
                                out.push(Action::Forward(other));
                            },
                        }
                        assert(ms@ =~= all.subrange(i as int + 1, n as int));
                        i += 1;
                    }
                },
            },
            Inbound::Malformed => {
                out.push(Action::DropBatch(DecodeError::Syntax));
                proof {
                    assert(out@ =~= seq![Action::DropBatch(DecodeError::Syntax)]);
                }
            },
            Inbound::Other => {},
        }
        out
    }

    /// The open transport failed or closed: drop it and dial again with the
    /// same parameters.
    pub fn on_transport_lost(&mut self) -> (out: Vec<Action>)
        requires
            old(self).wf(),
        ensures
            final(self).wf(),
            *final(self) == old(self).after_loss(),
            old(self).loss_actions(out@),
    {
        let mut out: Vec<Action> = Vec::new();
        if let Link::Open = self.link {
            if let Some(p) = &self.params {
                out.push(Action::DropTransport);
                out.push(Action::Dial(dial_url(Scheme::Secure, p)));
            }
            self.link = Link::Dialing(Scheme::Secure);
        }
        out
    }
}

/// How many elements of `items` are `RoomInfo` messages.
pub open spec fn room_info_count(items: Seq<Json>) -> nat
    decreases items.len(),
{
    if items.len() == 0 {
        0
    } else {
        room_info_count(items.drop_last()) + if is_room_info(items.last()) {
            1nat
        } else {
            0nat
        }
    }
}

/// How many of the actions send a frame.
pub open spec fn send_count(out: Seq<Action>) -> nat
    decreases out.len(),
{
    if out.len() == 0 {
        0
    } else {
        send_count(out.drop_last()) + if out.last() is Send {
            1nat
        } else {
            0nat
        }
    }
}

/// How many `RoomInfo` messages an inbound frame holds in an accepted batch.
pub open spec fn frame_room_infos(frame: Inbound) -> nat {
    match frame {
        Inbound::Text(j) => if batch_ok(j) {
            room_info_count(elements(j)->0)
        } else {
            0
        },
        _ => 0,
    }
}

pub open spec fn total_room_infos(frames: Seq<Inbound>) -> nat
    decreases frames.len(),
{
    if frames.len() == 0 {
        0
    } else {
        total_room_infos(frames.drop_last()) + frame_room_infos(frames.last())
    }
}

pub open spec fn total_sends(outs: Seq<Seq<Action>>) -> nat
    decreases outs.len(),
{
    if outs.len() == 0 {
        0
    } else {
        total_sends(outs.drop_last()) + send_count(outs.last())
    }
}

proof fn lemma_reaction_counts(p: ConnectionInfo, items: Seq<Json>, out: Seq<Action>)
    requires
        reactions(p, items, out),
    ensures
        send_count(out) == room_info_count(items),
    decreases items.len(),
{
    if items.len() > 0 {
        let n = items.len() - 1;
        assert(reaction(p, items[n], out[n]));
        assert forall|i: int| 0 <= i < n implies reaction(
            p,
            items.drop_last()[i],
            #[trigger] out.drop_last()[i],
        ) by {
            assert(reaction(p, items[i], out[i]));
        }
        lemma_reaction_counts(p, items.drop_last(), out.drop_last());
    }
}

/// While a transport is open, each frame is answered with exactly as many
/// handshakes as its accepted batch holds `RoomInfo` messages, and every
/// handshake is built from the parameters in effect.
pub proof fn lemma_handshake_per_room_info(s: Supervisor, frame: Inbound, out: Seq<Action>)
    requires
        s.wf(),
        s.hears_frames(),
        s.frame_actions(frame, out),
    ensures
        send_count(out) == frame_room_infos(frame),
        forall|i: int|
            0 <= i < out.len() ==> (#[trigger] out[i] matches Action::Send(t) ==> t@ == handshake_text(
                s.params->0,
            )),
{
    match frame {
        Inbound::Text(j) => {
            if batch_ok(j) {
                let items = elements(j)->0;
                lemma_reaction_counts(s.params->0, items, out);
                assert forall|i: int| 0 <= i < out.len() implies (#[trigger] out[i] matches Action::Send(
                    t,
                ) ==> t@ == handshake_text(s.params->0)) by {
                    assert(reaction(s.params->0, items[i], out[i]));
                }
            } else {
                assert(out[0] is DropBatch);
                assert(out.last() == out[0]);
                assert(send_count(out.drop_last()) == 0);
            }
        },
        Inbound::Malformed => {
            assert(out.last() == out[0]);
            assert(send_count(out.drop_last()) == 0);
        },
        Inbound::Other => {},
    }
}

/// Over any run of frames read while a transport is open (frames change no
/// state), the handshakes sent are exactly the `RoomInfo` messages received:
/// a run that holds one `RoomInfo` is answered by one handshake.
pub proof fn lemma_handshake_exactly_once(
    s: Supervisor,
    frames: Seq<Inbound>,
    outs: Seq<Seq<Action>>,
)
    requires
        s.wf(),
        s.hears_frames(),
        outs.len() == frames.len(),
        forall|k: int| 0 <= k < frames.len() ==> s.frame_actions(#[trigger] frames[k], outs[k]),
    ensures
        total_sends(outs) == total_room_infos(frames),
        total_room_infos(frames) == 1 ==> total_sends(outs) == 1,
    decreases frames.len(),
{
    if frames.len() > 0 {
        let n = frames.len() - 1;
        assert(s.frame_actions(frames[n], outs[n]));
        lemma_handshake_per_room_info(s, frames[n], outs[n]);
        assert forall|k: int| 0 <= k < n implies s.frame_actions(
            #[trigger] frames.drop_last()[k],
            outs.drop_last()[k],
        ) by {
            assert(s.frame_actions(frames[k], outs[k]));
        }
        lemma_handshake_exactly_once(s, frames.drop_last(), outs.drop_last());
    }
}

/// A command that arrives while a transport is open drops that transport
/// before anything else, and no frame is read after it, buffered or not,
/// until a new dial succeeds.
pub proof fn lemma_command_supersedes_transport(
    s: Supervisor,
    info: ConnectionInfo,
    out: Seq<Action>,
    frame: Inbound,
    frame_out: Seq<Action>,
)
    requires
        s.wf(),
        s.link is Open,
        s.command_actions(info, out),
        s.after_command(info).frame_actions(frame, frame_out),
    ensures
        out[0] is DropTransport,
        is_dial(out[1], Scheme::Secure, info),
        s.after_command(info).params == Some(info),
        !s.after_command(info).hears_frames(),
        frame_out.len() == 0,
{
}

/// A batch that holds a message that reads and one that does not is dropped
/// whole: nothing is handed on or answered, and the transport stays open
/// (frames change no state).
pub proof fn lemma_mixed_batch_dropped(
    s: Supervisor,
    j: Json,
    good: int,
    bad: int,
    out: Seq<Action>,
)
    requires
        s.wf(),
        s.hears_frames(),
        elements(j) is Some,
        0 <= good < elements(j)->0.len(),
        0 <= bad < elements(j)->0.len(),
        !message_fails(elements(j)->0[good]),
        message_fails(elements(j)->0[bad]),
        s.frame_actions(Inbound::Text(j), out),
    ensures
        !batch_ok(j),
        out.len() == 1,
        out[0] is DropBatch,
        s.hears_frames(),
{
}

/// A dial whose TLS negotiation fails is retried once, over the plain
/// scheme, with the same parameters; a plain dial that fails, and a dial
/// that fails in any other way, is not retried: the supervisor waits for the
/// next command.
pub proof fn lemma_dial_fallback(s: Supervisor, outcome: DialOutcome, out: Seq<Action>)
    requires
        s.wf(),
        s.link is Dialing,
        s.dial_actions(outcome, out),
    ensures
        outcome == DialOutcome::TlsFailure && s.link == Link::Dialing(Scheme::Secure) ==> {
            &&& s.after_dial(outcome).link == Link::Dialing(Scheme::Plain)
            &&& out.len() == 1
            &&& is_dial(out[0], Scheme::Plain, s.params->0)
        },
        outcome == DialOutcome::OtherFailure || s.link == Link::Dialing(Scheme::Plain)
            ==> outcome != DialOutcome::Connected ==> {
            &&& s.after_dial(outcome).link == Link::Waiting
            &&& out == seq![Action::DialFailed]
        },
{
}

} // verus!
