//! Protocol sessions: the foreground consumer of the inbox.
//!
//! One `Session` type covers the three protocol variants in the repository —
//! free-form ping/pong (client and peer-tracking server) and the fixed
//! knock-knock handshake — parameterized by a [`Role`]. Reacting to a received
//! datagram and to a foreground trigger are pure transitions on the session's
//! model; the session never performs network I/O itself but hands any reply
//! back to the caller as an [`Outbound`] datagram.

use vstd::prelude::*;
use crate::inbox::{Inbox, MsgModel};
use crate::logbuf::{LogBuffer, LOG_CAP};
use crate::text::{trim_of, trim_ws};

verus! {

/// Which protocol variant a session speaks.
#[derive(Clone, Copy, PartialEq, Eq, Structural, Debug)]
pub enum Role {
    /// Sends `"Ping"` to a configured server on each trigger.
    PingClient,
    /// Tracks the most recent peer and sends `"Pong"` back on a trigger.
    PingServer,
    /// Sends `"KNOCK KNOCK"` to a configured server on each trigger.
    KnockClient,
    /// Replies `"WHO IS THERE?"` to the source of every received datagram.
    KnockServer,
}

/// A datagram the session asks the caller to send: a payload and a textual
/// `host:port` destination.
pub struct Outbound {
    pub payload: String,
    pub dest: String,
}

/// Mathematical model of an [`Outbound`] datagram.
pub struct OutModel {
    pub payload: Seq<char>,
    pub dest: Seq<char>,
}

impl View for Outbound {
    type V = OutModel;

    open spec fn view(&self) -> OutModel {
        OutModel { payload: self.payload@, dest: self.dest@ }
    }
}

/// The model of an optional outbound datagram.
pub open spec fn opt_out_view(out: Option<Outbound>) -> Option<OutModel> {
    match out {
        Some(o) => Some(o@),
        None => None,
    }
}

/// Mathematical model of a [`Session`].
pub struct SessionModel {
    /// The protocol variant.
    pub role: Role,
    /// The configured server address (clients) or the address learned from
    /// the most recent received datagram (ping/pong server).
    pub peer: Option<Seq<char>>,
    /// Whether any datagram has been received yet.
    pub has_connected: bool,
    /// The bounded history of display entries.
    pub log: Seq<Seq<char>>,
    /// Whether state changed since the presentation layer last looked.
    pub changed: bool,
}

impl SessionModel {
    /// The log respects its bound, and a client role always knows the server
    /// address it was configured with.
    pub open spec fn wf(self) -> bool {
        &&& self.log.len() <= LOG_CAP
        &&& (self.role == Role::PingClient || self.role == Role::KnockClient) ==> self.peer is Some
    }
}

/// The display entry for a received text.
pub open spec fn rx_entry(text: Seq<char>) -> Seq<char> {
    "[Rx]: "@ + text
}

/// The knock-knock server's display entry for a datagram from `source`.
pub open spec fn rx_from_entry(source: Seq<char>, text: Seq<char>) -> Seq<char> {
    "[Rx from "@ + source + "]: "@ + text
}

/// The knock-knock server's display entry for its canned reply to `source`.
pub open spec fn who_tx_entry(source: Seq<char>) -> Seq<char> {
    "[Tx to "@ + source + "]: WHO IS THERE?"@
}

/// The ping/pong client's display entry for a triggered send.
pub open spec fn ping_tx_entry(dest: Seq<char>) -> Seq<char> {
    "[Tx]: Ping to "@ + dest
}

/// The ping/pong server's display entry for a triggered reply.
pub open spec fn pong_tx_entry(dest: Seq<char>) -> Seq<char> {
    "[Tx]: Pong to "@ + dest
}

/// The knock-knock client's display entry for a triggered send.
pub open spec fn knock_tx_entry(dest: Seq<char>) -> Seq<char> {
    "[Tx]: KNOCK KNOCK -> "@ + dest
}

/// The ping/pong server's display entry when a trigger finds no known peer.
pub open spec fn no_peer_entry() -> Seq<char> {
    "[Error]: No client connected"@
}

/// The session state after reacting to one received datagram `(text, source)`.
pub open spec fn react(s: SessionModel, text: Seq<char>, source: Seq<char>) -> SessionModel {
    match s.role {
        Role::PingClient => SessionModel {
            has_connected: true,
            log: LogBuffer::appended(s.log, rx_entry(text)),
            changed: true,
            ..s
        },
        Role::PingServer => SessionModel {
            peer: Some(source),
            has_connected: true,
            log: LogBuffer::appended(s.log, rx_entry(text)),
            changed: true,
            ..s
        },
        Role::KnockClient => SessionModel {
            has_connected: true,
            log: LogBuffer::appended(s.log, rx_entry(trim_of(text))),
            changed: true,
            ..s
        },
        Role::KnockServer => SessionModel {
            has_connected: true,
            log: LogBuffer::appended(
                LogBuffer::appended(s.log, rx_from_entry(source, trim_of(text))),
                who_tx_entry(source),
            ),
            changed: true,
            ..s
        },
    }
}

/// The datagram (if any) that reacting to a received datagram sends back:
/// only the knock-knock server replies, immediately and to the source.
pub open spec fn react_out(s: SessionModel, text: Seq<char>, source: Seq<char>) -> Option<
    OutModel,
> {
    match s.role {
        Role::KnockServer => Some(OutModel { payload: "WHO IS THERE?"@, dest: source }),
        _ => None,
    }
}

/// The session state after a foreground-triggered protocol action.
pub open spec fn trigger_react(s: SessionModel) -> SessionModel {
    match s.role {
        Role::PingClient => match s.peer {
            Some(d) => SessionModel {
                log: LogBuffer::appended(s.log, ping_tx_entry(d)),
                changed: true,
                ..s
            },
            None => s,
        },
        Role::PingServer => match s.peer {
            Some(d) => SessionModel {
                log: LogBuffer::appended(s.log, pong_tx_entry(d)),
                changed: true,
                ..s
            },
            None => SessionModel {
                log: LogBuffer::appended(s.log, no_peer_entry()),
                changed: true,
                ..s
            },
        },
        Role::KnockClient => match s.peer {
            Some(d) => SessionModel {
                log: LogBuffer::appended(s.log, knock_tx_entry(d)),
                changed: true,
                ..s
            },
            None => s,
        },
        Role::KnockServer => s,
    }
}

/// The datagram (if any) that a foreground trigger sends.
pub open spec fn trigger_out(s: SessionModel) -> Option<OutModel> {
    match s.role {
        Role::PingClient => match s.peer {
            Some(d) => Some(OutModel { payload: "Ping"@, dest: d }),
            None => None,
        },
        Role::PingServer => match s.peer {
            Some(d) => Some(OutModel { payload: "Pong"@, dest: d }),
            None => None,
        },
        Role::KnockClient => match s.peer {
            Some(d) => Some(OutModel { payload: "KNOCK KNOCK"@, dest: d }),
            None => None,
        },
        Role::KnockServer => None,
    }
}

/// Protocol state for one variant: peer tracking, engagement flag, and the
/// bounded display log.
pub struct Session {
    role: Role,
    peer: Option<String>,
    has_connected: bool,
    log: LogBuffer,
    changed: bool,
}

impl View for Session {
    type V = SessionModel;

    closed spec fn view(&self) -> SessionModel {
        SessionModel {
            role: self.role,
            peer: match self.peer {
                Some(p) => Some(p@),
                None => None,
            },
            has_connected: self.has_connected,
            log: self.log@,
            changed: self.changed,
        }
    }
}

impl Session {
    /// A ping/pong client configured to send to `server`.
    pub fn new_ping_client(server: String) -> (s: Session)
        ensures
            s@ == (SessionModel {
                role: Role::PingClient,
                peer: Some(server@),
                has_connected: false,
                log: Seq::<Seq<char>>::empty(),
                changed: false,
            }),
            s@.wf(),
    {
        Session {
            role: Role::PingClient,
            peer: Some(server),
            has_connected: false,
            log: LogBuffer::new(),
            changed: false,
        }
    }

    /// A ping/pong server with no peer known yet.
    pub fn new_ping_server() -> (s: Session)
        ensures
            s@ == (SessionModel {
                role: Role::PingServer,
                peer: None,
                has_connected: false,
                log: Seq::<Seq<char>>::empty(),
                changed: false,
            }),
            s@.wf(),
    {
        Session {
            role: Role::PingServer,
            peer: None,
            has_connected: false,
            log: LogBuffer::new(),
            changed: false,
        }
    }

    /// A knock-knock client configured to send to `server`.
    pub fn new_knock_client(server: String) -> (s: Session)
        ensures
            s@ == (SessionModel {
                role: Role::KnockClient,
                peer: Some(server@),
                has_connected: false,
                log: Seq::<Seq<char>>::empty(),
                changed: false,
            }),
            s@.wf(),
    {
        Session {
            role: Role::KnockClient,
            peer: Some(server),
            has_connected: false,
            log: LogBuffer::new(),
            changed: false,
        }
    }

    /// A knock-knock server.
    pub fn new_knock_server() -> (s: Session)
        ensures
            s@ == (SessionModel {
                role: Role::KnockServer,
                peer: None,
                has_connected: false,
                log: Seq::<Seq<char>>::empty(),
                changed: false,
            }),
            s@.wf(),
    {
        Session {
            role: Role::KnockServer,
            peer: None,
            has_connected: false,
            log: LogBuffer::new(),
            changed: false,
        }
    }

    /// React to one received datagram: update peer and engagement state,
    /// append the variant's display entries, and return the immediate reply
    /// the caller must send, if the variant has one.
    pub fn on_message(&mut self, text: String, source: String) -> (out: Option<Outbound>)
        requires
            old(self)@.wf(),
        ensures
            final(self)@ == react(old(self)@, text@, source@),
            opt_out_view(out) == react_out(old(self)@, text@, source@),
            final(self)@.wf(),
    {
        self.changed = true;
        self.has_connected = true;
        match self.role {
            Role::PingClient => {
                let entry = String::from_str("[Rx]: ").concat(text.as_str());
                self.log.append(entry);
                None
            },
            Role::PingServer => {
                let entry = String::from_str("[Rx]: ").concat(text.as_str());
                self.log.append(entry);
                self.peer = Some(source);
                None
            },
            Role::KnockClient => {
                let trimmed = trim_ws(text.as_str());
                let entry = String::from_str("[Rx]: ").concat(trimmed.as_str());
                self.log.append(entry);
                None
            },
            Role::KnockServer => {
                let trimmed = trim_ws(text.as_str());
                let rx = String::from_str("[Rx from ").concat(source.as_str()).concat(
                    "]: ",
                ).concat(trimmed.as_str());
                self.log.append(rx);
                let tx = String::from_str("[Tx to ").concat(source.as_str()).concat(
                    "]: WHO IS THERE?",
                );
                self.log.append(tx);
                Some(Outbound { payload: String::from_str("WHO IS THERE?"), dest: source })
            },
        }
    }

    /// One foreground tick: poll the inbox and, if a datagram is pending,
    /// react to it. The inbox is empty afterwards either way.
    pub fn reconcile(&mut self, inbox: &mut Inbox) -> (out: Option<Outbound>)
        requires
            old(self)@.wf(),
        ensures
            final(self)@.wf(),
            final(inbox)@ is None,
            old(inbox)@ is None ==> *final(self) == *old(self) && out is None,
            (old(inbox)@ matches Some(m) ==> final(self)@ == react(old(self)@, m.text, m.source)
                && opt_out_view(out) == react_out(old(self)@, m.text, m.source)),
    {
        match inbox.try_take() {
            Some(m) => self.on_message(m.text, m.source),
            None => None,
        }
    }

    /// The foreground-triggered protocol action: compose the variant's fixed
    /// payload for the known destination, log it, and hand it to the caller
    /// to send. The ping/pong server logs an error entry instead when no peer
    /// has been observed yet.
    pub fn trigger_send(&mut self) -> (out: Option<Outbound>)
        requires
            old(self)@.wf(),
        ensures
            final(self)@ == trigger_react(old(self)@),
            opt_out_view(out) == trigger_out(old(self)@),
            final(self)@.wf(),
    {
        match self.role {
            Role::PingClient => {
                if let Some(d) = &self.peer {
                    let dest = d.clone();
                    let entry = String::from_str("[Tx]: Ping to ").concat(dest.as_str());
                    self.log.append(entry);
                    self.changed = true;
                    Some(Outbound { payload: String::from_str("Ping"), dest })
                } else {
                    None
                }
            },
            Role::PingServer => {
                if let Some(d) = &self.peer {
                    let dest = d.clone();
                    let entry = String::from_str("[Tx]: Pong to ").concat(dest.as_str());
                    self.log.append(entry);
                    self.changed = true;
                    Some(Outbound { payload: String::from_str("Pong"), dest })
                } else {
                    self.log.append(String::from_str("[Error]: No client connected"));
                    self.changed = true;
                    None
                }
            },
            Role::KnockClient => {
                if let Some(d) = &self.peer {
                    let dest = d.clone();
                    let entry = String::from_str("[Tx]: KNOCK KNOCK -> ").concat(dest.as_str());
                    self.log.append(entry);
                    self.changed = true;
                    Some(Outbound { payload: String::from_str("KNOCK KNOCK"), dest })
                } else {
                    None
                }
            },
            Role::KnockServer => None,
        }
    }

    /// The protocol variant this session speaks.
    pub fn role(&self) -> (r: Role)
        ensures
            r == self@.role,
    {
        self.role
    }

    /// Whether any datagram has been received yet.
    pub fn has_connected(&self) -> (b: bool)
        ensures
            b == self@.has_connected,
    {
        self.has_connected
    }

    /// Whether a peer address is known (configured or learned).
    pub fn peer_known(&self) -> (b: bool)
        ensures
            b == (self@.peer is Some),
    {
        self.peer.is_some()
    }

    /// How many display entries the log holds.
    pub fn log_len(&self) -> (n: usize)
        ensures
            n == self@.log.len(),
    {
        self.log.len()
    }

    /// The display entry at position `i`, oldest first.
    pub fn log_entry(&self, i: usize) -> (e: &String)
        requires
            i < self@.log.len(),
        ensures
            e@ == self@.log[i as int],
    {
        self.log.entry(i)
    }

    /// The presentation layer's change flag: report whether state changed
    /// since the last call, and reset the flag.
    pub fn take_changed(&mut self) -> (b: bool)
        ensures
            b == old(self)@.changed,
            final(self)@ == (SessionModel { changed: false, ..old(self)@ }),
    {
        let b = self.changed;
        self.changed = false;
        b
    }
}

/// Law: peer tracking in the ping/pong server. With no datagram received yet,
/// a trigger sends nothing and logs the no-peer entry; once a datagram from
/// endpoint `source` has been received, a trigger sends `"Pong"` to `source`.
pub proof fn lemma_peer_tracking(s: SessionModel, text: Seq<char>, source: Seq<char>)
    requires
        s.role == Role::PingServer,
        s.peer is None,
    ensures
        trigger_out(s) is None,
        trigger_react(s).log == LogBuffer::appended(s.log, no_peer_entry()),
        trigger_out(react(s, text, source)) == Some(OutModel { payload: "Pong"@, dest: source }),
{
}

} // verus!
