use vstd::prelude::*;

verus! {

use crate::v1beta::live::{
    ClientMessage, ServerMessage, ServerMessageV, Setup, sp_encode_client_message,
    sp_decode_server_message, sp_merged_setup, encode_client_message, encode_setup_frame,
    decode_server_message,
};

/// Why and how the application asks the socket to close.
#[derive(Debug, Clone, PartialEq, Eq)]
pub struct CloseReason {
    pub code: u16,
    pub reason: String,
}

/// One thing that happens to a session.
#[derive(Debug)]
pub enum SessionEvent {
    /// The socket handshake finished; the connection is up.
    TransportConnected,
    /// One inbound frame of wire text arrived.
    Frame(String),
    /// The application asks to send one outbound message.
    Call(ClientMessage),
    /// The application asks to close the connection.
    Disconnect(Option<CloseReason>),
}

/// One thing the runtime must do for the session, in order.
#[derive(Debug)]
pub enum SessionAction {
    /// Write this text frame to the socket.
    SendFrame(String),
    /// Hand this message to the consumer channel, in arrival order.
    Deliver(ServerMessage),
    /// Resolve the caller waiting on connect.
    SignalConnected,
    /// Close the socket.
    CloseSocket(Option<CloseReason>),
}

/// Where the session stands.
#[derive(Debug, Clone, Copy, PartialEq, Eq, Structural)]
pub enum SessionPhase {
    /// The socket handshake has not finished yet.
    Connecting,
    /// Steady state: frames flow both ways.
    Active,
    /// The socket is closed; nothing more is sent or delivered.
    Closed,
}

/// The state the actor owns for one logical connection: the setup it opened
/// with, its phase, the latest resumption handle the server granted, and
/// whether the connect signal was already sent (it is sent at most once).
#[derive(Debug)]
pub struct Session {
    pub setup: Setup,
    pub phase: SessionPhase,
    pub resumption_handle: Option<String>,
    pub connected_signaled: bool,
}

/// The stored handle as its characters.
pub open spec fn handle_view(h: Option<String>) -> Option<Seq<char>> {
    match h {
        Some(s) => Some(s@),
        None => None,
    }
}

/// Whether an inbound message replaces the stored handle: only a resumption
/// update that reports the session resumable and carries a new handle does.
pub open spec fn sp_handle_after(m: ServerMessageV, old_h: Option<Seq<char>>) -> Option<
    Seq<char>,
> {
    match m {
        ServerMessageV::SessionResumptionUpdate(u) => {
            if u.resumable == Some(true) && u.new_handle is Some {
                Some(u.new_handle->Some_0)
            } else {
                old_h
            }
        },
        _ => old_h,
    }
}

impl Session {
    /// A fresh session about to connect with the given setup.
    pub fn new(setup: Setup) -> (r: Session)
        ensures
            r.setup == setup,
            r.phase == SessionPhase::Connecting,
            r.resumption_handle is None,
            r.connected_signaled == false,
    {
        Session {
            setup,
            phase: SessionPhase::Connecting,
            resumption_handle: None,
            connected_signaled: false,
        }
    }

    /// Advances the session by one event and says what the runtime must do,
    /// in order. One call, one event; the actions of consecutive calls follow
    /// one another, so outbound frames leave in the exact order the calls
    /// were made, and inbound messages are delivered in the exact order their
    /// frames arrived. An inbound frame is delivered whole or, when it cannot
    /// be decoded, discarded without ending the session; no decoded message
    /// is ever dropped.
    pub fn step(&mut self, event: SessionEvent) -> (actions: Vec<SessionAction>)
        ensures
            // The connection comes up: the setup frame goes out first, with the
            // stored handle merged in; the connect signal follows, at most once
            // over the session's life.
            (old(self).phase == SessionPhase::Connecting && event matches
                SessionEvent::TransportConnected) ==> {
                &&& final(self).phase == SessionPhase::Active
                &&& final(self).setup == old(self).setup
                &&& final(self).resumption_handle == old(self).resumption_handle
                &&& final(self).connected_signaled == true
                &&& actions@.len() == (if old(self).connected_signaled {
                    1int
                } else {
                    2int
                })
                &&& (actions@[0] matches SessionAction::SendFrame(f) && f@
                    == sp_encode_client_message(
                    ClientMessage::Setup(
                        sp_merged_setup(old(self).setup, old(self).resumption_handle),
                    ),
                ))
                &&& (!old(self).connected_signaled ==> actions@[1] is SignalConnected)
            },
            // An inbound frame, while the session lives: a decodable frame is
            // delivered, exactly once, and a resumption update the server marks
            // resumable replaces the stored handle; an undecodable frame is
            // discarded and changes nothing.
            (old(self).phase != SessionPhase::Closed && event matches SessionEvent::Frame(t))
                ==> {
                let t = event->Frame_0;
                &&& final(self).phase == old(self).phase
                &&& final(self).setup == old(self).setup
                &&& final(self).connected_signaled == old(self).connected_signaled
                &&& match sp_decode_server_message(t@) {
                    Some(m) => {
                        &&& actions@.len() == 1
                        &&& (actions@[0] matches SessionAction::Deliver(d) && d@ == m)
                        &&& handle_view(final(self).resumption_handle) == sp_handle_after(
                            m,
                            handle_view(old(self).resumption_handle),
                        )
                    },
                    None => {
                        &&& actions@.len() == 0
                        &&& final(self).resumption_handle == old(self).resumption_handle
                    },
                }
            },
            // An outbound call, while the session lives: exactly its encoding
            // goes to the socket, and nothing else changes.
            (old(self).phase != SessionPhase::Closed && event matches SessionEvent::Call(m))
                ==> {
                &&& *final(self) == *old(self)
                &&& actions@.len() == 1
                &&& (actions@[0] matches SessionAction::SendFrame(f) && f@
                    == sp_encode_client_message(event->Call_0))
            },
            // A disconnect closes the socket once; afterwards nothing is sent
            // or delivered.
            (old(self).phase != SessionPhase::Closed && event matches SessionEvent::Disconnect(
                r,
            )) ==> {
                &&& final(self).phase == SessionPhase::Closed
                &&& actions@.len() == 1
                &&& (actions@[0] matches SessionAction::CloseSocket(rr) && rr
                    == event->Disconnect_0)
            },
            // Anything after close is ignored.
            (old(self).phase == SessionPhase::Closed) ==> {
                &&& *final(self) == *old(self)
                &&& actions@.len() == 0
            },
            // In the steady state a connect signal never appears again.
            (old(self).phase == SessionPhase::Active ==> forall|i: int|
                0 <= i < actions@.len() ==> !(actions@[i] is SignalConnected)),
    {
        let mut actions: Vec<SessionAction> = Vec::new();
        match self.phase {
            SessionPhase::Closed => {
                return actions;
            },
            _ => {},
        }
        match event {
            SessionEvent::TransportConnected => {
                match self.phase {
                    SessionPhase::Connecting => {
                        let frame = encode_setup_frame(&self.setup, &self.resumption_handle);
                        actions.push(SessionAction::SendFrame(frame));
                        if !self.connected_signaled {
                            actions.push(SessionAction::SignalConnected);
                            self.connected_signaled = true;
                        }
                        self.phase = SessionPhase::Active;
                    },
                    _ => {},
                }
            },
            SessionEvent::Frame(t) => {
                match decode_server_message(t.as_str()) {
                    Ok(m) => {
                        match &m {
                            ServerMessage::SessionResumptionUpdate(u) => {
                                let resumable = match u.resumable {
                                    Some(b) => b,
                                    None => false,
                                };
                                if resumable {
                                    match &u.new_handle {
                                        Some(h) => {
                                            self.resumption_handle = Some(h.clone());
                                        },
                                        None => {},
                                    }
                                }
                            },
                            _ => {},
                        }
                        actions.push(SessionAction::Deliver(m));
                    },
                    Err(_) => {},
                }
            },
            SessionEvent::Call(m) => {
                let frame = encode_client_message(&m);
                actions.push(SessionAction::SendFrame(frame));
            },
            SessionEvent::Disconnect(r) => {
                self.phase = SessionPhase::Closed;
                actions.push(SessionAction::CloseSocket(r));
            },
        }
        actions
    }
}

// ---------------------------------------------------------------------------
// Connect URL
// ---------------------------------------------------------------------------

/// How one byte of a query value appears on the URL: unreserved bytes stand
/// as themselves, a space becomes `+`, anything else `%` and two upper-case
/// hex digits.
pub open spec fn sp_form_byte(b: u8) -> Seq<char> {
    if (48 <= b <= 57) || (65 <= b <= 90) || (97 <= b <= 122) || b == 42 || b == 45 || b == 46
        || b == 95 {
        seq![b as char]
    } else if b == 32 {
        seq!['+']
    } else {
        seq!['%', hex_upper(b as int / 16), hex_upper(b as int % 16)]
    }
}

/// Upper-case hexadecimal digit for a value below 16.
pub open spec fn hex_upper(n: int) -> char {
    if n < 10 {
        crate::json::hex_digit(n)
    } else if n == 10 {
        'A'
    } else if n == 11 {
        'B'
    } else if n == 12 {
        'C'
    } else if n == 13 {
        'D'
    } else if n == 14 {
        'E'
    } else {
        'F'
    }
}

/// A whole query value, form-encoded byte by byte.
pub open spec fn sp_form_encode(bs: Seq<u8>) -> Seq<char>
    decreases bs.len(),
{
    if bs.len() == 0 {
        Seq::empty()
    } else {
        sp_form_byte(bs[0]) + sp_form_encode(bs.subrange(1, bs.len() as int))
    }
}

fn hex_upper_exec(n: u8) -> (r: char)
    requires
        n < 16,
    ensures
        r == hex_upper(n as int),
{
    if n < 10 {
        crate::json::hex_digit_exec(n as u32)
    } else if n == 10 {
        'A'
    } else if n == 11 {
        'B'
    } else if n == 12 {
        'C'
    } else if n == 13 {
        'D'
    } else if n == 14 {
        'E'
    } else {
        'F'
    }
}

fn push_form_bytes(bs: &[u8], i: usize, out: &mut Vec<char>)
    requires
        i <= bs.len(),
    ensures
        final(out)@ == old(out)@ + sp_form_encode(bs@.subrange(i as int, bs@.len() as int)),
    decreases bs.len() - i,
{
    if i == bs.len() {
        proof {
            assert(bs@.subrange(i as int, bs@.len() as int) =~= Seq::<u8>::empty());
        }
        return ;
    }
    let b = bs[i];
    if (48 <= b && b <= 57) || (65 <= b && b <= 90) || (97 <= b && b <= 122) || b == 42 || b == 45
        || b == 46 || b == 95 {
        out.push(b as char);
    } else if b == 32 {
        out.push('+');
    } else {
        out.push('%');
        out.push(hex_upper_exec(b / 16));
        out.push(hex_upper_exec(b % 16));
    }
    push_form_bytes(bs, i + 1, out);
    proof {
        let tail = bs@.subrange(i as int, bs@.len() as int);
        assert(tail[0] == bs@[i as int]);
        assert(tail.subrange(1, tail.len() as int) =~= bs@.subrange(
            i + 1 as int,
            bs@.len() as int,
        ));
        assert(out@ =~= old(out)@ + sp_form_encode(tail));
    }
}

/// The URL a live connection opens: the endpoint with the credential appended
/// as the `key` query parameter, form-encoded; `&` joins it to a query the
/// endpoint already carries, `?` starts one otherwise.
pub open spec fn sp_connect_url(endpoint: Seq<char>, key_utf8: Seq<u8>) -> Seq<char> {
    let sep: Seq<char> = if exists|i: int| 0 <= i < endpoint.len() && endpoint[i] == '?' {
        seq!['&']
    } else {
        seq!['?']
    };
    endpoint + sep + "key="@ + sp_form_encode(key_utf8)
}

/// Builds the URL a live connection opens, carrying the credential as the
/// `key` query parameter.
pub fn connect_url(endpoint: &str, api_key: &str) -> (r: String)
    ensures
        r@ == sp_connect_url(endpoint@, vstd::utf8::encode_utf8(api_key@)),
{
    let cs = crate::json::chars_of_str(endpoint);
    let mut has_q = false;
    let mut i: usize = 0;
    while i < cs.len()
        invariant
            i <= cs.len(),
            cs@ == endpoint@,
            has_q == exists|q: int| 0 <= q < i && cs@[q] == '?',
        decreases cs.len() - i,
    {
        if cs[i] == '?' {
            has_q = true;
        }
        i = i + 1;
    }
    let mut out: Vec<char> = Vec::new();
    let mut j: usize = 0;
    while j < cs.len()
        invariant
            j <= cs.len(),
            cs@ == endpoint@,
            out@ == endpoint@.subrange(0, j as int),
        decreases cs.len() - j,
    {
        out.push(cs[j]);
        j = j + 1;
        proof {
            assert(out@ =~= endpoint@.subrange(0, j as int));
        }
    }
    proof {
        assert(endpoint@.subrange(0, endpoint@.len() as int) =~= endpoint@);
    }
    if has_q {
        out.push('&');
    } else {
        out.push('?');
    }
    out.push('k');
    out.push('e');
    out.push('y');
    out.push('=');
    let kb = api_key.as_bytes();
    push_form_bytes(kb, 0, &mut out);
    proof {
        assert(kb@.subrange(0, kb@.len() as int) =~= kb@);
        reveal_strlit("key=");
        assert(out@ =~= sp_connect_url(endpoint@, vstd::utf8::encode_utf8(api_key@)));
    }
    crate::json::string_from_chars(&out)
}

} // verus!
