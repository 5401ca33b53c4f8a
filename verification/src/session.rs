//! One live connection: its scope, its life cycle, what it does with each
//! inbound frame and which deliveries it lets through.

use vstd::prelude::*;
use vstd::string::*;
use crate::envelope::{
    checksum_matches, decode_message, encode_message, ContractError, Message, MessageView,
    SenderType,
};

verus! {

/// Display names count guests modulo this number.
pub const DISPLAY_NAME_MODULUS: u64 = 10000;

/// What a connection asked for when it was opened: the tenant, and the guest
/// it speaks for. Without a guest it is a tenant-wide admin view.
#[derive(Clone, Debug, PartialEq, Eq)]
pub struct WsQuery {
    pub shop_id: String,
    pub guest_id: Option<u64>,
}

/// The mathematical value of a connection's scope.
pub struct WsQueryView {
    pub shop_id: Seq<char>,
    pub guest_id: Option<u64>,
}

impl View for WsQuery {
    type V = WsQueryView;

    open spec fn view(&self) -> WsQueryView {
        WsQueryView { shop_id: self.shop_id@, guest_id: self.guest_id }
    }
}

/// Where a session is in its life.
#[derive(Clone, Copy, Debug, PartialEq, Eq, Structural)]
pub enum SessionState {
    Connecting,
    Open,
    Closing,
    Closed,
}

/// What can happen to a session from outside the frames it reads.
#[derive(Clone, Copy, Debug, PartialEq, Eq, Structural)]
pub enum SessionEvent {
    /// The socket upgrade succeeded.
    Upgraded,
    /// The peer sent a close frame.
    CloseFrame,
    /// Reading from the socket failed.
    ReadFailed,
    /// Writing to the socket failed.
    WriteFailed,
    /// The session is being shut down from outside.
    Shutdown,
    /// Both directions have stopped.
    Drained,
}

/// A frame read from the socket.
#[derive(Clone, Debug, PartialEq, Eq)]
pub enum Frame {
    Binary(Vec<u8>),
    Text,
    Ping,
    Pong,
    Close,
}

/// Why an inbound binary frame was not relayed.
#[derive(Clone, Copy, Debug, PartialEq, Eq, Structural)]
pub enum DropReason {
    /// The bytes do not encode an envelope.
    Malformed,
    /// The envelope is well formed, but its payload does not have the
    /// checksum it carries.
    Corrupted,
    /// The envelope names guest zero, which is reserved.
    InvalidGuest,
    /// A guest connection sent an envelope under another guest's number.
    ForeignGuest,
}

/// The participant record to upsert for a guest's message.
#[derive(Clone, Debug, PartialEq, Eq)]
pub struct Participant {
    pub shop_id: String,
    pub guest_id: u64,
    pub display_name: String,
}

/// What to do with an accepted envelope: upsert the participant (if any,
/// and without minding the outcome), then persist the envelope.
#[derive(Clone, Debug, PartialEq, Eq)]
pub struct RelayPlan {
    pub envelope: Message,
    pub participant: Option<Participant>,
}

/// The decision on one inbound frame.
#[derive(Clone, Debug, PartialEq, Eq)]
pub enum Inbound {
    /// Nothing to do; read the next frame.
    Ignore,
    /// The frame was dropped; read the next frame.
    Drop(DropReason),
    /// Store the envelope and, once stored, publish it.
    Relay(RelayPlan),
    /// The peer closed; stop reading.
    Close,
}

/// A payload to publish on the bus under a topic.
#[derive(Clone, Debug, PartialEq, Eq)]
pub struct Publication {
    pub topic: String,
    pub payload: Vec<u8>,
}

/// A session: a scope and a state.
#[derive(Clone, Debug, PartialEq, Eq)]
pub struct Session {
    pub query: WsQuery,
    pub state: SessionState,
}

/// The character of a decimal digit.
pub open spec fn digit_char(d: int) -> char {
    if d == 0 {
        '0'
    } else if d == 1 {
        '1'
    } else if d == 2 {
        '2'
    } else if d == 3 {
        '3'
    } else if d == 4 {
        '4'
    } else if d == 5 {
        '5'
    } else if d == 6 {
        '6'
    } else if d == 7 {
        '7'
    } else if d == 8 {
        '8'
    } else {
        '9'
    }
}

/// The decimal numeral of `n`, without leading zeros.
pub open spec fn decimal(n: nat) -> Seq<char>
    decreases n,
{
    if n < 10 {
        seq![digit_char(n as int)]
    } else {
        decimal(n / 10).push(digit_char((n % 10) as int))
    }
}

/// The display name of a guest: `Guest #` and the guest's number modulo
/// ten thousand.
pub open spec fn display_name_of(guest_id: u64) -> Seq<char> {
    "Guest #"@ + decimal((guest_id % DISPLAY_NAME_MODULUS) as nat)
}

/// The bus topic of a tenant: `chat:` and the tenant identifier.
pub open spec fn topic_of(shop_id: Seq<char>) -> Seq<char> {
    "chat:"@ + shop_id
}

/// Whether a session with this scope may see this envelope: the tenant is
/// its own, and it is an admin view or the guest is its own.
pub open spec fn may_receive(scope: WsQueryView, m: MessageView) -> bool {
    &&& m.shop_id == scope.shop_id
    &&& (scope.guest_id is None || scope.guest_id == Some(m.guest_id))
}

/// What a session hands to its socket for a payload that came from the hub:
/// the payload itself when it encodes an envelope the session may see,
/// nothing otherwise.
pub open spec fn delivered(scope: WsQueryView, payload: Seq<u8>) -> Option<Seq<u8>> {
    match decode_message(payload) {
        Some(m) => if may_receive(scope, m) {
            Some(payload)
        } else {
            None
        },
        None => None,
    }
}

/// The envelope that a binary frame brings into the relay, or why it is
/// dropped: because it cannot be decoded, because its payload is not the one
/// that was sealed, because it names guest zero, or because a guest's
/// connection sent it under another guest's number, in this order. The
/// tenant is always the session's own, whatever the frame said.
pub open spec fn ingress(scope: WsQueryView, data: Seq<u8>) -> Result<MessageView, DropReason> {
    match decode_message(data) {
        None => Err(DropReason::Malformed),
        Some(m) => if !checksum_matches(m) {
            Err(DropReason::Corrupted)
        } else if m.guest_id == 0 {
            Err(DropReason::InvalidGuest)
        } else if scope.guest_id is Some && scope.guest_id != Some(m.guest_id) {
            Err(DropReason::ForeignGuest)
        } else {
            Ok(MessageView { shop_id: scope.shop_id, ..m })
        },
    }
}

/// The state a session is in after an event.
pub open spec fn state_after(state: SessionState, event: SessionEvent) -> SessionState {
    match state {
        SessionState::Connecting => match event {
            SessionEvent::Upgraded => SessionState::Open,
            SessionEvent::Drained => SessionState::Connecting,
            _ => SessionState::Closing,
        },
        SessionState::Open => match event {
            SessionEvent::Upgraded => SessionState::Open,
            SessionEvent::Drained => SessionState::Open,
            _ => SessionState::Closing,
        },
        SessionState::Closing => match event {
            SessionEvent::Drained => SessionState::Closed,
            _ => SessionState::Closing,
        },
        SessionState::Closed => SessionState::Closed,
    }
}

/// The state a session is in after it has read a frame: a close frame ends
/// an open session, no other frame changes anything.
pub open spec fn state_after_frame(state: SessionState, frame: Frame) -> SessionState {
    if state == SessionState::Open && frame is Close {
        SessionState::Closing
    } else {
        state
    }
}

/// Whether a relay plan is the one owed for an accepted envelope: the
/// envelope itself, and a participant record exactly when a guest wrote it.
pub open spec fn plan_matches(plan: RelayPlan, m: MessageView) -> bool {
    &&& plan.envelope@ == m
    &&& match plan.participant {
        Some(p) => {
            &&& m.sender_type == SenderType::Guest
            &&& p.shop_id@ == m.shop_id
            &&& p.guest_id == m.guest_id
            &&& p.display_name@ == display_name_of(m.guest_id)
        },
        None => m.sender_type != SenderType::Guest,
    }
}

/// Whether a decision is the one owed for a frame read by an open session.
pub open spec fn decision_matches(scope: WsQueryView, frame: Frame, decision: Inbound) -> bool {
    match frame {
        Frame::Binary(data) => match ingress(scope, data@) {
            Ok(m) => decision matches Inbound::Relay(plan) && plan_matches(plan, m),
            Err(reason) => decision == Inbound::Drop(reason),
        },
        Frame::Close => decision == Inbound::Close,
        _ => decision == Inbound::Ignore,
    }
}

/// The numeral of one decimal digit.
fn digit_text(d: u64) -> (text: &'static str)
    requires
        d < 10,
    ensures
        text@ == seq![digit_char(d as int)],
{
    proof {
        reveal_strlit("0");
        reveal_strlit("1");
        reveal_strlit("2");
        reveal_strlit("3");
        reveal_strlit("4");
        reveal_strlit("5");
        reveal_strlit("6");
        reveal_strlit("7");
        reveal_strlit("8");
        reveal_strlit("9");
    }
    let text = if d == 0 {
        "0"
    } else if d == 1 {
        "1"
    } else if d == 2 {
        "2"
    } else if d == 3 {
        "3"
    } else if d == 4 {
        "4"
    } else if d == 5 {
        "5"
    } else if d == 6 {
        "6"
    } else if d == 7 {
        "7"
    } else if d == 8 {
        "8"
    } else {
        "9"
    };
    text
}

/// Appends the decimal numeral of `n` to `out`.
pub fn push_decimal(n: u64, out: &mut String)
    ensures
        final(out)@ == old(out)@ + decimal(n as nat),
    decreases n,
{
    if n >= 10 {
        push_decimal(n / 10, out);
    }
    out.append(digit_text(n % 10));
}

/// The display name under which a guest is recorded.
pub fn display_name(guest_id: u64) -> (name: String)
    ensures
        name@ == display_name_of(guest_id),
{
    let mut name = String::from_str("Guest #");
    push_decimal(guest_id % DISPLAY_NAME_MODULUS, &mut name);
    name
}

/// The bus topic on which a tenant's envelopes travel.
pub fn topic_for(shop_id: &str) -> (topic: String)
    ensures
        topic@ == topic_of(shop_id@),
{
    let mut topic = String::from_str("chat:");
    topic.append(shop_id);
    topic
}

/// The topic pattern that covers every tenant.
pub fn subscribe_pattern() -> (pattern: &'static str)
    ensures
        pattern@ == "chat:*"@,
{
    "chat:*"
}

/// After the store has answered: the envelope goes to the bus, under its
/// tenant's topic, exactly when it was stored.
pub fn on_persisted(envelope: &Message, outcome: &Result<(), ContractError>) -> (r: Option<
    Publication,
>)
    ensures
        outcome is Err ==> r is None,
        outcome is Ok ==> ({
            &&& r matches Some(p)
            &&& p.topic@ == topic_of(envelope@.shop_id)
            &&& p.payload@ == encode_message(envelope@)
        }),
{
    match outcome {
        Ok(_) => Some(
            Publication {
                topic: topic_for(envelope.shop_id.as_str()),
                payload: envelope.encode_to_vec(),
            },
        ),
        Err(_) => None,
    }
}

impl WsQuery {
    /// Whether a session with this scope may see `envelope`.
    pub fn permits(&self, envelope: &Message) -> (ok: bool)
        ensures
            ok == may_receive(self@, envelope@),
    {
        if envelope.shop_id != self.shop_id {
            return false;
        }
        match self.guest_id {
            None => true,
            Some(g) => g == envelope.guest_id,
        }
    }

    /// Takes a binary frame in: decodes it, checks its seal, refuses guest
    /// zero and, on a guest connection, any other guest, and puts the
    /// session's tenant on it.
    pub fn accept(&self, data: &[u8]) -> (r: Result<Message, DropReason>)
        ensures
            match ingress(self@, data@) {
                Ok(m) => r matches Ok(e) && e@ == m,
                Err(reason) => r == Err::<Message, DropReason>(reason),
            },
    {
        let mut envelope = match Message::decode(data) {
            Ok(m) => m,
            Err(_) => {
                return Err(DropReason::Malformed);
            },
        };
        if !envelope.verify() {
            return Err(DropReason::Corrupted);
        }
        if envelope.guest_id == 0 {
            return Err(DropReason::InvalidGuest);
        }
        match self.guest_id {
            Some(g) => {
                if g != envelope.guest_id {
                    return Err(DropReason::ForeignGuest);
                }
            },
            None => {},
        }
        envelope.shop_id = self.shop_id.clone();
        Ok(envelope)
    }

    /// What to hand to the socket for a payload that came from the hub.
    pub fn filter(&self, payload: &[u8]) -> (r: Option<Vec<u8>>)
        ensures
            match delivered(self@, payload@) {
                Some(bytes) => r matches Some(out) && out@ == bytes,
                None => r is None,
            },
    {
        match Message::decode(payload) {
            Ok(m) => {
                if self.permits(&m) {
                    Some(crate::wire::copy_range(payload, 0, payload.len()))
                } else {
                    None
                }
            },
            Err(_) => None,
        }
    }
}

impl Session {
    /// A session for a connection that is being upgraded.
    pub fn new(query: WsQuery) -> (s: Session)
        ensures
            s.query == query,
            s.state == SessionState::Connecting,
    {
        Session { query, state: SessionState::Connecting }
    }

    /// Whether the session is open.
    pub fn is_open(&self) -> (open: bool)
        ensures
            open == (self.state == SessionState::Open),
    {
        match self.state {
            SessionState::Open => true,
            _ => false,
        }
    }

    /// Whether the session has ended for good.
    pub fn is_closed(&self) -> (closed: bool)
        ensures
            closed == (self.state == SessionState::Closed),
    {
        match self.state {
            SessionState::Closed => true,
            _ => false,
        }
    }

    /// Moves the session along on an event.
    pub fn on_event(&mut self, event: SessionEvent)
        ensures
            final(self).query == old(self).query,
            final(self).state == state_after(old(self).state, event),
    {
        let next = match self.state {
            SessionState::Connecting => match event {
                SessionEvent::Upgraded => SessionState::Open,
                SessionEvent::Drained => SessionState::Connecting,
                _ => SessionState::Closing,
            },
            SessionState::Open => match event {
                SessionEvent::Upgraded => SessionState::Open,
                SessionEvent::Drained => SessionState::Open,
                _ => SessionState::Closing,
            },
            SessionState::Closing => match event {
                SessionEvent::Drained => SessionState::Closed,
                _ => SessionState::Closing,
            },
            SessionState::Closed => SessionState::Closed,
        };
        self.state = next;
    }

    /// Decides on one inbound frame. A session that is not open ignores it.
    /// An open session stops on a close frame, passes over text, ping and
    /// pong, and relays or drops a binary frame; only the close frame changes
    /// its state.
    pub fn handle_frame(&mut self, frame: Frame) -> (decision: Inbound)
        ensures
            final(self).query == old(self).query,
            final(self).state == state_after_frame(old(self).state, frame),
            old(self).state != SessionState::Open ==> decision == Inbound::Ignore,
            old(self).state == SessionState::Open ==> decision_matches(
                old(self).query@,
                frame,
                decision,
            ),
    {
        if !self.is_open() {
            return Inbound::Ignore;
        }
        match frame {
            Frame::Binary(data) => match self.query.accept(data.as_slice()) {
                Ok(envelope) => {
                    let participant = match envelope.sender_type {
                        SenderType::Guest => Some(
                            Participant {
                                shop_id: envelope.shop_id.clone(),
                                guest_id: envelope.guest_id,
                                display_name: display_name(envelope.guest_id),
                            },
                        ),
                        SenderType::Admin => None,
                    };
                    Inbound::Relay(RelayPlan { envelope, participant })
                },
                Err(reason) => Inbound::Drop(reason),
            },
            Frame::Close => {
                self.state = SessionState::Closing;
                Inbound::Close
            },
            _ => Inbound::Ignore,
        }
    }

    /// What to write to the socket for a payload that came from the hub: the
    /// payload as it is, when the session is open and may see the envelope it
    /// encodes; nothing otherwise.
    pub fn on_delivery(&self, payload: &[u8]) -> (r: Option<Vec<u8>>)
        ensures
            self.state != SessionState::Open ==> r is None,
            self.state == SessionState::Open ==> match delivered(self.query@, payload@) {
                Some(bytes) => r matches Some(out) && out@ == bytes,
                None => r is None,
            },
    {
        if !self.is_open() {
            return None;
        }
        self.query.filter(payload)
    }
}

/// Tenant isolation: whatever a session hands to its socket encodes an
/// envelope of the session's own tenant.
pub proof fn lemma_tenant_isolation(scope: WsQueryView, payload: Seq<u8>)
    requires
        delivered(scope, payload) is Some,
    ensures
        decode_message(payload) is Some,
        decode_message(payload).unwrap().shop_id == scope.shop_id,
        delivered(scope, payload) == Some(payload),
{
}

/// Guest isolation: whatever a guest's session hands to its socket encodes
/// an envelope of that tenant and that guest.
pub proof fn lemma_guest_isolation(scope: WsQueryView, guest_id: u64, payload: Seq<u8>)
    requires
        scope.guest_id == Some(guest_id),
        delivered(scope, payload) is Some,
    ensures
        decode_message(payload) is Some,
        decode_message(payload).unwrap().shop_id == scope.shop_id,
        decode_message(payload).unwrap().guest_id == guest_id,
{
}

/// An admin session is handed every payload that encodes an envelope of its
/// tenant, whichever guest it belongs to, and no other.
pub proof fn lemma_admin_sees_whole_tenant(scope: WsQueryView, payload: Seq<u8>)
    requires
        scope.guest_id is None,
    ensures
        delivered(scope, payload) is Some <==> (decode_message(payload) is Some && decode_message(
            payload,
        ).unwrap().shop_id == scope.shop_id),
{
}

/// Ingress resilience: a binary frame never changes the state of a session,
/// and a malformed one is dropped and nothing else; the decision on any later
/// frame depends on the scope and that frame alone.
pub proof fn lemma_malformed_frame_is_dropped(scope: WsQueryView, data: Vec<u8>, decision: Inbound)
    requires
        decode_message(data@) is None,
        decision_matches(scope, Frame::Binary(data), decision),
    ensures
        decision == Inbound::Drop(DropReason::Malformed),
        state_after_frame(SessionState::Open, Frame::Binary(data)) == SessionState::Open,
{
}

/// Whatever comes into the relay carries the session's tenant, a payload
/// that matches its checksum and a guest other than zero, and on a guest
/// connection that guest's own number.
pub proof fn lemma_ingress_is_scoped(scope: WsQueryView, data: Seq<u8>)
    requires
        ingress(scope, data) is Ok,
    ensures
        ingress(scope, data).unwrap().shop_id == scope.shop_id,
        ingress(scope, data).unwrap().guest_id != 0,
        checksum_matches(ingress(scope, data).unwrap()),
        scope.guest_id is Some ==> scope.guest_id == Some(ingress(scope, data).unwrap().guest_id),
{
}

/// Closed is final: no event and no frame brings a closed session back.
pub proof fn lemma_closed_is_terminal(event: SessionEvent, frame: Frame)
    ensures
        state_after(SessionState::Closed, event) == SessionState::Closed,
        state_after_frame(SessionState::Closed, frame) == SessionState::Closed,
{
}

} // verus!
