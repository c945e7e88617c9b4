//! The connection to the browser: which command is sent when, and what becomes of
//! what comes back.
//!
//! A [`Connection`] is a machine. Its owner holds the socket, does what the machine
//! asks for, and tells it the outcome.
use vstd::prelude::*;
use vstd::string::*;
use vstd::utf8::encode_utf8;
use serde_json::Value;
use std::collections::VecDeque;

use crate::error::CdpError;
use crate::text::same_text;

verus! {

/// The number of a command, by which its response is known.
#[derive(Debug, Clone, Copy, PartialEq, Eq, Structural)]
pub struct CallId {
    /// The number.
    pub id: usize,
}

impl CallId {
    /// The identifier with a number.
    pub fn new(id: usize) -> (call: CallId)
        ensures
            call.id == id,
    {
        CallId { id }
    }
}

/// A command for the browser.
#[derive(Debug)]
pub struct MethodCall {
    /// Its number.
    pub id: CallId,
    /// The method.
    pub method: String,
    /// The session that it is for.
    pub session_id: Option<String>,
    /// The parameters.
    pub params: Value,
}

/// The state of a [`Connection`].
pub struct ConnectionState {
    pub pending_commands: Seq<MethodCall>,
    pub next_id: int,
    pub needs_flush: bool,
    pub sending: Option<MethodCall>,
    pub pending_flush: Option<MethodCall>,
}

/// Sends the commands of a session one after the other.
#[derive(Debug)]
pub struct Connection {
    /// The commands that are still to be sent.
    pending_commands: VecDeque<MethodCall>,
    /// The number of the next command.
    next_id: usize,
    /// Is the socket to be flushed?
    needs_flush: bool,
    /// The command that is handed to the socket.
    sending: Option<MethodCall>,
    /// The command that the socket has taken.
    pending_flush: Option<MethodCall>,
}

impl View for Connection {
    type V = ConnectionState;

    closed spec fn view(&self) -> ConnectionState {
        ConnectionState {
            pending_commands: self.pending_commands@,
            next_id: self.next_id as int,
            needs_flush: self.needs_flush,
            sending: self.sending,
            pending_flush: self.pending_flush,
        }
    }
}

/// What the owner of the socket reports.
#[derive(Debug, Clone, Copy)]
pub enum SocketEvent {
    /// The owner begins.
    Poll,
    /// A flush was tried. Is it done?
    Flushed(bool),
    /// A command was handed over. Was it taken?
    Sent(bool),
    /// The socket was asked whether it takes a message. Did it answer?
    Ready(bool),
}

/// What the owner of the socket is to do.
#[derive(Debug, Clone, Copy)]
pub enum SocketAction {
    /// Try to flush.
    Flush,
    /// Hand over the command that [`Connection::outgoing`] gives.
    Send,
    /// Ask whether the socket takes a message.
    PollReady,
    /// Read from the socket.
    Read,
    /// Give up: a command was not taken.
    Fail,
}

/// The number after a number: after the last one comes 0 again.
pub open spec fn following(id: int) -> int {
    if id == usize::MAX {
        0
    } else {
        id + 1
    }
}

/// The connection after a command has been submitted.
pub open spec fn submitted(
    s: ConnectionState,
    id: CallId,
    method: String,
    session_id: Option<String>,
    params: Value,
) -> ConnectionState {
    ConnectionState {
        pending_commands: s.pending_commands.push(MethodCall { id, method, session_id, params }),
        next_id: following(s.next_id),
        ..s
    }
}

/// With a command that the socket has taken, it is asked whether it takes another;
/// otherwise it is read from.
pub open spec fn after_send(s: ConnectionState) -> (ConnectionState, SocketAction) {
    (
        s,
        if s.pending_flush is Some {
            SocketAction::PollReady
        } else {
            SocketAction::Read
        },
    )
}

/// The next command is sent if none is under way and no flush is outstanding.
pub open spec fn after_flush(s: ConnectionState) -> (ConnectionState, SocketAction) {
    if s.pending_flush is None && !s.needs_flush && s.pending_commands.len() > 0 {
        (
            ConnectionState {
                pending_commands: s.pending_commands.skip(1),
                sending: Some(s.pending_commands[0]),
                ..s
            },
            SocketAction::Send,
        )
    } else {
        after_send(s)
    }
}

/// A flush that is needed comes first.
pub open spec fn begun(s: ConnectionState) -> (ConnectionState, SocketAction) {
    if s.needs_flush {
        (s, SocketAction::Flush)
    } else {
        after_flush(s)
    }
}

/// What an event makes of the connection, and what is to be done then.
pub open spec fn stepped(s: ConnectionState, event: SocketEvent) -> (ConnectionState, SocketAction) {
    match event {
        SocketEvent::Poll => begun(s),
        SocketEvent::Flushed(done) => after_flush(
            ConnectionState { needs_flush: s.needs_flush && !done, ..s },
        ),
        SocketEvent::Sent(taken) => if taken {
            after_send(
                ConnectionState {
                    sending: None,
                    pending_flush: if s.sending is Some {
                        s.sending
                    } else {
                        s.pending_flush
                    },
                    ..s
                },
            )
        } else {
            (ConnectionState { sending: None, ..s }, SocketAction::Fail)
        },
        SocketEvent::Ready(answered) => if answered && s.pending_flush is Some {
            begun(ConnectionState { pending_flush: None, needs_flush: true, ..s })
        } else {
            (s, SocketAction::Read)
        },
    }
}

impl Connection {
    /// A connection on which nothing has been sent.
    pub fn new() -> (connection: Connection)
        ensures
            connection@ == (ConnectionState {
                pending_commands: Seq::empty(),
                next_id: 0,
                needs_flush: false,
                sending: None,
                pending_flush: None,
            }),
    {
        let connection = Connection {
            pending_commands: VecDeque::new(),
            next_id: 0,
            needs_flush: false,
            sending: None,
            pending_flush: None,
        };
        proof {
            assert(connection@.pending_commands =~= Seq::empty());
        }
        connection
    }

    /// Takes the next number. After the last one comes 0 again.
    fn next_call_id(&mut self) -> (id: CallId)
        ensures
            id.id == old(self)@.next_id,
            final(self)@ == (ConnectionState {
                next_id: following(old(self)@.next_id),
                ..old(self)@
            }),
    {
        let id = CallId::new(self.next_id);
        self.next_id = self.next_id.wrapping_add(1);
        id
    }

    /// Puts a command at the end of the queue, and gives its number.
    pub fn submit_command(
        &mut self,
        method: String,
        session_id: Option<String>,
        params: Value,
    ) -> (id: Result<CallId, CdpError>)
        ensures
            id matches Ok(i) && {
                &&& i.id == old(self)@.next_id
                &&& final(self)@ == submitted(old(self)@, i, method, session_id, params)
            },
    {
        let id = self.next_call_id();
        self.pending_commands.push_back(MethodCall { id, method, session_id, params });
        Ok(id)
    }

    /// The command that is handed to the socket.
    pub fn outgoing(&self) -> (call: Option<&MethodCall>)
        ensures
            call is Some <==> self@.sending is Some,
            call matches Some(c) ==> self@.sending == Some(*c),
    {
        self.sending.as_ref()
    }

    fn finish_send(&self) -> (action: SocketAction)
        ensures
            (self@, action) == after_send(self@),
    {
        if self.pending_flush.is_some() {
            SocketAction::PollReady
        } else {
            SocketAction::Read
        }
    }

    /// Takes the next command up, where one may be sent.
    fn start_send_next(&mut self) -> (action: SocketAction)
        ensures
            (final(self)@, action) == after_flush(old(self)@),
    {
        if self.pending_flush.is_none() && !self.needs_flush {
            if let Some(call) = self.pending_commands.pop_front() {
                proof {
                    assert(self.pending_commands@ =~= old(self)@.pending_commands.skip(1));
                }
                self.sending = Some(call);
                return SocketAction::Send;
            }
            proof {
                assert(self.pending_commands@ =~= old(self)@.pending_commands);
            }
        }
        self.finish_send()
    }

    /// Takes an event, and says what is to be done.
    pub fn step(&mut self, event: SocketEvent) -> (action: SocketAction)
        ensures
            (final(self)@, action) == stepped(old(self)@, event),
    {
        match event {
            SocketEvent::Poll => {
                if self.needs_flush {
                    SocketAction::Flush
                } else {
                    self.start_send_next()
                }
            },
            SocketEvent::Flushed(done) => {
                self.needs_flush = self.needs_flush && !done;
                self.start_send_next()
            },
            SocketEvent::Sent(taken) => {
                let call = self.sending.take();
                if !taken {
                    return SocketAction::Fail;
                }
                if call.is_some() {
                    self.pending_flush = call;
                }
                self.finish_send()
            },
            SocketEvent::Ready(answered) => {
                if answered && self.pending_flush.is_some() {
                    self.pending_flush = None;
                    self.needs_flush = true;
                    SocketAction::Flush
                } else {
                    SocketAction::Read
                }
            },
        }
    }
}

/// The value that bytes are in JSON, with the parser's limit on nesting.
pub uninterp spec fn json_parsed(bytes: Seq<u8>) -> Option<Value>;

/// The value that bytes begin with in JSON, without the parser's limit on nesting.
pub uninterp spec fn deep_json_parsed(bytes: Seq<u8>) -> Option<Value>;

/// The field of a JSON object. Other values have none.
pub uninterp spec fn json_field(value: Value, name: Seq<char>) -> Option<Value>;

/// The unsigned number that a JSON value is. Other values are none.
pub uninterp spec fn json_unsigned(value: Value) -> Option<u64>;

/// Calls `serde_json::from_slice`.
///
/// Trusted: whether there is a value, and which, depends on the bytes alone. What
/// JSON is, is not stated.
#[verifier::external_body]
fn parse_json(bytes: &[u8]) -> (parsed: Result<Value, serde_json::Error>)
    ensures
        match parsed {
            Ok(value) => json_parsed(bytes@) == Some(value),
            Err(error) => json_parsed(bytes@) is None,
        },
{
    serde_json::from_slice(bytes)
}

/// How far a scan for brackets has come.
pub struct Scan {
    /// How many brackets are open.
    pub depth: nat,
    /// How many were open at most.
    pub deepest: nat,
    /// Does the scan stand in a string?
    pub in_string: bool,
    /// Is the next character of the string escaped?
    pub escaped: bool,
}

/// The scan after one more byte. Brackets in strings do not count.
pub open spec fn scan_step(scan: Scan, byte: u8) -> Scan {
    if scan.in_string {
        Scan {
            in_string: scan.escaped || byte != 0x22,
            escaped: !scan.escaped && byte == 0x5c,
            ..scan
        }
    } else if byte == 0x22 {
        Scan { in_string: true, ..scan }
    } else if byte == 0x5b || byte == 0x7b {
        Scan {
            depth: scan.depth + 1,
            deepest: if scan.depth + 1 > scan.deepest {
                scan.depth + 1
            } else {
                scan.deepest
            },
            ..scan
        }
    } else if (byte == 0x5d || byte == 0x7d) && scan.depth > 0 {
        Scan { depth: (scan.depth - 1) as nat, ..scan }
    } else {
        scan
    }
}

/// The scan of a row of bytes.
pub open spec fn scanned(bytes: Seq<u8>) -> Scan
    decreases bytes.len(),
{
    if bytes.len() == 0 {
        Scan { depth: 0, deepest: 0, in_string: false, escaped: false }
    } else {
        scan_step(scanned(bytes.drop_last()), bytes.last())
    }
}

/// How deep the arrays and objects are nested that bytes hold in JSON.
pub open spec fn nesting(bytes: Seq<u8>) -> nat {
    scanned(bytes).deepest
}

/// How deep a value may be nested that is not parsed with the parser's limit. A value
/// is dropped level by level, and the stack of a thread has to hold these levels.
pub const MAX_NESTING: usize = 512;

/// How deep the arrays and objects are nested that bytes hold in JSON.
pub fn nesting_of(bytes: &[u8]) -> (deepest: usize)
    ensures
        deepest == nesting(bytes@),
{
    let mut depth: usize = 0;
    let mut deepest: usize = 0;
    let mut in_string = false;
    let mut escaped = false;
    let mut i: usize = 0;
    proof {
        assert(bytes@.take(0).len() == 0);
    }
    while i < bytes.len()
        invariant
            i <= bytes.len(),
            depth <= deepest <= i,
            scanned(bytes@.take(i as int)) == (Scan {
                depth: depth as nat,
                deepest: deepest as nat,
                in_string,
                escaped,
            }),
        decreases bytes.len() - i,
    {
        proof {
            assert(bytes@.take(i + 1).drop_last() =~= bytes@.take(i as int));
        }
        let byte: u8 = bytes[i];
        if in_string {
            in_string = escaped || byte != 0x22;
            escaped = !escaped && byte == 0x5c;
        } else if byte == 0x22 {
            in_string = true;
        } else if byte == 0x5b || byte == 0x7b {
            depth = depth + 1;
            if depth > deepest {
                deepest = depth;
            }
        } else if (byte == 0x5d || byte == 0x7d) && depth > 0 {
            depth = depth - 1;
        }
        i = i + 1;
    }
    proof {
        assert(bytes@.take(i as int) =~= bytes@);
    }
    deepest
}

/// Calls `serde_json::Deserializer::disable_recursion_limit`, and deserializes
/// through `serde_stacker::Deserializer`, which grows the stack as it goes down.
///
/// Trusted: whether there is a value, and which, depends on the bytes alone. What
/// JSON is, is not stated. What follows the value is not read. The bound on the
/// nesting keeps out what overflows the stack: a part of a value that is dropped on
/// the way, because an error follows it, is dropped without a grown stack.
#[verifier::external_body]
fn parse_deep_json(bytes: &[u8]) -> (parsed: Result<Value, serde_json::Error>)
    requires
        nesting(bytes@) <= MAX_NESTING,
    ensures
        match parsed {
            Ok(value) => deep_json_parsed(bytes@) == Some(value),
            Err(error) => deep_json_parsed(bytes@) is None,
        },
{
    let mut reader = serde_json::Deserializer::from_slice(bytes);
    reader.disable_recursion_limit();
    serde::Deserialize::deserialize(serde_stacker::Deserializer::new(&mut reader))
}

/// Calls `serde_json::Value::get`.
///
/// Trusted: the result is the field of that name, and there is none if and only if
/// `json_field` has none.
#[verifier::external_body]
fn get_field<'a>(value: &'a Value, name: &str) -> (field: Option<&'a Value>)
    ensures
        match field {
            Some(f) => json_field(*value, name@) == Some(*f),
            None => json_field(*value, name@) is None,
        },
{
    value.get(name)
}

/// Calls `serde_json::Value::as_u64`.
///
/// Trusted: the result is the unsigned number that the value is, and depends on the
/// value alone.
#[verifier::external_body]
fn as_unsigned(value: &Value) -> (number: Option<u64>)
    ensures
        number == json_unsigned(*value),
{
    value.as_u64()
}

/// Calls `serde::de::Error::missing_field` for an error of `serde_json`.
///
/// Nothing is stated of the error.
#[verifier::external_body]
fn missing_field(name: &'static str) -> (error: serde_json::Error) {
    <serde_json::Error as serde::de::Error>::missing_field(name)
}

/// The response to a command.
#[derive(Debug)]
pub struct Response {
    /// The number of the command.
    pub id: u64,
    /// The whole response.
    pub value: Value,
}

/// A message of the browser: an event, or the response to a command.
#[derive(Debug)]
pub enum Message {
    /// An event.
    Event(Value),
    /// A response.
    Response(Response),
}

/// What has a method is an event. What has none but a number is a response, and
/// everything else is no message.
pub fn message_of(value: Value, has_method: bool, id: Option<u64>) -> (message: Option<Message>)
    ensures
        message == if has_method {
            Some(Message::Event(value))
        } else {
            match id {
                Some(id) => Some(Message::Response(Response { id, value })),
                None => None,
            }
        },
{
    if has_method {
        Some(Message::Event(value))
    } else {
        match id {
            Some(id) => Some(Message::Response(Response { id, value })),
            None => None,
        }
    }
}

/// The number of the command that a value in JSON responds to.
pub open spec fn response_id(value: Value) -> Option<u64> {
    match json_field(value, "id"@) {
        Some(id) => json_unsigned(id),
        None => None,
    }
}

/// The message that a value in JSON is, if it is one.
pub open spec fn message_in(value: Value) -> Option<Message> {
    if json_field(value, "method"@) is Some {
        Some(Message::Event(value))
    } else {
        match response_id(value) {
            Some(id) => Some(Message::Response(Response { id, value })),
            None => None,
        }
    }
}

/// The message that a parsed value is, if there is a value and it is a message.
pub open spec fn message_parsed_as(parsed: Option<Value>) -> Option<Message> {
    match parsed {
        Some(value) => message_in(value),
        None => None,
    }
}

/// The result is the message, or an error of the parser if there is none.
pub open spec fn decodes_to(result: Result<Message, CdpError>, message: Option<Message>) -> bool {
    match message {
        Some(m) => result == Ok::<Message, CdpError>(m),
        None => result matches Err(CdpError::Serde(_)),
    }
}

/// The message that a parsed frame is. What is no message is an error, and so is what
/// could not be parsed.
fn message_parsed(parsed: Result<Value, serde_json::Error>) -> (message: Result<Message, CdpError>)
    ensures
        match parsed {
            Ok(value) => decodes_to(message, message_in(value)),
            Err(error) => message == Err::<Message, CdpError>(CdpError::Serde(error)),
        },
{
    match parsed {
        Ok(value) => {
            let has_method = get_field(&value, "method").is_some();
            let id: Option<u64> = match get_field(&value, "id") {
                Some(id) => as_unsigned(id),
                None => None,
            };
            match message_of(value, has_method, id) {
                Some(message) => Ok(message),
                None => Err(CdpError::Serde(missing_field("id"))),
            }
        },
        Err(error) => Err(CdpError::Serde(error)),
    }
}

/// Decodes a frame, of text or of bytes. The text of a frame of text is not needed.
///
/// What an event or a response holds beside its method or its number is for the owner
/// to parse. An error of that is handed to [`decoded_outcome`].
pub fn decode_message(bytes: &[u8], raw_text_for_logging: Option<&str>) -> (message: Result<
    Message,
    CdpError,
>)
    ensures
        decodes_to(message, message_parsed_as(json_parsed(bytes@))),
{
    message_parsed(parse_json(bytes))
}

/// Decodes a frame that may be nested more deeply than [`decode_message`] takes.
pub fn decode_deep_message(bytes: &[u8], raw_text_for_logging: Option<&str>) -> (message: Result<
    Message,
    CdpError,
>)
    requires
        nesting(bytes@) <= MAX_NESTING,
    ensures
        decodes_to(message, message_parsed_as(deep_json_parsed(bytes@))),
{
    message_parsed(parse_deep_json(bytes))
}

/// What the socket gave.
#[derive(Debug)]
pub enum Received {
    /// Nothing yet.
    Pending,
    /// A frame of text.
    Text(String),
    /// A frame of bytes.
    Binary(Vec<u8>),
    /// A ping.
    Ping,
    /// A pong.
    Pong,
    /// Another frame, which is not expected.
    Other,
    /// The browser closes.
    Close,
    /// The socket failed.
    Failed,
    /// The socket is at its end.
    End,
}

/// What a poll of the connection comes to.
#[derive(Debug)]
pub enum Outcome {
    /// Wait until the socket wakes the owner.
    Wait,
    /// Poll again at once: a frame was dropped.
    Again,
    /// Hand out a message.
    Deliver(Message),
    /// Hand out the error of the socket.
    Fail,
    /// There is nothing more.
    End,
}

/// The outcome of a frame: one that is no message is dropped.
pub open spec fn frame_outcome(message: Option<Message>) -> Outcome {
    match message {
        Some(m) => Outcome::Deliver(m),
        None => Outcome::Again,
    }
}

/// The outcome of what is no frame with a message in it.
pub open spec fn other_outcome(received: Received) -> Outcome {
    match received {
        Received::Pending => Outcome::Wait,
        Received::Close => Outcome::End,
        Received::Failed => Outcome::Fail,
        Received::End => Outcome::End,
        _ => Outcome::Again,
    }
}

/// The outcome of a decoded frame: an error drops it.
pub fn decoded_outcome(decoded: Result<Message, CdpError>) -> (outcome: Outcome)
    ensures
        outcome == match decoded {
            Ok(message) => Outcome::Deliver(message),
            Err(error) => Outcome::Again,
        },
{
    match decoded {
        Ok(message) => Outcome::Deliver(message),
        Err(_) => Outcome::Again,
    }
}

/// What a poll comes to, by what the socket gave.
pub fn read_outcome(received: Received) -> (outcome: Outcome)
    ensures
        outcome == match received {
            Received::Text(text) => frame_outcome(
                message_parsed_as(json_parsed(encode_utf8(text@))),
            ),
            Received::Binary(bytes) => frame_outcome(message_parsed_as(json_parsed(bytes@))),
            _ => other_outcome(received),
        },
{
    match received {
        Received::Text(text) => decoded_outcome(
            decode_message(text.as_str().as_bytes(), Some(text.as_str())),
        ),
        Received::Binary(bytes) => decoded_outcome(decode_message(bytes.as_slice(), None)),
        Received::Pending => Outcome::Wait,
        Received::Ping | Received::Pong | Received::Other => Outcome::Again,
        Received::Close | Received::End => Outcome::End,
        Received::Failed => Outcome::Fail,
    }
}

/// What a poll comes to, by what the socket gave, where frames may be nested deeply.
pub fn read_deep_outcome(received: Received) -> (outcome: Outcome)
    requires
        received matches Received::Text(text) ==> nesting(encode_utf8(text@)) <= MAX_NESTING,
        received matches Received::Binary(bytes) ==> nesting(bytes@) <= MAX_NESTING,
    ensures
        outcome == match received {
            Received::Text(text) => frame_outcome(
                message_parsed_as(deep_json_parsed(encode_utf8(text@))),
            ),
            Received::Binary(bytes) => frame_outcome(message_parsed_as(deep_json_parsed(bytes@))),
            _ => other_outcome(received),
        },
{
    match received {
        Received::Text(text) => decoded_outcome(
            decode_deep_message(text.as_str().as_bytes(), Some(text.as_str())),
        ),
        Received::Binary(bytes) => decoded_outcome(decode_deep_message(bytes.as_slice(), None)),
        other => read_outcome(other),
    }
}

/// Is Nagle's algorithm off? It is, unless the variable `DISABLE_NAGLE` is set to
/// something else than `true`.
pub fn disable_nagle(variable: Option<&str>) -> (yes: bool)
    ensures
        yes == match variable {
            Some(value) => value@ == "true"@,
            None => true,
        },
{
    match variable {
        Some(value) => same_text(value, "true"),
        None => true,
    }
}

/// Does the socket keep its limits on messages? It does if the variable
/// `WEBSOCKET_DEFAULTS` is set to `true`.
pub fn websocket_defaults(variable: Option<&str>) -> (yes: bool)
    ensures
        yes == match variable {
            Some(value) => value@ == "true"@,
            None => false,
        },
{
    match variable {
        Some(value) => same_text(value, "true"),
        None => false,
    }
}

// ---------------------------------------------------------------------------
// What holds of a connection

/// The commands that have a place in the order of sending: the one that is handed
/// over, and those that wait.
pub open spec fn order_of_sending(s: ConnectionState) -> Seq<MethodCall> {
    match s.sending {
        Some(call) => seq![call] + s.pending_commands,
        None => s.pending_commands,
    }
}

/// Commands are sent in the order in which they were submitted: a step takes at
/// most the first one out of the queue, and only to hand it over.
pub proof fn commands_are_sent_in_order(s: ConnectionState, event: SocketEvent)
    requires
        s.sending is None,
    ensures
        ({
            let (after, action) = stepped(s, event);
            &&& order_of_sending(after) == s.pending_commands
            &&& action is Send <==> after.sending is Some
        }),
{
    let (after, action) = stepped(s, event);
    if after.sending is Some {
        assert(order_of_sending(after) =~= s.pending_commands);
    }
}

/// A command is sent only when the one before it has been flushed.
pub proof fn one_command_at_a_time(s: ConnectionState, event: SocketEvent)
    ensures
        ({
            let (after, action) = stepped(s, event);
            action is Send ==> after.pending_flush is None && !after.needs_flush
        }),
{
}

/// What the owner reports if the socket does all that it is asked for.
pub open spec fn willing(action: SocketAction) -> SocketEvent {
    match action {
        SocketAction::Flush => SocketEvent::Flushed(true),
        SocketAction::Send => SocketEvent::Sent(true),
        SocketAction::PollReady => SocketEvent::Ready(true),
        SocketAction::Read => SocketEvent::Poll,
        SocketAction::Fail => SocketEvent::Poll,
    }
}

/// Up to `steps` steps with a socket that does all that it is asked for, until it
/// is read from.
pub open spec fn driven(s: ConnectionState, action: SocketAction, steps: nat) -> (
    ConnectionState,
    SocketAction,
)
    decreases steps,
{
    if steps == 0 || action is Read {
        (s, action)
    } else {
        let (after, next) = stepped(s, willing(action));
        driven(after, next, (steps - 1) as nat)
    }
}

proof fn lemma_driven_from_flushed(s: ConnectionState, steps: nat)
    requires
        s.sending is None,
        s.pending_flush is None,
        !s.needs_flush,
        steps >= 3 * s.pending_commands.len(),
    ensures
        ({
            let (now, action) = after_flush(s);
            let (after, last) = driven(now, action, steps);
            &&& last is Read
            &&& after.pending_commands.len() == 0
            &&& after.sending is None && after.pending_flush is None
        }),
    decreases s.pending_commands.len(),
{
    if s.pending_commands.len() > 0 {
        let (sending, a1) = after_flush(s);
        let (taken, a2) = stepped(sending, willing(a1));
        let (ready, a3) = stepped(taken, willing(a2));
        let (flushed, a4) = stepped(ready, willing(a3));
        let rest = ConnectionState {
            pending_commands: s.pending_commands.skip(1),
            ..s
        };
        assert(after_flush(rest) == (flushed, a4));
        lemma_driven_from_flushed(rest, (steps - 3) as nat);
        reveal_with_fuel(driven, 4);
    }
}

/// With a socket that does all that it is asked for, one poll sends every command
/// that waits, and then reads.
pub proof fn a_willing_socket_drains_the_queue(s: ConnectionState)
    requires
        s.sending is None,
    ensures
        ({
            let (now, action) = stepped(s, SocketEvent::Poll);
            let (after, last) = driven(now, action, 3 * s.pending_commands.len() + 3);
            &&& last is Read
            &&& after.pending_commands.len() == 0
            &&& after.sending is None && after.pending_flush is None
        }),
{
    let (now, action) = stepped(s, SocketEvent::Poll);
    let steps = 3 * s.pending_commands.len() + 3;
    let clean = ConnectionState { needs_flush: false, pending_flush: None, ..s };
    if s.needs_flush {
        let flushed = ConnectionState { needs_flush: false, ..s };
        if s.pending_flush is None {
            lemma_driven_from_flushed(flushed, (steps - 1) as nat);
            reveal_with_fuel(driven, 2);
        } else {
            lemma_driven_from_flushed(clean, (steps - 3) as nat);
            reveal_with_fuel(driven, 4);
        }
    } else if s.pending_flush is Some {
        lemma_driven_from_flushed(clean, (steps - 2) as nat);
        reveal_with_fuel(driven, 3);
    } else {
        lemma_driven_from_flushed(s, steps as nat);
    }
}

/// The number that a command gets which is submitted `n` commands after another.
pub open spec fn number_after(id: int, n: nat) -> int
    decreases n,
{
    if n == 0 {
        id
    } else {
        following(number_after(id, (n - 1) as nat))
    }
}

/// Numbers are counted up, and start again only after all of them have been used:
/// two commands have one number only if there are as many between them as there
/// are numbers.
pub proof fn numbers_repeat_only_after_all_are_used(id: int, n: nat)
    requires
        0 <= id <= usize::MAX,
        0 < n <= usize::MAX,
    ensures
        number_after(id, n) == if id + n <= usize::MAX {
            id + n
        } else {
            id + n - usize::MAX - 1
        },
        number_after(id, n) != id,
    decreases n,
{
    if n > 1 {
        numbers_repeat_only_after_all_are_used(id, (n - 1) as nat);
    } else {
        reveal_with_fuel(number_after, 2);
    }
}

/// What a command is made of, but for its number.
pub struct Submission {
    pub method: String,
    pub session_id: Option<String>,
    pub params: Value,
}

/// The connection after a row of commands has been submitted, each under the number
/// that is next.
pub open spec fn submitted_all(s: ConnectionState, row: Seq<Submission>) -> ConnectionState
    decreases row.len(),
{
    if row.len() == 0 {
        s
    } else {
        let before = submitted_all(s, row.drop_last());
        let last = row.last();
        submitted(
            before,
            CallId { id: before.next_id as usize },
            last.method,
            last.session_id,
            last.params,
        )
    }
}

/// The commands of a row are queued in their order, behind those that wait, and are
/// numbered one after the other.
pub proof fn a_row_of_commands_is_numbered_in_order(s: ConnectionState, row: Seq<Submission>)
    requires
        0 <= s.next_id <= usize::MAX,
    ensures
        ({
            let after = submitted_all(s, row);
            let waiting = s.pending_commands.len();
            &&& after.next_id == number_after(s.next_id, row.len())
            &&& after.pending_commands.len() == waiting + row.len()
            &&& after.pending_commands.take(waiting as int) == s.pending_commands
            &&& forall|i: int|
                0 <= i < row.len() ==> {
                    let call = #[trigger] after.pending_commands[waiting + i];
                    &&& call.id.id == number_after(s.next_id, i as nat)
                    &&& call.method == row[i].method
                    &&& call.session_id == row[i].session_id
                    &&& call.params == row[i].params
                }
        }),
    decreases row.len(),
{
    let after = submitted_all(s, row);
    let waiting = s.pending_commands.len();
    if row.len() == 0 {
        assert(after.pending_commands.take(waiting as int) =~= s.pending_commands);
    } else {
        let shorter = row.drop_last();
        let before = submitted_all(s, shorter);
        a_row_of_commands_is_numbered_in_order(s, shorter);
        lemma_number_in_range(s.next_id, shorter.len());
        assert(after.pending_commands.take(waiting as int) =~= before.pending_commands.take(
            waiting as int,
        ));
        assert forall|i: int| 0 <= i < row.len() implies {
            let call = #[trigger] after.pending_commands[waiting + i];
            &&& call.id.id == number_after(s.next_id, i as nat)
            &&& call.method == row[i].method
            &&& call.session_id == row[i].session_id
            &&& call.params == row[i].params
        } by {
            if i < shorter.len() {
                assert(after.pending_commands[waiting + i] == before.pending_commands[waiting
                    + i]);
                assert(shorter[i] == row[i]);
            }
        }
    }
}

proof fn lemma_number_in_range(id: int, n: nat)
    requires
        0 <= id <= usize::MAX,
    ensures
        0 <= number_after(id, n) <= usize::MAX,
    decreases n,
{
    if n > 0 {
        lemma_number_in_range(id, (n - 1) as nat);
    }
}

proof fn lemma_number_after_sum(id: int, a: nat, b: nat)
    ensures
        number_after(id, a + b) == number_after(number_after(id, a), b),
    decreases b,
{
    if b > 0 {
        lemma_number_after_sum(id, a, (b - 1) as nat);
        assert((a + b - 1) as nat == a + (b - 1) as nat);
    }
}

/// Two commands of a row have different numbers, unless there are as many between
/// them as there are numbers.
pub proof fn commands_of_a_row_have_different_numbers(
    s: ConnectionState,
    row: Seq<Submission>,
    i: int,
    j: int,
)
    requires
        0 <= s.next_id <= usize::MAX,
        0 <= i < j < row.len(),
        j - i <= usize::MAX,
    ensures
        ({
            let calls = submitted_all(s, row).pending_commands;
            let waiting = s.pending_commands.len();
            calls[waiting + i].id != calls[waiting + j].id
        }),
{
    a_row_of_commands_is_numbered_in_order(s, row);
    lemma_number_in_range(s.next_id, i as nat);
    lemma_number_after_sum(s.next_id, i as nat, (j - i) as nat);
    numbers_repeat_only_after_all_are_used(number_after(s.next_id, i as nat), (j - i) as nat);
}

/// A command is queued behind all others as it was given, under its number, and nothing
/// else of the connection changes but for the next number.
pub proof fn a_command_is_queued_as_it_was_given(
    s: ConnectionState,
    id: CallId,
    method: String,
    session_id: Option<String>,
    params: Value,
)
    requires
        0 <= s.next_id <= usize::MAX,
    ensures
        ({
            let after = submitted(s, id, method, session_id, params);
            let last = after.pending_commands.last();
            &&& after.pending_commands.len() == s.pending_commands.len() + 1
            &&& after.pending_commands.drop_last() == s.pending_commands
            &&& last.id == id
            &&& last.method == method
            &&& last.session_id == session_id
            &&& last.params == params
            &&& s.next_id < usize::MAX ==> after.next_id == s.next_id + 1
            &&& s.next_id == usize::MAX ==> after.next_id == 0
            &&& after.needs_flush == s.needs_flush
            &&& after.sending == s.sending
            &&& after.pending_flush == s.pending_flush
        }),
{
    let after = submitted(s, id, method, session_id, params);
    assert(after.pending_commands.drop_last() =~= s.pending_commands);
}

/// A poll flushes first where that is needed. Otherwise it hands over the command that
/// has waited longest, unless one is still with the socket; with none to hand over, the
/// socket is asked about the one that it has, or read from.
pub proof fn a_poll_does_what_is_due(s: ConnectionState)
    ensures
        ({
            let (after, action) = stepped(s, SocketEvent::Poll);
            &&& s.needs_flush ==> action is Flush && after == s
            &&& !s.needs_flush && s.pending_flush is None && s.pending_commands.len() > 0 ==> {
                &&& action is Send
                &&& after.sending == Some(s.pending_commands[0])
                &&& after.pending_commands == s.pending_commands.skip(1)
            }
            &&& !s.needs_flush && s.pending_flush is Some ==> action is PollReady && after == s
            &&& !s.needs_flush && s.pending_flush is None && s.pending_commands.len() == 0
                ==> action is Read && after == s
        }),
{
}

/// A command that the socket has taken is with it until it takes another message; then
/// it is flushed. A command that it has not taken is the end. No other command is
/// touched by either.
pub proof fn a_command_is_taken_and_flushed(s: ConnectionState, call: MethodCall)
    requires
        s.sending == Some(call),
    ensures
        ({
            let (taken, action) = stepped(s, SocketEvent::Sent(true));
            let (ready, flush) = stepped(taken, SocketEvent::Ready(true));
            let (clean, _) = stepped(ready, SocketEvent::Flushed(true));
            let (refused, end) = stepped(s, SocketEvent::Sent(false));
            &&& action is PollReady
            &&& taken.sending is None && taken.pending_flush == Some(call)
            &&& taken.pending_commands == s.pending_commands
            &&& flush is Flush
            &&& ready.pending_flush is None && ready.needs_flush
            &&& ready.pending_commands == s.pending_commands
            &&& !clean.needs_flush && clean.pending_flush is None
            &&& end is Fail && refused.sending is None
            &&& refused.pending_commands == s.pending_commands
        }),
{
}

/// A flush that is not done stays due, and nothing is sent before it is. A socket that
/// does not answer is read from, and nothing changes.
pub proof fn a_flush_stays_due_until_it_is_done(s: ConnectionState)
    requires
        s.needs_flush,
    ensures
        ({
            let (after, action) = stepped(s, SocketEvent::Flushed(false));
            after == s && !(action is Send) && !(action is Fail)
        }),
        ({
            let (after, action) = stepped(s, SocketEvent::Ready(false));
            after == s && action is Read
        }),
{
}

/// What has a method is an event, whatever else it has. What has none is the response to
/// the command whose number it has. Both are handed out whole. Everything else is no
/// message.
pub proof fn messages_are_told_apart_by_their_fields(value: Value)
    ensures
        match (json_field(value, "method"@), json_field(value, "id"@)) {
            (Some(_), _) => message_in(value) == Some(Message::Event(value)),
            (None, Some(id)) => match json_unsigned(id) {
                Some(number) => message_in(value) matches Some(Message::Response(response))
                    && response.id == number && response.value == value,
                None => message_in(value) is None,
            },
            (None, None) => message_in(value) is None,
        },
        message_parsed_as(Some(value)) == message_in(value),
        message_parsed_as(None) is None,
{
}

/// Every message is handed out, and a frame that is none is passed over. A closed socket
/// and one at its end are the end, a failed one fails, one that has nothing yet is
/// waited for, and every other frame is passed over.
pub proof fn what_comes_of_what_was_received(message: Message)
    ensures
        frame_outcome(Some(message)) == Outcome::Deliver(message),
        frame_outcome(None) == Outcome::Again,
        other_outcome(Received::Pending) == Outcome::Wait,
        other_outcome(Received::Close) == Outcome::End,
        other_outcome(Received::End) == Outcome::End,
        other_outcome(Received::Failed) == Outcome::Fail,
        other_outcome(Received::Ping) == Outcome::Again,
        other_outcome(Received::Pong) == Outcome::Again,
        other_outcome(Received::Other) == Outcome::Again,
{
}

/// A frame decodes to its message, and to an error of the parser if it has none.
pub proof fn a_frame_decodes_to_its_message(
    result: Result<Message, CdpError>,
    message: Option<Message>,
)
    requires
        decodes_to(result, message),
    ensures
        message is Some <==> result is Ok,
        result matches Ok(m) ==> message == Some(m),
        result matches Err(error) ==> error is Serde,
{
}

proof fn lemma_depth_within_deepest(bytes: Seq<u8>)
    ensures
        scanned(bytes).depth <= scanned(bytes).deepest,
    decreases bytes.len(),
{
    if bytes.len() > 0 {
        lemma_depth_within_deepest(bytes.drop_last());
    }
}

/// Outside of strings every opening bracket or brace goes one level down, and every
/// closing one that has a counterpart one level up. The deepest level counts.
pub proof fn brackets_outside_of_strings_count(bytes: Seq<u8>, byte: u8)
    requires
        !scanned(bytes).in_string,
    ensures
        nesting(Seq::empty()) == 0,
        ({
            let before = scanned(bytes);
            let after = scanned(bytes.push(byte));
            &&& byte == 0x5b || byte == 0x7b ==> after.depth == before.depth + 1
            &&& (byte == 0x5d || byte == 0x7d) && before.depth > 0 ==> after.depth + 1
                == before.depth
            &&& byte != 0x5b && byte != 0x7b && byte != 0x5d && byte != 0x7d ==> after.depth
                == before.depth
            &&& after.in_string <==> byte == 0x22
            &&& nesting(bytes.push(byte)) == if after.depth > nesting(bytes) {
                after.depth
            } else {
                nesting(bytes)
            }
        }),
{
    lemma_depth_within_deepest(bytes);
    assert(bytes.push(byte).drop_last() =~= bytes);
}

/// Inside of a string nothing counts. It ends with a quotation mark that no backslash
/// escapes.
pub proof fn brackets_inside_of_strings_do_not_count(bytes: Seq<u8>, byte: u8)
    requires
        scanned(bytes).in_string,
    ensures
        scanned(bytes.push(byte)).depth == scanned(bytes).depth,
        nesting(bytes.push(byte)) == nesting(bytes),
        scanned(bytes.push(byte)).in_string <==> byte != 0x22 || scanned(bytes).escaped,
        scanned(bytes.push(byte)).escaped <==> byte == 0x5c && !scanned(bytes).escaped,
{
    assert(bytes.push(byte).drop_last() =~= bytes);
}

} // verus!
