//! The client of the agent server: request and reply framing for one-shot
//! chat, and the persistent streaming session with its end-of-turn rule.
use vstd::prelude::*;
use vstd::string::*;

use crate::json::{json_array_at, json_array_at_of, json_compact, json_compact_of, json_quoted, json_quoted_of, json_text_at, json_text_at_of, opt_text};
use crate::text::{decimal, decimal_text, has_prefix, skip_chars, starts_with, trim_trailing_slashes, without_trailing_slashes};

verus! {

/// The server that an agent talks to when none is given.
pub const DEFAULT_BASE_URL: &'static str = "http://localhost:8000";

/// The request timeout, in seconds, when none is given.
pub const DEFAULT_TIMEOUT_SECS: u64 = 30;

/// An error of the agent client.
#[derive(Debug)]
pub enum NemoAgentError {
    /// The server could not be reached.
    ConnectionError { url: String },
    /// The request outlived the timeout.
    TimeoutError { timeout: u64 },
    /// The server answered with a status other than success.
    HttpError { status: u16, message: String },
    /// The server's reply was not JSON.
    InvalidJsonResponse,
    /// Another failure of the HTTP client.
    RequestError(String),
    /// A failure of the streaming channel.
    WebSocketError(String),
    /// The server address is not a URL.
    UrlError(String),
}

/// The text of an error of the agent client.
pub open spec fn agent_error_text(e: NemoAgentError) -> Seq<char> {
    match e {
        NemoAgentError::ConnectionError { url } => "Unable to connect to NAT server at "@ + url@
            + ". Make sure the server is running with: nat serve --config_file orbit_config.yml"@,
        NemoAgentError::TimeoutError { timeout } => "Request to NAT server timed out after "@
            + decimal(timeout as nat) + " seconds"@,
        NemoAgentError::HttpError { status, message } => "NAT server returned error: "@ + decimal(
            status as nat,
        ) + " - "@ + message@,
        NemoAgentError::InvalidJsonResponse => "NAT server returned invalid JSON response"@,
        NemoAgentError::RequestError(d) => "Request error: "@ + d@,
        NemoAgentError::WebSocketError(d) => "WebSocket error: "@ + d@,
        NemoAgentError::UrlError(d) => "URL parse error: "@ + d@,
    }
}

impl NemoAgentError {
    /// The text of this error.
    pub fn message(&self) -> (r: String)
        ensures
            r@ == agent_error_text(*self),
    {
        match self {
            NemoAgentError::ConnectionError { url } => {
                let mut r = "Unable to connect to NAT server at ".to_owned();
                r.append(url.as_str());
                r.append(
                    ". Make sure the server is running with: nat serve --config_file orbit_config.yml",
                );
                r
            },
            NemoAgentError::TimeoutError { timeout } => {
                let mut r = "Request to NAT server timed out after ".to_owned();
                let n = decimal_text(*timeout);
                r.append(n.as_str());
                r.append(" seconds");
                r
            },
            NemoAgentError::HttpError { status, message } => {
                let mut r = "NAT server returned error: ".to_owned();
                let n = decimal_text(*status as u64);
                r.append(n.as_str());
                r.append(" - ");
                r.append(message.as_str());
                r
            },
            NemoAgentError::InvalidJsonResponse => "NAT server returned invalid JSON response".to_owned(),
            NemoAgentError::RequestError(d) => {
                let mut r = "Request error: ".to_owned();
                r.append(d.as_str());
                r
            },
            NemoAgentError::WebSocketError(d) => {
                let mut r = "WebSocket error: ".to_owned();
                r.append(d.as_str());
                r
            },
            NemoAgentError::UrlError(d) => {
                let mut r = "URL parse error: ".to_owned();
                r.append(d.as_str());
                r
            },
        }
    }
}

/// The lifecycle of the streaming session.
#[derive(PartialEq, Eq, Structural, Debug, Clone, Copy)]
pub enum SessionState {
    Closed,
    Connecting,
    Open,
}

/// What a call to `connect` asks of the caller.
#[derive(Debug)]
pub enum ConnectStep {
    /// The session is open already: nothing to do.
    AlreadyOpen,
    /// Another connect attempt is in flight.
    Busy,
    /// Open a channel to this URL, then report with `finish_connect`.
    Dial(String),
}

/// The state after a connect attempt from `s` whose dial, if one was made,
/// opened a channel or not.
pub open spec fn state_after_connect(s: SessionState, opened: bool) -> SessionState {
    match s {
        SessionState::Closed => if opened {
            SessionState::Open
        } else {
            SessionState::Closed
        },
        _ => s,
    }
}

/// A connect from `s` opens a new channel.
pub open spec fn connect_dials(s: SessionState) -> bool {
    s == SessionState::Closed
}

/// A disconnect from `s` sends a close frame.
pub open spec fn disconnect_sends_close(s: SessionState) -> bool {
    s == SessionState::Open
}

/// The server address with `http` schemes turned into their streaming ones.
pub open spec fn stream_scheme(base: Seq<char>) -> Seq<char> {
    if has_prefix(base, "http://"@) {
        "ws://"@ + base.subrange(7, base.len() as int)
    } else if has_prefix(base, "https://"@) {
        "wss://"@ + base.subrange(8, base.len() as int)
    } else {
        base
    }
}

/// A client of the agent server.
#[derive(Debug)]
pub struct NemoAgent {
    base_url: String,
    timeout_secs: u64,
    state: SessionState,
}

impl NemoAgent {
    /// The server address, without trailing slashes.
    pub closed spec fn base_url_spec(&self) -> Seq<char> {
        self.base_url@
    }

    /// The request timeout in seconds.
    pub closed spec fn timeout_spec(&self) -> u64 {
        self.timeout_secs
    }

    /// The state of the streaming session.
    pub closed spec fn state_spec(&self) -> SessionState {
        self.state
    }

    /// A client of the server at `base_url` (by default the local one) with
    /// requests limited to `timeout_secs` (by default thirty seconds). The
    /// session starts closed.
    pub fn new(base_url: Option<String>, timeout_secs: Option<u64>) -> (r: Self)
        ensures
            base_url matches Some(u) ==> r.base_url_spec() == without_trailing_slashes(u@),
            base_url is None ==> r.base_url_spec() == without_trailing_slashes(DEFAULT_BASE_URL@),
            r.timeout_spec() == match timeout_secs {
                Some(t) => t,
                None => DEFAULT_TIMEOUT_SECS,
            },
            r.state_spec() == SessionState::Closed,
    {
        let base = match base_url {
            Some(u) => trim_trailing_slashes(u.as_str()),
            None => trim_trailing_slashes(DEFAULT_BASE_URL),
        };
        let timeout_secs = match timeout_secs {
            Some(t) => t,
            None => DEFAULT_TIMEOUT_SECS,
        };
        NemoAgent { base_url: base, timeout_secs, state: SessionState::Closed }
    }

    /// The server address, without trailing slashes.
    pub fn base_url(&self) -> (r: &str)
        ensures
            r@ == self.base_url_spec(),
    {
        self.base_url.as_str()
    }

    /// The request timeout in seconds.
    pub fn timeout_secs(&self) -> (r: u64)
        ensures
            r == self.timeout_spec(),
    {
        self.timeout_secs
    }

    /// The state of the streaming session.
    pub fn state(&self) -> (r: SessionState)
        ensures
            r == self.state_spec(),
    {
        self.state
    }

    /// Where one-shot chat requests are posted.
    pub fn chat_url(&self) -> (r: String)
        ensures
            r@ == self.base_url_spec() + "/chat"@,
    {
        let mut r = self.base_url.as_str().to_owned();
        r.append("/chat");
        r
    }

    /// Where the server reports its health.
    pub fn health_url(&self) -> (r: String)
        ensures
            r@ == self.base_url_spec() + "/health"@,
    {
        let mut r = self.base_url.as_str().to_owned();
        r.append("/health");
        r
    }

    /// Where the streaming session connects.
    pub fn websocket_url(&self) -> (r: String)
        ensures
            r@ == stream_scheme(self.base_url_spec()) + "/websocket"@,
    {
        let base = self.base_url.as_str();
        proof {
            reveal_strlit("http://");
            reveal_strlit("https://");
        }
        let mut r = if starts_with(base, "http://") {
            let mut s = "ws://".to_owned();
            let rest = skip_chars(base, 7);
            s.append(rest.as_str());
            s
        } else if starts_with(base, "https://") {
            let mut s = "wss://".to_owned();
            let rest = skip_chars(base, 8);
            s.append(rest.as_str());
            s
        } else {
            base.to_owned()
        };
        r.append("/websocket");
        r
    }

    /// Starts opening the streaming session. Only a closed session dials; an
    /// open one stays as it is, and only one attempt is in flight at a time.
    pub fn connect(&mut self) -> (r: ConnectStep)
        ensures
            final(self).base_url_spec() == old(self).base_url_spec(),
            final(self).timeout_spec() == old(self).timeout_spec(),
            old(self).state_spec() == SessionState::Open ==> r is AlreadyOpen && final(self).state_spec()
                == SessionState::Open,
            old(self).state_spec() == SessionState::Connecting ==> r is Busy && final(self).state_spec()
                == SessionState::Connecting,
            old(self).state_spec() == SessionState::Closed ==> final(self).state_spec()
                == SessionState::Connecting && (r matches ConnectStep::Dial(u) && u@ == stream_scheme(
                old(self).base_url_spec(),
            ) + "/websocket"@),
    {
        match self.state {
            SessionState::Open => ConnectStep::AlreadyOpen,
            SessionState::Connecting => ConnectStep::Busy,
            SessionState::Closed => {
                self.state = SessionState::Connecting;
                ConnectStep::Dial(self.websocket_url())
            },
        }
    }

    /// Ends the connect attempt in flight: open when the channel opened,
    /// closed otherwise.
    pub fn finish_connect(&mut self, opened: bool)
        requires
            old(self).state_spec() == SessionState::Connecting,
        ensures
            final(self).base_url_spec() == old(self).base_url_spec(),
            final(self).timeout_spec() == old(self).timeout_spec(),
            final(self).state_spec() == state_after_connect(SessionState::Closed, opened),
    {
        self.state = if opened {
            SessionState::Open
        } else {
            SessionState::Closed
        };
    }

    /// Closes the session. Returns whether the caller must send a close frame:
    /// only an open session has a channel to close.
    pub fn disconnect(&mut self) -> (send_close: bool)
        ensures
            final(self).base_url_spec() == old(self).base_url_spec(),
            final(self).timeout_spec() == old(self).timeout_spec(),
            final(self).state_spec() == SessionState::Closed,
            send_close == disconnect_sends_close(old(self).state_spec()),
    {
        let send_close = self.state == SessionState::Open;
        self.state = SessionState::Closed;
        send_close
    }

    /// The channel ended: the peer closed it or it failed. The next turn
    /// connects afresh.
    pub fn channel_lost(&mut self)
        ensures
            final(self).base_url_spec() == old(self).base_url_spec(),
            final(self).timeout_spec() == old(self).timeout_spec(),
            final(self).state_spec() == SessionState::Closed,
    {
        self.state = SessionState::Closed;
    }
}

impl Default for NemoAgent {
    /// A client of the local server with the default timeout.
    fn default() -> (r: Self)
        ensures
            r.base_url_spec() == without_trailing_slashes(DEFAULT_BASE_URL@),
            r.timeout_spec() == DEFAULT_TIMEOUT_SECS,
            r.state_spec() == SessionState::Closed,
    {
        NemoAgent::new(None, None)
    }
}

/// Connect and disconnect are idempotent: once a connect has opened the
/// session, a second connect dials nothing and leaves it open; after a
/// disconnect, a second one finds the session closed, sends no close frame
/// and leaves it closed.
pub proof fn law_idempotent_connect_disconnect(s: SessionState, opened: bool)
    requires
        s != SessionState::Connecting,
    ensures
        state_after_connect(s, true) == SessionState::Open,
        !connect_dials(state_after_connect(s, true)),
        state_after_connect(state_after_connect(s, true), opened) == SessionState::Open,
        !disconnect_sends_close(SessionState::Closed),
{
}

/// Whether an HTTP status reports success.
pub fn is_success_status(status: u16) -> (r: bool)
    ensures
        r == (200 <= status && status <= 299),
{
    200 <= status && status <= 299
}

/// The body of a one-shot chat request, given the message and the
/// conversation id already written as JSON string literals.
pub open spec fn chat_body(quoted_message: Seq<char>, quoted_conversation: Option<Seq<char>>) -> Seq<char> {
    "{\"model\":\"orbit-ai\",\"messages\":[{\"role\":\"user\",\"content\":"@ + quoted_message
        + "}],\"temperature\":0.1,\"max_tokens\":1000"@ + match quoted_conversation {
        Some(c) => ",\"conversation_id\":"@ + c,
        None => ""@,
    } + "}"@
}

/// Each text of `o` as a JSON string literal.
pub open spec fn opt_quoted(o: Option<Seq<char>>) -> Option<Seq<char>> {
    match o {
        Some(s) => Some(json_quoted_of(s)),
        None => None,
    }
}

/// The body of a one-shot chat request.
pub open spec fn chat_payload_for(message: Seq<char>, conversation_id: Option<Seq<char>>) -> Seq<char> {
    chat_body(json_quoted_of(message), opt_quoted(conversation_id))
}

/// The view of an optional borrowed string.
pub open spec fn opt_str(o: Option<&str>) -> Option<Seq<char>> {
    match o {
        Some(s) => Some(s@),
        None => None,
    }
}

/// The JSON body of a one-shot chat request from the message and the
/// conversation id already written as JSON string literals.
pub fn chat_body_from_quoted(quoted_message: &str, quoted_conversation: Option<&str>) -> (r: String)
    ensures
        r@ == chat_body(quoted_message@, opt_str(quoted_conversation)),
{
    let mut r = "{\"model\":\"orbit-ai\",\"messages\":[{\"role\":\"user\",\"content\":".to_owned();
    r.append(quoted_message);
    r.append("}],\"temperature\":0.1,\"max_tokens\":1000");
    let ghost head = r@;
    match quoted_conversation {
        Some(c) => {
            r.append(",\"conversation_id\":");
            r.append(c);
            proof {
                assert(r@ =~= head + (",\"conversation_id\":"@ + c@));
            }
        },
        None => {
            proof {
                reveal_strlit("");
                assert(r@ =~= head + ""@);
            }
        },
    }
    r.append("}");
    r
}

/// The JSON body of a one-shot chat request for `message`, tagged with the
/// conversation when one is given.
pub fn chat_payload(message: &str, conversation_id: Option<&str>) -> (r: String)
    ensures
        r@ == chat_payload_for(message@, opt_str(conversation_id)),
{
    let m = json_quoted(message);
    match conversation_id {
        Some(c) => {
            let q = json_quoted(c);
            chat_body_from_quoted(m.as_str(), Some(q.as_str()))
        },
        None => chat_body_from_quoted(m.as_str(), None),
    }
}

/// The answer in a reply, from the compact form of the reply (`None` when it
/// is not JSON) and the strings found at the places an answer may stand, in
/// order of preference; a reply that holds none of them answers with its own
/// compact text.
pub open spec fn reply_for(
    compact: Option<Seq<char>>,
    choices: Option<Seq<char>>,
    nested_choices: Option<Seq<char>>,
    value: Option<Seq<char>>,
    response: Option<Seq<char>>,
) -> Option<Seq<char>> {
    match compact {
        None => None,
        Some(c) => if choices is Some {
            choices
        } else if nested_choices is Some {
            nested_choices
        } else if value is Some {
            value
        } else if response is Some {
            response
        } else {
            Some(c)
        },
    }
}

/// Picks the answer of a reply from what was found in it.
pub fn select_reply(
    compact: Option<String>,
    choices: Option<String>,
    nested_choices: Option<String>,
    value: Option<String>,
    response: Option<String>,
) -> (r: Option<String>)
    ensures
        opt_text(r) == reply_for(
            opt_text(compact),
            opt_text(choices),
            opt_text(nested_choices),
            opt_text(value),
            opt_text(response),
        ),
{
    match compact {
        None => None,
        Some(c) => if choices.is_some() {
            choices
        } else if nested_choices.is_some() {
            nested_choices
        } else if value.is_some() {
            value
        } else if response.is_some() {
            response
        } else {
            Some(c)
        },
    }
}

pub const CHOICES_POINTER: &'static str = "/choices/0/message/content";
pub const NESTED_CHOICES_POINTER: &'static str = "/value/choices/0/message/content";

/// Where the list of choices stands, and where it stands inside a value.
pub const CHOICES_LIST_POINTER: &'static str = "/choices";
pub const NESTED_CHOICES_LIST_POINTER: &'static str = "/value/choices";

/// The string at `pointer` under a list of choices at `list`: only an array
/// of choices is read.
pub open spec fn choice_text_of(body: Seq<char>, list: Seq<char>, pointer: Seq<char>) -> Option<Seq<char>> {
    if json_array_at_of(body, list) {
        json_text_at_of(body, pointer)
    } else {
        None
    }
}

/// Reads the string at `pointer` under the list of choices at `list`.
pub fn choice_text(found_array: bool, text: Option<String>) -> (r: Option<String>)
    ensures
        opt_text(r) == if found_array {
            opt_text(text)
        } else {
            None
        },
{
    if found_array {
        text
    } else {
        None
    }
}
pub const VALUE_POINTER: &'static str = "/value";
pub const RESPONSE_POINTER: &'static str = "/response";

/// The answer in the reply body `body`.
pub open spec fn reply_text_of(body: Seq<char>) -> Option<Seq<char>> {
    reply_for(
        json_compact_of(body),
        choice_text_of(body, CHOICES_LIST_POINTER@, CHOICES_POINTER@),
        choice_text_of(body, NESTED_CHOICES_LIST_POINTER@, NESTED_CHOICES_POINTER@),
        json_text_at_of(body, VALUE_POINTER@),
        json_text_at_of(body, RESPONSE_POINTER@),
    )
}

/// The result of a one-shot chat request that the server answered with
/// `status` and `body`.
pub fn chat_reply(status: u16, body: String) -> (r: Result<String, NemoAgentError>)
    ensures
        !(200 <= status && status <= 299) ==> r == Err::<String, NemoAgentError>(
            (NemoAgentError::HttpError { status, message: body }),
        ),
        200 <= status && status <= 299 && reply_text_of(body@) is None ==> r == Err::<
            String,
            NemoAgentError,
        >(NemoAgentError::InvalidJsonResponse),
        200 <= status && status <= 299 && reply_text_of(body@) is Some ==> (r matches Ok(t) && t@
            == reply_text_of(body@)->Some_0),
{
    if !is_success_status(status) {
        return Err(NemoAgentError::HttpError { status, message: body });
    }
    let b = body.as_str();
    let found = select_reply(
        json_compact(b),
        choice_text(json_array_at(b, CHOICES_LIST_POINTER), json_text_at(b, CHOICES_POINTER)),
        choice_text(json_array_at(b, NESTED_CHOICES_LIST_POINTER), json_text_at(b, NESTED_CHOICES_POINTER)),
        json_text_at(b, VALUE_POINTER),
        json_text_at(b, RESPONSE_POINTER),
    );
    match found {
        Some(t) => Ok(t),
        None => Err(NemoAgentError::InvalidJsonResponse),
    }
}

/// How an HTTP request failed before the server answered.
#[derive(Debug)]
pub enum TransportFailure {
    Connect,
    Timeout,
    Other(String),
}

impl NemoAgent {
    /// The error reported for a request that failed before the server answered.
    pub fn transport_error(&self, failure: TransportFailure) -> (r: NemoAgentError)
        ensures
            failure is Connect ==> (r is ConnectionError && r->url@ == self.base_url_spec()),
            failure is Timeout ==> r == (NemoAgentError::TimeoutError { timeout: self.timeout_spec() }),
            failure matches TransportFailure::Other(d) ==> r == NemoAgentError::RequestError(d),
    {
        match failure {
            TransportFailure::Connect => NemoAgentError::ConnectionError {
                url: self.base_url.as_str().to_owned(),
            },
            TransportFailure::Timeout => NemoAgentError::TimeoutError { timeout: self.timeout_secs },
            TransportFailure::Other(d) => NemoAgentError::RequestError(d),
        }
    }
}

/// The id of an outgoing message sent at `millis` since the epoch.
pub fn message_id(millis: u64) -> (r: String)
    ensures
        r@ == "msg-"@ + decimal(millis as nat),
{
    let mut r = "msg-".to_owned();
    let n = decimal_text(millis);
    r.append(n.as_str());
    r
}

/// The envelope of one user turn, given the message id, the conversation
/// id, the text and the timestamp already written as JSON string literals;
/// a turn outside any conversation carries `null`.
pub open spec fn envelope_body(
    quoted_id: Seq<char>,
    quoted_conversation: Option<Seq<char>>,
    quoted_message: Seq<char>,
    quoted_timestamp: Seq<char>,
) -> Seq<char> {
    "{\"type\":\"user_message\",\"schema_type\":\"chat\",\"id\":"@ + quoted_id + ",\"conversation_id\":"@
        + match quoted_conversation {
        Some(c) => c,
        None => "null"@,
    } + ",\"content\":{\"messages\":[{\"role\":\"user\",\"content\":[{\"type\":\"text\",\"text\":"@
        + quoted_message + "}]}]},\"user\":{\"name\":\"rust-client\",\"email\":\"default\"},"@
        + "\"security\":{},\"error\":{},\"schema_version\":\"1.0.0\",\"timestamp\":"@ + quoted_timestamp
        + "}"@
}

/// The envelope of one user turn on the streaming session.
pub open spec fn envelope_for(
    message: Seq<char>,
    conversation_id: Option<Seq<char>>,
    id: Seq<char>,
    timestamp: Seq<char>,
) -> Seq<char> {
    envelope_body(json_quoted_of(id), opt_quoted(conversation_id), json_quoted_of(message), json_quoted_of(timestamp))
}

/// The JSON envelope of a user turn from its parts already written as JSON
/// string literals.
pub fn envelope_from_quoted(
    quoted_id: &str,
    quoted_conversation: Option<&str>,
    quoted_message: &str,
    quoted_timestamp: &str,
) -> (r: String)
    ensures
        r@ == envelope_body(quoted_id@, opt_str(quoted_conversation), quoted_message@, quoted_timestamp@),
{
    let mut r = "{\"type\":\"user_message\",\"schema_type\":\"chat\",\"id\":".to_owned();
    r.append(quoted_id);
    r.append(",\"conversation_id\":");
    match quoted_conversation {
        Some(c) => r.append(c),
        None => r.append("null"),
    }
    r.append(",\"content\":{\"messages\":[{\"role\":\"user\",\"content\":[{\"type\":\"text\",\"text\":");
    r.append(quoted_message);
    r.append("}]}]},\"user\":{\"name\":\"rust-client\",\"email\":\"default\"},");
    r.append("\"security\":{},\"error\":{},\"schema_version\":\"1.0.0\",\"timestamp\":");
    r.append(quoted_timestamp);
    r.append("}");
    r
}

/// The JSON envelope of a user turn: the message id `id`, the conversation,
/// the text as the user's content, the sender, the schema version and the
/// RFC 3339 `timestamp`.
pub fn user_envelope(message: &str, conversation_id: Option<&str>, id: &str, timestamp: &str) -> (r: String)
    ensures
        r@ == envelope_for(message@, opt_str(conversation_id), id@, timestamp@),
{
    let qi = json_quoted(id);
    let qm = json_quoted(message);
    let qt = json_quoted(timestamp);
    match conversation_id {
        Some(c) => {
            let qc = json_quoted(c);
            envelope_from_quoted(qi.as_str(), Some(qc.as_str()), qm.as_str(), qt.as_str())
        },
        None => envelope_from_quoted(qi.as_str(), None, qm.as_str(), qt.as_str()),
    }
}

/// What the streaming channel delivered.
#[derive(Debug)]
pub enum Frame {
    /// A text frame.
    Text(String),
    /// The peer closed the channel.
    Close,
    /// Any other frame (binary, ping, pong).
    Other,
}

/// What a frame means for the turn being read.
#[derive(Debug)]
pub enum FrameKind {
    /// The end-of-turn marker.
    Complete,
    /// One piece of the answer.
    Chunk(String),
    /// A frame that carries nothing for the turn, or that is not an envelope.
    Skip,
    /// The peer closed the channel.
    PeerClosed,
}

pub const STATUS_POINTER: &'static str = "/status";
pub const PAYLOAD_POINTER: &'static str = "/content/payload";

/// The status that marks the end of a turn.
pub const COMPLETE_STATUS: &'static str = "complete";

/// The meaning of a text frame whose envelope holds the status `status` and
/// the payload `payload`, each `None` when absent.
pub open spec fn text_frame_kind_holds(status: Option<Seq<char>>, payload: Option<Seq<char>>, k: FrameKind) -> bool {
    if status == Some(COMPLETE_STATUS@) {
        k is Complete
    } else if payload is Some {
        k is Chunk && k->Chunk_0@ == payload->Some_0
    } else {
        k is Skip
    }
}

/// The meaning of a text frame, from the status and payload found in it. The
/// completion marker wins over a payload.
pub fn text_frame_kind(status: Option<String>, payload: Option<String>) -> (r: FrameKind)
    ensures
        text_frame_kind_holds(opt_text(status), opt_text(payload), r),
{
    let complete = match &status {
        Some(st) => crate::text::same_text(st.as_str(), COMPLETE_STATUS),
        None => false,
    };
    if complete {
        FrameKind::Complete
    } else {
        match payload {
            Some(p) => FrameKind::Chunk(p),
            None => FrameKind::Skip,
        }
    }
}

/// The meaning of a frame. A text frame that is not a JSON envelope holds no
/// status and no payload, and is skipped.
pub fn classify_frame(frame: Frame) -> (r: FrameKind)
    ensures
        frame is Close ==> r is PeerClosed,
        frame is Other ==> r is Skip,
        frame matches Frame::Text(t) ==> text_frame_kind_holds(
            json_text_at_of(t@, STATUS_POINTER@),
            json_text_at_of(t@, PAYLOAD_POINTER@),
            r,
        ),
{
    match frame {
        Frame::Text(t) => {
            let status = json_text_at(t.as_str(), STATUS_POINTER);
            let payload = json_text_at(t.as_str(), PAYLOAD_POINTER);
            text_frame_kind(status, payload)
        },
        Frame::Close => FrameKind::PeerClosed,
        Frame::Other => FrameKind::Skip,
    }
}

/// A frame of this kind ends the turn.
pub open spec fn ends_turn(k: FrameKind) -> bool {
    k is Complete || k is PeerClosed
}

/// Some frame of `kinds` ended the turn.
pub open spec fn turn_ended(kinds: Seq<FrameKind>) -> bool {
    exists|i: int| 0 <= i < kinds.len() && ends_turn(kinds[i])
}

/// The chunks of a turn that received `kinds`: those that came before the
/// turn ended, in order.
pub open spec fn turn_chunks(kinds: Seq<FrameKind>) -> Seq<Seq<char>>
    decreases kinds.len(),
{
    if kinds.len() == 0 {
        Seq::empty()
    } else {
        let prev = kinds.drop_last();
        if turn_ended(prev) {
            turn_chunks(prev)
        } else {
            match kinds.last() {
                FrameKind::Chunk(c) => turn_chunks(prev).push(c@),
                _ => turn_chunks(prev),
            }
        }
    }
}

/// The chunks joined in order.
pub open spec fn joined(chunks: Seq<Seq<char>>) -> Seq<char>
    decreases chunks.len(),
{
    if chunks.len() == 0 {
        Seq::empty()
    } else {
        joined(chunks.drop_last()) + chunks.last()
    }
}

/// End of turn: once the completion marker arrives, later frames add
/// nothing to the turn, which holds the chunks received before it in order.
pub proof fn law_end_of_turn(before: Seq<FrameKind>, after: Seq<FrameKind>)
    requires
        !turn_ended(before),
    ensures
        turn_ended(before.push(FrameKind::Complete) + after),
        turn_chunks(before.push(FrameKind::Complete) + after) == turn_chunks(before),
    decreases after.len(),
{
    let s = before.push(FrameKind::Complete) + after;
    assert(s[before.len() as int] is Complete);
    if after.len() == 0 {
        assert(s =~= before.push(FrameKind::Complete));
        assert(s.drop_last() =~= before);
    } else {
        law_end_of_turn(before, after.drop_last());
        assert(s.drop_last() =~= before.push(FrameKind::Complete) + after.drop_last());
    }
}

/// The answer of one streamed turn, read frame by frame.
pub struct StreamTurn {
    text: String,
    ended: bool,
    seen: Ghost<Seq<FrameKind>>,
}

impl StreamTurn {
    /// The kinds of the frames read so far, in order.
    pub closed spec fn seen(&self) -> Seq<FrameKind> {
        self.seen@
    }

    /// The text accumulated so far.
    pub closed spec fn text_spec(&self) -> Seq<char> {
        self.text@
    }

    /// The turn was marked over.
    pub closed spec fn ended_spec(&self) -> bool {
        self.ended
    }

    /// The turn is over exactly when a frame ended it, and its text is its
    /// chunks joined in order.
    pub open spec fn wf(&self) -> bool {
        &&& self.ended_spec() == turn_ended(self.seen())
        &&& self.text_spec() == joined(turn_chunks(self.seen()))
    }

    /// A turn before its first frame.
    pub fn new() -> (r: Self)
        ensures
            r.wf(),
            r.seen() == Seq::<FrameKind>::empty(),
            r.text_spec() == Seq::<char>::empty(),
    {
        StreamTurn { text: String::new(), ended: false, seen: Ghost(Seq::empty()) }
    }

    /// Whether the turn has ended: no further frame is read.
    pub fn is_over(&self) -> (r: bool)
        requires
            self.wf(),
        ensures
            r == turn_ended(self.seen()),
    {
        self.ended
    }

    /// Takes the next frame of the turn. Returns the chunk to hand to the
    /// caller's sink, if the frame is one.
    pub fn on_frame(&mut self, kind: FrameKind) -> (r: Option<String>)
        requires
            old(self).wf(),
            !turn_ended(old(self).seen()),
        ensures
            final(self).wf(),
            final(self).seen() == old(self).seen().push(kind),
            final(self).text_spec() == joined(turn_chunks(final(self).seen())),
            kind is Chunk ==> (r matches Some(c) && c@ == kind->Chunk_0@),
            !(kind is Chunk) ==> r is None,
    {
        let ghost before = self.seen@;
        let ghost after = before.push(kind);
        proof {
            assert(after.drop_last() =~= before);
            assert(after.last() == kind);
        }
        let r = match kind {
            FrameKind::Chunk(c) => {
                self.text.append(c.as_str());
                Some(c)
            },
            FrameKind::Complete => {
                self.ended = true;
                None
            },
            FrameKind::PeerClosed => {
                self.ended = true;
                None
            },
            FrameKind::Skip => None,
        };
        self.seen = Ghost(after);
        proof {
            if ends_turn(kind) {
                assert(ends_turn(after[before.len() as int]));
            }
            if turn_ended(after) && !ends_turn(kind) {
                let i = choose|i: int| 0 <= i < after.len() && ends_turn(after[i]);
                assert(i < before.len());
                assert(before[i] == after[i]);
            }
            if kind is Chunk {
                let ch = turn_chunks(after);
                assert(ch.drop_last() =~= turn_chunks(before));
            }
        }
        r
    }

    /// The text accumulated so far.
    pub fn text(&self) -> (r: &str)
        ensures
            r@ == self.text_spec(),
    {
        self.text.as_str()
    }
}

impl NemoAgent {
    /// Reads the next frame of `turn` on the session. A peer that closes the
    /// channel closes the session; any other frame leaves it as it is.
    /// Returns the chunk to hand to the caller's sink, if the frame is one.
    pub fn read_frame(&mut self, turn: &mut StreamTurn, kind: FrameKind) -> (r: Option<String>)
        requires
            old(turn).wf(),
            !turn_ended(old(turn).seen()),
        ensures
            final(turn).wf(),
            final(turn).seen() == old(turn).seen().push(kind),
            kind is Chunk ==> (r matches Some(c) && c@ == kind->Chunk_0@),
            !(kind is Chunk) ==> r is None,
            kind is PeerClosed ==> final(self).state_spec() == SessionState::Closed,
            !(kind is PeerClosed) ==> final(self).state_spec() == old(self).state_spec(),
            final(self).base_url_spec() == old(self).base_url_spec(),
            final(self).timeout_spec() == old(self).timeout_spec(),
    {
        let closed = match &kind {
            FrameKind::PeerClosed => true,
            _ => false,
        };
        let r = turn.on_frame(kind);
        if closed {
            self.state = SessionState::Closed;
        }
        r
    }

    /// The channel failed while a turn was sent or read: the session closes,
    /// so that the next turn connects afresh, and the turn fails with the
    /// channel's error.
    pub fn stream_failed(&mut self, detail: String) -> (r: NemoAgentError)
        ensures
            r == NemoAgentError::WebSocketError(detail),
            final(self).state_spec() == SessionState::Closed,
            final(self).base_url_spec() == old(self).base_url_spec(),
            final(self).timeout_spec() == old(self).timeout_spec(),
    {
        self.state = SessionState::Closed;
        NemoAgentError::WebSocketError(detail)
    }
}

/// Begins a data line of a server-sent event stream.
pub const SSE_DATA_PREFIX: &'static str = "data: ";

/// The data item that ends a streamed completion.
pub const STREAM_DONE: &'static str = "[DONE]";

/// Where a streamed completion puts the next piece of text.
pub const DELTA_POINTER: &'static str = "/choices/0/delta/content";

/// The data of a line of a server-sent event stream, if it is a data line.
pub fn sse_data(line: &str) -> (r: Option<String>)
    ensures
        has_prefix(line@, SSE_DATA_PREFIX@) ==> (r matches Some(d) && d@ == line@.subrange(
            SSE_DATA_PREFIX@.len() as int,
            line@.len() as int,
        )),
        !has_prefix(line@, SSE_DATA_PREFIX@) ==> r is None,
{
    if starts_with(line, SSE_DATA_PREFIX) {
        proof {
            reveal_strlit("data: ");
        }
        Some(skip_chars(line, 6))
    } else {
        None
    }
}

/// The meaning of one data item of a streamed completion: the end marker
/// ends the turn, and the text at the first choice's delta is a chunk.
pub open spec fn completion_item_holds(data: Seq<char>, k: FrameKind) -> bool {
    if data == STREAM_DONE@ {
        k is Complete
    } else if choice_text_of(data, CHOICES_LIST_POINTER@, DELTA_POINTER@) is Some {
        k is Chunk && k->Chunk_0@ == choice_text_of(data, CHOICES_LIST_POINTER@, DELTA_POINTER@)->Some_0
    } else {
        k is Skip
    }
}

/// Reads one data item of a streamed completion from the model provider.
pub fn completion_item(data: &str) -> (r: FrameKind)
    ensures
        completion_item_holds(data@, r),
{
    if crate::text::same_text(data, STREAM_DONE) {
        return FrameKind::Complete;
    }
    match choice_text(json_array_at(data, CHOICES_LIST_POINTER), json_text_at(data, DELTA_POINTER)) {
        Some(c) => FrameKind::Chunk(c),
        None => FrameKind::Skip,
    }
}

} // verus!
