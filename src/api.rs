use vstd::prelude::*;
use vstd::string::*;
use crate::text::{contains, has_infix, join, joined, occurs_at};

verus! {

#[derive(Clone, Copy, Debug, PartialEq, Eq, Structural)]
pub enum ApiErrorKind {
    /// The request could not be sent, or the reply could not be received.
    Transport,
    /// The body of the reply could not be read.
    Decode,
    /// The endpoint answered with an error, or with a failure status.
    Remote,
    /// A successful reply did not have the expected shape.
    Parse,
}

/// A failed call: its kind and the message to report.
pub struct ApiError {
    pub kind: ApiErrorKind,
    pub message: String,
}

impl View for ApiError {
    type V = (ApiErrorKind, Seq<char>);

    open spec fn view(&self) -> (ApiErrorKind, Seq<char>) {
        (self.kind, self.message@)
    }
}

#[derive(Clone, Copy, Debug, PartialEq, Eq, Structural)]
pub enum Role {
    System,
    User,
    Assistant,
}

pub open spec fn role_name(r: Role) -> Seq<char> {
    match r {
        Role::System => "system"@,
        Role::User => "user"@,
        Role::Assistant => "assistant"@,
    }
}

impl Role {
    pub fn name(&self) -> (r: &'static str)
        ensures
            r@ == role_name(*self),
    {
        match self {
            Role::System => "system",
            Role::User => "user",
            Role::Assistant => "assistant",
        }
    }
}

pub struct ChatMessage {
    pub role: Role,
    pub content: String,
}

/// One request to the chat-completion endpoint. It is always sent with temperature 0.3.
pub struct ChatRequest {
    pub model: String,
    pub messages: Vec<ChatMessage>,
    pub stream: bool,
}

pub open spec fn hex_digit(n: u32) -> char {
    seq!['0', '1', '2', '3', '4', '5', '6', '7', '8', '9', 'a', 'b', 'c', 'd', 'e', 'f'][n as int]
}

/// How one character stands inside a JSON string: a quote, a backslash and the control
/// characters below U+0020 are escaped, short forms first; every other character stands
/// as it is.
pub open spec fn escaped_char(c: char) -> Seq<char> {
    let u = c as u32;
    if c == '"' {
        seq!['\\', '"']
    } else if c == '\\' {
        seq!['\\', '\\']
    } else if u == 0x8 {
        seq!['\\', 'b']
    } else if u == 0x9 {
        seq!['\\', 't']
    } else if u == 0xa {
        seq!['\\', 'n']
    } else if u == 0xc {
        seq!['\\', 'f']
    } else if u == 0xd {
        seq!['\\', 'r']
    } else if u < 0x20 {
        seq!['\\', 'u', '0', '0', hex_digit(u / 16), hex_digit(u % 16)]
    } else {
        seq![c]
    }
}

pub open spec fn escaped(s: Seq<char>) -> Seq<char>
    decreases s.len(),
{
    if s.len() == 0 {
        Seq::empty()
    } else {
        escaped(s.drop_last()) + escaped_char(s.last())
    }
}

/// The JSON string literal of `s`.
pub open spec fn json_string_of(s: Seq<char>) -> Seq<char> {
    seq!['"'] + escaped(s) + seq!['"']
}

#[verifier::external_type_specification]
#[verifier::external_body]
pub struct ExJsonError(serde_json::Error);

/// Relies on `serde_json::to_string` applied to a string slice: it writes the string
/// between quotes, escaped by its `ESCAPE` table and `write_char_escape`, into a `Vec`,
/// which cannot fail.
#[verifier::external_body]
fn json_quote(s: &str) -> (r: Result<String, serde_json::Error>)
    ensures
        r is Ok,
        r matches Ok(q) ==> q@ == json_string_of(s@),
{
    serde_json::to_string(s)
}

pub open spec fn message_json(role: Role, content_q: Seq<char>) -> Seq<char> {
    "{\"role\":\""@ + role_name(role) + "\",\"content\":"@ + content_q + "}"@
}

pub open spec fn encoded_message(m: ChatMessage) -> Seq<char> {
    message_json(m.role, json_string_of(m.content@))
}

pub open spec fn messages_json(ms: Seq<ChatMessage>) -> Seq<char> {
    joined(ms.map_values(|m: ChatMessage| encoded_message(m)), ","@)
}

pub open spec fn stream_flag(stream: bool) -> Seq<char> {
    if stream {
        "true"@
    } else {
        "false"@
    }
}

/// The body of a request, given the encoded model name and the encoded messages.
pub open spec fn request_json(model_q: Seq<char>, messages: Seq<char>, stream: bool) -> Seq<char> {
    "{\"model\":"@ + model_q + ",\"messages\":["@ + messages + "],\"temperature\":0.3,\"stream\":"@
        + stream_flag(stream) + "}"@
}

/// The body of the request that asks `model` about `user` under the instructions `system`.
pub open spec fn chat_body(system: Seq<char>, user: Seq<char>, model: Seq<char>, stream: bool) -> Seq<
    char,
> {
    request_json(
        json_string_of(model),
        message_json(Role::System, json_string_of(system)) + ","@ + message_json(
            Role::User,
            json_string_of(user),
        ),
        stream,
    )
}

/// The JSON object of one message whose content is already encoded as `content_q`.
pub fn message_json_text(role: Role, content_q: &str) -> (r: String)
    ensures
        r@ == message_json(role, content_q@),
{
    let mut r = String::from_str("{\"role\":\"");
    r.append(role.name());
    r.append("\",\"content\":");
    r.append(content_q);
    r.append("}");
    r
}

/// The request body around an encoded model name and the encoded message objects.
pub fn request_json_text(model_q: &str, messages: &Vec<String>, stream: bool) -> (r: String)
    ensures
        r@ == request_json(model_q@, joined(messages.deep_view(), ","@), stream),
{
    let list = join(messages, ",");
    let mut r = String::from_str("{\"model\":");
    r.append(model_q);
    r.append(",\"messages\":[");
    r.append(list.as_str());
    r.append("],\"temperature\":0.3,\"stream\":");
    if stream {
        r.append("true");
    } else {
        r.append("false");
    }
    r.append("}");
    r
}

impl ChatRequest {
    /// The request of `model` with the two messages `system` and `user`, in this order.
    pub fn new(system: &str, user: &str, model: &str, stream: bool) -> (r: ChatRequest)
        ensures
            r.model@ == model@,
            r.stream == stream,
            r.messages@.len() == 2,
            r.messages@[0].role == Role::System,
            r.messages@[0].content@ == system@,
            r.messages@[1].role == Role::User,
            r.messages@[1].content@ == user@,
    {
        let mut messages: Vec<ChatMessage> = Vec::new();
        messages.push(ChatMessage { role: Role::System, content: String::from_str(system) });
        messages.push(ChatMessage { role: Role::User, content: String::from_str(user) });
        ChatRequest { model: String::from_str(model), messages, stream }
    }

    /// The JSON body of the request.
    pub fn to_json(&self) -> (r: String)
        ensures
            r@ == request_json(
                json_string_of(self.model@),
                messages_json(self.messages@),
                self.stream,
            ),
    {
        let model_q = match json_quote(self.model.as_str()) {
            Ok(q) => q,
            Err(_) => unreached(),
        };
        let mut parts: Vec<String> = Vec::new();
        let mut i: usize = 0;
        while i < self.messages.len()
            invariant
                i <= self.messages.len(),
                parts.deep_view() =~= self.messages@.take(i as int).map_values(
                    |m: ChatMessage| encoded_message(m),
                ),
            decreases self.messages.len() - i,
        {
            let m = &self.messages[i];
            let q = match json_quote(m.content.as_str()) {
                Ok(q) => q,
                Err(_) => unreached(),
            };
            let part = message_json_text(m.role, q.as_str());
            let ghost before = parts.deep_view();
            parts.push(part);
            assert(parts.deep_view() =~= before.push(part@));
            assert(self.messages@.take(i + 1) =~= self.messages@.take(i as int).push(
                self.messages@[i as int],
            ));
            i += 1;
        }
        assert(self.messages@.take(i as int) =~= self.messages@);
        request_json_text(model_q.as_str(), &parts, self.stream)
    }
}

/// The body of the request of `model` with the messages `system` and `user`.
pub fn request_body(system: &str, user: &str, model: &str, stream: bool) -> (r: String)
    ensures
        r@ == chat_body(system@, user@, model@, stream),
{
    let req = ChatRequest::new(system, user, model, stream);
    let ghost ms = req.messages@.map_values(|m: ChatMessage| encoded_message(m));
    assert(ms.drop_last() =~= seq![ms[0]]);
    assert(joined(seq![ms[0]], ","@) == ms[0]);
    req.to_json()
}

/// The request of `system` and `user` is written with the system message first and the
/// user message after it.
pub proof fn request_puts_system_before_user(
    system: Seq<char>,
    user: Seq<char>,
    model: Seq<char>,
    stream: bool,
)
    ensures
        ({
            let b = chat_body(system, user, model, stream);
            let s = message_json(Role::System, json_string_of(system));
            let u = message_json(Role::User, json_string_of(user));
            exists|i: int, j: int|
                occurs_at(b, s, i) && occurs_at(b, u, j) && i + s.len() < j
        }),
{
    let b = chat_body(system, user, model, stream);
    let s = message_json(Role::System, json_string_of(system));
    let u = message_json(Role::User, json_string_of(user));
    let head = "{\"model\":"@ + json_string_of(model) + ",\"messages\":["@;
    let tail = "],\"temperature\":0.3,\"stream\":"@ + stream_flag(stream) + "}"@;
    let i = head.len() as int;
    let j = i + s.len() + ","@.len();
    assert(b =~= head + s + ","@ + u + tail);
    assert(b.subrange(i, i + s.len()) =~= s);
    assert(b.subrange(j, j + u.len()) =~= u);
    assert(occurs_at(b, s, i));
    assert(occurs_at(b, u, j));
    reveal_strlit(",");
    assert(occurs_at(b, s, i) && occurs_at(b, u, j) && i + s.len() < j);
}

/// The error of a reply that failed: the message of the error object in its body where
/// that decoded, else the raw body.
pub open spec fn remote_error_view(body: Seq<char>, parsed: Option<String>) -> (ApiErrorKind, Seq<
    char,
>) {
    match parsed {
        Some(m) => (ApiErrorKind::Remote, m@),
        None => (ApiErrorKind::Remote, body),
    }
}

/// What a buffered call returns, given the status, the body, the message of the body
/// read as an error object (`None` where it does not decode so), and the contents of the
/// choices of the body read as a reply (`Err` where it does not decode so).
pub open spec fn buffered_outcome(
    success: bool,
    body: Seq<char>,
    parsed_error: Option<String>,
    reply: Result<Vec<String>, String>,
) -> Result<Seq<char>, (ApiErrorKind, Seq<char>)> {
    if !success {
        Err(remote_error_view(body, parsed_error))
    } else if has_infix(body, "\"error\""@) && parsed_error is Some {
        Err((ApiErrorKind::Remote, parsed_error->0@))
    } else {
        match reply {
            Err(e) => Err((ApiErrorKind::Parse, e@)),
            Ok(cs) => Ok(
                if cs@.len() > 0 {
                    cs@[0]@
                } else {
                    Seq::empty()
                },
            ),
        }
    }
}

pub open spec fn outcome_view(r: Result<String, ApiError>) -> Result<
    Seq<char>,
    (ApiErrorKind, Seq<char>),
> {
    match r {
        Ok(s) => Ok(s@),
        Err(e) => Err(e@),
    }
}

/// The error for a reply whose status is not a success.
pub fn remote_error(body: &str, parsed: Option<String>) -> (r: ApiError)
    ensures
        r@ == remote_error_view(body@, parsed),
{
    match parsed {
        Some(m) => ApiError { kind: ApiErrorKind::Remote, message: m },
        None => ApiError { kind: ApiErrorKind::Remote, message: String::from_str(body) },
    }
}

/// Decides the result of a buffered call from its reply.
pub fn interpret_buffered(
    success: bool,
    body: &str,
    parsed_error: Option<String>,
    reply: Result<Vec<String>, String>,
) -> (r: Result<String, ApiError>)
    ensures
        outcome_view(r) == buffered_outcome(success, body@, parsed_error, reply),
{
    if !success {
        return Err(remote_error(body, parsed_error));
    }
    if contains(body, "\"error\"") {
        match parsed_error {
            Some(m) => {
                return Err(ApiError { kind: ApiErrorKind::Remote, message: m });
            },
            None => {},
        }
    }
    match reply {
        Err(e) => Err(ApiError { kind: ApiErrorKind::Parse, message: e }),
        Ok(mut cs) => {
            if cs.len() == 0 {
                Ok(String::new())
            } else {
                Ok(cs.swap_remove(0))
            }
        },
    }
}

/// The value of the `Authorization` header for `api_key`.
pub fn authorization_value(api_key: &str) -> (r: String)
    ensures
        r@ == "Bearer "@ + api_key@,
{
    let mut r = String::from_str("Bearer ");
    r.append(api_key);
    r
}

} // verus!
