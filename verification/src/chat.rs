//! Chat threads of the control panel: messages, the streamed reveal of a
//! reply, session ids, the persisted thread, and the HTTP exchange with the
//! sidecar's `/chat` endpoint.
use vstd::prelude::*;
use vstd::utf8::{encode_utf8, decode_utf8, is_char_boundary};
use vstd::string::StringSliceAdditionalSpecFns;
use crate::clock::{is_clock_text, local_hour_minute, unix_time_millis};
use crate::config::{opt_view, nonblank};
use crate::json::{json_string_literal, json_text_member, json_quote, json_member_text};
use crate::launcher_config::LlmConfigSummary;
use crate::paths::{path_join, join_path};
use crate::server::value_or;
use crate::text::{
    truncate_chars, decimal, unicode_uppercase, contains_seq, find_seq, find_char, is_blank,
    owned, push_str, truncate_with_ellipsis, to_uppercase, decimal_text, chars_of,
    string_from_chars, find_text, find_char_in_range, contains_text, is_blank_text, concat2,
};

verus! {

/// Who wrote a chat message.
#[derive(Clone, Copy, Debug, PartialEq, Eq, Structural)]
pub enum ChatRole {
    User,
    Assistant,
    System,
}

/// One chat message, with the local time it was made.
#[derive(Debug)]
pub struct ChatMessage {
    pub role: ChatRole,
    pub content: String,
    pub meta: Option<String>,
    pub timestamp: String,
}

/// The time shown on a message for a clock reading: the reading itself, or
/// `00:00` when the clock gave none.
pub fn timestamp_from_reading(reading: Option<String>) -> (r: String)
    ensures
        match reading {
            Some(t) => r@ == t@,
            None => r@ == "00:00"@,
        },
{
    match reading {
        Some(t) => t,
        None => owned("00:00"),
    }
}

/// The local time of day, `HH:MM`; `00:00` when the clock reads before 1970.
pub fn current_chat_timestamp() -> (r: String)
    ensures
        is_clock_text(r@),
{
    let r = timestamp_from_reading(local_hour_minute());
    proof {
        reveal_strlit("00:00");
    }
    r
}

impl ChatMessage {
    /// A message from the user, stamped with the current time.
    pub fn user(content: String) -> (r: ChatMessage)
        ensures
            r.role == ChatRole::User,
            r.content@ == content@,
            r.meta is None,
            is_clock_text(r.timestamp@),
    {
        ChatMessage { role: ChatRole::User, content, meta: None, timestamp: current_chat_timestamp() }
    }

    /// A message from the assistant, stamped with the current time.
    pub fn assistant(content: String, meta: Option<String>) -> (r: ChatMessage)
        ensures
            r.role == ChatRole::Assistant,
            r.content@ == content@,
            opt_view(r.meta) == opt_view(meta),
            is_clock_text(r.timestamp@),
    {
        ChatMessage { role: ChatRole::Assistant, content, meta, timestamp: current_chat_timestamp() }
    }

    /// A system note, stamped with the current time.
    pub fn system(content: String) -> (r: ChatMessage)
        ensures
            r.role == ChatRole::System,
            r.content@ == content@,
            r.meta is None,
            is_clock_text(r.timestamp@),
    {
        ChatMessage { role: ChatRole::System, content, meta: None, timestamp: current_chat_timestamp() }
    }
}

/// The sidecar's answer to a chat message.
#[derive(Debug)]
pub struct ChatCompletion {
    pub reply: String,
    pub source: String,
    pub detail: Option<String>,
}

/// The outcome of one chat request.
#[derive(Debug)]
pub struct ChatResult {
    pub outcome: Result<ChatCompletion, String>,
}

/// How far the reveal of a reply has got.
#[derive(Clone, Copy, Debug)]
pub struct ChatStreamState {
    pub message_index: usize,
    pub revealed_chars: usize,
    pub total_chars: usize,
}

/// A chat thread as it is saved between runs.
#[derive(Debug)]
pub struct PersistedChatState {
    pub session_id: String,
    pub messages: Vec<ChatMessage>,
}

/// The smaller of two naturals.
pub open spec fn min_nat(a: nat, b: nat) -> nat {
    if a <= b {
        a
    } else {
        b
    }
}

/// What a message shows: while its reply is being revealed, only the
/// revealed characters; otherwise all of it.
pub open spec fn visible_content(content: Seq<char>, index: usize, stream: Option<ChatStreamState>) -> Seq<char> {
    match stream {
        Some(s) => if s.message_index == index {
            content.take(min_nat(s.revealed_chars as nat, content.len()) as int)
        } else {
            content
        },
        None => content,
    }
}

/// The text of a message that is visible now.
pub fn visible_chat_content(
    message: &ChatMessage,
    message_index: usize,
    chat_stream: Option<&ChatStreamState>,
) -> (r: String)
    ensures
        r@ == visible_content(
            message.content@,
            message_index,
            match chat_stream {
                Some(s) => Some(*s),
                None => None,
            },
        ),
{
    match chat_stream {
        None => message.content.clone(),
        Some(stream) => {
            if stream.message_index != message_index {
                message.content.clone()
            } else {
                let v = chars_of(message.content.as_str());
                let n = if stream.revealed_chars <= v.len() {
                    stream.revealed_chars
                } else {
                    v.len()
                };
                proof {
                    assert(v@.subrange(0, n as int) =~= v@.take(n as int));
                }
                string_from_chars(v.as_slice(), 0, n)
            }
        },
    }
}

/// The meta line of a message: `streaming reply` while its reply is being
/// revealed, otherwise its own meta line.
pub fn visible_chat_meta<'a>(
    message: &'a ChatMessage,
    message_index: usize,
    chat_stream: Option<&ChatStreamState>,
) -> (r: Option<&'a str>)
    ensures
        ({
            let streaming = match chat_stream {
                Some(s) => s.message_index == message_index && s.revealed_chars < s.total_chars,
                None => false,
            };
            &&& streaming ==> (r matches Some(t) && t@ == "streaming reply"@)
            &&& !streaming ==> match r {
                Some(t) => message.meta matches Some(m) && t@ == m@,
                None => message.meta is None,
            }
        }),
{
    let own: Option<&'a str> = match &message.meta {
        Some(m) => Some(m.as_str()),
        None => None,
    };
    match chat_stream {
        None => own,
        Some(stream) => {
            if stream.message_index != message_index {
                own
            } else if stream.revealed_chars >= stream.total_chars {
                own
            } else {
                Some("streaming reply")
            }
        },
    }
}

/// A session id can be shortened: its UTF-8 length fits in `usize`, and when
/// it is longer than 18 bytes, its last 12 bytes start at a character
/// boundary (else slicing there panics).
pub open spec fn compactable(s: Seq<char>) -> bool {
    &&& encode_utf8(s).len() <= usize::MAX
    &&& encode_utf8(s).len() > 18 ==> is_char_boundary(encode_utf8(s), encode_utf8(s).len() - 12)
}

/// A session id as the panel shows it: ids longer than 18 bytes become `...`
/// and their last 12 bytes.
pub open spec fn compact_text(s: Seq<char>) -> Seq<char> {
    let b = encode_utf8(s);
    if b.len() > 18 {
        "..."@ + decode_utf8(b.subrange(b.len() - 12, b.len() as int))
    } else {
        s
    }
}

/// Shortens a long session id for display.
pub fn compact_session_id(session_id: &str) -> (r: String)
    requires
        compactable(session_id@),
    ensures
        r@ == compact_text(session_id@),
{
    let n = session_id.len();
    if n > 18 {
        let (_, tail) = session_id.split_at(n - 12);
        proof {
            vstd::utf8::encode_utf8_decode_utf8(tail@);
            assert(tail.spec_bytes() =~= encode_utf8(session_id@).subrange(
                n - 12,
                encode_utf8(session_id@).len() as int,
            ));
        }
        concat2("...", tail)
    } else {
        owned(session_id)
    }
}

proof fn lemma_ascii_compactable(s: Seq<char>)
    requires
        vstd::utf8::is_ascii_chars(s),
        s.len() <= usize::MAX,
    ensures
        compactable(s),
{
    broadcast use vstd::utf8::group_utf8_lib;

    let b = encode_utf8(s);
    if b.len() > 18 {
        let i = b.len() - 12;
        assert(s[i] as u8 == b[i]);
        let x = b[i];
        assert((s[i] as u32) < 128);
        assert(x < 128);
        assert(!vstd::utf8::is_continuation_byte(x)) by (bit_vector)
            requires
                x < 128,
        ;
    }
}

/// The digits of a decimal rendering are ASCII.
proof fn lemma_decimal_ascii(n: nat)
    ensures
        vstd::utf8::is_ascii_chars(decimal(n)),
    decreases n,
{
    if n >= 10 {
        lemma_decimal_ascii(n / 10);
        assert forall|i: int| 0 <= i < decimal(n).len() implies '\0' <= #[trigger] decimal(n)[i]
            <= '\u{7f}' by {
            if i < decimal(n).len() - 1 {
                assert(decimal(n)[i] == decimal(n / 10)[i]);
            }
        }
    }
}

/// A fresh session id: `egui-chat-` and the current Unix time in
/// milliseconds.
pub open spec fn is_fresh_session_id(s: Seq<char>) -> bool {
    exists|ms: nat| s == "egui-chat-"@ + decimal(ms)
}

/// The session id for a Unix time in milliseconds: `egui-chat-` and its
/// decimal digits.
pub fn session_id_for_millis(ms: u128) -> (r: String)
    ensures
        r@ == "egui-chat-"@ + decimal(ms as nat),
        compactable(r@),
{
    let mut r = owned("egui-chat-");
    let d = decimal_text(ms);
    push_str(&mut r, d.as_str());
    // A string in memory holds at most `usize::MAX` characters; asking for
    // its length brings that bound into the proof below.
    let _char_count = r.as_str().unicode_len();
    proof {
        assert(r@ == "egui-chat-"@ + decimal(ms as nat));
        reveal_strlit("egui-chat-");
        lemma_decimal_ascii(ms as nat);
        broadcast use vstd::utf8::is_ascii_chars_concat;

        assert(vstd::utf8::is_ascii_chars("egui-chat-"@));
        assert(vstd::utf8::is_ascii_chars(r@));
        lemma_ascii_compactable(r@);
    }
    r
}

/// A new session id from the current time.
pub fn new_chat_session_id() -> (r: String)
    ensures
        is_fresh_session_id(r@),
        compactable(r@),
{
    let ms = unix_time_millis();
    let r = session_id_for_millis(ms);
    assert(r@ == "egui-chat-"@ + decimal(ms as nat));
    r
}

/// The upper-cased source, then `" • "` and the detail cut to 120 characters
/// when there is a detail.
pub open spec fn completion_meta(source: Seq<char>, detail: Option<Seq<char>>) -> Seq<char> {
    match detail {
        Some(d) => unicode_uppercase(source) + " • "@ + truncate_chars(d, 120),
        None => unicode_uppercase(source),
    }
}

/// The meta line of a reply: where it came from, and the detail.
pub fn format_chat_completion_meta(completion: &ChatCompletion) -> (r: String)
    ensures
        r@ == completion_meta(completion.source@, opt_view(completion.detail)),
{
    let mut r = to_uppercase(completion.source.as_str());
    match &completion.detail {
        Some(detail) => {
            push_str(&mut r, " • ");
            let t = truncate_ui_detail(detail.as_str(), 120);
            push_str(&mut r, t.as_str());
        },
        None => {},
    }
    r
}

/// A text cut to `max_chars` characters, with `...` when cut.
pub fn truncate_ui_detail(value: &str, max_chars: usize) -> (r: String)
    ensures
        r@ == truncate_chars(value@, max_chars as nat),
{
    truncate_with_ellipsis(value, max_chars)
}

/// The greeting of a new thread.
pub open spec fn intro_text(ready: bool, model: Seq<char>) -> Seq<char> {
    if ready {
        "The chat workspace is live. Messages will route through "@ + model
            + " and keep context inside this thread."@
    } else {
        "The chat workspace is ready. Start companion-core and reload config when you want live model responses."@
    }
}

/// The meta line of the greeting: the route, then the session.
pub open spec fn intro_meta(ready: bool, base_url: Option<Seq<char>>, session_id: Seq<char>) -> Seq<char> {
    let route = if ready {
        match base_url {
            Some(u) => truncate_chars(u, 30),
            None => "custom endpoint"@,
        }
    } else {
        "local route"@
    };
    route + " • session "@ + compact_text(session_id)
}

/// The messages of a new thread: one greeting from the assistant.
pub open spec fn is_default_thread(
    msgs: Seq<ChatMessage>,
    config: LlmConfigSummary,
    session_id: Seq<char>,
) -> bool {
    &&& msgs.len() == 1
    &&& msgs[0].role == ChatRole::Assistant
    &&& msgs[0].content@ == intro_text(config.spec_ready(), config.model@)
    &&& opt_view(msgs[0].meta) == Some(intro_meta(config.spec_ready(), opt_view(config.base_url), session_id))
    &&& is_clock_text(msgs[0].timestamp@)
}

/// The messages a new thread starts with.
pub fn default_chat_messages(config: &LlmConfigSummary, session_id: &str) -> (r: Vec<ChatMessage>)
    requires
        compactable(session_id@),
    ensures
        is_default_thread(r@, *config, session_id@),
{
    let ready = config.is_ready();
    let intro = if ready {
        let mut t = owned("The chat workspace is live. Messages will route through ");
        push_str(&mut t, config.model.as_str());
        push_str(&mut t, " and keep context inside this thread.");
        t
    } else {
        owned(
            "The chat workspace is ready. Start companion-core and reload config when you want live model responses.",
        )
    };
    let mut meta = if ready {
        match &config.base_url {
            Some(u) => truncate_ui_detail(u.as_str(), 30),
            None => owned("custom endpoint"),
        }
    } else {
        owned("local route")
    };
    push_str(&mut meta, " • session ");
    let compact = compact_session_id(session_id);
    push_str(&mut meta, compact.as_str());
    let mut v: Vec<ChatMessage> = Vec::new();
    v.push(ChatMessage::assistant(intro, Some(meta)));
    v
}

/// `<root>/backend/data/companion-core-chat-state.json`.
pub open spec fn chat_state_file(root: Seq<char>) -> Seq<char> {
    path_join(path_join(path_join(root, "backend"@), "data"@), "companion-core-chat-state.json"@)
}

/// Where the chat thread is saved under a project root.
pub fn chat_state_path(project_root: &str) -> (r: String)
    ensures
        r@ == chat_state_file(project_root@),
{
    let a = join_path(project_root, "backend");
    let b = join_path(a.as_str(), "data");
    join_path(b.as_str(), "companion-core-chat-state.json")
}

/// The thread to start with: a saved thread whose session id is not blank is
/// kept, with the default greeting when it has no messages; otherwise a new
/// thread with a fresh session id.
pub fn load_chat_state(loaded: Option<PersistedChatState>, config: &LlmConfigSummary) -> (r:
    PersistedChatState)
    requires
        match loaded {
            Some(s) => !is_blank(s.session_id@) && s.messages@.len() == 0 ==> compactable(
                s.session_id@,
            ),
            None => true,
        },
    ensures
        match loaded {
            Some(s) if !is_blank(s.session_id@) => {
                &&& r.session_id@ == s.session_id@
                &&& s.messages@.len() > 0 ==> r.messages@ == s.messages@
                &&& s.messages@.len() == 0 ==> is_default_thread(r.messages@, *config, s.session_id@)
            },
            _ => {
                &&& is_fresh_session_id(r.session_id@)
                &&& is_default_thread(r.messages@, *config, r.session_id@)
            },
        },
{
    match loaded {
        Some(state) => {
            if !is_blank_text(state.session_id.as_str()) {
                if state.messages.len() == 0 {
                    let messages = default_chat_messages(config, state.session_id.as_str());
                    return PersistedChatState { session_id: state.session_id, messages };
                }
                return state;
            }
        },
        None => {},
    }
    let session_id = new_chat_session_id();
    let messages = default_chat_messages(config, session_id.as_str());
    PersistedChatState { session_id, messages }
}

/// The JSON body of a chat request: the keys in sorted order, as
/// `serde_json` writes an object.
pub open spec fn chat_request_body(session_id: Seq<char>, prompt: Seq<char>) -> Seq<char> {
    "{\"message\":"@ + json_string_literal(prompt) + ",\"persona\":"@ + json_string_literal(
        "Digital Girl"@,
    ) + ",\"session_id\":"@ + json_string_literal(session_id) + "}"@
}

/// The HTTP request that posts a chat message to the sidecar.
pub open spec fn chat_request_text(session_id: Seq<char>, prompt: Seq<char>) -> Seq<char> {
    let body = chat_request_body(session_id, prompt);
    "POST /chat HTTP/1.1\r\nHost: 127.0.0.1:8787\r\nContent-Type: application/json\r\nContent-Length: "@
        + decimal(encode_utf8(body).len()) + "\r\nConnection: close\r\n\r\n"@ + body
}

/// Builds the HTTP request for a chat message.
pub fn companion_chat_request(session_id: &str, prompt: &str) -> (r: String)
    requires
        encode_utf8(chat_request_body(session_id@, prompt@)).len() <= usize::MAX,
    ensures
        r@ == chat_request_text(session_id@, prompt@),
{
    let mut body = owned("{\"message\":");
    let q = json_quote(prompt);
    push_str(&mut body, q.as_str());
    push_str(&mut body, ",\"persona\":");
    let p = json_quote("Digital Girl");
    push_str(&mut body, p.as_str());
    push_str(&mut body, ",\"session_id\":");
    let s = json_quote(session_id);
    push_str(&mut body, s.as_str());
    push_str(&mut body, "}");
    let len = body.as_str().len();
    let mut r = owned(
        "POST /chat HTTP/1.1\r\nHost: 127.0.0.1:8787\r\nContent-Type: application/json\r\nContent-Length: ",
    );
    let d = decimal_text(len as u128);
    push_str(&mut r, d.as_str());
    push_str(&mut r, "\r\nConnection: close\r\n\r\n");
    push_str(&mut r, body.as_str());
    r
}

/// The first line of a text, as `str::lines().next()`: none for an empty
/// text; otherwise up to the first `\n`, without a `\r` just before it.
pub open spec fn first_line(s: Seq<char>) -> Option<Seq<char>> {
    if s.len() == 0 {
        None
    } else {
        match find_char(s, '\n') {
            Some(i) => {
                let l = s.take(i);
                if l.len() > 0 && l.last() == '\r' {
                    Some(l.drop_last())
                } else {
                    Some(l)
                }
            },
            None => Some(s),
        }
    }
}

/// A completion from the string members `source`, `reply` and `detail` of
/// the sidecar's JSON answer.
pub open spec fn completion_of(
    source: Option<Seq<char>>,
    reply: Option<Seq<char>>,
    detail: Option<Seq<char>>,
) -> (Seq<char>, Seq<char>, Option<Seq<char>>) {
    (value_or(source, "unknown"@), value_or(reply, Seq::<char>::empty()), nonblank(detail))
}

/// The view of a completion.
pub open spec fn completion_view(c: ChatCompletion) -> (Seq<char>, Seq<char>, Option<Seq<char>>) {
    (c.source@, c.reply@, opt_view(c.detail))
}

/// The completion the string members of the sidecar's answer give: source
/// `unknown` and an empty reply when missing, no detail when blank.
pub fn completion_from_members(
    source: Option<String>,
    reply: Option<String>,
    detail: Option<String>,
) -> (r: ChatCompletion)
    ensures
        completion_view(r) == completion_of(opt_view(source), opt_view(reply), opt_view(detail)),
{
    ChatCompletion {
        source: match source {
            Some(s) => s,
            None => owned("unknown"),
        },
        reply: match reply {
            Some(s) => s,
            None => String::new(),
        },
        detail: match detail {
            Some(d) => if is_blank_text(d.as_str()) {
                None
            } else {
                Some(d)
            },
            None => None,
        },
    }
}

/// The sidecar's HTTP answer, read: the headers end at the first empty line;
/// the status line must contain ` 200 `; the body must be JSON.
pub open spec fn chat_response_outcome(response: Seq<char>) -> Result<
    (Seq<char>, Seq<char>, Option<Seq<char>>),
    Seq<char>,
> {
    match find_seq(response, "\r\n\r\n"@) {
        None => Err("invalid HTTP response from companion-core"@),
        Some(i) => {
            let headers = response.take(i);
            let body = response.skip(i + 4);
            let status = value_or(first_line(headers), "HTTP response without status"@);
            if !contains_seq(status, " 200 "@) {
                Err(status + "; "@ + truncate_chars(body, 500))
            } else {
                match json_text_member(body, "source"@) {
                    Err(e) => Err("invalid JSON from companion-core: "@ + e),
                    Ok(source) => Ok(
                        completion_of(
                            source,
                            json_text_member(body, "reply"@)->Ok_0,
                            json_text_member(body, "detail"@)->Ok_0,
                        ),
                    ),
                }
            }
        },
    }
}

/// The first line of `v[0..to]`.
fn first_line_of(v: &Vec<char>, to: usize) -> (r: Option<String>)
    requires
        to <= v@.len(),
    ensures
        opt_view(r) == first_line(v@.take(to as int)),
{
    let ghost h = v@.take(to as int);
    assert(h =~= v@.subrange(0, to as int));
    if to == 0 {
        return None;
    }
    match find_char_in_range(v, 0, to, '\n') {
        Some(i) => {
            proof {
                assert(h.take(i as int) =~= v@.subrange(0, i as int));
            }
            if i > 0 && v[i - 1] == '\r' {
                proof {
                    assert(h.take(i as int).drop_last() =~= v@.subrange(0, i - 1));
                }
                Some(string_from_chars(v.as_slice(), 0, i - 1))
            } else {
                Some(string_from_chars(v.as_slice(), 0, i))
            }
        },
        None => Some(string_from_chars(v.as_slice(), 0, to)),
    }
}

/// Reads the sidecar's HTTP answer to a chat request.
pub fn parse_companion_chat_response(response: &str) -> (r: Result<ChatCompletion, String>)
    ensures
        match r {
            Ok(c) => chat_response_outcome(response@) == Ok::<
                (Seq<char>, Seq<char>, Option<Seq<char>>),
                Seq<char>,
            >(completion_view(c)),
            Err(e) => chat_response_outcome(response@) == Err::<
                (Seq<char>, Seq<char>, Option<Seq<char>>),
                Seq<char>,
            >(e@),
        },
{
    let v = chars_of(response);
    let sep = chars_of("\r\n\r\n");
    let found = find_text(&v, &sep);
    proof {
        reveal_strlit("\r\n\r\n");
    }
    let i = match found {
        None => {
            return Err(owned("invalid HTTP response from companion-core"));
        },
        Some(i) => i,
    };
    let n = v.len();
    let status = match first_line_of(&v, i) {
        Some(l) => l,
        None => owned("HTTP response without status"),
    };
    let body = string_from_chars(v.as_slice(), i + 4, n);
    proof {
        assert(body@ =~= response@.skip(i + 4));
    }
    if !contains_text(status.as_str(), " 200 ") {
        let mut e = status;
        push_str(&mut e, "; ");
        let t = truncate_ui_detail(body.as_str(), 500);
        push_str(&mut e, t.as_str());
        return Err(e);
    }
    let source = match json_member_text(body.as_str(), "source") {
        Err(e) => {
            let mut m = owned("invalid JSON from companion-core: ");
            push_str(&mut m, e.as_str());
            return Err(m);
        },
        Ok(s) => s,
    };
    let reply = match json_member_text(body.as_str(), "reply") {
        Ok(s) => s,
        Err(_) => None,
    };
    let detail = match json_member_text(body.as_str(), "detail") {
        Ok(s) => s,
        Err(_) => None,
    };
    Ok(completion_from_members(source, reply, detail))
}

/// What a message shows while its reply is revealed is the start of its
/// text, and all of it when no reveal is under way for it.
pub proof fn lemma_visible_is_prefix(content: Seq<char>, index: usize, stream: Option<ChatStreamState>)
    ensures
        visible_content(content, index, stream).len() <= content.len(),
        visible_content(content, index, stream) == content.take(
            visible_content(content, index, stream).len() as int,
        ),
        (match stream {
            Some(s) => s.message_index != index,
            None => true,
        }) ==> visible_content(content, index, stream) == content,
{
    assert(content.take(content.len() as int) =~= content);
}

} // verus!
