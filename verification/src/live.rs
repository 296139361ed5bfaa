//! The live price stream: the stream client's settings, the subscription
//! message, and the reading of each frame the stream delivers (the base64
//! payload of a pricing message).

use vstd::prelude::*;

use base64::Engine;

use crate::error::YfError;
use crate::json::{items_view, lemma_items_view, lemma_members_view, member_str, members_view, Json, JsonV};
use crate::text::{concat2, trim, trim_str};

verus! {

/// The streamer endpoint.
pub const STREAM_URL: &'static str = "wss://streamer.finance.yahoo.com/?version=2";

/// Seconds between two subscription heartbeats.
pub const HEARTBEAT_SECS: u64 = 15;

#[verifier::external_type_specification]
#[verifier::external_body]
pub struct ExDecodeError(base64::DecodeError);

/// Names the bytes that standard base64 (with padding) decodes a text to;
/// `None` for a text that is not valid standard base64.
pub uninterp spec fn base64_standard_decoded(s: Seq<char>) -> Option<Seq<u8>>;

/// Wraps `base64::engine::general_purpose::STANDARD.decode`: it succeeds
/// exactly on valid standard base64, with the decoded bytes, both named by
/// [`base64_standard_decoded`].
#[verifier::external_body]
fn base64_decode(s: &str) -> (r: Result<Vec<u8>, base64::DecodeError>)
    ensures
        r matches Ok(v) ==> base64_standard_decoded(s@) == Some(v@),
        r is Err <==> base64_standard_decoded(s@) is None,
{
    base64::engine::general_purpose::STANDARD.decode(s)
}

/// Wraps `<base64::DecodeError as Display>::fmt`: the error's message; its
/// text is not stated.
#[verifier::external_body]
fn decode_error_text(e: &base64::DecodeError) -> (s: String) {
    e.to_string()
}

/// The message prefix of an invalid frame.
pub open spec fn invalid_base64_prefix() -> Seq<char> {
    "invalid base64: "@
}

/// The protobuf bytes of a pricing frame: its text, trimmed, decoded as
/// standard base64; `Msg("invalid base64: ...")` when it is not base64.
pub fn decode_frame(b64: &str) -> (r: Result<Vec<u8>, YfError>)
    ensures
        r matches Ok(v) ==> base64_standard_decoded(trim(b64@)) == Some(v@),
        r is Err <==> base64_standard_decoded(trim(b64@)) is None,
        r matches Err(e) ==> (e matches YfError::Msg(m) && m@.len() >= invalid_base64_prefix().len()
            && m@.take(invalid_base64_prefix().len() as int) == invalid_base64_prefix()),
{
    let t = trim_str(b64);
    match base64_decode(t.as_str()) {
        Ok(v) => Ok(v),
        Err(e) => {
            let text = decode_error_text(&e);
            let m = concat2("invalid base64: ", text.as_str());
            proof {
                reveal_strlit("invalid base64: ");
                assert(m@.take(invalid_base64_prefix().len() as int) =~= invalid_base64_prefix());
            }
            Err(YfError::Msg(m))
        },
    }
}

/// The live price stream client.
#[derive(Debug, Clone)]
pub struct LiveWebSocket {
    url: String,
    verbose: bool,
}

impl LiveWebSocket {
    /// The streamer URL this client connects to.
    pub closed spec fn stream_url(self) -> Seq<char> {
        self.url@
    }

    /// Whether this client logs stream events.
    pub closed spec fn logs(self) -> bool {
        self.verbose
    }

    /// A stream client for the default streamer URL, quiet.
    pub fn new() -> (w: LiveWebSocket)
        ensures
            w.stream_url() == STREAM_URL@,
            !w.logs(),
    {
        LiveWebSocket { url: STREAM_URL.to_owned(), verbose: false }
    }

    /// Turns logging of stream events to standard error on or off.
    pub fn verbose(self, verbose: bool) -> (w: LiveWebSocket)
        ensures
            w.stream_url() == self.stream_url(),
            w.logs() == verbose,
    {
        LiveWebSocket { url: self.url, verbose }
    }

    /// The streamer URL.
    pub fn url(&self) -> (u: &str)
        ensures
            u@ == self.stream_url(),
    {
        self.url.as_str()
    }

    /// Whether stream events are logged.
    pub fn is_verbose(&self) -> (b: bool)
        ensures
            b == self.logs(),
    {
        self.verbose
    }
}

impl Default for LiveWebSocket {
    fn default() -> (w: LiveWebSocket)
        ensures
            w.stream_url() == STREAM_URL@,
            !w.logs(),
    {
        LiveWebSocket::new()
    }
}

/// The subscription message: `{"subscribe": [symbols...]}`.
pub open spec fn subscribe_json(symbols: Seq<Seq<char>>) -> JsonV {
    JsonV::Object(
        seq![("subscribe"@, JsonV::Array(symbols.map_values(|s: Seq<char>| JsonV::Str(s))))],
    )
}

/// String slices as character sequences.
pub open spec fn symbols_view(s: Seq<&str>) -> Seq<Seq<char>> {
    s.map_values(|x: &str| x@)
}

/// The subscription message for `symbols` (sent on connect and as the
/// heartbeat).
pub fn subscribe_message(symbols: &[&str]) -> (m: Json)
    ensures
        m@ == subscribe_json(symbols_view(symbols@)),
{
    let mut items: Vec<Json> = Vec::new();
    let mut i: usize = 0;
    while i < symbols.len()
        invariant
            i <= symbols@.len(),
            items_view(items@) == symbols_view(symbols@.take(i as int)).map_values(
                |s: Seq<char>| JsonV::Str(s),
            ),
        decreases symbols@.len() - i,
    {
        let ghost prev = items@;
        let it = Json::Str(symbols[i].to_owned());
        assert(it@ == JsonV::Str(symbols@[i as int]@));
        items.push(it);
        i = i + 1;
        assert(items@.drop_last() =~= prev);
        assert(items_view(items@) == items_view(prev).push(JsonV::Str(symbols@[i - 1]@)));
        assert(symbols_view(symbols@.take(i as int)).map_values(|s: Seq<char>| JsonV::Str(s))
            =~= symbols_view(symbols@.take(i - 1)).map_values(|s: Seq<char>| JsonV::Str(s)).push(
            JsonV::Str(symbols@[i - 1]@),
        ));
    }
    assert(symbols@.take(symbols@.len() as int) =~= symbols@);
    let members = vec![("subscribe".to_owned(), Json::Array(items))];
    let ghost mv = members@;
    proof {
        lemma_members_view(mv);
        assert(members_view(mv) =~= subscribe_json(symbols_view(symbols@))->Object_0);
    }
    Json::Object(members)
}

/// A frame received from the stream, as the stream loop hands it over: a
/// text frame (its JSON, when it parses), a ping or pong, a close, or any
/// other frame.
#[derive(Debug)]
pub enum StreamEvent {
    Text(Option<Json>),
    Ping,
    Pong,
    Close,
    Other,
}

/// What the stream loop does with one frame.
#[derive(Debug)]
pub enum FrameAction {
    /// Hand the decoded pricing bytes to the tick decoder.
    Deliver(Vec<u8>),
    /// The frame held a message that is not valid base64: report it (when
    /// verbose) and go on.
    Invalid(YfError),
    /// Nothing to do for this frame.
    Ignore,
    /// The stream closed: stop.
    Stop,
}

/// The `message` payload of a text frame.
pub open spec fn frame_message(v: JsonV) -> Option<Seq<char>> {
    member_str(v, "message"@)
}

/// Decides what to do with one frame: a text frame whose JSON carries a
/// `message` string is decoded; a close stops the stream; anything else is
/// ignored.
pub fn on_frame(ev: &StreamEvent) -> (a: FrameAction)
    ensures
        match ev {
            StreamEvent::Text(Some(v)) => match frame_message(v@) {
                Some(m) => match base64_standard_decoded(trim(m)) {
                    Some(bytes) => a matches FrameAction::Deliver(b) && b@ == bytes,
                    None => a is Invalid,
                },
                None => a is Ignore,
            },
            StreamEvent::Close => a is Stop,
            _ => a is Ignore,
        },
{
    match ev {
        StreamEvent::Text(Some(v)) => match crate::json::get_member_str(v, "message") {
            Some(m) => match decode_frame(m) {
                Ok(b) => FrameAction::Deliver(b),
                Err(e) => FrameAction::Invalid(e),
            },
            None => FrameAction::Ignore,
        },
        StreamEvent::Close => FrameAction::Stop,
        _ => FrameAction::Ignore,
    }
}

/// Is a subscription heartbeat due, `elapsed` seconds after the last one?
pub fn heartbeat_due(elapsed_secs: u64) -> (b: bool)
    ensures
        b == (elapsed_secs >= HEARTBEAT_SECS),
{
    elapsed_secs >= HEARTBEAT_SECS
}

} // verus!
