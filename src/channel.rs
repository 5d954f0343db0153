use vstd::prelude::*;
use crate::json::{json_str_at, json_string_at};
use crate::playlist::opt_view;
use crate::text::{append_chars, chars_of, chars_start_with, starts_with, string_of};

verus! {

/// First delay, in seconds, before reconnecting the push channel.
pub const BACKOFF_START_SECS: u64 = 1;

/// Longest delay, in seconds, between reconnection attempts.
pub const BACKOFF_MAX_SECS: u64 = 60;

/// How often a keep-alive probe goes out on the push channel.
pub const PING_INTERVAL_MS: u64 = 30000;

/// Silence after which the push channel counts as dead.
pub const PONG_TIMEOUT_MS: u64 = 60000;

/// Interval of the pull loop used when the push channel cannot be had.
pub const POLL_INTERVAL_MS: u64 = 300;

/// The text with every byte percent-encoded but ASCII letters, digits and `-`, `_`, `.`, `~`.
pub uninterp spec fn percent_encoded(s: Seq<char>) -> Seq<char>;

pub open spec fn url_safe(c: char) -> bool {
    ('0' <= c && c <= '9') || ('a' <= c && c <= 'z') || ('A' <= c && c <= 'Z') || c == '-' || c
        == '_' || c == '.' || c == '~'
}

/// Relies on `urlencoding::encode`, which percent-encodes every byte except alphanumerics
/// and `-`, `_`, `.`, `~`, and so keeps a text made only of those unchanged.
#[verifier::external_body]
fn url_encode(s: &str) -> (r: String)
    ensures
        r@ == percent_encoded(s@),
        (forall|i: int| 0 <= i < s@.len() ==> url_safe(#[trigger] s@[i])) ==> r@ == s@,
{
    urlencoding::encode(s).into_owned()
}

/// `url` without its `http://` or `https://` prefix.
pub open spec fn host_part(url: Seq<char>) -> Seq<char> {
    if starts_with(url, "http://"@) {
        url.subrange(7, url.len() as int)
    } else if starts_with(url, "https://"@) {
        url.subrange(8, url.len() as int)
    } else {
        url
    }
}

/// The push-channel URL of a room: `wss:` for an `https://` server, `ws:` otherwise, with the
/// room id and the percent-encoded nickname as query parameters.
pub open spec fn ws_url(base_url: Seq<char>, room_id: Seq<char>, nickname: Seq<char>) -> Seq<char> {
    (if starts_with(base_url, "https://"@) {
        "wss:"@
    } else {
        "ws:"@
    }) + "//"@ + host_part(base_url) + "/api/ws?roomId="@ + room_id + "&nickname="@
        + percent_encoded(nickname)
}

pub fn websocket_url(base_url: &str, room_id: &str, nickname: &str) -> (r: String)
    ensures
        r@ == ws_url(base_url@, room_id@, nickname@),
{
    proof {
        reveal_strlit("http://");
        reveal_strlit("https://");
    }
    let u = chars_of(base_url);
    let secure = chars_start_with(&u, "https://");
    let mut out: Vec<char> = Vec::new();
    if secure {
        append_chars(&mut out, "wss:");
    } else {
        append_chars(&mut out, "ws:");
    }
    append_chars(&mut out, "//");
    let from: usize = if chars_start_with(&u, "http://") {
        7
    } else if secure {
        8
    } else {
        0
    };
    let host = string_of(&u, from, u.len());
    assert(host@ == host_part(base_url@)) by {
        if from == 0 {
            assert(u@.subrange(0, u@.len() as int) =~= u@);
        }
    }
    append_chars(&mut out, host.as_str());
    append_chars(&mut out, "/api/ws?roomId=");
    append_chars(&mut out, room_id);
    append_chars(&mut out, "&nickname=");
    let nick = url_encode(nickname);
    append_chars(&mut out, nick.as_str());
    assert(out@ =~= ws_url(base_url@, room_id@, nickname@));
    let r = string_of(&out, 0, out.len());
    assert(out@.subrange(0, out@.len() as int) =~= out@);
    r
}

pub open spec fn song_list_url(base_url: Seq<char>, room_id: Seq<char>, hash: Seq<char>) -> Seq<char> {
    base_url + "/api/songListInfo?roomId="@ + room_id + "&lastHash="@ + hash
}

/// Where the playlist state is pulled, given the hash held.
pub fn song_list_info_url(base_url: &str, room_id: &str, hash: &str) -> (r: String)
    ensures
        r@ == song_list_url(base_url@, room_id@, hash@),
{
    let mut s = String::from_str(base_url);
    s.append("/api/songListInfo?roomId=");
    s.append(room_id);
    s.append("&lastHash=");
    s.append(hash);
    assert(s@ =~= song_list_url(base_url@, room_id@, hash@));
    s
}

pub open spec fn next_song_url_of(base_url: Seq<char>, room_id: Seq<char>) -> Seq<char> {
    base_url + "/api/nextSong?roomId="@ + room_id
}

/// Where the request to advance the playlist goes.
pub fn next_song_url(base_url: &str, room_id: &str) -> (r: String)
    ensures
        r@ == next_song_url_of(base_url@, room_id@),
{
    let mut s = String::from_str(base_url);
    s.append("/api/nextSong?roomId=");
    s.append(room_id);
    assert(s@ =~= next_song_url_of(base_url@, room_id@));
    s
}

pub open spec fn doubled_backoff(secs: u64) -> u64 {
    if secs as int * 2 >= BACKOFF_MAX_SECS as int {
        BACKOFF_MAX_SECS
    } else {
        (secs * 2) as u64
    }
}

/// Delay before the next reconnection attempt: 1 s at first, doubling after each failure up
/// to 60 s, and back to 1 s after a connection succeeds.
#[derive(Debug, Clone, Copy, PartialEq, Eq)]
pub struct Backoff {
    pub secs: u64,
}

impl Backoff {
    pub open spec fn wf(&self) -> bool {
        BACKOFF_START_SECS <= self.secs <= BACKOFF_MAX_SECS
    }

    pub fn new() -> (r: Backoff)
        ensures
            r.wf(),
            r.secs == BACKOFF_START_SECS,
    {
        Backoff { secs: BACKOFF_START_SECS }
    }

    /// A connection attempt failed: returns how long to wait, and doubles the next wait.
    pub fn on_failure(&mut self) -> (r: u64)
        requires
            old(self).wf(),
        ensures
            final(self).wf(),
            r == old(self).secs,
            final(self).secs == doubled_backoff(old(self).secs),
    {
        let wait = self.secs;
        self.secs = if self.secs >= BACKOFF_MAX_SECS / 2 {
            BACKOFF_MAX_SECS
        } else {
            self.secs * 2
        };
        wait
    }

    /// A connection succeeded.
    pub fn on_success(&mut self)
        ensures
            final(self).wf(),
            final(self).secs == BACKOFF_START_SECS,
    {
        self.secs = BACKOFF_START_SECS;
    }
}

/// Something that happened on the push channel.
#[derive(Debug, Clone, PartialEq, Eq)]
pub enum ChannelEvent {
    /// A text message.
    Text(String),
    /// A keep-alive ping from the server.
    Ping,
    /// A keep-alive reply from the server.
    Pong,
    /// The server closed the channel.
    Closed,
    /// Reading failed, or the stream ended.
    Failed,
    /// The keep-alive interval elapsed.
    Tick,
}

/// What to do in answer to a channel event.
#[derive(Debug, Clone, Copy, PartialEq, Eq)]
pub enum ChannelAction {
    Nothing,
    /// Pull the playlist state.
    Refresh,
    /// Answer the server's ping.
    SendPong,
    /// Send a keep-alive probe.
    SendPing,
    /// Drop the channel and connect again.
    Reconnect,
}

/// What a text message asks for, from its `type` and `hash` members: a `pong` message is a
/// keep-alive reply; an `UPDATE` carrying a hash other than the one held asks for a refresh.
pub open spec fn text_action(msg_type: Option<Seq<char>>, hash: Option<Seq<char>>, held: Option<Seq<char>>) -> ChannelAction {
    if msg_type == Some("UPDATE"@) && hash is Some && held != hash {
        ChannelAction::Refresh
    } else {
        ChannelAction::Nothing
    }
}

pub open spec fn is_pong_text(msg_type: Option<Seq<char>>) -> bool {
    msg_type == Some("pong"@)
}

/// Decides on a text message whose `type` and `hash` members are given.
pub fn text_message_action(msg_type: Option<String>, hash: Option<String>, held: &Option<String>) -> (r:
    ChannelAction)
    ensures
        r == text_action(opt_view(msg_type), opt_view(hash), opt_view(*held)),
{
    let update = String::from_str("UPDATE");
    match (msg_type, hash) {
        (Some(t), Some(h)) => {
            if t == update {
                let same = match held {
                    Some(x) => *x == h,
                    None => false,
                };
                if same {
                    ChannelAction::Nothing
                } else {
                    ChannelAction::Refresh
                }
            } else {
                ChannelAction::Nothing
            }
        },
        _ => ChannelAction::Nothing,
    }
}

/// Keeps the push channel alive: remembers when the server last answered.
#[derive(Debug, Clone, Copy, PartialEq, Eq)]
pub struct Keepalive {
    pub last_pong_ms: u64,
}

impl Keepalive {
    pub fn new(now_ms: u64) -> (r: Keepalive)
        ensures
            r.last_pong_ms == now_ms,
    {
        Keepalive { last_pong_ms: now_ms }
    }

    /// Decides on one channel event at time `now_ms`, with `held` the playlist hash held now.
    /// A `pong` (as a frame or as a text message) records the time; a keep-alive tick sends a
    /// probe, or asks to reconnect when nothing was heard for more than `PONG_TIMEOUT_MS`.
    pub fn on_event(&mut self, event: ChannelEvent, now_ms: u64, held: &Option<String>) -> (r: ChannelAction)
        ensures
            match event {
                ChannelEvent::Text(t) => {
                    let ty = json_str_at(t@, "/type"@);
                    if is_pong_text(ty) {
                        r == ChannelAction::Nothing && final(self).last_pong_ms == now_ms
                    } else {
                        r == text_action(ty, json_str_at(t@, "/hash"@), opt_view(*held))
                            && *final(self) == *old(self)
                    }
                },
                ChannelEvent::Ping => r == ChannelAction::SendPong && *final(self) == *old(self),
                ChannelEvent::Pong => r == ChannelAction::Nothing && final(self).last_pong_ms == now_ms,
                ChannelEvent::Closed | ChannelEvent::Failed => r == ChannelAction::Reconnect
                    && *final(self) == *old(self),
                ChannelEvent::Tick => *final(self) == *old(self) && r == (if now_ms
                    > old(self).last_pong_ms && now_ms - old(self).last_pong_ms > PONG_TIMEOUT_MS {
                    ChannelAction::Reconnect
                } else {
                    ChannelAction::SendPing
                }),
            },
    {
        match event {
            ChannelEvent::Text(t) => {
                let ty = json_string_at(t.as_str(), "/type");
                let pong = String::from_str("pong");
                let is_pong = match &ty {
                    Some(x) => *x == pong,
                    None => false,
                };
                if is_pong {
                    self.last_pong_ms = now_ms;
                    ChannelAction::Nothing
                } else {
                    let h = json_string_at(t.as_str(), "/hash");
                    text_message_action(ty, h, held)
                }
            },
            ChannelEvent::Ping => ChannelAction::SendPong,
            ChannelEvent::Pong => {
                self.last_pong_ms = now_ms;
                ChannelAction::Nothing
            },
            ChannelEvent::Closed | ChannelEvent::Failed => ChannelAction::Reconnect,
            ChannelEvent::Tick => {
                if now_ms > self.last_pong_ms && now_ms - self.last_pong_ms > PONG_TIMEOUT_MS {
                    ChannelAction::Reconnect
                } else {
                    ChannelAction::SendPing
                }
            },
        }
    }
}

} // verus!
