use vstd::prelude::*;
use crate::json::{
    json_array_len_at, json_array_length_at, json_bool_at, json_boolean_at, json_has_object_at,
    json_object_at, json_str_at, json_string_at,
};
use crate::text::{append_chars, chars_of, decimal, find_chars, find_from, push_decimal, string_of};

verus! {

/// The hash sent before any playlist state is known.
pub const EMPTY_LIST_HASH: &'static str = "EMPTY_LIST_HASH";

pub open spec fn opt_view(o: Option<String>) -> Option<Seq<char>> {
    match o {
        Some(s) => Some(s@),
        None => None,
    }
}

pub open spec fn is_alnum(c: char) -> bool {
    ('0' <= c && c <= '9') || ('a' <= c && c <= 'z') || ('A' <= c && c <= 'Z')
}

/// End of the run of ASCII letters and digits that starts at `i`.
pub open spec fn alnum_end(s: Seq<char>, i: int) -> int
    decreases s.len() - i,
{
    if i < 0 || i >= s.len() || !is_alnum(s[i]) {
        i
    } else {
        alnum_end(s, i + 1)
    }
}

/// The identifier of a playlist item: the `BV` video id that its URL holds (`BV` and the
/// letters and digits after it), or the URL itself where it holds none.
pub open spec fn item_id(url: Seq<char>) -> Seq<char> {
    match find_from(url, "BV"@, 0) {
        Some(i) => url.subrange(i, alnum_end(url, i + 2)),
        None => url,
    }
}

proof fn lemma_alnum_end(s: Seq<char>, i: int)
    requires
        0 <= i <= s.len(),
    ensures
        i <= alnum_end(s, i) <= s.len(),
    decreases s.len() - i,
{
    if i < s.len() && is_alnum(s[i]) {
        lemma_alnum_end(s, i + 1);
    }
}

/// The video id of a playlist item URL (see `item_id`).
pub fn extract_bv_id(url: &str) -> (r: String)
    ensures
        r@ == item_id(url@),
{
    proof {
        reveal_strlit("BV");
    }
    let v = chars_of(url);
    let bv = chars_of("BV");
    match find_chars(&v, &bv, 0) {
        Some(i) => {
            let n = v.len();
            assert(i + bv@.len() <= n);
            let mut e: usize = i + 2;
            while e < v.len() && (('0' <= v[e] && v[e] <= '9') || ('a' <= v[e] && v[e] <= 'z') || ('A' <= v[e] && v[e] <= 'Z'))
                invariant
                    i + 2 <= e <= v@.len(),
                    alnum_end(v@, i + 2) == alnum_end(v@, e as int),
                decreases v@.len() - e,
            {
                e += 1;
            }
            proof {
                lemma_alnum_end(v@, e as int);
            }
            string_of(&v, i, e)
        },
        None => String::from_str(url),
    }
}

/// What one pull of the playlist state brought back.
#[derive(Debug, Clone, PartialEq, Eq)]
pub struct PullResult {
    /// The source reports a change since the hash that was sent.
    pub changed: bool,
    /// The hash of the state now (the one sent, when the reply names none).
    pub hash: String,
    /// The id of the item now playing, if the reply names one.
    pub playing: Option<String>,
}

/// The item now playing, per a song-list reply: the `singing` item when the list has one,
/// else the last `sung` item.
pub open spec fn reply_playing_url(text: Seq<char>) -> Option<Seq<char>> {
    let singing = if json_object_at(text, "/list/singing"@) {
        json_str_at(text, "/list/singing/url"@)
    } else {
        None
    };
    match singing {
        Some(u) => Some(u),
        None => match json_array_len_at(text, "/list/sung"@) {
            Some(n) => if n > 0 {
                json_str_at(text, "/list/sung/"@ + decimal((n - 1) as nat) + "/url"@)
            } else {
                None
            },
            None => None,
        },
    }
}

/// The pull result that a song-list reply `text` describes, for a request sent with `sent_hash`.
pub open spec fn reply_result(text: Seq<char>, sent_hash: Seq<char>) -> (bool, Seq<char>, Option<Seq<char>>) {
    let changed = match json_bool_at(text, "/changed"@) {
        Some(b) => b,
        None => false,
    };
    let hash = match json_str_at(text, "/hash"@) {
        Some(h) => h,
        None => sent_hash,
    };
    let playing = match reply_playing_url(text) {
        Some(u) => Some(item_id(u)),
        None => None,
    };
    (changed, hash, playing)
}

pub open spec fn pull_view(p: PullResult) -> (bool, Seq<char>, Option<Seq<char>>) {
    (p.changed, p.hash@, opt_view(p.playing))
}

/// Reads the reply to a song-list request sent with `sent_hash`.
pub fn read_song_list_reply(text: &str, sent_hash: &str) -> (r: PullResult)
    ensures
        pull_view(r) == reply_result(text@, sent_hash@),
{
    let changed = match json_boolean_at(text, "/changed") {
        Some(b) => b,
        None => false,
    };
    let hash = match json_string_at(text, "/hash") {
        Some(h) => h,
        None => String::from_str(sent_hash),
    };
    let singing = if json_has_object_at(text, "/list/singing") {
        json_string_at(text, "/list/singing/url")
    } else {
        None
    };
    let url = match singing {
        Some(u) => Some(u),
        None => match json_array_length_at(text, "/list/sung") {
            Some(n) => if n > 0 {
                let mut p: Vec<char> = Vec::new();
                append_chars(&mut p, "/list/sung/");
                push_decimal(&mut p, (n - 1) as u64);
                append_chars(&mut p, "/url");
                let ptr = string_of(&p, 0, p.len());
                assert(p@.subrange(0, p@.len() as int) =~= p@);
                json_string_at(text, ptr.as_str())
            } else {
                None
            },
            None => None,
        },
    };
    let playing = match url {
        Some(u) => Some(extract_bv_id(u.as_str())),
        None => None,
    };
    PullResult { changed, hash, playing }
}

/// The local copy of the remote playlist state: its content hash and the item playing.
/// Only `apply_refresh` changes it.
#[derive(Debug, Clone, PartialEq, Eq)]
pub struct PlaylistSnapshot {
    pub hash: Option<String>,
    pub playing: Option<String>,
}

pub open spec fn snapshot_view(s: PlaylistSnapshot) -> (Option<Seq<char>>, Option<Seq<char>>) {
    (opt_view(s.hash), opt_view(s.playing))
}

/// Whether a pull result changes the local state: the source reports a change and the hash
/// differs from the one held.
pub open spec fn refresh_applies(s: (Option<Seq<char>>, Option<Seq<char>>), p: (bool, Seq<char>, Option<Seq<char>>)) -> bool {
    p.0 && s.0 != Some(p.1)
}

/// The local state after a pull result: unchanged unless the result applies; then the new
/// hash, and the new playing item where the result names one.
pub open spec fn refreshed(s: (Option<Seq<char>>, Option<Seq<char>>), p: (bool, Seq<char>, Option<Seq<char>>)) -> (Option<Seq<char>>, Option<Seq<char>>) {
    if refresh_applies(s, p) {
        (Some(p.1), match p.2 {
            Some(x) => Some(x),
            None => s.1,
        })
    } else {
        s
    }
}

/// The song-changed event a pull result raises: the new playing item, when the result
/// applies and names an item other than the one playing.
pub open spec fn song_change(s: (Option<Seq<char>>, Option<Seq<char>>), p: (bool, Seq<char>, Option<Seq<char>>)) -> Option<Seq<char>> {
    if refresh_applies(s, p) {
        match p.2 {
            Some(x) => if s.1 != Some(x) {
                Some(x)
            } else {
                None
            },
            None => None,
        }
    } else {
        None
    }
}

fn same_hash(held: &Option<String>, h: &String) -> (r: bool)
    ensures
        r == (opt_view(*held) == Some(h@)),
{
    match held {
        Some(x) => *x == *h,
        None => false,
    }
}

impl PlaylistSnapshot {
    pub fn new() -> (r: PlaylistSnapshot)
        ensures
            r.hash is None,
            r.playing is None,
    {
        PlaylistSnapshot { hash: None, playing: None }
    }

    /// The hash to send with the next pull: the one held, or `EMPTY_LIST_HASH`.
    pub fn request_hash(&self) -> (r: String)
        ensures
            r@ == match opt_view(self.hash) {
                Some(h) => h,
                None => EMPTY_LIST_HASH@,
            },
    {
        match &self.hash {
            Some(h) => h.clone(),
            None => String::from_str(EMPTY_LIST_HASH),
        }
    }

    /// Takes in one pull result. Returns the id to hand to the song-changed callback, once,
    /// when the playing item changed.
    pub fn apply_refresh(&mut self, pull: &PullResult) -> (r: Option<String>)
        ensures
            snapshot_view(*final(self)) == refreshed(snapshot_view(*old(self)), pull_view(*pull)),
            opt_view(r) == song_change(snapshot_view(*old(self)), pull_view(*pull)),
    {
        if !pull.changed || same_hash(&self.hash, &pull.hash) {
            return None;
        }
        self.hash = Some(pull.hash.clone());
        match &pull.playing {
            Some(x) => {
                let differs = match &self.playing {
                    Some(cur) => !(*cur == *x),
                    None => true,
                };
                self.playing = Some(x.clone());
                if differs {
                    Some(x.clone())
                } else {
                    None
                }
            },
            None => None,
        }
    }
}

/// Two pulls in a row that report the same hash raise at most one song change: once the
/// first has been taken in, the second changes nothing and raises none.
pub proof fn lemma_repeated_hash_is_quiet(
    s: (Option<Seq<char>>, Option<Seq<char>>),
    first: (bool, Seq<char>, Option<Seq<char>>),
    second: (bool, Seq<char>, Option<Seq<char>>),
)
    requires
        first.0,
        second.1 == first.1,
    ensures
        song_change(refreshed(s, first), second) is None,
        refreshed(refreshed(s, first), second) == refreshed(s, first),
{
}

/// A pull that leaves the playing item as it was raises no song change, whatever else it
/// changes; one that moves it from `a` to `b` raises exactly one, naming `b`.
pub proof fn lemma_change_only_on_new_item(
    s: (Option<Seq<char>>, Option<Seq<char>>),
    p: (bool, Seq<char>, Option<Seq<char>>),
)
    ensures
        (p.2 is None || p.2 == s.1) ==> song_change(s, p) is None,
        refresh_applies(s, p) && p.2 is Some && p.2 != s.1 ==> song_change(s, p) == p.2
            && refreshed(s, p).1 == p.2,
{
}

} // verus!
