use vstd::prelude::*;
use crate::renderer::{parse_u32, u32_text_value};
use crate::retry::RetryDecision;
use crate::text::{chars_of, find_chars, find_from, string_of};

verus! {

/// Where the first `-` of an item id stands, or its length when it has none.
pub open spec fn id_end(id: Seq<char>) -> int {
    match find_from(id, seq!['-'], 0) {
        Some(i) => i,
        None => id.len() as int,
    }
}

/// The page an item id names after `-page`, if what follows reads as a number.
pub open spec fn id_page(id: Seq<char>) -> Option<nat> {
    match find_from(id, "-page"@, 0) {
        Some(p) => u32_text_value(id.subrange(p + 5, id.len() as int)),
        None => None,
    }
}

/// Splits a playlist item id such as `BV1xx-page2` into the video id (what comes before the
/// first `-`) and the page number that follows `-page`, if any.
pub fn split_item_id(id: &str) -> (r: (String, Option<u32>))
    ensures
        r.0@ == id@.subrange(0, id_end(id@)),
        match r.1 {
            Some(p) => id_page(id@) == Some(p as nat),
            None => id_page(id@) is None,
        },
{
    proof {
        reveal_strlit("-page");
    }
    let v = chars_of(id);
    let dash = vec!['-'];
    assert(dash@ =~= seq!['-']);
    let end = match find_chars(&v, &dash, 0) {
        Some(i) => i,
        None => v.len(),
    };
    let video = string_of(&v, 0, end);
    let marker = chars_of("-page");
    let n = v.len();
    let page = match find_chars(&v, &marker, 0) {
        Some(p) => {
            assert(p + marker@.len() <= n);
            let rest = string_of(&v, p + 5, n);
            parse_u32(rest.as_str())
        },
        None => None,
    };
    (video, page)
}

/// The steps that switch the renderer to a new track, in this fixed order.
#[derive(Debug, Clone, Copy, PartialEq, Eq)]
pub enum TransitionPhase {
    Stopping,
    /// Turning the item id into a fetchable media URL.
    Resolving,
    SettingUri,
    Starting,
    Done,
    /// The media URL could not be had; the transition was given up.
    Abandoned,
}

/// One song-changed transition: stop, resolve the media URL, set it, play. Each renderer
/// step is retried until it succeeds before the next one starts.
#[derive(Debug, Clone, Copy, PartialEq, Eq)]
pub struct Transition {
    pub phase: TransitionPhase,
}

pub open spec fn next_phase(p: TransitionPhase) -> TransitionPhase {
    match p {
        TransitionPhase::Stopping => TransitionPhase::Resolving,
        TransitionPhase::Resolving => TransitionPhase::SettingUri,
        TransitionPhase::SettingUri => TransitionPhase::Starting,
        TransitionPhase::Starting => TransitionPhase::Done,
        other => other,
    }
}

pub open spec fn is_renderer_step(p: TransitionPhase) -> bool {
    p == TransitionPhase::Stopping || p == TransitionPhase::SettingUri || p
        == TransitionPhase::Starting
}

impl Transition {
    pub fn new() -> (r: Transition)
        ensures
            r.phase == TransitionPhase::Stopping,
    {
        Transition { phase: TransitionPhase::Stopping }
    }

    /// The renderer step in progress finished one attempt: on success the next step starts,
    /// otherwise the same step runs again.
    pub fn on_step(&mut self, decision: RetryDecision)
        requires
            is_renderer_step(old(self).phase),
        ensures
            final(self).phase == (if decision == RetryDecision::Succeeded {
                next_phase(old(self).phase)
            } else {
                old(self).phase
            }),
    {
        if let RetryDecision::Succeeded = decision {
            self.phase = match self.phase {
                TransitionPhase::Stopping => TransitionPhase::Resolving,
                TransitionPhase::SettingUri => TransitionPhase::Starting,
                _ => TransitionPhase::Done,
            };
        }
    }

    /// The media URL was resolved (`true`) or could not be (`false`).
    pub fn on_resolved(&mut self, resolved: bool)
        requires
            old(self).phase == TransitionPhase::Resolving,
        ensures
            final(self).phase == (if resolved {
                TransitionPhase::SettingUri
            } else {
                TransitionPhase::Abandoned
            }),
    {
        self.phase = if resolved {
            TransitionPhase::SettingUri
        } else {
            TransitionPhase::Abandoned
        };
    }

    pub fn is_finished(&self) -> (r: bool)
        ensures
            r == (self.phase == TransitionPhase::Done || self.phase == TransitionPhase::Abandoned),
    {
        match self.phase {
            TransitionPhase::Done | TransitionPhase::Abandoned => true,
            _ => false,
        }
    }
}

} // verus!
