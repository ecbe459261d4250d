//! Recordings as the library sees them.
use vstd::prelude::*;

use crate::text::{copy_option, option_text};

verus! {

/// A recording.
#[derive(Debug)]
pub struct Recording {
    pub id: Option<i64>,
    pub directory_name: String,
    pub display_name: Option<String>,
    pub duration_seconds: Option<i64>,
    pub channels: i64,
    pub has_transcript: bool,
    pub summary: Option<String>,
    /// JSON lists.
    pub key_points: Option<String>,
    pub action_items: Option<String>,
    /// When it was made, on the clock of UTC and on the local one.
    pub created_utc: i64,
    pub created_local: i64,
}

pub struct RecordingView {
    pub id: Option<i64>,
    pub directory_name: Seq<char>,
    pub display_name: Option<Seq<char>>,
    pub duration_seconds: Option<i64>,
    pub channels: i64,
    pub has_transcript: bool,
    pub summary: Option<Seq<char>>,
    pub key_points: Option<Seq<char>>,
    pub action_items: Option<Seq<char>>,
    pub created_utc: i64,
    pub created_local: i64,
}

impl View for Recording {
    type V = RecordingView;

    open spec fn view(&self) -> RecordingView {
        RecordingView {
            id: self.id,
            directory_name: self.directory_name@,
            display_name: option_text(self.display_name),
            duration_seconds: self.duration_seconds,
            channels: self.channels,
            has_transcript: self.has_transcript,
            summary: option_text(self.summary),
            key_points: option_text(self.key_points),
            action_items: option_text(self.action_items),
            created_utc: self.created_utc,
            created_local: self.created_local,
        }
    }
}

pub open spec fn recording_views(v: Seq<Recording>) -> Seq<RecordingView> {
    Seq::new(v.len(), |i: int| v[i]@)
}

pub open spec fn option_recording(r: Option<Recording>) -> Option<RecordingView> {
    match r {
        Some(x) => Some(x@),
        None => None,
    }
}

/// A JSON list that holds something.
pub open spec fn filled_list(json: Option<Seq<char>>) -> bool {
    json matches Some(s) && s.len() > 0 && s != "[]"@
}

/// Whether a JSON list holds something.
pub fn is_filled_list(json: &Option<String>) -> (r: bool)
    ensures
        r == filled_list(option_text(*json)),
{
    match json {
        Some(s) => s.as_str().unicode_len() > 0 && !crate::text::same(s.as_str(), "[]"),
        None => false,
    }
}

impl RecordingView {
    /// The name under which it is shown.
    pub open spec fn shown_name(self) -> Seq<char> {
        match self.display_name {
            Some(n) => n,
            None => self.directory_name,
        }
    }

    /// The number under which the chat knows it.
    pub open spec fn number(self) -> i64 {
        match self.id {
            Some(id) => id,
            None => 0,
        }
    }

    /// Its length in seconds, 0 where that is not known.
    pub open spec fn seconds(self) -> i64 {
        match self.duration_seconds {
            Some(d) => d,
            None => 0,
        }
    }
}

impl Recording {
    /// A copy of the recording.
    pub fn copy(&self) -> (r: Recording)
        ensures
            r@ == self@,
    {
        Recording {
            id: self.id,
            directory_name: self.directory_name.clone(),
            display_name: copy_option(&self.display_name),
            duration_seconds: self.duration_seconds,
            channels: self.channels,
            has_transcript: self.has_transcript,
            summary: copy_option(&self.summary),
            key_points: copy_option(&self.key_points),
            action_items: copy_option(&self.action_items),
            created_utc: self.created_utc,
            created_local: self.created_local,
        }
    }

    /// The name under which it is shown.
    pub fn shown_name(&self) -> (r: &str)
        ensures
            r@ == self@.shown_name(),
    {
        match &self.display_name {
            Some(n) => n.as_str(),
            None => self.directory_name.as_str(),
        }
    }

    /// The number under which the chat knows it.
    pub fn number(&self) -> (r: i64)
        ensures
            r == self@.number(),
    {
        match self.id {
            Some(id) => id,
            None => 0,
        }
    }

    /// Its length in seconds, 0 where that is not known.
    pub fn seconds(&self) -> (r: i64)
        ensures
            r == self@.seconds(),
    {
        match self.duration_seconds {
            Some(d) => d,
            None => 0,
        }
    }
}

/// The position of the recording with an ID, if there is one.
pub open spec fn with_id(v: Seq<RecordingView>, id: i64, from: int) -> Option<int>
    decreases v.len() - from,
{
    if from < 0 || from >= v.len() {
        None
    } else if v[from].id == Some(id) {
        Some(from)
    } else {
        with_id(v, id, from + 1)
    }
}

/// The position of the first recording with an ID, if there is one.
pub fn find_by_id(v: &Vec<Recording>, id: i64) -> (r: Option<usize>)
    ensures
        (match r {
            Some(i) => Some(i as int),
            None => None,
        }) == with_id(recording_views(v@), id, 0),
        r matches Some(i) ==> i < v@.len(),
{
    let ghost views = recording_views(v@);
    let mut i: usize = 0;
    while i < v.len()
        invariant
            i <= v@.len(),
            views == recording_views(v@),
            with_id(views, id, 0) == with_id(views, id, i as int),
        decreases v.len() - i,
    {
        assert(views[i as int] == v@[i as int]@);
        match v[i].id {
            Some(x) => {
                if x == id {
                    return Some(i);
                }
            },
            None => {},
        }
        i += 1;
    }
    None
}

/// How much has been recorded.
#[derive(Clone, Copy, Debug, PartialEq, Eq, Structural)]
pub struct RecordingStats {
    pub total_recordings: i64,
    pub total_duration_seconds: i64,
}

} // verus!
