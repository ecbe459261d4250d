//! The list of recordings: moving in it, paging, searching, deleting,
//! importing and playing.
use vstd::prelude::*;

use crate::keys::{is_down, is_up, Key};
use crate::recordings::{
    option_recording, recording_views, Recording, RecordingStats, RecordingView,
};
use crate::text::{
    ascii_lower, cat, cat3, cat4, chars_of, lowercase, option_text, same, signed_decimal,
    signed_decimal_of, trim, trimmed, without_last,
};
use crate::update::Platform;

verus! {

/// How many recordings a page shows.
pub const PAGE_SIZE: usize = 50;

// ─── The list ────────────────────────────────────────────────────────────────

#[derive(Debug)]
pub struct Listing {
    pub recordings: Vec<Recording>,
    pub selected: Option<usize>,
    pub current_page: usize,
    /// The page to go back to if the one that is being loaded is empty.
    pub turned_from: Option<usize>,
    /// The page that is being loaded is entered from below.
    pub enters_at_end: bool,
    pub search_mode: bool,
    pub search_query: String,
    pub stats: Option<RecordingStats>,
}

pub struct ListingView {
    pub recordings: Seq<RecordingView>,
    pub selected: Option<usize>,
    pub current_page: usize,
    pub turned_from: Option<usize>,
    pub enters_at_end: bool,
    pub search_mode: bool,
    pub search_query: Seq<char>,
    pub stats: Option<RecordingStats>,
}

impl View for Listing {
    type V = ListingView;

    open spec fn view(&self) -> ListingView {
        ListingView {
            recordings: recording_views(self.recordings@),
            selected: self.selected,
            current_page: self.current_page,
            turned_from: self.turned_from,
            enters_at_end: self.enters_at_end,
            search_mode: self.search_mode,
            search_query: self.search_query@,
            stats: self.stats,
        }
    }
}

/// What is to be loaded.
#[derive(Debug)]
pub enum Wanted {
    Page { limit: i64, offset: i64 },
    Matches(String),
}

impl ListingView {
    /// The recording under the cursor.
    pub open spec fn current(self) -> Option<RecordingView> {
        match self.selected {
            Some(i) => if i < self.recordings.len() {
                Some(self.recordings[i as int])
            } else {
                None
            },
            None => None,
        }
    }

    /// One down, from the last to the first.
    pub open spec fn next(self) -> ListingView {
        if self.recordings.len() == 0 {
            self
        } else {
            ListingView {
                selected: Some(
                    match self.selected {
                        Some(i) => if i >= self.recordings.len() - 1 {
                            0
                        } else {
                            (i + 1) as usize
                        },
                        None => 0,
                    },
                ),
                ..self
            }
        }
    }

    /// One up, from the first to the last.
    pub open spec fn previous(self) -> ListingView {
        if self.recordings.len() == 0 {
            self
        } else {
            ListingView {
                selected: Some(
                    match self.selected {
                        Some(i) => if i == 0 {
                            (self.recordings.len() - 1) as usize
                        } else {
                            (i - 1) as usize
                        },
                        None => 0,
                    },
                ),
                ..self
            }
        }
    }

    /// New recordings: the cursor goes to the first, or to the last where the
    /// page is entered from below.
    pub open spec fn loaded(self, list: Seq<RecordingView>) -> ListingView {
        ListingView {
            recordings: list,
            selected: if list.len() == 0 {
                None
            } else if self.enters_at_end {
                Some((list.len() - 1) as usize)
            } else {
                Some(0)
            },
            enters_at_end: false,
            ..self
        }
    }

    /// The next page is wanted.
    pub open spec fn turning(self) -> ListingView {
        ListingView {
            current_page: (self.current_page + 1) as usize,
            turned_from: Some(self.current_page),
            enters_at_end: false,
            ..self
        }
    }

    /// The page before is wanted, to be entered from below or from above.
    pub open spec fn turning_back(self, enters_at_end: bool) -> ListingView {
        ListingView { current_page: (self.current_page - 1) as usize, enters_at_end, ..self }
    }

    /// The next recording stands on the next page, if there is one: the cursor
    /// is at the end of a full page. What a search has found is one page.
    pub open spec fn ends_here(self) -> bool {
        self.search_query.len() == 0 && self.recordings.len() >= PAGE_SIZE && (
        self.selected matches Some(i) && i >= self.recordings.len() - 1)
    }

    /// The recording before stands on the page before.
    pub open spec fn begins_here(self) -> bool {
        self.search_query.len() == 0 && self.current_page > 0 && self.selected == Some(0usize)
    }

    /// The page that was wanted is there. If it is empty, the list goes back,
    /// and the page before has to be loaded again.
    pub open spec fn turned(self, list: Seq<RecordingView>) -> (ListingView, bool) {
        match self.turned_from {
            Some(old) => if list.len() == 0 {
                (
                    ListingView { current_page: old, turned_from: None, ..self.loaded(list) },
                    true,
                )
            } else {
                (ListingView { turned_from: None, ..self.loaded(list) }, false)
            },
            None => (self.loaded(list), false),
        }
    }

    /// A key while a search is being typed; whether the list is to be loaded.
    pub open spec fn searching(self, key: Key) -> (ListingView, bool) {
        match key {
            Key::Esc => (
                ListingView { search_mode: false, search_query: Seq::empty(), ..self },
                true,
            ),
            Key::Enter => (ListingView { search_mode: false, ..self }, true),
            Key::Backspace => (
                ListingView { search_query: without_last(self.search_query), ..self },
                false,
            ),
            Key::Char(c) => (
                ListingView { search_query: self.search_query.push(c), ..self },
                false,
            ),
            _ => (self, false),
        }
    }
}

impl Listing {
    /// The list before anything was loaded.
    pub fn new() -> (r: Listing)
        ensures
            r@ == (ListingView {
                recordings: Seq::empty(),
                selected: Some(0),
                current_page: 0,
                turned_from: None,
                enters_at_end: false,
                search_mode: false,
                search_query: Seq::empty(),
                stats: None,
            }),
    {
        let r = Listing {
            recordings: Vec::new(),
            selected: Some(0),
            current_page: 0,
            turned_from: None,
            enters_at_end: false,
            search_mode: false,
            search_query: String::new(),
            stats: None,
        };
        assert(r@.recordings =~= Seq::<RecordingView>::empty());
        r
    }

    /// The recording under the cursor.
    pub fn get_current_recording(&self) -> (r: Option<Recording>)
        ensures
            option_recording(r) == self@.current(),
    {
        match self.selected {
            Some(i) => {
                if i < self.recordings.len() {
                    assert(self@.recordings[i as int] == self.recordings@[i as int]@);
                    Some(self.recordings[i].copy())
                } else {
                    None
                }
            },
            None => None,
        }
    }

    pub fn next_recording(&mut self)
        ensures
            final(self)@ == old(self)@.next(),
    {
        if self.recordings.len() == 0 {
            return;
        }
        let i: usize = match self.selected {
            Some(i) => {
                if i >= self.recordings.len() - 1 {
                    0
                } else {
                    i + 1
                }
            },
            None => 0,
        };
        self.selected = Some(i);
    }

    pub fn previous_recording(&mut self)
        ensures
            final(self)@ == old(self)@.previous(),
    {
        if self.recordings.len() == 0 {
            return;
        }
        let i: usize = match self.selected {
            Some(i) => {
                if i == 0 {
                    self.recordings.len() - 1
                } else {
                    i - 1
                }
            },
            None => 0,
        };
        self.selected = Some(i);
    }

    /// The number of recordings before the current page.
    pub fn offset(&self) -> (r: i64)
        requires
            self.current_page * PAGE_SIZE <= i64::MAX,
        ensures
            r == self.current_page * PAGE_SIZE,
    {
        let page: u64 = self.current_page as u64;
        (page * (PAGE_SIZE as u64)) as i64
    }

    /// What is to be loaded: a page of all recordings, or what the search finds.
    pub fn wanted(&self) -> (r: Wanted)
        requires
            self@.search_query.len() == 0 ==> self.current_page * PAGE_SIZE <= i64::MAX,
        ensures
            (match r {
                Wanted::Page { limit, offset } => self@.search_query.len() == 0 && limit
                    == PAGE_SIZE && offset == self.current_page * PAGE_SIZE,
                Wanted::Matches(query) => self@.search_query.len() > 0 && query@
                    == self@.search_query,
            }),
    {
        if self.search_query.as_str().unicode_len() == 0 {
            Wanted::Page { limit: PAGE_SIZE as i64, offset: self.offset() }
        } else {
            Wanted::Matches(self.search_query.clone())
        }
    }

    /// The next page is wanted.
    pub fn next_page(&mut self)
        requires
            old(self).current_page < usize::MAX,
        ensures
            final(self)@ == old(self)@.turning(),
    {
        self.turned_from = Some(self.current_page);
        self.enters_at_end = false;
        self.current_page = self.current_page + 1;
    }

    pub fn is_at_end(&self) -> (r: bool)
        ensures
            r == self@.ends_here(),
    {
        if self.search_query.as_str().unicode_len() > 0 || self.recordings.len() < PAGE_SIZE {
            return false;
        }
        match self.selected {
            Some(i) => i >= self.recordings.len() - 1,
            None => false,
        }
    }

    pub fn is_at_beginning(&self) -> (r: bool)
        ensures
            r == self@.begins_here(),
    {
        if self.search_query.as_str().unicode_len() > 0 || self.current_page == 0 {
            return false;
        }
        match self.selected {
            Some(i) => i == 0,
            None => false,
        }
    }

    /// The page before is wanted, to be entered from below.
    pub fn page_above(&mut self)
        requires
            old(self).current_page > 0,
        ensures
            final(self)@ == old(self)@.turning_back(true),
    {
        self.current_page = self.current_page - 1;
        self.enters_at_end = true;
    }

    /// The page before is wanted; `false` where there is none.
    pub fn previous_page(&mut self) -> (load: bool)
        ensures
            load == (old(self)@.current_page > 0),
            final(self)@ == (if load {
                old(self)@.turning_back(false)
            } else {
                old(self)@
            }),
    {
        if self.current_page > 0 {
            self.current_page = self.current_page - 1;
            self.enters_at_end = false;
            true
        } else {
            false
        }
    }

    /// The recordings were loaded. Whether they have to be loaded once more,
    /// since the list went back a page.
    pub fn on_recordings(&mut self, list: Vec<Recording>) -> (again: bool)
        ensures
            (final(self)@, again) == old(self)@.turned(recording_views(list@)),
    {
        let n = list.len();
        let empty = n == 0;
        self.recordings = list;
        self.selected = if empty {
            None
        } else if self.enters_at_end {
            Some(n - 1)
        } else {
            Some(0)
        };
        self.enters_at_end = false;
        match self.turned_from {
            Some(old_page) => {
                self.turned_from = None;
                if empty {
                    self.current_page = old_page;
                }
                empty
            },
            None => false,
        }
    }

    /// A key while a search is being typed; whether the list is to be loaded.
    pub fn handle_search_input(&mut self, key: Key) -> (load: bool)
        ensures
            (final(self)@, load) == old(self)@.searching(key),
    {
        match key {
            Key::Esc => {
                self.search_mode = false;
                self.search_query.clear();
                true
            },
            Key::Enter => {
                self.search_mode = false;
                true
            },
            Key::Backspace => {
                let _ = self.search_query.pop();
                false
            },
            Key::Char(c) => {
                self.search_query.push(c);
                false
            },
            _ => false,
        }
    }
}

// ─── Deleting ────────────────────────────────────────────────────────────────

#[derive(Debug)]
pub struct Deletion {
    pub show_delete_confirm: bool,
    /// 0 confirms, 1 declines.
    pub selection: usize,
    pub candidate: Option<Recording>,
}

pub struct DeletionView {
    pub show_delete_confirm: bool,
    pub selection: usize,
    pub candidate: Option<RecordingView>,
}

impl View for Deletion {
    type V = DeletionView;

    open spec fn view(&self) -> DeletionView {
        DeletionView {
            show_delete_confirm: self.show_delete_confirm,
            selection: self.selection,
            candidate: option_recording(self.candidate),
        }
    }
}

impl DeletionView {
    /// The question is asked of a recording; "no" is preset.
    pub open spec fn asking(self, r: Option<RecordingView>) -> DeletionView {
        if r is Some {
            DeletionView { show_delete_confirm: true, selection: 1, candidate: r }
        } else {
            self
        }
    }

    /// A key at the question, and the recording that is to be deleted.
    pub open spec fn pressing(self, key: Key) -> (DeletionView, Option<RecordingView>) {
        if is_up(key) {
            (DeletionView { selection: 0, ..self }, None)
        } else if is_down(key) {
            (DeletionView { selection: 1, ..self }, None)
        } else if key == Key::Enter {
            (
                DeletionView { show_delete_confirm: false, candidate: None, ..self },
                if self.selection == 0 {
                    self.candidate
                } else {
                    None
                },
            )
        } else if key == Key::Esc {
            (DeletionView { show_delete_confirm: false, candidate: None, ..self }, None)
        } else {
            (self, None)
        }
    }
}

impl Deletion {
    /// Nothing is asked.
    pub fn new() -> (r: Deletion)
        ensures
            r@ == (DeletionView { show_delete_confirm: false, selection: 1, candidate: None }),
    {
        Deletion { show_delete_confirm: false, selection: 1, candidate: None }
    }

    /// Asks whether a recording is to be deleted.
    pub fn show_delete_confirmation(&mut self, recording: Option<Recording>)
        ensures
            final(self)@ == old(self)@.asking(option_recording(recording)),
    {
        if recording.is_some() {
            self.candidate = recording;
            self.selection = 1;
            self.show_delete_confirm = true;
        }
    }

    /// A key at the question; the recording that is to be deleted is returned.
    pub fn handle_delete_confirmation(&mut self, key: Key) -> (r: Option<Recording>)
        ensures
            (final(self)@, option_recording(r)) == old(self)@.pressing(key),
    {
        if is_up(key) {
            self.selection = 0;
            None
        } else if is_down(key) {
            self.selection = 1;
            None
        } else {
            match key {
                Key::Enter => {
                    let mut taken: Option<Recording> = None;
                    std::mem::swap(&mut taken, &mut self.candidate);
                    self.show_delete_confirm = false;
                    if self.selection == 0 {
                        taken
                    } else {
                        None
                    }
                },
                Key::Esc => {
                    self.show_delete_confirm = false;
                    self.candidate = None;
                    None
                },
                _ => None,
            }
        }
    }
}

/// Why a recording could not be deleted.
pub open spec fn deletion_failure(id: Option<i64>) -> Seq<char> {
    match id {
        Some(n) => "Could not delete recording (ID: "@ + signed_decimal(n as int)
            + ").\nHint: This often happens when there are related rows (e.g., transcripts) without ON DELETE CASCADE. Delete dependents first or enable cascading, then retry."@,
        None => "Selected recording has no database ID; cannot delete."@,
    }
}

/// Why a recording could not be deleted: the database refused, or does not
/// know it.
pub fn deletion_error(id: Option<i64>) -> (r: String)
    ensures
        r@ == deletion_failure(id),
{
    match id {
        Some(n) => cat3(
            "Could not delete recording (ID: ",
            signed_decimal_of(n).as_str(),
            ").\nHint: This often happens when there are related rows (e.g., transcripts) without ON DELETE CASCADE. Delete dependents first or enable cascading, then retry.",
        ),
        None => "Selected recording has no database ID; cannot delete.".to_owned(),
    }
}

// ─── Importing ───────────────────────────────────────────────────────────────

#[derive(Clone, Copy, Debug, PartialEq, Eq, Structural)]
pub enum FileDialogStage {
    /// Asking for file path.
    FilePath,
    /// Asking for display name (optional).
    FileName,
}

#[derive(Debug)]
pub struct FileDialog {
    pub shown: bool,
    pub path_input: String,
    pub name_input: String,
    pub stage: FileDialogStage,
}

pub struct FileDialogView {
    pub shown: bool,
    pub path_input: Seq<char>,
    pub name_input: Seq<char>,
    pub stage: FileDialogStage,
}

impl View for FileDialog {
    type V = FileDialogView;

    open spec fn view(&self) -> FileDialogView {
        FileDialogView {
            shown: self.shown,
            path_input: self.path_input@,
            name_input: self.name_input@,
            stage: self.stage,
        }
    }
}

/// What the disk says of the path that was typed, white space at its ends left
/// out.
#[derive(Debug)]
pub struct FileFacts {
    pub exists: bool,
    /// The name of the file without its extension.
    pub stem: Option<String>,
}

/// What comes of a key in the dialog.
#[derive(Debug)]
pub enum DialogOutcome {
    Stay,
    /// Something is wrong with the path.
    Note(&'static str),
    /// The file is to be imported under a name.
    Import { path: String, name: String },
}

pub enum DialogOutcomeView {
    Stay,
    Note(Seq<char>),
    Import { path: Seq<char>, name: Seq<char> },
}

impl View for DialogOutcome {
    type V = DialogOutcomeView;

    open spec fn view(&self) -> DialogOutcomeView {
        match *self {
            DialogOutcome::Stay => DialogOutcomeView::Stay,
            DialogOutcome::Note(s) => DialogOutcomeView::Note(s@),
            DialogOutcome::Import { path, name } => DialogOutcomeView::Import {
                path: path@,
                name: name@,
            },
        }
    }
}

/// The name under which a file is imported.
pub open spec fn import_name(typed: Seq<char>, stem: Option<Seq<char>>) -> Seq<char> {
    if trimmed(typed).len() > 0 {
        trimmed(typed)
    } else {
        match stem {
            Some(s) => s,
            None => "imported_audio"@,
        }
    }
}

impl FileDialogView {
    /// The dialog asks for a path.
    pub open spec fn opened(self) -> FileDialogView {
        FileDialogView {
            shown: true,
            path_input: Seq::empty(),
            name_input: Seq::empty(),
            stage: FileDialogStage::FilePath,
        }
    }

    /// Enter in the dialog.
    pub open spec fn entering(self, facts: FileFacts) -> (FileDialogView, DialogOutcomeView) {
        match self.stage {
            FileDialogStage::FilePath => if trimmed(self.path_input).len() == 0 {
                (self, DialogOutcomeView::Note("Please enter a file path"@))
            } else if !facts.exists {
                (self, DialogOutcomeView::Note("File not found. Please check the path."@))
            } else {
                (
                    FileDialogView {
                        stage: FileDialogStage::FileName,
                        name_input: match option_text(facts.stem) {
                            Some(s) => s,
                            None => self.name_input,
                        },
                        ..self
                    },
                    DialogOutcomeView::Stay,
                )
            },
            FileDialogStage::FileName => (
                FileDialogView { shown: false, ..self },
                DialogOutcomeView::Import {
                    path: trimmed(self.path_input),
                    name: import_name(self.name_input, option_text(facts.stem)),
                },
            ),
        }
    }

    /// What a key changes in the dialog, and what comes of it.
    pub open spec fn pressing(self, key: Key, facts: FileFacts) -> (
        FileDialogView,
        DialogOutcomeView,
    ) {
        match key {
            Key::Esc => (
                FileDialogView {
                    shown: false,
                    path_input: Seq::empty(),
                    name_input: Seq::empty(),
                    stage: FileDialogStage::FilePath,
                },
                DialogOutcomeView::Stay,
            ),
            Key::Enter => self.entering(facts),
            Key::Char(c) => (
                match self.stage {
                    FileDialogStage::FilePath => FileDialogView {
                        path_input: self.path_input.push(c),
                        ..self
                    },
                    FileDialogStage::FileName => FileDialogView {
                        name_input: self.name_input.push(c),
                        ..self
                    },
                },
                DialogOutcomeView::Stay,
            ),
            Key::Backspace => (
                match self.stage {
                    FileDialogStage::FilePath => FileDialogView {
                        path_input: without_last(self.path_input),
                        ..self
                    },
                    FileDialogStage::FileName => FileDialogView {
                        name_input: without_last(self.name_input),
                        ..self
                    },
                },
                DialogOutcomeView::Stay,
            ),
            _ => (self, DialogOutcomeView::Stay),
        }
    }
}

impl FileDialog {
    /// The dialog is closed.
    pub fn new() -> (r: FileDialog)
        ensures
            r@ == (FileDialogView {
                shown: false,
                path_input: Seq::empty(),
                name_input: Seq::empty(),
                stage: FileDialogStage::FilePath,
            }),
    {
        FileDialog {
            shown: false,
            path_input: String::new(),
            name_input: String::new(),
            stage: FileDialogStage::FilePath,
        }
    }

    /// Opens the dialog.
    pub fn open(&mut self)
        ensures
            final(self)@ == old(self)@.opened(),
    {
        self.shown = true;
        self.stage = FileDialogStage::FilePath;
        self.path_input.clear();
        self.name_input.clear();
    }

    fn enter(&mut self, facts: &FileFacts) -> (r: DialogOutcome)
        ensures
            (final(self)@, r@) == old(self)@.entering(*facts),
    {
        match self.stage {
            FileDialogStage::FilePath => {
                if trim(self.path_input.as_str()).unicode_len() == 0 {
                    return DialogOutcome::Note("Please enter a file path");
                }
                if !facts.exists {
                    return DialogOutcome::Note("File not found. Please check the path.");
                }
                self.stage = FileDialogStage::FileName;
                match &facts.stem {
                    Some(s) => {
                        self.name_input = s.clone();
                    },
                    None => {},
                }
                DialogOutcome::Stay
            },
            FileDialogStage::FileName => {
                let typed = trim(self.name_input.as_str());
                let name = if typed.unicode_len() > 0 {
                    typed.to_owned()
                } else {
                    match &facts.stem {
                        Some(s) => s.clone(),
                        None => "imported_audio".to_owned(),
                    }
                };
                let path = trim(self.path_input.as_str()).to_owned();
                self.shown = false;
                DialogOutcome::Import { path, name }
            },
        }
    }

    /// A key in the dialog.
    pub fn handle_file_dialog_keys(&mut self, key: Key, facts: &FileFacts) -> (r: DialogOutcome)
        ensures
            (final(self)@, r@) == old(self)@.pressing(key, *facts),
    {
        match key {
            Key::Esc => {
                self.shown = false;
                self.path_input.clear();
                self.name_input.clear();
                self.stage = FileDialogStage::FilePath;
                DialogOutcome::Stay
            },
            Key::Enter => self.enter(facts),
            Key::Char(c) => {
                match self.stage {
                    FileDialogStage::FilePath => self.path_input.push(c),
                    FileDialogStage::FileName => self.name_input.push(c),
                }
                DialogOutcome::Stay
            },
            Key::Backspace => {
                match self.stage {
                    FileDialogStage::FilePath => {
                        let _ = self.path_input.pop();
                    },
                    FileDialogStage::FileName => {
                        let _ = self.name_input.pop();
                    },
                }
                DialogOutcome::Stay
            },
            _ => DialogOutcome::Stay,
        }
    }
}

// ─── Playing ─────────────────────────────────────────────────────────────────

/// Two texts that differ at most in the case of the letters of ASCII.
pub open spec fn same_ascii_case_aside(a: Seq<char>, b: Seq<char>) -> bool {
    a.len() == b.len() && forall|i: int|
        0 <= i < a.len() ==> ascii_lower(#[trigger] a[i]) == ascii_lower(b[i])
}

fn same_ignoring_case(a: &str, b: &str) -> (r: bool)
    ensures
        r == same_ascii_case_aside(a@, b@),
{
    let x = chars_of(a);
    let y = chars_of(b);
    if x.len() != y.len() {
        return false;
    }
    let mut i: usize = 0;
    while i < x.len()
        invariant
            i <= x@.len(),
            x@ == a@,
            y@ == b@,
            x@.len() == y@.len(),
            forall|j: int| 0 <= j < i ==> ascii_lower(#[trigger] a@[j]) == ascii_lower(b@[j]),
        decreases x.len() - i,
    {
        if ascii_lower(x[i]) != ascii_lower(y[i]) {
            assert(ascii_lower(a@[i as int]) != ascii_lower(b@[i as int]));
            return false;
        }
        i += 1;
    }
    true
}

/// The extensions of audio files.
#[verifier::allow_in_spec]
pub fn audio_extension(i: usize) -> &'static str
    returns
        (match i {
            0 => "wav",
            1 => "mp3",
            2 => "m4a",
            3 => "aac",
            4 => "flac",
            5 => "ogg",
            6 => "opus",
            7 => "aiff",
            8 => "aif",
            _ => "caf",
        }),
{
    match i {
        0 => "wav",
        1 => "mp3",
        2 => "m4a",
        3 => "aac",
        4 => "flac",
        5 => "ogg",
        6 => "opus",
        7 => "aiff",
        8 => "aif",
        _ => "caf",
    }
}

/// A file with this extension holds audio.
pub open spec fn is_audio(ext: Option<Seq<char>>) -> bool {
    ext matches Some(e) && exists|i: usize|
        i < 10 && same_ascii_case_aside((#[trigger] audio_extension(i))@, e)
}

fn is_audio_extension(ext: &Option<String>) -> (r: bool)
    ensures
        r == is_audio(option_text(*ext)),
{
    match ext {
        Some(e) => {
            let mut i: usize = 0;
            while i < 10
                invariant
                    i <= 10,
                    option_text(*ext) == Some(e@),
                    forall|j: usize|
                        j < i ==> !same_ascii_case_aside((#[trigger] audio_extension(j))@, e@),
                decreases 10 - i,
            {
                if same_ignoring_case(audio_extension(i), e.as_str()) {
                    assert(same_ascii_case_aside((audio_extension(i))@, e@));
                    return true;
                }
                i += 1;
            }
            false
        },
        None => false,
    }
}

/// The first audio file among files with these extensions.
pub fn find_audio_file(extensions: &Vec<Option<String>>) -> (r: Option<usize>)
    ensures
        r matches Some(i) ==> i < extensions@.len() && is_audio(option_text(extensions@[i as int]))
            && forall|j: int| 0 <= j < i ==> !is_audio(option_text(#[trigger] extensions@[j])),
        r is None ==> forall|j: int|
            0 <= j < extensions@.len() ==> !is_audio(option_text(#[trigger] extensions@[j])),
{
    let mut i: usize = 0;
    while i < extensions.len()
        invariant
            i <= extensions@.len(),
            forall|j: int| 0 <= j < i ==> !is_audio(option_text(#[trigger] extensions@[j])),
        decreases extensions.len() - i,
    {
        if is_audio_extension(&extensions[i]) {
            return Some(i);
        }
        i += 1;
    }
    None
}

/// Whether the extension is that of an MP3 file.
pub fn is_mp3(ext: &Option<String>) -> (r: bool)
    ensures
        r == (*ext matches Some(e) && lowercase(e@) == "mp3"@),
{
    match ext {
        Some(e) => same(e.to_lowercase().as_str(), "mp3"),
        None => false,
    }
}

/// A program that plays audio.
#[derive(Clone, Copy, Debug, PartialEq, Eq, Structural)]
pub enum Player {
    Mpv,
    Ffplay,
    Afplay,
    Aplay,
    PowerShell,
}

/// The program's name.
#[verifier::allow_in_spec]
pub fn player_program(p: Player) -> &'static str
    returns
        (match p {
            Player::Mpv => "mpv",
            Player::Ffplay => "ffplay",
            Player::Afplay => "afplay",
            Player::Aplay => "aplay",
            Player::PowerShell => "powershell",
        }),
{
    match p {
        Player::Mpv => "mpv",
        Player::Ffplay => "ffplay",
        Player::Afplay => "afplay",
        Player::Aplay => "aplay",
        Player::PowerShell => "powershell",
    }
}

/// The arguments in front of the file, separated by blanks.
#[verifier::allow_in_spec]
pub fn player_arguments(p: Player) -> &'static str
    returns
        (match p {
            Player::Mpv => "--really-quiet --audio-channels=stereo",
            Player::Ffplay => "-nodisp -autoexit -loglevel quiet -ac 2",
            Player::Afplay => "",
            Player::Aplay => "-c 2",
            Player::PowerShell => "-NoProfile -Command",
        }),
{
    match p {
        Player::Mpv => "--really-quiet --audio-channels=stereo",
        Player::Ffplay => "-nodisp -autoexit -loglevel quiet -ac 2",
        Player::Afplay => "",
        Player::Aplay => "-c 2",
        Player::PowerShell => "-NoProfile -Command",
    }
}

/// The players to try, in order: the `i`-th of a platform.
#[verifier::allow_in_spec]
pub fn candidate_player(platform: Platform, i: usize) -> Option<Player>
    returns
        (match i {
            0 => Some(Player::Mpv),
            1 => Some(Player::Ffplay),
            2 => Some(
                match platform {
                    Platform::MacArm => Player::Afplay,
                    Platform::MacIntel => Player::Afplay,
                    Platform::Windows => Player::PowerShell,
                    _ => Player::Aplay,
                },
            ),
            _ => None,
        }),
{
    match i {
        0 => Some(Player::Mpv),
        1 => Some(Player::Ffplay),
        2 => Some(
            match platform {
                Platform::MacArm => Player::Afplay,
                Platform::MacIntel => Player::Afplay,
                Platform::Windows => Player::PowerShell,
                _ => Player::Aplay,
            },
        ),
        _ => None,
    }
}

/// A player gets a stereo copy: `afplay` of a mono file that is no MP3.
#[verifier::allow_in_spec]
pub fn wants_stereo_copy(p: Player, channels: i64, mp3: bool) -> bool
    returns
        p == Player::Afplay && channels == 1 && !mp3,
{
    match p {
        Player::Afplay => channels == 1 && !mp3,
        _ => false,
    }
}

/// `path` with its quotes doubled, the first `n` characters.
pub open spec fn quoted(path: Seq<char>, n: nat) -> Seq<char>
    decreases n,
{
    if n == 0 {
        Seq::empty()
    } else if path[n - 1] == '\'' {
        quoted(path, (n - 1) as nat).push('\'').push('\'')
    } else {
        quoted(path, (n - 1) as nat).push(path[n - 1])
    }
}

/// The script that has PowerShell play a file.
pub fn powershell_script(path: &str) -> (r: String)
    ensures
        r@ == "$p=New-Object Media.SoundPlayer '"@ + quoted(path@, path@.len()) + "';$p.Play();"@,
{
    let v = chars_of(path);
    let mut out = String::new();
    let mut i: usize = 0;
    while i < v.len()
        invariant
            i <= v@.len(),
            v@ == path@,
            out@ == quoted(path@, i as nat),
        decreases v.len() - i,
    {
        if v[i] == '\'' {
            out.push('\'');
        }
        out.push(v[i]);
        i += 1;
    }
    cat3("$p=New-Object Media.SoundPlayer '", out.as_str(), "';$p.Play();")
}

/// What is shown while a recording is played.
pub fn playing_message(name: &str, p: Player) -> (r: String)
    ensures
        r@ == playing_text(name@, p),
{
    cat4(
        "\u{25B6} Playing: ",
        name,
        "\nUsing player: ",
        cat(player_program(p), "\n\nPress ESC to stop playback").as_str(),
    )
}

/// Why a recording cannot be played where no player could be started.
#[verifier::allow_in_spec]
pub fn no_player_error(platform: Platform) -> &'static str
    returns
        (match platform {
            Platform::MacArm =>
                "No audio player found on PATH. Install `mpv` (brew install mpv) or ensure `afplay` is available.",
            Platform::MacIntel =>
                "No audio player found on PATH. Install `mpv` (brew install mpv) or ensure `afplay` is available.",
            Platform::Windows =>
                "No audio player found on PATH. Ensure PowerShell is available or install a player like mpv.",
            _ => "No audio player found on PATH. Install `mpv` or `ffmpeg` (ffplay).",
        }),
{
    match platform {
        Platform::MacArm =>
            "No audio player found on PATH. Install `mpv` (brew install mpv) or ensure `afplay` is available.",
        Platform::MacIntel =>
            "No audio player found on PATH. Install `mpv` (brew install mpv) or ensure `afplay` is available.",
        Platform::Windows =>
            "No audio player found on PATH. Ensure PowerShell is available or install a player like mpv.",
        _ => "No audio player found on PATH. Install `mpv` or `ffmpeg` (ffplay).",
    }
}

/// A recording on its way to a player.
#[derive(Debug)]
pub struct PlayAttempt {
    pub platform: Platform,
    pub mp3: bool,
    pub channels: i64,
    pub name: String,
    /// How many players could not be started.
    pub tried: usize,
}

pub struct PlayAttemptView {
    pub platform: Platform,
    pub mp3: bool,
    pub channels: i64,
    pub name: Seq<char>,
    pub tried: usize,
}

impl View for PlayAttempt {
    type V = PlayAttemptView;

    open spec fn view(&self) -> PlayAttemptView {
        PlayAttemptView {
            platform: self.platform,
            mp3: self.mp3,
            channels: self.channels,
            name: self.name@,
            tried: self.tried,
        }
    }
}

/// What comes next.
#[derive(Debug)]
pub enum PlayStep {
    /// Start a player, on a stereo copy of the file where that can be made.
    Launch { player: Player, stereo_copy: bool },
    /// It runs: this is shown.
    Playing(String),
    /// No player could be started.
    Failed(&'static str),
}

pub enum PlayStepView {
    Launch { player: Player, stereo_copy: bool },
    Playing(Seq<char>),
    Failed(Seq<char>),
}

impl View for PlayStep {
    type V = PlayStepView;

    open spec fn view(&self) -> PlayStepView {
        match *self {
            PlayStep::Launch { player, stereo_copy } => PlayStepView::Launch {
                player,
                stereo_copy,
            },
            PlayStep::Playing(msg) => PlayStepView::Playing(msg@),
            PlayStep::Failed(msg) => PlayStepView::Failed(msg@),
        }
    }
}

/// What is shown while a recording is played.
pub open spec fn playing_text(name: Seq<char>, p: Player) -> Seq<char> {
    "\u{25B6} Playing: "@ + name + "\nUsing player: "@ + (player_program(p)@
        + "\n\nPress ESC to stop playback"@)
}

impl PlayAttemptView {
    /// The next player, if there is one left.
    pub open spec fn next_step(self) -> PlayStepView {
        match candidate_player(self.platform, self.tried) {
            Some(player) => PlayStepView::Launch {
                player,
                stereo_copy: wants_stereo_copy(player, self.channels, self.mp3),
            },
            None => PlayStepView::Failed(no_player_error(self.platform)@),
        }
    }

    /// The player was started, or could not be.
    pub open spec fn launched(self, running: bool) -> (PlayAttemptView, PlayStepView) {
        if running {
            (
                self,
                match candidate_player(self.platform, self.tried) {
                    Some(player) => PlayStepView::Playing(playing_text(self.name, player)),
                    None => self.next_step(),
                },
            )
        } else {
            let next = PlayAttemptView {
                tried: if self.tried < 3 {
                    (self.tried + 1) as usize
                } else {
                    3
                },
                ..self
            };
            (next, next.next_step())
        }
    }
}

/// The file to play and the attempt to play it, given the extensions of the
/// files of a recording.
pub fn begin_playback(recording: &Recording, platform: Platform, extensions: &Vec<Option<String>>) -> (r:
    Result<(usize, PlayAttempt), &'static str>)
    ensures
        match r {
            Ok((i, attempt)) => {
                &&& i < extensions@.len()
                &&& is_audio(option_text(extensions@[i as int]))
                &&& forall|j: int| 0 <= j < i ==> !is_audio(option_text(#[trigger] extensions@[j]))
                &&& attempt@ == (PlayAttemptView {
                    platform,
                    mp3: extensions@[i as int] matches Some(e) && lowercase(e@) == "mp3"@,
                    channels: recording@.channels,
                    name: recording@.shown_name(),
                    tried: 0,
                })
            },
            Err(msg) => {
                &&& msg@ == "Could not find an audio file for this recording"@
                &&& forall|j: int|
                    0 <= j < extensions@.len() ==> !is_audio(option_text(#[trigger] extensions@[j]))
            },
        },
{
    match find_audio_file(extensions) {
        Some(i) => Ok(
            (
                i,
                PlayAttempt {
                    platform,
                    mp3: is_mp3(&extensions[i]),
                    channels: recording.channels,
                    name: recording.shown_name().to_owned(),
                    tried: 0,
                },
            ),
        ),
        None => Err("Could not find an audio file for this recording"),
    }
}

impl PlayAttempt {
    /// What comes first.
    pub fn step(&self) -> (r: PlayStep)
        ensures
            r@ == self@.next_step(),
    {
        match candidate_player(self.platform, self.tried) {
            Some(player) => PlayStep::Launch {
                player,
                stereo_copy: wants_stereo_copy(player, self.channels, self.mp3),
            },
            None => PlayStep::Failed(no_player_error(self.platform)),
        }
    }

    /// The player was started, or could not be; what comes next.
    pub fn on_launched(&mut self, running: bool) -> (r: PlayStep)
        ensures
            (final(self)@, r@) == old(self)@.launched(running),
    {
        if running {
            match candidate_player(self.platform, self.tried) {
                Some(player) => PlayStep::Playing(playing_message(self.name.as_str(), player)),
                None => self.step(),
            }
        } else {
            self.tried = if self.tried < 3 {
                self.tried + 1
            } else {
                3
            };
            self.step()
        }
    }
}

// ─── Laws ────────────────────────────────────────────────────────────────────

/// Every player is tried once at most: three failures end the attempt.
pub proof fn attempts_end(a: PlayAttemptView)
    requires
        a.tried == 0,
    ensures
        a.next_step() is Launch,
        a.launched(false).1 is Launch,
        a.launched(false).0.launched(false).1 is Launch,
        a.launched(false).0.launched(false).0.launched(false).1 is Failed,
{
}

/// Up undoes down, and down undoes up, round the ends of the list too.
pub proof fn moving_is_invertible(v: ListingView)
    requires
        v.selected matches Some(i) && i < v.recordings.len(),
        v.recordings.len() <= usize::MAX,
    ensures
        v.next().previous() == v,
        v.previous().next() == v,
{
}

/// The cursor stays on a recording.
pub proof fn cursor_stays_inside(v: ListingView, list: Seq<RecordingView>)
    requires
        v.selected matches Some(i) ==> i < v.recordings.len(),
        v.recordings.len() <= usize::MAX,
    ensures
        v.next().selected matches Some(i) ==> i < v.recordings.len(),
        v.previous().selected matches Some(i) ==> i < v.recordings.len(),
        v.loaded(list).selected matches Some(i) ==> i < list.len(),
        v.loaded(list).selected is None ==> list.len() == 0,
{
}

/// Turning to an empty page changes nothing but the page, which comes back.
pub proof fn no_page_beyond_the_last(v: ListingView)
    requires
        v.current_page < usize::MAX,
    ensures
        v.turning().turned(Seq::empty()).0.current_page == v.current_page,
        v.turning().turned(Seq::empty()).1,
{
}

/// The pages follow each other: going down from the end of a full page leads to
/// the first recording of the next page, and going up from there leads back to
/// where it came from.
pub proof fn pages_follow_each_other(
    v: ListingView,
    here: Seq<RecordingView>,
    after: Seq<RecordingView>,
)
    requires
        v.ends_here(),
        v.current_page < usize::MAX,
        v.recordings == here,
        here.len() <= usize::MAX,
        v.selected == Some((here.len() - 1) as usize),
        v.turned_from is None,
        !v.enters_at_end,
        after.len() > 0,
    ensures
        ({
            let below = v.turning().turned(after).0;
            &&& below.current() == Some(after[0])
            &&& below.current_page == v.current_page + 1
            &&& below.begins_here()
            &&& below.turning_back(true).turned(here).0 == v
        }),
{
}

/// "No" is preset: Enter right after the question deletes nothing. Nor does
/// Esc, at any time.
pub proof fn deleting_takes_a_yes(v: DeletionView, r: RecordingView)
    ensures
        v.asking(Some(r)).pressing(Key::Enter).1 is None,
        v.pressing(Key::Esc).1 is None,
        v.pressing(Key::Esc).0.candidate is None,
        v.asking(Some(r)).pressing(Key::Up).0.pressing(Key::Enter).1 == Some(r),
{
}

/// An import keeps to the path that was typed and never goes without a name.
pub proof fn imports_have_a_name(typed: Seq<char>, stem: Option<Seq<char>>)
    requires
        stem matches Some(s) ==> s.len() > 0,
    ensures
        import_name(typed, stem).len() > 0,
{
    reveal_strlit("imported_audio");
}

} // verus!
