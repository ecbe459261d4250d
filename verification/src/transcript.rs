//! The transcript of a recording, with what is known about it.
use vstd::prelude::*;

use crate::json::{
    json_pairs, json_strings, option_texts, parse_pairs, parse_strings, record_texts, Record,
};
use crate::markdown::{lines, lines_of};
use crate::numbers::{hours_minutes, show_hours_minutes};
use crate::recordings::{option_recording, Recording, RecordingView};
use crate::style::{
    empty_line, fg, fg_bold, footer_left, footer_mark, hinted, justified, justify, plain, push_hint,
    span, Color, Line, Page, SpanView,
};
use crate::text::{
    at_most, blanks, byte_count, byte_len, cat, cat4, copy_option, decimal, decimal_of, join,
    joined, monus, option_text, push_text, repeat, repeated, same, spaces, texts,
};
use crate::times::{show_time, time_text, MOMENT_PATTERN};
use crate::wrap::{wrap, wrapped};

verus! {

/// Someone or something that is mentioned: the name and the type.
pub type Mention = (String, String);

pub open spec fn mention_texts(v: Seq<Mention>) -> Seq<(Seq<char>, Seq<char>)> {
    Seq::new(v.len(), |i: int| (v[i].0@, v[i].1@))
}

pub open spec fn option_mentions(v: Option<Vec<Mention>>) -> Option<Seq<(Seq<char>, Seq<char>)>> {
    match v {
        Some(list) => Some(mention_texts(list@)),
        None => None,
    }
}

/// The transcript that is shown.
#[derive(Debug)]
pub struct Transcript {
    pub shown: bool,
    pub content: String,
    pub summary: Option<String>,
    pub key_points: Option<Vec<String>>,
    pub topics: Option<Vec<String>>,
    pub entities: Option<Vec<Mention>>,
    pub recording: Option<Recording>,
    /// The lines above the part that is on the screen.
    pub scroll: usize,
}

pub struct TranscriptView {
    pub shown: bool,
    pub content: Seq<char>,
    pub summary: Option<Seq<char>>,
    pub key_points: Option<Seq<Seq<char>>>,
    pub topics: Option<Seq<Seq<char>>>,
    pub entities: Option<Seq<(Seq<char>, Seq<char>)>>,
    pub recording: Option<RecordingView>,
    pub scroll: usize,
}

impl View for Transcript {
    type V = TranscriptView;

    open spec fn view(&self) -> TranscriptView {
        TranscriptView {
            shown: self.shown,
            content: self.content@,
            summary: option_text(self.summary),
            key_points: option_texts(self.key_points),
            topics: option_texts(self.topics),
            entities: option_mentions(self.entities),
            recording: option_recording(self.recording),
            scroll: self.scroll,
        }
    }
}

/// What the database holds with a transcript: JSON lists.
#[derive(Debug)]
pub struct TranscriptRow {
    pub topics: Option<String>,
    pub entities: Option<String>,
}

// ─── Enrichment ──────────────────────────────────────────────────────────────

/// The records that have both a name and a type, among the first `n`.
pub open spec fn complete_below(
    records: Seq<(Option<Seq<char>>, Option<Seq<char>>)>,
    n: nat,
) -> Seq<(Seq<char>, Seq<char>)>
    decreases n,
{
    if n == 0 {
        Seq::empty()
    } else {
        match records[n - 1] {
            (Some(name), Some(kind)) => complete_below(records, (n - 1) as nat).push((name, kind)),
            _ => complete_below(records, (n - 1) as nat),
        }
    }
}

/// The records that have both a name and a type.
pub fn complete_records(records: &Vec<Record>) -> (r: Vec<Mention>)
    ensures
        mention_texts(r@) == complete_below(record_texts(records@), records@.len()),
{
    let ghost all = record_texts(records@);
    let mut r: Vec<Mention> = Vec::new();
    let mut i: usize = 0;
    assert(mention_texts(r@) =~= Seq::<(Seq<char>, Seq<char>)>::empty());
    while i < records.len()
        invariant
            i <= records@.len(),
            all == record_texts(records@),
            mention_texts(r@) == complete_below(all, i as nat),
        decreases records.len() - i,
    {
        assert(all[i as int] == (
            option_text(records@[i as int].0),
            option_text(records@[i as int].1),
        ));
        match &records[i].0 {
            Some(name) => match &records[i].1 {
                Some(kind) => {
                    let ghost before = mention_texts(r@);
                    r.push((name.clone(), kind.clone()));
                    assert(mention_texts(r@) =~= before.push((name@, kind@)));
                },
                None => {},
            },
            None => {},
        }
        i += 1;
    }
    r
}

/// The list that JSON text spells, if there is text and it spells one.
pub open spec fn listed(json: Option<Seq<char>>) -> Option<Seq<Seq<char>>> {
    match json {
        Some(s) => json_strings(s),
        None => None,
    }
}

/// The mentions that JSON text spells, if there is text and it spells a list.
pub open spec fn mentioned(json: Option<Seq<char>>) -> Option<Seq<(Seq<char>, Seq<char>)>> {
    match json {
        Some(s) => match json_pairs(s, "name"@, "type"@) {
            Some(records) => Some(complete_below(records, records.len())),
            None => None,
        },
        None => None,
    }
}

fn read_list(json: &Option<String>) -> (r: Option<Vec<String>>)
    ensures
        option_texts(r) == listed(option_text(*json)),
{
    match json {
        Some(s) => parse_strings(s.as_str()),
        None => None,
    }
}

fn read_mentions(json: &Option<String>) -> (r: Option<Vec<Mention>>)
    ensures
        option_mentions(r) == mentioned(option_text(*json)),
{
    match json {
        Some(s) => match parse_pairs(s.as_str(), "name", "type") {
            Some(records) => {
                assert(record_texts(records@).len() == records@.len());
                Some(complete_records(&records))
            },
            None => None,
        },
        None => None,
    }
}

impl TranscriptView {
    /// What is known about the recording. Where the database has no transcript
    /// of it, topics and entities stay as they are.
    pub open spec fn enriched(self, r: RecordingView, row: Option<TranscriptRow>) -> TranscriptView {
        let known = TranscriptView {
            summary: r.summary,
            key_points: listed(r.key_points),
            ..self
        };
        match row {
            Some(t) => TranscriptView {
                topics: listed(option_text(t.topics)),
                entities: mentioned(option_text(t.entities)),
                ..known
            },
            None => known,
        }
    }

    /// Nothing is known.
    pub open spec fn cleared(self) -> TranscriptView {
        TranscriptView { summary: None, key_points: None, topics: None, entities: None, ..self }
    }
}

impl Transcript {
    /// No transcript.
    pub fn new() -> (r: Transcript)
        ensures
            r@ == (TranscriptView {
                shown: false,
                content: Seq::empty(),
                summary: None,
                key_points: None,
                topics: None,
                entities: None,
                recording: None,
                scroll: 0,
            }),
    {
        Transcript {
            shown: false,
            content: String::new(),
            summary: None,
            key_points: None,
            topics: None,
            entities: None,
            recording: None,
            scroll: 0,
        }
    }

    /// Takes over what is known about a recording; `row` is what the database
    /// has under its ID.
    pub fn load_enrichment_data(&mut self, recording: &Recording, row: &Option<TranscriptRow>)
        ensures
            final(self)@ == old(self)@.enriched(recording@, *row),
    {
        self.summary = copy_option(&recording.summary);
        self.key_points = read_list(&recording.key_points);
        match row {
            Some(t) => {
                self.topics = read_list(&t.topics);
                self.entities = read_mentions(&t.entities);
            },
            None => {},
        }
    }

    pub fn clear_enrichment_data(&mut self)
        ensures
            final(self)@ == old(self)@.cleared(),
    {
        self.summary = None;
        self.key_points = None;
        self.topics = None;
        self.entities = None;
    }
}

// ─── Header and footer ───────────────────────────────────────────────────────

/// The heading: name, length and date.
pub open spec fn header_line(recording: Option<RecordingView>) -> Seq<SpanView> {
    let (name, seconds, date) = match recording {
        Some(r) => (
            r.shown_name(),
            r.seconds() as int,
            time_text(r.created_utc as int, MOMENT_PATTERN@),
        ),
        None => ("Recording"@, 0int, Seq::empty()),
    };
    seq![
        span("  "@, plain()),
        span(name, fg_bold(Color::White)),
        span(
            " \u{00B7} "@ + hours_minutes(seconds) + " \u{00B7} "@ + date,
            fg(Color::DarkGray),
        ),
    ]
}

impl Transcript {
    /// The heading: name, length and date.
    pub fn render_transcript_header(&self) -> (r: Line)
        ensures
            r@ == header_line(self@.recording),
    {
        let (name, seconds, date) = match &self.recording {
            Some(r) => (r.shown_name(), r.seconds(), show_time(r.created_utc, MOMENT_PATTERN)),
            None => ("Recording", 0i64, String::new()),
        };
        let mut l = Line::of("  ", plain());
        l.push(name, fg_bold(Color::White));
        l.push(
            cat4(
                " \u{00B7} ",
                show_hours_minutes(seconds).as_str(),
                " \u{00B7} ",
                date.as_str(),
            ).as_str(),
            fg(Color::DarkGray),
        );
        assert(l@ =~= header_line(self@.recording));
        l
    }
}

/// The line at the bottom.
pub open spec fn transcript_footer(version: Seq<char>, width: int) -> Seq<SpanView> {
    justified(
        footer_mark(version, ""@),
        hinted(
            hinted(hinted(empty_line(), "Ctrl+Y"@, "] Copy  "@), "Ctrl+T"@, "] Re-transcribe  "@),
            "Esc"@,
            "] Back "@,
        ),
        width,
    )
}

/// The line at the bottom.
pub fn render_transcript_footer(version: &str, width: usize) -> (r: Line)
    ensures
        r@ == transcript_footer(version@, width as int),
{
    let mut right = Line::new();
    push_hint(&mut right, "Ctrl+Y", "] Copy  ");
    push_hint(&mut right, "Ctrl+T", "] Re-transcribe  ");
    push_hint(&mut right, "Esc", "] Back ");
    justify(footer_left(version, ""), right, width)
}

/// The lines that the chat gets below a transcript.
pub fn chat_panel_height(has_content: bool, height: u16, suggestions: usize) -> (r: u16)
    requires
        has_content ==> height * 45 <= u16::MAX,
        !has_content ==> suggestions + 4 <= u16::MAX,
    ensures
        has_content ==> r == (if height as int * 45 / 100 > 8 {
            height as int * 45 / 100
        } else {
            8
        }),
        !has_content ==> r == at_most(
            if suggestions + 4 > 5 {
                suggestions + 4
            } else {
                5
            },
            8,
        ),
{
    if has_content {
        let share: u16 = height * 45 / 100;
        if share > 8 {
            share
        } else {
            8
        }
    } else {
        let wanted: usize = suggestions + 4;
        if wanted <= 5 {
            5
        } else if wanted >= 8 {
            8
        } else {
            wanted as u16
        }
    }
}

// ─── Body ────────────────────────────────────────────────────────────────────

/// The first `n` rows of wrapped text behind `p`.
pub open spec fn told_rows(p: Seq<Seq<SpanView>>, rows: Seq<Seq<char>>, n: nat) -> Seq<Seq<SpanView>>
    decreases n,
{
    if n == 0 {
        p
    } else {
        told_rows(p, rows, (n - 1) as nat).push(
            seq![span("  "@, plain()), span(rows[n - 1], fg(Color::Indexed(249)))],
        )
    }
}

/// Appends text that was wrapped into `rows`.
pub fn push_told_rows(page: &mut Page, rows: &Vec<String>)
    ensures
        final(page)@ == told_rows(old(page)@, texts(rows@), rows@.len()),
{
    let mut i: usize = 0;
    while i < rows.len()
        invariant
            i <= rows@.len(),
            page@ == told_rows(old(page)@, texts(rows@), i as nat),
        decreases rows.len() - i,
    {
        page.line2("  ", plain(), rows[i].as_str(), fg(Color::Indexed(249)));
        i += 1;
    }
}

/// The first `n` rows of a value behind its label; rows after the first are
/// indented by as much.
pub open spec fn labeled_rows(
    p: Seq<Seq<SpanView>>,
    label: Seq<char>,
    rows: Seq<Seq<char>>,
    n: nat,
) -> Seq<Seq<SpanView>>
    decreases n,
{
    if n == 0 {
        p
    } else {
        labeled_rows(p, label, rows, (n - 1) as nat).push(
            if n == 1 {
                seq![
                    span("  "@, plain()),
                    span(label, fg_bold(Color::DarkGray)),
                    span(rows[n - 1], fg(Color::Indexed(249))),
                ]
            } else {
                seq![
                    span(blanks(2 + byte_len(label)), plain()),
                    span(rows[n - 1], fg(Color::Indexed(249))),
                ]
            },
        )
    }
}

/// Appends a value that was wrapped into `rows` behind its label.
pub fn push_labeled_rows(page: &mut Page, label: &str, rows: &Vec<String>)
    requires
        byte_len(label@) + 2 <= usize::MAX,
    ensures
        final(page)@ == labeled_rows(old(page)@, label@, texts(rows@), rows@.len()),
{
    let mut i: usize = 0;
    while i < rows.len()
        invariant
            i <= rows@.len(),
            byte_len(label@) + 2 <= usize::MAX,
            page@ == labeled_rows(old(page)@, label@, texts(rows@), i as nat),
        decreases rows.len() - i,
    {
        if i == 0 {
            page.line3(
                "  ",
                plain(),
                label,
                fg_bold(Color::DarkGray),
                rows[i].as_str(),
                fg(Color::Indexed(249)),
            );
        } else {
            let indent = spaces(byte_count(label) + 2);
            page.line2(indent.as_str(), plain(), rows[i].as_str(), fg(Color::Indexed(249)));
        }
        i += 1;
    }
}

/// A value behind its label, wrapped to a width.
pub open spec fn labeled(
    p: Seq<Seq<SpanView>>,
    label: Seq<char>,
    value: Seq<char>,
    width: int,
) -> Seq<Seq<SpanView>> {
    let room = monus(width, 2 + byte_len(label) as int);
    if room == 0 {
        p.push(
            seq![
                span("  "@, plain()),
                span(label, fg_bold(Color::DarkGray)),
                span(value, fg(Color::Indexed(249))),
            ],
        )
    } else {
        let rows = wrapped(value, room);
        labeled_rows(p, label, rows, rows.len())
    }
}

/// Push a "Label  value text..." line that wraps, with continuation lines
/// indented to align.
pub fn push_labeled_wrap(page: &mut Page, label: &str, value: &str, max_width: usize)
    ensures
        final(page)@ == labeled(old(page)@, label@, value@, max_width as int),
{
    let room = max_width.saturating_sub(2).saturating_sub(byte_count(label));
    if room == 0 {
        page.line3(
            "  ",
            plain(),
            label,
            fg_bold(Color::DarkGray),
            value,
            fg(Color::Indexed(249)),
        );
    } else {
        let rows = wrap(value, room);
        assert(texts(rows@).len() == rows@.len());
        push_labeled_rows(page, label, &rows);
    }
}

/// The kinds of mentions that get a line of their own.
#[derive(Clone, Copy, Debug, PartialEq, Eq, Structural)]
pub enum MentionKind {
    Person,
    Organization,
    Other,
}

/// The kind of a type.
pub open spec fn kind_of(t: Seq<char>) -> MentionKind {
    if t == "person"@ {
        MentionKind::Person
    } else if t == "organization"@ {
        MentionKind::Organization
    } else {
        MentionKind::Other
    }
}

fn mention_kind(t: &str) -> (r: MentionKind)
    ensures
        r == kind_of(t@),
{
    if same(t, "person") {
        MentionKind::Person
    } else if same(t, "organization") {
        MentionKind::Organization
    } else {
        MentionKind::Other
    }
}

/// The names of one kind among the first `n` mentions.
pub open spec fn names_below(
    v: Seq<(Seq<char>, Seq<char>)>,
    kind: MentionKind,
    n: nat,
) -> Seq<Seq<char>>
    decreases n,
{
    if n == 0 {
        Seq::empty()
    } else if kind_of(v[n - 1].1) == kind {
        names_below(v, kind, (n - 1) as nat).push(v[n - 1].0)
    } else {
        names_below(v, kind, (n - 1) as nat)
    }
}

fn names_of_kind(v: &Vec<Mention>, kind: MentionKind) -> (r: Vec<String>)
    ensures
        texts(r@) == names_below(mention_texts(v@), kind, v@.len()),
{
    let ghost all = mention_texts(v@);
    let mut r: Vec<String> = Vec::new();
    let mut i: usize = 0;
    assert(texts(r@) =~= Seq::<Seq<char>>::empty());
    while i < v.len()
        invariant
            i <= v@.len(),
            all == mention_texts(v@),
            texts(r@) == names_below(all, kind, i as nat),
        decreases v.len() - i,
    {
        assert(all[i as int] == (v@[i as int].0@, v@[i as int].1@));
        if mention_kind(v[i].1.as_str()) == kind {
            push_text(&mut r, v[i].0.clone());
        }
        i += 1;
    }
    r
}

/// The names of one kind behind their label, where there are any.
pub open spec fn with_names(
    p: Seq<Seq<SpanView>>,
    v: Seq<(Seq<char>, Seq<char>)>,
    kind: MentionKind,
    label: Seq<char>,
    width: int,
) -> Seq<Seq<SpanView>> {
    let names = names_below(v, kind, v.len());
    if names.len() > 0 {
        labeled(p, label, joined(names, " \u{00B7} "@), width)
    } else {
        p
    }
}

fn push_names(page: &mut Page, v: &Vec<Mention>, kind: MentionKind, label: &str, width: usize)
    ensures
        final(page)@ == with_names(old(page)@, mention_texts(v@), kind, label@, width as int),
{
    let names = names_of_kind(v, kind);
    assert(texts(names@).len() == names@.len());
    if names.len() > 0 {
        push_labeled_wrap(page, label, join(&names, " \u{00B7} ").as_str(), width);
    }
}

impl TranscriptView {
    pub open spec fn has_enrichment(self) -> bool {
        self.summary is Some || self.topics is Some || self.entities is Some
    }

    pub open spec fn with_summary(self, p: Seq<Seq<SpanView>>, width: int) -> Seq<Seq<SpanView>> {
        match self.summary {
            Some(s) => {
                let rows = wrapped(s, width as nat);
                told_rows(
                    p.push(
                        seq![span("  "@, plain()), span("Summary"@, fg_bold(Color::DarkGray))],
                    ),
                    rows,
                    rows.len(),
                ).push(empty_line())
            },
            None => p,
        }
    }

    pub open spec fn with_topics(self, p: Seq<Seq<SpanView>>, width: int) -> Seq<Seq<SpanView>> {
        match self.topics {
            Some(t) => if t.len() > 0 {
                labeled(p, "Topics  "@, joined(t, " \u{00B7} "@), width)
            } else {
                p
            },
            None => p,
        }
    }

    pub open spec fn with_entities(self, p: Seq<Seq<SpanView>>, width: int) -> Seq<Seq<SpanView>> {
        match self.entities {
            Some(v) => with_names(
                with_names(
                    with_names(p, v, MentionKind::Person, "People  "@, width),
                    v,
                    MentionKind::Organization,
                    "Orgs    "@,
                    width,
                ),
                v,
                MentionKind::Other,
                "Entities "@,
                width,
            ),
            None => p,
        }
    }

    pub open spec fn with_takeaway(self, p: Seq<Seq<SpanView>>, width: int) -> Seq<Seq<SpanView>> {
        match self.key_points {
            Some(k) => if k.len() > 0 {
                let rows = wrapped(k[0], width as nat);
                told_rows(
                    p.push(empty_line()).push(
                        seq![
                            span("  "@, plain()),
                            span("Key takeaway"@, fg_bold(Color::DarkGray)),
                        ],
                    ),
                    rows,
                    rows.len(),
                )
            } else {
                p
            },
            None => p,
        }
    }

    /// Summary, topics, people and the key takeaway above a rule.
    pub open spec fn enrichment_lines(self, area_width: u16, width: int) -> Seq<Seq<SpanView>> {
        if self.has_enrichment() {
            let p0 = Seq::empty().push(empty_line());
            let p1 = self.with_summary(p0, width);
            let p2 = self.with_topics(p1, width);
            let p3 = self.with_entities(p2, width);
            let p4 = self.with_takeaway(p3, width);
            p4.push(empty_line()).push(
                seq![
                    span(
                        repeated('\u{2500}', area_width as nat),
                        fg(Color::Indexed(237)),
                    ),
                ],
            )
        } else {
            Seq::empty()
        }
    }
}

/// The rows of the first `n` lines of a text: `None` is an empty line.
pub open spec fn display_rows(all: Seq<Seq<char>>, width: nat, n: nat) -> Seq<Option<Seq<char>>>
    decreases n,
{
    if n == 0 {
        Seq::empty()
    } else {
        let before = display_rows(all, width, (n - 1) as nat);
        if all[n - 1].len() == 0 {
            before.push(None)
        } else {
            let rows = wrapped(all[n - 1], width);
            before + Seq::new(rows.len(), |i: int| Some(rows[i]))
        }
    }
}

pub open spec fn option_rows(v: Seq<Option<String>>) -> Seq<Option<Seq<char>>> {
    Seq::new(v.len(), |i: int| option_text(v[i]))
}

fn rows_for_display(content: &str, width: usize) -> (r: Vec<Option<String>>)
    ensures
        option_rows(r@) == display_rows(
            lines_of(content@),
            width as nat,
            lines_of(content@).len(),
        ),
{
    let all = lines(content);
    let mut r: Vec<Option<String>> = Vec::new();
    let mut i: usize = 0;
    assert(texts(all@).len() == all@.len());
    assert(option_rows(r@) =~= Seq::<Option<Seq<char>>>::empty());
    while i < all.len()
        invariant
            i <= all@.len(),
            texts(all@) == lines_of(content@),
            option_rows(r@) == display_rows(texts(all@), width as nat, i as nat),
        decreases all.len() - i,
    {
        let ghost before = option_rows(r@);
        if all[i].as_str().unicode_len() == 0 {
            r.push(None);
            assert(option_rows(r@) =~= before.push(None));
        } else {
            let rows = wrap(all[i].as_str(), width);
            let ghost shown = texts(rows@);
            let mut j: usize = 0;
            while j < rows.len()
                invariant
                    j <= rows@.len(),
                    shown == texts(rows@),
                    option_rows(r@) =~= before + Seq::new(j as nat, |k: int| Some(shown[k])),
                decreases rows.len() - j,
            {
                let ghost prev = option_rows(r@);
                r.push(Some(rows[j].clone()));
                assert(option_rows(r@) =~= prev.push(Some(shown[j as int])));
                j += 1;
            }
            assert(Seq::new(shown.len(), |k: int| Some(shown[k])) =~= Seq::new(
                j as nat,
                |k: int| Some(shown[k]),
            ));
        }
        i += 1;
    }
    r
}

/// The preview has at most this many rows.
pub const MAX_PREVIEW: usize = 15;

/// The colour of a row of a preview that does not show everything, where it
/// fades out.
#[verifier::allow_in_spec]
pub fn fade_of(i: usize) -> Option<Color>
    returns
        (match i {
            12 => Some(Color::Indexed(249)),
            13 => Some(Color::Indexed(245)),
            14 => Some(Color::Indexed(240)),
            _ => None,
        }),
{
    match i {
        12 => Some(Color::Indexed(249)),
        13 => Some(Color::Indexed(245)),
        14 => Some(Color::Indexed(240)),
        _ => None,
    }
}

/// Row `i` of the preview.
pub open spec fn preview_row(row: Option<Seq<char>>, i: usize, fades: bool) -> Seq<SpanView> {
    if fades && fade_of(i) is Some {
        seq![
            span(
                match row {
                    Some(t) => "  "@ + t,
                    None => Seq::empty(),
                },
                fg(fade_of(i)->Some_0),
            ),
        ]
    } else {
        match row {
            Some(t) => seq![span("  "@, plain()), span(t, fg(Color::White))],
            None => empty_line(),
        }
    }
}

/// The first rows of the transcript. Where there are more than the preview
/// takes, its end fades out, and a hint says how much is left.
pub open spec fn preview(rows: Seq<Option<Seq<char>>>) -> Seq<Seq<SpanView>> {
    let full = rows.len() > MAX_PREVIEW;
    let shown = Seq::new(
        at_most(rows.len() as int, MAX_PREVIEW as int) as nat,
        |i: int| preview_row(rows[i], i as usize, full),
    );
    if full {
        shown.push(empty_line()).push(
            seq![
                span("  "@, plain()),
                span(
                    decimal((rows.len() - MAX_PREVIEW) as nat) + " more lines not shown \u{00B7} "@,
                    fg(Color::Indexed(240)),
                ),
                span("["@, fg(Color::Indexed(240))),
                span("Ctrl+Y"@, fg(Color::Indexed(249))),
                span("] copy full transcript"@, fg(Color::Indexed(240))),
            ],
        )
    } else {
        shown
    }
}

fn push_preview_row(page: &mut Page, row: &Option<String>, i: usize, fades: bool)
    ensures
        final(page)@ == old(page)@.push(preview_row(option_text(*row), i, fades)),
{
    match fade_of(i) {
        Some(color) => {
            if fades {
                let text = match row {
                    Some(t) => cat("  ", t.as_str()),
                    None => String::new(),
                };
                page.line(text.as_str(), fg(color));
                return;
            }
        },
        None => {},
    }
    match row {
        Some(t) => page.line2("  ", plain(), t.as_str(), fg(Color::White)),
        None => page.blank(),
    }
}

/// The first rows of the transcript.
pub fn render_preview(rows: &Vec<Option<String>>) -> (r: Page)
    ensures
        r@ == preview(option_rows(rows@)),
{
    let ghost all = option_rows(rows@);
    let full = rows.len() > MAX_PREVIEW;
    let n = if full {
        MAX_PREVIEW
    } else {
        rows.len()
    };
    let mut page = Page::new();
    let mut i: usize = 0;
    while i < n
        invariant
            i <= n <= rows@.len(),
            all == option_rows(rows@),
            page@ =~= Seq::new(i as nat, |k: int| preview_row(all[k], k as usize, full)),
        decreases n - i,
    {
        assert(all[i as int] == option_text(rows@[i as int]));
        push_preview_row(&mut page, &rows[i], i, full);
        i += 1;
    }
    if full {
        let more = decimal_of((rows.len() - MAX_PREVIEW) as u64);
        page.blank();
        let mut l = Line::of("  ", plain());
        let left = cat(more.as_str(), " more lines not shown \u{00B7} ");
        l.push(left.as_str(), fg(Color::Indexed(240)));
        l.push("[", fg(Color::Indexed(240)));
        l.push("Ctrl+Y", fg(Color::Indexed(249)));
        l.push("] copy full transcript", fg(Color::Indexed(240)));
        assert(l@ =~= seq![
            span("  "@, plain()),
            span(left@, fg(Color::Indexed(240))),
            span("["@, fg(Color::Indexed(240))),
            span("Ctrl+Y"@, fg(Color::Indexed(249))),
            span("] copy full transcript"@, fg(Color::Indexed(240))),
        ]);
        page.push(l);
    }
    assert(page@ =~= preview(all));
    page
}

impl TranscriptView {
    /// The transcript below what is known about it, in an area `area_width`
    /// wide.
    pub open spec fn body(self, area_width: u16) -> Seq<Seq<SpanView>> {
        let width = monus(area_width as int, 4);
        let all = lines_of(self.content);
        self.enrichment_lines(area_width, width as int).push(empty_line()) + preview(
            display_rows(all, width, all.len()),
        )
    }
}

impl Transcript {
    fn push_summary(&self, page: &mut Page, width: usize)
        ensures
            final(page)@ == self@.with_summary(old(page)@, width as int),
    {
        match &self.summary {
            Some(s) => {
                page.line2("  ", plain(), "Summary", fg_bold(Color::DarkGray));
                let rows = wrap(s.as_str(), width);
                assert(texts(rows@).len() == rows@.len());
                push_told_rows(page, &rows);
                page.blank();
            },
            None => {},
        }
    }

    fn push_topics(&self, page: &mut Page, width: usize)
        ensures
            final(page)@ == self@.with_topics(old(page)@, width as int),
    {
        match &self.topics {
            Some(t) => {
                assert(texts(t@).len() == t@.len());
                if t.len() > 0 {
                    push_labeled_wrap(page, "Topics  ", join(t, " \u{00B7} ").as_str(), width);
                }
            },
            None => {},
        }
    }

    fn push_entities(&self, page: &mut Page, width: usize)
        ensures
            final(page)@ == self@.with_entities(old(page)@, width as int),
    {
        match &self.entities {
            Some(v) => {
                push_names(page, v, MentionKind::Person, "People  ", width);
                push_names(page, v, MentionKind::Organization, "Orgs    ", width);
                push_names(page, v, MentionKind::Other, "Entities ", width);
            },
            None => {},
        }
    }

    fn push_takeaway(&self, page: &mut Page, width: usize)
        ensures
            final(page)@ == self@.with_takeaway(old(page)@, width as int),
    {
        match &self.key_points {
            Some(k) => {
                assert(texts(k@).len() == k@.len());
                if k.len() > 0 {
                    page.blank();
                    let rows = wrap(k[0].as_str(), width);
                    assert(texts(k@)[0] == k@[0]@);
                    assert(texts(rows@).len() == rows@.len());
                    page.line2("  ", plain(), "Key takeaway", fg_bold(Color::DarkGray));
                    push_told_rows(page, &rows);
                }
            },
            None => {},
        }
    }

    /// The transcript below what is known about it, in an area `area_width`
    /// wide.
    pub fn render_transcript_body(&self, area_width: u16) -> (r: Page)
        ensures
            r@ == self@.body(area_width),
    {
        let width = area_width.saturating_sub(4) as usize;
        let mut page = Page::new();
        if self.summary.is_some() || self.topics.is_some() || self.entities.is_some() {
            page.blank();
            self.push_summary(&mut page, width);
            self.push_topics(&mut page, width);
            self.push_entities(&mut page, width);
            self.push_takeaway(&mut page, width);
            page.blank();
            page.line(
                repeat('\u{2500}', area_width as usize).as_str(),
                fg(Color::Indexed(237)),
            );
        }
        page.blank();
        let rows = rows_for_display(self.content.as_str(), width);
        page.append(render_preview(&rows));
        page
    }
}

// ─── Scrolling ───────────────────────────────────────────────────────────────

impl TranscriptView {
    /// One line up, as far as there is one.
    pub open spec fn scrolled_up(self) -> TranscriptView {
        TranscriptView { scroll: monus(self.scroll as int, 1) as usize, ..self }
    }

    /// One line down. Drawing keeps it within the text.
    pub open spec fn scrolled_down(self) -> TranscriptView {
        if self.scroll < usize::MAX {
            TranscriptView { scroll: (self.scroll + 1) as usize, ..self }
        } else {
            self
        }
    }

    /// The first of `total` lines that is seen in an area `height` high: the
    /// text is not scrolled past its end.
    pub open spec fn top(self, total: int, height: int) -> int {
        at_most(self.scroll as int, monus(total, height) as int)
    }

    /// What of the body is seen in an area.
    pub open spec fn window(self, width: u16, height: u16) -> Seq<Seq<SpanView>> {
        let all = self.body(width);
        let top = self.top(all.len() as int, height as int);
        all.subrange(top, at_most(top + height, all.len() as int))
    }

    /// The transcript once it was drawn in an area.
    pub open spec fn drawn(self, width: u16, height: u16) -> TranscriptView {
        TranscriptView {
            scroll: self.top(self.body(width).len() as int, height as int) as usize,
            ..self
        }
    }
}

impl Transcript {
    pub fn scroll_up(&mut self)
        ensures
            final(self)@ == old(self)@.scrolled_up(),
    {
        self.scroll = self.scroll.saturating_sub(1);
    }

    pub fn scroll_down(&mut self)
        ensures
            final(self)@ == old(self)@.scrolled_down(),
    {
        if self.scroll < usize::MAX {
            self.scroll = self.scroll + 1;
        }
    }

    /// What of the body is seen in an area.
    pub fn render_transcript_window(&mut self, width: u16, height: u16) -> (r: Page)
        ensures
            r@ == old(self)@.window(width, height),
            final(self)@ == old(self)@.drawn(width, height),
    {
        let body = self.render_transcript_body(width);
        let ghost all = body@;
        let total = body.lines.len();
        let last = total.saturating_sub(height as usize);
        if self.scroll > last {
            self.scroll = last;
        }
        let top = self.scroll;
        let end = if total - top < height as usize {
            total
        } else {
            top + height as usize
        };
        let mut page = Page::new();
        let mut i: usize = top;
        while i < end
            invariant
                top <= i <= end <= total,
                total == body.lines@.len(),
                all == body@,
                page@ =~= all.subrange(top as int, i as int),
            decreases end - i,
        {
            assert(all[i as int] == body.lines@[i as int]@);
            page.push(body.lines[i].copy());
            i += 1;
        }
        page
    }
}

// ─── Laws ────────────────────────────────────────────────────────────────────

/// A transcript of at most 15 rows is shown whole and nothing is said to be
/// left; of a longer one 15 rows are shown, with two lines below them.
pub proof fn preview_is_short(rows: Seq<Option<Seq<char>>>)
    ensures
        rows.len() <= MAX_PREVIEW ==> preview(rows).len() == rows.len(),
        rows.len() > MAX_PREVIEW ==> preview(rows).len() == MAX_PREVIEW + 2,
{
}

/// What is seen of the body lies within it, fills the area where the body does,
/// and is the whole body where there is room for it.
pub proof fn window_stays_inside(v: TranscriptView, width: u16, height: u16)
    ensures
        v.window(width, height).len() == at_most(v.body(width).len() as int, height as int),
        v.body(width).len() <= height ==> v.window(width, height) == v.body(width),
        v.drawn(width, height).window(width, height) == v.window(width, height),
{
    let all = v.body(width);
    let top = v.top(all.len() as int, height as int);
    assert(v.drawn(width, height).body(width) == all);
    if all.len() <= height {
        assert(all.subrange(0, all.len() as int) =~= all);
    }
}

/// Scrolling up undoes scrolling down, and what is seen below the last line
/// that was seen comes into view.
pub proof fn scrolling_reaches_every_line(v: TranscriptView, width: u16, height: u16)
    requires
        height > 0,
        v.scroll + height < v.body(width).len(),
        v.body(width).len() <= usize::MAX,
    ensures
        v.scrolled_down().window(width, height).last() == v.body(width)[v.scroll + height],
        v.scrolled_down().drawn(width, height).scrolled_up() == v,
{
    let w = v.scrolled_down();
    assert(w.body(width) == v.body(width));
}

/// Closing and clearing forgets everything that was known.
pub proof fn clearing_forgets(v: TranscriptView, r: RecordingView, row: Option<TranscriptRow>)
    ensures
        v.enriched(r, row).cleared() == v.cleared(),
        !v.cleared().has_enrichment(),
{
}

proof fn names_partition(v: Seq<(Seq<char>, Seq<char>)>, n: nat)
    ensures
        names_below(v, MentionKind::Person, n).len() + names_below(
            v,
            MentionKind::Organization,
            n,
        ).len() + names_below(v, MentionKind::Other, n).len() == n,
    decreases n,
{
    if n > 0 {
        names_partition(v, (n - 1) as nat);
    }
}

/// Every mention stands in exactly one of the three lists.
pub proof fn mentions_are_partitioned(v: Seq<(Seq<char>, Seq<char>)>)
    ensures
        names_below(v, MentionKind::Person, v.len()).len() + names_below(
            v,
            MentionKind::Organization,
            v.len(),
        ).len() + names_below(v, MentionKind::Other, v.len()).len() == v.len(),
{
    names_partition(v, v.len());
}

} // verus!
