//! The texts of the settings rows.
use vstd::prelude::*;

use crate::config::{EnrichmentMode, EnrichmentView, LocalModel, TranscriptionMode};
use crate::providers::{assistant_provider, speech_provider, AssistantProvider, SpeechProvider};
use crate::settings::{
    badge, is_installed, setup_badge, EditView, KeyStatus, KeyStatusView, Row, Settings,
    SettingsEdit, SettingsView, Surroundings,
};
use crate::text::{
    cat, cat3, cat4, contains, decimal, decimal_of, lowercase, occurs, pieces, repeat, repeated,
    split, take, trim, trimmed,
};

verus! {

/// `s` cut to at most `max` characters, with an ellipsis where something is
/// left out.
pub open spec fn fitted(s: Seq<char>, max: int) -> Seq<char> {
    if s.len() <= max {
        s
    } else if max <= 0 {
        Seq::empty()
    } else {
        s.take(max - 1).push('\u{2026}')
    }
}

/// Ellipsize `text` to at most `max` characters.
pub fn fit(text: &str, max: usize) -> (r: String)
    ensures
        r@ == fitted(text@, max as int),
{
    let count = text.unicode_len();
    if count <= max {
        return text.to_owned();
    }
    if max == 0 {
        return String::new();
    }
    let mut out = take(text, max - 1).to_owned();
    out.push('\u{2026}');
    out
}

/// A fitted text has at most `max` characters. A text that has no more is left
/// as it is; of a longer one the beginning stays, with an ellipsis behind it
/// where there is room for one.
pub proof fn fitted_fits(s: Seq<char>, max: int)
    requires
        max >= 0,
    ensures
        fitted(s, max).len() <= max,
        s.len() <= max ==> fitted(s, max) == s,
        s.len() > max ==> fitted(s, max).len() == max,
        s.len() > max > 0 ==> fitted(s, max).last() == '\u{2026}' && fitted(s, max).drop_last()
            == s.take(max - 1),
{
    if s.len() > max && max > 0 {
        assert(fitted(s, max).drop_last() =~= s.take(max - 1));
    }
}

/// Bullets plus the last four characters; short secrets are bullets alone.
pub open spec fn masked(secret: Seq<char>) -> Seq<char> {
    if secret.len() <= 4 {
        repeated('\u{2022}', secret.len())
    } else {
        repeated('\u{2022}', 8) + "\u{2026}"@ + secret.subrange(
            secret.len() - 4,
            secret.len() as int,
        )
    }
}

/// Mask a secret: bullets plus the last four characters.
pub fn mask_secret(secret: &str) -> (r: String)
    ensures
        r@ == masked(secret@),
{
    let count = secret.unicode_len();
    if count <= 4 {
        return repeat('\u{2022}', count);
    }
    cat3(
        repeat('\u{2022}', 8).as_str(),
        "\u{2026}",
        secret.substring_char(count - 4, count),
    )
}

/// Two secrets of more than four characters with the same last four look the
/// same, and two short ones of the same length do.
pub proof fn masked_hides(a: Seq<char>, b: Seq<char>)
    requires
        (a.len() <= 4 && b.len() == a.len()) || (a.len() > 4 && b.len() > 4 && a.subrange(
            a.len() - 4,
            a.len() as int,
        ) == b.subrange(b.len() - 4, b.len() as int)),
    ensures
        masked(a) == masked(b),
{
}

/// The first line of a message, without white space at its ends.
pub open spec fn first_line_of(msg: Seq<char>) -> Seq<char> {
    let parts = pieces(msg, '\n');
    let line = parts[0];
    trimmed(
        if parts.len() > 1 && line.len() > 0 && line.last() == '\r' {
            line.drop_last()
        } else {
            line
        },
    )
}

/// The first line of a message, without white space at its ends.
pub fn first_line(msg: &str) -> (r: String)
    ensures
        r@ == first_line_of(msg@),
{
    let mut parts = split(msg, '\n');
    proof {
        crate::text::pieces_nonempty(msg@, '\n');
        assert(parts@[0]@ == pieces(msg@, '\n')[0]);
    }
    let line = parts[0].as_str();
    let n = line.unicode_len();
    if parts.len() > 1 && n > 0 && line.get_char(n - 1) == '\r' {
        proof {
            assert(line@.subrange(0, n - 1) =~= line@.drop_last());
        }
        trim(line.substring_char(0, n - 1)).to_owned()
    } else {
        trim(line).to_owned()
    }
}

/// A provider error in a few words.
pub open spec fn reason_of(msg: Seq<char>) -> Seq<char> {
    let lower = lowercase(msg);
    if occurs(lower, "authentication"@) || occurs(lower, "401"@) || occurs(lower, "403"@) || occurs(
        lower,
        "api key"@,
    ) {
        "invalid key"@
    } else if occurs(lower, "rate limit"@) || occurs(lower, "429"@) {
        "rate limited"@
    } else if occurs(lower, "could not reach"@) || occurs(lower, "network"@) || occurs(
        lower,
        "timeout"@,
    ) || occurs(lower, "connect"@) {
        "host unreachable"@
    } else {
        fitted(first_line_of(msg), 40)
    }
}

/// Boil a provider error down to a few words for the key row.
pub fn compact_reason(msg: &str) -> (r: String)
    ensures
        r@ == reason_of(msg@),
{
    let lower = msg.to_lowercase();
    let l = lower.as_str();
    if contains(l, "authentication") || contains(l, "401") || contains(l, "403") || contains(
        l,
        "api key",
    ) {
        "invalid key".to_owned()
    } else if contains(l, "rate limit") || contains(l, "429") {
        "rate limited".to_owned()
    } else if contains(l, "could not reach") || contains(l, "network") || contains(l, "timeout")
        || contains(l, "connect") {
        "host unreachable".to_owned()
    } else {
        fit(first_line(msg).as_str(), 40)
    }
}

/// Color tone for the detail column.
#[derive(Clone, Copy, Debug, PartialEq, Eq, Structural)]
pub enum DetailTone {
    Neutral,
    Good,
    Bad,
}

/// What a row shows: value, detail with its tone, hint, and whether the value
/// is being edited.
pub struct RowView {
    pub value: Seq<char>,
    pub detail: Seq<char>,
    pub tone: DetailTone,
    pub hint: &'static str,
    pub editing: bool,
}

pub open spec fn row_view(r: (String, String, DetailTone, &'static str, bool)) -> RowView {
    RowView { value: r.0@, detail: r.1@, tone: r.2, hint: r.3, editing: r.4 }
}

pub open spec fn simple_row(value: Seq<char>, detail: Seq<char>, hint: &'static str) -> RowView {
    RowView { value, detail, tone: DetailTone::Neutral, hint, editing: false }
}

/// What an API key row shows, from what is stored, what resolves, and the
/// probe result.
pub open spec fn key_row_view(
    stored: Seq<char>,
    resolves: bool,
    env: Seq<char>,
    status: Option<KeyStatusView>,
) -> RowView {
    RowView {
        value: if stored.len() > 0 {
            masked(stored)
        } else if resolves {
            "not set \u{00B7} using "@ + env + " from environment"@
        } else {
            "not set"@
        },
        detail: match status {
            Some(KeyStatusView::Checking) => "checking\u{2026}"@,
            Some(KeyStatusView::Valid) => "\u{2713} valid"@,
            Some(KeyStatusView::Invalid(msg)) => "\u{2717} rejected \u{00B7} "@ + reason_of(msg),
            None => if stored.len() > 0 {
                "saved in config"@
            } else {
                ""@
            },
        },
        tone: match status {
            Some(KeyStatusView::Valid) => DetailTone::Good,
            Some(KeyStatusView::Invalid(_)) => DetailTone::Bad,
            _ => DetailTone::Neutral,
        },
        hint: if stored.len() == 0 && !resolves {
            "\u{2190} Enter to paste, or export the variable"
        } else {
            "\u{2190} Enter to edit"
        },
        editing: false,
    }
}

/// Value/detail for an API key row from what is stored, what resolves, and the probe result.
pub fn key_row(stored: &str, resolves: bool, env: &str, status: &Option<KeyStatus>) -> (r: (
    String,
    String,
    DetailTone,
    &'static str,
    bool,
))
    ensures
        row_view(r) == key_row_view(
            stored@,
            resolves,
            env@,
            crate::settings::status_view(*status),
        ),
{
    let has_key = stored.unicode_len() > 0;
    let value = if has_key {
        mask_secret(stored)
    } else if resolves {
        cat3("not set \u{00B7} using ", env, " from environment")
    } else {
        "not set".to_owned()
    };
    let (detail, tone) = match status {
        Some(KeyStatus::Checking) => ("checking\u{2026}".to_owned(), DetailTone::Neutral),
        Some(KeyStatus::Valid) => ("\u{2713} valid".to_owned(), DetailTone::Good),
        Some(KeyStatus::Invalid(msg)) => (
            cat("\u{2717} rejected \u{00B7} ", compact_reason(msg.as_str()).as_str()),
            DetailTone::Bad,
        ),
        None => (
            if has_key {
                "saved in config".to_owned()
            } else {
                "".to_owned()
            },
            DetailTone::Neutral,
        ),
    };
    let hint = if !has_key && !resolves {
        "\u{2190} Enter to paste, or export the variable"
    } else {
        "\u{2190} Enter to edit"
    };
    (value, detail, tone, hint, false)
}

/// A duration in seconds as the timeout row shows it.
pub open spec fn seconds_text(s: nat) -> Seq<char> {
    if s < 60 {
        decimal(s) + "s"@
    } else if s % 60 == 0 {
        decimal(s / 60) + "m"@
    } else {
        decimal(s / 60) + "m "@ + decimal(s % 60) + "s"@
    }
}

/// A duration in seconds as the timeout row shows it.
pub fn seconds_label(s: u64) -> (r: String)
    ensures
        r@ == seconds_text(s as nat),
{
    if s < 60 {
        cat(decimal_of(s).as_str(), "s")
    } else if s % 60 == 0 {
        cat(decimal_of(s / 60).as_str(), "m")
    } else {
        cat4(decimal_of(s / 60).as_str(), "m ", decimal_of(s % 60).as_str(), "s")
    }
}

pub open spec fn on_off(b: bool) -> Seq<char> {
    if b {
        "Enabled"@
    } else {
        "Disabled"@
    }
}

fn on_off_label(b: bool) -> (r: String)
    ensures
        r@ == on_off(b),
{
    if b {
        "Enabled".to_owned()
    } else {
        "Disabled".to_owned()
    }
}

/// The detail of a model of this machine.
pub open spec fn local_detail(m: LocalModel, installed: bool) -> Seq<char> {
    if m.size()@.len() > 0 {
        m.size()@ + (if installed {
            " \u{00B7} installed \u{2713}"@
        } else {
            " \u{00B7} downloads on first use"@
        })
    } else if installed {
        "installed \u{2713}"@
    } else {
        "downloads on first use"@
    }
}

impl SettingsView {
    /// What a row shows while nothing is edited on it.
    pub open spec fn resting_row(self, row: Row, sur: Surroundings) -> RowView {
        let c = self.config;
        let choose = "\u{2190} Enter to choose";
        let edit = "\u{2190} Enter to edit";
        let toggle = "\u{2190} Enter to toggle";
        match row {
            Row::Setup => simple_row(badge(c).1@, ""@, "\u{2190} Enter to change setup"),
            Row::SpeechProvider => simple_row(c.speech().label()@, ""@, choose),
            Row::SpeechModel => match c.speech() {
                SpeechProvider::Local => {
                    let m = match crate::settings::local_model_of(c) {
                        Some(m) => m,
                        None => LocalModel::ParakeetTdt,
                    };
                    simple_row(
                        m.display_name()@,
                        local_detail(m, sur.installed@.contains(m)),
                        choose,
                    )
                },
                SpeechProvider::OpenAI => simple_row(
                    c.speech_model(),
                    if occurs(c.speech_model(), "diarize"@) {
                        "speaker labels"@
                    } else {
                        "curated"@
                    },
                    choose,
                ),
                _ => simple_row(c.speech_model(), "listed by host"@, choose),
            },
            Row::SpeechEndpoint => simple_row(c.speech_url(), ""@, edit),
            Row::SpeechKey => key_row_view(
                c.speech_key(),
                c.resolved_speech_key(sur.env@) is Some,
                c.speech().key_env()@,
                self.speech_key_status,
            ),
            Row::AssistantProvider => simple_row(c.assistant().label()@, ""@, choose),
            Row::AssistantModel => if c.mode matches EnrichmentView::Cloud { model: None, .. }
                && c.assistant().asks_for_a_model() {
                // No sensible default exists for these hosts.
                RowView {
                    value: "not chosen yet"@,
                    detail: ""@,
                    tone: DetailTone::Bad,
                    hint: choose,
                    editing: false,
                }
            } else {
                simple_row(
                    c.assistant_model(),
                    if c.assistant().lists_models_live() {
                        "listed by host"@
                    } else {
                        "curated"@
                    },
                    choose,
                )
            },
            Row::AssistantServer => simple_row(c.ollama_endpoint(), ""@, edit),
            Row::AssistantEndpoint => simple_row(c.assistant_url(), ""@, edit),
            Row::AssistantKey => key_row_view(
                c.assistant_key(),
                c.resolved_assistant_key(sur.env@) is Some,
                c.assistant().key_env()@,
                self.assistant_key_status,
            ),
            Row::AutoStop => simple_row(on_off(c.silence_auto_stop.enabled), ""@, toggle),
            Row::Timeout => simple_row(
                seconds_text(c.silence_auto_stop.timeout_seconds as nat),
                ""@,
                if c.silence_auto_stop.enabled {
                    "\u{2190} Enter to cycle"
                } else {
                    "(enable auto-stop first)"
                },
            ),
            Row::MeetingWatch => simple_row(on_off(c.meeting_watch), ""@, toggle),
            Row::CheckUpdates => simple_row(on_off(c.check_for_updates), ""@, toggle),
        }
    }

    /// What a row shows. Inline text editing takes over the value column; a
    /// secret stays masked while it is typed.
    #[verifier::opaque]
    pub open spec fn row(self, row: Row, sur: Surroundings) -> RowView {
        match self.edit {
            EditView::Text { row: r, buffer, secret, .. } => if r == row {
                RowView {
                    value: (if secret {
                        masked(buffer)
                    } else {
                        buffer
                    }) + "_"@,
                    detail: ""@,
                    tone: DetailTone::Neutral,
                    hint: "",
                    editing: true,
                }
            } else {
                self.resting_row(row, sur)
            },
            _ => self.resting_row(row, sur),
        }
    }
}

fn neutral(value: String, detail: &str, hint: &'static str) -> (r: (
    String,
    String,
    DetailTone,
    &'static str,
    bool,
))
    ensures
        row_view(r) == simple_row(value@, detail@, hint),
{
    (value, detail.to_owned(), DetailTone::Neutral, hint, false)
}

impl Settings {
    fn resting_row_content(&self, row: Row, sur: &Surroundings) -> (r: (
        String,
        String,
        DetailTone,
        &'static str,
        bool,
    ))
        ensures
            row_view(r) == self@.resting_row(row, *sur),
    {
        let c = &self.config;
        let choose = "\u{2190} Enter to choose";
        let edit = "\u{2190} Enter to edit";
        let toggle = "\u{2190} Enter to toggle";
        match row {
            Row::Setup => neutral(
                setup_badge(c).1.to_owned(),
                "",
                "\u{2190} Enter to change setup",
            ),
            Row::SpeechProvider => neutral(speech_provider(c).label().to_owned(), "", choose),
            Row::SpeechModel => match speech_provider(c) {
                SpeechProvider::Local => {
                    let m = match &c.transcription {
                        TranscriptionMode::Local { model } => *model,
                        _ => LocalModel::ParakeetTdt,
                    };
                    let installed = is_installed(&sur.installed, m);
                    let detail = if m.size().unicode_len() > 0 {
                        cat(
                            m.size(),
                            if installed {
                                " \u{00B7} installed \u{2713}"
                            } else {
                                " \u{00B7} downloads on first use"
                            },
                        )
                    } else if installed {
                        "installed \u{2713}".to_owned()
                    } else {
                        "downloads on first use".to_owned()
                    };
                    neutral(m.display_name().to_owned(), detail.as_str(), choose)
                },
                SpeechProvider::OpenAI => {
                    let model = c.transcription_model();
                    let detail = if contains(model.as_str(), "diarize") {
                        "speaker labels"
                    } else {
                        "curated"
                    };
                    neutral(model, detail, choose)
                },
                _ => neutral(c.transcription_model(), "listed by host", choose),
            },
            Row::SpeechEndpoint => neutral(c.transcription_base_url(), "", edit),
            Row::SpeechKey => key_row(
                c.speech_key().as_str(),
                c.resolve_transcription_api_key(&sur.env).is_some(),
                speech_provider(c).key_env(),
                &self.speech_key_status,
            ),
            Row::AssistantProvider => neutral(
                assistant_provider(c).label().to_owned(),
                "",
                choose,
            ),
            Row::AssistantModel => {
                let provider = assistant_provider(c);
                let unset = match &c.enrichment.mode {
                    EnrichmentMode::Cloud { model, .. } => model.is_none(),
                    _ => false,
                };
                if unset && provider.asks_for_a_model() {
                    return (
                        "not chosen yet".to_owned(),
                        "".to_owned(),
                        DetailTone::Bad,
                        choose,
                        false,
                    );
                }
                let detail = if provider.lists_models_live() {
                    "listed by host"
                } else {
                    "curated"
                };
                neutral(c.model_name(), detail, choose)
            },
            Row::AssistantServer => neutral(c.ollama_endpoint(), "", edit),
            Row::AssistantEndpoint => neutral(c.effective_base_url(), "", edit),
            Row::AssistantKey => key_row(
                c.assistant_key().as_str(),
                c.resolve_api_key(&sur.env).is_some(),
                assistant_provider(c).key_env(),
                &self.assistant_key_status,
            ),
            Row::AutoStop => neutral(on_off_label(c.silence_auto_stop.enabled), "", toggle),
            Row::Timeout => neutral(
                seconds_label(c.silence_auto_stop.timeout_seconds),
                "",
                if c.silence_auto_stop.enabled {
                    "\u{2190} Enter to cycle"
                } else {
                    "(enable auto-stop first)"
                },
            ),
            Row::MeetingWatch => neutral(on_off_label(c.meeting_watch), "", toggle),
            Row::CheckUpdates => neutral(on_off_label(c.check_for_updates), "", toggle),
        }
    }

    /// Value, detail (with tone), hint, and whether the value is being edited, for one row.
    pub fn row_content(&self, row: Row, sur: &Surroundings) -> (r: (
        String,
        String,
        DetailTone,
        &'static str,
        bool,
    ))
        ensures
            row_view(r) == self@.row(row, *sur),
    {
        proof {
            reveal(SettingsView::row);
        }
        match &self.edit {
            SettingsEdit::Text { row: r, buffer, secret, .. } => {
                if *r == row {
                    let shown = if *secret {
                        mask_secret(buffer.as_str())
                    } else {
                        buffer.clone()
                    };
                    return (
                        cat(shown.as_str(), "_"),
                        "".to_owned(),
                        DetailTone::Neutral,
                        "",
                        true,
                    );
                }
                self.resting_row_content(row, sur)
            },
            _ => self.resting_row_content(row, sur),
        }
    }
}

} // verus!
