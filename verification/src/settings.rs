//! The settings screen: two provider cards of the same shape, a setup row that
//! sums them up, and a few switches. Every choice opens a list picker, every
//! text field edits inline.
use vstd::prelude::*;

use crate::config::{
    trim_slashes, ConfigView, EnrichmentMode, EnrichmentView, EnvVar, LocalModel, ScribaConfig,
    SilenceAutoStop, TranscriptionMode, TranscriptionView,
};
use crate::keys::Key;
use crate::providers::{
    all_assistant_providers, all_speech_providers, assistant_provider, assistant_providers,
    some_nonempty, speech_provider, speech_providers, AssistantProvider, SpeechProvider,
};
use crate::text::{
    at_most, cat, contains, copy_option, lowercase, nonempty, occurs, option_text, same, trim,
    trimmed, without_last,
};

verus! {

/// Every selectable row. Which ones appear depends on the configuration.
#[derive(Clone, Copy, Debug, PartialEq, Eq, Structural)]
pub enum Row {
    Setup,
    SpeechProvider,
    SpeechModel,
    SpeechEndpoint,
    SpeechKey,
    AssistantProvider,
    AssistantModel,
    AssistantServer,
    AssistantEndpoint,
    AssistantKey,
    AutoStop,
    Timeout,
    MeetingWatch,
    CheckUpdates,
}

impl Row {
    #[verifier::allow_in_spec]
    pub fn label(self) -> &'static str
        returns
            (match self {
                Row::Setup => "Setup",
                Row::SpeechProvider | Row::AssistantProvider => "Provider",
                Row::SpeechModel | Row::AssistantModel => "Model",
                Row::SpeechEndpoint | Row::AssistantEndpoint => "Endpoint",
                Row::SpeechKey | Row::AssistantKey => "API key",
                Row::AssistantServer => "Server",
                Row::AutoStop => "Auto-stop",
                Row::Timeout => "Timeout",
                Row::MeetingWatch => "Meeting watch",
                Row::CheckUpdates => "Check updates",
            }),
    {
        match self {
            Row::Setup => "Setup",
            Row::SpeechProvider | Row::AssistantProvider => "Provider",
            Row::SpeechModel | Row::AssistantModel => "Model",
            Row::SpeechEndpoint | Row::AssistantEndpoint => "Endpoint",
            Row::SpeechKey | Row::AssistantKey => "API key",
            Row::AssistantServer => "Server",
            Row::AutoStop => "Auto-stop",
            Row::Timeout => "Timeout",
            Row::MeetingWatch => "Meeting watch",
            Row::CheckUpdates => "Check updates",
        }
    }

    /// Section header shown above the first row of each group.
    #[verifier::allow_in_spec]
    pub fn section(self) -> Option<&'static str>
        returns
            (match self {
                Row::Setup => None,
                Row::SpeechProvider | Row::SpeechModel | Row::SpeechEndpoint | Row::SpeechKey => Some(
                    "SPEECH TO TEXT",
                ),
                Row::AutoStop | Row::Timeout | Row::MeetingWatch => Some("RECORDING"),
                Row::CheckUpdates => Some("GENERAL"),
                _ => Some("ASSISTANT"),
            }),
    {
        match self {
            Row::Setup => None,
            Row::SpeechProvider | Row::SpeechModel | Row::SpeechEndpoint | Row::SpeechKey => Some(
                "SPEECH TO TEXT",
            ),
            Row::AutoStop | Row::Timeout | Row::MeetingWatch => Some("RECORDING"),
            Row::CheckUpdates => Some("GENERAL"),
            _ => Some("ASSISTANT"),
        }
    }
}

/// The two provider cards.
#[derive(Clone, Copy, Debug, PartialEq, Eq, Structural)]
pub enum Card {
    Speech,
    Assistant,
}

/// One-shot setups behind the Setup row.
#[derive(Clone, Copy, Debug, PartialEq, Eq, Structural)]
pub enum Profile {
    FullyPrivate,
    Cloud,
    LocalSpeechClaude,
    KeepCustom,
}

/// What a picker item stands for.
#[derive(Debug)]
pub enum PickerValue {
    Speech(SpeechProvider),
    Assistant(AssistantProvider),
    LocalStt(LocalModel),
    Model(String),
    /// "Type a model id…" sentinel.
    TypeModel,
    Profile(Profile),
}

pub enum PickerValueView {
    Speech(SpeechProvider),
    Assistant(AssistantProvider),
    LocalStt(LocalModel),
    Model(Seq<char>),
    TypeModel,
    Profile(Profile),
}

impl View for PickerValue {
    type V = PickerValueView;

    open spec fn view(&self) -> PickerValueView {
        match *self {
            PickerValue::Speech(p) => PickerValueView::Speech(p),
            PickerValue::Assistant(p) => PickerValueView::Assistant(p),
            PickerValue::LocalStt(m) => PickerValueView::LocalStt(m),
            PickerValue::Model(id) => PickerValueView::Model(id@),
            PickerValue::TypeModel => PickerValueView::TypeModel,
            PickerValue::Profile(p) => PickerValueView::Profile(p),
        }
    }
}

impl PickerValue {
    fn copy(&self) -> (r: PickerValue)
        ensures
            r@ == self@,
    {
        match self {
            PickerValue::Speech(p) => PickerValue::Speech(*p),
            PickerValue::Assistant(p) => PickerValue::Assistant(*p),
            PickerValue::LocalStt(m) => PickerValue::LocalStt(*m),
            PickerValue::Model(id) => PickerValue::Model(id.clone()),
            PickerValue::TypeModel => PickerValue::TypeModel,
            PickerValue::Profile(p) => PickerValue::Profile(*p),
        }
    }

    /// Whether the item stands for the model called `id`.
    fn is_model(&self, id: &str) -> (r: bool)
        ensures
            r == (self@ == PickerValueView::Model(id@)),
    {
        match self {
            PickerValue::Model(m) => same(m.as_str(), id),
            _ => false,
        }
    }
}

/// One line of a picker.
#[derive(Debug)]
pub struct PickerItem {
    pub label: String,
    pub detail: String,
    pub value: PickerValue,
}

pub struct PickerItemView {
    pub label: Seq<char>,
    pub detail: Seq<char>,
    pub value: PickerValueView,
}

impl View for PickerItem {
    type V = PickerItemView;

    open spec fn view(&self) -> PickerItemView {
        PickerItemView { label: self.label@, detail: self.detail@, value: self.value@ }
    }
}

pub open spec fn items_view(items: Seq<PickerItem>) -> Seq<PickerItemView> {
    Seq::new(items.len(), |i: int| items[i]@)
}

fn push_item(items: &mut Vec<PickerItem>, label: &str, detail: &str, value: PickerValue)
    ensures
        items_view(final(items)@) == items_view(old(items)@).push(
            PickerItemView { label: label@, detail: detail@, value: value@ },
        ),
{
    items.push(PickerItem { label: label.to_owned(), detail: detail.to_owned(), value });
    assert(items_view(items@) =~= items_view(old(items)@).push(
        PickerItemView { label: label@, detail: detail@, value: value@ },
    ));
}

fn no_items() -> (r: Vec<PickerItem>)
    ensures
        items_view(r@) == Seq::<PickerItemView>::empty(),
{
    let r: Vec<PickerItem> = Vec::new();
    assert(items_view(r@) =~= Seq::<PickerItemView>::empty());
    r
}

/// What the settings screen is doing besides navigating.
#[derive(Debug)]
pub enum SettingsEdit {
    Idle,
    /// Inline text entry on `row`.
    Text { row: Row, buffer: String, secret: bool, note: Option<String> },
    /// List picker opened from `row`.
    Picker {
        row: Row,
        title: String,
        items: Vec<PickerItem>,
        selection: usize,
        filter: String,
        loading: bool,
        message: Option<String>,
    },
}

pub enum EditView {
    Idle,
    Text { row: Row, buffer: Seq<char>, secret: bool, note: Option<Seq<char>> },
    Picker {
        row: Row,
        title: Seq<char>,
        items: Seq<PickerItemView>,
        selection: int,
        filter: Seq<char>,
        loading: bool,
        message: Option<Seq<char>>,
    },
}

impl View for SettingsEdit {
    type V = EditView;

    open spec fn view(&self) -> EditView {
        match *self {
            SettingsEdit::Idle => EditView::Idle,
            SettingsEdit::Text { row, buffer, secret, note } => EditView::Text {
                row,
                buffer: buffer@,
                secret,
                note: option_text(note),
            },
            SettingsEdit::Picker { row, title, items, selection, filter, loading, message } =>
            EditView::Picker {
                row,
                title: title@,
                items: items_view(items@),
                selection: selection as int,
                filter: filter@,
                loading,
                message: option_text(message),
            },
        }
    }
}

/// Result of probing an API key against its host.
#[derive(Debug)]
pub enum KeyStatus {
    Checking,
    Valid,
    Invalid(String),
}

pub enum KeyStatusView {
    Checking,
    Valid,
    Invalid(Seq<char>),
}

impl View for KeyStatus {
    type V = KeyStatusView;

    open spec fn view(&self) -> KeyStatusView {
        match *self {
            KeyStatus::Checking => KeyStatusView::Checking,
            KeyStatus::Valid => KeyStatusView::Valid,
            KeyStatus::Invalid(why) => KeyStatusView::Invalid(why@),
        }
    }
}

pub open spec fn status_view(s: Option<KeyStatus>) -> Option<KeyStatusView> {
    match s {
        Some(k) => Some(k@),
        None => None,
    }
}

/// What the configuration is saved for.
#[derive(Clone, Copy, Debug, PartialEq, Eq, Structural)]
pub enum What {
    Setting,
    Model,
    Provider,
    Endpoint,
    Server,
    ApiKey,
}

impl What {
    #[verifier::allow_in_spec]
    pub fn label(self) -> &'static str
        returns
            (match self {
                What::Setting => "setting",
                What::Model => "model",
                What::Provider => "provider",
                What::Endpoint => "endpoint",
                What::Server => "server",
                What::ApiKey => "API key",
            }),
    {
        match self {
            What::Setting => "setting",
            What::Model => "model",
            What::Provider => "provider",
            What::Endpoint => "endpoint",
            What::Server => "server",
            What::ApiKey => "API key",
        }
    }
}

/// The message that reports a failed save.
pub fn save_error(what: What, reason: &str) -> (r: String)
    ensures
        r@ == "Failed to save "@ + what.label()@ + ": "@ + reason@,
{
    crate::text::cat4("Failed to save ", what.label(), ": ", reason)
}

/// Work that a key press leaves to the caller, in this order.
#[derive(Clone, Copy, Debug, PartialEq, Eq, Structural)]
pub enum Effect {
    /// Write the configuration to disk.
    Save(What),
    /// Check the speech key, or the assistant key, against its host.
    ProbeSpeech,
    ProbeAssistant,
    /// Ask the host for its models.
    ListSpeechModels,
    ListOllamaModels,
    ListAssistantModels,
    /// The model list that was asked for is no longer wanted.
    StopListing,
    /// Start or stop watching for meetings.
    SyncAutopilot,
    /// Go back to the main screen.
    Leave,
}

/// A model of a curated list.
#[derive(Debug)]
pub struct ModelChoice {
    pub display_name: String,
    pub model_id: String,
}

/// A model as its host lists it.
#[derive(Debug)]
pub struct ModelListEntry {
    pub id: String,
    pub supports_tools: Option<bool>,
}

/// What a key press may depend on besides the configuration.
#[derive(Debug)]
pub struct Surroundings {
    /// The environment.
    pub env: Vec<EnvVar>,
    /// The speech models that are on this machine.
    pub installed: Vec<LocalModel>,
    /// The curated models of the current assistant host.
    pub curated: Vec<ModelChoice>,
}

/// The state of the settings screen.
#[derive(Debug)]
pub struct Settings {
    pub config: ScribaConfig,
    pub edit: SettingsEdit,
    pub selection: usize,
    pub speech_key_status: Option<KeyStatus>,
    pub assistant_key_status: Option<KeyStatus>,
    pub effects: Vec<Effect>,
}

pub struct SettingsView {
    pub config: ConfigView,
    pub edit: EditView,
    pub selection: int,
    pub speech_key_status: Option<KeyStatusView>,
    pub assistant_key_status: Option<KeyStatusView>,
    pub effects: Seq<Effect>,
}

impl View for Settings {
    type V = SettingsView;

    open spec fn view(&self) -> SettingsView {
        SettingsView {
            config: self.config@,
            edit: self.edit@,
            selection: self.selection as int,
            speech_key_status: status_view(self.speech_key_status),
            assistant_key_status: status_view(self.assistant_key_status),
            effects: self.effects@,
        }
    }
}

// ─── Rows ────────────────────────────────────────────────────────────────────

/// The fields that the speech card has besides provider and model.
pub open spec fn speech_fields(p: SpeechProvider) -> Seq<Row> {
    match p {
        SpeechProvider::Local => seq![],
        SpeechProvider::Custom => seq![Row::SpeechEndpoint, Row::SpeechKey],
        _ => seq![Row::SpeechKey],
    }
}

/// The fields that the assistant card has besides provider and model.
pub open spec fn assistant_fields(p: AssistantProvider) -> Seq<Row> {
    match p {
        AssistantProvider::Ollama => seq![Row::AssistantServer],
        AssistantProvider::Custom => seq![Row::AssistantEndpoint, Row::AssistantKey],
        _ => seq![Row::AssistantKey],
    }
}

/// The rows of a configuration, in display order.
pub open spec fn rows_of(c: ConfigView) -> Seq<Row> {
    seq![Row::Setup, Row::SpeechProvider, Row::SpeechModel] + speech_fields(c.speech())
        + seq![Row::AssistantProvider, Row::AssistantModel] + assistant_fields(c.assistant())
        + seq![Row::AutoStop, Row::Timeout, Row::MeetingWatch, Row::CheckUpdates]
}

/// Rows for the current configuration, in display order.
pub fn settings_rows(config: &ScribaConfig) -> (r: Vec<Row>)
    ensures
        r@ == rows_of(config@),
{
    let mut rows = vec![Row::Setup, Row::SpeechProvider, Row::SpeechModel];
    match speech_provider(config) {
        SpeechProvider::Local => {},
        SpeechProvider::Custom => {
            rows.push(Row::SpeechEndpoint);
            rows.push(Row::SpeechKey);
        },
        _ => rows.push(Row::SpeechKey),
    }
    rows.push(Row::AssistantProvider);
    rows.push(Row::AssistantModel);
    match assistant_provider(config) {
        AssistantProvider::Ollama => rows.push(Row::AssistantServer),
        AssistantProvider::Custom => {
            rows.push(Row::AssistantEndpoint);
            rows.push(Row::AssistantKey);
        },
        _ => rows.push(Row::AssistantKey),
    }
    rows.push(Row::AutoStop);
    rows.push(Row::Timeout);
    rows.push(Row::MeetingWatch);
    rows.push(Row::CheckUpdates);
    assert(rows@ =~= rows_of(config@));
    rows
}

/// What the combination of the two cards amounts to.
pub open spec fn badge(c: ConfigView) -> (&'static str, &'static str) {
    let speech_local = c.speech() == SpeechProvider::Local;
    let assistant_local = c.assistant() == AssistantProvider::Ollama;
    if speech_local && assistant_local {
        ("\u{25CF}", "Fully private")
    } else if !speech_local && !assistant_local {
        ("\u{25CF}", "Cloud")
    } else {
        ("\u{25D0}", "Mixed")
    }
}

/// What the combination of the two cards amounts to: an icon and a name.
pub fn setup_badge(config: &ScribaConfig) -> (r: (&'static str, &'static str))
    ensures
        r == badge(config@),
{
    let speech_local = speech_provider(config) == SpeechProvider::Local;
    let assistant_local = assistant_provider(config) == AssistantProvider::Ollama;
    if speech_local && assistant_local {
        ("\u{25CF}", "Fully private")
    } else if !speech_local && !assistant_local {
        ("\u{25CF}", "Cloud")
    } else {
        ("\u{25D0}", "Mixed")
    }
}

// ─── Picker filter ───────────────────────────────────────────────────────────

/// An item passes the filter: it mentions the needle, or it is the entry for
/// typing a model id.
pub open spec fn shown(item: PickerItemView, needle: Seq<char>) -> bool {
    ||| needle.len() == 0
    ||| item.value == PickerValueView::TypeModel
    ||| occurs(lowercase(item.label), needle)
    ||| occurs(lowercase(item.detail), needle)
}

pub open spec fn needle_of(filter: Seq<char>) -> Seq<char> {
    lowercase(trimmed(filter))
}

/// The positions below `n` of the items that pass.
pub open spec fn visible_below(items: Seq<PickerItemView>, needle: Seq<char>, n: nat) -> Seq<int>
    decreases n,
{
    if n == 0 {
        Seq::empty()
    } else {
        let before = visible_below(items, needle, (n - 1) as nat);
        if shown(items[n - 1], needle) {
            before.push(n - 1)
        } else {
            before
        }
    }
}

/// The positions of the items that the filter lets through, in order.
pub open spec fn visible(items: Seq<PickerItemView>, filter: Seq<char>) -> Seq<int> {
    visible_below(items, needle_of(filter), items.len())
}

/// The items that the filter lets through, with their positions.
pub fn visible_picker_items<'a>(items: &'a [PickerItem], filter: &str) -> (r: Vec<
    (usize, &'a PickerItem),
>)
    ensures
        Seq::new(r@.len(), |k: int| r@[k].0 as int) == visible(items_view(items@), filter@),
        forall|k: int|
            0 <= k < r@.len() ==> (#[trigger] r@[k]).0 < items@.len() && *r@[k].1
                == items@[r@[k].0 as int],
{
    let needle = trim(filter).to_lowercase();
    let ghost all = items_view(items@);
    let mut r: Vec<(usize, &'a PickerItem)> = Vec::new();
    let mut i: usize = 0;
    while i < items.len()
        invariant
            i <= items@.len(),
            needle@ == needle_of(filter@),
            all == items_view(items@),
            Seq::new(r@.len(), |k: int| r@[k].0 as int) =~= visible_below(all, needle@, i as nat),
            forall|k: int|
                0 <= k < r@.len() ==> (#[trigger] r@[k]).0 < items@.len() && *r@[k].1
                    == items@[r@[k].0 as int],
        decreases items.len() - i,
    {
        let item: &'a PickerItem = &items[i];
        let sentinel = match item.value {
            PickerValue::TypeModel => true,
            _ => false,
        };
        proof {
            assert(all[i as int] == item@);
        }
        if needle.as_str().unicode_len() == 0 || sentinel || contains(
            item.label.as_str().to_lowercase().as_str(),
            needle.as_str(),
        ) || contains(item.detail.as_str().to_lowercase().as_str(), needle.as_str()) {
            r.push((i, item));
        }
        i += 1;
    }
    r
}

/// The entry for typing a model id.
pub open spec fn type_model() -> PickerItemView {
    PickerItemView {
        label: "Type a model id\u{2026}"@,
        detail: Seq::empty(),
        value: PickerValueView::TypeModel,
    }
}

/// The entry for typing a model id.
pub fn type_model_item() -> (r: PickerItem)
    ensures
        r@ == type_model(),
{
    PickerItem {
        label: "Type a model id\u{2026}".to_owned(),
        detail: String::new(),
        value: PickerValue::TypeModel,
    }
}

fn push_type_model(items: &mut Vec<PickerItem>)
    ensures
        items_view(final(items)@) == items_view(old(items)@).push(type_model()),
{
    items.push(type_model_item());
    assert(items_view(items@) =~= items_view(old(items)@).push(type_model()));
}

/// The position of the first item for model `id`, from position `from` on.
pub open spec fn model_position(items: Seq<PickerItemView>, id: Seq<char>, from: int) -> Option<int>
    decreases items.len() - from,
{
    if from < 0 || from >= items.len() {
        None
    } else if items[from].value == PickerValueView::Model(id) {
        Some(from)
    } else {
        model_position(items, id, from + 1)
    }
}

fn position_of_model(items: &Vec<PickerItem>, id: &str) -> (r: Option<usize>)
    ensures
        (match r {
            Some(i) => Some(i as int),
            None => None,
        }) == model_position(items_view(items@), id@, 0),
{
    let mut i: usize = 0;
    while i < items.len()
        invariant
            i <= items@.len(),
            model_position(items_view(items@), id@, 0) == model_position(
                items_view(items@),
                id@,
                i as int,
            ),
        decreases items.len() - i,
    {
        if items[i].value.is_model(id) {
            return Some(i);
        }
        i += 1;
    }
    None
}

// ─── Picker contents ─────────────────────────────────────────────────────────

pub open spec fn item(label: Seq<char>, detail: Seq<char>, value: PickerValueView) -> PickerItemView {
    PickerItemView { label, detail, value }
}

/// The one-shot setups.
pub open spec fn setup_items() -> Seq<PickerItemView> {
    Seq::empty().push(
        item(
            "Fully private"@,
            "local speech + Ollama"@,
            PickerValueView::Profile(Profile::FullyPrivate),
        ),
    ).push(
        item(
            "Cloud"@,
            "OpenAI speech + Anthropic"@,
            PickerValueView::Profile(Profile::Cloud),
        ),
    ).push(
        item(
            "Local speech + Anthropic"@,
            "Parakeet here, Anthropic for the assistant"@,
            PickerValueView::Profile(Profile::LocalSpeechClaude),
        ),
    ).push(
        item("Keep my custom mix"@, ""@, PickerValueView::Profile(Profile::KeepCustom)),
    )
}

fn setup_picker_items() -> (r: Vec<PickerItem>)
    ensures
        items_view(r@) == setup_items(),
{
    let mut r = no_items();
    push_item(
        &mut r,
        "Fully private",
        "local speech + Ollama",
        PickerValue::Profile(Profile::FullyPrivate),
    );
    push_item(&mut r, "Cloud", "OpenAI speech + Anthropic", PickerValue::Profile(Profile::Cloud));
    push_item(
        &mut r,
        "Local speech + Anthropic",
        "Parakeet here, Anthropic for the assistant",
        PickerValue::Profile(Profile::LocalSpeechClaude),
    );
    push_item(&mut r, "Keep my custom mix", "", PickerValue::Profile(Profile::KeepCustom));
    r
}

/// A key is known for speech host `p`.
pub open spec fn speech_has_key(c: ConfigView, p: SpeechProvider, env: Seq<EnvVar>) -> bool {
    if c.speech() == p {
        c.resolved_speech_key(env) is Some
    } else {
        c.stt_slots[p.index() as int].key is Some
    }
}

/// A key is known for assistant host `p`.
pub open spec fn assistant_has_key(c: ConfigView, p: AssistantProvider, env: Seq<EnvVar>) -> bool {
    if c.assistant() == p {
        c.resolved_assistant_key(env) is Some
    } else {
        c.slots[p.index() as int].key matches Some(k) && k.len() > 0
    }
}

/// A provider's detail, with a mark where a key is already saved for that host.
pub open spec fn marked(detail: Seq<char>, has_key: bool) -> Seq<char> {
    if has_key {
        detail + " \u{00B7} key saved \u{2713}"@
    } else {
        detail
    }
}

pub open spec fn speech_item(c: ConfigView, p: SpeechProvider, env: Seq<EnvVar>) -> PickerItemView {
    item(
        p.label()@,
        marked(p.detail()@, p != SpeechProvider::Local && speech_has_key(c, p, env)),
        PickerValueView::Speech(p),
    )
}

pub open spec fn assistant_item(
    c: ConfigView,
    p: AssistantProvider,
    env: Seq<EnvVar>,
) -> PickerItemView {
    item(
        p.label()@,
        marked(p.detail()@, p != AssistantProvider::Ollama && assistant_has_key(c, p, env)),
        PickerValueView::Assistant(p),
    )
}

/// Every speech provider with its detail.
pub open spec fn speech_items(c: ConfigView, env: Seq<EnvVar>) -> Seq<PickerItemView> {
    Seq::new(speech_providers().len(), |i: int| speech_item(c, speech_providers()[i], env))
}

/// Every assistant provider with its detail.
pub open spec fn assistant_items(c: ConfigView, env: Seq<EnvVar>) -> Seq<PickerItemView> {
    Seq::new(assistant_providers().len(), |i: int| assistant_item(c, assistant_providers()[i], env))
}

fn mark(detail: &str, has_key: bool) -> (r: String)
    ensures
        r@ == marked(detail@, has_key),
{
    if has_key {
        cat(detail, " \u{00B7} key saved \u{2713}")
    } else {
        detail.to_owned()
    }
}

/// Detail shown in the provider picker: whether a key is already saved for that host.
pub fn speech_provider_detail(config: &ScribaConfig, p: SpeechProvider, env: &Vec<EnvVar>) -> (r:
    String)
    requires
        config@.wf(),
    ensures
        r@ == speech_item(config@, p, env@).detail,
{
    if p == SpeechProvider::Local {
        return mark(p.detail(), false);
    }
    let has_key = if speech_provider(config) == p {
        config.resolve_transcription_api_key(env).is_some()
    } else {
        config.stt_slots.get(p.index()).key.is_some()
    };
    mark(p.detail(), has_key)
}

/// Detail shown in the provider picker: whether a key is already saved for that host.
pub fn assistant_provider_detail(
    config: &ScribaConfig,
    p: AssistantProvider,
    env: &Vec<EnvVar>,
) -> (r: String)
    requires
        config@.wf(),
    ensures
        r@ == assistant_item(config@, p, env@).detail,
{
    if p == AssistantProvider::Ollama {
        return mark(p.detail(), false);
    }
    let has_key = if assistant_provider(config) == p {
        config.resolve_api_key(env).is_some()
    } else {
        match &config.enrichment.slots.get(p.index()).key {
            Some(k) => k.as_str().unicode_len() > 0,
            None => false,
        }
    };
    mark(p.detail(), has_key)
}

fn speech_picker_items(config: &ScribaConfig, env: &Vec<EnvVar>) -> (r: Vec<PickerItem>)
    requires
        config@.wf(),
    ensures
        items_view(r@) == speech_items(config@, env@),
{
    let all = all_speech_providers();
    let mut r = no_items();
    let mut i: usize = 0;
    while i < all.len()
        invariant
            config@.wf(),
            all@ == speech_providers(),
            i <= all@.len(),
            items_view(r@) =~= speech_items(config@, env@).take(i as int),
        decreases all.len() - i,
    {
        let p = all[i];
        let detail = speech_provider_detail(config, p, env);
        push_item(&mut r, p.label(), detail.as_str(), PickerValue::Speech(p));
        i += 1;
    }
    r
}

fn assistant_picker_items(config: &ScribaConfig, env: &Vec<EnvVar>) -> (r: Vec<PickerItem>)
    requires
        config@.wf(),
    ensures
        items_view(r@) == assistant_items(config@, env@),
{
    let all = all_assistant_providers();
    let mut r = no_items();
    let mut i: usize = 0;
    while i < all.len()
        invariant
            config@.wf(),
            all@ == assistant_providers(),
            i <= all@.len(),
            items_view(r@) =~= assistant_items(config@, env@).take(i as int),
        decreases all.len() - i,
    {
        let p = all[i];
        let detail = assistant_provider_detail(config, p, env);
        push_item(&mut r, p.label(), detail.as_str(), PickerValue::Assistant(p));
        i += 1;
    }
    r
}

/// A speech model of this machine: its size, and whether it is installed.
pub open spec fn local_item(m: LocalModel, installed: Seq<LocalModel>) -> PickerItemView {
    item(
        m.display_name()@,
        m.size()@ + (if installed.contains(m) {
            " \u{00B7} installed \u{2713}"@
        } else {
            ""@
        }),
        PickerValueView::LocalStt(m),
    )
}

/// The position of a model in the local picker.
#[verifier::allow_in_spec]
pub fn local_position(m: LocalModel) -> usize
    returns
        (match m {
            LocalModel::ParakeetTdt => 0usize,
            LocalModel::WhisperTurbo => 1usize,
            LocalModel::WhisperLarge => 2usize,
            LocalModel::WhisperMedium => 3usize,
            LocalModel::WhisperSmall => 4usize,
            LocalModel::SenseVoice => 5usize,
        }),
{
    match m {
        LocalModel::ParakeetTdt => 0usize,
        LocalModel::WhisperTurbo => 1usize,
        LocalModel::WhisperLarge => 2usize,
        LocalModel::WhisperMedium => 3usize,
        LocalModel::WhisperSmall => 4usize,
        LocalModel::SenseVoice => 5usize,
    }
}

pub open spec fn local_items(installed: Seq<LocalModel>) -> Seq<PickerItemView> {
    Seq::empty().push(local_item(LocalModel::ParakeetTdt, installed)).push(
        local_item(LocalModel::WhisperTurbo, installed),
    ).push(local_item(LocalModel::WhisperLarge, installed)).push(
        local_item(LocalModel::WhisperMedium, installed),
    ).push(local_item(LocalModel::WhisperSmall, installed)).push(
        local_item(LocalModel::SenseVoice, installed),
    )
}

/// Whether `m` is on this machine.
pub fn is_installed(installed: &Vec<LocalModel>, m: LocalModel) -> (r: bool)
    ensures
        r == installed@.contains(m),
{
    let mut i: usize = 0;
    while i < installed.len()
        invariant
            i <= installed@.len(),
            forall|k: int| 0 <= k < i ==> installed@[k] != m,
        decreases installed.len() - i,
    {
        if installed[i] == m {
            return true;
        }
        i += 1;
    }
    false
}

fn push_local(items: &mut Vec<PickerItem>, m: LocalModel, installed: &Vec<LocalModel>)
    ensures
        items_view(final(items)@) == items_view(old(items)@).push(local_item(m, installed@)),
{
    let suffix = if is_installed(installed, m) {
        " \u{00B7} installed \u{2713}"
    } else {
        ""
    };
    let detail = cat(m.size(), suffix);
    push_item(items, m.display_name(), detail.as_str(), PickerValue::LocalStt(m));
}

/// The speech models that run on this machine.
pub fn local_picker_items(installed: &Vec<LocalModel>) -> (r: Vec<PickerItem>)
    ensures
        items_view(r@) == local_items(installed@),
{
    let mut r = no_items();
    push_local(&mut r, LocalModel::ParakeetTdt, installed);
    push_local(&mut r, LocalModel::WhisperTurbo, installed);
    push_local(&mut r, LocalModel::WhisperLarge, installed);
    push_local(&mut r, LocalModel::WhisperMedium, installed);
    push_local(&mut r, LocalModel::WhisperSmall, installed);
    push_local(&mut r, LocalModel::SenseVoice, installed);
    r
}

/// The transcription models of OpenAI.
pub open spec fn openai_items() -> Seq<PickerItemView> {
    Seq::empty().push(item("Whisper"@, "whisper-1"@, PickerValueView::Model("whisper-1"@))).push(
        item(
            "GPT-4o Transcribe"@,
            "gpt-4o-transcribe"@,
            PickerValueView::Model("gpt-4o-transcribe"@),
        ),
    ).push(
        item(
            "GPT-4o Transcribe, speaker labels"@,
            "gpt-4o-transcribe-diarize"@,
            PickerValueView::Model("gpt-4o-transcribe-diarize"@),
        ),
    )
}

fn openai_picker_items() -> (r: Vec<PickerItem>)
    ensures
        items_view(r@) == openai_items(),
{
    let mut r = no_items();
    push_item(&mut r, "Whisper", "whisper-1", PickerValue::Model("whisper-1".to_owned()));
    push_item(
        &mut r,
        "GPT-4o Transcribe",
        "gpt-4o-transcribe",
        PickerValue::Model("gpt-4o-transcribe".to_owned()),
    );
    push_item(
        &mut r,
        "GPT-4o Transcribe, speaker labels",
        "gpt-4o-transcribe-diarize",
        PickerValue::Model("gpt-4o-transcribe-diarize".to_owned()),
    );
    r
}

/// The curated models as picker items.
pub open spec fn curated_items(curated: Seq<ModelChoice>) -> Seq<PickerItemView> {
    Seq::new(
        curated.len(),
        |i: int|
            item(
                curated[i].display_name@,
                curated[i].model_id@,
                PickerValueView::Model(curated[i].model_id@),
            ),
    )
}

fn curated_picker_items(curated: &Vec<ModelChoice>) -> (r: Vec<PickerItem>)
    ensures
        items_view(r@) == curated_items(curated@),
{
    let mut r = no_items();
    let mut i: usize = 0;
    while i < curated.len()
        invariant
            i <= curated@.len(),
            items_view(r@) =~= curated_items(curated@).take(i as int),
        decreases curated.len() - i,
    {
        let m = &curated[i];
        push_item(
            &mut r,
            m.display_name.as_str(),
            m.model_id.as_str(),
            PickerValue::Model(m.model_id.clone()),
        );
        i += 1;
    }
    r
}

/// What is said of a listed model's tools.
#[verifier::allow_in_spec]
pub fn tools_note(supports_tools: Option<bool>) -> &'static str
    returns
        (match supports_tools {
            Some(true) => "tools \u{2713}",
            Some(false) => "no tools",
            None => "",
        }),
{
    match supports_tools {
        Some(true) => "tools \u{2713}",
        Some(false) => "no tools",
        None => "",
    }
}

/// The models that a host listed, as picker items.
pub open spec fn listed_items(entries: Seq<ModelListEntry>) -> Seq<PickerItemView> {
    Seq::new(
        entries.len(),
        |i: int|
            item(
                entries[i].id@,
                tools_note(entries[i].supports_tools)@,
                PickerValueView::Model(entries[i].id@),
            ),
    )
}

fn listed_picker_items(entries: &Vec<ModelListEntry>) -> (r: Vec<PickerItem>)
    ensures
        items_view(r@) == listed_items(entries@),
{
    let mut r = no_items();
    let mut i: usize = 0;
    while i < entries.len()
        invariant
            i <= entries@.len(),
            items_view(r@) =~= listed_items(entries@).take(i as int),
        decreases entries.len() - i,
    {
        let e = &entries[i];
        push_item(
            &mut r,
            e.id.as_str(),
            tools_note(e.supports_tools),
            PickerValue::Model(e.id.clone()),
        );
        i += 1;
    }
    r
}

/// The title of the picker that a row opens.
pub open spec fn title_of(c: ConfigView, row: Row) -> Seq<char> {
    match row {
        Row::Setup => "Change setup"@,
        Row::SpeechProvider => "Choose a speech-to-text provider"@,
        Row::AssistantProvider => "Choose an assistant provider"@,
        Row::SpeechModel => "Choose a model \u{00B7} "@ + c.speech().label()@,
        Row::AssistantModel => "Choose a model \u{00B7} "@ + c.assistant().label()@,
        _ => Seq::empty(),
    }
}

/// The title of the picker that a row opens.
pub fn picker_title(config: &ScribaConfig, row: Row) -> (r: String)
    ensures
        r@ == title_of(config@, row),
{
    match row {
        Row::Setup => "Change setup".to_owned(),
        Row::SpeechProvider => "Choose a speech-to-text provider".to_owned(),
        Row::AssistantProvider => "Choose an assistant provider".to_owned(),
        Row::SpeechModel => cat("Choose a model \u{00B7} ", speech_provider(config).label()),
        Row::AssistantModel => cat("Choose a model \u{00B7} ", assistant_provider(config).label()),
        _ => String::new(),
    }
}

// ─── The cards' keys ─────────────────────────────────────────────────────────

/// Both cards point at the same known host.
#[verifier::allow_in_spec]
pub fn shares_host(s: SpeechProvider, a: AssistantProvider) -> bool
    returns
        (match (s, a) {
            (SpeechProvider::OpenAI, AssistantProvider::OpenAI) => true,
            (SpeechProvider::Groq, AssistantProvider::Groq) => true,
            (SpeechProvider::DeepInfra, AssistantProvider::DeepInfra) => true,
            _ => false,
        }),
{
    match (s, a) {
        (SpeechProvider::OpenAI, AssistantProvider::OpenAI) => true,
        (SpeechProvider::Groq, AssistantProvider::Groq) => true,
        (SpeechProvider::DeepInfra, AssistantProvider::DeepInfra) => true,
        _ => false,
    }
}

/// The key the other card uses when both point at the same host.
pub open spec fn other_cards_key(c: ConfigView, card: Card) -> Option<Seq<char>> {
    if !shares_host(c.speech(), c.assistant()) {
        None
    } else {
        match card {
            Card::Speech => nonempty(c.assistant_key()),
            Card::Assistant => nonempty(c.speech_key()),
        }
    }
}

/// Key the other card uses when both point at the same host (OpenAI, Groq, DeepInfra).
pub fn same_host_key(config: &ScribaConfig, card: Card) -> (r: Option<String>)
    ensures
        option_text(r) == other_cards_key(config@, card),
{
    if !shares_host(speech_provider(config), assistant_provider(config)) {
        return None;
    }
    match card {
        Card::Speech => some_nonempty(config.assistant_key().as_str()),
        Card::Assistant => some_nonempty(config.speech_key().as_str()),
    }
}

pub open spec fn text_edit(
    row: Row,
    buffer: Seq<char>,
    secret: bool,
    note: Option<Seq<char>>,
) -> EditView {
    EditView::Text { row, buffer, secret, note }
}

pub open spec fn prefill_note(card: Card) -> Seq<char> {
    match card {
        Card::Speech => "prefilled from the Assistant key for the same host"@,
        Card::Assistant => "prefilled from the Speech to text key for the same host"@,
    }
}

/// The editor of a key row: the stored key, or else the other card's.
pub open spec fn key_edit(c: ConfigView, card: Card) -> EditView {
    let row = match card {
        Card::Speech => Row::SpeechKey,
        Card::Assistant => Row::AssistantKey,
    };
    let stored = match card {
        Card::Speech => c.speech_key(),
        Card::Assistant => c.assistant_key(),
    };
    if stored.len() > 0 {
        text_edit(row, stored, true, None)
    } else {
        match other_cards_key(c, card) {
            Some(k) => text_edit(row, k, true, Some(prefill_note(card))),
            None => text_edit(row, Seq::empty(), true, None),
        }
    }
}

fn open_key_edit(config: &ScribaConfig, card: Card) -> (r: SettingsEdit)
    ensures
        r@ == key_edit(config@, card),
{
    let row = match card {
        Card::Speech => Row::SpeechKey,
        Card::Assistant => Row::AssistantKey,
    };
    let stored = match card {
        Card::Speech => config.speech_key(),
        Card::Assistant => config.assistant_key(),
    };
    if stored.as_str().unicode_len() > 0 {
        return SettingsEdit::Text { row, buffer: stored, secret: true, note: None };
    }
    match same_host_key(config, card) {
        Some(k) => {
            let note = match card {
                Card::Speech => "prefilled from the Assistant key for the same host",
                Card::Assistant => "prefilled from the Speech to text key for the same host",
            };
            SettingsEdit::Text { row, buffer: k, secret: true, note: Some(note.to_owned()) }
        },
        None => SettingsEdit::Text { row, buffer: String::new(), secret: true, note: None },
    }
}

/// The next silence timeout in the cycle.
#[verifier::allow_in_spec]
pub fn next_timeout(seconds: u64) -> u64
    returns
        (if seconds == 30 {
            60u64
        } else if seconds == 60 {
            120u64
        } else if seconds == 120 {
            300u64
        } else {
            30u64
        }),
{
    if seconds == 30 {
        60
    } else if seconds == 60 {
        120
    } else if seconds == 120 {
        300
    } else {
        30
    }
}

// ─── What each action does ───────────────────────────────────────────────────

pub open spec fn picker(
    row: Row,
    title: Seq<char>,
    items: Seq<PickerItemView>,
    selection: int,
    loading: bool,
    message: Option<Seq<char>>,
) -> EditView {
    EditView::Picker { row, title, items, selection, filter: Seq::empty(), loading, message }
}

pub open spec fn or_zero(p: Option<int>) -> int {
    match p {
        Some(i) => i,
        None => 0,
    }
}

pub open spec fn local_model_of(c: ConfigView) -> Option<LocalModel> {
    match c.transcription {
        TranscriptionView::Local { model } => Some(model),
        _ => None,
    }
}

/// The screen before it was opened.
pub open spec fn fresh_settings(config: ConfigView) -> SettingsView {
    SettingsView {
        config,
        edit: EditView::Idle,
        selection: 0,
        speech_key_status: None,
        assistant_key_status: None,
        effects: Seq::empty(),
    }
}

impl SettingsView {
    /// The screen opens: keys that have not been checked yet are.
    pub open spec fn opening(self, env: Seq<EnvVar>) -> SettingsView {
        let start = SettingsView { edit: EditView::Idle, selection: 0, ..self };
        let speech = if start.speech_key_status is None {
            start.probing(Card::Speech, env)
        } else {
            start
        };
        if speech.assistant_key_status is None {
            speech.probing(Card::Assistant, env)
        } else {
            speech
        }
    }

    pub open spec fn wf(self) -> bool {
        self.config.wf()
    }

    pub open spec fn editing(self, edit: EditView) -> SettingsView {
        SettingsView { edit, ..self }
    }

    pub open spec fn emitting(self, e: Effect) -> SettingsView {
        SettingsView { effects: self.effects.push(e), ..self }
    }

    pub open spec fn configured(self, config: ConfigView) -> SettingsView {
        SettingsView { config, ..self }
    }

    /// The card's key is checked against its host where there is one.
    pub open spec fn probing(self, card: Card, env: Seq<EnvVar>) -> SettingsView {
        match card {
            Card::Speech => if self.config.speech() == SpeechProvider::Local
                || self.config.resolved_speech_key(env) is None {
                SettingsView { speech_key_status: None, ..self }
            } else {
                SettingsView {
                    speech_key_status: Some(KeyStatusView::Checking),
                    ..self
                }.emitting(Effect::ProbeSpeech)
            },
            Card::Assistant => if self.config.assistant() == AssistantProvider::Ollama
                || self.config.resolved_assistant_key(env) is None {
                SettingsView { assistant_key_status: None, ..self }
            } else {
                SettingsView {
                    assistant_key_status: Some(KeyStatusView::Checking),
                    ..self
                }.emitting(Effect::ProbeAssistant)
            },
        }
    }

    /// The probe of a card's key has ended.
    pub open spec fn probed(self, card: Card, result: Result<(), String>) -> SettingsView {
        let status = match result {
            Ok(_) => Some(KeyStatusView::Valid),
            Err(why) => Some(KeyStatusView::Invalid(why@)),
        };
        match card {
            Card::Speech => SettingsView { speech_key_status: status, ..self },
            Card::Assistant => SettingsView { assistant_key_status: status, ..self },
        }
    }

    /// The model picker of a card: a list at hand, or one asked from the host.
    pub open spec fn opening_models(self, row: Row, sur: Surroundings) -> SettingsView {
        let title = title_of(self.config, row);
        let waiting = self.editing(picker(row, title, Seq::empty(), 0, true, None));
        match row {
            Row::SpeechModel => match self.config.speech() {
                SpeechProvider::Local => self.editing(
                    picker(
                        row,
                        title,
                        local_items(sur.installed@),
                        match local_model_of(self.config) {
                            Some(m) => local_position(m) as int,
                            None => 0,
                        },
                        false,
                        None,
                    ),
                ),
                SpeechProvider::OpenAI => self.editing(
                    picker(
                        row,
                        title,
                        openai_items().push(type_model()),
                        or_zero(model_position(openai_items(), self.config.speech_model(), 0)),
                        false,
                        None,
                    ),
                ),
                _ => waiting.emitting(Effect::ListSpeechModels),
            },
            Row::AssistantModel => match self.config.assistant() {
                AssistantProvider::Ollama => waiting.emitting(Effect::ListOllamaModels),
                p => if p.lists_models_live() {
                    waiting.emitting(Effect::ListAssistantModels)
                } else {
                    let curated = curated_items(sur.curated@);
                    self.editing(
                        picker(
                            row,
                            title,
                            curated.push(type_model()),
                            match model_position(curated, self.config.assistant_model(), 0) {
                                Some(i) => i,
                                None => curated.len() as int,
                            },
                            false,
                            None,
                        ),
                    )
                },
            },
            _ => self,
        }
    }

    /// Enter on a row.
    pub open spec fn activating(self, row: Row, sur: Surroundings) -> SettingsView {
        let c = self.config;
        let root = Some("full API root, e.g. http://host:8000/v1"@);
        match row {
            Row::Setup => self.editing(
                picker(row, title_of(c, row), setup_items(), 0, false, None),
            ),
            Row::SpeechProvider => self.editing(
                picker(
                    row,
                    title_of(c, row),
                    speech_items(c, sur.env@),
                    c.speech().index() as int,
                    false,
                    None,
                ),
            ),
            Row::AssistantProvider => self.editing(
                picker(
                    row,
                    title_of(c, row),
                    assistant_items(c, sur.env@),
                    c.assistant().index() as int,
                    false,
                    None,
                ),
            ),
            Row::SpeechModel | Row::AssistantModel => self.opening_models(row, sur),
            Row::SpeechEndpoint => self.editing(text_edit(row, c.speech_url(), false, root)),
            Row::AssistantEndpoint => self.editing(text_edit(row, c.assistant_url(), false, root)),
            Row::AssistantServer => self.editing(text_edit(row, c.ollama_endpoint(), false, None)),
            Row::SpeechKey => self.editing(key_edit(c, Card::Speech)),
            Row::AssistantKey => self.editing(key_edit(c, Card::Assistant)),
            Row::AutoStop => self.configured(
                ConfigView {
                    silence_auto_stop: SilenceAutoStop {
                        enabled: !c.silence_auto_stop.enabled,
                        ..c.silence_auto_stop
                    },
                    ..c
                },
            ).emitting(Effect::Save(What::Setting)),
            Row::Timeout => if c.silence_auto_stop.enabled {
                self.configured(
                    ConfigView {
                        silence_auto_stop: SilenceAutoStop {
                            timeout_seconds: next_timeout(c.silence_auto_stop.timeout_seconds),
                            ..c.silence_auto_stop
                        },
                        ..c
                    },
                ).emitting(Effect::Save(What::Setting))
            } else {
                self
            },
            Row::MeetingWatch => self.configured(
                ConfigView { meeting_watch: !c.meeting_watch, ..c },
            ).emitting(Effect::Save(What::Setting)).emitting(Effect::SyncAutopilot),
            Row::CheckUpdates => self.configured(
                ConfigView { check_for_updates: !c.check_for_updates, ..c },
            ).emitting(Effect::Save(What::Setting)),
        }
    }

    /// A speech provider was chosen.
    pub open spec fn choosing_speech(self, p: SpeechProvider, env: Seq<EnvVar>) -> SettingsView {
        if self.config.speech() == p {
            self
        } else {
            self.configured(self.config.with_speech(p)).emitting(
                Effect::Save(What::Provider),
            ).probing(Card::Speech, env)
        }
    }

    /// An assistant provider was chosen. A host without a sensible default
    /// model is asked for its models right away.
    pub open spec fn choosing_assistant(self, p: AssistantProvider, sur: Surroundings) -> SettingsView {
        if self.config.assistant() == p {
            self
        } else {
            let next = self.configured(self.config.with_assistant(p)).emitting(
                Effect::Save(What::Provider),
            ).probing(Card::Assistant, sur.env@);
            if p.asks_for_a_model() && self.config.leaving_assistant().slots[p.index() as int].model
                is None {
                SettingsView {
                    selection: speech_fields(next.config.speech()).len() as int + 4,
                    ..next
                }.opening_models(Row::AssistantModel, sur)
            } else {
                next
            }
        }
    }

    pub open spec fn choosing_profile(self, profile: Profile, sur: Surroundings) -> SettingsView {
        match profile {
            Profile::FullyPrivate => self.choosing_speech(
                SpeechProvider::Local,
                sur.env@,
            ).choosing_assistant(AssistantProvider::Ollama, sur),
            Profile::Cloud => self.choosing_speech(
                SpeechProvider::OpenAI,
                sur.env@,
            ).choosing_assistant(AssistantProvider::Anthropic, sur),
            Profile::LocalSpeechClaude => self.choosing_speech(
                SpeechProvider::Local,
                sur.env@,
            ).choosing_assistant(AssistantProvider::Anthropic, sur),
            Profile::KeepCustom => self,
        }
    }

    /// A text field was confirmed. White space round the value does not count,
    /// and an empty value means the default.
    pub open spec fn committing(self, row: Row, raw: Seq<char>, env: Seq<EnvVar>) -> SettingsView {
        let c = self.config;
        let value = trimmed(raw);
        let opt = nonempty(value);
        match row {
            Row::SpeechModel => self.configured(
                (match c.transcription {
                    TranscriptionView::Api { api_key, base_url, .. } => ConfigView {
                        transcription: TranscriptionView::Api { api_key, base_url, model: opt },
                        ..c
                    },
                    _ => c,
                }).remembering_speech(),
            ).emitting(Effect::Save(What::Model)),
            Row::SpeechEndpoint => self.configured(
                (match c.transcription {
                    TranscriptionView::Api { api_key, model, .. } => ConfigView {
                        transcription: TranscriptionView::Api { api_key, base_url: opt, model },
                        ..c
                    },
                    _ => c,
                }).remembering_speech(),
            ).emitting(Effect::Save(What::Endpoint)).probing(Card::Speech, env),
            Row::SpeechKey => self.configured(
                (match c.transcription {
                    TranscriptionView::Api { base_url, model, .. } => ConfigView {
                        transcription: TranscriptionView::Api { api_key: value, base_url, model },
                        ..c
                    },
                    _ => ConfigView {
                        transcription: TranscriptionView::Api {
                            api_key: value,
                            base_url: None,
                            model: None,
                        },
                        ..c
                    },
                }).remembering_speech(),
            ).emitting(Effect::Save(What::ApiKey)).probing(Card::Speech, env),
            Row::AssistantModel => self.configured(
                (match c.mode {
                    EnrichmentView::Cloud { provider, api_key, base_url, .. } => ConfigView {
                        mode: EnrichmentView::Cloud { provider, api_key, model: opt, base_url },
                        ..c
                    },
                    EnrichmentView::Local { ollama_endpoint, .. } => match opt {
                        Some(m) => ConfigView {
                            mode: EnrichmentView::Local { ollama_endpoint, ollama_model: m },
                            ..c
                        },
                        None => c,
                    },
                }).remembering_assistant(),
            ).emitting(Effect::Save(What::Model)),
            Row::AssistantEndpoint => self.configured(
                (match c.mode {
                    EnrichmentView::Cloud { provider, api_key, model, .. } => ConfigView {
                        mode: EnrichmentView::Cloud { provider, api_key, model, base_url: opt },
                        ..c
                    },
                    _ => c,
                }).remembering_assistant(),
            ).emitting(Effect::Save(What::Endpoint)).probing(Card::Assistant, env),
            Row::AssistantServer => match opt {
                Some(url) => self.configured(
                    match c.mode {
                        EnrichmentView::Local { ollama_model, .. } => ConfigView {
                            mode: EnrichmentView::Local {
                                ollama_endpoint: crate::config::unslashed(url),
                                ollama_model,
                            },
                            ..c
                        },
                        _ => c,
                    },
                ).emitting(Effect::Save(What::Server)),
                None => self,
            },
            Row::AssistantKey => self.configured(
                (match c.mode {
                    EnrichmentView::Cloud { provider, model, base_url, .. } => ConfigView {
                        mode: EnrichmentView::Cloud { provider, api_key: value, model, base_url },
                        ..c
                    },
                    _ => c,
                }).remembering_assistant(),
            ).emitting(Effect::Save(What::ApiKey)).probing(Card::Assistant, env),
            _ => self,
        }
    }

    /// The model in use on the card that `row` belongs to.
    pub open spec fn current_model(self, row: Row) -> Seq<char> {
        if row == Row::SpeechModel {
            self.config.speech_model()
        } else {
            self.config.assistant_model()
        }
    }

    /// An item of a picker was chosen.
    pub open spec fn picking(self, row: Row, value: PickerValueView, sur: Surroundings) -> SettingsView {
        match value {
            PickerValueView::Profile(p) => self.choosing_profile(p, sur),
            PickerValueView::Speech(p) => self.choosing_speech(p, sur.env@),
            PickerValueView::Assistant(p) => self.choosing_assistant(p, sur),
            PickerValueView::LocalStt(model) => self.configured(
                ConfigView { transcription: TranscriptionView::Local { model }, ..self.config },
            ).emitting(Effect::Save(What::Model)),
            PickerValueView::Model(id) => self.committing(row, id, sur.env@),
            PickerValueView::TypeModel => self.editing(
                text_edit(
                    row,
                    self.current_model(row),
                    false,
                    Some("model id exactly as the host lists it"@),
                ),
            ),
        }
    }

    /// Enter, wherever the cursor is.
    #[verifier::opaque]
    pub open spec fn entering(self, sur: Surroundings) -> SettingsView {
        match self.edit {
            EditView::Text { row, buffer, .. } => self.editing(EditView::Idle).committing(
                row,
                buffer,
                sur.env@,
            ),
            EditView::Picker { row, items, selection, filter, loading, .. } => if loading {
                self.editing(
                    EditView::Picker {
                        row,
                        title: title_of(self.config, row),
                        items,
                        selection,
                        filter,
                        loading,
                        message: None,
                    },
                )
            } else {
                let open = visible(items, filter);
                if selection < open.len() {
                    self.editing(EditView::Idle).picking(row, items[open[selection]].value, sur)
                } else {
                    self.editing(EditView::Idle)
                }
            },
            EditView::Idle => if self.selection < rows_of(self.config).len() {
                self.activating(rows_of(self.config)[self.selection], sur)
            } else {
                self
            },
        }
    }

    /// A key press, before the cursor is put back among the rows.
    pub open spec fn pressing(self, key: Key, sur: Surroundings) -> SettingsView {
        match key {
            Key::Esc => if self.edit == EditView::Idle {
                self.emitting(Effect::Leave)
            } else {
                self.editing(EditView::Idle).emitting(Effect::StopListing)
            },
            Key::Up => match self.edit {
                EditView::Picker { row, title, items, selection, filter, loading, message } =>
                self.editing(
                    EditView::Picker {
                        row,
                        title,
                        items,
                        selection: crate::text::monus(selection, 1) as int,
                        filter,
                        loading,
                        message,
                    },
                ),
                EditView::Text { .. } => self,
                EditView::Idle => SettingsView {
                    selection: crate::text::monus(self.selection, 1) as int,
                    ..self
                },
            },
            Key::Down => match self.edit {
                EditView::Picker { row, title, items, selection, filter, loading, message } => {
                    let n = visible(items, filter).len();
                    if n > 0 {
                        self.editing(
                            EditView::Picker {
                                row,
                                title,
                                items,
                                selection: at_most(selection + 1, n - 1),
                                filter,
                                loading,
                                message,
                            },
                        )
                    } else {
                        self
                    }
                },
                EditView::Text { .. } => self,
                EditView::Idle => SettingsView {
                    selection: at_most(self.selection + 1, rows_of(self.config).len() - 1),
                    ..self
                },
            },
            Key::Enter => self.entering(sur),
            Key::Char(c) => match self.edit {
                EditView::Text { row, buffer, secret, note } => self.editing(
                    text_edit(row, buffer.push(c), secret, note),
                ),
                EditView::Picker { row, title, items, filter, loading, message, .. } => self.editing(
                    EditView::Picker {
                        row,
                        title,
                        items,
                        selection: 0,
                        filter: filter.push(c),
                        loading,
                        message,
                    },
                ),
                EditView::Idle => self,
            },
            Key::Backspace => match self.edit {
                EditView::Text { row, buffer, secret, note } => self.editing(
                    text_edit(row, without_last(buffer), secret, note),
                ),
                EditView::Picker { row, title, items, filter, loading, message, .. } => self.editing(
                    EditView::Picker {
                        row,
                        title,
                        items,
                        selection: 0,
                        filter: without_last(filter),
                        loading,
                        message,
                    },
                ),
                EditView::Idle => self,
            },
            _ => self,
        }
    }

    /// The cursor put back among the rows.
    pub open spec fn clamped(self) -> SettingsView {
        SettingsView {
            selection: at_most(self.selection, rows_of(self.config).len() - 1),
            ..self
        }
    }

    /// The screen after a model list has come for the open picker.
    pub open spec fn receiving(
        self,
        listed: Result<Vec<ModelListEntry>, String>,
    ) -> SettingsView {
        match self.edit {
            EditView::Picker { row, title, filter, loading: true, .. } => {
                let items = match listed {
                    Ok(entries) => listed_items(entries@).push(type_model()),
                    Err(_) => Seq::empty().push(type_model()),
                };
                let message = match listed {
                    Ok(entries) => if entries@.len() > 0 {
                        None
                    } else {
                        Some("The host listed no models"@)
                    },
                    Err(why) => Some(
                        "Could not list models \u{00B7} "@ + crate::settings_text::reason_of(why@),
                    ),
                };
                self.editing(
                    EditView::Picker {
                        row,
                        title,
                        items,
                        selection: or_zero(model_position(items, self.current_model(row), 0)),
                        filter,
                        loading: false,
                        message,
                    },
                )
            },
            _ => self,
        }
    }
}

// ─── The screen ──────────────────────────────────────────────────────────────

impl Settings {
    /// The settings screen over `config`, with nothing checked yet.
    pub fn new(config: ScribaConfig) -> (r: Settings)
        ensures
            r@ == fresh_settings(config@),
    {
        Settings {
            config,
            edit: SettingsEdit::Idle,
            selection: 0,
            speech_key_status: None,
            assistant_key_status: None,
            effects: Vec::new(),
        }
    }

    /// Whether a field or a picker is open.
    pub fn is_editing_settings_field(&self) -> (r: bool)
        ensures
            r == (self@.edit != EditView::Idle),
    {
        match self.edit {
            SettingsEdit::Idle => false,
            _ => true,
        }
    }

    /// Check the card's key against its host in the background.
    pub fn probe_key(&mut self, card: Card, env: &Vec<EnvVar>)
        ensures
            final(self)@ == old(self)@.probing(card, env@),
    {
        match card {
            Card::Speech => {
                if speech_provider(&self.config) == SpeechProvider::Local
                    || self.config.resolve_transcription_api_key(env).is_none() {
                    self.speech_key_status = None;
                } else {
                    self.speech_key_status = Some(KeyStatus::Checking);
                    self.effects.push(Effect::ProbeSpeech);
                }
            },
            Card::Assistant => {
                if assistant_provider(&self.config) == AssistantProvider::Ollama
                    || self.config.resolve_api_key(env).is_none() {
                    self.assistant_key_status = None;
                } else {
                    self.assistant_key_status = Some(KeyStatus::Checking);
                    self.effects.push(Effect::ProbeAssistant);
                }
            },
        }
    }

    /// A probe finished.
    pub fn on_key_probe(&mut self, card: Card, result: Result<(), String>)
        ensures
            final(self)@ == old(self)@.probed(card, result),
    {
        let status = match result {
            Ok(_) => KeyStatus::Valid,
            Err(why) => KeyStatus::Invalid(why),
        };
        match card {
            Card::Speech => self.speech_key_status = Some(status),
            Card::Assistant => self.assistant_key_status = Some(status),
        }
    }

    /// Called when the screen opens: probe keys that have not been checked yet.
    pub fn on_settings_opened(&mut self, env: &Vec<EnvVar>)
        ensures
            final(self)@ == old(self)@.opening(env@),
    {
        self.edit = SettingsEdit::Idle;
        self.selection = 0;
        if self.speech_key_status.is_none() {
            self.probe_key(Card::Speech, env);
        }
        if self.assistant_key_status.is_none() {
            self.probe_key(Card::Assistant, env);
        }
    }

    fn open_picker(&mut self, row: Row, items: Vec<PickerItem>, selection: usize)
        ensures
            final(self)@ == old(self)@.editing(
                picker(
                    row,
                    title_of(old(self)@.config, row),
                    items_view(items@),
                    selection as int,
                    false,
                    None,
                ),
            ),
    {
        let title = picker_title(&self.config, row);
        self.edit = SettingsEdit::Picker {
            row,
            title,
            items,
            selection,
            filter: String::new(),
            loading: false,
            message: None,
        };
    }

    fn open_loading_picker(&mut self, row: Row)
        ensures
            final(self)@ == old(self)@.editing(
                picker(row, title_of(old(self)@.config, row), Seq::empty(), 0, true, None),
            ),
    {
        let title = picker_title(&self.config, row);
        self.edit = SettingsEdit::Picker {
            row,
            title,
            items: no_items(),
            selection: 0,
            filter: String::new(),
            loading: true,
            message: None,
        };
    }

    fn open_text(&mut self, row: Row, buffer: String, secret: bool, note: Option<String>)
        ensures
            final(self)@ == old(self)@.editing(
                text_edit(row, buffer@, secret, option_text(note)),
            ),
    {
        self.edit = SettingsEdit::Text { row, buffer, secret, note };
    }

    /// Opens the model picker of a card.
    pub fn open_model_picker(&mut self, row: Row, sur: &Surroundings)
        ensures
            final(self)@ == old(self)@.opening_models(row, *sur),
    {
        match row {
            Row::SpeechModel => match speech_provider(&self.config) {
                SpeechProvider::Local => {
                    let at = match &self.config.transcription {
                        TranscriptionMode::Local { model } => local_position(*model),
                        _ => 0,
                    };
                    self.open_picker(row, local_picker_items(&sur.installed), at);
                },
                SpeechProvider::OpenAI => {
                    let current = self.config.transcription_model();
                    let mut items = openai_picker_items();
                    let at = match position_of_model(&items, current.as_str()) {
                        Some(i) => i,
                        None => 0,
                    };
                    push_type_model(&mut items);
                    self.open_picker(row, items, at);
                },
                _ => {
                    self.open_loading_picker(row);
                    self.effects.push(Effect::ListSpeechModels);
                },
            },
            Row::AssistantModel => {
                let p = assistant_provider(&self.config);
                if p == AssistantProvider::Ollama {
                    self.open_loading_picker(row);
                    self.effects.push(Effect::ListOllamaModels);
                } else if p.lists_models_live() {
                    self.open_loading_picker(row);
                    self.effects.push(Effect::ListAssistantModels);
                } else {
                    let current = self.config.model_name();
                    let mut items = curated_picker_items(&sur.curated);
                    let at = match position_of_model(&items, current.as_str()) {
                        Some(i) => i,
                        None => items.len(),
                    };
                    push_type_model(&mut items);
                    self.open_picker(row, items, at);
                }
            },
            _ => {},
        }
    }

    /// Enter on a row.
    pub fn activate_row(&mut self, row: Row, sur: &Surroundings)
        requires
            old(self)@.wf(),
        ensures
            final(self)@ == old(self)@.activating(row, *sur),
            final(self)@.wf(),
    {
        match row {
            Row::Setup => self.open_picker(row, setup_picker_items(), 0),
            Row::SpeechProvider => {
                let items = speech_picker_items(&self.config, &sur.env);
                let at = speech_provider(&self.config).index();
                self.open_picker(row, items, at);
            },
            Row::AssistantProvider => {
                let items = assistant_picker_items(&self.config, &sur.env);
                let at = assistant_provider(&self.config).index();
                self.open_picker(row, items, at);
            },
            Row::SpeechModel | Row::AssistantModel => self.open_model_picker(row, sur),
            Row::SpeechEndpoint => {
                let current = self.config.transcription_base_url();
                let note = "full API root, e.g. http://host:8000/v1".to_owned();
                self.open_text(row, current, false, Some(note));
            },
            Row::AssistantEndpoint => {
                let current = self.config.effective_base_url();
                let note = "full API root, e.g. http://host:8000/v1".to_owned();
                self.open_text(row, current, false, Some(note));
            },
            Row::AssistantServer => {
                let current = self.config.ollama_endpoint();
                self.open_text(row, current, false, None);
            },
            Row::SpeechKey => self.edit = open_key_edit(&self.config, Card::Speech),
            Row::AssistantKey => self.edit = open_key_edit(&self.config, Card::Assistant),
            Row::AutoStop => {
                let enabled = self.config.silence_auto_stop.enabled;
                self.config.silence_auto_stop.enabled = !enabled;
                self.effects.push(Effect::Save(What::Setting));
            },
            Row::Timeout => {
                if self.config.silence_auto_stop.enabled {
                    let seconds = self.config.silence_auto_stop.timeout_seconds;
                    self.config.silence_auto_stop.timeout_seconds = next_timeout(seconds);
                    self.effects.push(Effect::Save(What::Setting));
                }
            },
            Row::MeetingWatch => {
                self.config.meeting_watch = !self.config.meeting_watch;
                self.effects.push(Effect::Save(What::Setting));
                self.effects.push(Effect::SyncAutopilot);
            },
            Row::CheckUpdates => {
                self.config.check_for_updates = !self.config.check_for_updates;
                self.effects.push(Effect::Save(What::Setting));
            },
        }
    }

    /// A speech provider was chosen.
    pub fn apply_speech_provider(&mut self, p: SpeechProvider, env: &Vec<EnvVar>)
        requires
            old(self)@.wf(),
        ensures
            final(self)@ == old(self)@.choosing_speech(p, env@),
            final(self)@.wf(),
    {
        if speech_provider(&self.config) == p {
            return;
        }
        self.config.apply_speech_provider(p);
        self.effects.push(Effect::Save(What::Provider));
        self.probe_key(Card::Speech, env);
    }

    /// An assistant provider was chosen.
    pub fn apply_assistant_provider(&mut self, p: AssistantProvider, sur: &Surroundings)
        requires
            old(self)@.wf(),
        ensures
            final(self)@ == old(self)@.choosing_assistant(p, *sur),
            final(self)@.wf(),
    {
        if assistant_provider(&self.config) == p {
            return;
        }
        self.config.apply_assistant_provider(p);
        self.effects.push(Effect::Save(What::Provider));
        self.probe_key(Card::Assistant, &sur.env);
        if p.asks_for_a_model() {
            let chosen = match &self.config.enrichment.mode {
                EnrichmentMode::Cloud { model, .. } => model.is_some(),
                _ => true,
            };
            if !chosen {
                // Put the cursor on the row the picker belongs to.
                let fields: usize = match speech_provider(&self.config) {
                    SpeechProvider::Local => 0,
                    SpeechProvider::Custom => 2,
                    _ => 1,
                };
                self.selection = fields + 4;
                self.open_model_picker(Row::AssistantModel, sur);
            }
        }
    }

    /// A one-shot setup was chosen.
    pub fn apply_profile(&mut self, profile: Profile, sur: &Surroundings)
        requires
            old(self)@.wf(),
        ensures
            final(self)@ == old(self)@.choosing_profile(profile, *sur),
            final(self)@.wf(),
    {
        match profile {
            Profile::FullyPrivate => {
                self.apply_speech_provider(SpeechProvider::Local, &sur.env);
                self.apply_assistant_provider(AssistantProvider::Ollama, sur);
            },
            Profile::Cloud => {
                self.apply_speech_provider(SpeechProvider::OpenAI, &sur.env);
                self.apply_assistant_provider(AssistantProvider::Anthropic, sur);
            },
            Profile::LocalSpeechClaude => {
                self.apply_speech_provider(SpeechProvider::Local, &sur.env);
                self.apply_assistant_provider(AssistantProvider::Anthropic, sur);
            },
            Profile::KeepCustom => {},
        }
    }

    /// A text field was confirmed.
    pub fn commit_text(&mut self, row: Row, raw: &str, env: &Vec<EnvVar>)
        requires
            old(self)@.wf(),
        ensures
            final(self)@ == old(self)@.committing(row, raw@, env@),
            final(self)@.wf(),
    {
        let value = trim(raw);
        let opt = some_nonempty(value);
        match row {
            Row::SpeechModel => {
                match &mut self.config.transcription {
                    TranscriptionMode::Api { model, .. } => {
                        *model = opt;
                    },
                    _ => {},
                }
                self.config.remember_stt_settings();
                self.effects.push(Effect::Save(What::Model));
            },
            Row::SpeechEndpoint => {
                match &mut self.config.transcription {
                    TranscriptionMode::Api { base_url, .. } => {
                        *base_url = opt;
                    },
                    _ => {},
                }
                self.config.remember_stt_settings();
                self.effects.push(Effect::Save(What::Endpoint));
                self.probe_key(Card::Speech, env);
            },
            Row::SpeechKey => {
                let key = value.to_owned();
                let (base_url, model) = match &self.config.transcription {
                    TranscriptionMode::Api { base_url, model, .. } => (
                        copy_option(base_url),
                        copy_option(model),
                    ),
                    _ => (None, None),
                };
                self.config.transcription = TranscriptionMode::Api {
                    api_key: key,
                    base_url,
                    model,
                };
                self.config.remember_stt_settings();
                self.effects.push(Effect::Save(What::ApiKey));
                self.probe_key(Card::Speech, env);
            },
            Row::AssistantModel => {
                match &mut self.config.enrichment.mode {
                    EnrichmentMode::Cloud { model, .. } => {
                        *model = opt;
                    },
                    EnrichmentMode::Local { ollama_model, .. } => {
                        match opt {
                            Some(m) => {
                                *ollama_model = m;
                            },
                            None => {},
                        }
                    },
                }
                self.config.remember_cloud_settings();
                self.effects.push(Effect::Save(What::Model));
            },
            Row::AssistantEndpoint => {
                match &mut self.config.enrichment.mode {
                    EnrichmentMode::Cloud { base_url, .. } => {
                        *base_url = opt;
                    },
                    _ => {},
                }
                self.config.remember_cloud_settings();
                self.effects.push(Effect::Save(What::Endpoint));
                self.probe_key(Card::Assistant, env);
            },
            Row::AssistantServer => {
                match opt {
                    Some(url) => {
                        match &mut self.config.enrichment.mode {
                            EnrichmentMode::Local { ollama_endpoint, .. } => {
                                *ollama_endpoint = trim_slashes(url.as_str()).to_owned();
                            },
                            _ => {},
                        }
                        self.effects.push(Effect::Save(What::Server));
                    },
                    None => {},
                }
            },
            Row::AssistantKey => {
                match &mut self.config.enrichment.mode {
                    EnrichmentMode::Cloud { api_key, .. } => {
                        *api_key = value.to_owned();
                    },
                    _ => {},
                }
                self.config.remember_cloud_settings();
                self.effects.push(Effect::Save(What::ApiKey));
                self.probe_key(Card::Assistant, env);
            },
            _ => {},
        }
    }

    fn model_in_use(&self, row: Row) -> (r: String)
        ensures
            r@ == self@.current_model(row),
    {
        if row == Row::SpeechModel {
            self.config.transcription_model()
        } else {
            self.config.model_name()
        }
    }

    /// An item of a picker was chosen.
    pub fn pick(&mut self, row: Row, value: PickerValue, sur: &Surroundings)
        requires
            old(self)@.wf(),
        ensures
            final(self)@ == old(self)@.picking(row, value@, *sur),
            final(self)@.wf(),
    {
        match value {
            PickerValue::Profile(p) => self.apply_profile(p, sur),
            PickerValue::Speech(p) => self.apply_speech_provider(p, &sur.env),
            PickerValue::Assistant(p) => self.apply_assistant_provider(p, sur),
            PickerValue::LocalStt(model) => {
                self.config.transcription = TranscriptionMode::Local { model };
                self.effects.push(Effect::Save(What::Model));
            },
            PickerValue::Model(id) => self.commit_text(row, id.as_str(), &sur.env),
            PickerValue::TypeModel => {
                let current = self.model_in_use(row);
                let note = "model id exactly as the host lists it".to_owned();
                self.open_text(row, current, false, Some(note));
            },
        }
    }

    fn enter(&mut self, sur: &Surroundings)
        requires
            old(self)@.wf(),
        ensures
            final(self)@ == old(self)@.entering(*sur),
            final(self)@.wf(),
    {
        proof {
            reveal(SettingsView::entering);
        }
        let mut edit = SettingsEdit::Idle;
        std::mem::swap(&mut edit, &mut self.edit);
        match edit {
            SettingsEdit::Text { row, buffer, .. } => self.commit_text(
                row,
                buffer.as_str(),
                &sur.env,
            ),
            SettingsEdit::Picker { row, items, selection, filter, loading, .. } => {
                if loading {
                    // Keep waiting for the list.
                    let title = picker_title(&self.config, row);
                    self.edit = SettingsEdit::Picker {
                        row,
                        title,
                        items,
                        selection,
                        filter,
                        loading,
                        message: None,
                    };
                } else {
                    let open = visible_picker_items(items.as_slice(), filter.as_str());
                    let ghost positions = visible(items_view(items@), filter@);
                    proof {
                        assert(positions.len() == open@.len());
                    }
                    if selection < open.len() {
                        let value = open[selection].1.value.copy();
                        proof {
                            assert(positions[selection as int] == open@[selection as int].0);
                        }
                        self.pick(row, value, sur);
                    }
                }
            },
            SettingsEdit::Idle => {
                let rows = settings_rows(&self.config);
                if self.selection < rows.len() {
                    let row = rows[self.selection];
                    self.activate_row(row, sur);
                }
            },
        }
    }

    fn move_down(&mut self, sur: &Surroundings)
        ensures
            final(self)@ == old(self)@.pressing(Key::Down, *sur),
    {
        let rows = settings_rows(&self.config);
        match &mut self.edit {
            SettingsEdit::Picker { items, selection, filter, .. } => {
                let n = visible_picker_items(items.as_slice(), filter.as_str()).len();
                if n > 0 {
                    *selection = if *selection < n - 1 {
                        *selection + 1
                    } else {
                        n - 1
                    };
                }
            },
            SettingsEdit::Text { .. } => {},
            SettingsEdit::Idle => {
                self.selection = if self.selection < rows.len() - 1 {
                    self.selection + 1
                } else {
                    rows.len() - 1
                };
            },
        }
    }

    /// A key press on the settings screen.
    pub fn handle_settings_keys(&mut self, key: Key, sur: &Surroundings)
        requires
            old(self)@.wf(),
        ensures
            final(self)@ == old(self)@.pressing(key, *sur).clamped(),
            final(self)@.wf(),
            final(self)@.selection < rows_of(final(self)@.config).len(),
    {
        match key {
            Key::Esc => {
                if self.is_editing_settings_field() {
                    self.edit = SettingsEdit::Idle;
                    self.effects.push(Effect::StopListing);
                } else {
                    self.effects.push(Effect::Leave);
                }
            },
            Key::Up => match &mut self.edit {
                SettingsEdit::Picker { selection, .. } => {
                    *selection = (*selection).saturating_sub(1);
                },
                SettingsEdit::Text { .. } => {},
                SettingsEdit::Idle => {
                    self.selection = self.selection.saturating_sub(1);
                },
            },
            Key::Down => self.move_down(sur),
            Key::Enter => self.enter(sur),
            Key::Char(c) => match &mut self.edit {
                SettingsEdit::Text { buffer, .. } => buffer.push(c),
                SettingsEdit::Picker { filter, selection, .. } => {
                    filter.push(c);
                    *selection = 0;
                },
                SettingsEdit::Idle => {},
            },
            Key::Backspace => match &mut self.edit {
                SettingsEdit::Text { buffer, .. } => {
                    let _ = buffer.pop();
                },
                SettingsEdit::Picker { filter, selection, .. } => {
                    let _ = filter.pop();
                    *selection = 0;
                },
                SettingsEdit::Idle => {},
            },
            _ => {},
        }
        let last = settings_rows(&self.config).len() - 1;
        if self.selection > last {
            self.selection = last;
        }
    }

    /// A model list arrived for the open picker.
    pub fn on_model_list(&mut self, listed: Result<Vec<ModelListEntry>, String>)
        ensures
            final(self)@ == old(self)@.receiving(listed),
    {
        let row = match &self.edit {
            SettingsEdit::Picker { row, loading, .. } => {
                if !*loading {
                    return;
                }
                *row
            },
            _ => {
                return;
            },
        };
        let current = self.model_in_use(row);
        let (mut new_items, new_message) = match &listed {
            Ok(entries) => (
                listed_picker_items(entries),
                if entries.len() > 0 {
                    None
                } else {
                    Some("The host listed no models".to_owned())
                },
            ),
            Err(why) => (
                no_items(),
                Some(
                    cat(
                        "Could not list models \u{00B7} ",
                        crate::settings_text::compact_reason(why.as_str()).as_str(),
                    ),
                ),
            ),
        };
        push_type_model(&mut new_items);
        let at = match position_of_model(&new_items, current.as_str()) {
            Some(i) => i,
            None => 0,
        };
        match &mut self.edit {
            SettingsEdit::Picker { items, selection, loading, message, .. } => {
                *items = new_items;
                *selection = at;
                *loading = false;
                *message = new_message;
            },
            _ => {},
        }
    }
}

/// The address that is asked to check the speech key.
pub open spec fn probe_url(c: ConfigView) -> Seq<char> {
    c.speech_url() + "/models"@
}

/// The address that is asked to check the speech key.
pub fn speech_probe_url(config: &ScribaConfig) -> (r: String)
    ensures
        r@ == probe_url(config@),
{
    cat(config.transcription_base_url().as_str(), "/models")
}

/// The address under which a speech host lists its models.
pub open spec fn listing_root(c: ConfigView) -> Seq<char> {
    crate::config::unslashed(c.speech_url()) + "/"@
}

/// The address under which a speech host lists its models.
pub fn speech_list_endpoint(config: &ScribaConfig) -> (r: String)
    ensures
        r@ == listing_root(config@),
{
    let url = config.transcription_base_url();
    cat(trim_slashes(url.as_str()), "/")
}

} // verus!
