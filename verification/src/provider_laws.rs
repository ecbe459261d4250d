//! What the settings are for: what is confirmed on the screen is what is in
//! use afterwards, it is saved, and everything else stays.
use vstd::prelude::*;

use crate::config::{
    env_value, unslashed, ConfigView, EnrichmentView, EnvVar, LocalModel, TranscriptionView,
};
use crate::keys::Key;
use crate::providers::{AssistantProvider, SpeechProvider};
use crate::settings::{
    assistant_item, badge, listing_root, model_position, probe_url, rows_of, visible, Card,
    EditView, Effect, KeyStatusView, ModelListEntry, PickerItemView, PickerValueView, Profile, Row,
    SettingsView, Surroundings, What,
};
use crate::text::trimmed;

verus! {

/// The speech card is as it was.
pub open spec fn same_speech(a: ConfigView, b: ConfigView) -> bool {
    &&& a.transcription == b.transcription
    &&& a.stt_slots == b.stt_slots
    &&& a.last_local_model == b.last_local_model
    &&& a.last_api_key == b.last_api_key
    &&& a.stt_custom_base_url == b.stt_custom_base_url
}

/// The assistant card is as it was.
pub open spec fn same_assistant(a: ConfigView, b: ConfigView) -> bool {
    &&& a.mode == b.mode
    &&& a.slots == b.slots
    &&& a.last_ollama_endpoint == b.last_ollama_endpoint
    &&& a.last_ollama_model == b.last_ollama_model
}

/// The switches are as they were.
pub open spec fn same_switches(a: ConfigView, b: ConfigView) -> bool {
    &&& a.silence_auto_stop == b.silence_auto_stop
    &&& a.meeting_watch == b.meeting_watch
    &&& a.check_for_updates == b.check_for_updates
}

/// An effect that was not there before.
pub open spec fn newly(v: SettingsView, next: SettingsView, e: Effect) -> bool {
    exists|i: int| v.effects.len() <= i < next.effects.len() && #[trigger] next.effects[i] == e
}

// ─── Text fields ─────────────────────────────────────────────────────────────

/// A model id that is confirmed in the assistant's model row is the model in
/// use, without the white space round it, with Ollama and with every host; it
/// is saved. Provider, address and key stay, and so do the other card and the
/// switches.
pub proof fn the_confirmed_assistant_model_is_in_use(
    v: SettingsView,
    raw: Seq<char>,
    env: Seq<EnvVar>,
)
    requires
        trimmed(raw).len() > 0,
    ensures
        ({
            let next = v.committing(Row::AssistantModel, raw, env);
            &&& next.config.assistant_model() == trimmed(raw)
            &&& next.config.assistant() == v.config.assistant()
            &&& next.config.assistant_url() == v.config.assistant_url()
            &&& next.config.assistant_key() == v.config.assistant_key()
            &&& next.config.ollama_endpoint() == v.config.ollama_endpoint()
            &&& same_speech(next.config, v.config)
            &&& same_switches(next.config, v.config)
            &&& newly(v, next, Effect::Save(What::Model))
        }),
{
    let next = v.committing(Row::AssistantModel, raw, env);
    assert(next.effects[v.effects.len() as int] == Effect::Save(What::Model));
}

/// A blank model id means the default model of the host; with Ollama the model
/// stays.
pub proof fn a_blank_assistant_model_is_the_default(
    v: SettingsView,
    raw: Seq<char>,
    env: Seq<EnvVar>,
)
    requires
        trimmed(raw).len() == 0,
    ensures
        ({
            let next = v.committing(Row::AssistantModel, raw, env).config;
            &&& v.config.mode matches EnrichmentView::Cloud { provider, .. }
                ==> next.assistant_model() == provider.default_model()@
            &&& v.config.mode is Local ==> next.assistant_model() == v.config.assistant_model()
        }),
{
}

/// A model id that is confirmed in the speech model row is the model in use on
/// the speech host; host and key stay.
pub proof fn the_confirmed_speech_model_is_in_use(
    v: SettingsView,
    raw: Seq<char>,
    env: Seq<EnvVar>,
)
    requires
        trimmed(raw).len() > 0,
        v.config.transcription is Api,
    ensures
        ({
            let next = v.committing(Row::SpeechModel, raw, env);
            &&& next.config.speech_model() == trimmed(raw)
            &&& next.config.speech() == v.config.speech()
            &&& next.config.speech_url() == v.config.speech_url()
            &&& next.config.speech_key() == v.config.speech_key()
            &&& same_assistant(next.config, v.config)
            &&& same_switches(next.config, v.config)
            &&& newly(v, next, Effect::Save(What::Model))
        }),
{
    let next = v.committing(Row::SpeechModel, raw, env);
    assert(next.effects[v.effects.len() as int] == Effect::Save(What::Model));
}

/// A speech key that is confirmed is the key in use, it is saved and checked;
/// host and model stay.
pub proof fn the_confirmed_speech_key_is_in_use(v: SettingsView, raw: Seq<char>, env: Seq<EnvVar>)
    ensures
        ({
            let next = v.committing(Row::SpeechKey, raw, env);
            &&& next.config.speech_key() == trimmed(raw)
            &&& trimmed(raw).len() > 0 ==> next.config.resolved_speech_key(env) == Some(
                trimmed(raw),
            )
            &&& v.config.transcription is Api ==> next.config.speech_url()
                == v.config.speech_url() && next.config.speech_model() == v.config.speech_model()
                && next.config.speech() == v.config.speech()
            &&& same_assistant(next.config, v.config)
            &&& same_switches(next.config, v.config)
            &&& newly(v, next, Effect::Save(What::ApiKey))
            &&& trimmed(raw).len() > 0 ==> newly(v, next, Effect::ProbeSpeech)
                && next.speech_key_status == Some(KeyStatusView::Checking)
        }),
{
    let next = v.committing(Row::SpeechKey, raw, env);
    assert(next.effects[v.effects.len() as int] == Effect::Save(What::ApiKey));
    if trimmed(raw).len() > 0 {
        assert(next.effects[v.effects.len() as int + 1] == Effect::ProbeSpeech);
    }
}

/// A speech endpoint that is confirmed is the address in use, saved and
/// checked; key and model stay.
pub proof fn the_confirmed_speech_endpoint_is_in_use(
    v: SettingsView,
    raw: Seq<char>,
    env: Seq<EnvVar>,
)
    requires
        trimmed(raw).len() > 0,
        v.config.transcription is Api,
    ensures
        ({
            let next = v.committing(Row::SpeechEndpoint, raw, env);
            &&& next.config.speech_url() == trimmed(raw)
            &&& next.config.speech_key() == v.config.speech_key()
            &&& next.config.transcription->Api_model == v.config.transcription->Api_model
            &&& same_assistant(next.config, v.config)
            &&& same_switches(next.config, v.config)
            &&& newly(v, next, Effect::Save(What::Endpoint))
        }),
{
    let next = v.committing(Row::SpeechEndpoint, raw, env);
    assert(next.effects[v.effects.len() as int] == Effect::Save(What::Endpoint));
}

/// An assistant key that is confirmed is the key in use, saved and checked;
/// host, address and model stay.
pub proof fn the_confirmed_assistant_key_is_in_use(
    v: SettingsView,
    raw: Seq<char>,
    env: Seq<EnvVar>,
)
    requires
        v.config.mode is Cloud,
    ensures
        ({
            let next = v.committing(Row::AssistantKey, raw, env);
            &&& next.config.assistant_key() == trimmed(raw)
            &&& trimmed(raw).len() > 0 ==> next.config.resolved_assistant_key(env) == Some(
                trimmed(raw),
            )
            &&& next.config.assistant() == v.config.assistant()
            &&& next.config.assistant_url() == v.config.assistant_url()
            &&& next.config.assistant_model() == v.config.assistant_model()
            &&& same_speech(next.config, v.config)
            &&& same_switches(next.config, v.config)
            &&& newly(v, next, Effect::Save(What::ApiKey))
            &&& trimmed(raw).len() > 0 ==> newly(v, next, Effect::ProbeAssistant)
                && next.assistant_key_status == Some(KeyStatusView::Checking)
        }),
{
    let next = v.committing(Row::AssistantKey, raw, env);
    assert(next.effects[v.effects.len() as int] == Effect::Save(What::ApiKey));
    if trimmed(raw).len() > 0 {
        assert(next.effects[v.effects.len() as int + 1] == Effect::ProbeAssistant);
    }
}

/// An assistant endpoint that is confirmed is the address in use, and saved;
/// key and model stay.
pub proof fn the_confirmed_assistant_endpoint_is_in_use(
    v: SettingsView,
    raw: Seq<char>,
    env: Seq<EnvVar>,
)
    requires
        trimmed(raw).len() > 0,
        v.config.mode is Cloud,
    ensures
        ({
            let next = v.committing(Row::AssistantEndpoint, raw, env);
            &&& next.config.assistant_url() == trimmed(raw)
            &&& next.config.assistant_key() == v.config.assistant_key()
            &&& next.config.assistant_model() == v.config.assistant_model()
            &&& same_speech(next.config, v.config)
            &&& same_switches(next.config, v.config)
            &&& newly(v, next, Effect::Save(What::Endpoint))
        }),
{
    let next = v.committing(Row::AssistantEndpoint, raw, env);
    assert(next.effects[v.effects.len() as int] == Effect::Save(What::Endpoint));
}

/// The server of Ollama that is confirmed is the one in use, without the
/// slashes behind it; the model stays. A blank one changes nothing.
pub proof fn the_confirmed_server_is_in_use(v: SettingsView, raw: Seq<char>, env: Seq<EnvVar>)
    requires
        v.config.mode is Local,
    ensures
        ({
            let next = v.committing(Row::AssistantServer, raw, env);
            &&& trimmed(raw).len() > 0 ==> {
                &&& next.config.ollama_endpoint() == unslashed(trimmed(raw))
                &&& next.config.assistant_model() == v.config.assistant_model()
                &&& next.config.assistant() == AssistantProvider::Ollama
                &&& same_speech(next.config, v.config)
                &&& same_switches(next.config, v.config)
                &&& newly(v, next, Effect::Save(What::Server))
            }
            &&& trimmed(raw).len() == 0 ==> next == v
        }),
{
    let next = v.committing(Row::AssistantServer, raw, env);
    if trimmed(raw).len() > 0 {
        assert(next.effects[v.effects.len() as int] == Effect::Save(What::Server));
    }
}

/// An address without its slashes is the address up to slashes at its end, and
/// ends in none.
pub proof fn only_slashes_are_dropped(url: Seq<char>)
    ensures
        unslashed(url).len() <= url.len(),
        unslashed(url) == url.take(unslashed(url).len() as int),
        unslashed(url).len() > 0 ==> unslashed(url).last() != '/',
        forall|i: int| unslashed(url).len() <= i < url.len() ==> #[trigger] url[i] == '/',
    decreases url.len(),
{
    if url.len() > 0 && url.last() == '/' {
        only_slashes_are_dropped(url.drop_last());
        let n = unslashed(url).len() as int;
        assert(url.drop_last().take(n) =~= url.take(n));
        assert forall|i: int| n <= i < url.len() implies #[trigger] url[i] == '/' by {
            if i < url.len() - 1 {
                assert(url.drop_last()[i] == '/');
            }
        }
    } else {
        assert(url.take(url.len() as int) =~= url);
    }
}

/// Enter in a text field confirms what was typed and closes the field.
pub proof fn enter_confirms_the_text(
    v: SettingsView,
    row: Row,
    buffer: Seq<char>,
    secret: bool,
    note: Option<Seq<char>>,
    sur: Surroundings,
)
    requires
        v.edit == (EditView::Text { row, buffer, secret, note }),
    ensures
        v.pressing(Key::Enter, sur) == (SettingsView { edit: EditView::Idle, ..v }).committing(
            row,
            buffer,
            sur.env@,
        ),
        row == Row::AssistantModel && trimmed(buffer).len() > 0 ==> v.pressing(
            Key::Enter,
            sur,
        ).config.assistant_model() == trimmed(buffer),
        row == Row::AssistantKey && v.config.mode is Cloud ==> v.pressing(
            Key::Enter,
            sur,
        ).config.assistant_key() == trimmed(buffer),
        row == Row::SpeechKey ==> v.pressing(Key::Enter, sur).config.speech_key() == trimmed(
            buffer,
        ),
{
    reveal(SettingsView::entering);
}

/// What is typed goes to the end of the field, and Backspace takes it away.
pub proof fn characters_go_to_the_field(
    v: SettingsView,
    row: Row,
    buffer: Seq<char>,
    secret: bool,
    note: Option<Seq<char>>,
    c: char,
    sur: Surroundings,
)
    requires
        v.edit == (EditView::Text { row, buffer, secret, note }),
    ensures
        v.pressing(Key::Char(c), sur).edit == (EditView::Text {
            row,
            buffer: buffer.push(c),
            secret,
            note,
        }),
        v.pressing(Key::Char(c), sur).config == v.config,
        v.pressing(Key::Char(c), sur).pressing(Key::Backspace, sur) == v,
{
    assert(buffer.push(c).drop_last() =~= buffer);
}

/// A field opens with what is in use: the key, the address, the server.
pub proof fn fields_open_with_what_is_in_use(v: SettingsView, sur: Surroundings)
    ensures
        v.activating(Row::AssistantEndpoint, sur).edit matches EditView::Text { row, buffer, .. }
            && row == Row::AssistantEndpoint && buffer == v.config.assistant_url(),
        v.activating(Row::SpeechEndpoint, sur).edit matches EditView::Text { row, buffer, .. }
            && row == Row::SpeechEndpoint && buffer == v.config.speech_url(),
        v.activating(Row::AssistantServer, sur).edit matches EditView::Text { row, buffer, .. }
            && row == Row::AssistantServer && buffer == v.config.ollama_endpoint(),
        v.config.assistant_key().len() > 0 ==> (v.activating(
            Row::AssistantKey,
            sur,
        ).edit matches EditView::Text { row, buffer, secret, .. } && row == Row::AssistantKey
            && buffer == v.config.assistant_key() && secret),
        v.config.speech_key().len() > 0 ==> (v.activating(
            Row::SpeechKey,
            sur,
        ).edit matches EditView::Text { row, buffer, secret, .. } && row == Row::SpeechKey
            && buffer == v.config.speech_key() && secret),
        v.activating(Row::AssistantEndpoint, sur).config == v.config,
        v.activating(Row::AssistantKey, sur).config == v.config,
        v.activating(Row::SpeechKey, sur).config == v.config,
{
}

/// A key is taken over from the other card only where both cards have the same
/// host and this one has no key; it is that card's key, and the user is told.
pub proof fn keys_are_shared_within_a_host(v: SettingsView, sur: Surroundings)
    requires
        v.config.assistant_key().len() == 0,
    ensures
        v.activating(Row::AssistantKey, sur).edit matches EditView::Text { buffer, note, .. } && {
            &&& buffer.len() > 0 ==> {
                &&& buffer == v.config.speech_key()
                &&& note is Some
                &&& v.config.speech() == SpeechProvider::OpenAI && v.config.assistant()
                    == AssistantProvider::OpenAI || v.config.speech() == SpeechProvider::Groq
                    && v.config.assistant() == AssistantProvider::Groq || v.config.speech()
                    == SpeechProvider::DeepInfra && v.config.assistant()
                    == AssistantProvider::DeepInfra
            }
            &&& v.config.speech() == SpeechProvider::OpenAI && v.config.assistant()
                == AssistantProvider::OpenAI ==> buffer == v.config.speech_key()
        },
{
    if v.config.speech_key().len() == 0 {
        assert(v.config.speech_key() =~= Seq::<char>::empty());
    }
}

// ─── Pickers ─────────────────────────────────────────────────────────────────

/// Enter in a picker chooses the item under the cursor, among those that the
/// filter lets through, and closes the picker: a provider is in use then, a
/// model is, and a speech model of this machine is.
pub proof fn enter_chooses_the_item_under_the_cursor(
    v: SettingsView,
    row: Row,
    title: Seq<char>,
    items: Seq<PickerItemView>,
    selection: int,
    filter: Seq<char>,
    message: Option<Seq<char>>,
    sur: Surroundings,
)
    requires
        v.edit == (EditView::Picker {
            row,
            title,
            items,
            selection,
            filter,
            loading: false,
            message,
        }),
        0 <= selection < visible(items, filter).len(),
    ensures
        ({
            let value = items[visible(items, filter)[selection]].value;
            let next = v.pressing(Key::Enter, sur);
            &&& value matches PickerValueView::Speech(p) ==> (p != SpeechProvider::Custom
                ==> next.config.speech() == p) && same_assistant(next.config, v.config)
            &&& value matches PickerValueView::Assistant(p) ==> (p != AssistantProvider::Custom
                ==> next.config.assistant() == p) && same_speech(next.config, v.config)
            &&& value matches PickerValueView::LocalStt(m) ==> next.config.transcription
                == (TranscriptionView::Local { model: m }) && same_assistant(next.config, v.config)
                && newly(v, next, Effect::Save(What::Model)) && next.edit == EditView::Idle
            &&& value matches PickerValueView::Model(id) ==> (trimmed(id).len() > 0
                ==> (row == Row::AssistantModel ==> next.config.assistant_model() == trimmed(id)
                && newly(v, next, Effect::Save(What::Model))) && (row == Row::SpeechModel
                && v.config.transcription is Api ==> next.config.speech_model() == trimmed(id)
                && newly(v, next, Effect::Save(What::Model))))
            &&& value is TypeModel ==> next.config == v.config && (
            next.edit matches EditView::Text { row: r, buffer, secret, .. } && r == row && !secret
                && (row == Row::AssistantModel ==> buffer == v.config.assistant_model()) && (row
                == Row::SpeechModel ==> buffer == v.config.speech_model()))
        }),
{
    reveal(SettingsView::entering);
    let value = items[visible(items, filter)[selection]].value;
    let next = v.pressing(Key::Enter, sur);
    let n = v.effects.len() as int;
    match value {
        PickerValueView::Speech(p) => {
            if p != SpeechProvider::Custom {
                crate::settings_laws::chosen_speech_is_in_use(v.config, p);
            }
        },
        PickerValueView::Assistant(p) => {
            if p != AssistantProvider::Custom {
                crate::settings_laws::chosen_assistant_is_in_use(v.config, p);
            }
        },
        PickerValueView::LocalStt(m) => {
            assert(next.effects[n] == Effect::Save(What::Model));
        },
        PickerValueView::Model(id) => {
            if row == Row::AssistantModel || row == Row::SpeechModel {
                assert(next.effects[n] == Effect::Save(What::Model));
            }
        },
        _ => {},
    }
}

/// Choosing a host that is not in use is saved; choosing the one in use changes
/// nothing.
pub proof fn a_chosen_provider_is_saved(
    v: SettingsView,
    s: SpeechProvider,
    a: AssistantProvider,
    sur: Surroundings,
)
    ensures
        v.config.speech() != s ==> newly(
            v,
            v.choosing_speech(s, sur.env@),
            Effect::Save(What::Provider),
        ),
        v.config.speech() == s ==> v.choosing_speech(s, sur.env@) == v,
        v.config.assistant() != a ==> newly(
            v,
            v.choosing_assistant(a, sur),
            Effect::Save(What::Provider),
        ),
        v.config.assistant() == a ==> v.choosing_assistant(a, sur) == v,
        same_switches(v.choosing_speech(s, sur.env@).config, v.config),
        same_switches(v.choosing_assistant(a, sur).config, v.config),
{
    let n = v.effects.len() as int;
    if v.config.speech() != s {
        assert(v.choosing_speech(s, sur.env@).effects[n] == Effect::Save(What::Provider));
    }
    if v.config.assistant() != a {
        assert(v.choosing_assistant(a, sur).effects[n] == Effect::Save(What::Provider));
    }
}

/// The pickers offer every provider, each under its own name, and begin on the
/// one in use.
pub proof fn every_provider_is_offered(v: SettingsView, sur: Surroundings)
    ensures
        v.activating(Row::SpeechProvider, sur).edit matches EditView::Picker {
            items,
            selection,
            ..
        } && 0 <= selection < items.len() && items[selection].value == PickerValueView::Speech(
            v.config.speech(),
        ) && items.len() == 5,
        v.activating(Row::AssistantProvider, sur).edit matches EditView::Picker {
            items,
            selection,
            ..
        } && 0 <= selection < items.len() && items[selection].value == PickerValueView::Assistant(
            v.config.assistant(),
        ) && items.len() == 9,
{
}

/// Where a picker has the model in use it begins on it.
pub proof fn the_model_is_found(items: Seq<PickerItemView>, id: Seq<char>, from: int, i: int)
    requires
        0 <= from <= i < items.len(),
        items[i].value == PickerValueView::Model(id),
    ensures
        model_position(items, id, from) matches Some(k) && from <= k <= i && items[k].value
            == PickerValueView::Model(id),
    decreases i - from,
{
    if items[from].value != PickerValueView::Model(id) {
        the_model_is_found(items, id, from + 1, i);
    }
}

/// A list that has come is offered whole, in its order, with the entry for
/// typing an id below it; a list that did not come leaves that entry, and the
/// user is told why.
pub proof fn the_listed_models_are_offered(
    v: SettingsView,
    listed: Result<Vec<ModelListEntry>, String>,
)
    requires
        v.edit matches EditView::Picker { loading, .. } && loading,
    ensures
        v.receiving(listed).edit matches EditView::Picker { items, loading, message, .. } && {
            &&& !loading
            &&& items.len() > 0 && items.last().value is TypeModel
            &&& listed matches Ok(entries) ==> {
                &&& items.len() == entries@.len() + 1
                &&& forall|i: int|
                    0 <= i < entries@.len() ==> (#[trigger] items[i]).value
                        == PickerValueView::Model(entries@[i].id@) && items[i].label
                        == entries@[i].id@
                &&& entries@.len() > 0 ==> message is None
                &&& entries@.len() == 0 ==> message is Some
            }
            &&& listed is Err ==> items.len() == 1 && message is Some
        },
        v.receiving(listed).config == v.config,
{
}

/// A list that nobody waits for is dropped.
pub proof fn late_lists_are_dropped(v: SettingsView, listed: Result<Vec<ModelListEntry>, String>)
    requires
        !(v.edit matches EditView::Picker { loading, .. } && loading),
    ensures
        v.receiving(listed) == v,
{
}

/// The arrows go one item on in a picker and one row on among the rows, and
/// stay within what there is.
pub proof fn arrows_go_one_on(v: SettingsView, sur: Surroundings)
    requires
        v.edit == EditView::Idle,
        0 <= v.selection < rows_of(v.config).len(),
    ensures
        v.selection + 1 < rows_of(v.config).len() ==> v.pressing(Key::Down, sur).selection
            == v.selection + 1,
        v.selection + 1 == rows_of(v.config).len() ==> v.pressing(Key::Down, sur).selection
            == v.selection,
        v.selection > 0 ==> v.pressing(Key::Up, sur).selection == v.selection - 1,
        v.selection == 0 ==> v.pressing(Key::Up, sur).selection == 0,
        v.pressing(Key::Down, sur).config == v.config,
{
}

// ─── Switches ────────────────────────────────────────────────────────────────

/// Enter on a switch turns it over, saves it, and changes nothing else; twice
/// it is as it was.
pub proof fn switches_turn_over(v: SettingsView, sur: Surroundings)
    ensures
        ({
            let stop = v.activating(Row::AutoStop, sur);
            let watch = v.activating(Row::MeetingWatch, sur);
            let updates = v.activating(Row::CheckUpdates, sur);
            let c = v.config;
            &&& stop.config.silence_auto_stop.enabled == !c.silence_auto_stop.enabled
            &&& stop.config.silence_auto_stop.timeout_seconds
                == c.silence_auto_stop.timeout_seconds
            &&& stop.activating(Row::AutoStop, sur).config == c
            &&& stop.config.meeting_watch == c.meeting_watch
            &&& watch.config.meeting_watch == !c.meeting_watch
            &&& watch.activating(Row::MeetingWatch, sur).config == c
            &&& watch.config.silence_auto_stop == c.silence_auto_stop
            &&& updates.config.check_for_updates == !c.check_for_updates
            &&& updates.activating(Row::CheckUpdates, sur).config == c
            &&& updates.config.silence_auto_stop == c.silence_auto_stop
            &&& newly(v, stop, Effect::Save(What::Setting))
            &&& newly(v, watch, Effect::Save(What::Setting))
            &&& newly(v, watch, Effect::SyncAutopilot)
            &&& newly(v, updates, Effect::Save(What::Setting))
            &&& same_speech(stop.config, c) && same_assistant(stop.config, c)
        }),
{
    let n = v.effects.len() as int;
    assert(v.activating(Row::AutoStop, sur).effects[n] == Effect::Save(What::Setting));
    assert(v.activating(Row::MeetingWatch, sur).effects[n] == Effect::Save(What::Setting));
    assert(v.activating(Row::MeetingWatch, sur).effects[n + 1] == Effect::SyncAutopilot);
    assert(v.activating(Row::CheckUpdates, sur).effects[n] == Effect::Save(What::Setting));
}

/// The timeout goes through half a minute, one, two and five minutes, and only
/// while the switch is on.
pub proof fn the_timeout_goes_round(v: SettingsView, sur: Surroundings)
    ensures
        ({
            let c = v.config;
            let next = v.activating(Row::Timeout, sur);
            let t = next.config.silence_auto_stop.timeout_seconds;
            &&& !c.silence_auto_stop.enabled ==> next == v
            &&& c.silence_auto_stop.enabled ==> {
                &&& next.config.silence_auto_stop.enabled
                &&& t == 30 || t == 60 || t == 120 || t == 300
                &&& t != c.silence_auto_stop.timeout_seconds
                &&& c.silence_auto_stop.timeout_seconds == 30 ==> t == 60
                &&& c.silence_auto_stop.timeout_seconds == 60 ==> t == 120
                &&& c.silence_auto_stop.timeout_seconds == 120 ==> t == 300
                &&& c.silence_auto_stop.timeout_seconds == 300 ==> t == 30
                &&& newly(v, next, Effect::Save(What::Setting))
            }
        }),
{
    let next = v.activating(Row::Timeout, sur);
    if v.config.silence_auto_stop.enabled {
        assert(next.effects[v.effects.len() as int] == Effect::Save(What::Setting));
    }
}

/// The badge says where the data goes: all private exactly where both cards run
/// on this machine, cloud exactly where neither does.
pub proof fn the_badge_tells_the_truth(c: ConfigView)
    ensures
        badge(c).1 == "Fully private" <==> c.transcription is Local && c.mode is Local,
        badge(c).1 == "Cloud" <==> c.transcription is Api && c.mode is Cloud,
        badge(c).1 == "Mixed" <==> (c.transcription is Local) != (c.mode is Local),
{
    reveal_strlit("Fully private");
    reveal_strlit("Cloud");
    reveal_strlit("Mixed");
    assert("Fully private"@.len() == 13 && "Cloud"@.len() == 5);
    assert("Cloud"@[0] != "Mixed"@[0]);
}

// ─── Keys and hosts ──────────────────────────────────────────────────────────

/// A stored key goes before one of the environment; without a stored one the
/// variable of the host in use is taken.
pub proof fn stored_keys_come_first(c: ConfigView, env: Seq<EnvVar>)
    ensures
        c.speech_key().len() > 0 ==> c.resolved_speech_key(env) == Some(c.speech_key()),
        c.speech_key().len() == 0 ==> c.resolved_speech_key(env) == env_value(
            env,
            c.speech().key_env()@,
        ),
        c.assistant_key().len() > 0 ==> c.resolved_assistant_key(env) == Some(c.assistant_key()),
        c.assistant_key().len() == 0 ==> c.resolved_assistant_key(env) == env_value(
            env,
            c.assistant().key_env()@,
        ),
{
}

/// The environment gives the value of a variable of that name, if there is one.
pub proof fn the_environment_is_looked_up(env: Seq<EnvVar>, name: Seq<char>, i: int)
    requires
        0 <= i < env.len(),
        env[i].name@ == name,
        forall|k: int| 0 <= k < i ==> (#[trigger] env[k]).name@ != name,
    ensures
        env_value(env, name) == Some(env[i].value@),
    decreases i,
{
    if i > 0 {
        assert(env[0].name@ != name);
        let rest = env.subrange(1, env.len() as int);
        assert forall|k: int| 0 <= k < i - 1 implies (#[trigger] rest[k]).name@ != name by {
            assert(env[k + 1].name@ != name);
        }
        the_environment_is_looked_up(rest, name, i - 1);
    }
}

/// No key goes to another host: choosing a host puts the key to use that was
/// kept for it, and none where none was kept.
pub proof fn keys_stay_with_their_host(c: ConfigView, p: AssistantProvider)
    requires
        c.wf(),
        p != c.assistant(),
        p != AssistantProvider::Ollama,
    ensures
        ({
            let next = c.with_assistant(p);
            &&& c.slots[p.index() as int].key matches Some(k) ==> next.assistant_key() == k
            &&& c.slots[p.index() as int].key is None ==> next.assistant_key().len() == 0
            &&& next.mode->Cloud_model == c.slots[p.index() as int].model
            &&& p.endpoint_preset() matches Some(host) ==> next.assistant_url() == host.base_url@
            &&& p == AssistantProvider::Custom ==> next.mode->Cloud_base_url
                == c.slots[p.index() as int].base_url
        }),
{
}

/// The speech key is kept by host in the same way; for OpenAI the key of the
/// last setup is taken where none was kept. Every host has its address.
pub proof fn speech_keys_stay_with_their_host(c: ConfigView, p: SpeechProvider)
    requires
        c.wf(),
        p != c.speech(),
        p != SpeechProvider::Local,
    ensures
        ({
            let next = c.with_speech(p);
            &&& c.stt_slots[p.index() as int].key matches Some(k) ==> next.speech_key() == k
            &&& c.stt_slots[p.index() as int].key is None && p != SpeechProvider::OpenAI
                ==> next.speech_key().len() == 0
            &&& p.preset() matches Some(host) ==> next.speech_url() == host.base_url@
            &&& c.stt_slots[p.index() as int].model matches Some(m) ==> next.speech_model() == m
        }),
{
}

/// The address of a custom endpoint comes back with it.
pub proof fn custom_endpoints_come_back(c: ConfigView, away: AssistantProvider)
    requires
        c.wf(),
        c.mode is Cloud,
        c.assistant() == AssistantProvider::Custom,
        away != AssistantProvider::Custom,
    ensures
        c.with_assistant(away).with_assistant(AssistantProvider::Custom).mode->Cloud_base_url
            == c.mode->Cloud_base_url,
        c.with_assistant(away).with_assistant(AssistantProvider::Custom).assistant()
            == AssistantProvider::Custom,
{
    crate::settings_laws::chosen_assistant_is_in_use(c, away);
    let home = AssistantProvider::Custom;
    let there = c.with_assistant(away);
    let slot = c.leaving_assistant().slots[home.index() as int];
    assert(there.slots[home.index() as int] == slot);
    assert(there.leaving_assistant().slots[home.index() as int] == slot);
}

/// Going to the cloud and back, Ollama has its server and its model again.
pub proof fn ollama_comes_back(c: ConfigView, away: AssistantProvider)
    requires
        c.mode is Local,
        away != AssistantProvider::Ollama,
        away != AssistantProvider::Custom,
    ensures
        c.with_assistant(away).with_assistant(AssistantProvider::Ollama).mode == c.mode,
{
    crate::settings_laws::chosen_assistant_is_in_use(c, away);
}

/// Going to a speech host and back, the model of this machine is the same.
pub proof fn the_local_model_comes_back(c: ConfigView, away: SpeechProvider)
    requires
        c.transcription is Local,
        away != SpeechProvider::Local,
        away != SpeechProvider::Custom,
    ensures
        c.with_speech(away).with_speech(SpeechProvider::Local).transcription == c.transcription,
{
    crate::settings_laws::chosen_speech_is_in_use(c, away);
}

/// A key is checked where there is one to check, and what came of it is shown
/// on the card that it belongs to.
pub proof fn keys_are_checked(v: SettingsView, env: Seq<EnvVar>, why: String)
    ensures
        v.config.speech() != SpeechProvider::Local && v.config.resolved_speech_key(env) is Some
            ==> newly(v, v.probing(Card::Speech, env), Effect::ProbeSpeech),
        v.config.assistant() != AssistantProvider::Ollama && v.config.resolved_assistant_key(
            env,
        ) is Some ==> newly(v, v.probing(Card::Assistant, env), Effect::ProbeAssistant),
        v.probed(Card::Speech, Ok(())).speech_key_status == Some(KeyStatusView::Valid),
        v.probed(Card::Speech, Err(why)).speech_key_status == Some(
            KeyStatusView::Invalid(why@),
        ),
        v.probed(Card::Speech, Ok(())).assistant_key_status == v.assistant_key_status,
        v.probed(Card::Assistant, Ok(())).assistant_key_status == Some(KeyStatusView::Valid),
        v.probed(Card::Assistant, Err(why)).assistant_key_status == Some(
            KeyStatusView::Invalid(why@),
        ),
        v.probed(Card::Assistant, Ok(())).speech_key_status == v.speech_key_status,
        v.probed(Card::Assistant, Err(why)).config == v.config,
{
    let n = v.effects.len() as int;
    let s = v.probing(Card::Speech, env);
    let a = v.probing(Card::Assistant, env);
    if s.effects.len() > n {
        assert(s.effects[n] == Effect::ProbeSpeech);
    }
    if a.effects.len() > n {
        assert(a.effects[n] == Effect::ProbeAssistant);
    }
}

// ─── What is on offer ────────────────────────────────────────────────────────

/// The setups on offer are the three profiles and keeping what there is, each
/// under its name.
pub proof fn the_setups_are_offered(v: SettingsView, sur: Surroundings)
    ensures
        v.activating(Row::Setup, sur).edit matches EditView::Picker { items, .. } && items.len()
            == 4 && items[0].value == PickerValueView::Profile(Profile::FullyPrivate)
            && items[0].label == "Fully private"@ && items[1].value == PickerValueView::Profile(
            Profile::Cloud,
        ) && items[1].label == "Cloud"@ && items[2].value == PickerValueView::Profile(
            Profile::LocalSpeechClaude,
        ) && items[3].value == PickerValueView::Profile(Profile::KeepCustom),
        v.activating(Row::Setup, sur).config == v.config,
{
}

/// A provider is offered under its name, and marked where a key is saved for it.
pub proof fn saved_keys_are_marked(c: ConfigView, p: AssistantProvider, env: Seq<EnvVar>)
    requires
        p != c.assistant(),
        p != AssistantProvider::Ollama,
    ensures
        assistant_item(c, p, env).label == p.label()@,
        assistant_item(c, p, env).value == PickerValueView::Assistant(p),
        (c.slots[p.index() as int].key matches Some(k) && k.len() > 0) ==> assistant_item(
            c,
            p,
            env,
        ).detail == p.detail()@ + " \u{00B7} key saved \u{2713}"@,
        c.slots[p.index() as int].key is None ==> assistant_item(c, p, env).detail == p.detail()@,
{
}

/// Every speech model of this machine is offered, under its name, and told to
/// be installed exactly where it is; the picker begins on the one in use.
pub proof fn every_local_model_is_offered(v: SettingsView, sur: Surroundings, m: LocalModel)
    requires
        v.config.transcription == (TranscriptionView::Local { model: m }),
    ensures
        v.opening_models(Row::SpeechModel, sur).edit matches EditView::Picker {
            items,
            selection,
            loading,
            ..
        } && !loading && items.len() == 6 && 0 <= selection < 6 && items[selection].value
            == PickerValueView::LocalStt(m) && items[selection].label == m.display_name()@ && (
        sur.installed@.contains(m) ==> items[selection].detail == m.size()@
            + " \u{00B7} installed \u{2713}"@),
{
}

/// The models of a host are asked from that host: those of Ollama, of the
/// assistant's host, or of the speech host; curated ones are offered at once.
pub proof fn models_are_asked_from_their_host(v: SettingsView, sur: Surroundings)
    ensures
        v.config.mode is Local ==> newly(
            v,
            v.opening_models(Row::AssistantModel, sur),
            Effect::ListOllamaModels,
        ),
        v.config.mode is Cloud && v.config.assistant().lists_models_live() ==> newly(
            v,
            v.opening_models(Row::AssistantModel, sur),
            Effect::ListAssistantModels,
        ),
        v.config.mode is Cloud && !v.config.assistant().lists_models_live() ==> (v.opening_models(
            Row::AssistantModel,
            sur,
        ).edit matches EditView::Picker { items, loading, .. } && !loading && items.len()
            == sur.curated@.len() + 1 && items.last().value is TypeModel && forall|i: int|
            0 <= i < sur.curated@.len() ==> (#[trigger] items[i]).value == PickerValueView::Model(
                sur.curated@[i].model_id@,
            )),
        v.config.speech() == SpeechProvider::Groq || v.config.speech() == SpeechProvider::Custom
            ==> newly(v, v.opening_models(Row::SpeechModel, sur), Effect::ListSpeechModels),
        v.opening_models(Row::AssistantModel, sur).config == v.config,
{
    let n = v.effects.len() as int;
    let a = v.opening_models(Row::AssistantModel, sur);
    let s = v.opening_models(Row::SpeechModel, sur);
    if a.effects.len() > n {
        assert(a.effects[n] == Effect::ListOllamaModels || a.effects[n]
            == Effect::ListAssistantModels);
    }
    if s.effects.len() > n {
        assert(s.effects[n] == Effect::ListSpeechModels);
    }
}

/// A speech key is checked, and models are listed, at the address in use.
pub proof fn the_host_in_use_is_asked(c: ConfigView)
    ensures
        probe_url(c).take(c.speech_url().len() as int) == c.speech_url(),
        probe_url(c).subrange(c.speech_url().len() as int, probe_url(c).len() as int)
            == "/models"@,
        listing_root(c) == unslashed(c.speech_url()) + "/"@,
{
    assert(probe_url(c).take(c.speech_url().len() as int) =~= c.speech_url());
    assert(probe_url(c).subrange(c.speech_url().len() as int, probe_url(c).len() as int)
        =~= "/models"@);
}

/// A new settings screen edits nothing, and has checked nothing.
pub proof fn the_screen_opens_calmly(v: SettingsView, env: Seq<EnvVar>)
    ensures
        v.opening(env).edit == EditView::Idle,
        v.opening(env).selection == 0,
        v.opening(env).config == v.config,
        v.speech_key_status is None && v.config.transcription is Api
            && v.config.resolved_speech_key(env) is Some ==> newly(
            v,
            v.opening(env),
            Effect::ProbeSpeech,
        ),
{
    let n = v.effects.len() as int;
    if v.speech_key_status is None && v.config.transcription is Api
        && v.config.resolved_speech_key(env) is Some {
        assert(v.opening(env).effects[n] == Effect::ProbeSpeech);
    }
}

} // verus!
