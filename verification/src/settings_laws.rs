//! What holds of the settings screen as a whole.
use vstd::prelude::*;

use crate::config::{unslashed, ConfigView};
use crate::keys::Key;
use crate::providers::{assistant_by_url, speech_by_url, AssistantProvider, SpeechProvider};
use crate::settings::{
    badge, needle_of, rows_of, shown, speech_fields, visible, visible_below, EditView, Effect,
    PickerItemView, PickerValueView, Profile, Row, SettingsView, Surroundings,
};
use crate::settings_view::{window_end, window_start, LABEL_WIDTH, PICKER_VISIBLE};
use crate::text::{blank_trims_to_nothing, whitespace};

verus! {

/// Every label fits the label column, with a blank behind it.
pub proof fn labels_fit(row: Row)
    ensures
        row.label()@.len() < LABEL_WIDTH,
{
    reveal_strlit("Setup");
    reveal_strlit("Provider");
    reveal_strlit("Model");
    reveal_strlit("Endpoint");
    reveal_strlit("API key");
    reveal_strlit("Server");
    reveal_strlit("Auto-stop");
    reveal_strlit("Timeout");
    reveal_strlit("Meeting watch");
    reveal_strlit("Check updates");
}

proof fn visible_below_facts(items: Seq<PickerItemView>, needle: Seq<char>, n: nat)
    requires
        n <= items.len(),
    ensures
        forall|k: int|
            0 <= k < visible_below(items, needle, n).len() ==> 0 <= #[trigger] visible_below(
                items,
                needle,
                n,
            )[k] < n && shown(items[visible_below(items, needle, n)[k]], needle),
        forall|j: int, k: int|
            0 <= j < k < visible_below(items, needle, n).len() ==> (#[trigger] visible_below(
                items,
                needle,
                n,
            )[j]) < #[trigger] visible_below(items, needle, n)[k],
        forall|i: int|
            0 <= i < n && #[trigger] shown(items[i], needle) ==> visible_below(
                items,
                needle,
                n,
            ).contains(i),
    decreases n,
{
    if n > 0 {
        let before = visible_below(items, needle, (n - 1) as nat);
        let all = visible_below(items, needle, n);
        visible_below_facts(items, needle, (n - 1) as nat);
        assert forall|i: int| 0 <= i < n && #[trigger] shown(
            items[i],
            needle,
        ) implies all.contains(i) by {
            if i < n - 1 {
                assert(before.contains(i));
                let k = choose|k: int| 0 <= k < before.len() && before[k] == i;
                assert(all[k] == i);
            } else {
                assert(all[all.len() - 1] == i);
            }
        }
    }
}

/// The filter keeps the order of the items, shows exactly those that pass, and
/// none twice.
pub proof fn filter_is_exact(items: Seq<PickerItemView>, filter: Seq<char>)
    ensures
        forall|i: int|
            0 <= i < items.len() ==> (shown(#[trigger] items[i], needle_of(filter)) <==> visible(
                items,
                filter,
            ).contains(i)),
        forall|j: int, k: int|
            0 <= j < k < visible(items, filter).len() ==> (#[trigger] visible(items, filter)[j])
                < #[trigger] visible(items, filter)[k],
{
    visible_below_facts(items, needle_of(filter), items.len());
}

/// A filter of nothing but white space shows every item.
pub proof fn empty_filter_shows_all(items: Seq<PickerItemView>, filter: Seq<char>)
    requires
        forall|i: int| 0 <= i < filter.len() ==> whitespace(#[trigger] filter[i]),
    ensures
        visible(items, filter) == Seq::new(items.len(), |i: int| i),
{
    blank_trims_to_nothing(filter);
    assert(needle_of(filter).len() == 0);
    all_visible_below(items, needle_of(filter), items.len());
}

proof fn all_visible_below(items: Seq<PickerItemView>, needle: Seq<char>, n: nat)
    requires
        needle.len() == 0,
        n <= items.len(),
    ensures
        visible_below(items, needle, n) == Seq::new(n, |i: int| i),
    decreases n,
{
    if n > 0 {
        all_visible_below(items, needle, (n - 1) as nat);
    }
    assert(visible_below(items, needle, n) =~= Seq::new(n, |i: int| i));
}

/// Whatever is typed as a filter, the entry for typing a model id stays.
pub proof fn filter_keeps_the_type_entry(items: Seq<PickerItemView>, filter: Seq<char>, i: int)
    requires
        0 <= i < items.len(),
        items[i].value == PickerValueView::TypeModel,
    ensures
        visible(items, filter).contains(i),
{
    filter_is_exact(items, filter);
    assert(shown(items[i], needle_of(filter)));
}

/// The selected item is in the picker's window, which never holds more than
/// its share and always lies within the list.
pub proof fn selection_in_window(selection: int, count: int)
    requires
        0 <= selection < count,
    ensures
        0 <= window_start(selection, count) <= selection < window_end(selection, count) <= count,
        window_end(selection, count) - window_start(selection, count) <= PICKER_VISIBLE,
{
}

/// Only Enter changes the configuration or has it saved; every other key
/// leaves it alone.
pub proof fn only_enter_configures(v: SettingsView, key: Key, sur: Surroundings)
    requires
        key != Key::Enter,
    ensures
        v.pressing(key, sur).clamped().config == v.config,
        forall|i: int|
            v.effects.len() <= i < v.pressing(key, sur).clamped().effects.len() ==> !((
            #[trigger] v.pressing(key, sur).clamped().effects[i]) is Save),
{
}

/// Esc closes an open field or picker and drops what was typed there; with
/// nothing open it leaves the screen.
pub proof fn esc_backs_out(v: SettingsView, sur: Surroundings)
    ensures
        v.pressing(Key::Esc, sur).edit == EditView::Idle,
        v.edit == EditView::Idle ==> v.pressing(Key::Esc, sur).effects == v.effects.push(
            Effect::Leave,
        ),
        v.edit != EditView::Idle ==> v.pressing(Key::Esc, sur).effects == v.effects.push(
            Effect::StopListing,
        ),
{
}

/// The rows begin with the setup and end with the update check; a key is asked
/// for exactly where the speech host is not this machine.
pub proof fn rows_follow_the_providers(c: ConfigView)
    ensures
        rows_of(c)[0] == Row::Setup,
        rows_of(c).last() == Row::CheckUpdates,
        rows_of(c).contains(Row::SpeechKey) <==> c.speech() != SpeechProvider::Local,
        rows_of(c).contains(Row::SpeechEndpoint) <==> c.speech() == SpeechProvider::Custom,
        rows_of(c).contains(Row::AssistantKey) <==> c.assistant() != AssistantProvider::Ollama,
        rows_of(c).contains(Row::AssistantServer) <==> c.assistant() == AssistantProvider::Ollama,
        rows_of(c).contains(Row::AssistantEndpoint) <==> c.assistant() == AssistantProvider::Custom,
        rows_of(c)[speech_fields(c.speech()).len() as int + 4] == Row::AssistantModel,
{
    let rows = rows_of(c);
    let s = speech_fields(c.speech()).len() as int;
    if c.speech() != SpeechProvider::Local {
        assert(rows[2 + s] == Row::SpeechKey);
    }
    if c.speech() == SpeechProvider::Custom {
        assert(rows[3] == Row::SpeechEndpoint);
    }
    if c.assistant() == AssistantProvider::Ollama {
        assert(rows[5 + s] == Row::AssistantServer);
    } else if c.assistant() == AssistantProvider::Custom {
        assert(rows[5 + s] == Row::AssistantEndpoint);
        assert(rows[6 + s] == Row::AssistantKey);
    } else {
        assert(rows[5 + s] == Row::AssistantKey);
    }
}

/// The addresses of the known speech hosts are told apart.
proof fn speech_hosts_differ()
    ensures
        speech_by_url("https://api.openai.com/v1"@) == SpeechProvider::OpenAI,
        speech_by_url("https://api.groq.com/openai/v1"@) == SpeechProvider::Groq,
        speech_by_url("https://api.deepinfra.com/v1/openai"@) == SpeechProvider::DeepInfra,
{
    reveal_strlit("https://api.openai.com/v1");
    reveal_strlit("https://api.groq.com/openai/v1");
    reveal_strlit("https://api.deepinfra.com/v1/openai");
    let o = "https://api.openai.com/v1"@;
    let g = "https://api.groq.com/openai/v1"@;
    let d = "https://api.deepinfra.com/v1/openai"@;
    assert(unslashed(o) == o && unslashed(g) == g && unslashed(d) == d);
    assert(o[12] != g[12]);
    assert(o[12] != d[12]);
    assert(g[12] != d[12]);
}

/// Choosing a speech provider makes it the provider in use. A custom endpoint
/// needs an address of its own for that.
pub proof fn chosen_speech_is_in_use(c: ConfigView, p: SpeechProvider)
    requires
        p == SpeechProvider::Custom && c.speech() != p ==> (
        c.remembering_speech().stt_custom_base_url matches Some(url) && speech_by_url(url) == p),
    ensures
        c.with_speech(p).speech() == p,
{
    speech_hosts_differ();
}

/// The addresses of the known assistant hosts are told apart.
proof fn assistant_hosts_differ()
    ensures
        assistant_by_url("https://api.deepinfra.com/v1/openai"@) == AssistantProvider::DeepInfra,
        assistant_by_url("https://openrouter.ai/api/v1"@) == AssistantProvider::OpenRouter,
        assistant_by_url("https://api.groq.com/openai/v1"@) == AssistantProvider::Groq,
        assistant_by_url("https://api.together.xyz/v1"@) == AssistantProvider::Together,
{
    reveal_strlit("https://api.deepinfra.com/v1/openai");
    reveal_strlit("https://openrouter.ai/api/v1");
    reveal_strlit("https://api.groq.com/openai/v1");
    reveal_strlit("https://api.together.xyz/v1");
    let d = "https://api.deepinfra.com/v1/openai"@;
    let o = "https://openrouter.ai/api/v1"@;
    let g = "https://api.groq.com/openai/v1"@;
    let t = "https://api.together.xyz/v1"@;
    assert(unslashed(d) == d && unslashed(o) == o && unslashed(g) == g && unslashed(t) == t);
    assert(d[12] == 'd' && o[12] == 'r' && g[12] == 'g' && t[12] == 't');
}

/// Choosing an assistant provider makes it the provider in use. A custom
/// endpoint needs an address of its own for that.
pub proof fn chosen_assistant_is_in_use(c: ConfigView, p: AssistantProvider)
    requires
        p == AssistantProvider::Custom && c.assistant() != p ==> (
        c.leaving_assistant().slots[p.index() as int].base_url matches Some(url)
            && assistant_by_url(url) == p),
    ensures
        c.with_assistant(p).assistant() == p,
{
    assistant_hosts_differ();
}

/// A one-shot setup gives what its name says.
pub proof fn profiles_keep_their_word(v: SettingsView, sur: Surroundings)
    ensures
        badge(v.choosing_profile(Profile::FullyPrivate, sur).config).1 == "Fully private",
        badge(v.choosing_profile(Profile::Cloud, sur).config).1 == "Cloud",
        badge(v.choosing_profile(Profile::LocalSpeechClaude, sur).config).1 == "Mixed",
        v.choosing_profile(Profile::KeepCustom, sur) == v,
{
    let c = v.config;
    chosen_speech_is_in_use(c, SpeechProvider::Local);
    chosen_speech_is_in_use(c, SpeechProvider::OpenAI);
    let local = v.choosing_speech(SpeechProvider::Local, sur.env@);
    let cloud = v.choosing_speech(SpeechProvider::OpenAI, sur.env@);
    chosen_assistant_is_in_use(local.config, AssistantProvider::Ollama);
    chosen_assistant_is_in_use(local.config, AssistantProvider::Anthropic);
    chosen_assistant_is_in_use(cloud.config, AssistantProvider::Anthropic);
}

/// Switching to another speech provider and back restores the key and the
/// model that were set.
pub proof fn speech_settings_come_back(c: ConfigView, away: SpeechProvider)
    requires
        c.wf(),
        c.transcription is Api,
        away != c.speech(),
        c.with_speech(away).speech() == away,
    ensures
        c.speech_key().len() > 0 ==> c.with_speech(away).with_speech(c.speech()).speech_key()
            == c.speech_key(),
        c.transcription->Api_model is Some ==> c.with_speech(away).with_speech(
            c.speech(),
        ).transcription->Api_model == c.transcription->Api_model,
{
    let home = c.speech();
    let there = c.with_speech(away);
    let slot = c.remembering_speech().stt_slots[home.index() as int];
    assert(there.stt_slots[home.index() as int] == slot);
    assert(there.remembering_speech().stt_slots[home.index() as int] == slot);
    assert(home != SpeechProvider::Local);
}

/// Switching to another assistant provider and back restores the key and the
/// model that were set.
pub proof fn assistant_settings_come_back(c: ConfigView, away: AssistantProvider)
    requires
        c.wf(),
        c.mode is Cloud,
        away != c.assistant(),
        c.with_assistant(away).assistant() == away,
    ensures
        c.with_assistant(away).with_assistant(c.assistant()).assistant_key() == c.assistant_key(),
        c.with_assistant(away).with_assistant(c.assistant()).mode->Cloud_model
            == c.mode->Cloud_model,
{
    let home = c.assistant();
    let there = c.with_assistant(away);
    let slot = c.leaving_assistant().slots[home.index() as int];
    assert(there.slots[home.index() as int] == slot);
    assert(there.leaving_assistant().slots[home.index() as int] == slot);
    assert(home != AssistantProvider::Ollama);
    assert(c.assistant_key().len() == 0 ==> c.assistant_key() =~= Seq::<char>::empty());
}

} // verus!
