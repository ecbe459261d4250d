//! Views tell the truth: what the contracts say of a view holds, field by field,
//! of the value that the program hands out.
use vstd::prelude::*;

use crate::chat::{
    turns, BlockView, ChatBlock, ChatMessage, ChatState, HomeRecording, ToolCallDisplay, Turn,
};
use crate::chat_keys::{ChatDo, ChatDoView, Outgoing};
use crate::config::{
    EnrichmentMode, EnrichmentView, ScribaConfig, TranscriptionMode, TranscriptionView,
};
use crate::dashboard::{Chore, ChoreView, Dashboard};
use crate::entities::{Entities, Entity, EntityAction, EntityActionView};
use crate::jobs::{PendingTranscription, PendingView};
use crate::ollama::OllamaModelOption;
use crate::recordings::Recording;
use crate::settings::{PickerItem, PickerValue, PickerValueView, Settings};
use crate::style::{Line, Page};

verus! {

/// What is to be done to an entity.
pub proof fn entity_actions_are_told(a: EntityAction)
    ensures
        a matches EntityAction::Merge { source, target } ==> a@ == (EntityActionView::Merge {
            source,
            target,
        }),
        a matches EntityAction::Delete { id } ==> a@ == (EntityActionView::Delete { id }),
        a matches EntityAction::Update { id, name, entity_type, context } ==> (
        a@ matches EntityActionView::Update { id: i, name: n, entity_type: t, context: c } && i
            == id && (name matches Some(s) ==> n == Some(s@)) && (name is None ==> n is None) && (
        entity_type matches Some(s) ==> t == Some(s@)) && (entity_type is None ==> t is None) && (
        context matches Some(s) ==> c == Some(s@)) && (context is None ==> c is None)),
        a matches EntityAction::Create { entity_type, name, context, aliases } ==> (
        a@ matches EntityActionView::Create { entity_type: t, name: n, context: c, aliases: l } && t
            == entity_type@ && n == name@ && (context matches Some(s) ==> c == Some(s@)) && (context
            is None ==> c is None) && l.len() == aliases@.len() && (forall|i: int|
            0 <= i < l.len() ==> #[trigger] l[i] == aliases@[i]@)),
        a is Leave <==> a@ is Leave,
        a is Reload <==> a@ is Reload,
        a is Merge <==> a@ is Merge,
        a is Delete <==> a@ is Delete,
{
}

/// An entity, and the screen that shows it.
pub proof fn entities_are_told(e: Entity, s: Entities)
    ensures
        e@.id == e.id,
        e@.entity_type == e.entity_type@,
        e@.canonical_name == e.canonical_name@,
        e.context matches Some(c) ==> e@.context == Some(c@),
        e.context is None ==> e@.context is None,
        e@.mention_count == e.mention_count,
        s.selected_entity matches Some(x) ==> s@.selected_entity == Some(x@),
        s.merge_source matches Some(x) ==> s@.merge_source == Some(x@),
        s@.selected == s.selected,
        s@.mode == s.mode,
        s@.confirm_selection == s.confirm_selection,
        s@.entities.len() == s.entities@.len(),
        forall|i: int| 0 <= i < s.entities@.len() ==> #[trigger] s@.entities[i] == s.entities@[i]@,
        s@.edit_name == s.edit_name@,
        s@.edit_type == s.edit_type@,
        s@.edit_context == s.edit_context@,
        s@.add_name == s.add_name@,
        s@.add_context == s.add_context@,
{
}

/// The work that is handed out.
pub proof fn chores_are_told(c: Chore)
    ensures
        c matches Chore::StartRecording { silence_timeout } ==> c@ == (ChoreView::StartRecording {
            silence_timeout,
        }),
        c matches Chore::LoadTranscript { recording, reports_failure } ==> c@ == (
        ChoreView::LoadTranscript { recording: recording@, reports_failure }),
        c matches Chore::Play(r) ==> c@ == ChoreView::Play(r@),
        c matches Chore::Delete(r) ==> c@ == ChoreView::Delete(r@),
        c matches Chore::ChangeEntity(a) ==> c@ == ChoreView::ChangeEntity(a@),
        c matches Chore::StartTranscription(p) ==> c@ == ChoreView::StartTranscription(p@),
        c matches Chore::Generate(o) ==> c@ == ChoreView::Generate(o@),
        c matches Chore::PerformUpdate(v) ==> c@ == ChoreView::PerformUpdate(v@),
        c matches Chore::CopySelection(t) ==> c@ == ChoreView::CopySelection(t@),
        c matches Chore::FetchOllamaModels(e) ==> c@ == ChoreView::FetchOllamaModels(e@),
        c is StopRecording <==> c@ is StopRecording,
        c is StopMeeting <==> c@ is StopMeeting,
        c is StopPlayback <==> c@ is StopPlayback,
        c is CopyTranscript <==> c@ is CopyTranscript,
        c is SaveConfig <==> c@ is SaveConfig,
        c is LoadRecordings <==> c@ is LoadRecordings,
        c is BeginChat <==> c@ is BeginChat,
        c is CheckForUpdate <==> c@ is CheckForUpdate,
        c is StartRecording <==> c@ is StartRecording,
{
}

/// The work of the dashboard stands in its order, and its parts are its own.
pub proof fn the_dashboard_is_told(d: Dashboard)
    ensures
        d@.chores.len() == d.chores@.len(),
        forall|i: int| 0 <= i < d.chores@.len() ==> #[trigger] d@.chores[i] == d.chores@[i]@,
        d@.chat == d.chat@,
        d@.settings == d.settings@,
        d@.entities == d.entities@,
        d@.list == d.list@,
        d@.jobs == d.jobs@,
        d@.transcript == d.transcript@,
        d@.list.selected == d.list.selected,
        d@.list.current_page == d.list.current_page,
        d@.list.search_query == d.list.search_query@,
        d@.capture.recording == d.capture.recording,
        d@.shell.current_view == d.shell.current_view,
        d@.shell.message == d.shell.message@,
        d@.shell.show_message == d.shell.show_message,
{
}

/// A message that goes out, and what a key of the chat leads to.
pub proof fn outgoing_messages_are_told(o: Outgoing, d: ChatDo, t: Seq<Turn>)
    ensures
        o@.system_prompt == o.system_prompt@,
        o@.user_message == o.user_message@,
        o@.needs_compaction == o.needs_compaction,
        o@.messages.len() == o.messages@.len(),
        forall|i: int|
            0 <= i < o.messages@.len() ==> #[trigger] o@.messages[i] == (
                o.messages@[i].0@,
                o.messages@[i].1@,
            ),
        turns(t).len() == t.len(),
        forall|i: int| 0 <= i < t.len() ==> #[trigger] turns(t)[i] == (t[i].0@, t[i].1@),
        d matches ChatDo::Send(x) ==> d@ == ChatDoView::Send(x@),
        d matches ChatDo::OpenTranscript(id) ==> d@ == ChatDoView::OpenTranscript(id),
{
}

/// A message of the conversation and its parts.
pub proof fn messages_are_told(m: ChatMessage, b: ChatBlock, t: ToolCallDisplay, c: ChatState)
    ensures
        m@.role == m.role,
        m@.blocks.len() == m.blocks@.len(),
        forall|i: int| 0 <= i < m.blocks@.len() ==> #[trigger] m@.blocks[i] == m.blocks@[i]@,
        b matches ChatBlock::Text(s) ==> b@ == BlockView::Text(s@),
        b matches ChatBlock::ToolCall(x) ==> b@ == BlockView::ToolCall(x@),
        b is CompactionMarker <==> b@ is CompactionMarker,
        t@.name == t.name@,
        t@.input_summary == t.input_summary@,
        t@.output_summary == t.output_summary@,
        t@.is_complete == t.is_complete,
        c@.talk.messages.len() == c.talk.messages@.len(),
        forall|i: int|
            0 <= i < c.talk.messages@.len() ==> #[trigger] c@.talk.messages[i]
                == c.talk.messages@[i]@,
        c@.entry.input_buffer == c.entry.input_buffer@,
        c@.entry.system_prompt == c.entry.system_prompt@,
        c@.talk.is_generating == c.talk.is_generating,
        c.talk.pending_message matches Some(p) ==> c@.talk.pending_message == Some(p@),
        c@.usage == c.usage,
{
}

/// A transcription that is asked for.
pub proof fn transcriptions_are_told(p: PendingTranscription)
    ensures
        p matches PendingTranscription::Retranscribe { recording_name, transcription_mode } ==> p@
            == (PendingView::Retranscribe {
            recording_name: recording_name@,
            transcription_mode: transcription_mode@,
        }),
        p matches PendingTranscription::Import { source_path, display_name, transcription_mode }
            ==> p@ == (PendingView::Import {
            source_path: source_path@,
            display_name: display_name@,
            transcription_mode: transcription_mode@,
        }),
{
}

/// A recording, in the list and on the home screen.
pub proof fn recordings_are_told(r: Recording, h: HomeRecording)
    ensures
        r@.id == r.id,
        r@.directory_name == r.directory_name@,
        r.display_name matches Some(n) ==> r@.display_name == Some(n@),
        r.display_name is None ==> r@.display_name is None,
        r@.duration_seconds == r.duration_seconds,
        r@.channels == r.channels,
        r@.has_transcript == r.has_transcript,
        r.summary matches Some(s) ==> r@.summary == Some(s@),
        r@.created_utc == r.created_utc,
        r@.created_local == r.created_local,
        h@.recording_id == h.recording_id,
        h@.name == h.name@,
        h@.directory_name == h.directory_name@,
        h@.duration_mins == h.duration_mins,
        h@.busy == h.busy,
{
}

/// The configuration.
pub proof fn the_configuration_is_told(
    c: ScribaConfig,
    t: TranscriptionMode,
    e: EnrichmentMode,
    s: Settings,
)
    ensures
        c@.transcription == c.transcription@,
        c@.mode == c.enrichment.mode@,
        c@.silence_auto_stop == c.silence_auto_stop,
        c@.meeting_watch == c.meeting_watch,
        c@.check_for_updates == c.check_for_updates,
        t matches TranscriptionMode::Local { model } ==> t@ == (TranscriptionView::Local { model }),
        t matches TranscriptionMode::Api { api_key, base_url, model } ==> (
        t@ matches TranscriptionView::Api { api_key: k, base_url: u, model: m } && k == api_key@ && (
        base_url matches Some(x) ==> u == Some(x@)) && (base_url is None ==> u is None) && (
        model matches Some(x) ==> m == Some(x@)) && (model is None ==> m is None)),
        e matches EnrichmentMode::Local { ollama_endpoint, ollama_model } ==> e@ == (
        EnrichmentView::Local { ollama_endpoint: ollama_endpoint@, ollama_model: ollama_model@ }),
        e matches EnrichmentMode::Cloud { provider, api_key, model, base_url } ==> (
        e@ matches EnrichmentView::Cloud { provider: p, api_key: k, model: m, base_url: u } && p
            == provider && k == api_key@ && (base_url matches Some(x) ==> u == Some(x@)) && (base_url
            is None ==> u is None) && (model matches Some(x) ==> m == Some(x@)) && (model is None
            ==> m is None)),
        s@.config == s.config@,
        s@.effects == s.effects@,
        s@.selection == s.selection,
{
}

/// What a picker offers.
pub proof fn pickers_are_told(i: PickerItem, v: PickerValue, o: OllamaModelOption)
    ensures
        i@.label == i.label@,
        i@.detail == i.detail@,
        i@.value == i.value@,
        v matches PickerValue::Model(id) ==> v@ == PickerValueView::Model(id@),
        v matches PickerValue::Speech(p) ==> v@ == PickerValueView::Speech(p),
        v matches PickerValue::Assistant(p) ==> v@ == PickerValueView::Assistant(p),
        v matches PickerValue::LocalStt(m) ==> v@ == PickerValueView::LocalStt(m),
        v matches PickerValue::Profile(p) ==> v@ == PickerValueView::Profile(p),
        v is TypeModel <==> v@ is TypeModel,
        o@.id == o.id@,
        o@.label == o.label@,
        o@.size == o.size@,
        o@.installed == o.installed,
{
}

/// Lines on the screen.
pub proof fn lines_are_told(l: Line, p: Page)
    ensures
        l@.len() == l.spans@.len(),
        forall|i: int|
            0 <= i < l.spans@.len() ==> (#[trigger] l@[i]).text == l.spans@[i].text@ && l@[i].style
                == l.spans@[i].style,
        p@.len() == p.lines@.len(),
        forall|i: int| 0 <= i < p.lines@.len() ==> #[trigger] p@[i] == p.lines@[i]@,
{
}

/// Sequences and options are told piece by piece.
pub proof fn pieces_are_told(
    s: Option<String>,
    v: Seq<String>,
    m: Seq<ChatMessage>,
    b: Seq<ChatBlock>,
    r: Seq<Recording>,
    e: Seq<Entity>,
    o: Seq<OllamaModelOption>,
    p: Seq<PickerItem>,
)
    ensures
        s matches Some(t) ==> crate::text::option_text(s) == Some(t@),
        s is None ==> crate::text::option_text(s) is None,
        crate::text::texts(v).len() == v.len(),
        forall|i: int| 0 <= i < v.len() ==> #[trigger] crate::text::texts(v)[i] == v[i]@,
        crate::chat::messages_view(m).len() == m.len(),
        forall|i: int| 0 <= i < m.len() ==> #[trigger] crate::chat::messages_view(m)[i] == m[i]@,
        crate::chat::blocks_view(b).len() == b.len(),
        forall|i: int| 0 <= i < b.len() ==> #[trigger] crate::chat::blocks_view(b)[i] == b[i]@,
        crate::recordings::recording_views(r).len() == r.len(),
        forall|i: int|
            0 <= i < r.len() ==> #[trigger] crate::recordings::recording_views(r)[i] == r[i]@,
        crate::entities::entity_views(e).len() == e.len(),
        forall|i: int| 0 <= i < e.len() ==> #[trigger] crate::entities::entity_views(e)[i] == e[i]@,
        crate::ollama::option_views(o).len() == o.len(),
        forall|i: int| 0 <= i < o.len() ==> #[trigger] crate::ollama::option_views(o)[i] == o[i]@,
        crate::settings::items_view(p).len() == p.len(),
        forall|i: int| 0 <= i < p.len() ==> #[trigger] crate::settings::items_view(p)[i] == p[i]@,
{
}

} // verus!
