//! What the first run is for: what the user chooses and types there is what the
//! program works with afterwards.
use vstd::prelude::*;

use crate::config::{CloudProvider, ConfigView, EnrichmentView, LocalModel, TranscriptionView};
use crate::keys::Key;
use crate::onboarding::{
    any_failed, downloads_for, ollama_model_of, tagged, untagged, DownloadView, Errand,
    OnboardingStep, OnboardingView, Processed, TickInput, TickResultView,
};
use crate::onboarding_tick::{attempts_for, following, seed, unavailable_hint, Attempt};
use crate::onboarding_view::{
    confirm_page, downloads_page, label_pad, models_below, ollama_page, option_line, text_page,
};
use crate::page_laws::shows;
use crate::text::{joined, pieces, texts, trimmed};

verus! {

/// An errand that was not there before.
pub open spec fn asks_for(v: OnboardingView, next: OnboardingView, e: Errand) -> bool {
    exists|i: int| v.errands.len() <= i < next.errands.len() && #[trigger] next.errands[i] == e
}

// ─── Private or cloud ────────────────────────────────────────────────────────

/// The private way puts the assistant on this machine, saves that and checks
/// the machine; the cloud way asks for a key and changes nothing yet.
pub proof fn the_chosen_mode_is_set_up(v: OnboardingView, c: ConfigView, installed: bool)
    requires
        v.screen.step == OnboardingStep::ModeSelection,
    ensures
        v.access.selected_mode == 0 ==> {
            let (next, config) = v.step_key(c, Key::Enter, installed);
            &&& config.mode is Local
            &&& config.transcription == c.transcription
            &&& next.screen.step == OnboardingStep::SystemCheck
            &&& asks_for(v, next, Errand::SaveConfig)
            &&& asks_for(v, next, Errand::RunSystemChecks)
        },
        v.access.selected_mode == 1 ==> {
            let (next, config) = v.step_key(c, Key::Enter, installed);
            &&& config == c
            &&& next.screen.step == OnboardingStep::WhisperApiKey
        },
        v.step_key(c, Key::Up, installed).0.access.selected_mode == 0,
        v.step_key(c, Key::Down, installed).0.access.selected_mode == 1,
{
    let n = v.errands.len() as int;
    let next = v.step_key(c, Key::Enter, installed).0;
    if v.access.selected_mode == 0 {
        assert(next.errands[n] == Errand::SaveConfig);
        assert(next.errands[n + 1] == Errand::RunSystemChecks);
    }
}

// ─── Keys ────────────────────────────────────────────────────────────────────

/// The speech key that was typed is tried out; only one that works is kept, and
/// then as it was typed, without the white space round it. One that does not is
/// asked for again.
pub proof fn the_typed_speech_key_is_tried_and_kept(
    v: OnboardingView,
    c: ConfigView,
    installed: bool,
    input: TickInput,
    anim_tick: bool,
)
    ensures
        v.screen.step == OnboardingStep::WhisperApiKey && trimmed(
            v.access.whisper_api_key_input,
        ).len() > 0 ==> {
            let next = v.step_key(c, Key::Enter, installed).0;
            &&& next.screen.step == OnboardingStep::WhisperApiKeyValidation
            &&& next.access.whisper_validating
            &&& asks_for(v, next, Errand::ValidateWhisperKey)
            &&& next.access.whisper_api_key_input == v.access.whisper_api_key_input
        },
        v.screen.step == OnboardingStep::WhisperApiKeyValidation && v.access.whisper_validating ==> {
            let (next, result) = v.ticking(anim_tick, input);
            &&& input.whisper_verdict == Some(true) ==> result == Some(
                TickResultView::SaveWhisperKey(trimmed(v.access.whisper_api_key_input)),
            ) && next.screen.step == OnboardingStep::ProviderSelection
            &&& input.whisper_verdict == Some(false) ==> result is None && next.screen.step
                == OnboardingStep::WhisperApiKey
            &&& input.whisper_verdict is None ==> result is None && next.screen.step
                == OnboardingStep::WhisperApiKeyValidation
        },
{
    let n = v.errands.len() as int;
    let next = v.step_key(c, Key::Enter, installed).0;
    if v.screen.step == OnboardingStep::WhisperApiKey && trimmed(
        v.access.whisper_api_key_input,
    ).len() > 0 {
        assert(next.errands[n] == Errand::ValidateWhisperKey);
    }
}

/// The provider that was chosen is the assistant's: Anthropic, OpenAI and
/// Google, in this order. OpenAI gets the speech key, the others get none yet.
pub proof fn the_chosen_provider_is_the_assistants(
    v: OnboardingView,
    c: ConfigView,
    installed: bool,
)
    requires
        v.screen.step == OnboardingStep::ProviderSelection,
        v.access.selected_provider <= 2,
    ensures
        ({
            let (next, config) = v.step_key(c, Key::Enter, installed);
            &&& config.mode matches EnrichmentView::Cloud { provider, api_key, base_url, .. } && (
            v.access.selected_provider == 0 <==> provider == CloudProvider::Anthropic) && (
            v.access.selected_provider == 1 <==> provider == CloudProvider::OpenAI) && (
            v.access.selected_provider == 2 <==> provider == CloudProvider::Google) && (
            provider != CloudProvider::OpenAI ==> api_key.len() == 0) && (provider
                == CloudProvider::OpenAI ==> api_key == trimmed(v.access.whisper_api_key_input))
                && base_url is None
            &&& config.transcription == c.transcription
            &&& v.access.selected_provider != 1 ==> next.screen.step == OnboardingStep::ApiKeyEntry
            &&& v.access.selected_provider == 1 && trimmed(v.access.whisper_api_key_input).len()
                > 0 ==> next.screen.step == OnboardingStep::AskName && asks_for(
                v,
                next,
                Errand::SaveConfig,
            )
        }),
        v.access.selected_provider < 2 ==> v.step_key(
            c,
            Key::Down,
            installed,
        ).0.access.selected_provider == v.access.selected_provider + 1,
        v.access.selected_provider > 0 ==> v.step_key(
            c,
            Key::Up,
            installed,
        ).0.access.selected_provider == v.access.selected_provider - 1,
{
    let n = v.errands.len() as int;
    let next = v.step_key(c, Key::Enter, installed).0;
    if next.errands.len() > n {
        assert(next.errands[n] == Errand::SaveConfig);
    }
}

/// The assistant key that was typed is the one in use, it is saved and tried
/// out; provider and model stay. A key that works goes on, and one that does
/// not leaves the choice to try again or to go on without.
pub proof fn the_typed_assistant_key_is_in_use(
    v: OnboardingView,
    c: ConfigView,
    installed: bool,
    anim_tick: bool,
    input: TickInput,
)
    ensures
        v.screen.step == OnboardingStep::ApiKeyEntry && trimmed(v.access.api_key_input).len() > 0
            && c.mode is Cloud ==> {
            let (next, config) = v.step_key(c, Key::Enter, installed);
            &&& config.assistant_key() == trimmed(v.access.api_key_input)
            &&& config.assistant() == c.assistant()
            &&& config.assistant_model() == c.assistant_model()
            &&& next.screen.step == OnboardingStep::ApiKeyValidation
            &&& asks_for(v, next, Errand::SaveConfig)
            &&& asks_for(v, next, Errand::ValidateApiKey)
        },
        v.screen.step == OnboardingStep::ApiKeyValidation && v.access.validating ==> {
            let next = v.ticking(anim_tick, input).0;
            &&& input.key_verdict == Some(true) ==> next.screen.step == OnboardingStep::AskName
            &&& input.key_verdict == Some(false) ==> next.screen.step
                == OnboardingStep::ApiKeyValidation && next.access.api_key_valid == Some(false)
        },
        v.screen.step == OnboardingStep::ApiKeyValidation && v.access.api_key_valid == Some(false)
            ==> {
            let next = v.step_key(c, Key::Enter, installed).0;
            &&& v.access.validation_fail_selection == 0 ==> next.screen.step
                == OnboardingStep::ApiKeyEntry && next.access.api_key_input.len() == 0
            &&& v.access.validation_fail_selection == 1 ==> next.screen.step
                == OnboardingStep::AskName
        },
{
    let n = v.errands.len() as int;
    let next = v.step_key(c, Key::Enter, installed).0;
    if v.screen.step == OnboardingStep::ApiKeyEntry && trimmed(v.access.api_key_input).len() > 0 {
        assert(next.errands[n] == Errand::SaveConfig);
        assert(next.errands[n + 1] == Errand::ValidateApiKey);
    }
}

/// What is typed goes to the end of the field that is asked for, and Backspace
/// takes it away; an empty field does not go on.
pub proof fn fields_are_typed(
    v: OnboardingView,
    c: ConfigView,
    ch: char,
    installed: bool,
)
    ensures
        v.screen.step == OnboardingStep::WhisperApiKey ==> {
            let next = v.step_key(c, Key::Char(ch), installed).0;
            &&& next.access.whisper_api_key_input == v.access.whisper_api_key_input.push(ch)
            &&& next.step_key(c, Key::Backspace, installed).0 == v
            &&& trimmed(v.access.whisper_api_key_input).len() == 0 ==> v.step_key(
                c,
                Key::Enter,
                installed,
            ).0 == v
        },
        v.screen.step == OnboardingStep::ApiKeyEntry ==> {
            let next = v.step_key(c, Key::Char(ch), installed).0;
            &&& next.access.api_key_input == v.access.api_key_input.push(ch)
            &&& next.step_key(c, Key::Backspace, installed).0 == v
            &&& trimmed(v.access.api_key_input).len() == 0 ==> v.step_key(
                c,
                Key::Enter,
                installed,
            ).0 == v
        },
        v.screen.step == OnboardingStep::AskName && v.screen.text_complete ==> {
            let next = v.step_key(c, Key::Char(ch), installed).0;
            &&& next.user.user_name == v.user.user_name.push(ch)
            &&& next.step_key(c, Key::Backspace, installed).0 == v
            &&& trimmed(v.user.user_name).len() == 0 ==> v.step_key(c, Key::Enter, installed).0
                == v
        },
        v.screen.step == OnboardingStep::AskRole && v.screen.text_complete ==> {
            let next = v.step_key(c, Key::Char(ch), installed).0;
            &&& next.user.user_role == v.user.user_role.push(ch)
            &&& next.step_key(c, Key::Backspace, installed).0 == v
            &&& trimmed(v.user.user_role).len() == 0 ==> v.step_key(c, Key::Enter, installed).0
                == v
        },
{
    assert(v.access.whisper_api_key_input.push(ch).drop_last()
        =~= v.access.whisper_api_key_input);
    assert(v.access.api_key_input.push(ch).drop_last() =~= v.access.api_key_input);
    assert(v.user.user_name.push(ch).drop_last() =~= v.user.user_name);
    assert(v.user.user_role.push(ch).drop_last() =~= v.user.user_role);
}

// ─── The machine and the models ──────────────────────────────────────────────

/// The checks end as they were reported: a check that failed leaves the choice
/// to check again or to go on, and asks for no models; without a failure the
/// models of a reachable Ollama are asked for.
pub proof fn checks_decide_how_it_goes_on(
    v: OnboardingView,
    c: ConfigView,
    anim_tick: bool,
    input: TickInput,
    installed: bool,
)
    ensures
        v.screen.step == OnboardingStep::SystemCheck && v.machine.system_checking
            && input.checks_finished ==> {
            let (next, result) = v.ticking(anim_tick, input);
            let heard = v.machine.hearing_all(input.checks@, input.checks@.len());
            &&& any_failed(heard.system_checks) ==> result is None
                && next.machine.system_check_done && next.screen.step
                == OnboardingStep::SystemCheck
            &&& !any_failed(heard.system_checks) && heard.ollama_reachable ==> result == Some(
                TickResultView::FetchOllamaModels,
            )
        },
        v.screen.step == OnboardingStep::SystemCheck && v.machine.system_check_done ==> {
            let next = v.step_key(c, Key::Enter, installed).0;
            &&& v.machine.system_check_selection == 0 ==> asks_for(v, next, Errand::RunSystemChecks)
            &&& v.machine.system_check_selection == 1 ==> next.screen.step
                == OnboardingStep::ModelSetup
        },
        v.screen.step == OnboardingStep::SystemCheck && !v.machine.system_check_done ==> v.step_key(
            c,
            Key::Enter,
            installed,
        ).0 == v,
{
    let n = v.errands.len() as int;
    let next = v.step_key(c, Key::Enter, installed).0;
    if v.screen.step == OnboardingStep::SystemCheck && next.errands.len() > n {
        assert(next.errands[n] == Errand::RunSystemChecks);
    }
}

/// A report is shown at the check that it is about: passed, running, or failed
/// with the hint. Ollama counts as reachable once its server answered.
pub proof fn reports_go_to_their_check(
    m: crate::onboarding::MachineView,
    r: crate::onboarding::CheckMessage,
)
    requires
        r.index < m.system_checks.len(),
    ensures
        ({
            let next = m.hearing(r);
            let now = next.system_checks[r.index as int];
            &&& now.name == m.system_checks[r.index as int].name
            &&& r.passed ==> now.status is Passed
            &&& !r.passed && r.hint@.len() > 0 ==> now.status == crate::onboarding::CheckView::Failed(
                r.hint@,
            )
            &&& !r.passed && r.hint@.len() == 0 ==> now.status is Running
            &&& forall|i: int|
                0 <= i < m.system_checks.len() && i != r.index ==> #[trigger] next.system_checks[i]
                    == m.system_checks[i]
            &&& next.ollama_reachable <==> m.ollama_reachable || (r.passed && r.index == 2)
        }),
{
}

/// The Ollama model that was chosen is the assistant's, with a tag behind its
/// name, and it is saved; the server stays.
pub proof fn the_chosen_ollama_model_is_in_use(
    v: OnboardingView,
    c: ConfigView,
    installed: bool,
    at: int,
)
    requires
        v.screen.step == OnboardingStep::ModelSetup,
        v.models.setup_phase == 1,
        c.mode is Local,
        v.models.ollama_model_selection == at,
        0 <= at < v.models.ollama_available_models.len(),
    ensures
        ({
            let (next, config) = v.step_key(c, Key::Enter, installed);
            &&& config.assistant_model() == tagged(v.models.ollama_available_models[at].id)
            &&& config.ollama_endpoint() == c.ollama_endpoint()
            &&& config.transcription == c.transcription
            &&& asks_for(v, next, Errand::SaveConfig)
            &&& next.models.setup_phase == 2
        }),
        at + 1 < v.models.ollama_available_models.len() ==> v.step_key(
            c,
            Key::Down,
            installed,
        ).0.models.ollama_model_selection == at + 1,
        at > 0 ==> v.step_key(c, Key::Up, installed).0.models.ollama_model_selection == at - 1,
{
    let next = v.step_key(c, Key::Enter, installed).0;
    assert(next.errands[v.errands.len() as int] == Errand::SaveConfig);
}

/// A tag is added only where there is none, and taken off again.
pub proof fn tags_are_added_once(model: Seq<char>)
    ensures
        model.contains(':') ==> tagged(model) == model,
        !model.contains(':') ==> tagged(model) == model + ":latest"@,
        !model.contains(':') ==> untagged(model) == model,
{
    reveal_strlit(":");
    assert(":"@ =~= seq![':']);
    if model.contains(':') {
        let i = choose|i: int| 0 <= i < model.len() && model[i] == ':';
        assert(model.subrange(i, i + 1) =~= seq![':']);
        assert(crate::text::stands_at(model, ":"@, i));
    } else {
        if crate::text::occurs(model, ":"@) {
            let at = choose|at: int| crate::text::stands_at(model, ":"@, at);
            assert(model.subrange(at, at + 1)[0] == ':');
            assert(model[at] == ':');
        }
        one_piece(model, ':');
    }
}

proof fn one_piece(s: Seq<char>, c: char)
    requires
        !s.contains(c),
    ensures
        pieces(s, c) == seq![s],
    decreases s.len(),
{
    if s.len() > 0 {
        let t = s.drop_last();
        assert forall|x: char| t.contains(x) implies s.contains(x) by {
            let i = choose|i: int| 0 <= i < t.len() && t[i] == x;
            assert(s[i] == x);
        }
        assert(s.contains(s[s.len() - 1]));
        one_piece(t, c);
        assert(t.push(s.last()) =~= s);
        assert(pieces(s, c) =~= seq![s]);
    } else {
        assert(s =~= Seq::<char>::empty());
    }
}

/// The Whisper model that was chosen is the speech model in use, whether its
/// download is skipped or done: Turbo, Large, Medium and Small, in this order.
pub proof fn the_chosen_whisper_model_is_in_use(v: OnboardingView, c: ConfigView, installed: bool)
    requires
        v.screen.step == OnboardingStep::ModelSetup,
        0 <= v.models.whisper_model_selection <= 3,
    ensures
        ({
            let config = v.step_key(c, Key::Enter, installed).1;
            let at = v.models.whisper_model_selection;
            let ends = v.models.setup_phase == 2 && v.machine.system_check_selection == 1
                || v.models.setup_phase == 3 && v.downloads_settled();
            &&& ends ==> {
                &&& at == 0 ==> config.transcription == (TranscriptionView::Local {
                    model: LocalModel::WhisperTurbo,
                })
                &&& at == 1 ==> config.transcription == (TranscriptionView::Local {
                    model: LocalModel::WhisperLarge,
                })
                &&& at == 2 ==> config.transcription == (TranscriptionView::Local {
                    model: LocalModel::WhisperMedium,
                })
                &&& at == 3 ==> config.transcription == (TranscriptionView::Local {
                    model: LocalModel::WhisperSmall,
                })
                &&& config.mode == c.mode
                &&& asks_for(v, v.step_key(c, Key::Enter, installed).0, Errand::SaveConfig)
                &&& v.step_key(c, Key::Enter, installed).0.screen.step == OnboardingStep::AskName
            }
            &&& v.models.setup_phase == 2 && v.machine.system_check_selection == 0 ==> {
                let next = v.step_key(c, Key::Enter, installed).0;
                &&& asks_for(v, next, Errand::StartDownloads)
                &&& next.models.downloading
                &&& next.models.download_items == downloads_for(v, c, installed)
            }
            &&& v.models.setup_phase == 3 && !v.downloads_settled() ==> v.step_key(
                c,
                Key::Enter,
                installed,
            ).0 == v
        }),
        v.models.setup_phase == 0 && v.models.whisper_model_selection < 3 ==> v.step_key(
            c,
            Key::Down,
            installed,
        ).0.models.whisper_model_selection == v.models.whisper_model_selection + 1,
        v.models.setup_phase == 0 && v.models.whisper_model_selection > 0 ==> v.step_key(
            c,
            Key::Up,
            installed,
        ).0.models.whisper_model_selection == v.models.whisper_model_selection - 1,
{
    let n = v.errands.len() as int;
    let next = v.step_key(c, Key::Enter, installed).0;
    if next.errands.len() > n {
        assert(next.errands[n] == Errand::SaveConfig || next.errands[n] == Errand::StartDownloads
            || next.errands[n] == Errand::FetchOllamaModels);
    }
}

/// What is downloaded is the Whisper model that was chosen, unless it is there,
/// and the Ollama model where Ollama can be reached.
pub proof fn the_chosen_models_are_downloaded(v: OnboardingView, c: ConfigView, installed: bool)
    ensures
        ({
            let items = downloads_for(v, c, installed);
            &&& items.len() >= 1
            &&& items[0].status == DownloadView::Done <==> installed
            &&& v.machine.ollama_reachable <==> items.len() == 2
            &&& items.len() == 2 ==> items[1].status == DownloadView::Pending && items[1].name
                == "Pulling "@ + untagged(ollama_model_of(c))
        }),
{
}

/// Progress is shown at the download that it is about; when all is over, what
/// did not fail is done.
pub proof fn progress_goes_to_its_download(
    m: crate::onboarding::ModelsView,
    p: crate::onboarding::DownloadProgress,
    i: int,
)
    requires
        0 <= i < m.download_items.len(),
    ensures
        p.index == i ==> m.hearing(p).download_items[i].status == p.status@,
        p.index != i ==> m.hearing(p).download_items[i] == m.download_items[i],
        m.hearing(p).download_items[i].name == m.download_items[i].name,
        m.download_items[i].status is Failed ==> m.settled().download_items[i]
            == m.download_items[i],
        !(m.download_items[i].status is Failed) ==> m.settled().download_items[i].status
            == DownloadView::Done,
        !m.settled().downloading,
{
}

// ─── The user ────────────────────────────────────────────────────────────────

/// The name and then the role are asked for, and then the world is built of
/// them.
pub proof fn the_world_is_built_of_the_answers(v: OnboardingView, c: ConfigView, installed: bool)
    requires
        v.screen.text_complete,
    ensures
        v.screen.step == OnboardingStep::AskName && trimmed(v.user.user_name).len() > 0 ==> {
            let next = v.step_key(c, Key::Enter, installed).0;
            next.screen.step == OnboardingStep::AskRole && next.user == v.user
        },
        v.screen.step == OnboardingStep::AskRole && trimmed(v.user.user_role).len() > 0 ==> {
            let next = v.step_key(c, Key::Enter, installed).0;
            &&& next.screen.step == OnboardingStep::Processing
            &&& next.user.processing
            &&& next.user.user_name == v.user.user_name
            &&& next.user.user_role == v.user.user_role
            &&& asks_for(v, next, Errand::StartProcessing)
        },
{
    let n = v.errands.len() as int;
    let next = v.step_key(c, Key::Enter, installed).0;
    if v.screen.step == OnboardingStep::AskRole && trimmed(v.user.user_role).len() > 0 {
        assert(next.errands[n] == Errand::StartProcessing);
    }
}

/// What was understood is shown for confirmation: owner, role, organization and
/// people. What could not be done is told.
pub proof fn what_was_understood_is_shown(
    v: OnboardingView,
    anim_tick: bool,
    input: TickInput,
)
    requires
        v.screen.step == OnboardingStep::Processing,
        v.user.processing,
    ensures
        ({
            let next = v.ticking(anim_tick, input).0;
            &&& input.processed matches Some(Processed::World { owner, role, organization, people })
                ==> {
                &&& next.screen.step == OnboardingStep::Confirmation
                &&& next.user.confirm_owner == owner@
                &&& next.user.confirm_role == role@
                &&& next.user.confirm_org == organization@
                &&& people@.len() > 0 ==> next.user.confirm_people == joined(
                    texts(people@),
                    ", "@,
                )
                &&& next.user.confirm_selection == 0
            }
            &&& input.processed matches Some(Processed::Unavailable(Some(h))) ==> {
                &&& next.screen.step == OnboardingStep::Processing
                &&& !next.user.ollama_available
                &&& next.screen.full_text.take(h@.len() as int) == h@
            }
            &&& input.processed is Some ==> !next.user.processing
            &&& next.user.user_name == v.user.user_name && next.user.user_role
                == v.user.user_role
        }),
{
    let next = v.ticking(anim_tick, input).0;
    match input.processed {
        Some(Processed::Unavailable(Some(h))) => {
            assert(next.screen.full_text.take(h@.len() as int) =~= h@);
        },
        _ => {},
    }
}

/// A confirmed world ends the first run; one that is not right is removed, and
/// the name is asked for again.
pub proof fn a_wrong_world_is_removed(v: OnboardingView, c: ConfigView, installed: bool)
    requires
        v.screen.step == OnboardingStep::Confirmation,
    ensures
        ({
            let next = v.step_key(c, Key::Enter, installed).0;
            &&& v.user.confirm_selection == 0 ==> next.screen.step == OnboardingStep::Done
                && next.errands == v.errands
            &&& v.user.confirm_selection == 1 ==> next.screen.step == OnboardingStep::AskName
                && asks_for(v, next, Errand::RemoveWorldFile)
            &&& v.step_key(c, Key::Down, installed).0.user.confirm_selection == 1
            &&& v.step_key(c, Key::Up, installed).0.user.confirm_selection == 0
        }),
{
    let n = v.errands.len() as int;
    let next = v.step_key(c, Key::Enter, installed).0;
    if next.errands.len() > n {
        assert(next.errands[n] == Errand::RemoveWorldFile);
    }
}

/// Why the assistant cannot be used is said: what a diagnosis of Ollama found,
/// a key that is missing, or a host that does not answer.
pub proof fn the_hint_names_the_reason(
    c: ConfigView,
    found: Seq<char>,
    env: Seq<crate::config::EnvVar>,
)
    ensures
        c.mode is Local ==> unavailable_hint(c, Some(found), env) == found,
        c.mode matches EnrichmentView::Cloud { provider, .. } ==> (c.resolved_assistant_key(
            env,
        ) is None ==> unavailable_hint(c, None, env) == "No API key set for "@
            + provider.display_name()@ + "."@),
        c.mode matches EnrichmentView::Cloud { provider, .. } ==> (c.resolved_assistant_key(
            env,
        ) is Some ==> unavailable_hint(c, None, env) == provider.display_name()@
            + " is not reachable.\nCheck your API key and network connection."@),
{
}

/// The first run goes on from its entrance by itself, and a key shows the rest
/// of a text before it does anything else.
pub proof fn texts_are_shown_before_keys_count(
    v: OnboardingView,
    c: ConfigView,
    key: Key,
    installed: bool,
)
    requires
        !v.screen.text_complete,
        v.screen.step == OnboardingStep::Intro || v.screen.step == OnboardingStep::AskName
            || v.screen.step == OnboardingStep::AskRole || v.screen.step == OnboardingStep::Done,
    ensures
        ({
            let next = v.step_key(c, key, installed).0;
            &&& next.screen.text_complete
            &&& next.visible_text() == v.screen.full_text
            &&& next.screen.step == v.screen.step
            &&& next.user == v.user
        }),
{
    assert(v.screen.full_text.take(v.screen.full_text.len() as int) =~= v.screen.full_text);
}

// ─── Building the world ──────────────────────────────────────────────────────

/// The world is built of what the user said: their name and what they told of
/// themselves, both without the white space round them.
pub proof fn the_seed_holds_the_answers(name: Seq<char>, role: Seq<char>)
    ensures
        seed(name, role) == "My name is "@ + trimmed(name) + ". "@ + trimmed(role),
        crate::text::occurs(seed(name, role), trimmed(name)),
        crate::text::occurs(seed(name, role), trimmed(role)),
{
    let s = seed(name, role);
    let n = trimmed(name);
    let r = trimmed(role);
    let a = "My name is "@.len() as int;
    assert(s.subrange(a, a + n.len()) =~= n);
    assert(crate::text::stands_at(s, n, a));
    let b = s.len() - r.len();
    assert(s.subrange(b, b + r.len()) =~= r);
    assert(crate::text::stands_at(s, r, b));
}

/// A local model is tried three times, a host once; a success ends it, and
/// after the last attempt it is given up.
pub proof fn attempts_come_to_an_end(c: ConfigView, attempt: u32, attempts: u32)
    ensures
        c.mode is Local <==> attempts_for(c) == 3,
        c.mode is Cloud <==> attempts_for(c) == 1,
        following(attempt, attempts, true) == Attempt::Done,
        attempt + 1 < attempts ==> following(attempt, attempts, false) == (Attempt::Retry {
            wait_seconds: 2,
        }),
        attempt + 1 >= attempts ==> following(attempt, attempts, false) == Attempt::GiveUp,
{
}

// ─── Pages ───────────────────────────────────────────────────────────────────

/// What Scriba understood is on the page that asks for confirmation.
pub proof fn the_confirmation_shows_what_was_understood(v: OnboardingView, rows: Seq<Seq<char>>)
    ensures
        shows(confirm_page(v, rows), v.user.confirm_owner),
        shows(confirm_page(v, rows), v.user.confirm_role),
        shows(confirm_page(v, rows), v.user.confirm_org),
        shows(confirm_page(v, rows), v.user.confirm_people),
{
    let p = confirm_page(v, rows);
    let n = text_page(rows, crate::style::fg(crate::style::Color::White)).len() as int + 1;
    assert(p[n].len() == 2 && p[n].last().text == v.user.confirm_owner);
    assert(p[n + 1].len() == 2 && p[n + 1].last().text == v.user.confirm_role);
    assert(p[n + 2].len() == 2 && p[n + 2].last().text == v.user.confirm_org);
    assert(p[n + 3].len() == 2 && p[n + 3].last().text == v.user.confirm_people);
}

/// Every download is on the page, with its name, its state, and what went wrong
/// with it.
pub proof fn the_downloads_are_shown(v: OnboardingView, rows: Seq<Seq<char>>, i: int)
    requires
        0 <= i < v.models.download_items.len(),
    ensures
        ({
            let item = v.models.download_items[i];
            let n = text_page(rows, crate::style::fg(crate::style::Color::White)).len() as int + 1;
            let l = downloads_page(v, rows)[n + i];
            &&& downloads_page(v, rows).len() >= n + v.models.download_items.len()
            &&& l.len() == 3
            &&& l[1].text == item.name
            &&& item.status matches DownloadView::Failed(why) ==> l[2].text == " \u{2014} "@ + why
            &&& item.status matches DownloadView::InProgress(pct) ==> l[2].text == " "@
                + crate::text::decimal(pct as nat) + "%"@
            &&& item.status == DownloadView::Done ==> l[0].text == "\u{2713} "@
        }),
{
}

proof fn models_are_listed(
    models: Seq<Seq<char>>,
    selection: int,
    header: nat,
    n: nat,
    i: int,
)
    requires
        0 <= i < n <= models.len(),
    ensures
        models_below(models, selection, header, n).len() == n,
        models_below(models, selection, header, n)[i] == option_line(
            models[i],
            label_pad(models[i], header, crate::text::longest(models)),
            i == selection,
        ),
    decreases n,
{
    reveal_with_fuel(models_below, 2);
    if n > 1 {
        if i < n - 1 {
            models_are_listed(models, selection, header, (n - 1) as nat, i);
        } else {
            models_are_listed(models, selection, header, (n - 1) as nat, 0);
        }
    }
}

/// Every Ollama model on offer is on the page by its name, and the chosen one
/// is marked.
pub proof fn the_ollama_models_are_shown(v: OnboardingView, rows: Seq<Seq<char>>, i: int)
    requires
        0 <= i < v.models.ollama_available_models.len(),
    ensures
        ({
            let name = v.models.ollama_available_models[i].id;
            let n = text_page(rows, crate::style::fg(crate::style::Color::White)).len() as int + 1;
            let l = ollama_page(v, rows)[n + i];
            &&& i == v.models.ollama_model_selection ==> l.len() == 2 && l[0].text
                == "\u{25B8} "@ && l[1].text.take(name.len() as int) == name
            &&& i != v.models.ollama_model_selection ==> l.len() == 1 && l[0].text.subrange(
                2,
                2 + name.len() as int,
            ) == name
        }),
{
    let models = crate::ollama::option_ids(v.models.ollama_available_models);
    let name = models[i];
    models_are_listed(
        models,
        v.models.ollama_model_selection,
        crate::text::longest(rows),
        models.len(),
        i,
    );
    let n = text_page(rows, crate::style::fg(crate::style::Color::White)).len() as int + 1;
    let l = ollama_page(v, rows)[n + i];
    reveal_strlit("  ");
    if i == v.models.ollama_model_selection {
        assert(l[1].text.take(name.len() as int) =~= name);
    } else {
        assert(l[0].text.subrange(2, 2 + name.len() as int) =~= name);
    }
}

} // verus!
