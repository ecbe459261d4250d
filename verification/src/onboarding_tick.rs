//! What the first run does by itself: reveal text, follow the checks and the
//! downloads, take verdicts on keys.
use vstd::prelude::*;

use crate::config::{ConfigView, EnrichmentMode, EnvVar, ScribaConfig};
use crate::keys::Key;
use crate::onboarding::{
    any_failed, assistant_name, item_views, next_break, ollama_model_of, provider_display_name,
    tick_result_view, untagged, AccessView, CheckMessage, CheckStatus, CheckView, DownloadItem,
    DownloadItemView, DownloadProgress, DownloadStatus, DownloadView, IntroductionView, MachineView,
    ModelsView, Onboarding, OnboardingStep, OnboardingView, Processed, ScreenView, SystemCheck,
    SystemCheckView, TickInput, TickResult, TickResultView, CONFIRM_TEXT, INTRO_TEXT,
    KEY_FAILED_TEXT, KEY_VERIFIED, OPENAI_FAILED_TEXT, OPENAI_VERIFIED_TEXT, SAVED_TEXT,
};
use crate::text::{cat, cat3, join, joined, split, texts, trim, trimmed};

verus! {

/// The number of the next frame.
pub open spec fn frame_after(frame: usize) -> usize {
    if frame == usize::MAX {
        0
    } else {
        (frame + 1) as usize
    }
}

/// The status that a message reports.
pub open spec fn reported(m: CheckMessage) -> CheckView {
    if m.passed {
        CheckView::Passed
    } else if m.hint@.len() == 0 {
        CheckView::Running
    } else {
        CheckView::Failed(m.hint@)
    }
}

impl MachineView {
    /// The checks after a message. The third one is the Ollama server.
    pub open spec fn hearing(self, m: CheckMessage) -> MachineView {
        if m.index < self.system_checks.len() {
            let old_check = self.system_checks[m.index as int];
            MachineView {
                system_checks: self.system_checks.update(
                    m.index as int,
                    SystemCheckView { name: old_check.name, status: reported(m) },
                ),
                ollama_reachable: self.ollama_reachable || (m.passed && m.index == 2),
                ..self
            }
        } else {
            self
        }
    }

    /// The checks after the first `n` messages.
    pub open spec fn hearing_all(self, ms: Seq<CheckMessage>, n: nat) -> MachineView
        decreases n,
    {
        if n == 0 {
            self
        } else {
            self.hearing_all(ms, (n - 1) as nat).hearing(ms[n - 1])
        }
    }
}

/// A download that did not fail is done.
pub open spec fn settled_item(item: DownloadItemView) -> DownloadItemView {
    DownloadItemView {
        name: item.name,
        status: if item.status is Failed {
            item.status
        } else {
            DownloadView::Done
        },
    }
}

fn settle_items(items: &Vec<DownloadItem>) -> (r: Vec<DownloadItem>)
    ensures
        item_views(r@) == Seq::new(
            item_views(items@).len(),
            |i: int| settled_item(item_views(items@)[i]),
        ),
{
    let mut r: Vec<DownloadItem> = Vec::new();
    let mut i: usize = 0;
    while i < items.len()
        invariant
            i <= items@.len(),
            r@.len() == i,
            forall|k: int| 0 <= k < i ==> (#[trigger] r@[k])@ == settled_item(items@[k]@),
        decreases items.len() - i,
    {
        let item = &items[i];
        let status = match &item.status {
            DownloadStatus::Failed(why) => DownloadStatus::Failed(why.clone()),
            _ => DownloadStatus::Done,
        };
        r.push(DownloadItem { name: item.name.clone(), status });
        i += 1;
    }
    assert(item_views(r@) =~= Seq::new(
        item_views(items@).len(),
        |i: int| settled_item(item_views(items@)[i]),
    ));
    r
}

impl ModelsView {
    pub open spec fn hearing(self, p: DownloadProgress) -> ModelsView {
        if p.index < self.download_items.len() {
            ModelsView {
                download_items: self.download_items.update(
                    p.index as int,
                    DownloadItemView {
                        name: self.download_items[p.index as int].name,
                        status: p.status@,
                    },
                ),
                ..self
            }
        } else {
            self
        }
    }

    /// The downloads after the first `n` messages.
    pub open spec fn hearing_all(self, ps: Seq<DownloadProgress>, n: nat) -> ModelsView
        decreases n,
    {
        if n == 0 {
            self
        } else {
            self.hearing_all(ps, (n - 1) as nat).hearing(ps[n - 1])
        }
    }

    /// The downloads are over: what did not fail is done.
    pub open spec fn settled(self) -> ModelsView {
        ModelsView {
            downloading: false,
            download_items: Seq::new(
                self.download_items.len(),
                |i: int| settled_item(self.download_items[i]),
            ),
            ..self
        }
    }
}

impl OnboardingView {
    pub open spec fn entrance_tick(self) -> OnboardingView {
        if self.screen.anim_frame >= 25 {
            OnboardingView {
                screen: ScreenView { step: OnboardingStep::Intro, ..self.screen },
                ..self
            }.saying(INTRO_TEXT@, true)
        } else {
            self
        }
    }

    pub open spec fn setup_tick(self, input: TickInput) -> OnboardingView {
        if self.models.setup_phase == 3 && self.models.downloading {
            let heard = self.models.hearing_all(input.downloads@, input.downloads@.len());
            OnboardingView {
                models: if input.downloads_finished {
                    heard.settled()
                } else {
                    heard
                },
                ..self
            }
        } else {
            self
        }
    }

    /// The checks as they stand now, whether they have just ended or not.
    pub open spec fn checks_heard(self, input: TickInput) -> OnboardingView {
        if self.machine.system_checking {
            let heard = self.machine.hearing_all(input.checks@, input.checks@.len());
            OnboardingView {
                machine: MachineView {
                    system_checking: !input.checks_finished,
                    system_check_done: heard.system_check_done || input.checks_finished,
                    system_check_selection: if input.checks_finished && any_failed(
                        heard.system_checks,
                    ) {
                        0
                    } else {
                        heard.system_check_selection
                    },
                    ..heard
                },
                screen: ScreenView {
                    transition_frame: if input.checks_finished && !any_failed(heard.system_checks) {
                        0
                    } else {
                        self.screen.transition_frame
                    },
                    ..self.screen
                },
                ..self
            }
        } else {
            self
        }
    }

    /// A machine without a failed check goes on by itself after 15 frames.
    pub open spec fn lingering(self, anim_tick: bool) -> OnboardingView {
        if anim_tick && self.machine.system_check_done && !any_failed(self.machine.system_checks) {
            if self.screen.transition_frame + 1 >= 15 {
                OnboardingView {
                    screen: ScreenView { transition_frame: 0, ..self.screen },
                    ..self
                }.choosing_models()
            } else {
                OnboardingView {
                    screen: ScreenView {
                        transition_frame: self.screen.transition_frame + 1,
                        ..self.screen
                    },
                    ..self
                }
            }
        } else {
            self
        }
    }

    pub open spec fn system_check_tick(self, anim_tick: bool, input: TickInput) -> (
        OnboardingView,
        Option<TickResultView>,
    ) {
        let heard = self.checks_heard(input);
        if self.machine.system_checking && input.checks_finished && !any_failed(
            heard.machine.system_checks,
        ) && heard.machine.ollama_reachable {
            (heard, Some(TickResultView::FetchOllamaModels))
        } else {
            (heard.lingering(anim_tick), None)
        }
    }

    pub open spec fn whisper_verdict_tick(self, input: TickInput) -> (
        OnboardingView,
        Option<TickResultView>,
    ) {
        match input.whisper_verdict {
            Some(valid) => if self.access.whisper_validating {
                let known = OnboardingView {
                    access: AccessView {
                        whisper_validating: false,
                        whisper_key_valid: Some(valid),
                        whisper_api_key_input: if valid {
                            self.access.whisper_api_key_input
                        } else {
                            Seq::empty()
                        },
                        ..self.access
                    },
                    ..self
                };
                if valid {
                    (
                        known.going(
                            OnboardingStep::ProviderSelection,
                            OPENAI_VERIFIED_TEXT@,
                            false,
                        ),
                        Some(
                            TickResultView::SaveWhisperKey(
                                trimmed(self.access.whisper_api_key_input),
                            ),
                        ),
                    )
                } else {
                    (
                        OnboardingView {
                            screen: ScreenView {
                                step: OnboardingStep::WhisperApiKey,
                                ..known.screen
                            },
                            ..known
                        }.saying(OPENAI_FAILED_TEXT@, false),
                        None,
                    )
                }
            } else {
                (self, None)
            },
            None => (self, None),
        }
    }

    pub open spec fn key_verdict_tick(self, input: TickInput) -> OnboardingView {
        match input.key_verdict {
            Some(valid) => if self.access.validating {
                let known = OnboardingView {
                    access: AccessView {
                        validating: false,
                        api_key_valid: Some(valid),
                        validation_fail_selection: if valid {
                            self.access.validation_fail_selection
                        } else {
                            0
                        },
                        ..self.access
                    },
                    ..self
                };
                if valid {
                    known.asking_name(KEY_VERIFIED@)
                } else {
                    known.saying(KEY_FAILED_TEXT@, false)
                }
            } else {
                self
            },
            None => self,
        }
    }

    /// The world was built, or not: either way the user's answers are kept.
    pub open spec fn processed_tick(self, input: TickInput) -> OnboardingView {
        match input.processed {
            Some(p) => if self.user.processing {
                match p {
                    Processed::World { owner, role, organization, people } => OnboardingView {
                        screen: ScreenView { step: OnboardingStep::Confirmation, ..self.screen },
                        user: IntroductionView {
                            processing: false,
                            ollama_available: true,
                            confirm_owner: owner@,
                            confirm_role: role@,
                            confirm_org: organization@,
                            confirm_people: if people@.len() == 0 {
                                "(none detected)"@
                            } else {
                                joined(texts(people@), ", "@)
                            },
                            confirm_selection: 0,
                            ..self.user
                        },
                        ..self
                    }.saying(CONFIRM_TEXT@, false),
                    Processed::Unavailable(hint) => OnboardingView {
                        user: IntroductionView {
                            processing: false,
                            ollama_available: false,
                            ..self.user
                        },
                        ..self
                    }.saying(
                        (match hint {
                            Some(h) => h@,
                            None => "Enrichment provider is not reachable."@,
                        }) + SAVED_TEXT@,
                        false,
                    ),
                    Processed::Failed(why) => OnboardingView {
                        user: IntroductionView {
                            processing: false,
                            ollama_available: false,
                            ..self.user
                        },
                        ..self
                    }.saying(
                        "Something went wrong during setup:\n"@ + why@ + SAVED_TEXT@,
                        false,
                    ),
                }
            } else {
                self
            },
            None => self,
        }
    }

    pub open spec fn done_tick(self, anim_tick: bool) -> (OnboardingView, Option<TickResultView>) {
        let typed = self.typing();
        if self.screen.transitioning && anim_tick {
            (
                OnboardingView {
                    screen: ScreenView {
                        transition_frame: typed.screen.transition_frame + 1,
                        ..typed.screen
                    },
                    ..typed
                },
                if typed.screen.transition_frame + 1 > 10 {
                    Some(TickResultView::Complete)
                } else {
                    None
                },
            )
        } else {
            (typed, None)
        }
    }

    /// One tick of the clock; every animation frame is one too.
    pub open spec fn ticking(self, anim_tick: bool, input: TickInput) -> (
        OnboardingView,
        Option<TickResultView>,
    ) {
        let v = if anim_tick {
            OnboardingView {
                screen: ScreenView {
                    anim_frame: frame_after(self.screen.anim_frame),
                    ..self.screen
                },
                ..self
            }
        } else {
            self
        };
        match v.screen.step {
            OnboardingStep::Entrance => (v.entrance_tick(), None),
            OnboardingStep::Intro => (
                if v.screen.anim_frame >= 3 {
                    v.typing()
                } else {
                    v
                },
                None,
            ),
            OnboardingStep::AskName | OnboardingStep::AskRole => (v.typing(), None),
            OnboardingStep::ModelSetup => (v.setup_tick(input), None),
            OnboardingStep::SystemCheck => v.system_check_tick(anim_tick, input),
            OnboardingStep::WhisperApiKeyValidation => v.whisper_verdict_tick(input),
            OnboardingStep::ApiKeyValidation => (v.key_verdict_tick(input), None),
            OnboardingStep::Processing => (v.processed_tick(input), None),
            OnboardingStep::Done => v.done_tick(anim_tick),
            _ => (v, None),
        }
    }
}

impl Onboarding {
    /// Whether a check of the machine has failed.
    pub fn any_check_failed(&self) -> (r: bool)
        ensures
            r == any_failed(self@.machine.system_checks),
    {
        let ghost views = self@.machine.system_checks;
        let mut i: usize = 0;
        while i < self.machine.system_checks.len()
            invariant
                i <= self.machine.system_checks@.len(),
                views == self@.machine.system_checks,
                forall|k: int| 0 <= k < i ==> !((#[trigger] views[k]).status is Failed),
            decreases self.machine.system_checks.len() - i,
        {
            match self.machine.system_checks[i].status {
                CheckStatus::Failed(_) => {
                    assert(views[i as int].status is Failed);
                    return true;
                },
                _ => {},
            }
            i += 1;
        }
        false
    }

    fn hear_check(&mut self, m: &CheckMessage)
        ensures
            final(self)@ == (OnboardingView {
                machine: old(self)@.machine.hearing(*m),
                ..old(self)@
            }),
    {
        if m.index < self.machine.system_checks.len() {
            let name = self.machine.system_checks[m.index].name;
            let status = if m.passed {
                CheckStatus::Passed
            } else if m.hint.as_str().unicode_len() == 0 {
                CheckStatus::Running
            } else {
                CheckStatus::Failed(m.hint.clone())
            };
            self.machine.system_checks.set(m.index, SystemCheck { name, status });
            if m.passed && m.index == 2 {
                self.machine.ollama_reachable = true;
            }
            assert(self@.machine.system_checks =~= old(self)@.machine.hearing(*m).system_checks);
        }
    }

    fn hear_download(&mut self, p: &DownloadProgress)
        ensures
            final(self)@ == (OnboardingView {
                models: old(self)@.models.hearing(*p),
                ..old(self)@
            }),
    {
        if p.index < self.models.download_items.len() {
            let name = self.models.download_items[p.index].name.clone();
            let status = match &p.status {
                DownloadStatus::Pending => DownloadStatus::Pending,
                DownloadStatus::InProgress(pct) => DownloadStatus::InProgress(*pct),
                DownloadStatus::Done => DownloadStatus::Done,
                DownloadStatus::Failed(why) => DownloadStatus::Failed(why.clone()),
            };
            self.models.download_items.set(p.index, DownloadItem { name, status });
            assert(self@.models.download_items =~= old(self)@.models.hearing(*p).download_items);
        }
    }

    fn settle_downloads(&mut self)
        ensures
            final(self)@ == (OnboardingView {
                models: old(self)@.models.settled(),
                ..old(self)@
            }),
    {
        self.models.downloading = false;
        self.models.download_items = settle_items(&self.models.download_items);
    }

    fn on_setup_tick(&mut self, input: &TickInput)
        ensures
            final(self)@ == old(self)@.setup_tick(*input),
    {
        if self.models.setup_phase == 3 && self.models.downloading {
            let ghost start = self@;
            let mut i: usize = 0;
            while i < input.downloads.len()
                invariant
                    i <= input.downloads@.len(),
                    self@ == (OnboardingView {
                        models: start.models.hearing_all(input.downloads@, i as nat),
                        ..start
                    }),
                decreases input.downloads.len() - i,
            {
                self.hear_download(&input.downloads[i]);
                i += 1;
            }
            if input.downloads_finished {
                self.settle_downloads();
            }
        }
    }

    fn hear_checks(&mut self, input: &TickInput)
        ensures
            final(self)@ == old(self)@.checks_heard(*input),
    {
        if self.machine.system_checking {
            let ghost start = self@;
            let mut i: usize = 0;
            while i < input.checks.len()
                invariant
                    i <= input.checks@.len(),
                    self@ == (OnboardingView {
                        machine: start.machine.hearing_all(input.checks@, i as nat),
                        ..start
                    }),
                decreases input.checks.len() - i,
            {
                self.hear_check(&input.checks[i]);
                i += 1;
            }
            if input.checks_finished {
                self.machine.system_check_done = true;
                if self.any_check_failed() {
                    self.machine.system_check_selection = 0;
                } else {
                    self.screen.transition_frame = 0;
                }
            }
            self.machine.system_checking = !input.checks_finished;
        }
    }

    fn linger(&mut self, anim_tick: bool)
        requires
            old(self).screen.transition_frame < usize::MAX,
        ensures
            final(self)@ == old(self)@.lingering(anim_tick),
    {
        if anim_tick && self.machine.system_check_done && !self.any_check_failed() {
            if self.screen.transition_frame + 1 >= 15 {
                self.screen.transition_frame = 0;
                self.choose_models();
            } else {
                self.screen.transition_frame = self.screen.transition_frame + 1;
            }
        }
    }

    fn on_system_check_tick(
        &mut self,
        anim_tick: bool,
        input: &TickInput,
    ) -> (r: Option<TickResult>)
        requires
            old(self).screen.transition_frame < usize::MAX,
        ensures
            (final(self)@, tick_result_view(r)) == old(self)@.system_check_tick(anim_tick, *input),
    {
        let just_ended = self.machine.system_checking && input.checks_finished;
        self.hear_checks(input);
        if just_ended && self.machine.ollama_reachable && !self.any_check_failed() {
            return Some(TickResult::FetchOllamaModels);
        }
        self.linger(anim_tick);
        None
    }

    fn on_done_tick(&mut self, anim_tick: bool) -> (r: Option<TickResult>)
        requires
            old(self).screen.transition_frame < usize::MAX,
        ensures
            (final(self)@, tick_result_view(r)) == old(self)@.done_tick(anim_tick),
    {
        self.tick_typewriter_lines();
        if self.screen.transitioning && anim_tick {
            self.screen.transition_frame = self.screen.transition_frame + 1;
            if self.screen.transition_frame > 10 {
                return Some(TickResult::Complete);
            }
        }
        None
    }

    fn on_whisper_verdict(&mut self, input: &TickInput) -> (r: Option<TickResult>)
        ensures
            (final(self)@, tick_result_view(r)) == old(self)@.whisper_verdict_tick(*input),
    {
        match input.whisper_verdict {
            Some(valid) => {
                if !self.access.whisper_validating {
                    return None;
                }
                self.access.whisper_validating = false;
                self.access.whisper_key_valid = Some(valid);
                if valid {
                    let key = trim(self.access.whisper_api_key_input.as_str()).to_owned();
                    self.go(OnboardingStep::ProviderSelection, OPENAI_VERIFIED_TEXT, false);
                    Some(TickResult::SaveWhisperKey(key))
                } else {
                    self.access.whisper_api_key_input = String::new();
                    self.screen.step = OnboardingStep::WhisperApiKey;
                    self.set_step_text(OPENAI_FAILED_TEXT, false);
                    None
                }
            },
            None => None,
        }
    }

    fn on_key_verdict(&mut self, input: &TickInput)
        ensures
            final(self)@ == old(self)@.key_verdict_tick(*input),
    {
        match input.key_verdict {
            Some(valid) => {
                if self.access.validating {
                    self.access.validating = false;
                    self.access.api_key_valid = Some(valid);
                    if valid {
                        self.ask_name(KEY_VERIFIED);
                    } else {
                        self.access.validation_fail_selection = 0;
                        self.set_step_text(KEY_FAILED_TEXT, false);
                    }
                }
            },
            None => {},
        }
    }

    fn on_processed(&mut self, input: &TickInput)
        ensures
            final(self)@ == old(self)@.processed_tick(*input),
    {
        match &input.processed {
            Some(p) => {
                if !self.user.processing {
                    return;
                }
                self.user.processing = false;
                match p {
                    Processed::World { owner, role, organization, people } => {
                        self.user.confirm_owner = owner.clone();
                        self.user.confirm_role = role.clone();
                        self.user.confirm_org = organization.clone();
                        self.user.confirm_people = if people.len() == 0 {
                            "(none detected)".to_owned()
                        } else {
                            join(people, ", ")
                        };
                        self.user.ollama_available = true;
                        self.user.confirm_selection = 0;
                        self.screen.step = OnboardingStep::Confirmation;
                        self.set_step_text(CONFIRM_TEXT, false);
                    },
                    Processed::Unavailable(hint) => {
                        self.user.ollama_available = false;
                        let lead = match hint {
                            Some(h) => h.clone(),
                            None => "Enrichment provider is not reachable.".to_owned(),
                        };
                        self.set_step_text(cat(lead.as_str(), SAVED_TEXT).as_str(), false);
                    },
                    Processed::Failed(why) => {
                        self.user.ollama_available = false;
                        self.set_step_text(
                            cat3(
                                "Something went wrong during setup:\n",
                                why.as_str(),
                                SAVED_TEXT,
                            ).as_str(),
                            false,
                        );
                    },
                }
            },
            None => {},
        }
    }

    /// Called every frame from the main event loop, with what has come in
    /// since. Returns what the caller needs to act on.
    pub fn tick(&mut self, anim_tick: bool, input: &TickInput) -> (r: Option<TickResult>)
        requires
            old(self).screen.transition_frame < usize::MAX,
        ensures
            (final(self)@, tick_result_view(r)) == old(self)@.ticking(anim_tick, *input),
    {
        if anim_tick {
            self.screen.anim_frame = if self.screen.anim_frame == usize::MAX {
                0
            } else {
                self.screen.anim_frame + 1
            };
        }
        match self.screen.step {
            OnboardingStep::Entrance => {
                if self.screen.anim_frame >= 25 {
                    self.screen.step = OnboardingStep::Intro;
                    self.set_step_text(INTRO_TEXT, true);
                }
            },
            OnboardingStep::Intro => {
                if self.screen.anim_frame >= 3 {
                    self.tick_typewriter_lines();
                }
            },
            OnboardingStep::AskName | OnboardingStep::AskRole => self.tick_typewriter_lines(),
            OnboardingStep::ModelSetup => self.on_setup_tick(input),
            OnboardingStep::SystemCheck => {
                return self.on_system_check_tick(anim_tick, input);
            },
            OnboardingStep::WhisperApiKeyValidation => {
                return self.on_whisper_verdict(input);
            },
            OnboardingStep::ApiKeyValidation => self.on_key_verdict(input),
            OnboardingStep::Processing => self.on_processed(input),
            OnboardingStep::Done => {
                return self.on_done_tick(anim_tick);
            },
            _ => {},
        }
        None
    }
}

/// What the user said, as the text that their world is built from.
pub open spec fn seed(user_name: Seq<char>, user_role: Seq<char>) -> Seq<char> {
    "My name is "@ + trimmed(user_name) + ". "@ + trimmed(user_role)
}

/// What the user said, as the text that their world is built from.
pub fn seed_text(user_name: &str, user_role: &str) -> (r: String)
    ensures
        r@ == seed(user_name@, user_role@),
{
    crate::text::cat4("My name is ", trim(user_name), ". ", trim(user_role))
}

/// How often building the world is tried: a local model may need a moment
/// after it was pulled.
pub open spec fn attempts_for(c: ConfigView) -> u32 {
    if c.mode is Local {
        3
    } else {
        1
    }
}

/// How often building the world is tried.
pub fn processing_attempts(config: &ScribaConfig) -> (r: u32)
    ensures
        r == attempts_for(config@),
{
    match &config.enrichment.mode {
        EnrichmentMode::Local { .. } => 3,
        _ => 1,
    }
}

/// How long the next attempt waits.
pub const RETRY_SECONDS: u64 = 2;

/// What follows an attempt at building the world.
#[derive(Clone, Copy, Debug, PartialEq, Eq, Structural)]
pub enum Attempt {
    Done,
    /// The file that the attempt has left is removed, and after a while comes
    /// the next attempt.
    Retry { wait_seconds: u64 },
    GiveUp,
}

/// What follows the attempt with number `attempt`, counted from 0, of at most
/// `attempts`.
pub open spec fn following(attempt: u32, attempts: u32, built: bool) -> Attempt {
    if built {
        Attempt::Done
    } else if attempt + 1 < attempts {
        Attempt::Retry { wait_seconds: RETRY_SECONDS }
    } else {
        Attempt::GiveUp
    }
}

/// What follows the attempt with number `attempt`, counted from 0, of at most
/// `attempts`.
pub fn after_attempt(attempt: u32, attempts: u32, built: bool) -> (r: Attempt)
    ensures
        r == following(attempt, attempts, built),
{
    if built {
        Attempt::Done
    } else if attempts > 0 && attempt < attempts - 1 {
        Attempt::Retry { wait_seconds: RETRY_SECONDS }
    } else {
        Attempt::GiveUp
    }
}

/// Why the assistant could not be used, from what the diagnosis of the Ollama
/// server gave.
pub open spec fn unavailable_hint(
    c: ConfigView,
    diagnosis: Option<Seq<char>>,
    env: Seq<EnvVar>,
) -> Seq<char> {
    if c.mode is Local {
        match diagnosis {
            Some(h) => h,
            None => "Ollama is running but the LLM call failed.\nModel: "@ + ollama_model_of(c)
                + "\n\nTry running a test query:\n  ollama run "@ + untagged(ollama_model_of(c))
                + " \"hello\""@,
        }
    } else if c.resolved_assistant_key(env) is None {
        "No API key set for "@ + assistant_name(c)@ + "."@
    } else {
        assistant_name(c)@ + " is not reachable.\nCheck your API key and network connection."@
    }
}

/// Why the assistant could not be used.
pub fn processing_hint(config: &ScribaConfig, diagnosis: &Option<String>, env: &Vec<EnvVar>) -> (r:
    String)
    ensures
        r@ == unavailable_hint(config@, crate::text::option_text(*diagnosis), env@),
{
    match &config.enrichment.mode {
        EnrichmentMode::Local { ollama_model, .. } => match diagnosis {
            Some(h) => h.clone(),
            None => {
                let parts = split(ollama_model.as_str(), ':');
                proof {
                    crate::text::pieces_nonempty(ollama_model@, ':');
                    assert(texts(parts@)[0] == parts@[0]@);
                }
                let head = cat3(
                    "Ollama is running but the LLM call failed.\nModel: ",
                    ollama_model.as_str(),
                    "\n\nTry running a test query:\n  ollama run ",
                );
                cat3(head.as_str(), parts[0].as_str(), " \"hello\"")
            },
        },
        _ => {
            let name = provider_display_name(config);
            if config.resolve_api_key(env).is_none() {
                cat3("No API key set for ", name, ".")
            } else {
                cat(name, " is not reachable.\nCheck your API key and network connection.")
            }
        },
    }
}

// ─── Laws ────────────────────────────────────────────────────────────────────

proof fn next_break_bounds(text: Seq<char>, from: int)
    requires
        0 <= from,
    ensures
        next_break(text, from) is Some ==> from <= next_break(text, from)->0 < text.len()
            && text[next_break(text, from)->0] == '\n',
    decreases text.len() - from,
{
    if from < text.len() && text[from] != '\n' {
        next_break_bounds(text, from + 1);
    }
}

/// The typewriter never takes text back and never shows more than there is;
/// on every second frame it shows at least one character more until all is
/// there.
pub proof fn typewriter_makes_progress(v: OnboardingView)
    requires
        v.wf(),
    ensures
        v.typing().wf(),
        v.screen.visible_chars <= v.typing().screen.visible_chars,
        v.typing().screen.full_text == v.screen.full_text,
        v.screen.anim_frame % 2 == 0 && !v.screen.text_complete ==> v.typing().screen.text_complete
            || v.typing().screen.visible_chars > v.screen.visible_chars,
{
    next_break_bounds(v.screen.full_text, v.screen.visible_chars);
}

/// No key press leaves a choice outside its list or reveals text that is not
/// there.
#[verifier::rlimit(60)]
#[verifier::spinoff_prover]
pub proof fn keys_keep_the_invariant(v: OnboardingView, c: ConfigView, key: Key, installed: bool)
    requires
        v.wf(),
    ensures
        v.step_key(c, key, installed).0.wf(),
{
}

proof fn hearing_all_keeps(m: MachineView, ms: Seq<CheckMessage>, n: nat)
    ensures
        m.hearing_all(ms, n).system_checks.len() == m.system_checks.len(),
    decreases n,
{
    if n > 0 {
        hearing_all_keeps(m, ms, (n - 1) as nat);
    }
}

/// A tick keeps the invariant too.
pub proof fn ticks_keep_the_invariant(v: OnboardingView, anim_tick: bool, input: TickInput)
    requires
        v.wf(),
    ensures
        v.ticking(anim_tick, input).0.wf(),
{
    let w = if anim_tick {
        OnboardingView {
            screen: ScreenView { anim_frame: frame_after(v.screen.anim_frame), ..v.screen },
            ..v
        }
    } else {
        v
    };
    typewriter_makes_progress(w);
    heard_downloads_keep_the_choice(w.models, input.downloads@, input.downloads@.len());
}

proof fn heard_downloads_keep_the_choice(m: ModelsView, ps: Seq<DownloadProgress>, n: nat)
    ensures
        m.hearing_all(ps, n).whisper_model_selection == m.whisper_model_selection,
    decreases n,
{
    if n > 0 {
        heard_downloads_keep_the_choice(m, ps, (n - 1) as nat);
    }
}

/// Onboarding ends only in its last step, after the user asked for it there.
pub proof fn only_done_completes(v: OnboardingView, anim_tick: bool, input: TickInput)
    ensures
        v.ticking(anim_tick, input).1 == Some(TickResultView::Complete) ==> v.screen.step
            == OnboardingStep::Done && v.screen.transitioning,
{
}

/// Going back from the confirmation keeps the answers that were given.
pub proof fn fixing_keeps_the_answers(v: OnboardingView, key: Key)
    ensures
        v.confirmation_key(key).user.user_name == v.user.user_name,
        v.confirmation_key(key).user.user_role == v.user.user_role,
{
}

/// An OpenAI key is kept for transcription only once it was found valid, and
/// a rejected one is dropped.
pub proof fn only_valid_keys_are_kept(v: OnboardingView, anim_tick: bool, input: TickInput)
    ensures
        v.ticking(anim_tick, input).1 is Some && v.ticking(anim_tick, input).1->0
            is SaveWhisperKey ==> input.whisper_verdict == Some(true),
        v.screen.step == OnboardingStep::WhisperApiKeyValidation && v.access.whisper_validating
            && input.whisper_verdict == Some(false) ==> v.ticking(
            anim_tick,
            input,
        ).0.access.whisper_api_key_input.len() == 0,
{
}

/// The onboarding leaves the slots of the configuration in place.
pub proof fn onboarding_keeps_the_slots(v: OnboardingView, c: ConfigView, key: Key, installed: bool)
    requires
        c.wf(),
    ensures
        v.step_key(c, key, installed).1.wf(),
{
}

} // verus!
