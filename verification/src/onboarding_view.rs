//! The first run as lines of styled text.
use vstd::prelude::*;

use crate::config::{ConfigView, EnrichmentMode, ScribaConfig};
use crate::ollama::{ids_of, option_ids};
use crate::onboarding::{
    all_downloaded, any_failed, ollama_model_of, some_download_failed, whisper_model, AccessView,
    CheckStatus, CheckView, DownloadItem, DownloadItemView, DownloadStatus, DownloadView,
    Onboarding, OnboardingStep, OnboardingView, SystemCheck, SystemCheckView,
};
use crate::style::{
    accent, empty_line, fg, fg_bold, fg_on, footer_left, footer_mark, hinted, justified, justify,
    plain, push_hint, selected_bg, span, Color, Line, Page, SpanView, Style,
};
use crate::text::{
    at_least, at_most, blanks, byte_count, byte_len, cat, cat3, decimal, decimal_of, longest,
    longest_of, monus, pieces, repeat, repeated, spaces, split, take, texts,
};

verus! {

pub const LOGO_ROW_1: &'static str = "\u{2588}\u{2588}\u{2588}\u{2588}\u{2588}\u{2588}\u{2588}\u{2557} \u{2588}\u{2588}\u{2588}\u{2588}\u{2588}\u{2588}\u{2557}\u{2588}\u{2588}\u{2588}\u{2588}\u{2588}\u{2588}\u{2557} \u{2588}\u{2588}\u{2557}\u{2588}\u{2588}\u{2588}\u{2588}\u{2588}\u{2588}\u{2557}  \u{2588}\u{2588}\u{2588}\u{2588}\u{2588}\u{2557} ";

pub const LOGO_ROW_2: &'static str = "\u{2588}\u{2588}\u{2554}\u{2550}\u{2550}\u{2550}\u{2550}\u{255D}\u{2588}\u{2588}\u{2554}\u{2550}\u{2550}\u{2550}\u{2550}\u{255D}\u{2588}\u{2588}\u{2554}\u{2550}\u{2550}\u{2588}\u{2588}\u{2557}\u{2588}\u{2588}\u{2551}\u{2588}\u{2588}\u{2554}\u{2550}\u{2550}\u{2588}\u{2588}\u{2557}\u{2588}\u{2588}\u{2554}\u{2550}\u{2550}\u{2588}\u{2588}\u{2557}";

pub const LOGO_ROW_3: &'static str = "\u{2588}\u{2588}\u{2588}\u{2588}\u{2588}\u{2588}\u{2588}\u{2557}\u{2588}\u{2588}\u{2551}     \u{2588}\u{2588}\u{2588}\u{2588}\u{2588}\u{2588}\u{2554}\u{255D}\u{2588}\u{2588}\u{2551}\u{2588}\u{2588}\u{2588}\u{2588}\u{2588}\u{2588}\u{2554}\u{255D}\u{2588}\u{2588}\u{2588}\u{2588}\u{2588}\u{2588}\u{2588}\u{2551}";

pub const LOGO_ROW_4: &'static str = "\u{255A}\u{2550}\u{2550}\u{2550}\u{2550}\u{2588}\u{2588}\u{2551}\u{2588}\u{2588}\u{2551}     \u{2588}\u{2588}\u{2554}\u{2550}\u{2550}\u{2588}\u{2588}\u{2557}\u{2588}\u{2588}\u{2551}\u{2588}\u{2588}\u{2554}\u{2550}\u{2550}\u{2588}\u{2588}\u{2557}\u{2588}\u{2588}\u{2554}\u{2550}\u{2550}\u{2588}\u{2588}\u{2551}";

pub const LOGO_ROW_5: &'static str = "\u{2588}\u{2588}\u{2588}\u{2588}\u{2588}\u{2588}\u{2588}\u{2551}\u{255A}\u{2588}\u{2588}\u{2588}\u{2588}\u{2588}\u{2588}\u{2557}\u{2588}\u{2588}\u{2551}  \u{2588}\u{2588}\u{2551}\u{2588}\u{2588}\u{2551}\u{2588}\u{2588}\u{2588}\u{2588}\u{2588}\u{2588}\u{2554}\u{255D}\u{2588}\u{2588}\u{2551}  \u{2588}\u{2588}\u{2551}";

pub const LOGO_ROW_6: &'static str = "\u{255A}\u{2550}\u{2550}\u{2550}\u{2550}\u{2550}\u{2550}\u{255D} \u{255A}\u{2550}\u{2550}\u{2550}\u{2550}\u{2550}\u{255D}\u{255A}\u{2550}\u{255D}  \u{255A}\u{2550}\u{255D}\u{255A}\u{2550}\u{255D}\u{255A}\u{2550}\u{2550}\u{2550}\u{2550}\u{2550}\u{255D} \u{255A}\u{2550}\u{255D}  \u{255A}\u{2550}\u{255D}";

/// The width of the logo in columns.
pub const LOGO_WIDTH: u16 = 43;

/// The colour of the logo in a frame of the entrance: blank, then three
/// stages of brightness.
#[verifier::allow_in_spec]
pub fn logo_color(anim_frame: usize) -> Option<Color>
    returns
        (if anim_frame < 6 {
            None
        } else if anim_frame <= 12 {
            Some(Color::Indexed(235))
        } else if anim_frame <= 18 {
            Some(Color::Indexed(237))
        } else {
            Some(Color::Indexed(240))
        }),
{
    if anim_frame < 6 {
        None
    } else if anim_frame <= 12 {
        Some(Color::Indexed(235))
    } else if anim_frame <= 18 {
        Some(Color::Indexed(237))
    } else {
        Some(Color::Indexed(240))
    }
}

/// The logo of the entrance, nothing while it is blank.
pub open spec fn logo_page(anim_frame: usize) -> Seq<Seq<SpanView>> {
    match logo_color(anim_frame) {
        None => Seq::empty(),
        Some(c) => Seq::empty().push(seq![span(LOGO_ROW_1@, fg(c))]).push(
            seq![span(LOGO_ROW_2@, fg(c))],
        ).push(seq![span(LOGO_ROW_3@, fg(c))]).push(seq![span(LOGO_ROW_4@, fg(c))]).push(
            seq![span(LOGO_ROW_5@, fg(c))],
        ).push(seq![span(LOGO_ROW_6@, fg(c))]),
    }
}

/// The logo of the entrance.
pub fn render_logo(anim_frame: usize) -> (r: Page)
    ensures
        r@ == logo_page(anim_frame),
{
    let mut page = Page::new();
    match logo_color(anim_frame) {
        None => {},
        Some(c) => {
            page.line(LOGO_ROW_1, fg(c));
            page.line(LOGO_ROW_2, fg(c));
            page.line(LOGO_ROW_3, fg(c));
            page.line(LOGO_ROW_4, fg(c));
            page.line(LOGO_ROW_5, fg(c));
            page.line(LOGO_ROW_6, fg(c));
        },
    }
    page
}

/// The colour of the text in a frame of the fade-out; blank at its end.
#[verifier::allow_in_spec]
pub fn fade_color(frame: usize) -> Option<Color>
    returns
        (match frame {
            0 => Some(Color::Indexed(252)),
            1 => Some(Color::Indexed(249)),
            2 => Some(Color::Indexed(245)),
            3 => Some(Color::Indexed(242)),
            4 => Some(Color::Indexed(240)),
            5 => Some(Color::Indexed(238)),
            6 => Some(Color::Indexed(237)),
            7 => Some(Color::Indexed(236)),
            8 => Some(Color::Indexed(235)),
            _ => None,
        }),
{
    match frame {
        0 => Some(Color::Indexed(252)),
        1 => Some(Color::Indexed(249)),
        2 => Some(Color::Indexed(245)),
        3 => Some(Color::Indexed(242)),
        4 => Some(Color::Indexed(240)),
        5 => Some(Color::Indexed(238)),
        6 => Some(Color::Indexed(237)),
        7 => Some(Color::Indexed(236)),
        8 => Some(Color::Indexed(235)),
        _ => None,
    }
}

/// The title of a step.
#[verifier::allow_in_spec]
pub fn step_title(step: OnboardingStep) -> &'static str
    returns
        (match step {
            OnboardingStep::Entrance | OnboardingStep::Intro => "Welcome",
            OnboardingStep::ModeSelection => "Setup",
            OnboardingStep::WhisperApiKey | OnboardingStep::WhisperApiKeyValidation => {
                "Setup \u{00B7} Transcription"
            },
            OnboardingStep::ProviderSelection => "Setup \u{00B7} Provider",
            OnboardingStep::ApiKeyEntry | OnboardingStep::ApiKeyValidation => {
                "Setup \u{00B7} API Key"
            },
            OnboardingStep::SystemCheck => "Setup \u{00B7} System Check",
            OnboardingStep::ModelSetup => "Setup \u{00B7} Models",
            OnboardingStep::AskName | OnboardingStep::AskRole => "Setup \u{00B7} About You",
            OnboardingStep::Processing => "Setup \u{00B7} Processing",
            OnboardingStep::Confirmation => "Setup \u{00B7} Confirm",
            OnboardingStep::Done => "Ready",
        }),
{
    match step {
        OnboardingStep::Entrance | OnboardingStep::Intro => "Welcome",
        OnboardingStep::ModeSelection => "Setup",
        OnboardingStep::WhisperApiKey | OnboardingStep::WhisperApiKeyValidation => {
            "Setup \u{00B7} Transcription"
        },
        OnboardingStep::ProviderSelection => "Setup \u{00B7} Provider",
        OnboardingStep::ApiKeyEntry | OnboardingStep::ApiKeyValidation => {
            "Setup \u{00B7} API Key"
        },
        OnboardingStep::SystemCheck => "Setup \u{00B7} System Check",
        OnboardingStep::ModelSetup => "Setup \u{00B7} Models",
        OnboardingStep::AskName | OnboardingStep::AskRole => "Setup \u{00B7} About You",
        OnboardingStep::Processing => "Setup \u{00B7} Processing",
        OnboardingStep::Confirmation => "Setup \u{00B7} Confirm",
        OnboardingStep::Done => "Ready",
    }
}

/// The spinner in a frame.
#[verifier::allow_in_spec]
pub fn spinner(frame: usize) -> &'static str
    returns
        (match frame % 8 {
            0 => "\u{28F7} ",
            1 => "\u{28EF} ",
            2 => "\u{28DF} ",
            3 => "\u{28BF} ",
            4 => "\u{287F} ",
            5 => "\u{28FE} ",
            6 => "\u{28FD} ",
            _ => "\u{28FB} ",
        }),
{
    match frame % 8 {
        0 => "\u{28F7} ",
        1 => "\u{28EF} ",
        2 => "\u{28DF} ",
        3 => "\u{28BF} ",
        4 => "\u{287F} ",
        5 => "\u{28FE} ",
        6 => "\u{28FD} ",
        _ => "\u{28FB} ",
    }
}

/// The lines of a text.
pub open spec fn text_rows(text: Seq<char>) -> Seq<Seq<char>> {
    pieces(text, '\n')
}

/// Each line of a text in `style`.
pub open spec fn text_page(rows: Seq<Seq<char>>, style: Style) -> Seq<Seq<SpanView>> {
    Seq::new(rows.len(), |i: int| seq![span(rows[i], style)])
}

fn push_rows(page: &mut Page, rows: &Vec<String>, style: Style)
    ensures
        final(page)@ == old(page)@ + text_page(texts(rows@), style),
{
    let ghost start = page@;
    let mut i: usize = 0;
    assert(page@ =~= start + text_page(texts(rows@), style).take(0));
    while i < rows.len()
        invariant
            i <= rows@.len(),
            page@ == start + text_page(texts(rows@), style).take(i as int),
        decreases rows.len() - i,
    {
        page.line(rows[i].as_str(), style);
        i += 1;
        assert(page@ =~= start + text_page(texts(rows@), style).take(i as int));
    }
    assert(text_page(texts(rows@), style).take(rows@.len() as int) =~= text_page(
        texts(rows@),
        style,
    ));
}

/// A selectable line, padded by `pad` blanks.
pub open spec fn option_line(label: Seq<char>, pad: nat, chosen: bool) -> Seq<SpanView> {
    if chosen {
        seq![
            span("\u{25B8} "@, fg_on(accent(), selected_bg())),
            span(label + blanks(pad), fg_on(Color::White, selected_bg())),
        ]
    } else {
        seq![span("  "@ + label + blanks(pad), fg(Color::DarkGray))]
    }
}

/// The blanks behind a label in a column of labels of up to `widest`
/// characters under a header of `header` characters.
pub open spec fn label_pad(label: Seq<char>, header: nat, widest: nat) -> nat {
    monus(at_least(header as int, widest as int + 2), label.len() as int + 2)
}

fn push_option(page: &mut Page, label: &str, header: usize, widest: usize, chosen: bool)
    ensures
        final(page)@ == old(page)@.push(
            option_line(label@, label_pad(label@, header as nat, widest as nat), chosen),
        ),
{
    let inner = if header.saturating_sub(2) > widest {
        header.saturating_sub(2)
    } else {
        widest
    };
    let pad = spaces(inner.saturating_sub(label.unicode_len()));
    if chosen {
        page.line2(
            "\u{25B8} ",
            fg_on(accent(), selected_bg()),
            cat(label, pad.as_str()).as_str(),
            fg_on(Color::White, selected_bg()),
        );
    } else {
        page.line(cat3("  ", label, pad.as_str()).as_str(), fg(Color::DarkGray));
    }
}

/// The line under a selectable title.
pub open spec fn description_line(text: Seq<char>, pad: nat, chosen: bool) -> Seq<SpanView> {
    seq![
        span(
            "  "@ + text + blanks(pad),
            if chosen {
                fg_on(Color::Indexed(245), selected_bg())
            } else {
                fg(Color::DarkGray)
            },
        ),
    ]
}

fn push_description(page: &mut Page, text: &str, header: usize, widest: usize, chosen: bool)
    ensures
        final(page)@ == old(page)@.push(
            description_line(text@, label_pad(text@, header as nat, widest as nat), chosen),
        ),
{
    let inner = if header.saturating_sub(2) > widest {
        header.saturating_sub(2)
    } else {
        widest
    };
    let pad = spaces(inner.saturating_sub(text.unicode_len()));
    page.line(
        cat3("  ", text, pad.as_str()).as_str(),
        if chosen {
            fg_on(Color::Indexed(245), selected_bg())
        } else {
            fg(Color::DarkGray)
        },
    );
}

pub const PRIVATE_TITLE: &'static str = "Private (Local)";

pub const PRIVATE_NOTE: &'static str = "Whisper + Ollama on your machine. No data leaves your computer.";

pub const CLOUD_TITLE: &'static str = "Cloud";

pub const CLOUD_NOTE: &'static str = "Whisper API + Anthropic/OpenAI/Google. Best quality. Needs an API key.";

pub open spec fn widest_of4(a: Seq<char>, b: Seq<char>, c: Seq<char>, d: Seq<char>) -> nat {
    at_least(
        at_least(a.len() as int, b.len() as int),
        at_least(c.len() as int, d.len() as int),
    ) as nat
}

fn widest4(a: &str, b: &str, c: &str, d: &str) -> (r: usize)
    ensures
        r == widest_of4(a@, b@, c@, d@),
{
    let mut r = a.unicode_len();
    if b.unicode_len() > r {
        r = b.unicode_len();
    }
    if c.unicode_len() > r {
        r = c.unicode_len();
    }
    if d.unicode_len() > r {
        r = d.unicode_len();
    }
    r
}

/// A block of two lines: title and description.
pub open spec fn block(
    page: Seq<Seq<SpanView>>,
    title: Seq<char>,
    note: Seq<char>,
    header: nat,
    widest: nat,
    chosen: bool,
) -> Seq<Seq<SpanView>> {
    page.push(option_line(title, label_pad(title, header, widest), chosen)).push(
        description_line(note, label_pad(note, header, widest), chosen),
    )
}

fn push_block(page: &mut Page, title: &str, note: &str, header: usize, widest: usize, chosen: bool)
    ensures
        final(page)@ == block(
            old(page)@,
            title@,
            note@,
            header as nat,
            widest as nat,
            chosen,
        ),
{
    push_option(page, title, header, widest, chosen);
    push_description(page, note, header, widest, chosen);
}

/// The choice between the private and the cloud setup.
pub open spec fn mode_page(v: OnboardingView, rows: Seq<Seq<char>>) -> Seq<Seq<SpanView>> {
    let header = longest(rows);
    let widest = widest_of4(PRIVATE_TITLE@, PRIVATE_NOTE@, CLOUD_TITLE@, CLOUD_NOTE@);
    block(
        block(
            text_page(rows, fg(Color::White)).push(empty_line()),
            PRIVATE_TITLE@,
            PRIVATE_NOTE@,
            header,
            widest,
            v.access.selected_mode == 0,
        ).push(empty_line()),
        CLOUD_TITLE@,
        CLOUD_NOTE@,
        header,
        widest,
        v.access.selected_mode == 1,
    )
}

pub const ANTHROPIC_TITLE: &'static str = "Anthropic";

pub const ANTHROPIC_NOTE: &'static str = "Best for nuanced understanding";

pub const OPENAI_TITLE: &'static str = "OpenAI (GPT)";

pub const OPENAI_NOTE: &'static str = "Widely used, reliable";

pub const GOOGLE_TITLE: &'static str = "Google (Gemini)";

pub const GOOGLE_NOTE: &'static str = "Fast and cost-effective";

/// The widest text of the provider choice.
pub open spec fn providers_width() -> nat {
    at_least(
        widest_of4(ANTHROPIC_TITLE@, ANTHROPIC_NOTE@, OPENAI_TITLE@, OPENAI_NOTE@) as int,
        at_least(GOOGLE_TITLE@.len() as int, GOOGLE_NOTE@.len() as int),
    ) as nat
}

/// The choice of a provider.
pub open spec fn provider_page(v: OnboardingView, rows: Seq<Seq<char>>) -> Seq<Seq<SpanView>> {
    let header = longest(rows);
    let widest = providers_width();
    block(
        block(
            block(
                text_page(rows, fg(Color::White)).push(empty_line()),
                ANTHROPIC_TITLE@,
                ANTHROPIC_NOTE@,
                header,
                widest,
                v.access.selected_provider == 0,
            ).push(empty_line()),
            OPENAI_TITLE@,
            OPENAI_NOTE@,
            header,
            widest,
            v.access.selected_provider == 1,
        ).push(empty_line()),
        GOOGLE_TITLE@,
        GOOGLE_NOTE@,
        header,
        widest,
        v.access.selected_provider == 2,
    )
}

/// A choice of two lines.
pub open spec fn two_options(
    page: Seq<Seq<SpanView>>,
    first: Seq<char>,
    second: Seq<char>,
    header: nat,
    widest: nat,
    chosen: usize,
) -> Seq<Seq<SpanView>> {
    page.push(option_line(first, label_pad(first, header, widest), chosen == 0)).push(
        option_line(second, label_pad(second, header, widest), chosen == 1),
    )
}

fn push_two(
    page: &mut Page,
    first: &str,
    second: &str,
    header: usize,
    widest: usize,
    chosen: usize,
)
    ensures
        final(page)@ == two_options(
            old(page)@,
            first@,
            second@,
            header as nat,
            widest as nat,
            chosen,
        ),
{
    push_option(page, first, header, widest, chosen == 0);
    push_option(page, second, header, widest, chosen == 1);
}

pub open spec fn wider(a: Seq<char>, b: Seq<char>) -> nat {
    at_least(a.len() as int, b.len() as int) as nat
}

fn wider_of(a: &str, b: &str) -> (r: usize)
    ensures
        r == wider(a@, b@),
{
    if a.unicode_len() > b.unicode_len() {
        a.unicode_len()
    } else {
        b.unicode_len()
    }
}

/// A check of the machine with its icon; the hint of a failed one under it.
pub open spec fn check_lines(c: SystemCheckView, header: nat, frame: usize) -> Seq<Seq<SpanView>> {
    let (icon, style) = match c.status {
        CheckView::Pending => ("  "@, fg(Color::DarkGray)),
        CheckView::Running => (spinner(frame)@, fg(accent())),
        CheckView::Passed => ("\u{2713} "@, fg(Color::Green)),
        CheckView::Failed(_) => ("\u{2717} "@, fg(Color::Red)),
    };
    let line = Seq::empty().push(
        seq![
            span(icon, style),
            span(
                c.name@ + blanks(monus(header as int, c.name@.len() as int + 2)),
                fg(Color::White),
            ),
        ],
    );
    match c.status {
        CheckView::Failed(hint) => if hint.len() > 0 {
            line + indented(text_rows(hint))
        } else {
            line
        },
        _ => line,
    }
}

/// The lines of a hint, indented.
pub open spec fn indented(rows: Seq<Seq<char>>) -> Seq<Seq<SpanView>> {
    Seq::new(rows.len(), |i: int| seq![span("  "@ + rows[i], fg(Color::Indexed(245)))])
}

/// The first `n` checks.
pub open spec fn checks_below(cs: Seq<SystemCheckView>, header: nat, frame: usize, n: nat) -> Seq<
    Seq<SpanView>,
>
    decreases n,
{
    if n == 0 {
        Seq::empty()
    } else {
        checks_below(cs, header, frame, (n - 1) as nat) + check_lines(cs[n - 1], header, frame)
    }
}

pub const CHECK_AGAIN: &'static str = "Check again";

pub const CONTINUE_ANYWAY: &'static str = "Continue anyway";

/// The checks of the machine.
pub open spec fn checks_page(v: OnboardingView, rows: Seq<Seq<char>>) -> Seq<Seq<SpanView>> {
    let header = longest(rows);
    let checks = v.machine.system_checks;
    let listed = text_page(rows, fg(Color::White)).push(empty_line()) + checks_below(
        checks,
        header,
        v.screen.anim_frame,
        checks.len(),
    );
    if v.machine.system_check_done && any_failed(checks) {
        two_options(
            listed.push(empty_line()),
            CHECK_AGAIN@,
            CONTINUE_ANYWAY@,
            header,
            wider(CHECK_AGAIN@, CONTINUE_ANYWAY@),
            v.machine.system_check_selection,
        )
    } else {
        listed
    }
}

fn push_check(page: &mut Page, c: &SystemCheck, header: usize, frame: usize)
    ensures
        final(page)@ == old(page)@ + check_lines(c@, header as nat, frame),
{
    let ghost start = page@;
    let (icon, style) = match &c.status {
        CheckStatus::Pending => ("  ", fg(Color::DarkGray)),
        CheckStatus::Running => (spinner(frame), fg(accent())),
        CheckStatus::Passed => ("\u{2713} ", fg(Color::Green)),
        CheckStatus::Failed(_) => ("\u{2717} ", fg(Color::Red)),
    };
    let pad = spaces(header.saturating_sub(c.name.unicode_len()).saturating_sub(2));
    page.line2(icon, style, cat(c.name, pad.as_str()).as_str(), fg(Color::White));
    let ghost lead = page@;
    assert(lead =~= start + Seq::empty().push(lead.last()));
    match &c.status {
        CheckStatus::Failed(hint) => {
            if hint.as_str().unicode_len() > 0 {
                let rows = split(hint.as_str(), '\n');
                let mut i: usize = 0;
                assert(page@ =~= lead + indented(texts(rows@)).take(0));
                while i < rows.len()
                    invariant
                        i <= rows@.len(),
                        page@ == lead + indented(texts(rows@)).take(i as int),
                    decreases rows.len() - i,
                {
                    page.line(cat("  ", rows[i].as_str()).as_str(), fg(Color::Indexed(245)));
                    i += 1;
                    assert(page@ =~= lead + indented(texts(rows@)).take(i as int));
                }
                assert(indented(texts(rows@)).take(rows@.len() as int) =~= indented(texts(rows@)));
                assert(page@ =~= start + check_lines(c@, header as nat, frame));
            }
        },
        _ => {},
    }
}

/// The name of a Whisper model in the list of the first run.
#[verifier::allow_in_spec]
pub fn whisper_name(i: usize) -> &'static str
    returns
        (if i == 0 {
            "Turbo (Recommended)"
        } else if i == 1 {
            "Large"
        } else if i == 2 {
            "Medium"
        } else {
            "Small"
        }),
{
    if i == 0 {
        "Turbo (Recommended)"
    } else if i == 1 {
        "Large"
    } else if i == 2 {
        "Medium"
    } else {
        "Small"
    }
}

/// The size of a Whisper model in the list of the first run.
#[verifier::allow_in_spec]
pub fn whisper_size(i: usize) -> &'static str
    returns
        (if i == 0 {
            "~1.4 GB"
        } else if i == 1 {
            "~2.9 GB"
        } else if i == 2 {
            "~1.5 GB"
        } else {
            "~466 MB"
        }),
{
    if i == 0 {
        "~1.4 GB"
    } else if i == 1 {
        "~2.9 GB"
    } else if i == 2 {
        "~1.5 GB"
    } else {
        "~466 MB"
    }
}

/// A model with its name at the left and its size at the right of a column
/// that is wide enough for every model and for the header.
pub open spec fn whisper_line(i: usize, header: nat, chosen: bool) -> Seq<SpanView> {
    let gap = monus(
        at_least(header as int, 30),
        whisper_name(i)@.len() as int + whisper_size(i)@.len() as int,
    );
    option_line(whisper_name(i)@ + blanks(gap) + whisper_size(i)@, 0, chosen)
}

fn push_whisper(page: &mut Page, i: usize, header: usize, chosen: bool)
    ensures
        final(page)@ == old(page)@.push(whisper_line(i, header as nat, chosen)),
{
    let block = if header > 30 {
        header
    } else {
        30
    };
    let gap = block.saturating_sub(whisper_name(i).unicode_len()).saturating_sub(
        whisper_size(i).unicode_len(),
    );
    let label = cat3(whisper_name(i), spaces(gap).as_str(), whisper_size(i));
    assert(label@ + blanks(0) =~= label@);
    if chosen {
        page.line2(
            "\u{25B8} ",
            fg_on(accent(), selected_bg()),
            label.as_str(),
            fg_on(Color::White, selected_bg()),
        );
    } else {
        assert("  "@ + label@ + blanks(0) =~= "  "@ + label@);
        page.line(cat("  ", label.as_str()).as_str(), fg(Color::DarkGray));
    }
}

/// Every model fits its column with room between name and size.
pub proof fn whisper_models_fit(i: usize)
    ensures
        whisper_name(i)@.len() + whisper_size(i)@.len() + 4 <= 30,
{
    reveal_strlit("Turbo (Recommended)");
    reveal_strlit("Large");
    reveal_strlit("Medium");
    reveal_strlit("Small");
    reveal_strlit("~1.4 GB");
    reveal_strlit("~2.9 GB");
    reveal_strlit("~1.5 GB");
    reveal_strlit("~466 MB");
}

/// The choice of a Whisper model.
pub open spec fn whisper_page(v: OnboardingView, rows: Seq<Seq<char>>) -> Seq<Seq<SpanView>> {
    let header = longest(rows);
    let at = v.models.whisper_model_selection;
    text_page(rows, fg(Color::White)).push(empty_line()).push(
        whisper_line(0, header, at == 0),
    ).push(whisper_line(1, header, at == 1)).push(whisper_line(2, header, at == 2)).push(
        whisper_line(3, header, at == 3),
    )
}

/// The first `n` Ollama models.
pub open spec fn models_below(
    models: Seq<Seq<char>>,
    selection: int,
    header: nat,
    n: nat,
) -> Seq<Seq<SpanView>>
    decreases n,
{
    if n == 0 {
        Seq::empty()
    } else {
        models_below(models, selection, header, (n - 1) as nat).push(
            option_line(
                models[n - 1],
                label_pad(models[n - 1], header, longest(models)),
                n - 1 == selection,
            ),
        )
    }
}

/// The choice of an Ollama model, a spinner while the list is awaited.
pub open spec fn ollama_page(v: OnboardingView, rows: Seq<Seq<char>>) -> Seq<Seq<SpanView>> {
    let models = option_ids(v.models.ollama_available_models);
    let top = text_page(rows, fg(Color::White)).push(empty_line());
    if models.len() == 0 {
        top.push(
            seq![
                span(spinner(v.screen.anim_frame)@, fg(accent())),
                span("Loading models..."@, fg(Color::DarkGray)),
            ],
        )
    } else {
        top + models_below(models, v.models.ollama_model_selection, longest(rows), models.len())
    }
}

/// A line of the download overview: label, value, and blanks up to the block.
pub open spec fn overview_line(label: Seq<char>, value: Seq<char>, width: int) -> Seq<SpanView> {
    seq![
        span(label, fg(Color::DarkGray)),
        span(
            value + blanks(monus(width, 18 + byte_len(value) as int)),
            fg(Color::White),
        ),
    ]
}

pub const TRANSCRIPTION_LABEL: &'static str = "  Transcription   ";

pub const ENRICHMENT_LABEL: &'static str = "  Enrichment      ";

/// The models that are about to be downloaded.
pub open spec fn overview_page(v: OnboardingView, c: ConfigView, rows: Seq<Seq<char>>) -> Seq<
    Seq<SpanView>,
> {
    let whisper = whisper_model(v.models.whisper_model_selection as usize).display_name()@;
    let model = ollama_model_of(c);
    let base = at_least(longest(rows) as int, 18 + byte_len(whisper) as int);
    let width = if v.machine.ollama_reachable {
        at_least(base, 18 + byte_len(model) as int)
    } else {
        base
    };
    let top = text_page(rows, fg(Color::White)).push(empty_line()).push(
        overview_line(TRANSCRIPTION_LABEL@, whisper, width),
    );
    let listed = if v.machine.ollama_reachable {
        top.push(overview_line(ENRICHMENT_LABEL@, model, width))
    } else {
        top
    };
    two_options(
        listed.push(empty_line()),
        "Download now"@,
        "Skip for now"@,
        width as nat,
        0,
        v.machine.system_check_selection,
    )
}

/// A download with its icon.
pub open spec fn download_line(item: DownloadItemView, frame: usize) -> Seq<SpanView> {
    seq![
        download_icon(item.status, frame),
        span(item.name, fg(Color::White)),
        span(download_detail(item.status), fg(Color::Indexed(245))),
    ]
}

pub open spec fn download_icon(status: DownloadView, frame: usize) -> SpanView {
    match status {
        DownloadView::Pending => span("  "@, fg(Color::DarkGray)),
        DownloadView::InProgress(_) => span(spinner(frame)@, fg(accent())),
        DownloadView::Done => span("\u{2713} "@, fg(Color::Green)),
        DownloadView::Failed(_) => span("\u{2717} "@, fg(Color::Red)),
    }
}

pub open spec fn download_detail(status: DownloadView) -> Seq<char> {
    match status {
        DownloadView::InProgress(pct) => " "@ + decimal(pct as nat) + "%"@,
        DownloadView::Failed(msg) => " \u{2014} "@ + msg,
        _ => ""@,
    }
}

fn push_download(page: &mut Page, item: &DownloadItem, frame: usize)
    ensures
        final(page)@ == old(page)@.push(download_line(item@, frame)),
{
    let (icon, style) = match &item.status {
        DownloadStatus::Pending => ("  ", fg(Color::DarkGray)),
        DownloadStatus::InProgress(_) => (spinner(frame), fg(accent())),
        DownloadStatus::Done => ("\u{2713} ", fg(Color::Green)),
        DownloadStatus::Failed(_) => ("\u{2717} ", fg(Color::Red)),
    };
    let detail = match &item.status {
        DownloadStatus::InProgress(pct) => cat3(" ", decimal_of(*pct as u64).as_str(), "%"),
        DownloadStatus::Failed(msg) => cat(" \u{2014} ", msg.as_str()),
        _ => "".to_owned(),
    };
    assert(detail@ == download_detail(item.status@));
    assert(span(icon@, style) == download_icon(item.status@, frame));
    page.line3(
        icon,
        style,
        item.name.as_str(),
        fg(Color::White),
        detail.as_str(),
        fg(Color::Indexed(245)),
    );
}

/// The downloads as they go on.
pub open spec fn downloads_page(v: OnboardingView, rows: Seq<Seq<char>>) -> Seq<Seq<SpanView>> {
    let items = v.models.download_items;
    let listed = text_page(rows, fg(Color::White)).push(empty_line()) + Seq::new(
        items.len(),
        |i: int| download_line(items[i], v.screen.anim_frame),
    );
    if all_downloaded(items) || some_download_failed(items) {
        listed.push(empty_line()).push(
            seq![
                span(
                    "  [Enter] "@ + (if all_downloaded(items) {
                        "Continue"@
                    } else {
                        "Continue anyway"@
                    }),
                    fg(Color::DarkGray),
                ),
            ],
        )
    } else {
        listed
    }
}

pub const TRY_ANOTHER: &'static str = "Try a different key";

pub const SKIP_KEY: &'static str = "Skip for now (set it later)";

/// The choice after a rejected key.
pub open spec fn rejected_page(v: OnboardingView, rows: Seq<Seq<char>>) -> Seq<Seq<SpanView>> {
    two_options(
        text_page(rows, fg(Color::White)).push(empty_line()),
        TRY_ANOTHER@,
        SKIP_KEY@,
        longest(rows),
        wider(TRY_ANOTHER@, SKIP_KEY@),
        v.access.validation_fail_selection,
    )
}

pub open spec fn labeled(label: Seq<char>, value: Seq<char>) -> Seq<SpanView> {
    seq![span(label, fg_bold(Color::DarkGray)), span(value, fg(Color::White))]
}

pub const LOOKS_GOOD: &'static str = "Looks good";

pub const LET_ME_FIX: &'static str = "Let me fix that";

/// What Scriba understood, for the user to confirm.
pub open spec fn confirm_page(v: OnboardingView, rows: Seq<Seq<char>>) -> Seq<Seq<SpanView>> {
    two_options(
        text_page(rows, fg(Color::White)).push(empty_line()).push(
            labeled("  Name   "@, v.user.confirm_owner),
        ).push(labeled("  Role   "@, v.user.confirm_role)).push(
            labeled("  Org    "@, v.user.confirm_org),
        ).push(labeled("  Known  "@, v.user.confirm_people)).push(empty_line()),
        LOOKS_GOOD@,
        LET_ME_FIX@,
        longest(rows),
        wider(LOOKS_GOOD@, LET_ME_FIX@),
        v.user.confirm_selection,
    )
}

/// A line of plain text in the other steps: with a spinner while something is
/// awaited, with a tick in the last step.
pub open spec fn plain_row(v: OnboardingView, row: Seq<char>) -> Seq<SpanView> {
    let step = v.screen.step;
    if (step == OnboardingStep::Processing && v.user.processing) || (step
        == OnboardingStep::ApiKeyValidation && v.access.validating) || (step
        == OnboardingStep::WhisperApiKeyValidation && v.access.whisper_validating) {
        seq![
            span(spinner(v.screen.anim_frame)@, fg(accent())),
            span(row, fg(Color::White)),
        ]
    } else if step == OnboardingStep::Done {
        if row.len() == 0 {
            empty_line()
        } else {
            seq![span("\u{2713} "@, fg(accent())), span(row, fg(Color::White))]
        }
    } else {
        seq![span(row, fg(Color::White))]
    }
}

/// A key as it is shown while it is typed: the first four characters, then a
/// star for every further byte.
pub open spec fn starred(key: Seq<char>) -> Seq<char> {
    if key.len() == 0 {
        key
    } else {
        key.take(at_most(4, key.len() as int)) + repeated('*', monus(byte_len(key) as int, 4))
    }
}

/// What the input line of a step shows.
pub open spec fn shown_input(v: OnboardingView) -> Option<Seq<char>> {
    match v.screen.step {
        OnboardingStep::WhisperApiKey => Some(starred(v.access.whisper_api_key_input)),
        OnboardingStep::ApiKeyEntry => Some(starred(v.access.api_key_input)),
        OnboardingStep::AskName => Some(v.user.user_name),
        OnboardingStep::AskRole => Some(v.user.user_role),
        _ => None,
    }
}

/// The end of a text that fits into `max` characters.
pub open spec fn tail_of(s: Seq<char>, max: int) -> Seq<char> {
    if s.len() > max {
        s.subrange(s.len() - max, s.len() as int)
    } else {
        s
    }
}

/// The steps that show text and perhaps an input line.
pub open spec fn plain_page(v: OnboardingView, rows: Seq<Seq<char>>) -> Seq<Seq<SpanView>> {
    let listed = Seq::new(rows.len(), |i: int| plain_row(v, rows[i]));
    match shown_input(v) {
        Some(input) => if v.screen.text_complete {
            listed.push(empty_line()).push(
                seq![
                    span("\u{25B8} "@, fg(accent())),
                    span(
                        tail_of(input, monus(longest(rows) as int, 3) as int) + "_"@,
                        fg_bold(accent()),
                    ),
                ],
            )
        } else {
            listed
        },
        None => listed,
    }
}

/// The body of a step.
pub open spec fn body_page(v: OnboardingView, c: ConfigView) -> Seq<Seq<SpanView>> {
    let rows = text_rows(v.visible_text());
    match v.screen.step {
        OnboardingStep::ModeSelection => mode_page(v, rows),
        OnboardingStep::ProviderSelection => provider_page(v, rows),
        OnboardingStep::SystemCheck => checks_page(v, rows),
        OnboardingStep::ModelSetup => if v.models.setup_phase == 0 {
            whisper_page(v, rows)
        } else if v.models.setup_phase == 1 {
            ollama_page(v, rows)
        } else if v.models.setup_phase == 2 {
            overview_page(v, c, rows)
        } else if v.models.setup_phase == 3 {
            downloads_page(v, rows)
        } else {
            text_page(rows, fg(Color::White)).push(empty_line())
        },
        OnboardingStep::ApiKeyValidation => if v.access.api_key_valid == Some(false) {
            rejected_page(v, rows)
        } else {
            plain_page(v, rows)
        },
        OnboardingStep::Confirmation => confirm_page(v, rows),
        _ => plain_page(v, rows),
    }
}

/// The cloud setup has one step more than the private one.
pub open spec fn on_cloud_path(step: OnboardingStep, c: ConfigView) -> bool {
    step == OnboardingStep::WhisperApiKey || step == OnboardingStep::ProviderSelection || step
        == OnboardingStep::ApiKeyEntry || step == OnboardingStep::ApiKeyValidation || c.mode
        is Cloud
}

/// The position of a step on its path.
#[verifier::allow_in_spec]
pub fn step_position(step: OnboardingStep, cloud: bool) -> usize
    returns
        (match step {
            OnboardingStep::Entrance | OnboardingStep::Intro => 0usize,
            OnboardingStep::ModeSelection => 1usize,
            OnboardingStep::WhisperApiKey | OnboardingStep::WhisperApiKeyValidation => if cloud {
                2usize
            } else {
                0usize
            },
            OnboardingStep::ProviderSelection => if cloud {
                3usize
            } else {
                0usize
            },
            OnboardingStep::ApiKeyEntry | OnboardingStep::ApiKeyValidation => if cloud {
                4usize
            } else {
                0usize
            },
            OnboardingStep::SystemCheck => if cloud {
                0usize
            } else {
                2usize
            },
            OnboardingStep::ModelSetup => if cloud {
                0usize
            } else {
                3usize
            },
            OnboardingStep::AskName => if cloud {
                5usize
            } else {
                4usize
            },
            OnboardingStep::AskRole => if cloud {
                6usize
            } else {
                5usize
            },
            OnboardingStep::Processing => if cloud {
                7usize
            } else {
                6usize
            },
            OnboardingStep::Confirmation => if cloud {
                8usize
            } else {
                7usize
            },
            OnboardingStep::Done => if cloud {
                9usize
            } else {
                8usize
            },
        }),
{
    match step {
        OnboardingStep::Entrance | OnboardingStep::Intro => 0,
        OnboardingStep::ModeSelection => 1,
        OnboardingStep::WhisperApiKey | OnboardingStep::WhisperApiKeyValidation => if cloud {
            2
        } else {
            0
        },
        OnboardingStep::ProviderSelection => if cloud {
            3
        } else {
            0
        },
        OnboardingStep::ApiKeyEntry | OnboardingStep::ApiKeyValidation => if cloud {
            4
        } else {
            0
        },
        OnboardingStep::SystemCheck => if cloud {
            0
        } else {
            2
        },
        OnboardingStep::ModelSetup => if cloud {
            0
        } else {
            3
        },
        OnboardingStep::AskName => if cloud {
            5
        } else {
            4
        },
        OnboardingStep::AskRole => if cloud {
            6
        } else {
            5
        },
        OnboardingStep::Processing => if cloud {
            7
        } else {
            6
        },
        OnboardingStep::Confirmation => if cloud {
            8
        } else {
            7
        },
        OnboardingStep::Done => if cloud {
            9
        } else {
            8
        },
    }
}

/// One dot: the current step in the accent colour, those behind it dimmed.
pub open spec fn dot(i: int, current: int) -> SpanView {
    if i == current {
        span(" \u{25CF} "@, fg(accent()))
    } else if i < current {
        span(" \u{25CF} "@, fg(Color::DarkGray))
    } else {
        span(" \u{25CB} "@, fg(Color::Indexed(237)))
    }
}

/// One dot per step.
pub open spec fn dots_line(step: OnboardingStep, c: ConfigView) -> Seq<SpanView> {
    let cloud = on_cloud_path(step, c);
    Seq::new(
        if cloud {
            10
        } else {
            9
        },
        |i: int| dot(i, step_position(step, cloud) as int),
    )
}

pub const SELECT_HINT: &'static str = "[Up/Down] Select  [Enter] Confirm";

/// The key hint of a step.
pub open spec fn step_hint(v: OnboardingView) -> &'static str {
    match v.screen.step {
        OnboardingStep::Intro | OnboardingStep::AskName | OnboardingStep::AskRole => {
            "[Enter] Continue"
        },
        OnboardingStep::ModeSelection | OnboardingStep::ProviderSelection
        | OnboardingStep::Confirmation => SELECT_HINT,
        OnboardingStep::WhisperApiKey | OnboardingStep::ApiKeyEntry => "[Enter] Validate",
        OnboardingStep::WhisperApiKeyValidation => if v.access.whisper_validating {
            "Validating..."
        } else {
            ""
        },
        OnboardingStep::ApiKeyValidation => if v.access.validating {
            "Validating..."
        } else if v.access.api_key_valid == Some(false) {
            SELECT_HINT
        } else {
            ""
        },
        OnboardingStep::SystemCheck => if v.machine.system_check_done {
            SELECT_HINT
        } else {
            "Checking..."
        },
        OnboardingStep::ModelSetup => if v.models.setup_phase <= 2 {
            SELECT_HINT
        } else if v.models.setup_phase == 3 {
            if v.downloads_settled() {
                "[Enter] Continue"
            } else {
                "Downloading..."
            }
        } else {
            ""
        },
        OnboardingStep::Processing => if !v.user.processing && !v.user.ollama_available {
            "[Enter] Continue"
        } else {
            ""
        },
        OnboardingStep::Done => if v.screen.text_complete && !v.screen.transitioning {
            "[Enter] Let's go"
        } else {
            ""
        },
        OnboardingStep::Entrance => "",
    }
}

/// The right part of the footer.
pub open spec fn onboarding_hints(v: OnboardingView) -> Seq<SpanView> {
    let start = if v.screen.step == OnboardingStep::Done {
        empty_line()
    } else {
        hinted(empty_line(), "Esc"@, "] Quit"@)
    };
    let hint = step_hint(v)@;
    (if hint.len() > 0 {
        start.push(span("  "@, plain())).push(span(hint, fg(Color::DarkGray)))
    } else {
        start
    }).push(span(" "@, plain()))
}

/// The last step's text while it fades.
pub open spec fn fade_page(v: OnboardingView) -> Seq<Seq<SpanView>> {
    match fade_color(v.screen.transition_frame as usize) {
        None => Seq::empty(),
        Some(c) => {
            let rows = text_rows(v.visible_text());
            Seq::new(
                rows.len(),
                |i: int|
                    if v.screen.step == OnboardingStep::Done {
                        seq![span("\u{2713} "@, fg(c)), span(rows[i], fg(c))]
                    } else {
                        seq![span(rows[i], fg(c))]
                    },
            )
        },
    }
}

fn star(key: &str) -> (r: String)
    ensures
        r@ == starred(key@),
{
    if key.unicode_len() == 0 {
        return key.to_owned();
    }
    cat(take(key, 4), repeat('*', byte_count(key).saturating_sub(4)).as_str())
}

fn tail<'a>(s: &'a str, max: usize) -> (r: &'a str)
    ensures
        r@ == tail_of(s@, max as int),
{
    let n = s.unicode_len();
    if n > max {
        s.substring_char(n - max, n)
    } else {
        s
    }
}

/// What of the first run is drawn.
#[derive(Clone, Copy, Debug, PartialEq, Eq, Structural)]
pub enum Face {
    /// The last page, fading out.
    Fade,
    Logo,
    Page,
}

impl Onboarding {
    /// What is drawn: the fade at the end, the logo at the entrance, and a page
    /// everywhere else.
    pub fn face(&self) -> (r: Face)
        ensures
            r == (if self@.screen.transitioning {
                Face::Fade
            } else if self@.screen.step == OnboardingStep::Entrance {
                Face::Logo
            } else {
                Face::Page
            }),
    {
        if self.screen.transitioning {
            return Face::Fade;
        }
        match self.screen.step {
            OnboardingStep::Entrance => Face::Logo,
            _ => Face::Page,
        }
    }
}

impl Onboarding {
    /// The header line.
    pub fn render_header(&self) -> (r: Line)
        ensures
            r@ == seq![
                span("  "@, plain()),
                span(step_title(self@.screen.step)@, fg_bold(Color::White)),
            ],
    {
        let mut l = Line::of("  ", plain());
        l.push(step_title(self.screen.step), fg_bold(Color::White));
        assert(l@ =~= seq![
            span("  "@, plain()),
            span(step_title(self@.screen.step)@, fg_bold(Color::White)),
        ]);
        l
    }

    fn rows(&self) -> (r: Vec<String>)
        ensures
            texts(r@) == text_rows(self@.visible_text()),
    {
        split(self.visible_text(), '\n')
    }

    fn top(&self, rows: &Vec<String>) -> (r: Page)
        ensures
            r@ == text_page(texts(rows@), fg(Color::White)).push(empty_line()),
    {
        let mut page = Page::new();
        push_rows(&mut page, rows, fg(Color::White));
        assert(page@ =~= text_page(texts(rows@), fg(Color::White)));
        page.blank();
        page
    }

    fn render_modes(&self, rows: &Vec<String>) -> (r: Page)
        ensures
            r@ == mode_page(self@, texts(rows@)),
    {
        let mut page = self.top(rows);
        let header = longest_of(rows);
        let widest = widest4(PRIVATE_TITLE, PRIVATE_NOTE, CLOUD_TITLE, CLOUD_NOTE);
        let at = self.access.selected_mode;
        push_block(&mut page, PRIVATE_TITLE, PRIVATE_NOTE, header, widest, at == 0);
        page.blank();
        push_block(&mut page, CLOUD_TITLE, CLOUD_NOTE, header, widest, at == 1);
        page
    }

    fn render_providers(&self, rows: &Vec<String>) -> (r: Page)
        ensures
            r@ == provider_page(self@, texts(rows@)),
    {
        let mut page = self.top(rows);
        let header = longest_of(rows);
        let four = widest4(ANTHROPIC_TITLE, ANTHROPIC_NOTE, OPENAI_TITLE, OPENAI_NOTE);
        let google = wider_of(GOOGLE_TITLE, GOOGLE_NOTE);
        let widest = if four > google {
            four
        } else {
            google
        };
        let at = self.access.selected_provider;
        push_block(&mut page, ANTHROPIC_TITLE, ANTHROPIC_NOTE, header, widest, at == 0);
        page.blank();
        push_block(&mut page, OPENAI_TITLE, OPENAI_NOTE, header, widest, at == 1);
        page.blank();
        push_block(&mut page, GOOGLE_TITLE, GOOGLE_NOTE, header, widest, at == 2);
        page
    }

    fn render_checks(&self, rows: &Vec<String>) -> (r: Page)
        ensures
            r@ == checks_page(self@, texts(rows@)),
    {
        let mut page = self.top(rows);
        let header = longest_of(rows);
        let ghost top = page@;
        let ghost checks = self@.machine.system_checks;
        let frame = self.screen.anim_frame;
        let mut i: usize = 0;
        assert(page@ =~= top + checks_below(checks, header as nat, frame, 0));
        while i < self.machine.system_checks.len()
            invariant
                i <= self.machine.system_checks@.len(),
                checks == self@.machine.system_checks,
                page@ == top + checks_below(checks, header as nat, frame, i as nat),
            decreases self.machine.system_checks.len() - i,
        {
            assert(checks[i as int] == self.machine.system_checks@[i as int]@);
            push_check(&mut page, &self.machine.system_checks[i], header, frame);
            i += 1;
            assert(page@ =~= top + checks_below(checks, header as nat, frame, i as nat));
        }
        if self.machine.system_check_done && self.any_check_failed() {
            page.blank();
            push_two(
                &mut page,
                CHECK_AGAIN,
                CONTINUE_ANYWAY,
                header,
                wider_of(CHECK_AGAIN, CONTINUE_ANYWAY),
                self.machine.system_check_selection,
            );
        }
        page
    }

    fn render_whisper_models(&self, rows: &Vec<String>) -> (r: Page)
        ensures
            r@ == whisper_page(self@, texts(rows@)),
    {
        let mut page = self.top(rows);
        let header = longest_of(rows);
        let at = self.models.whisper_model_selection;
        push_whisper(&mut page, 0, header, at == 0);
        push_whisper(&mut page, 1, header, at == 1);
        push_whisper(&mut page, 2, header, at == 2);
        push_whisper(&mut page, 3, header, at == 3);
        page
    }

    fn render_ollama_models(&self, rows: &Vec<String>) -> (r: Page)
        ensures
            r@ == ollama_page(self@, texts(rows@)),
    {
        let mut page = self.top(rows);
        let ghost top = page@;
        let names = ids_of(&self.models.ollama_available_models);
        let ghost models = texts(names@);
        let ghost at = self@.models.ollama_model_selection;
        if names.len() == 0 {
            page.line2(
                spinner(self.screen.anim_frame),
                fg(accent()),
                "Loading models...",
                fg(Color::DarkGray),
            );
            return page;
        }
        let header = longest_of(rows);
        let widest = longest_of(&names);
        let mut i: usize = 0;
        assert(page@ =~= top + models_below(models, at, header as nat, 0));
        while i < names.len()
            invariant
                i <= names@.len(),
                models == texts(names@),
                at == self.models.ollama_model_selection,
                widest == longest(models),
                page@ == top + models_below(models, at, header as nat, i as nat),
            decreases names.len() - i,
        {
            push_option(
                &mut page,
                names[i].as_str(),
                header,
                widest,
                i == self.models.ollama_model_selection,
            );
            i += 1;
            assert(page@ =~= top + models_below(models, at, header as nat, i as nat));
        }
        page
    }

    fn render_overview(&self, config: &ScribaConfig, rows: &Vec<String>) -> (r: Page)
        requires
            self@.wf(),
        ensures
            r@ == overview_page(self@, config@, texts(rows@)),
    {
        let mut page = self.top(rows);
        let whisper = whisper_model(self.models.whisper_model_selection).display_name();
        let model = match &config.enrichment.mode {
            EnrichmentMode::Local { ollama_model, .. } => ollama_model.clone(),
            _ => crate::config::DEFAULT_OLLAMA_MODEL.to_owned(),
        };
        // Widths without the 18 columns in front of the value.
        let mut inner = longest_of(rows).saturating_sub(18);
        if byte_count(whisper) > inner {
            inner = byte_count(whisper);
        }
        if self.machine.ollama_reachable && byte_count(model.as_str()) > inner {
            inner = byte_count(model.as_str());
        }
        let ghost width = inner + 18;
        page.line2(
            TRANSCRIPTION_LABEL,
            fg(Color::DarkGray),
            cat(whisper, spaces(inner - byte_count(whisper)).as_str()).as_str(),
            fg(Color::White),
        );
        if self.machine.ollama_reachable {
            page.line2(
                ENRICHMENT_LABEL,
                fg(Color::DarkGray),
                cat(model.as_str(), spaces(inner - byte_count(model.as_str())).as_str()).as_str(),
                fg(Color::White),
            );
        }
        page.blank();
        let chosen = self.machine.system_check_selection;
        push_wide_option(&mut page, "Download now", inner, chosen == 0);
        push_wide_option(&mut page, "Skip for now", inner, chosen == 1);
        page
    }

    fn render_downloads(&self, rows: &Vec<String>) -> (r: Page)
        ensures
            r@ == downloads_page(self@, texts(rows@)),
    {
        let mut page = self.top(rows);
        let ghost top = page@;
        let ghost items = self@.models.download_items;
        let frame = self.screen.anim_frame;
        let ghost all = Seq::new(items.len(), |i: int| download_line(items[i], frame));
        let mut i: usize = 0;
        assert(page@ =~= top + all.take(0));
        while i < self.models.download_items.len()
            invariant
                i <= self.models.download_items@.len(),
                items == self@.models.download_items,
                frame == self@.screen.anim_frame,
                all == Seq::new(items.len(), |i: int| download_line(items[i], frame)),
                page@ == top + all.take(i as int),
            decreases self.models.download_items.len() - i,
        {
            push_download(&mut page, &self.models.download_items[i], frame);
            i += 1;
            assert(page@ =~= top + all.take(i as int));
        }
        assert(all.take(all.len() as int) =~= all);
        let all_done = self.all_downloads_done();
        if all_done || self.any_download_failed() {
            page.blank();
            let label = if all_done {
                "Continue"
            } else {
                "Continue anyway"
            };
            page.line(cat("  [Enter] ", label).as_str(), fg(Color::DarkGray));
        }
        page
    }

    fn render_confirmation(&self, rows: &Vec<String>) -> (r: Page)
        ensures
            r@ == confirm_page(self@, texts(rows@)),
    {
        let mut page = self.top(rows);
        let label = fg_bold(Color::DarkGray);
        let value = fg(Color::White);
        page.line2("  Name   ", label, self.user.confirm_owner.as_str(), value);
        page.line2("  Role   ", label, self.user.confirm_role.as_str(), value);
        page.line2("  Org    ", label, self.user.confirm_org.as_str(), value);
        page.line2("  Known  ", label, self.user.confirm_people.as_str(), value);
        page.blank();
        push_two(
            &mut page,
            LOOKS_GOOD,
            LET_ME_FIX,
            longest_of(rows),
            wider_of(LOOKS_GOOD, LET_ME_FIX),
            self.user.confirm_selection,
        );
        page
    }

    fn push_plain_row(&self, page: &mut Page, row: &str)
        ensures
            final(page)@ == old(page)@.push(plain_row(self@, row@)),
    {
        let step = self.screen.step;
        if (step == OnboardingStep::Processing && self.user.processing) || (step
            == OnboardingStep::ApiKeyValidation && self.access.validating) || (step
            == OnboardingStep::WhisperApiKeyValidation && self.access.whisper_validating) {
            page.line2(spinner(self.screen.anim_frame), fg(accent()), row, fg(Color::White));
        } else if step == OnboardingStep::Done {
            if row.unicode_len() == 0 {
                page.blank();
            } else {
                page.line2("\u{2713} ", fg(accent()), row, fg(Color::White));
            }
        } else {
            page.line(row, fg(Color::White));
        }
    }

    fn input(&self) -> (r: Option<String>)
        ensures
            crate::text::option_text(r) == shown_input(self@),
    {
        match self.screen.step {
            OnboardingStep::WhisperApiKey => Some(
                star(self.access.whisper_api_key_input.as_str()),
            ),
            OnboardingStep::ApiKeyEntry => Some(star(self.access.api_key_input.as_str())),
            OnboardingStep::AskName => Some(self.user.user_name.clone()),
            OnboardingStep::AskRole => Some(self.user.user_role.clone()),
            _ => None,
        }
    }

    fn render_plain(&self, rows: &Vec<String>) -> (r: Page)
        ensures
            r@ == plain_page(self@, texts(rows@)),
    {
        let mut page = Page::new();
        let ghost all = Seq::new(texts(rows@).len(), |i: int| plain_row(self@, texts(rows@)[i]));
        let mut i: usize = 0;
        while i < rows.len()
            invariant
                i <= rows@.len(),
                all == Seq::new(
                    texts(rows@).len(),
                    |i: int| plain_row(self@, texts(rows@)[i]),
                ),
                page@ =~= all.take(i as int),
            decreases rows.len() - i,
        {
            self.push_plain_row(&mut page, rows[i].as_str());
            i += 1;
        }
        assert(all.take(all.len() as int) =~= all);
        match self.input() {
            Some(text) => {
                if self.screen.text_complete {
                    let room = longest_of(rows).saturating_sub(3);
                    page.blank();
                    page.line2(
                        "\u{25B8} ",
                        fg(accent()),
                        cat(tail(text.as_str(), room), "_").as_str(),
                        fg_bold(accent()),
                    );
                }
            },
            None => {},
        }
        page
    }

    /// The body of the current step.
    pub fn render_body(&self, config: &ScribaConfig) -> (r: Page)
        requires
            self@.wf(),
        ensures
            r@ == body_page(self@, config@),
    {
        let rows = self.rows();
        match self.screen.step {
            OnboardingStep::ModeSelection => self.render_modes(&rows),
            OnboardingStep::ProviderSelection => self.render_providers(&rows),
            OnboardingStep::SystemCheck => self.render_checks(&rows),
            OnboardingStep::ModelSetup => match self.models.setup_phase {
                0 => self.render_whisper_models(&rows),
                1 => self.render_ollama_models(&rows),
                2 => self.render_overview(config, &rows),
                3 => self.render_downloads(&rows),
                _ => self.top(&rows),
            },
            OnboardingStep::ApiKeyValidation => {
                let rejected = match self.access.api_key_valid {
                    Some(valid) => !valid,
                    None => false,
                };
                if rejected {
                    let mut page = self.top(&rows);
                    push_two(
                        &mut page,
                        TRY_ANOTHER,
                        SKIP_KEY,
                        longest_of(&rows),
                        wider_of(TRY_ANOTHER, SKIP_KEY),
                        self.access.validation_fail_selection,
                    );
                    page
                } else {
                    self.render_plain(&rows)
                }
            },
            OnboardingStep::Confirmation => self.render_confirmation(&rows),
            _ => self.render_plain(&rows),
        }
    }

    /// One dot per step.
    pub fn render_dots(&self, config: &ScribaConfig) -> (r: Line)
        ensures
            r@ == dots_line(self@.screen.step, config@),
    {
        let step = self.screen.step;
        let on_cloud = match &config.enrichment.mode {
            EnrichmentMode::Cloud { .. } => true,
            _ => false,
        };
        let cloud = step == OnboardingStep::WhisperApiKey || step
            == OnboardingStep::ProviderSelection || step == OnboardingStep::ApiKeyEntry || step
            == OnboardingStep::ApiKeyValidation || on_cloud;
        let count: usize = if cloud {
            10
        } else {
            9
        };
        let current = step_position(step, cloud);
        let mut l = Line::new();
        let mut i: usize = 0;
        while i < count
            invariant
                i <= count,
                l@ =~= Seq::new(i as nat, |k: int| dot(k, current as int)),
            decreases count - i,
        {
            if i == current {
                l.push(" \u{25CF} ", fg(accent()));
            } else if i < current {
                l.push(" \u{25CF} ", fg(Color::DarkGray));
            } else {
                l.push(" \u{25CB} ", fg(Color::Indexed(237)));
            }
            i += 1;
        }
        assert(l@ =~= dots_line(self@.screen.step, config@));
        l
    }

    fn hint(&self) -> (r: &'static str)
        ensures
            r == step_hint(self@),
    {
        match self.screen.step {
            OnboardingStep::Intro | OnboardingStep::AskName | OnboardingStep::AskRole => {
                "[Enter] Continue"
            },
            OnboardingStep::ModeSelection | OnboardingStep::ProviderSelection
            | OnboardingStep::Confirmation => SELECT_HINT,
            OnboardingStep::WhisperApiKey | OnboardingStep::ApiKeyEntry => "[Enter] Validate",
            OnboardingStep::WhisperApiKeyValidation => if self.access.whisper_validating {
                "Validating..."
            } else {
                ""
            },
            OnboardingStep::ApiKeyValidation => if self.access.validating {
                "Validating..."
            } else {
                match self.access.api_key_valid {
                    Some(valid) => if valid {
                        ""
                    } else {
                        SELECT_HINT
                    },
                    None => "",
                }
            },
            OnboardingStep::SystemCheck => if self.machine.system_check_done {
                SELECT_HINT
            } else {
                "Checking..."
            },
            OnboardingStep::ModelSetup => if self.models.setup_phase <= 2 {
                SELECT_HINT
            } else if self.models.setup_phase == 3 {
                if self.all_downloads_done() || self.any_download_failed() {
                    "[Enter] Continue"
                } else {
                    "Downloading..."
                }
            } else {
                ""
            },
            OnboardingStep::Processing => if !self.user.processing && !self.user.ollama_available {
                "[Enter] Continue"
            } else {
                ""
            },
            OnboardingStep::Done => if self.screen.text_complete && !self.screen.transitioning {
                "[Enter] Let's go"
            } else {
                ""
            },
            OnboardingStep::Entrance => "",
        }
    }

    /// The footer line.
    pub fn render_footer(&self, width: u16, version: &str) -> (r: Line)
        ensures
            r@ == justified(
                footer_mark(version@, ""@),
                onboarding_hints(self@),
                width as int,
            ),
    {
        let mut right = Line::new();
        if self.screen.step != OnboardingStep::Done {
            push_hint(&mut right, "Esc", "] Quit");
        }
        let hint = self.hint();
        if hint.unicode_len() > 0 {
            right.push("  ", plain());
            right.push(hint, fg(Color::DarkGray));
        }
        right.push(" ", plain());
        justify(footer_left(version, ""), right, width as usize)
    }

    /// The text while the last step fades out.
    pub fn render_dim_fade(&self) -> (r: Page)
        ensures
            r@ == fade_page(self@),
    {
        let mut page = Page::new();
        match fade_color(self.screen.transition_frame) {
            None => {},
            Some(c) => {
                let rows = self.rows();
                let done = self.screen.step == OnboardingStep::Done;
                let ghost all = fade_page(self@);
                let mut i: usize = 0;
                while i < rows.len()
                    invariant
                        i <= rows@.len(),
                        texts(rows@) == text_rows(self@.visible_text()),
                        fade_color(self.screen.transition_frame) == Some(c),
                        done == (self.screen.step == OnboardingStep::Done),
                        all == fade_page(self@),
                        page@ =~= all.take(i as int),
                    decreases rows.len() - i,
                {
                    assert(texts(rows@)[i as int] == rows@[i as int]@);
                    if done {
                        page.line2("\u{2713} ", fg(c), rows[i].as_str(), fg(c));
                    } else {
                        page.line(rows[i].as_str(), fg(c));
                    }
                    i += 1;
                }
                assert(all.take(all.len() as int) =~= all);
            },
        }
        page
    }
}

/// A selectable line in a block of `inner` columns behind an indent of 18.
fn push_wide_option(page: &mut Page, label: &str, inner: usize, chosen: bool)
    ensures
        final(page)@ == old(page)@.push(
            option_line(label@, label_pad(label@, (inner + 18) as nat, 0), chosen),
        ),
{
    let n = label.unicode_len();
    let pad = if n <= 16 {
        let mut p = spaces(inner);
        p.append(spaces(16 - n).as_str());
        p
    } else {
        spaces(inner.saturating_sub(n - 16))
    };
    assert(pad@ =~= blanks(label_pad(label@, (inner + 18) as nat, 0)));
    if chosen {
        page.line2(
            "\u{25B8} ",
            fg_on(accent(), selected_bg()),
            cat(label, pad.as_str()).as_str(),
            fg_on(Color::White, selected_bg()),
        );
    } else {
        page.line(cat3("  ", label, pad.as_str()).as_str(), fg(Color::DarkGray));
    }
}

/// Two keys of the same length in bytes that begin with the same four
/// characters.
pub open spec fn alike(a: Seq<char>, b: Seq<char>) -> bool {
    byte_len(a) == byte_len(b) && a.take(at_most(4, a.len() as int)) == b.take(
        at_most(4, b.len() as int),
    )
}

/// A key that is typed stays hidden: the page tells no more of it than its
/// first four characters and its length.
pub proof fn typed_keys_stay_hidden(v: OnboardingView, other: OnboardingView, c: ConfigView)
    requires
        alike(v.access.whisper_api_key_input, other.access.whisper_api_key_input),
        alike(v.access.api_key_input, other.access.api_key_input),
        other == (OnboardingView {
            access: AccessView {
                whisper_api_key_input: other.access.whisper_api_key_input,
                api_key_input: other.access.api_key_input,
                ..v.access
            },
            ..v
        }),
    ensures
        body_page(v, c) == body_page(other, c),
{
    starred_alike(v.access.whisper_api_key_input, other.access.whisper_api_key_input);
    starred_alike(v.access.api_key_input, other.access.api_key_input);
}

proof fn starred_alike(a: Seq<char>, b: Seq<char>)
    requires
        alike(a, b),
    ensures
        starred(a) == starred(b),
{
    assert(a.take(at_most(4, a.len() as int)).len() == at_most(4, a.len() as int));
    assert(b.take(at_most(4, b.len() as int)).len() == at_most(4, b.len() as int));
    if a.len() == 0 {
        assert(a =~= b);
    }
}

} // verus!
