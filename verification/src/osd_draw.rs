//! What stands on the card of the overlay, apart from its geometry.
use vstd::prelude::*;

use crate::osd::{Phase, UiState, UiView};
use crate::search::{eq_ignoring_ascii_case, same_ignoring_ascii_case};
use crate::text::{chars_of, str_text_of, trim, trim_chars};

verus! {

/// The label of a phase.
pub open spec fn label_text(phase: Phase) -> Seq<char> {
    match phase {
        Phase::Recording => "gravando"@,
        Phase::Paused => "pausado"@,
        Phase::Transcribing | Phase::Cleaning => "transcrevendo"@,
        Phase::Loading => "carregando"@,
        Phase::Info => "aviso"@,
        Phase::Error => "erro"@,
    }
}

/// The label of a phase.
pub fn phase_label(phase: Phase) -> (r: &'static str)
    ensures
        r@ == label_text(phase),
{
    match phase {
        Phase::Recording => "gravando",
        Phase::Paused => "pausado",
        Phase::Transcribing | Phase::Cleaning => "transcrevendo",
        Phase::Loading => "carregando",
        Phase::Info => "aviso",
        Phase::Error => "erro",
    }
}

/// The accent of a phase, as red, green and blue: green while recording, red
/// for an error, else blue.
pub fn phase_color(phase: Phase) -> (r: (u8, u8, u8))
    ensures
        r == match phase {
            Phase::Recording => (46u8, 204u8, 113u8),
            Phase::Error => (235u8, 103u8, 103u8),
            Phase::Paused | Phase::Transcribing | Phase::Loading | Phase::Cleaning
            | Phase::Info => (52u8, 152u8, 219u8),
        },
{
    match phase {
        Phase::Recording => (46, 204, 113),
        Phase::Error => (235, 103, 103),
        Phase::Paused | Phase::Transcribing | Phase::Loading | Phase::Cleaning | Phase::Info => (
            52,
            152,
            219,
        ),
    }
}

/// The drawing in the middle of the card.
#[derive(Debug, Clone, Copy, PartialEq, Eq, Structural)]
pub enum Body {
    /// The levels of the recording.
    Waveform,
    /// A moving band.
    Progress,
    /// A short line.
    Line,
}

/// The drawing in the middle of the card.
pub fn card_body(phase: Phase) -> (r: Body)
    ensures
        r == match phase {
            Phase::Recording | Phase::Paused => Body::Waveform,
            Phase::Transcribing | Phase::Loading | Phase::Cleaning => Body::Progress,
            Phase::Info | Phase::Error => Body::Line,
        },
{
    match phase {
        Phase::Recording | Phase::Paused => Body::Waveform,
        Phase::Transcribing | Phase::Loading | Phase::Cleaning => Body::Progress,
        Phase::Info | Phase::Error => Body::Line,
    }
}

/// A disc of the status sign; its radius in tenths of a pixel.
#[derive(Debug, Clone, Copy, PartialEq, Eq, Structural)]
pub struct Disc {
    pub radius: u32,
    /// Is it drawn in the accent of the phase? Else in that of the card.
    pub accent: bool,
    pub alpha: u8,
    /// Does it move round the centre?
    pub orbits: bool,
}

/// The discs of the status sign, the largest first.
pub open spec fn status_discs(phase: Phase) -> Seq<Disc> {
    match phase {
        Phase::Recording => seq![
            Disc { radius: 70, accent: true, alpha: 255, orbits: false },
            Disc { radius: 37, accent: false, alpha: 255, orbits: false },
            Disc { radius: 20, accent: true, alpha: 255, orbits: false },
        ],
        Phase::Paused => seq![Disc { radius: 40, accent: true, alpha: 255, orbits: false }],
        Phase::Transcribing | Phase::Loading | Phase::Cleaning => seq![
            Disc { radius: 70, accent: true, alpha: 205, orbits: false },
            Disc { radius: 48, accent: false, alpha: 255, orbits: false },
            Disc { radius: 18, accent: true, alpha: 255, orbits: true },
        ],
        Phase::Info | Phase::Error => seq![
            Disc { radius: 70, accent: true, alpha: 210, orbits: false },
            Disc { radius: 48, accent: false, alpha: 255, orbits: false },
            Disc { radius: 18, accent: true, alpha: 255, orbits: false },
        ],
    }
}

/// The discs of the status sign, the largest first.
pub fn status_indicator(phase: Phase) -> (r: Vec<Disc>)
    ensures
        r@ == status_discs(phase),
{
    match phase {
        Phase::Recording => vec![
            Disc { radius: 70, accent: true, alpha: 255, orbits: false },
            Disc { radius: 37, accent: false, alpha: 255, orbits: false },
            Disc { radius: 20, accent: true, alpha: 255, orbits: false },
        ],
        Phase::Paused => vec![Disc { radius: 40, accent: true, alpha: 255, orbits: false }],
        Phase::Transcribing | Phase::Loading | Phase::Cleaning => vec![
            Disc { radius: 70, accent: true, alpha: 205, orbits: false },
            Disc { radius: 48, accent: false, alpha: 255, orbits: false },
            Disc { radius: 18, accent: true, alpha: 255, orbits: true },
        ],
        Phase::Info | Phase::Error => vec![
            Disc { radius: 70, accent: true, alpha: 210, orbits: false },
            Disc { radius: 48, accent: false, alpha: 255, orbits: false },
            Disc { radius: 18, accent: true, alpha: 255, orbits: false },
        ],
    }
}

/// The line of text in the middle of the card: a temporary message where
/// there is one; else nothing while recording, and otherwise the status,
/// unless it only repeats the label of a phase that processes.
pub open spec fn center_text<L>(ui: UiView<L>, label: Seq<char>) -> Option<Seq<char>> {
    match ui.feedback {
        Some(f) => Some(f.message),
        None => match ui.phase {
            Phase::Recording | Phase::Paused => None,
            Phase::Transcribing | Phase::Cleaning => match ui.status {
                Some(s) => if same_ignoring_ascii_case(trim(s), label) {
                    Some("Processando…"@)
                } else {
                    Some(s)
                },
                None => Some("Processando…"@),
            },
            Phase::Loading => Some(
                match ui.status {
                    Some(s) => s,
                    None => "Carregando…"@,
                },
            ),
            Phase::Info => Some(
                match ui.status {
                    Some(s) => s,
                    None => "Aviso"@,
                },
            ),
            Phase::Error => Some(
                match ui.status {
                    Some(s) => s,
                    None => "Erro"@,
                },
            ),
        },
    }
}

fn status_or<'a>(status: &'a Option<String>, default: &'a str) -> (r: &'a str)
    ensures
        r@ == match crate::text::text_of(*status) {
            Some(s) => s,
            None => default@,
        },
{
    match status {
        Some(s) => s.as_str(),
        None => default,
    }
}

/// The line of text in the middle of the card.
pub fn center_status<'a, L>(ui: &'a UiState<L>, label: &str) -> (r: Option<&'a str>)
    ensures
        str_text_of(r) == center_text(ui@, label@),
{
    if let Some(f) = &ui.feedback {
        return Some(f.message.as_str());
    }
    match ui.phase {
        Phase::Recording | Phase::Paused => None,
        Phase::Transcribing | Phase::Cleaning => match &ui.status {
            Some(s) => {
                let chars = chars_of(s.as_str());
                let trimmed = trim_chars(chars.as_slice());
                let label_chars = chars_of(label);
                if eq_ignoring_ascii_case(trimmed.as_slice(), label_chars.as_slice()) {
                    Some("Processando…")
                } else {
                    Some(s.as_str())
                }
            },
            None => Some("Processando…"),
        },
        Phase::Loading => Some(status_or(&ui.status, "Carregando…")),
        Phase::Info => Some(status_or(&ui.status, "Aviso")),
        Phase::Error => Some(status_or(&ui.status, "Erro")),
    }
}

/// The colour of the line in the middle of the card, with its opacity.
pub fn status_color(phase: Phase) -> (r: (u8, u8, u8, u8))
    ensures
        r == if phase == Phase::Error {
            (235u8, 103u8, 103u8, 255u8)
        } else {
            (164u8, 173u8, 185u8, 255u8)
        },
{
    match phase {
        Phase::Error => (235, 103, 103, 255),
        _ => (164, 173, 185, 255),
    }
}

/// A key that the footer explains.
#[derive(Debug, Clone, Copy, PartialEq, Eq)]
pub struct FooterAction {
    pub key: &'static str,
    pub label: &'static str,
}

/// The keys that the footer explains: those of a running session, and none
/// once it is being processed.
pub open spec fn explained_keys(phase: Phase) -> Option<Seq<FooterAction>> {
    match phase {
        Phase::Recording => Some(
            seq![
                FooterAction { key: "Space", label: "pausar" },
                FooterAction { key: "Enter", label: "concluir" },
                FooterAction { key: "Esc", label: "cancelar" },
            ],
        ),
        Phase::Paused => Some(
            seq![
                FooterAction { key: "Space", label: "retomar" },
                FooterAction { key: "Enter", label: "concluir" },
                FooterAction { key: "Esc", label: "cancelar" },
            ],
        ),
        Phase::Transcribing | Phase::Loading | Phase::Cleaning | Phase::Info | Phase::Error => None,
    }
}

/// The keys that the footer explains.
pub fn footer_actions(phase: Phase) -> (r: Option<Vec<FooterAction>>)
    ensures
        match r {
            Some(list) => explained_keys(phase) == Some(list@),
            None => explained_keys(phase) is None,
        },
{
    match phase {
        Phase::Recording => Some(
            vec![
                FooterAction { key: "Space", label: "pausar" },
                FooterAction { key: "Enter", label: "concluir" },
                FooterAction { key: "Esc", label: "cancelar" },
            ],
        ),
        Phase::Paused => Some(
            vec![
                FooterAction { key: "Space", label: "retomar" },
                FooterAction { key: "Enter", label: "concluir" },
                FooterAction { key: "Esc", label: "cancelar" },
            ],
        ),
        Phase::Transcribing | Phase::Loading | Phase::Cleaning | Phase::Info | Phase::Error => None,
    }
}

/// What stands in the footer.
#[derive(Debug, Clone, PartialEq, Eq)]
pub enum Footer {
    Warning(String),
    Actions(Vec<FooterAction>),
    Nothing,
}

/// What stands in the footer: a warning goes before the keys.
pub fn footer<L>(ui: &UiState<L>) -> (r: Footer)
    ensures
        match r {
            Footer::Warning(w) => ui@.warning == Some(w@),
            Footer::Actions(list) => ui@.warning is None && explained_keys(ui.phase) == Some(
                list@,
            ),
            Footer::Nothing => ui@.warning is None && explained_keys(ui.phase) is None,
        },
{
    match &ui.warning {
        Some(w) => Footer::Warning(w.clone()),
        None => match footer_actions(ui.phase) {
            Some(list) => Footer::Actions(list),
            None => Footer::Nothing,
        },
    }
}

/// Where the four bytes of a pixel begin; nothing for a pixel outside of the
/// buffer.
pub fn pixel_offset(x: i32, y: i32, width: i32, height: i32) -> (r: Option<usize>)
    requires
        0 <= width,
        0 <= height,
        width * height * 4 <= usize::MAX,
    ensures
        r == if 0 <= x < width && 0 <= y < height {
            Some(((y * width + x) * 4) as usize)
        } else {
            None
        },
        r matches Some(i) ==> i + 4 <= width * height * 4,
{
    if x < 0 || y < 0 || x >= width || y >= height {
        return None;
    }
    proof {
        assert(0 <= y * width && (y + 1) * width <= height * width) by (nonlinear_arith)
            requires
                0 <= y < height,
                0 <= width,
        ;
        assert((y + 1) * width == y * width + width) by (nonlinear_arith);
        assert(height * width == width * height) by (nonlinear_arith);
    }
    Some((y as usize * width as usize + x as usize) * 4)
}

} // verus!
