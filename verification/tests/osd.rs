use whisper::osd::{
    frame_size, key_event, output_scale, round, Feedback, FeedbackKind, FrameSize, OsdCommand,
    OsdEvent, Phase, Round, UiState,
};
use whisper::osd_draw::{
    card_body, center_status, footer, footer_actions, phase_color, phase_label, pixel_offset,
    status_color, status_indicator, Body, Footer,
};

const GREEN: (u8, u8, u8) = (46, 204, 113);

const BLUE: (u8, u8, u8) = (52, 152, 219);

const RED: (u8, u8, u8) = (235, 103, 103);

fn ui() -> UiState<f32> {
    UiState::new("pt · turbo".to_string())
}

#[test]
fn phase_colors_keep_recording_processing_and_error_distinct() {
    assert_eq!(phase_color(Phase::Recording), GREEN);
    assert_eq!(phase_color(Phase::Error), RED);
    assert_eq!(phase_color(Phase::Transcribing), BLUE);
    assert_eq!(phase_color(Phase::Paused), BLUE);
}

#[test]
fn processing_states_do_not_show_recording_actions() {
    assert!(footer_actions(Phase::Recording).is_some());
    assert!(footer_actions(Phase::Paused).is_some());
    assert!(footer_actions(Phase::Transcribing).is_none());
    assert!(footer_actions(Phase::Loading).is_none());
    assert!(footer_actions(Phase::Cleaning).is_none());
}

#[test]
fn redundant_processing_status_becomes_processando() {
    let mut ui = ui();
    ui.phase = Phase::Transcribing;
    ui.status = Some("Transcrevendo".to_string());
    assert_eq!(center_status(&ui, "transcrevendo"), Some("Processando…"));
}

#[test]
fn recording_has_no_duplicate_center_status() {
    let mut ui = ui();
    ui.phase = Phase::Recording;
    assert_eq!(center_status(&ui, "gravando"), None);
}

#[test]
fn other_statuses_are_shown() {
    let mut ui = ui();
    assert_eq!(center_status(&ui, "carregando"), Some("Carregando…"));
    ui.status = Some("carregando modelo…".to_string());
    assert_eq!(center_status(&ui, "carregando"), Some("carregando modelo…"));
    ui.phase = Phase::Cleaning;
    ui.status = Some(" Limpando ".to_string());
    assert_eq!(center_status(&ui, "transcrevendo"), Some(" Limpando "));
    ui.status = None;
    assert_eq!(center_status(&ui, "transcrevendo"), Some("Processando…"));
    ui.phase = Phase::Error;
    assert_eq!(center_status(&ui, "erro"), Some("Erro"));
    ui.feedback = Some(Feedback {
        kind: FeedbackKind::Error,
        message: "áudio: x".to_string(),
    });
    assert_eq!(center_status(&ui, "erro"), Some("áudio: x"));
}

#[test]
fn labels_and_bodies_follow_the_phase() {
    assert_eq!(phase_label(Phase::Recording), "gravando");
    assert_eq!(phase_label(Phase::Cleaning), "transcrevendo");
    assert_eq!(card_body(Phase::Paused), Body::Waveform);
    assert_eq!(card_body(Phase::Loading), Body::Progress);
    assert_eq!(card_body(Phase::Error), Body::Line);
    assert_eq!(status_color(Phase::Error), (235, 103, 103, 255));
    assert_eq!(status_color(Phase::Loading), (164, 173, 185, 255));
    assert_eq!(status_indicator(Phase::Paused).len(), 1);
    assert!(status_indicator(Phase::Loading)[2].orbits);
    assert_eq!(status_indicator(Phase::Recording)[1].radius, 37);
}

#[test]
fn warning_goes_before_the_keys() {
    let mut ui = ui();
    ui.phase = Phase::Paused;
    match footer(&ui) {
        Footer::Actions(list) => {
            assert_eq!((list[0].key, list[0].label), ("Space", "retomar"));
            assert_eq!((list[2].key, list[2].label), ("Esc", "cancelar"));
        }
        other => panic!("{other:?}"),
    }
    ui.warning = Some("wtype ausente".to_string());
    assert_eq!(footer(&ui), Footer::Warning("wtype ausente".to_string()));
    ui.warning = None;
    ui.phase = Phase::Loading;
    assert_eq!(footer(&ui), Footer::Nothing);
}

#[test]
fn levels_are_bounded() {
    let mut ui = ui();
    for i in 0..60 {
        ui.push_level(i as f32);
    }
    assert_eq!(ui.levels.len(), 48);
    assert_eq!(ui.levels.front(), Some(&12.0));
    assert_eq!(ui.levels.back(), Some(&59.0));
}

#[test]
fn keys_have_their_events() {
    assert_eq!(key_event(0x20), Some(OsdEvent::PauseToggle));
    assert_eq!(key_event(0xff0d), Some(OsdEvent::Commit));
    assert_eq!(key_event(0xff8d), Some(OsdEvent::Commit));
    assert_eq!(key_event(0xff1b), Some(OsdEvent::Cancel));
    assert_eq!(key_event(u32::from(b's')), Some(OsdEvent::SmartToggle));
    assert_eq!(key_event(u32::from(b'S')), Some(OsdEvent::SmartToggle));
    assert_eq!(key_event(0x61), None);
}

#[test]
fn frames_scale_with_the_output() {
    assert_eq!(output_scale(-1), 1);
    assert_eq!(output_scale(0), 1);
    assert_eq!(output_scale(3), 3);
    assert_eq!(
        frame_size(2),
        Some(FrameSize { width: 3840, height: 296, stride: 15360 })
    );
    assert!(frame_size(279_620).is_some());
    assert_eq!(frame_size(279_621), None);
}

#[test]
fn rounds_end_on_close() {
    assert_eq!(round(false, None, true), Round::Draw);
    assert_eq!(round(false, None, false), Round::Skip);
    assert_eq!(round(false, Some(OsdCommand::Close), true), Round::Leave);
    assert_eq!(round(true, None, true), Round::Leave);
}

#[test]
fn pixels_outside_are_clipped() {
    assert_eq!(pixel_offset(0, 0, 10, 5), Some(0));
    assert_eq!(pixel_offset(9, 4, 10, 5), Some(196));
    assert_eq!(pixel_offset(10, 4, 10, 5), None);
    assert_eq!(pixel_offset(0, 5, 10, 5), None);
    assert_eq!(pixel_offset(-1, 0, 10, 5), None);
    assert_eq!(pixel_offset(0, -1, 10, 5), None);
}
