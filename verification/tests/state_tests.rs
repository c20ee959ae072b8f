use vid2mp3::state::{thumbnail_outcome, AppState, ThumbnailOutcome};
use vid2mp3::status::{ProcessOutcome, Status};

fn converting_state() -> AppState {
    let mut st = AppState::new();
    st.set_input(String::from("movie.mp4"));
    st.begin_conversion();
    st
}

#[test]
fn fresh_state_is_idle_and_empty() {
    let st = AppState::new();
    assert!(st.input_path.is_none());
    assert!(st.output_path.is_none());
    assert!(matches!(st.status, Status::Idle));
    assert!(st.thumbnail_path.is_none());
    assert!(!st.thumbnail_loading);
    assert!(!st.thumbnail_loaded);
}

#[test]
fn selecting_input_derives_output() {
    let mut st = AppState::new();
    let job = st.set_input(String::from("movie.mp4"));
    assert_eq!(job, "movie.mp4");
    assert_eq!(st.input_path.as_deref(), Some("movie.mp4"));
    assert_eq!(st.output_path.as_deref(), Some("movie.mp3"));
    assert!(matches!(st.status, Status::Idle));
    assert!(st.thumbnail_path.is_none());
    assert!(st.thumbnail_loading);
    assert!(!st.thumbnail_loaded);
}

#[test]
fn selecting_input_resets_in_flight_state() {
    let mut st = converting_state();
    st.record_thumbnail(ThumbnailOutcome::Extracted(String::from("old_thumb.jpg")));
    assert!(matches!(st.status, Status::Converting));
    assert!(st.thumbnail_path.is_some());
    st.set_input(String::from("clip.mkv"));
    assert!(matches!(st.status, Status::Idle));
    assert!(st.thumbnail_path.is_none());
    assert_eq!(st.output_path.as_deref(), Some("clip.mp3"));
}

#[test]
fn gate_requires_input() {
    let st = AppState::new();
    assert!(!st.can_convert());
}

#[test]
fn gate_opens_after_selection() {
    let mut st = AppState::new();
    st.set_input(String::from("movie.mp4"));
    assert!(st.can_convert());
}

#[test]
fn begin_conversion_closes_gate() {
    let mut st = AppState::new();
    st.set_input(String::from("movie.mp4"));
    let (input, output) = st.begin_conversion();
    assert_eq!(input, "movie.mp4");
    assert_eq!(output, "movie.mp3");
    assert!(matches!(st.status, Status::Converting));
    assert!(!st.can_convert());
}

#[test]
fn successful_conversion_ends_done() {
    let mut st = converting_state();
    st.complete_conversion(ProcessOutcome::Exited { success: true, stderr: Vec::new() });
    assert!(matches!(st.status, Status::Done));
    assert!(st.can_convert());
}

#[test]
fn failed_conversion_ends_error_with_stderr() {
    let mut st = converting_state();
    st.complete_conversion(ProcessOutcome::Exited {
        success: false,
        stderr: b"no audio stream".to_vec(),
    });
    match &st.status {
        Status::Error(m) => assert_eq!(m, "no audio stream"),
        _ => panic!("expected an error status"),
    }
}

#[test]
fn missing_tool_ends_error() {
    let mut st = AppState::new();
    st.set_input(String::from("clip.mkv"));
    st.begin_conversion();
    st.complete_conversion(ProcessOutcome::SpawnFailed(String::from(
        "failed to spawn: ffmpeg not found",
    )));
    match &st.status {
        Status::Error(m) => assert_eq!(m, "failed to spawn: ffmpeg not found"),
        _ => panic!("expected an error status"),
    }
}

#[test]
fn repeated_conversion_gives_same_status() {
    let mut st = AppState::new();
    st.set_input(String::from("movie.mp4"));
    st.begin_conversion();
    st.complete_conversion(ProcessOutcome::Exited { success: true, stderr: Vec::new() });
    let first = matches!(st.status, Status::Done);
    assert!(st.can_convert());
    st.begin_conversion();
    st.complete_conversion(ProcessOutcome::Exited { success: true, stderr: Vec::new() });
    let second = matches!(st.status, Status::Done);
    assert_eq!(first, second);
}

#[test]
fn thumbnail_failures_are_silent() {
    for outcome in [
        ThumbnailOutcome::ScratchDirFailed,
        ThumbnailOutcome::SpawnFailed,
        ThumbnailOutcome::ToolFailed,
        ThumbnailOutcome::OutputMissing,
    ] {
        let mut st = converting_state();
        st.record_thumbnail(outcome);
        assert!(st.thumbnail_path.is_none());
        assert!(matches!(st.status, Status::Converting));
    }
}

#[test]
fn thumbnail_success_fills_cell_only() {
    let mut st = converting_state();
    st.record_thumbnail(ThumbnailOutcome::Extracted(String::from("thumbnail_7.jpg")));
    assert_eq!(st.thumbnail_path.as_deref(), Some("thumbnail_7.jpg"));
    assert!(matches!(st.status, Status::Converting));
}

#[test]
fn thumbnail_outcome_classification() {
    let p = || String::from("t.jpg");
    assert!(matches!(
        thumbnail_outcome(false, false, false, p()),
        ThumbnailOutcome::SpawnFailed
    ));
    assert!(matches!(
        thumbnail_outcome(true, false, true, p()),
        ThumbnailOutcome::ToolFailed
    ));
    assert!(matches!(
        thumbnail_outcome(true, true, false, p()),
        ThumbnailOutcome::OutputMissing
    ));
    match thumbnail_outcome(true, true, true, p()) {
        ThumbnailOutcome::Extracted(path) => assert_eq!(path, "t.jpg"),
        _ => panic!("expected an extraction"),
    }
}

#[test]
fn poll_hands_thumbnail_out_once_ready() {
    let mut st = AppState::new();
    st.set_input(String::from("movie.mp4"));
    assert_eq!(st.poll_thumbnail(), None);
    st.record_thumbnail(ThumbnailOutcome::Extracted(String::from("thumbnail_3.jpg")));
    assert_eq!(st.poll_thumbnail(), Some(String::from("thumbnail_3.jpg")));
    assert!(!st.thumbnail_loading);
    st.mark_thumbnail_loaded(true);
    assert_eq!(st.poll_thumbnail(), None);
}

#[test]
fn poll_without_input_returns_nothing() {
    let mut st = AppState::new();
    assert_eq!(st.poll_thumbnail(), None);
}

#[test]
fn display_text_follows_status() {
    let mut st = AppState::new();
    assert_eq!(
        st.display_text(),
        "Drop your video here to convert \n (\"mp4\", \"mkv\", \"avi\", \"mov\", \"webm\", \"flv\")"
    );
    st.set_input(String::from("/a/b/movie.mp4"));
    assert_eq!(st.display_text(), "movie.mp4");
    st.begin_conversion();
    assert_eq!(st.display_text(), "Converting...");
    st.complete_conversion(ProcessOutcome::Exited { success: true, stderr: Vec::new() });
    assert_eq!(st.display_text(), "Done!");
    st.begin_conversion();
    st.complete_conversion(ProcessOutcome::Exited { success: false, stderr: b"x".to_vec() });
    assert_eq!(st.display_text(), "Error occurred");
}

#[test]
fn status_colors_are_exact() {
    let mut st = AppState::new();
    assert_eq!(st.status_color(), (220, 220, 220));
    st.set_input(String::from("movie.mp4"));
    st.begin_conversion();
    assert_eq!(st.status_color(), (220, 220, 220));
    st.complete_conversion(ProcessOutcome::Exited { success: true, stderr: Vec::new() });
    assert_eq!(st.status_color(), (74, 222, 128));
    st.begin_conversion();
    st.complete_conversion(ProcessOutcome::SpawnFailed(String::from("gone")));
    assert_eq!(st.status_color(), (248, 113, 113));
}

#[test]
fn button_color_tracks_gate() {
    let mut st = AppState::new();
    assert_eq!(st.convert_button_color(), (150, 200, 150));
    st.set_input(String::from("movie.mp4"));
    assert_eq!(st.convert_button_color(), (34, 197, 94));
    st.begin_conversion();
    assert_eq!(st.convert_button_color(), (150, 200, 150));
}
