use app_core::dispatch::CloseResponse;
use app_core::dispatch::LoopAction;
use app_core::dispatch::LoopEvent;
use app_core::dispatch::UiAction;
use app_core::dispatch::UiReaction;
use app_core::dispatch::dispatch_event;
use app_core::dispatch::handle_ui_action;
use app_core::dispatch::render_model;
use app_core::openfile::ChosenFile;
use app_core::openfile::first_line;
use app_core::openfile::open_outcome_text;
use app_core::openfile::text_for_decoded;
use app_core::state::AppState;
use app_core::state::initial_state;
use app_core::state::message_bytes;

fn empty_state() -> AppState {
    AppState { message: None, show_quit: false }
}

#[test]
fn append_to_absent_message_is_text_alone() {
    let mut st = empty_state();
    st.append_line("Hello");
    assert_eq!(st.message.as_deref(), Some("Hello"));
    assert!(!st.show_quit);
}

#[test]
fn append_to_empty_message_has_no_leading_blank_line() {
    let mut st = AppState { message: Some(String::new()), show_quit: false };
    st.append_line("World");
    assert_eq!(st.message.as_deref(), Some("World"));
}

#[test]
fn appends_land_on_own_lines_in_order() {
    let mut st = empty_state();
    st.append_line("one");
    st.append_line("two");
    st.append_line("three");
    assert_eq!(st.message.as_deref(), Some("one\ntwo\nthree"));
}

#[test]
fn append_keeps_prior_message() {
    let mut st = AppState { message: Some(String::from("first")), show_quit: false };
    st.append_line("second");
    assert_eq!(st.message.as_deref(), Some("first\nsecond"));
}

#[test]
fn clear_leaves_no_message_and_hides_panel() {
    let mut st = AppState { message: Some(String::from("anything")), show_quit: false };
    st.clear_message();
    assert!(st.message.is_none());
    let frame = render_model(&st);
    assert!(!frame.show_message_panel);
}

#[test]
fn render_shows_message_and_quit_panels() {
    let st = AppState { message: Some(String::from("text")), show_quit: true };
    let frame = render_model(&st);
    assert!(frame.show_message_panel);
    assert_eq!(frame.message_text, "text");
    assert!(frame.show_quit_panel);
}

#[test]
fn initial_state_shows_instructions() {
    let st = initial_state();
    assert_eq!(
        st.message.as_deref(),
        Some("The first line of the selected file will be appended to this string.")
    );
    assert!(!st.show_quit);
}

#[test]
fn open_text_file_yields_first_line_exactly() {
    let outcome = Some(ChosenFile {
        bytes: b"Hello\nWorld".to_vec(),
        name: String::from("greeting.txt"),
    });
    assert_eq!(open_outcome_text(outcome), "Hello");
}

#[test]
fn open_single_line_file_yields_whole_line() {
    let outcome = Some(ChosenFile { bytes: b"Hello".to_vec(), name: String::from("a.txt") });
    assert_eq!(open_outcome_text(outcome), "Hello");
}

#[test]
fn open_windows_line_ending_is_stripped() {
    let outcome = Some(ChosenFile {
        bytes: b"Hello\r\nWorld".to_vec(),
        name: String::from("a.txt"),
    });
    assert_eq!(open_outcome_text(outcome), "Hello");
}

#[test]
fn open_empty_file_yields_empty_text() {
    let outcome = Some(ChosenFile { bytes: Vec::new(), name: String::from("empty.txt") });
    assert_eq!(open_outcome_text(outcome), "");
}

#[test]
fn open_non_utf8_file_names_the_file() {
    let outcome = Some(ChosenFile {
        bytes: vec![0xff, 0xfe, 0x00],
        name: String::from("photo.bin"),
    });
    assert_eq!(open_outcome_text(outcome), "File photo.bin is not a text file");
}

#[test]
fn open_dismissed_dialog_says_no_file_chosen() {
    assert_eq!(open_outcome_text(None), "No file chosen.");
}

#[test]
fn first_line_stops_at_line_break() {
    assert_eq!(first_line("alpha\nbeta\ngamma"), "alpha");
    assert_eq!(first_line("alpha"), "alpha");
    assert_eq!(first_line(""), "");
    assert_eq!(first_line("\nrest"), "");
    assert_eq!(first_line("a\r\nb"), "a");
    assert_eq!(first_line("tail\r"), "tail\r");
}

#[test]
fn text_for_decoded_uses_name_only_when_not_text() {
    assert_eq!(text_for_decoded(Some(String::from("x\ny")), "ignored"), "x");
    assert_eq!(text_for_decoded(None, "n"), "File n is not a text file");
}

#[test]
fn close_request_with_exit_terminates_with_zero() {
    let mut st = AppState { message: Some(String::from("m")), show_quit: false };
    let r = st.handle_close_request(true);
    assert_eq!(r, CloseResponse::Terminate { code: 0 });
    assert!(!st.show_quit);
    assert_eq!(st.message.as_deref(), Some("m"));
}

#[test]
fn close_request_without_exit_flips_quit_notice() {
    let mut st = AppState { message: Some(String::from("m")), show_quit: false };
    let r = st.handle_close_request(false);
    assert_eq!(r, CloseResponse::ShowQuitNotice);
    assert!(st.show_quit);
    assert_eq!(st.message.as_deref(), Some("m"));
    let frame = render_model(&st);
    assert!(frame.show_quit_panel);
}

#[test]
fn save_of_absent_message_is_zero_length() {
    assert_eq!(message_bytes(&None).len(), 0);
}

#[test]
fn save_of_empty_message_is_zero_length() {
    assert_eq!(message_bytes(&Some(String::new())).len(), 0);
}

#[test]
fn save_carries_message_bytes() {
    assert_eq!(message_bytes(&Some(String::from("hi there"))), b"hi there".to_vec());
}

#[test]
fn dispatch_resize_adjusts_viewport() {
    let mut st = empty_state();
    let a = dispatch_event(&mut st, LoopEvent::Resized { width: 640, height: 480 }, true);
    assert_eq!(a, LoopAction::AdjustViewport { width: 640, height: 480 });
}

#[test]
fn dispatch_close_follows_platform() {
    let mut st = empty_state();
    let a = dispatch_event(&mut st, LoopEvent::CloseRequested, true);
    assert_eq!(a, LoopAction::Terminate { code: 0 });
    assert!(!st.show_quit);

    let mut st = empty_state();
    let a = dispatch_event(&mut st, LoopEvent::CloseRequested, false);
    assert_eq!(a, LoopAction::KeepRunning);
    assert!(st.show_quit);
}

#[test]
fn dispatch_dropped_file_logs_path() {
    let mut st = empty_state();
    let a = dispatch_event(
        &mut st,
        LoopEvent::FileDropped { path: Some(String::from("/tmp/a.txt")) },
        true,
    );
    assert_eq!(a, LoopAction::Log { text: String::from("/tmp/a.txt") });

    let a = dispatch_event(&mut st, LoopEvent::FileDropped { path: None }, true);
    assert_eq!(a, LoopAction::Log { text: String::from("<Invalid UTF-8>") });
    assert!(st.message.is_none());
}

#[test]
fn dispatch_message_appends_line() {
    let mut st = empty_state();
    let a = dispatch_event(
        &mut st,
        LoopEvent::MessageArrived { text: String::from("Hello") },
        true,
    );
    assert_eq!(a, LoopAction::KeepRunning);
    assert_eq!(st.message.as_deref(), Some("Hello"));
}

#[test]
fn ui_open_starts_dialog_work() {
    let mut st = empty_state();
    let r = handle_ui_action(&mut st, UiAction::OpenClicked, true);
    assert_eq!(r, UiReaction::StartOpenDialog);
}

#[test]
fn ui_save_hands_over_payload() {
    let mut st = AppState { message: Some(String::from("keep me")), show_quit: false };
    let r = handle_ui_action(&mut st, UiAction::SaveClicked, true);
    assert_eq!(r, UiReaction::StartSave { payload: b"keep me".to_vec() });
    let mut st = empty_state();
    let r = handle_ui_action(&mut st, UiAction::SaveClicked, true);
    assert_eq!(r, UiReaction::StartSave { payload: Vec::new() });
}

#[test]
fn ui_exit_follows_platform() {
    let mut st = empty_state();
    let r = handle_ui_action(&mut st, UiAction::ExitClicked, true);
    assert_eq!(r, UiReaction::Terminate { code: 0 });

    let mut st = empty_state();
    let r = handle_ui_action(&mut st, UiAction::ExitClicked, false);
    assert_eq!(r, UiReaction::KeepRunning);
    assert!(st.show_quit);
}

#[test]
fn ui_clear_discards_message() {
    let mut st = AppState { message: Some(String::from("gone")), show_quit: false };
    let r = handle_ui_action(&mut st, UiAction::ClearClicked, true);
    assert_eq!(r, UiReaction::KeepRunning);
    assert!(st.message.is_none());
}
