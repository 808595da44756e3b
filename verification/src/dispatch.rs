//! The event loop's dispatch rules.
//!
//! The loop itself is run by an unverified shell; every decision it takes —
//! how an incoming event mutates the state, what it asks the shell to do,
//! and what the next frame shows — is computed here.

use vstd::prelude::*;
use vstd::string::StringExecFns;
use crate::state::AppState;
use crate::state::message_view;
use crate::state::save_payload;
use crate::state::with_new_line;

verus! {

/// What one rendered frame shows: the menu bar is always present; the
/// message panel appears exactly while a message is present; the quit
/// notice appears exactly while its flag is set.
pub struct UiModel {
    pub show_message_panel: bool,
    pub message_text: String,
    pub show_quit_panel: bool,
}

/// Whether the message panel is visible in the frame rendered from the
/// given state.
pub open spec fn message_panel_shown(state: AppState) -> bool {
    state.message is Some
}

/// Compute what the next frame shows from the current state.
pub fn render_model(state: &AppState) -> (m: UiModel)
    ensures
        m.show_message_panel == message_panel_shown(*state),
        m.message_text@ == message_view(state.message),
        m.show_quit_panel == state.show_quit,
{
    let text = match &state.message {
        Some(s) => s.clone(),
        None => String::new(),
    };
    UiModel {
        show_message_panel: state.message.is_some(),
        message_text: text,
        show_quit_panel: state.show_quit,
    }
}

/// How a close request is answered: terminate the process, or — where the
/// environment has no process exit — keep running and show the quit notice.
#[derive(Clone, Copy, Debug, PartialEq, Eq, Structural)]
pub enum CloseResponse {
    Terminate { code: i32 },
    ShowQuitNotice,
}

impl AppState {
    /// Answer a request to close the application: on an environment that
    /// supports process exit, terminate with a success code and leave the
    /// state alone; on one that does not, keep running and flip the
    /// quit-notice flag on.
    pub fn handle_close_request(&mut self, supports_exit: bool) -> (r: CloseResponse)
        ensures
            supports_exit ==> r == (CloseResponse::Terminate { code: 0i32 })
                && *final(self) == *old(self),
            !supports_exit ==> r == CloseResponse::ShowQuitNotice
                && final(self).show_quit == true
                && final(self).message == old(self).message,
    {
        if supports_exit {
            CloseResponse::Terminate { code: 0 }
        } else {
            self.show_quit = true;
            CloseResponse::ShowQuitNotice
        }
    }
}

/// An event received by the loop: a platform window event, or an
/// application event injected by background work through the event proxy.
#[derive(Debug, PartialEq)]
pub enum LoopEvent {
    /// The window was resized.
    Resized { width: u32, height: u32 },
    /// The window's close button was pressed.
    CloseRequested,
    /// A file was dropped on the window; its path, when valid Unicode.
    FileDropped { path: Option<String> },
    /// Background work delivered new message content.
    MessageArrived { text: String },
}

/// What the loop asks its shell to do after dispatching one event.
#[derive(Debug, PartialEq)]
pub enum LoopAction {
    /// Match the graphics viewport to the new window size.
    AdjustViewport { width: u32, height: u32 },
    /// Exit the process with the given code.
    Terminate { code: i32 },
    /// Write the given text to the diagnostic sink.
    Log { text: String },
    /// Nothing to do; poll for the next event.
    KeepRunning,
}

/// The text logged when a file is dropped on the window: the file's path
/// when it is valid Unicode, a fixed notice otherwise.
pub open spec fn dropped_text(path: Option<String>) -> Seq<char> {
    match path {
        Some(p) => p@,
        None => "<Invalid UTF-8>"@,
    }
}

/// Dispatch one incoming event: mutate the state as the event demands and
/// say what the shell must do next. This is the only place the state is
/// ever mutated.
pub fn dispatch_event(state: &mut AppState, ev: LoopEvent, supports_exit: bool) -> (a: LoopAction)
    ensures
        match ev {
            LoopEvent::Resized { width, height } => a == (LoopAction::AdjustViewport {
                width,
                height,
            }) && *final(state) == *old(state),
            LoopEvent::CloseRequested => {
                &&& supports_exit ==> a == (LoopAction::Terminate { code: 0i32 })
                    && *final(state) == *old(state)
                &&& !supports_exit ==> a == LoopAction::KeepRunning
                    && final(state).show_quit == true
                    && final(state).message == old(state).message
            },
            LoopEvent::FileDropped { path } => (a matches LoopAction::Log { text: t }
                && t@ == dropped_text(path)) && *final(state) == *old(state),
            LoopEvent::MessageArrived { text } => {
                &&& a == LoopAction::KeepRunning
                &&& final(state).show_quit == old(state).show_quit
                &&& final(state).message is Some
                &&& message_view(final(state).message) == with_new_line(
                    message_view(old(state).message),
                    text@,
                )
            },
        },
{
    match ev {
        LoopEvent::Resized { width, height } => LoopAction::AdjustViewport { width, height },
        LoopEvent::CloseRequested => {
            match state.handle_close_request(supports_exit) {
                CloseResponse::Terminate { code } => LoopAction::Terminate { code },
                CloseResponse::ShowQuitNotice => LoopAction::KeepRunning,
            }
        },
        LoopEvent::FileDropped { path } => {
            let t = match path {
                Some(p) => p,
                None => String::from_str("<Invalid UTF-8>"),
            };
            LoopAction::Log { text: t }
        },
        LoopEvent::MessageArrived { text } => {
            state.append_line(text.as_str());
            LoopAction::KeepRunning
        },
    }
}

/// A click on one of the UI's controls during the render phase.
#[derive(Debug, PartialEq)]
pub enum UiAction {
    /// "Open" in the File menu.
    OpenClicked,
    /// "Save" in the File menu.
    SaveClicked,
    /// "Exit" in the File menu.
    ExitClicked,
    /// "Clear" in the message panel.
    ClearClicked,
}

/// What the shell must do after a UI click is handled.
#[derive(Debug, PartialEq)]
pub enum UiReaction {
    /// Submit background work that shows the file-open dialog and delivers
    /// the resulting text as an application event.
    StartOpenDialog,
    /// Submit background work that saves the given bytes.
    StartSave { payload: Vec<u8> },
    /// Exit the process with the given code.
    Terminate { code: i32 },
    /// Nothing to submit; keep rendering.
    KeepRunning,
}

/// Handle a click on a UI control: mutate the state as the click demands
/// and say what the shell must submit or do.
pub fn handle_ui_action(state: &mut AppState, action: UiAction, supports_exit: bool) -> (r:
    UiReaction)
    ensures
        match action {
            UiAction::OpenClicked => r == UiReaction::StartOpenDialog && *final(state) == *old(
                state,
            ),
            UiAction::SaveClicked => (r matches UiReaction::StartSave { payload }
                && payload@ == save_payload(old(state).message)) && *final(state) == *old(state),
            UiAction::ExitClicked => {
                &&& supports_exit ==> r == (UiReaction::Terminate { code: 0i32 })
                    && *final(state) == *old(state)
                &&& !supports_exit ==> r == UiReaction::KeepRunning
                    && final(state).show_quit == true
                    && final(state).message == old(state).message
            },
            UiAction::ClearClicked => r == UiReaction::KeepRunning
                && final(state).message is None
                && final(state).show_quit == old(state).show_quit,
        },
{
    match action {
        UiAction::OpenClicked => UiReaction::StartOpenDialog,
        UiAction::SaveClicked => UiReaction::StartSave {
            payload: crate::state::message_bytes(&state.message),
        },
        UiAction::ExitClicked => {
            match state.handle_close_request(supports_exit) {
                CloseResponse::Terminate { code } => UiReaction::Terminate { code },
                CloseResponse::ShowQuitNotice => UiReaction::KeepRunning,
            }
        },
        UiAction::ClearClicked => {
            state.clear_message();
            UiReaction::KeepRunning
        },
    }
}

/// Law: once the message has been cleared, the frame rendered from the
/// resulting state shows no message panel.
pub proof fn law_clear_hides_panel(state: AppState)
    requires
        state.message is None,
    ensures
        !message_panel_shown(state),
{
}

} // verus!
