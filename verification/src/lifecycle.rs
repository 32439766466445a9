use crate::capture::UiCaptureKind;
use crate::tray::TrayAction;
use vstd::prelude::*;

verus! {

/// Where the program is in its capture cycle.
#[derive(Debug, Clone, Copy, PartialEq, Eq, Structural)]
pub enum AppState {
    Idle,
    Selecting,
    Capturing,
    Exiting,
}

/// What reaches the program's event loop.
#[derive(Debug, Clone, Copy, PartialEq, Eq, Structural)]
pub enum AppEvent {
    /// The global hotkey fired; `matches` tells whether it is the registered one.
    Hotkey { matches: bool },
    /// A tray menu entry was chosen.
    Tray(TrayAction),
    /// The overlay was closed without a result.
    OverlayCancelled,
    /// The overlay finished with an image to save or copy.
    OverlayCompleted,
    /// The overlay asked to pin its selection on screen.
    OverlayPinned,
    /// The event loop is shutting down.
    LoopDestroyed,
}

/// The outside work an event asks the shell to do.
#[derive(Debug, Clone, Copy, PartialEq, Eq, Structural)]
pub enum AppAction {
    Nothing,
    /// Read the cursor, pick the monitor and show the overlay there.
    StartSelection,
    /// Capture the window or control under the cursor, then process the image.
    CaptureUiElement(UiCaptureKind),
    OpenSettings,
    OpenSaveDir,
    OpenConfigDir,
    /// Hide the overlay, close every pinned window and leave the loop.
    ShutDown,
    /// Copy or save the image the overlay produced.
    ProcessCapture,
    /// Open a pinned window for the overlay's selection.
    ShowPin,
}

/// The capture an event asks for, if any: the registered hotkey and the
/// tray's capture entry select a region, the other two capture a window or
/// a control.
pub open spec fn capture_request(event: AppEvent) -> Option<AppAction> {
    match event {
        AppEvent::Hotkey { matches } => if matches { Some(AppAction::StartSelection) } else { None },
        AppEvent::Tray(TrayAction::Capture) => Some(AppAction::StartSelection),
        AppEvent::Tray(TrayAction::CaptureWindow) => Some(AppAction::CaptureUiElement(UiCaptureKind::Window)),
        AppEvent::Tray(TrayAction::CaptureControl) => Some(AppAction::CaptureUiElement(UiCaptureKind::Control)),
        _ => None,
    }
}

/// The state and action that follow `event` in `state`: a capture starts
/// only from `Idle`; the tray's directory and settings entries act without
/// changing the state; leaving goes to `Exiting`; an overlay's end returns
/// to `Idle` with its result to handle.
pub open spec fn app_step_spec(state: AppState, event: AppEvent) -> (AppState, AppAction) {
    match capture_request(event) {
        Some(action) => if state == AppState::Idle { (AppState::Capturing, action) } else { (state, AppAction::Nothing) },
        None => match event {
            AppEvent::Tray(TrayAction::OpenSettings) => (state, AppAction::OpenSettings),
            AppEvent::Tray(TrayAction::OpenSaveDir) => (state, AppAction::OpenSaveDir),
            AppEvent::Tray(TrayAction::OpenConfigDir) => (state, AppAction::OpenConfigDir),
            AppEvent::Tray(TrayAction::Exit) => (AppState::Exiting, AppAction::ShutDown),
            AppEvent::OverlayCancelled => (AppState::Idle, AppAction::Nothing),
            AppEvent::OverlayCompleted => (AppState::Idle, AppAction::ProcessCapture),
            AppEvent::OverlayPinned => (AppState::Idle, AppAction::ShowPin),
            AppEvent::LoopDestroyed => (AppState::Exiting, AppAction::Nothing),
            _ => (state, AppAction::Nothing),
        },
    }
}

/// Decides what an event does: a capture starts only from `Idle` (the hotkey
/// only when it is the registered one), the directory and settings entries
/// leave the state alone, `Exit` and the loop's end lead to `Exiting`, and
/// every overlay signal brings the program back to `Idle`.
pub fn app_step(state: AppState, event: AppEvent) -> (r: (AppState, AppAction))
    ensures
        r == app_step_spec(state, event),
        state != AppState::Idle && event is Hotkey ==> r == (state, AppAction::Nothing),
        event == AppEvent::Tray(TrayAction::Exit) ==> r.0 == AppState::Exiting,
        (event is OverlayCancelled || event is OverlayCompleted || event is OverlayPinned)
            ==> r.0 == AppState::Idle,
{
    let idle = match state {
        AppState::Idle => true,
        _ => false,
    };
    match event {
        AppEvent::Hotkey { matches } => {
            if idle && matches {
                (AppState::Capturing, AppAction::StartSelection)
            } else {
                (state, AppAction::Nothing)
            }
        },
        AppEvent::Tray(action) => match action {
            TrayAction::Capture => {
                if idle {
                    (AppState::Capturing, AppAction::StartSelection)
                } else {
                    (state, AppAction::Nothing)
                }
            },
            TrayAction::CaptureWindow => {
                if idle {
                    (AppState::Capturing, AppAction::CaptureUiElement(UiCaptureKind::Window))
                } else {
                    (state, AppAction::Nothing)
                }
            },
            TrayAction::CaptureControl => {
                if idle {
                    (AppState::Capturing, AppAction::CaptureUiElement(UiCaptureKind::Control))
                } else {
                    (state, AppAction::Nothing)
                }
            },
            TrayAction::OpenSettings => (state, AppAction::OpenSettings),
            TrayAction::OpenSaveDir => (state, AppAction::OpenSaveDir),
            TrayAction::OpenConfigDir => (state, AppAction::OpenConfigDir),
            TrayAction::Exit => (AppState::Exiting, AppAction::ShutDown),
        },
        AppEvent::OverlayCancelled => (AppState::Idle, AppAction::Nothing),
        AppEvent::OverlayCompleted => (AppState::Idle, AppAction::ProcessCapture),
        AppEvent::OverlayPinned => (AppState::Idle, AppAction::ShowPin),
        AppEvent::LoopDestroyed => (AppState::Exiting, AppAction::Nothing),
    }
}

/// The state once the overlay has been asked to open: `Selecting` when it
/// showed, back to `Idle` when the cursor, the monitor or the window failed.
pub fn selection_opened(shown: bool) -> (r: AppState)
    ensures
        r == (if shown { AppState::Selecting } else { AppState::Idle }),
{
    if shown {
        AppState::Selecting
    } else {
        AppState::Idle
    }
}

/// The event loop stops exactly when the program is exiting.
pub fn should_exit(state: AppState) -> (r: bool)
    ensures
        r == (state == AppState::Exiting),
{
    match state {
        AppState::Exiting => true,
        _ => false,
    }
}

} // verus!
