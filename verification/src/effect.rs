//! What the shell asks of the operating system, and what comes back.
//!
//! The controller never touches a window, the network or a file. It decides,
//! and describes what is to be done as an [`Effect`]. The embedding program
//! performs the effect and reports how it went as an [`Outcome`].

use crate::config::{AppConfig, AppConfigView};
use crate::envelope::{CommandResult, CommandResultView};
use crate::menu::{MenuId, TrayId};
use crate::window::{WindowHandle, WindowHandleView};
use vstd::prelude::*;
use vstd::string::*;

verus! {

/// One request to the operating system.
#[derive(Debug, PartialEq, Eq)]
pub enum Effect {
    /// Get the resource at `url` over HTTP, free of any origin rule, and
    /// report its body as text.
    Fetch { url: String },
    /// Run `script` in the content of the window `window`.
    Evaluate { window: String, script: String },
    /// Point the content of the window `window` to `url`.
    Navigate { window: String, url: String },
    /// Write the settings record to persistent storage.
    PersistConfig { config: AppConfig },
    /// Open `url` with the handler that the system has for it.
    OpenExternal { url: String },
    /// Bring the described window into being.
    OpenWindow { handle: WindowHandle },
    /// Give the window `window` the title `title`.
    SetTitle { window: String, title: String },
    /// Put the window `window` on screen.
    ShowWindow { window: String },
    /// Give the window `window` the input focus.
    FocusWindow { window: String },
    /// Take the window `window` off the screen.
    HideWindow { window: String },
    /// End the window `window`.
    CloseWindow { window: String },
    /// Do not let the close that the window `window` asked for go ahead.
    PreventClose { window: String },
    /// Show a native notification.
    Notify { identifier: String, title: String, body: String },
    /// Tell hosted content that its settings page was asked for.
    OpenSettings,
    /// End the process with this exit code.
    Exit { code: i32 },
}

/// What an [`Effect`] holds.
pub enum EffectView {
    Fetch { url: Seq<char> },
    Evaluate { window: Seq<char>, script: Seq<char> },
    Navigate { window: Seq<char>, url: Seq<char> },
    PersistConfig { config: AppConfigView },
    OpenExternal { url: Seq<char> },
    OpenWindow { handle: WindowHandleView },
    SetTitle { window: Seq<char>, title: Seq<char> },
    ShowWindow { window: Seq<char> },
    FocusWindow { window: Seq<char> },
    HideWindow { window: Seq<char> },
    CloseWindow { window: Seq<char> },
    PreventClose { window: Seq<char> },
    Notify { identifier: Seq<char>, title: Seq<char>, body: Seq<char> },
    OpenSettings,
    Exit { code: i32 },
}

impl View for Effect {
    type V = EffectView;

    open spec fn view(&self) -> EffectView {
        match self {
            Effect::Fetch { url } => EffectView::Fetch { url: url@ },
            Effect::Evaluate { window, script } => EffectView::Evaluate {
                window: window@,
                script: script@,
            },
            Effect::Navigate { window, url } => EffectView::Navigate { window: window@, url: url@ },
            Effect::PersistConfig { config } => EffectView::PersistConfig { config: config@ },
            Effect::OpenExternal { url } => EffectView::OpenExternal { url: url@ },
            Effect::OpenWindow { handle } => EffectView::OpenWindow { handle: handle@ },
            Effect::SetTitle { window, title } => EffectView::SetTitle {
                window: window@,
                title: title@,
            },
            Effect::ShowWindow { window } => EffectView::ShowWindow { window: window@ },
            Effect::FocusWindow { window } => EffectView::FocusWindow { window: window@ },
            Effect::HideWindow { window } => EffectView::HideWindow { window: window@ },
            Effect::CloseWindow { window } => EffectView::CloseWindow { window: window@ },
            Effect::PreventClose { window } => EffectView::PreventClose { window: window@ },
            Effect::Notify { identifier, title, body } => EffectView::Notify {
                identifier: identifier@,
                title: title@,
                body: body@,
            },
            Effect::OpenSettings => EffectView::OpenSettings,
            Effect::Exit { code } => EffectView::Exit { code: *code },
        }
    }
}

/// What a list of effects holds, in order.
pub open spec fn effects_view(effects: Seq<Effect>) -> Seq<EffectView> {
    Seq::new(effects.len(), |i: int| effects[i]@)
}

/// How an effect went.
#[derive(Debug, PartialEq, Eq)]
pub enum Outcome {
    /// It was carried out and hands nothing back.
    Done,
    /// It was carried out and hands back this text.
    Text(String),
    /// It was not carried out; holds what the system said.
    Failed(String),
}

/// What an [`Outcome`] holds.
pub enum OutcomeView {
    Done,
    Text(Seq<char>),
    Failed(Seq<char>),
}

impl View for Outcome {
    type V = OutcomeView;

    open spec fn view(&self) -> OutcomeView {
        match self {
            Outcome::Done => OutcomeView::Done,
            Outcome::Text(text) => OutcomeView::Text(text@),
            Outcome::Failed(message) => OutcomeView::Failed(message@),
        }
    }
}

/// Where a command stands after the controller has looked at it.
#[derive(Debug, PartialEq, Eq)]
pub enum Step {
    /// The command is answered.
    Done(CommandResult),
    /// The answer waits for this effect: once it is performed, its outcome
    /// completes the command.
    Pending(Effect),
}

/// What a [`Step`] holds.
pub enum StepView {
    Done(CommandResultView),
    Pending(EffectView),
}

impl View for Step {
    type V = StepView;

    open spec fn view(&self) -> StepView {
        match self {
            Step::Done(result) => StepView::Done(result@),
            Step::Pending(effect) => StepView::Pending(effect@),
        }
    }
}

/// An event that the windowing system delivers.
#[derive(Debug, PartialEq, Eq)]
pub enum ShellEvent {
    /// The tray icon was clicked with the left button.
    TrayLeftClick,
    /// The item `id` of the tray menu was selected.
    TrayMenuSelect { id: String },
    /// The item `id` of the menu of the window `window` was selected.
    MenuSelect { id: String, window: String },
    /// The user asked to close the window `window`.
    WindowCloseRequested { window: String },
    /// Something else happened to the window `window`: it was moved or
    /// resized, or it gained or lost the focus.
    WindowOther { window: String },
}

/// What a [`ShellEvent`] holds.
pub enum ShellEventView {
    TrayLeftClick,
    TrayMenuSelect { id: Seq<char> },
    MenuSelect { id: Seq<char>, window: Seq<char> },
    WindowCloseRequested { window: Seq<char> },
    WindowOther { window: Seq<char> },
}

impl View for ShellEvent {
    type V = ShellEventView;

    open spec fn view(&self) -> ShellEventView {
        match self {
            ShellEvent::TrayLeftClick => ShellEventView::TrayLeftClick,
            ShellEvent::TrayMenuSelect { id } => ShellEventView::TrayMenuSelect { id: id@ },
            ShellEvent::MenuSelect { id, window } => ShellEventView::MenuSelect {
                id: id@,
                window: window@,
            },
            ShellEvent::WindowCloseRequested { window } => ShellEventView::WindowCloseRequested {
                window: window@,
            },
            ShellEvent::WindowOther { window } => ShellEventView::WindowOther { window: window@ },
        }
    }
}

impl ShellEventView {
    /// Whether the event asks for a new window. Only such an event is
    /// stamped, so only for it is the clock read.
    pub open spec fn opens_window(self) -> bool {
        match self {
            ShellEventView::TrayMenuSelect { id } => TrayId::spec_from_name(id) == Some(
                TrayId::NewWindow,
            ),
            ShellEventView::MenuSelect { id, .. } => MenuId::spec_from_name(id) == Some(
                MenuId::NewWindow,
            ),
            _ => false,
        }
    }
}

impl ShellEvent {
    /// Whether the event asks for a new window.
    pub fn opens_window(&self) -> (opens: bool)
        ensures
            opens == self@.opens_window(),
    {
        match self {
            ShellEvent::TrayMenuSelect { id } => match TrayId::from_name(id.as_str()) {
                Some(TrayId::NewWindow) => true,
                _ => false,
            },
            ShellEvent::MenuSelect { id, .. } => match MenuId::from_name(id.as_str()) {
                Some(MenuId::NewWindow) => true,
                _ => false,
            },
            _ => false,
        }
    }
}

} // verus!
