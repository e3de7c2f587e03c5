//! The shell controller: one context object that owns the window registry
//! and the settings, consumes the events of the windowing system, and answers
//! the commands of hosted content.

use crate::address::parse_url;
use crate::clock::clock_seconds;
use crate::command::{text_view, Arguments, CommandKind, CommandRequest};
use crate::config::{AppConfig, ConfigStore, Length};
use crate::effect::{effects_view, Effect, EffectView, Outcome, ShellEvent, Step, StepView};
use crate::envelope::{
    CommandResult, CommandResultView, Payload, PayloadView, ShellError, ShellErrorView, SystemInfo,
};
use crate::menu::{MenuId, TrayId};
use crate::model::{
    app_entry, app_title, main_id, min_window_size, missing, new_window_size, quit_effect,
    ShellView,
    MIN_HEIGHT_BITS, MIN_WIDTH_BITS, NEW_WINDOW_HEIGHT_BITS, NEW_WINDOW_WIDTH_BITS,
};
use crate::text::same_text;
use crate::window::{
    visible_among, Size, WindowHandle, WindowHandleView, WindowRegistry, WindowState,
    WindowTarget, STAMP_LIMIT,
};
use vstd::prelude::*;
use vstd::string::*;

verus! {

/// The least extent of any window.
fn least_size() -> (size: Size)
    ensures
        size == min_window_size(),
{
    Size { width: Length { bits: MIN_WIDTH_BITS }, height: Length { bits: MIN_HEIGHT_BITS } }
}

/// The extent of a new window.
fn fresh_size() -> (size: Size)
    ensures
        size == new_window_size(),
{
    Size {
        width: Length { bits: NEW_WINDOW_WIDTH_BITS },
        height: Length { bits: NEW_WINDOW_HEIGHT_BITS },
    }
}

/// The answer to a request that lacks the argument `key`.
fn lacking(key: &str) -> (step: Step)
    ensures
        step@ == missing(key@),
        step@ matches StepView::Done(result) && result.well_formed(),
{
    Step::Done(CommandResult::failed(&ShellError::MissingArgument(key.to_owned())))
}

/// The shell controller. One is made when the process starts, and every
/// event and every command goes through it.
pub struct Shell {
    registry: WindowRegistry,
    config: ConfigStore,
    system: SystemInfo,
}

impl View for Shell {
    type V = ShellView;

    closed spec fn view(&self) -> ShellView {
        ShellView { registry: self.registry@, config: self.config@, system: self.system@ }
    }
}

impl Shell {
    /// Starts a shell on the machine that `system` describes. `persisted` is
    /// the settings record that persistent storage holds, `None` where it is
    /// absent or unreadable. The main window is registered, on screen, with
    /// the extent that the settings give.
    pub fn new(system: SystemInfo, persisted: Option<AppConfig>) -> (shell: Shell)
        ensures
            shell@ == ShellView::initial(
                system@,
                match persisted {
                    Some(p) => Some(p@),
                    None => None,
                },
            ),
            shell@.well_formed(),
    {
        let mut config = ConfigStore::new();
        let loaded = config.load(persisted);
        let mut registry = WindowRegistry::new();
        let main = WindowHandle {
            id: "main".to_owned(),
            title: "MadEasy Browser".to_owned(),
            target: WindowTarget::App("index.html".to_owned()),
            size: Size { width: loaded.window_width, height: loaded.window_height },
            min_size: least_size(),
        };
        let ghost first = WindowState { handle: main@, visible: true };
        let _ = registry.register(main);
        let shell = Shell { registry, config, system };
        proof {
            assert(shell@.registry.windows =~= seq![first]);
            assert(shell@.registry.windows[0].handle.id == main_id());
        }
        shell
    }

    /// The effects that bring a started shell on screen: the main window is
    /// brought into being and given its title.
    pub fn setup_app(&self) -> (effects: Vec<Effect>)
        requires
            self@.well_formed(),
        ensures
            effects_view(effects@) == seq![
                EffectView::OpenWindow { handle: self@.registry.state(main_id()).handle },
                EffectView::SetTitle { window: main_id(), title: app_title() },
            ],
    {
        let mut effects: Vec<Effect> = Vec::new();
        if let Some(handle) = self.registry.get("main") {
            effects.push(Effect::OpenWindow { handle });
        }
        effects.push(
            Effect::SetTitle { window: "main".to_owned(), title: "MadEasy Browser".to_owned() },
        );
        assert(effects_view(effects@) =~= seq![
            EffectView::OpenWindow { handle: self@.registry.state(main_id()).handle },
            EffectView::SetTitle { window: main_id(), title: app_title() },
        ]);
        effects
    }

    /// Judges how an effect of [`Shell::setup_app`] went. A failure at this
    /// point is a failure of setup, the one kind that ends the process.
    pub fn setup_outcome(outcome: &Outcome) -> (judged: Result<(), ShellError>)
        ensures
            match judged {
                Ok(()) => !(outcome@ is Failed),
                Err(error) => outcome@ is Failed && error@ == ShellErrorView::Setup(
                    outcome@->Failed_0,
                ),
            },
    {
        match outcome {
            Outcome::Failed(message) => Err(ShellError::Setup(message.clone())),
            _ => Ok(()),
        }
    }

    /// The number of live windows.
    pub fn window_count(&self) -> (count: usize)
        ensures
            count == self@.registry.windows.len(),
    {
        self.registry.len()
    }

    /// The number of live windows that are on screen.
    pub fn visible_window_count(&self) -> (count: usize)
        ensures
            count == visible_among(self@.registry.windows),
    {
        self.registry.visible_count()
    }

    /// The ids of the live windows, in the order in which they were added.
    pub fn window_ids(&self) -> (ids: Vec<String>)
        ensures
            ids@.len() == self@.registry.windows.len(),
            forall|i: int|
                0 <= i < ids@.len() ==> (#[trigger] ids@[i])@
                    == self@.registry.windows[i].handle.id,
    {
        self.registry.ids()
    }

    /// Whether a live window has this id.
    pub fn has_window(&self, id: &str) -> (found: bool)
        ensures
            found == self@.registry.has(id@),
    {
        self.registry.contains(id)
    }

    /// Whether the window with this id is on screen; `None` where no live
    /// window has the id.
    pub fn is_window_visible(&self, id: &str) -> (visible: Option<bool>)
        requires
            self@.well_formed(),
        ensures
            visible == (if self@.registry.has(id@) {
                Some(self@.registry.state(id@).visible)
            } else {
                None
            }),
    {
        self.registry.is_visible(id)
    }

    /// The description of the window with this id.
    pub fn window(&self, id: &str) -> (handle: Option<WindowHandle>)
        requires
            self@.well_formed(),
        ensures
            match handle {
                Some(h) => self@.registry.has(id@) && h@ == self@.registry.state(id@).handle,
                None => !self@.registry.has(id@),
            },
    {
        self.registry.get(id)
    }

    /// Puts the main window on screen and gives it the focus.
    fn show_main(&mut self) -> (effects: Vec<Effect>)
        requires
            old(self)@.well_formed(),
        ensures
            final(self)@ == old(self)@.main_shown().0,
            effects_view(effects@) == old(self)@.main_shown().1,
    {
        let _ = self.registry.show_window("main");
        let mut effects: Vec<Effect> = Vec::new();
        effects.push(Effect::ShowWindow { window: "main".to_owned() });
        effects.push(Effect::FocusWindow { window: "main".to_owned() });
        assert(effects_view(effects@) =~= old(self)@.main_shown().1);
        effects
    }

    /// Takes the main window off the screen; it stays live.
    fn hide_main(&mut self) -> (effects: Vec<Effect>)
        requires
            old(self)@.well_formed(),
        ensures
            final(self)@ == old(self)@.main_hidden().0,
            effects_view(effects@) == old(self)@.main_hidden().1,
    {
        let _ = self.registry.hide_window("main");
        let mut effects: Vec<Effect> = Vec::new();
        effects.push(Effect::HideWindow { window: "main".to_owned() });
        assert(effects_view(effects@) =~= old(self)@.main_hidden().1);
        effects
    }

    /// Creates a window that shows `target`, stamped by the clock reading.
    fn open_window(&mut self, target: WindowTarget, now: i64) -> (outcome: Result<
        WindowHandle,
        ShellError,
    >)
        requires
            old(self)@.well_formed(),
        ensures
            final(self)@ == old(self)@.window_opened(target@, now as int),
            match outcome {
                Ok(handle) => old(self)@.new_window(target@, now as int) == Ok::<
                    WindowHandleView,
                    ShellErrorView,
                >(handle@),
                Err(error) => old(self)@.new_window(target@, now as int) == Err::<
                    WindowHandleView,
                    ShellErrorView,
                >(error@),
            },
    {
        self.registry.create("MadEasy Browser".to_owned(), target, fresh_size(), least_size(), now)
    }

    /// A menu asked for a new window with the default content.
    fn select_window(&mut self, now: i64) -> (effects: Vec<Effect>)
        requires
            old(self)@.well_formed(),
        ensures
            final(self)@ == old(self)@.window_selected(now as int).0,
            effects_view(effects@) == old(self)@.window_selected(now as int).1,
    {
        let mut effects: Vec<Effect> = Vec::new();
        let target = WindowTarget::App("index.html".to_owned());
        if let Ok(handle) = self.open_window(target, now) {
            effects.push(Effect::OpenWindow { handle });
        }
        assert(effects_view(effects@) =~= old(self)@.window_selected(now as int).1);
        effects
    }

    /// The window `window` is asked to close, by the windowing system or by
    /// a menu.
    fn request_close(&mut self, window: &str, by_system: bool) -> (effects: Vec<Effect>)
        requires
            old(self)@.well_formed(),
        ensures
            final(self)@ == old(self)@.close_requested(window@, by_system).0,
            effects_view(effects@) == old(self)@.close_requested(window@, by_system).1,
    {
        if same_text(window, "main") {
            let mut effects = self.hide_main();
            let ghost hidden = effects_view(effects@);
            assert(hidden.len() == 1 && hidden[0] == EffectView::HideWindow { window: main_id() });
            if by_system {
                effects.push(Effect::PreventClose { window: "main".to_owned() });
                assert(effects_view(effects@)[0] == hidden[0]);
            }
            assert(effects_view(effects@) =~= old(self)@.close_requested(window@, by_system).1);
            effects
        } else {
            let mut effects: Vec<Effect> = Vec::new();
            if self.registry.close_window(window).is_ok() {
                effects.push(Effect::CloseWindow { window: window.to_owned() });
            }
            assert(effects_view(effects@) =~= old(self)@.close_requested(window@, by_system).1);
            effects
        }
    }

    /// Handles an event of the tray at clock reading `now`. A left click
    /// shows the main window and gives it the focus. Of the menu items,
    /// `show` does the same, `hide` hides the main window, `new_window`
    /// creates a window with the default content, and `quit` ends the
    /// process. Anything else leads to nothing.
    pub fn handle_system_tray_event(&mut self, event: &ShellEvent, now: i64) -> (effects: Vec<
        Effect,
    >)
        requires
            old(self)@.well_formed(),
        ensures
            final(self)@ == old(self)@.tray_routed(event@, now as int).0,
            effects_view(effects@) == old(self)@.tray_routed(event@, now as int).1,
            final(self)@.well_formed(),
    {
        proof {
            old(self)@.lemma_tray_routed_well_formed(event@, now as int);
        }
        match event {
            ShellEvent::TrayLeftClick => self.show_main(),
            ShellEvent::TrayMenuSelect { id } => match TrayId::from_name(id.as_str()) {
                Some(TrayId::Quit) => {
                    let mut effects: Vec<Effect> = Vec::new();
                    effects.push(Effect::Exit { code: 0 });
                    assert(effects_view(effects@) =~= seq![quit_effect()]);
                    effects
                },
                Some(TrayId::Hide) => self.hide_main(),
                Some(TrayId::Show) => self.show_main(),
                Some(TrayId::NewWindow) => self.select_window(now),
                None => {
                    let effects: Vec<Effect> = Vec::new();
                    assert(effects_view(effects@) =~= Seq::<EffectView>::empty());
                    effects
                },
            },
            _ => {
                let effects: Vec<Effect> = Vec::new();
                assert(effects_view(effects@) =~= Seq::<EffectView>::empty());
                effects
            },
        }
    }

    /// Handles a selection in the application menu at clock reading `now`.
    /// `quit` ends the process, `close` asks the window that owns the menu to
    /// close, `new_window` creates a window with the default content, `about`
    /// shows a notification, and `settings` is passed on to hosted content.
    /// Anything else leads to nothing.
    pub fn handle_menu_event(&mut self, event: &ShellEvent, now: i64) -> (effects: Vec<Effect>)
        requires
            old(self)@.well_formed(),
        ensures
            final(self)@ == old(self)@.menu_routed(event@, now as int).0,
            effects_view(effects@) == old(self)@.menu_routed(event@, now as int).1,
            final(self)@.well_formed(),
    {
        proof {
            old(self)@.lemma_menu_routed_well_formed(event@, now as int);
        }
        let mut effects: Vec<Effect> = Vec::new();
        match event {
            ShellEvent::MenuSelect { id, window } => match MenuId::from_name(id.as_str()) {
                Some(MenuId::Quit) => {
                    effects.push(Effect::Exit { code: 0 });
                },
                Some(MenuId::Close) => {
                    effects = self.request_close(window.as_str(), false);
                },
                Some(MenuId::NewWindow) => {
                    effects = self.select_window(now);
                },
                Some(MenuId::About) => {
                    effects.push(
                        Effect::Notify {
                            identifier: "com.madeasy.browser".to_owned(),
                            title: "About MadEasy Browser".to_owned(),
                            body: "MadEasy Browser v3.0.0\nBuilt with Tauri and Rust".to_owned(),
                        },
                    );
                },
                Some(MenuId::Settings) => {
                    effects.push(Effect::OpenSettings);
                },
                None => {},
            },
            _ => {},
        }
        assert(effects_view(effects@) =~= old(self)@.menu_routed(event@, now as int).1);
        effects
    }

    /// Handles the request of the user to close the window `window`. The
    /// main window is hidden and its close prevented; any other live window
    /// is closed.
    pub fn handle_close_requested(&mut self, window: &str) -> (effects: Vec<Effect>)
        requires
            old(self)@.well_formed(),
        ensures
            final(self)@ == old(self)@.close_requested(window@, true).0,
            effects_view(effects@) == old(self)@.close_requested(window@, true).1,
            final(self)@.well_formed(),
    {
        proof {
            old(self)@.lemma_close_requested_well_formed(window@, true);
        }
        self.request_close(window, true)
    }

    /// Handles an event of a window. A close request goes the way of
    /// [`Shell::handle_close_requested`]; whatever else happens to a window
    /// leads to nothing.
    pub fn handle_window_event(&mut self, event: &ShellEvent) -> (effects: Vec<Effect>)
        requires
            old(self)@.well_formed(),
        ensures
            final(self)@ == old(self)@.window_routed(event@).0,
            effects_view(effects@) == old(self)@.window_routed(event@).1,
            final(self)@.well_formed(),
    {
        match event {
            ShellEvent::WindowCloseRequested { window } => self.handle_close_requested(
                window.as_str(),
            ),
            _ => {
                let effects: Vec<Effect> = Vec::new();
                assert(effects_view(effects@) =~= Seq::<EffectView>::empty());
                effects
            },
        }
    }

    /// Routes one event at clock reading `now`: the shell moves to its next
    /// state, and the effects to perform are returned in order.
    pub fn route_at(&mut self, event: &ShellEvent, now: i64) -> (effects: Vec<Effect>)
        requires
            old(self)@.well_formed(),
        ensures
            final(self)@ == old(self)@.routed(event@, now as int).0,
            effects_view(effects@) == old(self)@.routed(event@, now as int).1,
            final(self)@.well_formed(),
    {
        match event {
            ShellEvent::TrayLeftClick => self.handle_system_tray_event(event, now),
            ShellEvent::TrayMenuSelect { .. } => self.handle_system_tray_event(event, now),
            ShellEvent::MenuSelect { .. } => self.handle_menu_event(event, now),
            ShellEvent::WindowCloseRequested { .. } => self.handle_window_event(event),
            ShellEvent::WindowOther { .. } => self.handle_window_event(event),
        }
    }

    /// Routes one event. Where the event asks for a new window, the wall
    /// clock is read, once, and whatever it shows, the event is routed as
    /// [`Shell::route_at`] routes it at that reading. For any other event
    /// no clock is read, and none matters.
    pub fn route(&mut self, event: &ShellEvent) -> (effects: Vec<Effect>)
        requires
            old(self)@.well_formed(),
        ensures
            exists|now: int|
                final(self)@ == (#[trigger] old(self)@.routed(event@, now)).0 && effects_view(
                    effects@,
                ) == old(self)@.routed(event@, now).1,
            !event@.opens_window() ==> final(self)@ == old(self)@.routed(event@, 0).0
                && effects_view(effects@) == old(self)@.routed(event@, 0).1,
            event@.opens_window() && old(self)@.registry.next_serial < STAMP_LIMIT
                ==> effects@.len() == 1 && effects@[0]@ is OpenWindow,
            event@.opens_window() && old(self)@.registry.next_serial >= STAMP_LIMIT
                ==> effects@.len() == 0,
            final(self)@.well_formed(),
    {
        let now = if event.opens_window() {
            clock_seconds()
        } else {
            0
        };
        let effects = self.route_at(event, now);
        proof {
            old(self)@.lemma_opening_well_formed(app_entry(), now as int);
            let asked = effects_view(effects@);
            assert(asked.len() == effects@.len());
            if asked.len() > 0 {
                assert(asked[0] == effects@[0]@);
            }
        }
        effects
    }

    /// `fetch_without_cors`: the address is handed on unchecked, and the
    /// answer waits for the body.
    pub fn fetch_without_cors(&self, url: String) -> (step: Step)
        ensures
            step@ == StepView::Pending(EffectView::Fetch { url: url@ }),
    {
        Step::Pending(Effect::Fetch { url })
    }

    /// `execute_javascript`: the script is to run in the window of the
    /// caller, which must be live.
    pub fn execute_javascript(&self, script: String, caller: &str) -> (step: Step)
        ensures
            step@ == self@.evaluated(script@, caller@),
            step@ matches StepView::Done(result) ==> result.well_formed(),
    {
        if self.registry.contains(caller) {
            Step::Pending(Effect::Evaluate { window: caller.to_owned(), script })
        } else {
            Step::Done(CommandResult::failed(&ShellError::NotFound(caller.to_owned())))
        }
    }

    /// `navigate_to`: the window of the caller is to show the address, which
    /// must be an absolute URL; the window must be live.
    pub fn navigate_to(&self, url: &str, caller: &str) -> (step: Step)
        ensures
            step@ == self@.navigated(url@, caller@),
            step@ matches StepView::Done(result) ==> result.well_formed(),
    {
        match parse_url(url) {
            Err(reason) => Step::Done(CommandResult::failed(&ShellError::InvalidUrl(reason))),
            Ok(address) => if self.registry.contains(caller) {
                Step::Pending(Effect::Navigate { window: caller.to_owned(), url: address })
            } else {
                Step::Done(CommandResult::failed(&ShellError::NotFound(caller.to_owned())))
            },
        }
    }

    /// `clear_browser_data`: succeeds, always, and hands nothing back.
    pub fn clear_browser_data(&self) -> (result: CommandResult)
        ensures
            result@ == CommandResultView::succeeded(None),
            result@.well_formed(),
    {
        CommandResult::succeeded(None)
    }

    /// `get_app_config`: succeeds, always, with the record held in memory.
    pub fn get_app_config(&self) -> (result: CommandResult)
        requires
            self@.well_formed(),
        ensures
            StepView::Done(result@) == self@.config_read(),
            result@.well_formed(),
    {
        let config = match self.config.current() {
            Some(config) => config,
            None => AppConfig::default(),
        };
        CommandResult::succeeded(Some(Payload::Config(config)))
    }

    /// `save_app_config`: the record replaces the one in memory at once; the
    /// answer waits for the write. A write that fails is reported, and the
    /// record in memory stays the new one.
    pub fn save_app_config(&mut self, config: AppConfig) -> (step: Step)
        requires
            old(self)@.well_formed(),
        ensures
            final(self)@ == old(self)@.config_saved(config@).0,
            step@ == old(self)@.config_saved(config@).1,
            final(self)@.well_formed(),
    {
        self.config.save(config.clone());
        Step::Pending(Effect::PersistConfig { config })
    }

    /// `open_external_url`: the address is handed to the system's handler.
    pub fn open_external_url(&self, url: String) -> (step: Step)
        ensures
            step@ == StepView::Pending(EffectView::OpenExternal { url: url@ }),
    {
        Step::Pending(Effect::OpenExternal { url })
    }

    /// `get_system_info`: succeeds, always, with the description of the
    /// machine.
    pub fn get_system_info(&self) -> (result: CommandResult)
        ensures
            result@ == CommandResultView::succeeded(Some(PayloadView::System(self@.system))),
            result@.well_formed(),
    {
        CommandResult::succeeded(Some(Payload::System(self.system.clone())))
    }

    /// `create_new_window` at clock reading `now`: a window is registered
    /// under a fresh id and is to be brought into being. It shows `url`,
    /// which must be an absolute URL, or the default content.
    pub fn create_new_window_at(&mut self, url: Option<String>, now: i64) -> (step: Step)
        requires
            old(self)@.well_formed(),
        ensures
            final(self)@ == old(self)@.window_requested(text_view(url), now as int).0,
            step@ == old(self)@.window_requested(text_view(url), now as int).1,
            step@ is Pending <==> ShellView::requested_target(text_view(url)) is Ok && old(
                self,
            )@.registry.next_serial < STAMP_LIMIT,
            final(self)@.well_formed(),
            step@ matches StepView::Done(result) ==> result.well_formed(),
    {
        proof {
            if let Ok(target) = ShellView::requested_target(text_view(url)) {
                old(self)@.lemma_opening_well_formed(target, now as int);
            }
        }
        let target = match url {
            None => WindowTarget::App("index.html".to_owned()),
            Some(text) => match parse_url(text.as_str()) {
                Ok(address) => WindowTarget::External(address),
                Err(reason) => {
                    return Step::Done(CommandResult::failed(&ShellError::InvalidUrl(reason)));
                },
            },
        };
        match self.open_window(target, now) {
            Ok(handle) => Step::Pending(Effect::OpenWindow { handle }),
            Err(error) => Step::Done(CommandResult::failed(&error)),
        }
    }

    /// `create_new_window` at the time that the wall clock shows. The clock
    /// is read once; whatever it shows, the command is performed as
    /// [`Shell::create_new_window_at`] performs it at that reading.
    pub fn create_new_window(&mut self, url: Option<String>) -> (step: Step)
        requires
            old(self)@.well_formed(),
        ensures
            exists|now: int|
                final(self)@ == (#[trigger] old(self)@.window_requested(text_view(url), now)).0
                    && step@ == old(self)@.window_requested(text_view(url), now).1,
            step@ is Pending <==> ShellView::requested_target(text_view(url)) is Ok && old(
                self,
            )@.registry.next_serial < STAMP_LIMIT,
            step@ matches StepView::Pending(effect) ==> effect is OpenWindow,
            final(self)@.well_formed(),
            step@ matches StepView::Done(result) ==> result.well_formed(),
    {
        let now = clock_seconds();
        self.create_new_window_at(url, now)
    }

    /// `minimize_to_tray`: the window `target` is taken off the screen and
    /// stays live.
    pub fn minimize_to_tray(&mut self, target: &str) -> (step: Step)
        requires
            old(self)@.well_formed(),
        ensures
            final(self)@ == old(self)@.minimized(target@).0,
            step@ == old(self)@.minimized(target@).1,
            final(self)@.well_formed(),
            step@ matches StepView::Done(result) ==> result.well_formed(),
    {
        proof {
            if old(self)@.registry.has(target@) {
                old(self)@.lemma_visibility_well_formed(target@, false);
            }
        }
        match self.registry.hide_window(target) {
            Ok(()) => Step::Pending(Effect::HideWindow { window: target.to_owned() }),
            Err(error) => Step::Done(CommandResult::failed(&error)),
        }
    }

    /// `show_notification`: a native notification is to be shown.
    pub fn show_notification(&self, title: String, body: String) -> (step: Step)
        ensures
            step@ == StepView::Pending(
                EffectView::Notify {
                    identifier: "com.madeasy.browser"@,
                    title: title@,
                    body: body@,
                },
            ),
    {
        Step::Pending(
            Effect::Notify { identifier: "com.madeasy.browser".to_owned(), title, body },
        )
    }

    /// Performs the command `kind` with the arguments `arguments`, asked
    /// from the window `caller` at clock reading `now`.
    pub fn perform(
        &mut self,
        kind: CommandKind,
        arguments: Arguments,
        caller: &str,
        now: i64,
    ) -> (step: Step)
        requires
            old(self)@.well_formed(),
        ensures
            final(self)@ == old(self)@.performed(kind, arguments@, caller@, now as int).0,
            step@ == old(self)@.performed(kind, arguments@, caller@, now as int).1,
            final(self)@.well_formed(),
            step@ matches StepView::Done(result) ==> result.well_formed(),
    {
        let Arguments { url, script, title, body, window, config } = arguments;
        match kind {
            CommandKind::FetchWithoutCors => match url {
                Some(url) => self.fetch_without_cors(url),
                None => lacking("url"),
            },
            CommandKind::ExecuteJavascript => match script {
                Some(script) => self.execute_javascript(script, caller),
                None => lacking("script"),
            },
            CommandKind::NavigateTo => match url {
                Some(url) => self.navigate_to(url.as_str(), caller),
                None => lacking("url"),
            },
            CommandKind::ClearBrowserData => Step::Done(self.clear_browser_data()),
            CommandKind::GetAppConfig => Step::Done(self.get_app_config()),
            CommandKind::SaveAppConfig => match config {
                Some(config) => self.save_app_config(config),
                None => lacking("config"),
            },
            CommandKind::OpenExternalUrl => match url {
                Some(url) => self.open_external_url(url),
                None => lacking("url"),
            },
            CommandKind::GetSystemInfo => Step::Done(self.get_system_info()),
            CommandKind::CreateNewWindow => self.create_new_window_at(url, now),
            CommandKind::MinimizeToTray => match window {
                Some(target) => self.minimize_to_tray(target.as_str()),
                None => self.minimize_to_tray(caller),
            },
            CommandKind::ShowNotification => match title {
                None => lacking("title"),
                Some(title) => match body {
                    Some(body) => self.show_notification(title, body),
                    None => lacking("body"),
                },
            },
        }
    }

    /// Answers a request of hosted content, asked from the window `caller`
    /// at clock reading `now`. A name outside the command surface is refused.
    /// Nothing that goes wrong ends the process: it is reported in the
    /// envelope.
    pub fn dispatch_at(&mut self, request: CommandRequest, caller: &str, now: i64) -> (step: Step)
        requires
            old(self)@.well_formed(),
        ensures
            final(self)@ == old(self)@.dispatched(request@, caller@, now as int).0,
            step@ == old(self)@.dispatched(request@, caller@, now as int).1,
            final(self)@.well_formed(),
            step@ matches StepView::Done(result) ==> result.well_formed(),
    {
        let CommandRequest { name, arguments } = request;
        match CommandKind::from_name(name.as_str()) {
            Some(kind) => self.perform(kind, arguments, caller, now),
            None => Step::Done(CommandResult::failed(&ShellError::UnknownCommand(name))),
        }
    }

    /// Answers a request of hosted content. For `create_new_window` the wall
    /// clock is read, once, and whatever it shows, the request is answered
    /// as [`Shell::dispatch_at`] answers it at that reading. For any other
    /// request no clock is read, and none matters.
    pub fn dispatch(&mut self, request: CommandRequest, caller: &str) -> (step: Step)
        requires
            old(self)@.well_formed(),
        ensures
            exists|now: int|
                final(self)@ == (#[trigger] old(self)@.dispatched(request@, caller@, now)).0
                    && step@ == old(self)@.dispatched(request@, caller@, now).1,
            CommandKind::spec_from_name(request@.name) != Some(CommandKind::CreateNewWindow)
                ==> final(self)@ == old(self)@.dispatched(request@, caller@, 0).0 && step@
                == old(self)@.dispatched(request@, caller@, 0).1,
            CommandKind::spec_from_name(request@.name) == Some(CommandKind::CreateNewWindow) ==> (
            step@ is Pending <==> ShellView::requested_target(request@.arguments.url) is Ok
                && old(self)@.registry.next_serial < STAMP_LIMIT),
            CommandKind::spec_from_name(request@.name) == Some(CommandKind::CreateNewWindow)
                ==> (step@ matches StepView::Pending(effect) ==> effect is OpenWindow),
            final(self)@.well_formed(),
            step@ matches StepView::Done(result) ==> result.well_formed(),
    {
        let now = match CommandKind::from_name(request.name.as_str()) {
            Some(CommandKind::CreateNewWindow) => clock_seconds(),
            _ => 0,
        };
        proof {
            if let Ok(target) = ShellView::requested_target(request@.arguments.url) {
                old(self)@.lemma_opening_well_formed(target, now as int);
            }
        }
        self.dispatch_at(request, caller, now)
    }

    /// Completes the command that waited for `effect`, once the effect went
    /// as `outcome` says, and gives its answer. A window that could not be
    /// brought into being is live no longer.
    pub fn complete(&mut self, effect: &Effect, outcome: Outcome) -> (result: CommandResult)
        requires
            old(self)@.well_formed(),
        ensures
            final(self)@ == old(self)@.after_outcome(effect@, outcome@),
            result@ == ShellView::answer(effect@, outcome@),
            final(self)@.well_formed(),
            result@.well_formed(),
    {
        proof {
            old(self)@.lemma_outcome_well_formed(effect@, outcome@);
        }
        match outcome {
            Outcome::Failed(message) => {
                let error = match effect {
                    Effect::Fetch { .. } => ShellError::Transport(message),
                    Effect::OpenWindow { handle } => {
                        if !same_text(handle.id.as_str(), "main") {
                            let _ = self.registry.close_window(handle.id.as_str());
                        }
                        ShellError::Capability(message)
                    },
                    _ => ShellError::Capability(message),
                };
                CommandResult::failed(&error)
            },
            Outcome::Text(body) => match effect {
                Effect::Fetch { .. } => CommandResult::succeeded(Some(Payload::Text(body))),
                _ => CommandResult::succeeded(None),
            },
            Outcome::Done => match effect {
                Effect::Fetch { .. } => CommandResult::succeeded(
                    Some(Payload::Text(String::new())),
                ),
                _ => CommandResult::succeeded(None),
            },
        }
    }
}

} // verus!
