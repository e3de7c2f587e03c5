//! The states of a shell and the steps between them, as mathematics.
//!
//! [`ShellView`] is what a shell is at one moment. The functions on it say
//! where each event and each command leads; the controller is held to them.

use crate::address::parsed_url;
use crate::command::{ArgumentsView, CommandKind, CommandRequestView};
use crate::config::{loaded_config, AppConfigView, Length};
use crate::effect::{EffectView, OutcomeView, ShellEventView, StepView};
use crate::envelope::{CommandResultView, PayloadView, ShellErrorView, SystemInfoView};
use crate::menu::{MenuId, TrayId};
use crate::window::{
    lemma_window_label_injective, lemma_window_label_not_main, window_label, RegistryView, Size,
    WindowHandleView, WindowState, WindowTargetView, STAMP_LIMIT,
};
use vstd::prelude::*;

verus! {

/// 1200 logical pixels: the width of a new window.
pub const NEW_WINDOW_WIDTH_BITS: u64 = 0x4092_C000_0000_0000;

/// 800 logical pixels: the height of a new window.
pub const NEW_WINDOW_HEIGHT_BITS: u64 = 0x4089_0000_0000_0000;

/// 800 logical pixels: the least width of any window.
pub const MIN_WIDTH_BITS: u64 = 0x4089_0000_0000_0000;

/// 600 logical pixels: the least height of any window.
pub const MIN_HEIGHT_BITS: u64 = 0x4082_C000_0000_0000;

/// The id of the distinguished window, which no action of the user ends.
pub open spec fn main_id() -> Seq<char> {
    "main"@
}

/// The title of every window of the application.
pub open spec fn app_title() -> Seq<char> {
    "MadEasy Browser"@
}

/// The resource that a window shows where no address is given.
pub open spec fn app_entry() -> WindowTargetView {
    WindowTargetView::App("index.html"@)
}

/// The extent of a new window.
pub open spec fn new_window_size() -> Size {
    Size {
        width: Length { bits: NEW_WINDOW_WIDTH_BITS },
        height: Length { bits: NEW_WINDOW_HEIGHT_BITS },
    }
}

/// The least extent of any window.
pub open spec fn min_window_size() -> Size {
    Size { width: Length { bits: MIN_WIDTH_BITS }, height: Length { bits: MIN_HEIGHT_BITS } }
}

/// The notification that the menu item `about` shows.
pub open spec fn about_notice() -> EffectView {
    EffectView::Notify {
        identifier: "com.madeasy.browser"@,
        title: "About MadEasy Browser"@,
        body: "MadEasy Browser v3.0.0\nBuilt with Tauri and Rust"@,
    }
}

/// The effect that ends the process after an explicit quit.
pub open spec fn quit_effect() -> EffectView {
    EffectView::Exit { code: 0 }
}

/// Whether `id` is an id that a shell hands out before its stamp reaches
/// `next`: the id of the main window, or a stamped id below `next`.
pub open spec fn issued(id: Seq<char>, next: nat) -> bool {
    id == main_id() || exists|k: nat| k < next && id == #[trigger] window_label(k)
}

/// The answer to a request that lacks the argument `key`.
pub open spec fn missing(key: Seq<char>) -> StepView {
    StepView::Done(CommandResultView::failed(ShellErrorView::MissingArgument(key)))
}

/// The answer that reports `error`.
pub open spec fn refused(error: ShellErrorView) -> StepView {
    StepView::Done(CommandResultView::failed(error))
}

/// The state of a shell.
pub struct ShellView {
    pub registry: RegistryView,
    pub config: Option<AppConfigView>,
    pub system: SystemInfoView,
}

impl ShellView {
    /// What holds of a shell at all times: no two live windows share an id,
    /// the main window is live, every live id was handed out by this shell,
    /// and the settings are loaded.
    pub open spec fn well_formed(self) -> bool {
        &&& self.registry.well_formed()
        &&& self.registry.has(main_id())
        &&& forall|i: int|
            0 <= i < self.registry.windows.len() ==> issued(
                (#[trigger] self.registry.windows[i]).handle.id,
                self.registry.next_serial,
            )
        &&& self.config is Some
    }

    /// The description of the main window of a shell with these settings.
    pub open spec fn main_window(config: AppConfigView) -> WindowHandleView {
        WindowHandleView {
            id: main_id(),
            title: app_title(),
            target: app_entry(),
            size: Size { width: config.window_width, height: config.window_height },
            min_size: min_window_size(),
        }
    }

    /// The state in which a shell starts: the main window alone, on screen,
    /// and the settings as storage holds them, or the default record.
    pub open spec fn initial(
        system: SystemInfoView,
        persisted: Option<AppConfigView>,
    ) -> ShellView {
        let config = loaded_config(None, persisted);
        ShellView {
            registry: RegistryView {
                windows: seq![
                    WindowState { handle: ShellView::main_window(config), visible: true },
                ],
                next_serial: 0,
            },
            config: Some(config),
            system,
        }
    }

    /// This state with the registry in another state.
    pub open spec fn with_registry(self, registry: RegistryView) -> ShellView {
        ShellView { registry, ..self }
    }

    /// The main window is put on screen and given the focus.
    pub open spec fn main_shown(self) -> (ShellView, Seq<EffectView>) {
        (
            self.with_registry(self.registry.with_visibility(main_id(), true)),
            seq![
                EffectView::ShowWindow { window: main_id() },
                EffectView::FocusWindow { window: main_id() },
            ],
        )
    }

    /// The main window is taken off the screen and stays live.
    pub open spec fn main_hidden(self) -> (ShellView, Seq<EffectView>) {
        (
            self.with_registry(self.registry.with_visibility(main_id(), false)),
            seq![EffectView::HideWindow { window: main_id() }],
        )
    }

    /// What creating a window that shows `target` at clock reading `now`
    /// yields.
    pub open spec fn new_window(self, target: WindowTargetView, now: int) -> Result<
        WindowHandleView,
        ShellErrorView,
    > {
        self.registry.creation(app_title(), target, new_window_size(), min_window_size(), now)
    }

    /// The state after creating a window that shows `target` at clock reading
    /// `now`.
    pub open spec fn window_opened(self, target: WindowTargetView, now: int) -> ShellView {
        self.with_registry(
            self.registry.after_creation(
                app_title(),
                target,
                new_window_size(),
                min_window_size(),
                now,
            ),
        )
    }

    /// A menu asks for a new window with the default content. A window that
    /// cannot be made is passed over in silence.
    pub open spec fn window_selected(self, now: int) -> (ShellView, Seq<EffectView>) {
        (
            self.window_opened(app_entry(), now),
            match self.new_window(app_entry(), now) {
                Ok(handle) => seq![EffectView::OpenWindow { handle }],
                Err(_) => seq![],
            },
        )
    }

    /// The window `window` is asked to close. The main window is hidden
    /// instead and stays live; where the request came from the windowing
    /// system, the close that it would go on with is prevented. Any other
    /// live window is closed. An unknown id changes nothing.
    pub open spec fn close_requested(self, window: Seq<char>, by_system: bool) -> (
        ShellView,
        Seq<EffectView>,
    ) {
        if window == main_id() {
            (
                self.main_hidden().0,
                if by_system {
                    seq![
                        EffectView::HideWindow { window: main_id() },
                        EffectView::PreventClose { window: main_id() },
                    ]
                } else {
                    seq![EffectView::HideWindow { window: main_id() }]
                },
            )
        } else if self.registry.has(window) {
            (
                self.with_registry(self.registry.without(window)),
                seq![EffectView::CloseWindow { window }],
            )
        } else {
            (self, seq![])
        }
    }

    /// What an event of the tray leads to. Other events lead to nothing here.
    pub open spec fn tray_routed(self, event: ShellEventView, now: int) -> (
        ShellView,
        Seq<EffectView>,
    ) {
        match event {
            ShellEventView::TrayLeftClick => self.main_shown(),
            ShellEventView::TrayMenuSelect { id } => match TrayId::spec_from_name(id) {
                Some(TrayId::Quit) => (self, seq![quit_effect()]),
                Some(TrayId::Hide) => self.main_hidden(),
                Some(TrayId::Show) => self.main_shown(),
                Some(TrayId::NewWindow) => self.window_selected(now),
                None => (self, seq![]),
            },
            _ => (self, seq![]),
        }
    }

    /// What a selection in the application menu leads to. Other events lead
    /// to nothing here.
    pub open spec fn menu_routed(self, event: ShellEventView, now: int) -> (
        ShellView,
        Seq<EffectView>,
    ) {
        match event {
            ShellEventView::MenuSelect { id, window } => match MenuId::spec_from_name(id) {
                Some(MenuId::Quit) => (self, seq![quit_effect()]),
                Some(MenuId::Close) => self.close_requested(window, false),
                Some(MenuId::NewWindow) => self.window_selected(now),
                Some(MenuId::About) => (self, seq![about_notice()]),
                Some(MenuId::Settings) => (self, seq![EffectView::OpenSettings]),
                None => (self, seq![]),
            },
            _ => (self, seq![]),
        }
    }

    /// What an event of a window leads to: a close request is dealt with as
    /// [`ShellView::close_requested`] says, and nothing else that happens to
    /// a window changes anything. Other events lead to nothing here.
    pub open spec fn window_routed(self, event: ShellEventView) -> (ShellView, Seq<EffectView>) {
        match event {
            ShellEventView::WindowCloseRequested { window } => self.close_requested(window, true),
            _ => (self, seq![]),
        }
    }

    /// What an event leads to at clock reading `now`: the next state, and the
    /// effects to perform, in order.
    pub open spec fn routed(self, event: ShellEventView, now: int) -> (ShellView, Seq<EffectView>) {
        match event {
            ShellEventView::TrayLeftClick => self.tray_routed(event, now),
            ShellEventView::TrayMenuSelect { .. } => self.tray_routed(event, now),
            ShellEventView::MenuSelect { .. } => self.menu_routed(event, now),
            ShellEventView::WindowCloseRequested { .. } => self.window_routed(event),
            ShellEventView::WindowOther { .. } => self.window_routed(event),
        }
    }

    /// The window that an event brings about at clock reading `now`, if it
    /// brings one about.
    pub open spec fn opened_by(self, event: ShellEventView, now: int) -> Option<WindowHandleView> {
        if event.opens_window() {
            match self.new_window(app_entry(), now) {
                Ok(handle) => Some(handle),
                Err(_) => None,
            }
        } else {
            None
        }
    }

    /// The id of the window that an event ends, if it ends one: a live
    /// window other than the main window that is asked to close, by the
    /// windowing system or by the item `close` of its menu.
    pub open spec fn closed_by(self, event: ShellEventView) -> Option<Seq<char>> {
        let asked = match event {
            ShellEventView::WindowCloseRequested { window } => Some(window),
            ShellEventView::MenuSelect { id, window } => if MenuId::spec_from_name(id) == Some(
                MenuId::Close,
            ) {
                Some(window)
            } else {
                None
            },
            _ => None,
        };
        match asked {
            Some(window) => if window != main_id() && self.registry.has(window) {
                Some(window)
            } else {
                None
            },
            None => None,
        }
    }

    /// The id of the window that is forgotten when an effect went as
    /// `outcome` says, if one is.
    pub open spec fn forgotten_by(self, effect: EffectView, outcome: OutcomeView) -> Option<
        Seq<char>,
    > {
        match (effect, outcome) {
            (EffectView::OpenWindow { handle }, OutcomeView::Failed(_)) => if handle.id != main_id()
                && self.registry.has(handle.id) {
                Some(handle.id)
            } else {
                None
            },
            _ => None,
        }
    }

    /// `navigate_to`: the address must be an absolute URL and the window of
    /// the caller live.
    pub open spec fn navigated(self, url: Seq<char>, caller: Seq<char>) -> StepView {
        match parsed_url(url) {
            Err(reason) => refused(ShellErrorView::InvalidUrl(reason)),
            Ok(address) => if self.registry.has(caller) {
                StepView::Pending(EffectView::Navigate { window: caller, url: address })
            } else {
                refused(ShellErrorView::NotFound(caller))
            },
        }
    }

    /// `execute_javascript`: the window of the caller must be live.
    pub open spec fn evaluated(self, script: Seq<char>, caller: Seq<char>) -> StepView {
        if self.registry.has(caller) {
            StepView::Pending(EffectView::Evaluate { window: caller, script })
        } else {
            refused(ShellErrorView::NotFound(caller))
        }
    }

    /// The content that `create_new_window` gives a window: the default
    /// resource, or the address where it is an absolute URL.
    pub open spec fn requested_target(url: Option<Seq<char>>) -> Result<
        WindowTargetView,
        ShellErrorView,
    > {
        match url {
            None => Ok(app_entry()),
            Some(text) => match parsed_url(text) {
                Ok(address) => Ok(WindowTargetView::External(address)),
                Err(reason) => Err(ShellErrorView::InvalidUrl(reason)),
            },
        }
    }

    /// `create_new_window` at clock reading `now`.
    pub open spec fn window_requested(self, url: Option<Seq<char>>, now: int) -> (
        ShellView,
        StepView,
    ) {
        match ShellView::requested_target(url) {
            Err(error) => (self, refused(error)),
            Ok(target) => (
                self.window_opened(target, now),
                match self.new_window(target, now) {
                    Ok(handle) => StepView::Pending(EffectView::OpenWindow { handle }),
                    Err(error) => refused(error),
                },
            ),
        }
    }

    /// `minimize_to_tray`: the window `target` is taken off the screen.
    pub open spec fn minimized(self, target: Seq<char>) -> (ShellView, StepView) {
        if self.registry.has(target) {
            (
                self.with_registry(self.registry.with_visibility(target, false)),
                StepView::Pending(EffectView::HideWindow { window: target }),
            )
        } else {
            (self, refused(ShellErrorView::NotFound(target)))
        }
    }

    /// `save_app_config`: the record replaces the one in memory at once, and
    /// is then to be written.
    pub open spec fn config_saved(self, config: AppConfigView) -> (ShellView, StepView) {
        (
            ShellView { config: Some(config), ..self },
            StepView::Pending(EffectView::PersistConfig { config }),
        )
    }

    /// `get_app_config`: the record in memory.
    pub open spec fn config_read(self) -> StepView {
        StepView::Done(
            CommandResultView::succeeded(Some(PayloadView::Config(self.config.unwrap()))),
        )
    }

    /// What the command `kind` leads to with the arguments `arguments`, asked
    /// from the window `caller` at clock reading `now`.
    pub open spec fn performed(
        self,
        kind: CommandKind,
        arguments: ArgumentsView,
        caller: Seq<char>,
        now: int,
    ) -> (ShellView, StepView) {
        match kind {
            CommandKind::FetchWithoutCors => match arguments.url {
                Some(url) => (self, StepView::Pending(EffectView::Fetch { url })),
                None => (self, missing("url"@)),
            },
            CommandKind::ExecuteJavascript => match arguments.script {
                Some(script) => (self, self.evaluated(script, caller)),
                None => (self, missing("script"@)),
            },
            CommandKind::NavigateTo => match arguments.url {
                Some(url) => (self, self.navigated(url, caller)),
                None => (self, missing("url"@)),
            },
            CommandKind::ClearBrowserData => (
                self,
                StepView::Done(CommandResultView::succeeded(None)),
            ),
            CommandKind::GetAppConfig => (self, self.config_read()),
            CommandKind::SaveAppConfig => match arguments.config {
                Some(config) => self.config_saved(config),
                None => (self, missing("config"@)),
            },
            CommandKind::OpenExternalUrl => match arguments.url {
                Some(url) => (self, StepView::Pending(EffectView::OpenExternal { url })),
                None => (self, missing("url"@)),
            },
            CommandKind::GetSystemInfo => (
                self,
                StepView::Done(
                    CommandResultView::succeeded(Some(PayloadView::System(self.system))),
                ),
            ),
            CommandKind::CreateNewWindow => self.window_requested(arguments.url, now),
            CommandKind::MinimizeToTray => match arguments.window {
                Some(target) => self.minimized(target),
                None => self.minimized(caller),
            },
            CommandKind::ShowNotification => match (arguments.title, arguments.body) {
                (Some(title), Some(body)) => (
                    self,
                    StepView::Pending(
                        EffectView::Notify { identifier: "com.madeasy.browser"@, title, body },
                    ),
                ),
                (None, _) => (self, missing("title"@)),
                (Some(_), None) => (self, missing("body"@)),
            },
        }
    }

    /// What a request leads to: a name outside the command surface is
    /// refused, any other is performed.
    pub open spec fn dispatched(self, request: CommandRequestView, caller: Seq<char>, now: int) -> (
        ShellView,
        StepView,
    ) {
        match CommandKind::spec_from_name(request.name) {
            Some(kind) => self.performed(kind, request.arguments, caller, now),
            None => (self, refused(ShellErrorView::UnknownCommand(request.name))),
        }
    }

    /// The failure that an effect reports when the system did not carry it
    /// out: a fetch fails in transport, anything else by a refused capability.
    pub open spec fn failure_of(effect: EffectView, message: Seq<char>) -> ShellErrorView {
        match effect {
            EffectView::Fetch { .. } => ShellErrorView::Transport(message),
            _ => ShellErrorView::Capability(message),
        }
    }

    /// The state after an effect went as `outcome` says. Only a window that
    /// could not be brought into being changes it: that window is live no
    /// longer, unless it is the main window.
    pub open spec fn after_outcome(self, effect: EffectView, outcome: OutcomeView) -> ShellView {
        match (effect, outcome) {
            (EffectView::OpenWindow { handle }, OutcomeView::Failed(_)) => if handle.id != main_id()
                && self.registry.has(handle.id) {
                self.with_registry(self.registry.without(handle.id))
            } else {
                self
            },
            _ => self,
        }
    }

    /// The answer to the command that waited for `effect`, once the effect
    /// went as `outcome` says.
    pub open spec fn answer(effect: EffectView, outcome: OutcomeView) -> CommandResultView {
        match outcome {
            OutcomeView::Failed(message) => CommandResultView::failed(
                ShellView::failure_of(effect, message),
            ),
            OutcomeView::Text(body) => match effect {
                EffectView::Fetch { .. } => CommandResultView::succeeded(
                    Some(PayloadView::Text(body)),
                ),
                _ => CommandResultView::succeeded(None),
            },
            OutcomeView::Done => match effect {
                EffectView::Fetch { .. } => CommandResultView::succeeded(
                    Some(PayloadView::Text(Seq::empty())),
                ),
                _ => CommandResultView::succeeded(None),
            },
        }
    }

    /// In a well-formed state no live window has the id of a stamp that was
    /// not issued yet.
    pub proof fn lemma_unissued_stamp_is_free(self, stamp: nat)
        requires
            self.well_formed(),
            stamp >= self.registry.next_serial,
        ensures
            !self.registry.has(window_label(stamp)),
    {
        if self.registry.has(window_label(stamp)) {
            let i = self.registry.slot(window_label(stamp));
            let id = self.registry.windows[i].handle.id;
            assert(issued(id, self.registry.next_serial));
            lemma_window_label_not_main(stamp);
            let k = choose|k: nat|
                k < self.registry.next_serial && id == #[trigger] window_label(k);
            lemma_window_label_injective(k, stamp);
        }
    }

    /// Showing or hiding a live window keeps a shell well formed.
    pub proof fn lemma_visibility_well_formed(self, id: Seq<char>, visible: bool)
        requires
            self.well_formed(),
            self.registry.has(id),
        ensures
            self.with_registry(self.registry.with_visibility(id, visible)).well_formed(),
    {
        self.registry.lemma_with_visibility(id, visible);
        let r = self.registry.with_visibility(id, visible);
        assert(r.has(main_id()) == self.registry.has(main_id()));
        assert forall|i: int| 0 <= i < r.windows.len() implies issued(
            (#[trigger] r.windows[i]).handle.id,
            r.next_serial,
        ) by {
            assert(r.windows[i].handle == self.registry.windows[i].handle);
        }
    }

    /// Closing a live window other than the main window keeps a shell well
    /// formed.
    pub proof fn lemma_closing_well_formed(self, id: Seq<char>)
        requires
            self.well_formed(),
            self.registry.has(id),
            id != main_id(),
        ensures
            self.with_registry(self.registry.without(id)).well_formed(),
    {
        self.registry.lemma_without(id);
        let r = self.registry.without(id);
        assert(r.has(main_id()) == (self.registry.has(main_id()) && main_id() != id));
        assert forall|i: int| 0 <= i < r.windows.len() implies issued(
            (#[trigger] r.windows[i]).handle.id,
            r.next_serial,
        ) by {
            assert(self.registry.windows.contains(r.windows[i]));
            let j = choose|j: int|
                0 <= j < self.registry.windows.len() && self.registry.windows[j] == r.windows[i];
            assert(issued(self.registry.windows[j].handle.id, self.registry.next_serial));
        }
    }

    /// Creating a window keeps a shell well formed, and succeeds at every
    /// clock reading unless the stamps are used up: the id that it would take
    /// is never in use.
    pub proof fn lemma_opening_well_formed(self, target: WindowTargetView, now: int)
        requires
            self.well_formed(),
        ensures
            self.window_opened(target, now).well_formed(),
            self.new_window(target, now) is Ok <==> self.registry.next_serial < STAMP_LIMIT,
            self.new_window(target, now) is Err ==> self.new_window(target, now)
                == Err::<WindowHandleView, ShellErrorView>(ShellErrorView::Exhausted),
    {
        let stamp = self.registry.stamp_at(now);
        self.lemma_unissued_stamp_is_free(stamp);
        self.registry.lemma_creation(
            app_title(),
            target,
            new_window_size(),
            min_window_size(),
            now,
        );
        let r = self.window_opened(target, now).registry;
        match self.new_window(target, now) {
            Ok(handle) => {
                assert(r.has(main_id()) == (self.registry.has(main_id()) || main_id()
                    == handle.id));
                assert forall|i: int| 0 <= i < r.windows.len() implies issued(
                    (#[trigger] r.windows[i]).handle.id,
                    r.next_serial,
                ) by {
                    if i < self.registry.windows.len() {
                        let id = self.registry.windows[i].handle.id;
                        assert(r.windows[i].handle.id == id);
                        assert(issued(id, self.registry.next_serial));
                        if id != main_id() {
                            let k = choose|k: nat|
                                k < self.registry.next_serial && id == #[trigger] window_label(k);
                            assert(k < r.next_serial && id == window_label(k));
                        }
                    } else {
                        assert(r.windows[i].handle.id == window_label(stamp));
                        assert(stamp < r.next_serial);
                    }
                }
            },
            Err(_) => {},
        }
    }

    /// A close request leaves a well-formed shell well formed.
    pub proof fn lemma_close_requested_well_formed(self, window: Seq<char>, by_system: bool)
        requires
            self.well_formed(),
        ensures
            self.close_requested(window, by_system).0.well_formed(),
    {
        self.lemma_visibility_well_formed(main_id(), false);
        if window != main_id() && self.registry.has(window) {
            self.lemma_closing_well_formed(window);
        }
    }

    /// An event of the tray leaves a well-formed shell well formed.
    pub proof fn lemma_tray_routed_well_formed(self, event: ShellEventView, now: int)
        requires
            self.well_formed(),
        ensures
            self.tray_routed(event, now).0.well_formed(),
    {
        self.lemma_visibility_well_formed(main_id(), true);
        self.lemma_visibility_well_formed(main_id(), false);
        self.lemma_opening_well_formed(app_entry(), now);
    }

    /// A selection in the application menu leaves a well-formed shell well
    /// formed.
    pub proof fn lemma_menu_routed_well_formed(self, event: ShellEventView, now: int)
        requires
            self.well_formed(),
        ensures
            self.menu_routed(event, now).0.well_formed(),
    {
        self.lemma_opening_well_formed(app_entry(), now);
        if let ShellEventView::MenuSelect { id, window } = event {
            self.lemma_close_requested_well_formed(window, false);
        }
    }

    /// No event leads a well-formed shell out of the well-formed states.
    pub proof fn lemma_routed_well_formed(self, event: ShellEventView, now: int)
        requires
            self.well_formed(),
        ensures
            self.routed(event, now).0.well_formed(),
    {
        self.lemma_tray_routed_well_formed(event, now);
        self.lemma_menu_routed_well_formed(event, now);
        if let ShellEventView::WindowCloseRequested { window } = event {
            self.lemma_close_requested_well_formed(window, true);
        }
    }

    /// No command leads a well-formed shell out of the well-formed states,
    /// and every answer that is given at once keeps the rule of the envelope.
    pub proof fn lemma_performed_well_formed(
        self,
        kind: CommandKind,
        arguments: ArgumentsView,
        caller: Seq<char>,
        now: int,
    )
        requires
            self.well_formed(),
        ensures
            self.performed(kind, arguments, caller, now).0.well_formed(),
            self.performed(kind, arguments, caller, now).1 matches StepView::Done(result)
                ==> result.well_formed(),
    {
        assert forall|error: ShellErrorView| #[trigger]
            CommandResultView::failed(error).well_formed() by {
            error.lemma_message_nonempty();
        }
        match kind {
            CommandKind::CreateNewWindow => {
                if let Ok(target) = ShellView::requested_target(arguments.url) {
                    self.lemma_opening_well_formed(target, now);
                }
            },
            CommandKind::MinimizeToTray => {
                let target = match arguments.window {
                    Some(target) => target,
                    None => caller,
                };
                if self.registry.has(target) {
                    self.lemma_visibility_well_formed(target, false);
                }
            },
            _ => {},
        }
    }

    /// What holds of [`ShellView::performed`] holds of every request.
    pub proof fn lemma_dispatched_well_formed(
        self,
        request: CommandRequestView,
        caller: Seq<char>,
        now: int,
    )
        requires
            self.well_formed(),
        ensures
            self.dispatched(request, caller, now).0.well_formed(),
            self.dispatched(request, caller, now).1 matches StepView::Done(result)
                ==> result.well_formed(),
    {
        match CommandKind::spec_from_name(request.name) {
            Some(kind) => self.lemma_performed_well_formed(kind, request.arguments, caller, now),
            None => ShellErrorView::UnknownCommand(request.name).lemma_message_nonempty(),
        }
    }

    /// One request moves a well-formed shell on in one of two ways. Where
    /// the answer waits for a new window, that window alone is added, under
    /// the id of a stamp that was not issued before and is issued afterwards.
    /// Otherwise the number of live windows stays. No stamp is taken back
    /// either way.
    pub proof fn lemma_dispatched_step(
        self,
        request: CommandRequestView,
        caller: Seq<char>,
        now: int,
    )
        requires
            self.well_formed(),
        ensures
            ({
                let (next, step) = self.dispatched(request, caller, now);
                let stamp = self.registry.stamp_at(now);
                &&& next.well_formed()
                &&& next.registry.next_serial >= self.registry.next_serial
                &&& match step {
                    StepView::Pending(EffectView::OpenWindow { handle }) => {
                        &&& handle.id == window_label(stamp)
                        &&& self.registry.next_serial <= stamp < next.registry.next_serial
                        &&& next.registry.windows.len() == self.registry.windows.len() + 1
                    },
                    _ => next.registry.windows.len() == self.registry.windows.len(),
                }
            }),
    {
        self.lemma_dispatched_well_formed(request, caller, now);
        match CommandKind::spec_from_name(request.name) {
            Some(CommandKind::CreateNewWindow) => {
                if let Ok(target) = ShellView::requested_target(request.arguments.url) {
                    self.registry.lemma_creation(
                        app_title(),
                        target,
                        new_window_size(),
                        min_window_size(),
                        now,
                    );
                }
            },
            Some(CommandKind::MinimizeToTray) => {
                let target = match request.arguments.window {
                    Some(target) => target,
                    None => caller,
                };
                if self.registry.has(target) {
                    self.registry.lemma_with_visibility(target, false);
                }
            },
            _ => {},
        }
    }

    /// One event moves a well-formed shell on in one of three ways. Where it
    /// brings about a window, that window alone is added, under the id of a
    /// stamp that was not issued before and is issued afterwards, and to
    /// bring it into being is the one effect. Where it ends a window, that
    /// window alone goes. Otherwise the number of live windows stays. No
    /// stamp is taken back in any case.
    pub proof fn lemma_routed_step(self, event: ShellEventView, now: int)
        requires
            self.well_formed(),
        ensures
            ({
                let (next, effects) = self.routed(event, now);
                let stamp = self.registry.stamp_at(now);
                &&& next.well_formed()
                &&& next.registry.next_serial >= self.registry.next_serial
                &&& !(self.opened_by(event, now) is Some && self.closed_by(event) is Some)
                &&& match self.opened_by(event, now) {
                    Some(handle) => {
                        &&& effects == seq![EffectView::OpenWindow { handle }]
                        &&& handle.id == window_label(stamp)
                        &&& self.registry.next_serial <= stamp < next.registry.next_serial
                        &&& next.registry.windows.len() == self.registry.windows.len() + 1
                    },
                    None => match self.closed_by(event) {
                        Some(window) => {
                            &&& next.registry == self.registry.without(window)
                            &&& next.registry.windows.len() == self.registry.windows.len() - 1
                        },
                        None => next.registry.windows.len() == self.registry.windows.len(),
                    },
                }
            }),
    {
        self.lemma_routed_well_formed(event, now);
        self.registry.lemma_with_visibility(main_id(), true);
        self.registry.lemma_with_visibility(main_id(), false);
        self.registry.lemma_creation(
            app_title(),
            app_entry(),
            new_window_size(),
            min_window_size(),
            now,
        );
        if let Some(window) = self.closed_by(event) {
            self.registry.lemma_without(window);
        }
    }

    /// An effect that went one way or another moves a well-formed shell on
    /// in one of two ways: a window that could not be brought into being
    /// goes, or the number of live windows stays. No stamp is taken back.
    pub proof fn lemma_outcome_step(self, effect: EffectView, outcome: OutcomeView)
        requires
            self.well_formed(),
        ensures
            ({
                let next = self.after_outcome(effect, outcome);
                &&& next.well_formed()
                &&& next.registry.next_serial == self.registry.next_serial
                &&& match self.forgotten_by(effect, outcome) {
                    Some(window) => {
                        &&& next.registry == self.registry.without(window)
                        &&& next.registry.windows.len() == self.registry.windows.len() - 1
                    },
                    None => next.registry.windows.len() == self.registry.windows.len(),
                }
            }),
    {
        self.lemma_outcome_well_formed(effect, outcome);
        if let Some(window) = self.forgotten_by(effect, outcome) {
            self.registry.lemma_without(window);
        }
    }

    /// Whatever became of an effect, the shell stays well formed and the
    /// answer keeps the rule of the envelope.
    pub proof fn lemma_outcome_well_formed(self, effect: EffectView, outcome: OutcomeView)
        requires
            self.well_formed(),
        ensures
            self.after_outcome(effect, outcome).well_formed(),
            ShellView::answer(effect, outcome).well_formed(),
    {
        if let OutcomeView::Failed(message) = outcome {
            ShellView::failure_of(effect, message).lemma_message_nonempty();
            if let EffectView::OpenWindow { handle } = effect {
                if handle.id != main_id() && self.registry.has(handle.id) {
                    self.lemma_closing_well_formed(handle.id);
                }
            }
        }
    }
}

} // verus!
