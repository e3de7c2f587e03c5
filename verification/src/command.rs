//! The command surface: the names that hosted content may invoke, and the
//! bundle of arguments that comes with a name.

use crate::config::{AppConfig, AppConfigView};
use crate::text::same_text;
use vstd::prelude::*;
use vstd::string::*;

verus! {

/// The commands of the surface: a closed set of eleven.
#[derive(Clone, Copy, Debug, PartialEq, Eq, Structural)]
pub enum CommandKind {
    FetchWithoutCors,
    ExecuteJavascript,
    NavigateTo,
    ClearBrowserData,
    GetAppConfig,
    SaveAppConfig,
    OpenExternalUrl,
    GetSystemInfo,
    CreateNewWindow,
    MinimizeToTray,
    ShowNotification,
}

impl CommandKind {
    /// The name by which hosted content invokes the command.
    pub open spec fn spec_name(self) -> Seq<char> {
        match self {
            CommandKind::FetchWithoutCors => "fetch_without_cors"@,
            CommandKind::ExecuteJavascript => "execute_javascript"@,
            CommandKind::NavigateTo => "navigate_to"@,
            CommandKind::ClearBrowserData => "clear_browser_data"@,
            CommandKind::GetAppConfig => "get_app_config"@,
            CommandKind::SaveAppConfig => "save_app_config"@,
            CommandKind::OpenExternalUrl => "open_external_url"@,
            CommandKind::GetSystemInfo => "get_system_info"@,
            CommandKind::CreateNewWindow => "create_new_window"@,
            CommandKind::MinimizeToTray => "minimize_to_tray"@,
            CommandKind::ShowNotification => "show_notification"@,
        }
    }

    /// The command that a name stands for, if any.
    pub open spec fn spec_from_name(name: Seq<char>) -> Option<CommandKind> {
        if name == "fetch_without_cors"@ {
            Some(CommandKind::FetchWithoutCors)
        } else if name == "execute_javascript"@ {
            Some(CommandKind::ExecuteJavascript)
        } else if name == "navigate_to"@ {
            Some(CommandKind::NavigateTo)
        } else if name == "clear_browser_data"@ {
            Some(CommandKind::ClearBrowserData)
        } else if name == "get_app_config"@ {
            Some(CommandKind::GetAppConfig)
        } else if name == "save_app_config"@ {
            Some(CommandKind::SaveAppConfig)
        } else if name == "open_external_url"@ {
            Some(CommandKind::OpenExternalUrl)
        } else if name == "get_system_info"@ {
            Some(CommandKind::GetSystemInfo)
        } else if name == "create_new_window"@ {
            Some(CommandKind::CreateNewWindow)
        } else if name == "minimize_to_tray"@ {
            Some(CommandKind::MinimizeToTray)
        } else if name == "show_notification"@ {
            Some(CommandKind::ShowNotification)
        } else {
            None
        }
    }

    /// The name of this command.
    pub fn name(&self) -> (name: &'static str)
        ensures
            name@ == self.spec_name(),
    {
        match self {
            CommandKind::FetchWithoutCors => "fetch_without_cors",
            CommandKind::ExecuteJavascript => "execute_javascript",
            CommandKind::NavigateTo => "navigate_to",
            CommandKind::ClearBrowserData => "clear_browser_data",
            CommandKind::GetAppConfig => "get_app_config",
            CommandKind::SaveAppConfig => "save_app_config",
            CommandKind::OpenExternalUrl => "open_external_url",
            CommandKind::GetSystemInfo => "get_system_info",
            CommandKind::CreateNewWindow => "create_new_window",
            CommandKind::MinimizeToTray => "minimize_to_tray",
            CommandKind::ShowNotification => "show_notification",
        }
    }

    /// Reads a command from its name; any other text is no command.
    pub fn from_name(name: &str) -> (kind: Option<CommandKind>)
        ensures
            kind == CommandKind::spec_from_name(name@),
    {
        if same_text(name, "fetch_without_cors") {
            Some(CommandKind::FetchWithoutCors)
        } else if same_text(name, "execute_javascript") {
            Some(CommandKind::ExecuteJavascript)
        } else if same_text(name, "navigate_to") {
            Some(CommandKind::NavigateTo)
        } else if same_text(name, "clear_browser_data") {
            Some(CommandKind::ClearBrowserData)
        } else if same_text(name, "get_app_config") {
            Some(CommandKind::GetAppConfig)
        } else if same_text(name, "save_app_config") {
            Some(CommandKind::SaveAppConfig)
        } else if same_text(name, "open_external_url") {
            Some(CommandKind::OpenExternalUrl)
        } else if same_text(name, "get_system_info") {
            Some(CommandKind::GetSystemInfo)
        } else if same_text(name, "create_new_window") {
            Some(CommandKind::CreateNewWindow)
        } else if same_text(name, "minimize_to_tray") {
            Some(CommandKind::MinimizeToTray)
        } else if same_text(name, "show_notification") {
            Some(CommandKind::ShowNotification)
        } else {
            None
        }
    }

    /// A command is read back from its own name.
    pub proof fn lemma_name_round_trip(self)
        ensures
            CommandKind::spec_from_name(self.spec_name()) == Some(self),
    {
        reveal_strlit("fetch_without_cors");
        reveal_strlit("execute_javascript");
        reveal_strlit("navigate_to");
        reveal_strlit("clear_browser_data");
        reveal_strlit("get_app_config");
        reveal_strlit("save_app_config");
        reveal_strlit("open_external_url");
        reveal_strlit("get_system_info");
        reveal_strlit("create_new_window");
        reveal_strlit("minimize_to_tray");
        reveal_strlit("show_notification");
        assert("fetch_without_cors"@[0] == 'f');
        assert("execute_javascript"@[0] == 'e');
        assert("navigate_to"@[0] == 'n');
        assert("clear_browser_data"@[1] == 'l');
        assert("get_app_config"@[4] == 'a');
        assert("save_app_config"@[1] == 'a');
        assert("open_external_url"@[0] == 'o');
        assert("get_system_info"@[4] == 's');
        assert("create_new_window"@[1] == 'r');
        assert("minimize_to_tray"@[0] == 'm');
        assert("show_notification"@[1] == 'h');
    }
}

/// The loosely typed bundle that comes with a command name: each argument
/// that the surface knows, present or not.
#[derive(Debug, PartialEq, Eq)]
pub struct Arguments {
    pub url: Option<String>,
    pub script: Option<String>,
    pub title: Option<String>,
    pub body: Option<String>,
    pub window: Option<String>,
    pub config: Option<AppConfig>,
}

/// What an [`Arguments`] bundle holds.
pub struct ArgumentsView {
    pub url: Option<Seq<char>>,
    pub script: Option<Seq<char>>,
    pub title: Option<Seq<char>>,
    pub body: Option<Seq<char>>,
    pub window: Option<Seq<char>>,
    pub config: Option<AppConfigView>,
}

/// What an optional text holds.
pub open spec fn text_view(text: Option<String>) -> Option<Seq<char>> {
    match text {
        Some(t) => Some(t@),
        None => None,
    }
}

impl View for Arguments {
    type V = ArgumentsView;

    open spec fn view(&self) -> ArgumentsView {
        ArgumentsView {
            url: text_view(self.url),
            script: text_view(self.script),
            title: text_view(self.title),
            body: text_view(self.body),
            window: text_view(self.window),
            config: match self.config {
                Some(c) => Some(c@),
                None => None,
            },
        }
    }
}

impl Arguments {
    /// The bundle without any argument.
    pub fn none() -> (arguments: Arguments)
        ensures
            arguments@ == (ArgumentsView {
                url: None,
                script: None,
                title: None,
                body: None,
                window: None,
                config: None,
            }),
    {
        Arguments { url: None, script: None, title: None, body: None, window: None, config: None }
    }
}

/// A request of hosted content: a command name and its arguments.
#[derive(Debug, PartialEq, Eq)]
pub struct CommandRequest {
    pub name: String,
    pub arguments: Arguments,
}

/// What a [`CommandRequest`] holds.
pub struct CommandRequestView {
    pub name: Seq<char>,
    pub arguments: ArgumentsView,
}

impl View for CommandRequest {
    type V = CommandRequestView;

    open spec fn view(&self) -> CommandRequestView {
        CommandRequestView { name: self.name@, arguments: self.arguments@ }
    }
}

} // verus!
