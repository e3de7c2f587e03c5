use app_shell::command::CommandKind;
use app_shell::menu::{
    create_menu, create_system_tray, MenuEntry, MenuGroup, MenuId, TrayEntry, TrayId,
};

#[test]
fn menu_has_file_and_help() {
    let menu = create_menu();
    assert_eq!(menu.submenus.len(), 2);
    assert_eq!(menu.submenus[0].group, MenuGroup::File);
    assert_eq!(
        menu.submenus[0].entries,
        vec![
            MenuEntry::Item(MenuId::NewWindow),
            MenuEntry::Separator,
            MenuEntry::Item(MenuId::Settings),
            MenuEntry::Separator,
            MenuEntry::Item(MenuId::Close),
            MenuEntry::Item(MenuId::Quit),
        ]
    );
    assert_eq!(menu.submenus[1].group, MenuGroup::Help);
    assert_eq!(menu.submenus[1].entries, vec![MenuEntry::Item(MenuId::About)]);
}

#[test]
fn tray_lists_show_hide_new_window_quit() {
    let tray = create_system_tray();
    assert_eq!(
        tray.entries,
        vec![
            TrayEntry::Item(TrayId::Show),
            TrayEntry::Item(TrayId::Hide),
            TrayEntry::Separator,
            TrayEntry::Item(TrayId::NewWindow),
            TrayEntry::Separator,
            TrayEntry::Item(TrayId::Quit),
        ]
    );
}

#[test]
fn menu_ids_round_trip() {
    let all = [MenuId::NewWindow, MenuId::Settings, MenuId::Close, MenuId::Quit, MenuId::About];
    for id in all {
        assert_eq!(MenuId::from_name(id.name()), Some(id));
    }
    assert_eq!(MenuId::from_name("new_window"), Some(MenuId::NewWindow));
    assert_eq!(MenuId::from_name("settings"), Some(MenuId::Settings));
    assert_eq!(MenuId::from_name("close"), Some(MenuId::Close));
    assert_eq!(MenuId::from_name("quit"), Some(MenuId::Quit));
    assert_eq!(MenuId::from_name("about"), Some(MenuId::About));
    assert_eq!(MenuId::from_name("show"), None);
}

#[test]
fn tray_ids_round_trip() {
    for id in [TrayId::Show, TrayId::Hide, TrayId::NewWindow, TrayId::Quit] {
        assert_eq!(TrayId::from_name(id.name()), Some(id));
    }
    assert_eq!(TrayId::from_name("show"), Some(TrayId::Show));
    assert_eq!(TrayId::from_name("hide"), Some(TrayId::Hide));
    assert_eq!(TrayId::from_name("new_window"), Some(TrayId::NewWindow));
    assert_eq!(TrayId::from_name("quit"), Some(TrayId::Quit));
    assert_eq!(TrayId::from_name("about"), None);
    assert_eq!(TrayId::from_name("Quit"), None);
}

#[test]
fn titles_are_as_shown() {
    assert_eq!(MenuId::Quit.title(), "Quit");
    assert_eq!(MenuId::Close.title(), "Close");
    assert_eq!(MenuId::NewWindow.title(), "New Window");
    assert_eq!(MenuId::About.title(), "About");
    assert_eq!(MenuId::Settings.title(), "Settings");
    assert_eq!(TrayId::Quit.title(), "Quit");
    assert_eq!(TrayId::Hide.title(), "Hide");
    assert_eq!(TrayId::Show.title(), "Show");
    assert_eq!(TrayId::NewWindow.title(), "New Window");
    assert_eq!(MenuGroup::File.title(), "File");
    assert_eq!(MenuGroup::Help.title(), "Help");
}

#[test]
fn command_names_round_trip() {
    let all = [
        (CommandKind::FetchWithoutCors, "fetch_without_cors"),
        (CommandKind::ExecuteJavascript, "execute_javascript"),
        (CommandKind::NavigateTo, "navigate_to"),
        (CommandKind::ClearBrowserData, "clear_browser_data"),
        (CommandKind::GetAppConfig, "get_app_config"),
        (CommandKind::SaveAppConfig, "save_app_config"),
        (CommandKind::OpenExternalUrl, "open_external_url"),
        (CommandKind::GetSystemInfo, "get_system_info"),
        (CommandKind::CreateNewWindow, "create_new_window"),
        (CommandKind::MinimizeToTray, "minimize_to_tray"),
        (CommandKind::ShowNotification, "show_notification"),
    ];
    for (kind, name) in all {
        assert_eq!(kind.name(), name);
        assert_eq!(CommandKind::from_name(name), Some(kind));
    }
}

#[test]
fn command_names_are_exact() {
    assert_eq!(CommandKind::from_name("fetch"), None);
    assert_eq!(CommandKind::from_name("GET_APP_CONFIG"), None);
    assert_eq!(CommandKind::from_name(""), None);
    assert_eq!(CommandKind::from_name("quit"), None);
}
