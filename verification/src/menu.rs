//! The static definitions of the application menu and of the tray menu.

use crate::text::same_text;
use vstd::prelude::*;
use vstd::string::*;

verus! {

/// The items of the application menu: a closed set.
#[derive(Clone, Copy, Debug, PartialEq, Eq, Structural)]
pub enum MenuId {
    NewWindow,
    Settings,
    Close,
    Quit,
    About,
}

impl MenuId {
    /// The identifier under which the windowing system reports a selection.
    pub open spec fn spec_name(self) -> Seq<char> {
        match self {
            MenuId::NewWindow => "new_window"@,
            MenuId::Settings => "settings"@,
            MenuId::Close => "close"@,
            MenuId::Quit => "quit"@,
            MenuId::About => "about"@,
        }
    }

    /// The item that an identifier stands for, if any.
    pub open spec fn spec_from_name(name: Seq<char>) -> Option<MenuId> {
        if name == "quit"@ {
            Some(MenuId::Quit)
        } else if name == "close"@ {
            Some(MenuId::Close)
        } else if name == "new_window"@ {
            Some(MenuId::NewWindow)
        } else if name == "about"@ {
            Some(MenuId::About)
        } else if name == "settings"@ {
            Some(MenuId::Settings)
        } else {
            None
        }
    }

    /// The identifier of this item.
    pub fn name(&self) -> (name: &'static str)
        ensures
            name@ == self.spec_name(),
    {
        match self {
            MenuId::NewWindow => "new_window",
            MenuId::Settings => "settings",
            MenuId::Close => "close",
            MenuId::Quit => "quit",
            MenuId::About => "about",
        }
    }

    /// The text that the item shows.
    pub fn title(&self) -> (title: &'static str)
        ensures
            title@ == (match self {
                MenuId::NewWindow => "New Window"@,
                MenuId::Settings => "Settings"@,
                MenuId::Close => "Close"@,
                MenuId::Quit => "Quit"@,
                MenuId::About => "About"@,
            }),
    {
        match self {
            MenuId::NewWindow => "New Window",
            MenuId::Settings => "Settings",
            MenuId::Close => "Close",
            MenuId::Quit => "Quit",
            MenuId::About => "About",
        }
    }

    /// Reads an item from its identifier; any other text is no item.
    pub fn from_name(name: &str) -> (item: Option<MenuId>)
        ensures
            item == MenuId::spec_from_name(name@),
    {
        if same_text(name, "quit") {
            Some(MenuId::Quit)
        } else if same_text(name, "close") {
            Some(MenuId::Close)
        } else if same_text(name, "new_window") {
            Some(MenuId::NewWindow)
        } else if same_text(name, "about") {
            Some(MenuId::About)
        } else if same_text(name, "settings") {
            Some(MenuId::Settings)
        } else {
            None
        }
    }

    /// An item is read back from its own identifier.
    pub proof fn lemma_name_round_trip(self)
        ensures
            MenuId::spec_from_name(self.spec_name()) == Some(self),
    {
        reveal_strlit("new_window");
        reveal_strlit("settings");
        reveal_strlit("close");
        reveal_strlit("quit");
        reveal_strlit("about");
        assert("new_window"@.len() == 10);
        assert("settings"@.len() == 8);
        assert("close"@[0] == 'c');
        assert("quit"@.len() == 4);
        assert("about"@[0] == 'a');
    }
}

/// The items of the tray menu: a closed set.
#[derive(Clone, Copy, Debug, PartialEq, Eq, Structural)]
pub enum TrayId {
    Show,
    Hide,
    NewWindow,
    Quit,
}

impl TrayId {
    /// The identifier under which the windowing system reports a selection.
    pub open spec fn spec_name(self) -> Seq<char> {
        match self {
            TrayId::Show => "show"@,
            TrayId::Hide => "hide"@,
            TrayId::NewWindow => "new_window"@,
            TrayId::Quit => "quit"@,
        }
    }

    /// The item that an identifier stands for, if any.
    pub open spec fn spec_from_name(name: Seq<char>) -> Option<TrayId> {
        if name == "quit"@ {
            Some(TrayId::Quit)
        } else if name == "hide"@ {
            Some(TrayId::Hide)
        } else if name == "show"@ {
            Some(TrayId::Show)
        } else if name == "new_window"@ {
            Some(TrayId::NewWindow)
        } else {
            None
        }
    }

    /// The identifier of this item.
    pub fn name(&self) -> (name: &'static str)
        ensures
            name@ == self.spec_name(),
    {
        match self {
            TrayId::Show => "show",
            TrayId::Hide => "hide",
            TrayId::NewWindow => "new_window",
            TrayId::Quit => "quit",
        }
    }

    /// The text that the item shows.
    pub fn title(&self) -> (title: &'static str)
        ensures
            title@ == (match self {
                TrayId::Show => "Show"@,
                TrayId::Hide => "Hide"@,
                TrayId::NewWindow => "New Window"@,
                TrayId::Quit => "Quit"@,
            }),
    {
        match self {
            TrayId::Show => "Show",
            TrayId::Hide => "Hide",
            TrayId::NewWindow => "New Window",
            TrayId::Quit => "Quit",
        }
    }

    /// Reads an item from its identifier; any other text is no item.
    pub fn from_name(name: &str) -> (item: Option<TrayId>)
        ensures
            item == TrayId::spec_from_name(name@),
    {
        if same_text(name, "quit") {
            Some(TrayId::Quit)
        } else if same_text(name, "hide") {
            Some(TrayId::Hide)
        } else if same_text(name, "show") {
            Some(TrayId::Show)
        } else if same_text(name, "new_window") {
            Some(TrayId::NewWindow)
        } else {
            None
        }
    }

    /// An item is read back from its own identifier.
    pub proof fn lemma_name_round_trip(self)
        ensures
            TrayId::spec_from_name(self.spec_name()) == Some(self),
    {
        reveal_strlit("show");
        reveal_strlit("hide");
        reveal_strlit("new_window");
        reveal_strlit("quit");
        assert("show"@[0] == 's');
        assert("hide"@[0] == 'h');
        assert("quit"@[0] == 'q');
        assert("new_window"@.len() == 10);
    }
}

/// One line of a menu.
#[derive(Clone, Copy, Debug, PartialEq, Eq, Structural)]
pub enum MenuEntry {
    Item(MenuId),
    Separator,
}

/// One line of the tray menu.
#[derive(Clone, Copy, Debug, PartialEq, Eq, Structural)]
pub enum TrayEntry {
    Item(TrayId),
    Separator,
}

/// The submenus of the application menu.
#[derive(Clone, Copy, Debug, PartialEq, Eq, Structural)]
pub enum MenuGroup {
    File,
    Help,
}

impl MenuGroup {
    /// The text that the submenu shows.
    pub fn title(&self) -> (title: &'static str)
        ensures
            title@ == (match self {
                MenuGroup::File => "File"@,
                MenuGroup::Help => "Help"@,
            }),
    {
        match self {
            MenuGroup::File => "File",
            MenuGroup::Help => "Help",
        }
    }
}

/// A submenu with its lines, top to bottom.
#[derive(Debug, PartialEq, Eq)]
pub struct Submenu {
    pub group: MenuGroup,
    pub entries: Vec<MenuEntry>,
}

/// The application menu: its submenus, left to right.
#[derive(Debug, PartialEq, Eq)]
pub struct MenuModel {
    pub submenus: Vec<Submenu>,
}

impl View for MenuModel {
    type V = Seq<(MenuGroup, Seq<MenuEntry>)>;

    open spec fn view(&self) -> Seq<(MenuGroup, Seq<MenuEntry>)> {
        Seq::new(
            self.submenus@.len(),
            |i: int| (self.submenus@[i].group, self.submenus@[i].entries@),
        )
    }
}

/// The tray icon's menu: its lines, top to bottom.
#[derive(Debug, PartialEq, Eq)]
pub struct TrayModel {
    pub entries: Vec<TrayEntry>,
}

impl View for TrayModel {
    type V = Seq<TrayEntry>;

    open spec fn view(&self) -> Seq<TrayEntry> {
        self.entries@
    }
}

/// The application menu as it is defined.
pub open spec fn menu_definition() -> Seq<(MenuGroup, Seq<MenuEntry>)> {
    seq![
        (
            MenuGroup::File,
            seq![
                MenuEntry::Item(MenuId::NewWindow),
                MenuEntry::Separator,
                MenuEntry::Item(MenuId::Settings),
                MenuEntry::Separator,
                MenuEntry::Item(MenuId::Close),
                MenuEntry::Item(MenuId::Quit),
            ],
        ),
        (MenuGroup::Help, seq![MenuEntry::Item(MenuId::About)]),
    ]
}

/// The tray menu as it is defined.
pub open spec fn tray_definition() -> Seq<TrayEntry> {
    seq![
        TrayEntry::Item(TrayId::Show),
        TrayEntry::Item(TrayId::Hide),
        TrayEntry::Separator,
        TrayEntry::Item(TrayId::NewWindow),
        TrayEntry::Separator,
        TrayEntry::Item(TrayId::Quit),
    ]
}

/// Whether `item` stands somewhere in the application menu `menu`.
pub open spec fn menu_offers(menu: Seq<(MenuGroup, Seq<MenuEntry>)>, item: MenuId) -> bool {
    exists|i: int, j: int|
        0 <= i < menu.len() && 0 <= j < menu[i].1.len() && #[trigger] menu[i].1[j]
            == MenuEntry::Item(item)
}

/// Every item of either closed set can be selected: the application menu
/// offers each of its items, the tray menu each of its own.
pub proof fn lemma_definitions_offer_every_item(item: MenuId, tray_item: TrayId)
    ensures
        menu_offers(menu_definition(), item),
        tray_definition().contains(TrayEntry::Item(tray_item)),
{
    let menu = menu_definition();
    let tray = tray_definition();
    match item {
        MenuId::NewWindow => assert(menu[0].1[0] == MenuEntry::Item(item)),
        MenuId::Settings => assert(menu[0].1[2] == MenuEntry::Item(item)),
        MenuId::Close => assert(menu[0].1[4] == MenuEntry::Item(item)),
        MenuId::Quit => assert(menu[0].1[5] == MenuEntry::Item(item)),
        MenuId::About => assert(menu[1].1[0] == MenuEntry::Item(item)),
    }
    match tray_item {
        TrayId::Show => assert(tray[0] == TrayEntry::Item(tray_item)),
        TrayId::Hide => assert(tray[1] == TrayEntry::Item(tray_item)),
        TrayId::NewWindow => assert(tray[3] == TrayEntry::Item(tray_item)),
        TrayId::Quit => assert(tray[5] == TrayEntry::Item(tray_item)),
    }
}

/// Builds the application menu: `File` with new window, settings, close and
/// quit, and `Help` with about.
pub fn create_menu() -> (menu: MenuModel)
    ensures
        menu@ == menu_definition(),
{
    let mut file: Vec<MenuEntry> = Vec::new();
    file.push(MenuEntry::Item(MenuId::NewWindow));
    file.push(MenuEntry::Separator);
    file.push(MenuEntry::Item(MenuId::Settings));
    file.push(MenuEntry::Separator);
    file.push(MenuEntry::Item(MenuId::Close));
    file.push(MenuEntry::Item(MenuId::Quit));
    let mut help: Vec<MenuEntry> = Vec::new();
    help.push(MenuEntry::Item(MenuId::About));
    let mut submenus: Vec<Submenu> = Vec::new();
    submenus.push(Submenu { group: MenuGroup::File, entries: file });
    submenus.push(Submenu { group: MenuGroup::Help, entries: help });
    let menu = MenuModel { submenus };
    assert(menu@[0].1 =~= menu_definition()[0].1);
    assert(menu@[1].1 =~= menu_definition()[1].1);
    assert(menu@ =~= menu_definition());
    menu
}

/// Builds the tray menu: show, hide, new window and quit.
pub fn create_system_tray() -> (tray: TrayModel)
    ensures
        tray@ == tray_definition(),
{
    let mut entries: Vec<TrayEntry> = Vec::new();
    entries.push(TrayEntry::Item(TrayId::Show));
    entries.push(TrayEntry::Item(TrayId::Hide));
    entries.push(TrayEntry::Separator);
    entries.push(TrayEntry::Item(TrayId::NewWindow));
    entries.push(TrayEntry::Separator);
    entries.push(TrayEntry::Item(TrayId::Quit));
    let tray = TrayModel { entries };
    assert(tray@ =~= tray_definition());
    tray
}

} // verus!
