use frostwin::effect::Effect;
use frostwin::names::{extension, file_stem, has_extension};
use frostwin::start_menu::{
    get_dir_contents, FsEntry, FsKind, RowKind, StartItem, StartItemError, StartItemMessage,
    StartMenu, StartMenuLoad, StartMenuSettings, StartMenuTab, StartMessage, TreeRow,
};
use frostwin::window::{Extent, Point, Size, WindowHandle, WindowKind};

fn file(path: &str, name: &str) -> FsEntry {
    FsEntry {
        path: path.to_string(),
        name: Some(name.to_string()),
        kind: FsKind::File,
        children: None,
    }
}

fn dir(path: &str, name: &str, children: Vec<FsEntry>) -> FsEntry {
    FsEntry {
        path: path.to_string(),
        name: Some(name.to_string()),
        kind: FsKind::Directory,
        children: Some(children),
    }
}

fn strings(items: &[&str]) -> Vec<String> {
    items.iter().map(|item| item.to_string()).collect()
}

fn names(items: &[StartItem]) -> Vec<String> {
    items.iter().map(|item| item.name.clone()).collect()
}

fn menu_with(user: Vec<FsEntry>, system: Vec<FsEntry>) -> (StartMenu, Vec<Effect>) {
    let mut menu = StartMenu::new(WindowHandle(2)).0;
    let effects = menu.update(StartMessage::Init(StartMenuLoad {
        settings: None,
        user_programs: Some(user),
        system_programs: Some(system),
    }));
    (menu, effects)
}

fn sample() -> Vec<FsEntry> {
    vec![
        file("p/shot-11.lnk", "shot-11.lnk"),
        dir(
            "p/Tools",
            "Tools",
            vec![
                file("p/Tools/b.lnk", "b.lnk"),
                file("p/Tools/desktop.ini", "desktop.ini"),
                dir("p/Tools/Deep", "Deep", vec![file("p/Tools/Deep/z.exe", "z.exe")]),
                file("p/Tools/a.lnk", "a.lnk"),
            ],
        ),
        file("p/shot-2.lnk", "shot-2.lnk"),
        file("p/desktop.ini", "desktop.ini"),
        file("p/shot-1.lnk", "shot-1.lnk"),
    ]
}

fn row_names(rows: &[TreeRow]) -> Vec<String> {
    rows.iter().map(|row| row.name.clone()).collect()
}

#[test]
fn extensions_and_stems() {
    assert_eq!(extension("a.lnk"), Some("lnk".to_string()));
    assert_eq!(extension("archive.tar.gz"), Some("gz".to_string()));
    assert_eq!(extension("name."), Some(String::new()));
    assert_eq!(extension("plain"), None);
    assert_eq!(extension(".hidden"), None);
    assert_eq!(extension(".."), None);
    assert_eq!(extension(""), None);
    assert_eq!(extension(".hidden.txt"), Some("txt".to_string()));
    assert_eq!(file_stem("a.lnk"), "a");
    assert_eq!(file_stem("archive.tar.gz"), "archive.tar");
    assert_eq!(file_stem("plain"), "plain");
    assert_eq!(file_stem(".hidden"), ".hidden");
    assert_eq!(file_stem(".."), "..");
    assert_eq!(file_stem("name."), "name");
    assert_eq!(file_stem("süß.lnk"), "süß");
    assert!(has_extension("a.lnk", "lnk"));
    assert!(!has_extension("a.lnk", "ln"));
    assert!(!has_extension("a.lnk", "ini"));
    assert!(!has_extension("lnk", "lnk"));
    assert!(!has_extension(".lnk", "lnk"));
    assert!(has_extension("x.y.ini", "ini"));
}

#[test]
fn shortcut_is_called_by_its_stem() {
    let item = StartItem::new(&file("p/Editor.lnk", "Editor.lnk")).unwrap();
    assert_eq!(item.name, "Editor");
    assert_eq!(item.path, "p/Editor.lnk");
    assert_eq!(item.extension, Some("lnk".to_string()));
    assert!(item.content.is_none());
    assert!(item.sorted.is_none());
    assert!(!item.open);
}

#[test]
fn other_file_is_called_by_its_file_name() {
    let item = StartItem::new(&file("p/readme.txt", "readme.txt")).unwrap();
    assert_eq!(item.name, "readme.txt");
    let odd = StartItem::new(&FsEntry {
        path: "p/pipe.lnk".to_string(),
        name: Some("pipe.lnk".to_string()),
        kind: FsKind::Other,
        children: None,
    })
    .unwrap();
    assert_eq!(odd.name, "pipe.lnk");
    assert!(odd.content.is_none());
}

#[test]
fn path_without_name_gives_no_entry() {
    let nameless =
        FsEntry { path: "p/..".to_string(), name: None, kind: FsKind::File, children: None };
    assert_eq!(StartItem::new(&nameless).err(), Some(StartItemError::NameMissing));
}

#[test]
fn unreadable_directory_gives_no_entry() {
    let locked = FsEntry {
        path: "p/Locked".to_string(),
        name: Some("Locked".to_string()),
        kind: FsKind::Directory,
        children: None,
    };
    assert_eq!(StartItem::new(&locked).err(), Some(StartItemError::DirectoryUnreadable));
}

#[test]
fn directory_becomes_a_folder_of_its_listing() {
    let item = StartItem::new(&sample().remove(1)).unwrap();
    assert_eq!(item.name, "Tools");
    let content = item.content.as_ref().unwrap();
    assert_eq!(names(content), strings(&["b", "Deep", "a"]));
    assert_eq!(names(content[1].content.as_ref().unwrap()), strings(&["z.exe"]));
    assert!(item.sorted.is_none());
}

#[test]
fn listing_skips_ini_files_and_entries_that_fail() {
    let mut target = Vec::new();
    get_dir_contents(
        &vec![
            file("p/desktop.ini", "desktop.ini"),
            FsEntry { path: "p/x".to_string(), name: None, kind: FsKind::Other, children: None },
            FsEntry {
                path: "p/Locked".to_string(),
                name: Some("Locked".to_string()),
                kind: FsKind::Directory,
                children: None,
            },
            dir("p/cfg.ini", "cfg.ini", vec![]),
            file("p/a.lnk", "a.lnk"),
        ],
        &mut target,
    );
    assert_eq!(names(&target), strings(&["cfg.ini", "a"]));
}

#[test]
fn later_entry_takes_the_place_of_an_entry_of_its_name() {
    let mut target = Vec::new();
    get_dir_contents(
        &vec![file("u/a.lnk", "a.lnk"), file("u/b.lnk", "b.lnk"), file("s/a.lnk", "a.lnk")],
        &mut target,
    );
    assert_eq!(names(&target), strings(&["a", "b"]));
    assert_eq!(target[0].path, "s/a.lnk");
}

#[test]
fn init_loads_sorts_and_asks_for_icons() {
    let (menu, effects) = menu_with(sample(), vec![]);
    assert_eq!(names(menu.content()), strings(&["shot-11", "Tools", "shot-2", "shot-1"]));
    assert_eq!(menu.sorted(), &strings(&["shot-1", "shot-2", "shot-11", "Tools"]));
    let tools = &menu.content()[1];
    assert_eq!(tools.sorted, Some(strings(&["a", "b", "Deep"])));
    let deep = &tools.content.as_ref().unwrap()[1];
    assert_eq!(deep.sorted, Some(strings(&["z.exe"])));
    assert!(menu.content()[0].sorted.is_none());
    let mut asked = Vec::new();
    for effect in &effects[..effects.len() - 1] {
        match effect {
            Effect::LoadIcon(path) => asked.push(path.clone()),
            other => panic!("unexpected effect {:?}", other),
        }
    }
    assert_eq!(
        asked,
        strings(&[
            "p/shot-11.lnk",
            "p/Tools/b.lnk",
            "p/Tools/Deep/z.exe",
            "p/Tools/a.lnk",
            "p/shot-2.lnk",
            "p/shot-1.lnk"
        ])
    );
    assert!(matches!(
        effects[effects.len() - 1],
        Effect::QueryMonitorSize(WindowHandle(2), WindowKind::StartMenu)
    ));
}

#[test]
fn system_programs_override_the_users() {
    let (menu, _) = menu_with(
        vec![file("u/a.lnk", "a.lnk"), file("u/b.lnk", "b.lnk")],
        vec![file("s/b.lnk", "b.lnk"), file("s/c.lnk", "c.lnk")],
    );
    assert_eq!(names(menu.content()), strings(&["a", "b", "c"]));
    assert_eq!(menu.content()[1].path, "s/b.lnk");
}

#[test]
fn init_without_listings_and_settings_keeps_the_menu_empty() {
    let mut menu = StartMenu::new(WindowHandle(2)).0;
    menu.update(StartMessage::PinToTiles("kept".to_string()));
    let effects = menu.update(StartMessage::Init(StartMenuLoad {
        settings: None,
        user_programs: None,
        system_programs: None,
    }));
    assert!(menu.content().is_empty());
    assert!(menu.sorted().is_empty());
    assert_eq!(menu.tiles(), &strings(&["kept"]));
    assert_eq!(effects.len(), 1);
}

#[test]
fn init_takes_the_saved_settings() {
    let mut menu = StartMenu::new(WindowHandle(2)).0;
    menu.update(StartMessage::Init(StartMenuLoad {
        settings: Some(StartMenuSettings { tiles: strings(&["x", "y"]) }),
        user_programs: None,
        system_programs: None,
    }));
    assert_eq!(menu.tiles(), &strings(&["x", "y"]));
}

#[test]
fn new_menu_shows_its_tiles() {
    let (menu, open) = StartMenu::new(WindowHandle(2));
    assert_eq!(menu.handle(), WindowHandle(2));
    assert_eq!(menu.tab(), StartMenuTab::Tiles);
    assert!(menu.tiles().is_empty());
    assert!(menu.content().is_empty());
    assert!(matches!(
        open,
        Effect::OpenWindow { handle: WindowHandle(2), kind: WindowKind::StartMenu, .. }
    ));
    assert!(StartMenuSettings::new().tiles.is_empty());
}

#[test]
fn toggle_opens_and_closes_the_named_folder() {
    let (mut menu, _) = menu_with(sample(), vec![]);
    assert!(!menu.content()[1].open);
    let none = menu.update(StartMessage::ItemMessage(StartItemMessage::Toggle(strings(&["Tools"]))));
    assert!(none.is_empty());
    assert!(menu.content()[1].open);
    assert!(!menu.content()[0].open);
    menu.update(StartMessage::ItemMessage(StartItemMessage::Toggle(strings(&["Tools"]))));
    assert!(!menu.content()[1].open);
}

#[test]
fn toggle_path_is_read_from_its_end() {
    let (mut menu, _) = menu_with(sample(), vec![]);
    menu.update(StartMessage::ItemMessage(StartItemMessage::Toggle(strings(&["Deep", "Tools"]))));
    let tools = &menu.content()[1];
    assert!(!tools.open);
    assert!(tools.content.as_ref().unwrap()[1].open);
    assert!(!tools.content.as_ref().unwrap()[0].open);
}

#[test]
fn toggle_of_a_path_that_names_nothing_changes_nothing() {
    let (mut menu, _) = menu_with(sample(), vec![]);
    menu.update(StartMessage::ItemMessage(StartItemMessage::Toggle(strings(&["Nowhere"]))));
    menu.update(StartMessage::ItemMessage(StartItemMessage::Toggle(strings(&["Tools", "Deep"]))));
    menu.update(StartMessage::ItemMessage(StartItemMessage::Toggle(strings(&["x", "shot-1"]))));
    menu.update(StartMessage::ItemMessage(StartItemMessage::Toggle(vec![])));
    for item in menu.content() {
        assert!(!item.open);
    }
    let tools = &menu.content()[1];
    for item in tools.content.as_ref().unwrap() {
        assert!(!item.open);
    }
}

#[test]
fn item_update_toggles_and_ignores_launch() {
    let mut item = StartItem::new(&sample().remove(1)).unwrap();
    item.update(StartItemMessage::Toggle(vec![]));
    assert!(item.open);
    item.update(StartItemMessage::Toggle(strings(&["a"])));
    assert!(item.content.as_ref().unwrap()[2].open);
    item.update(StartItemMessage::Launch("p/Tools/a.lnk".to_string()));
    assert!(item.open);
    assert!(item.content.as_ref().unwrap()[2].open);
}

#[test]
fn launch_asks_the_host_and_names_the_window_to_close() {
    let (mut menu, _) = menu_with(sample(), vec![]);
    let effects =
        menu.update(StartMessage::ItemMessage(StartItemMessage::Launch("p/shot-1.lnk".to_string())));
    match &effects[..] {
        [Effect::Launch { path, window }] => {
            assert_eq!(path, "p/shot-1.lnk");
            assert_eq!(*window, WindowHandle(2));
        }
        other => panic!("unexpected effects {:?}", other),
    }
}

#[test]
fn switch_to_tab() {
    let mut menu = StartMenu::new(WindowHandle(2)).0;
    assert!(menu.update(StartMessage::SwitchToTab(StartMenuTab::Applications)).is_empty());
    assert_eq!(menu.tab(), StartMenuTab::Applications);
    menu.update(StartMessage::SwitchToTab(StartMenuTab::Tiles));
    assert_eq!(menu.tab(), StartMenuTab::Tiles);
}

#[test]
fn resize_lays_the_menu_out() {
    let mut menu = StartMenu::new(WindowHandle(2)).0;
    let effects = menu.update(StartMessage::Resize(Some(Size { width: 1000, height: 500 })));
    match &effects[..] {
        [Effect::Resize(handle, extent), Effect::MoveTo(moved, point)] => {
            assert_eq!(*handle, WindowHandle(2));
            assert_eq!(*moved, WindowHandle(2));
            assert_eq!(*extent, Extent { width: 600_000, height: 800_000 });
            assert_eq!(*point, Point { x: 4_000, y: 50_000 });
        }
        other => panic!("unexpected effects {:?}", other),
    }
    assert!(menu.update(StartMessage::Resize(None)).is_empty());
}

#[test]
fn pin_then_unpin_gives_back_the_tiles() {
    let mut menu = StartMenu::new(WindowHandle(2)).0;
    menu.update(StartMessage::PinToTiles("a".to_string()));
    menu.update(StartMessage::PinToTiles("b".to_string()));
    let before = menu.tiles().clone();
    menu.update(StartMessage::PinToTiles("c".to_string()));
    assert_eq!(menu.tiles(), &strings(&["a", "b", "c"]));
    menu.update(StartMessage::UnpinFromTiles("c".to_string()));
    assert_eq!(menu.tiles(), &before);
}

#[test]
fn pin_appends_even_a_duplicate_and_unpin_removes_every_copy() {
    let mut settings = StartMenuSettings::new();
    settings.pin("a".to_string());
    settings.pin("b".to_string());
    settings.pin("a".to_string());
    assert_eq!(settings.tiles, strings(&["a", "b", "a"]));
    settings.unpin(&"a".to_string());
    assert_eq!(settings.tiles, strings(&["b"]));
    settings.unpin(&"missing".to_string());
    assert_eq!(settings.tiles, strings(&["b"]));
    assert_eq!(settings.duplicate().tiles, strings(&["b"]));
}

#[test]
fn pin_and_unpin_save_the_settings() {
    let mut menu = StartMenu::new(WindowHandle(2)).0;
    let pinned = menu.update(StartMessage::PinToTiles("a".to_string()));
    match &pinned[..] {
        [Effect::SaveSettings(settings)] => assert_eq!(settings.tiles, strings(&["a"])),
        other => panic!("unexpected effects {:?}", other),
    }
    let unpinned = menu.update(StartMessage::UnpinFromTiles("a".to_string()));
    match &unpinned[..] {
        [Effect::SaveSettings(settings)] => assert!(settings.tiles.is_empty()),
        other => panic!("unexpected effects {:?}", other),
    }
}

#[test]
fn prep_sorts_every_folder_and_asks_for_every_leaf() {
    let mut item = StartItem::new(&sample().remove(1)).unwrap();
    let effects = item.prep();
    assert_eq!(item.sorted, Some(strings(&["a", "b", "Deep"])));
    assert_eq!(names(item.content.as_ref().unwrap()), strings(&["b", "Deep", "a"]));
    let asked: Vec<String> = effects
        .iter()
        .map(|effect| match effect {
            Effect::LoadIcon(path) => path.clone(),
            other => panic!("unexpected effect {:?}", other),
        })
        .collect();
    assert_eq!(asked, strings(&["p/Tools/b.lnk", "p/Tools/Deep/z.exe", "p/Tools/a.lnk"]));
    let mut leaf = StartItem::new(&file("p/x.lnk", "x.lnk")).unwrap();
    assert_eq!(leaf.prep().len(), 1);
    assert!(leaf.sorted.is_none());
}

#[test]
fn rows_show_closed_folders_as_one_row() {
    let (menu, _) = menu_with(sample(), vec![]);
    let rows = menu.rows();
    assert_eq!(row_names(&rows), strings(&["shot-1", "shot-2", "shot-11", "Tools"]));
    assert_eq!(rows[0].kind, RowKind::Launcher);
    assert_eq!(rows[0].target, "p/shot-1.lnk");
    assert_eq!(rows[0].path, strings(&["shot-1"]));
    assert_eq!(rows[3].kind, RowKind::Folder { open: false });
    assert_eq!(rows[3].path, strings(&["Tools"]));
}

#[test]
fn rows_of_an_open_folder_follow_it_with_longer_paths() {
    let (mut menu, _) = menu_with(sample(), vec![]);
    menu.update(StartMessage::ItemMessage(StartItemMessage::Toggle(strings(&["Tools"]))));
    menu.update(StartMessage::ItemMessage(StartItemMessage::Toggle(strings(&["Deep", "Tools"]))));
    let rows = menu.rows();
    assert_eq!(
        row_names(&rows),
        strings(&["shot-1", "shot-2", "shot-11", "Tools", "a", "b", "Deep", "z.exe"])
    );
    assert_eq!(rows[3].kind, RowKind::Folder { open: true });
    assert_eq!(rows[4].path, strings(&["a", "Tools"]));
    assert_eq!(rows[6].kind, RowKind::Folder { open: true });
    assert_eq!(rows[6].path, strings(&["Deep", "Tools"]));
    assert_eq!(rows[7].path, strings(&["z.exe", "Deep", "Tools"]));
    assert_eq!(rows[7].target, "p/Tools/Deep/z.exe");
    // A row's path is what a press on it sends.
    let path = rows[6].path.clone();
    menu.update(StartMessage::ItemMessage(StartItemMessage::Toggle(path)));
    assert_eq!(menu.rows().len(), 7);
}

#[test]
fn rows_leave_out_empty_folders_and_files_without_extension() {
    let (menu, _) = menu_with(
        vec![
            dir("p/Empty", "Empty", vec![]),
            file("p/LICENSE", "LICENSE"),
            file("p/run.exe", "run.exe"),
        ],
        vec![],
    );
    assert_eq!(menu.content().len(), 3);
    assert_eq!(row_names(&menu.rows()), strings(&["run.exe"]));
}

#[test]
fn rows_of_a_folder_that_was_not_prepared() {
    let mut folder = StartItem::new(&sample().remove(1)).unwrap();
    assert!(folder.rows(strings(&["Tools"])).is_empty());
    folder.prep();
    let rows = folder.rows(strings(&["Tools"]));
    assert_eq!(row_names(&rows), strings(&["Tools"]));
}

#[test]
fn listing_order_ignores_case_and_counts_digits() {
    let sorted = frostwin::names::sort_names(&strings(&["b", "Zed", "a10", "A2", "a1"]));
    assert_eq!(sorted, strings(&["a1", "A2", "a10", "b", "Zed"]));
}

#[test]
fn listing_order_keeps_names_that_differ_only_in_case_in_their_order() {
    let sorted = frostwin::names::sort_names(&strings(&["tools", "Apps", "Tools", "apps"]));
    assert_eq!(sorted, strings(&["Apps", "apps", "tools", "Tools"]));
    assert!(frostwin::names::sort_names(&Vec::new()).is_empty());
}

#[test]
fn tab_titles() {
    assert_eq!(StartMenuTab::Tiles.title(), "Tiles");
    assert_eq!(StartMenuTab::Applications.title(), "Applications");
}

#[test]
fn folders_hold_their_entries_by_name() {
    let (mut menu, _) = menu_with(
        vec![
            dir("u/Tools", "Tools", vec![file("u/Tools/a.lnk", "a.lnk"), file("u/Tools/a.exe", "a.exe")]),
            file("u/Tools.lnk", "Tools.lnk"),
        ],
        vec![],
    );
    // The shortcut `Tools.lnk` is called `Tools` and takes the folder's place.
    assert_eq!(names(menu.content()), strings(&["Tools"]));
    assert!(menu.content()[0].content.is_none());
    menu.update(StartMessage::ItemMessage(StartItemMessage::Toggle(strings(&["Tools"]))));
    assert_eq!(names(menu.content()), strings(&["Tools"]));
}
