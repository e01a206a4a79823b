use app_menu::{
    create_application_menu, CustomMenuItem, Menu, MenuBuilder, MenuEntry, NativeItem, Submenu,
};

fn custom(id: &str, title: &str, accelerator: &str) -> MenuEntry {
    MenuEntry::Custom(CustomMenuItem {
        id: id.to_string(),
        title: title.to_string(),
        accelerator: Some(accelerator.to_string()),
    })
}

fn native(item: NativeItem) -> MenuEntry {
    MenuEntry::Native(item)
}

#[test]
fn demo_application_submenu_is_labelled_and_starts_with_about() {
    let menu = create_application_menu("Demo");
    let app = &menu.submenus[0];
    assert_eq!(app.title, "Demo");
    assert_eq!(app.entries[0], native(NativeItem::About("Demo".to_string())));
}

#[test]
fn file_submenu_third_entry_is_save() {
    let menu = create_application_menu("Demo");
    let file = &menu.submenus[1];
    assert_eq!(file.title, "File");
    assert_eq!(file.entries[2], custom("save", "Save as...", "CommandOrControl+S"));
}

#[test]
fn whole_layout_in_order() {
    let menu = create_application_menu("Notes");
    let titles: Vec<&str> = menu.submenus.iter().map(|s| s.title.as_str()).collect();
    assert_eq!(titles, vec!["Notes", "File", "Edit", "View", "Window"]);
    assert_eq!(
        menu.submenus[0].entries,
        vec![
            native(NativeItem::About("Notes".to_string())),
            native(NativeItem::Separator),
            native(NativeItem::Services),
            native(NativeItem::Separator),
            native(NativeItem::Hide),
            native(NativeItem::HideOthers),
            native(NativeItem::ShowAll),
            native(NativeItem::Separator),
            native(NativeItem::Quit),
        ]
    );
    assert_eq!(
        menu.submenus[1].entries,
        vec![
            custom("new", "New", "CommandOrControl+N"),
            custom("open", "Open...", "CommandOrControl+O"),
            custom("save", "Save as...", "CommandOrControl+S"),
            custom("link", "Share link...", "CommandOrControl+L"),
            native(NativeItem::Separator),
            native(NativeItem::CloseWindow),
        ]
    );
    assert_eq!(
        menu.submenus[2].entries,
        vec![
            native(NativeItem::Undo),
            native(NativeItem::Redo),
            native(NativeItem::Separator),
            native(NativeItem::Cut),
            native(NativeItem::Copy),
            native(NativeItem::Paste),
            native(NativeItem::SelectAll),
        ]
    );
    assert_eq!(menu.submenus[3].entries, vec![native(NativeItem::EnterFullScreen)]);
    assert_eq!(
        menu.submenus[4].entries,
        vec![
            native(NativeItem::Minimize),
            native(NativeItem::Zoom),
            native(NativeItem::Separator),
            native(NativeItem::CloseWindow),
        ]
    );
}

#[test]
fn layout_holds_for_an_empty_name() {
    let menu = create_application_menu("");
    assert_eq!(menu.submenus.len(), 5);
    assert_eq!(menu.submenus[0].title, "");
    assert_eq!(menu.submenus[0].entries[0], native(NativeItem::About(String::new())));
    assert_eq!(menu.submenus[0].entries.len(), 9);
}

#[test]
fn name_changes_only_label_and_about() {
    let a = create_application_menu("Alpha");
    let b = create_application_menu("Beta");
    assert_eq!(a.submenus.len(), b.submenus.len());
    assert_eq!(a.submenus[1..], b.submenus[1..]);
    assert_ne!(a.submenus[0].title, b.submenus[0].title);
    assert_ne!(a.submenus[0].entries[0], b.submenus[0].entries[0]);
    assert_eq!(a.submenus[0].entries[1..], b.submenus[0].entries[1..]);
    assert_eq!(b.submenus[0].entries[0], native(NativeItem::About("Beta".to_string())));
}

#[test]
fn builder_keeps_the_order_of_calls() {
    let builder = MenuBuilder::new().add_window_menu().add_view_menu().add_file_menu();
    let menu = builder.build();
    let titles: Vec<&str> = menu.submenus.iter().map(|s| s.title.as_str()).collect();
    assert_eq!(titles, vec!["Window", "View", "File"]);
    assert_eq!(builder.build(), menu);
}

#[test]
fn empty_builder_builds_an_empty_menu() {
    let menu = MenuBuilder::new().build();
    assert!(menu.submenus.is_empty());
    assert_eq!(menu, Menu::new());
}

#[test]
fn edit_menu_alone() {
    let menu = MenuBuilder::new().add_edit_menu().build();
    assert_eq!(menu.submenus.len(), 1);
    assert_eq!(menu.submenus[0].title, "Edit");
    assert_eq!(menu.submenus[0].entries.len(), 7);
}

#[test]
fn application_menu_alone_uses_the_given_name() {
    let menu = MenuBuilder::new().add_application_menu("Tool").build();
    assert_eq!(menu.submenus.len(), 1);
    assert_eq!(menu.submenus[0].title, "Tool");
    assert_eq!(menu.submenus[0].entries[8], native(NativeItem::Quit));
}

#[test]
fn custom_item_with_and_without_accelerator() {
    let plain = CustomMenuItem::new("open", "Open...");
    assert_eq!(plain.id, "open");
    assert_eq!(plain.title, "Open...");
    assert_eq!(plain.accelerator, None);
    let bound = plain.accelerator("CommandOrControl+O");
    assert_eq!(bound.accelerator, Some("CommandOrControl+O".to_string()));
    assert_eq!(bound.id, "open");
}

#[test]
fn submenu_entries_keep_insertion_order() {
    let sub = Submenu::new("Tools")
        .add_native_item(NativeItem::Zoom)
        .add_item(CustomMenuItem::new("run", "Run"))
        .add_native_item(NativeItem::Separator);
    assert_eq!(sub.title, "Tools");
    assert_eq!(
        sub.entries,
        vec![
            native(NativeItem::Zoom),
            MenuEntry::Custom(CustomMenuItem::new("run", "Run")),
            native(NativeItem::Separator),
        ]
    );
}

#[test]
fn clones_are_equal() {
    let menu = create_application_menu("Demo");
    assert_eq!(menu.clone(), menu);
    assert_eq!(menu.submenus[1].clone(), menu.submenus[1]);
    let about = NativeItem::About("Demo".to_string());
    assert_eq!(about.clone(), about);
}
