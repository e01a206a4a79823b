use vstd::prelude::*;
use crate::menu::{
    CustomMenuItem, CustomMenuItemView, Menu, MenuEntryView, NativeItem, NativeItemView, Submenu,
    SubmenuView,
};

verus! {

/// A custom entry bound to a keyboard shortcut.
pub open spec fn shortcut_entry(id: Seq<char>, title: Seq<char>, accelerator: Seq<char>) -> MenuEntryView {
    MenuEntryView::Custom(CustomMenuItemView { id, title, accelerator: Some(accelerator) })
}

/// A native entry.
pub open spec fn native_entry(item: NativeItemView) -> MenuEntryView {
    MenuEntryView::Native(item)
}

/// The application submenu: labelled with the application's name, About that
/// name, Services, Hide / Hide Others / Show All, and Quit.
pub open spec fn application_submenu(application_name: Seq<char>) -> SubmenuView {
    SubmenuView {
        title: application_name,
        entries: seq![
            native_entry(NativeItemView::About(application_name)),
            native_entry(NativeItemView::Separator),
            native_entry(NativeItemView::Services),
            native_entry(NativeItemView::Separator),
            native_entry(NativeItemView::Hide),
            native_entry(NativeItemView::HideOthers),
            native_entry(NativeItemView::ShowAll),
            native_entry(NativeItemView::Separator),
            native_entry(NativeItemView::Quit),
        ],
    }
}

/// The File submenu: New, Open, Save and Share with their accelerators, then
/// Close Window.
pub open spec fn file_submenu() -> SubmenuView {
    SubmenuView {
        title: "File"@,
        entries: seq![
            shortcut_entry("new"@, "New"@, "CommandOrControl+N"@),
            shortcut_entry("open"@, "Open..."@, "CommandOrControl+O"@),
            shortcut_entry("save"@, "Save as..."@, "CommandOrControl+S"@),
            shortcut_entry("link"@, "Share link..."@, "CommandOrControl+L"@),
            native_entry(NativeItemView::Separator),
            native_entry(NativeItemView::CloseWindow),
        ],
    }
}

/// The Edit submenu: undo / redo and the clipboard operations.
pub open spec fn edit_submenu() -> SubmenuView {
    SubmenuView {
        title: "Edit"@,
        entries: seq![
            native_entry(NativeItemView::Undo),
            native_entry(NativeItemView::Redo),
            native_entry(NativeItemView::Separator),
            native_entry(NativeItemView::Cut),
            native_entry(NativeItemView::Copy),
            native_entry(NativeItemView::Paste),
            native_entry(NativeItemView::SelectAll),
        ],
    }
}

/// The View submenu: Enter Full Screen.
pub open spec fn view_submenu() -> SubmenuView {
    SubmenuView { title: "View"@, entries: seq![native_entry(NativeItemView::EnterFullScreen)] }
}

/// The Window submenu: Minimize, Zoom, then Close Window.
pub open spec fn window_submenu() -> SubmenuView {
    SubmenuView {
        title: "Window"@,
        entries: seq![
            native_entry(NativeItemView::Minimize),
            native_entry(NativeItemView::Zoom),
            native_entry(NativeItemView::Separator),
            native_entry(NativeItemView::CloseWindow),
        ],
    }
}

/// The whole application menu bar, in order: application, File, Edit, View,
/// Window.
pub open spec fn application_menu(application_name: Seq<char>) -> Seq<SubmenuView> {
    seq![
        application_submenu(application_name),
        file_submenu(),
        edit_submenu(),
        view_submenu(),
        window_submenu(),
    ]
}

/// Assembles a menu bar one standard submenu at a time.
#[derive(Debug)]
pub struct MenuBuilder(pub Menu);

impl View for MenuBuilder {
    type V = Seq<SubmenuView>;

    open spec fn view(&self) -> Seq<SubmenuView> {
        self.0@
    }
}

impl MenuBuilder {
    /// A builder holding an empty menu bar.
    pub fn new() -> (r: Self)
        ensures
            r@ == Seq::<SubmenuView>::empty(),
    {
        MenuBuilder(Menu::new())
    }

    /// Appends the application submenu for `application_name`.
    pub fn add_application_menu(self, application_name: &str) -> (r: Self)
        ensures
            r@ == self@.push(application_submenu(application_name@)),
    {
        let app_menu = Submenu::new(application_name)
            .add_native_item(NativeItem::About(application_name.to_owned()))
            .add_native_item(NativeItem::Separator)
            .add_native_item(NativeItem::Services)
            .add_native_item(NativeItem::Separator)
            .add_native_item(NativeItem::Hide)
            .add_native_item(NativeItem::HideOthers)
            .add_native_item(NativeItem::ShowAll)
            .add_native_item(NativeItem::Separator)
            .add_native_item(NativeItem::Quit);
        assert(app_menu@.entries =~= application_submenu(application_name@).entries);
        MenuBuilder(self.0.add_submenu(app_menu))
    }

    /// Appends the File submenu.
    pub fn add_file_menu(self) -> (r: Self)
        ensures
            r@ == self@.push(file_submenu()),
    {
        let file_menu = Submenu::new("File")
            .add_item(CustomMenuItem::new("new", "New").accelerator("CommandOrControl+N"))
            .add_item(CustomMenuItem::new("open", "Open...").accelerator("CommandOrControl+O"))
            .add_item(CustomMenuItem::new("save", "Save as...").accelerator("CommandOrControl+S"))
            .add_item(CustomMenuItem::new("link", "Share link...").accelerator("CommandOrControl+L"))
            .add_native_item(NativeItem::Separator)
            .add_native_item(NativeItem::CloseWindow);
        assert(file_menu@.entries =~= file_submenu().entries);
        MenuBuilder(self.0.add_submenu(file_menu))
    }

    /// Appends the Edit submenu.
    pub fn add_edit_menu(self) -> (r: Self)
        ensures
            r@ == self@.push(edit_submenu()),
    {
        let edit_menu = Submenu::new("Edit")
            .add_native_item(NativeItem::Undo)
            .add_native_item(NativeItem::Redo)
            .add_native_item(NativeItem::Separator)
            .add_native_item(NativeItem::Cut)
            .add_native_item(NativeItem::Copy)
            .add_native_item(NativeItem::Paste)
            .add_native_item(NativeItem::SelectAll);
        assert(edit_menu@.entries =~= edit_submenu().entries);
        MenuBuilder(self.0.add_submenu(edit_menu))
    }

    /// Appends the Window submenu.
    pub fn add_window_menu(self) -> (r: Self)
        ensures
            r@ == self@.push(window_submenu()),
    {
        let window_menu = Submenu::new("Window")
            .add_native_item(NativeItem::Minimize)
            .add_native_item(NativeItem::Zoom)
            .add_native_item(NativeItem::Separator)
            .add_native_item(NativeItem::CloseWindow);
        assert(window_menu@.entries =~= window_submenu().entries);
        MenuBuilder(self.0.add_submenu(window_menu))
    }

    /// Appends the View submenu.
    pub fn add_view_menu(self) -> (r: Self)
        ensures
            r@ == self@.push(view_submenu()),
    {
        let view_menu = Submenu::new("View").add_native_item(NativeItem::EnterFullScreen);
        assert(view_menu@.entries =~= view_submenu().entries);
        MenuBuilder(self.0.add_submenu(view_menu))
    }

    /// A copy of the menu bar assembled so far; the builder keeps its own.
    pub fn build(&self) -> (r: Menu)
        ensures
            r@ == self@,
    {
        self.0.clone()
    }
}

/// The application's menu bar for `application_name`: the application,
/// File, Edit, View and Window submenus, in that order.
pub fn create_application_menu(application_name: &str) -> (r: Menu)
    ensures
        r@ == application_menu(application_name@),
{
    let builder = MenuBuilder::new()
        .add_application_menu(application_name)
        .add_file_menu()
        .add_edit_menu()
        .add_view_menu()
        .add_window_menu();
    assert(builder@ =~= application_menu(application_name@));
    builder.build()
}

/// The application's name reaches only the application submenu's label and
/// its About entry: two names give menu bars of the same shape that agree on
/// every other submenu and on every other entry of the application submenu.
pub proof fn lemma_name_reaches_only_label_and_about(a: Seq<char>, b: Seq<char>)
    ensures
        application_menu(a).len() == application_menu(b).len(),
        forall|i: int|
            1 <= i < application_menu(a).len() ==> #[trigger] application_menu(a)[i]
                == application_menu(b)[i],
        application_menu(a)[0].title == a,
        application_menu(b)[0].title == b,
        application_menu(a)[0].entries[0] == native_entry(NativeItemView::About(a)),
        application_menu(b)[0].entries[0] == native_entry(NativeItemView::About(b)),
        application_menu(a)[0].entries.len() == application_menu(b)[0].entries.len(),
        forall|j: int|
            1 <= j < application_menu(a)[0].entries.len() ==> #[trigger] application_menu(
                a,
            )[0].entries[j] == application_menu(b)[0].entries[j],
{
}

} // verus!
