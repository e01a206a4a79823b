use vstd::prelude::*;

verus! {

/// A platform-standard menu entry whose behaviour the host toolkit provides.
#[derive(PartialEq, Eq, Debug)]
pub enum NativeItem {
    /// The About entry, which names the application.
    About(String),
    Separator,
    Services,
    Hide,
    HideOthers,
    ShowAll,
    Quit,
    CloseWindow,
    Undo,
    Redo,
    Cut,
    Copy,
    Paste,
    SelectAll,
    Minimize,
    Zoom,
    EnterFullScreen,
}

/// The mathematical value of a [`NativeItem`].
pub enum NativeItemView {
    About(Seq<char>),
    Separator,
    Services,
    Hide,
    HideOthers,
    ShowAll,
    Quit,
    CloseWindow,
    Undo,
    Redo,
    Cut,
    Copy,
    Paste,
    SelectAll,
    Minimize,
    Zoom,
    EnterFullScreen,
}

impl View for NativeItem {
    type V = NativeItemView;

    open spec fn view(&self) -> NativeItemView {
        match self {
            NativeItem::About(name) => NativeItemView::About(name@),
            NativeItem::Separator => NativeItemView::Separator,
            NativeItem::Services => NativeItemView::Services,
            NativeItem::Hide => NativeItemView::Hide,
            NativeItem::HideOthers => NativeItemView::HideOthers,
            NativeItem::ShowAll => NativeItemView::ShowAll,
            NativeItem::Quit => NativeItemView::Quit,
            NativeItem::CloseWindow => NativeItemView::CloseWindow,
            NativeItem::Undo => NativeItemView::Undo,
            NativeItem::Redo => NativeItemView::Redo,
            NativeItem::Cut => NativeItemView::Cut,
            NativeItem::Copy => NativeItemView::Copy,
            NativeItem::Paste => NativeItemView::Paste,
            NativeItem::SelectAll => NativeItemView::SelectAll,
            NativeItem::Minimize => NativeItemView::Minimize,
            NativeItem::Zoom => NativeItemView::Zoom,
            NativeItem::EnterFullScreen => NativeItemView::EnterFullScreen,
        }
    }
}

impl Clone for NativeItem {
    fn clone(&self) -> (r: Self)
        ensures
            r == *self,
    {
        match self {
            NativeItem::About(name) => NativeItem::About(name.clone()),
            NativeItem::Separator => NativeItem::Separator,
            NativeItem::Services => NativeItem::Services,
            NativeItem::Hide => NativeItem::Hide,
            NativeItem::HideOthers => NativeItem::HideOthers,
            NativeItem::ShowAll => NativeItem::ShowAll,
            NativeItem::Quit => NativeItem::Quit,
            NativeItem::CloseWindow => NativeItem::CloseWindow,
            NativeItem::Undo => NativeItem::Undo,
            NativeItem::Redo => NativeItem::Redo,
            NativeItem::Cut => NativeItem::Cut,
            NativeItem::Copy => NativeItem::Copy,
            NativeItem::Paste => NativeItem::Paste,
            NativeItem::SelectAll => NativeItem::SelectAll,
            NativeItem::Minimize => NativeItem::Minimize,
            NativeItem::Zoom => NativeItem::Zoom,
            NativeItem::EnterFullScreen => NativeItem::EnterFullScreen,
        }
    }
}

/// An application-defined entry: an identifier reported when it is selected,
/// the label shown, and an optional keyboard accelerator.
#[derive(PartialEq, Eq, Debug)]
pub struct CustomMenuItem {
    pub id: String,
    pub title: String,
    pub accelerator: Option<String>,
}

/// The mathematical value of a [`CustomMenuItem`].
pub struct CustomMenuItemView {
    pub id: Seq<char>,
    pub title: Seq<char>,
    pub accelerator: Option<Seq<char>>,
}

impl View for CustomMenuItem {
    type V = CustomMenuItemView;

    open spec fn view(&self) -> CustomMenuItemView {
        CustomMenuItemView {
            id: self.id@,
            title: self.title@,
            accelerator: match self.accelerator {
                Some(a) => Some(a@),
                None => None,
            },
        }
    }
}

impl Clone for CustomMenuItem {
    fn clone(&self) -> (r: Self)
        ensures
            r == *self,
    {
        CustomMenuItem {
            id: self.id.clone(),
            title: self.title.clone(),
            accelerator: self.accelerator.clone(),
        }
    }
}

impl CustomMenuItem {
    /// An item with the given identifier and label, and no accelerator.
    pub fn new(id: &str, title: &str) -> (r: Self)
        ensures
            r@ == (CustomMenuItemView { id: id@, title: title@, accelerator: None }),
    {
        CustomMenuItem { id: id.to_owned(), title: title.to_owned(), accelerator: None }
    }

    /// The same item, bound to the keyboard shortcut `accelerator`.
    pub fn accelerator(self, accelerator: &str) -> (r: Self)
        ensures
            r@ == (CustomMenuItemView { accelerator: Some(accelerator@), ..self@ }),
    {
        CustomMenuItem { accelerator: Some(accelerator.to_owned()), ..self }
    }
}

/// One entry of a submenu.
#[derive(PartialEq, Eq, Debug)]
pub enum MenuEntry {
    Custom(CustomMenuItem),
    Native(NativeItem),
}

/// The mathematical value of a [`MenuEntry`].
pub enum MenuEntryView {
    Custom(CustomMenuItemView),
    Native(NativeItemView),
}

impl View for MenuEntry {
    type V = MenuEntryView;

    open spec fn view(&self) -> MenuEntryView {
        match self {
            MenuEntry::Custom(item) => MenuEntryView::Custom(item@),
            MenuEntry::Native(item) => MenuEntryView::Native(item@),
        }
    }
}

impl Clone for MenuEntry {
    fn clone(&self) -> (r: Self)
        ensures
            r == *self,
    {
        match self {
            MenuEntry::Custom(item) => MenuEntry::Custom(item.clone()),
            MenuEntry::Native(item) => MenuEntry::Native(item.clone()),
        }
    }
}

/// A labelled group of entries, kept in the order they were added.
#[derive(PartialEq, Eq, Debug)]
pub struct Submenu {
    pub title: String,
    pub entries: Vec<MenuEntry>,
}

/// The mathematical value of a [`Submenu`].
pub struct SubmenuView {
    pub title: Seq<char>,
    pub entries: Seq<MenuEntryView>,
}

impl View for Submenu {
    type V = SubmenuView;

    open spec fn view(&self) -> SubmenuView {
        SubmenuView { title: self.title@, entries: self.entries@.map_values(|e: MenuEntry| e@) }
    }
}

impl Clone for Submenu {
    fn clone(&self) -> (r: Self)
        ensures
            r@ == self@,
    {
        let r = Submenu { title: self.title.clone(), entries: self.entries.clone() };
        assert(r.entries@ =~= self.entries@);
        r
    }
}

impl Submenu {
    /// A submenu labelled `title` with no entries yet.
    pub fn new(title: &str) -> (r: Self)
        ensures
            r@ == (SubmenuView { title: title@, entries: Seq::empty() }),
    {
        let r = Submenu { title: title.to_owned(), entries: Vec::new() };
        assert(r@.entries =~= Seq::empty());
        r
    }

    /// The same submenu with the custom `item` appended.
    pub fn add_item(self, item: CustomMenuItem) -> (r: Self)
        ensures
            r@ == (SubmenuView {
                entries: self@.entries.push(MenuEntryView::Custom(item@)),
                ..self@
            }),
    {
        self.add_entry(MenuEntry::Custom(item))
    }

    /// The same submenu with the native `item` appended.
    pub fn add_native_item(self, item: NativeItem) -> (r: Self)
        ensures
            r@ == (SubmenuView {
                entries: self@.entries.push(MenuEntryView::Native(item@)),
                ..self@
            }),
    {
        self.add_entry(MenuEntry::Native(item))
    }

    fn add_entry(self, entry: MenuEntry) -> (r: Self)
        ensures
            r@ == (SubmenuView { entries: self@.entries.push(entry@), ..self@ }),
    {
        let ghost before = self@;
        let mut s = self;
        s.entries.push(entry);
        assert(s@.entries =~= before.entries.push(entry@));
        s
    }
}

/// A menu bar: its submenus, kept in the order they were added.
#[derive(PartialEq, Eq, Debug)]
pub struct Menu {
    pub submenus: Vec<Submenu>,
}

impl View for Menu {
    type V = Seq<SubmenuView>;

    open spec fn view(&self) -> Seq<SubmenuView> {
        self.submenus@.map_values(|s: Submenu| s@)
    }
}

impl Clone for Menu {
    fn clone(&self) -> (r: Self)
        ensures
            r@ == self@,
    {
        let r = Menu { submenus: self.submenus.clone() };
        assert(r@ =~= self@);
        r
    }
}

impl Menu {
    /// A menu bar with no submenus.
    pub fn new() -> (r: Self)
        ensures
            r@ == Seq::<SubmenuView>::empty(),
    {
        let r = Menu { submenus: Vec::new() };
        assert(r@ =~= Seq::<SubmenuView>::empty());
        r
    }

    /// The same menu bar with `submenu` appended.
    pub fn add_submenu(self, submenu: Submenu) -> (r: Self)
        ensures
            r@ == self@.push(submenu@),
    {
        let ghost before = self@;
        let mut m = self;
        m.submenus.push(submenu);
        assert(m@ =~= before.push(submenu@));
        m
    }
}

} // verus!
