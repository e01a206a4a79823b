//! A native application menu described as plain data: submenus of custom and
//! native items, assembled in a fixed order, plus the decision taken when the
//! user selects an item.

pub mod event;
pub mod layout;
pub mod menu;

pub use event::{handle_menu_event, MenuAction};
pub use layout::{create_application_menu, MenuBuilder};
pub use menu::{
    CustomMenuItem, CustomMenuItemView, Menu, MenuEntry, MenuEntryView, NativeItem,
    NativeItemView, Submenu, SubmenuView,
};
