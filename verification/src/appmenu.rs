//! The application menu that a Cocoa application gets where it asks for no
//! menu of its own.

use vstd::prelude::*;
use crate::hotkey::{KeyEquivalent, NS_ALTERNATE_KEY_MASK, NS_COMMAND_KEY_MASK};

verus! {

/// What a command of the application menu does.
#[derive(Clone, Copy, Debug, PartialEq, Eq, Structural)]
pub enum AppAction {
    /// Shows the standard panel about the application.
    About,
    /// Hides the application.
    Hide,
    /// Hides every other application.
    HideOthers,
    /// Shows all that was hidden.
    ShowAll,
    /// Ends the application.
    Quit,
}

/// One entry of the application menu.
#[derive(Debug)]
pub enum AppMenuItem {
    Separator,
    Command { title: String, action: AppAction, key_equivalent: Option<KeyEquivalent> },
}

/// What an `AppMenuItem` holds, as a value of specifications.
pub enum AppMenuItemView {
    Separator,
    Command { title: Seq<char>, action: AppAction, key_equivalent: Option<KeyEquivalent> },
}

impl View for AppMenuItem {
    type V = AppMenuItemView;

    open spec fn view(&self) -> AppMenuItemView {
        match self {
            AppMenuItem::Separator => AppMenuItemView::Separator,
            AppMenuItem::Command { title, action, key_equivalent } => AppMenuItemView::Command {
                title: title@,
                action: *action,
                key_equivalent: *key_equivalent,
            },
        }
    }
}

/// The entries of the standard application menu of the process called
/// `process_name`.
pub open spec fn default_items(process_name: Seq<char>) -> Seq<AppMenuItemView> {
    seq![
        AppMenuItemView::Command {
            title: "About "@ + process_name,
            action: AppAction::About,
            key_equivalent: None,
        },
        AppMenuItemView::Separator,
        AppMenuItemView::Command {
            title: "Hide "@ + process_name,
            action: AppAction::Hide,
            key_equivalent: Some(KeyEquivalent { key: 'h', masks: None }),
        },
        AppMenuItemView::Command {
            title: "Hide Others"@,
            action: AppAction::HideOthers,
            key_equivalent: Some(
                KeyEquivalent {
                    key: 'h',
                    masks: Some((NS_ALTERNATE_KEY_MASK + NS_COMMAND_KEY_MASK) as u64),
                },
            ),
        },
        AppMenuItemView::Command {
            title: "Show All"@,
            action: AppAction::ShowAll,
            key_equivalent: None,
        },
        AppMenuItemView::Separator,
        AppMenuItemView::Command {
            title: "Quit "@ + process_name,
            action: AppAction::Quit,
            key_equivalent: Some(KeyEquivalent { key: 'q', masks: None }),
        },
    ]
}

/// A command of the application menu.
fn menu_item(title: String, action: AppAction, key_equivalent: Option<KeyEquivalent>) -> (item:
    AppMenuItem)
    ensures
        item@ == (AppMenuItemView::Command { title: title@, action, key_equivalent }),
{
    AppMenuItem::Command { title, action, key_equivalent }
}

/// The standard application menu of the process called `process_name`.
pub fn default_app_menu(process_name: &str) -> (items: Vec<AppMenuItem>)
    ensures
        items@.len() == 7,
        forall|i: int| 0 <= i < 7 ==> (#[trigger] items@[i])@ == default_items(process_name@)[i],
{
    let mut items: Vec<AppMenuItem> = Vec::new();
    items.push(menu_item("About ".to_owned().concat(process_name), AppAction::About, None));
    items.push(AppMenuItem::Separator);
    items.push(
        menu_item(
            "Hide ".to_owned().concat(process_name),
            AppAction::Hide,
            Some(KeyEquivalent { key: 'h', masks: None }),
        ),
    );
    items.push(
        menu_item(
            "Hide Others".to_owned(),
            AppAction::HideOthers,
            Some(
                KeyEquivalent {
                    key: 'h',
                    masks: Some(NS_ALTERNATE_KEY_MASK + NS_COMMAND_KEY_MASK),
                },
            ),
        ),
    );
    items.push(menu_item("Show All".to_owned(), AppAction::ShowAll, None));
    items.push(AppMenuItem::Separator);
    items.push(
        menu_item(
            "Quit ".to_owned().concat(process_name),
            AppAction::Quit,
            Some(KeyEquivalent { key: 'q', masks: None }),
        ),
    );
    items
}

} // verus!
