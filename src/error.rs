use vstd::prelude::*;

verus! {

/// The menu commands whose page script reports back a single status word.
#[derive(Clone, Copy, Debug, PartialEq, Eq, Structural)]
pub enum MenuCommand {
    MarkSpam,
    MoveToInbox,
    MarkRead,
    MarkUnread,
    ClearLabels,
}

/// Why an operation on the mail tab did not go through.
#[derive(Debug)]
pub enum ClientError {
    /// The message never became visible in the list.
    MessageNotVisible { id: String },
    /// No element of the list carries the message's id.
    MessageNotFound { id: String },
    /// The message is not in the junk folder.
    NotInJunk { id: String },
    /// No message is listed, so no menu can be opened on one.
    NoMessages,
    /// A right-click did not bring up the context menu.
    ContextMenuClosed,
    /// The context menu has no "Categorize" entry.
    CategorizeButtonMissing,
    /// Clicking "Categorize" did not land on an entry.
    CategorizeClickFailed,
    /// The category submenu did not show the wanted category.
    SubmenuClosed,
    /// The submenu holds no category of that name.
    CategoryNotFound { label: String, available: Vec<String> },
    /// Clicking the category reported something other than success.
    LabelFailed { status: String },
    /// The submenu has no "Manage categories" entry.
    ManageCategoriesMissing { items: Vec<String> },
    /// The categories menu has no entry that clears them.
    ClearOptionMissing,
    /// A menu command reported a status other than success.
    CommandFailed { command: MenuCommand, status: String },
    /// The tab's address does not let the junk folder be reached.
    JunkNavigationFailed,
    /// No element matches the selector.
    ElementNotFound { selector: String },
    /// No menu entry holds the text.
    MenuItemNotFound { text: String },
    /// A browser runs, but without its debugging port open.
    DebuggingDisabled { port: u16 },
    /// A browser was started but never answered on its debugging port.
    ConnectTimeout,
}

} // verus!
