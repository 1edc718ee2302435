//! The menu sequences as state machines: each state names the one page step
//! that is pending, and the answer to that step decides the next state.
//! A driver performs the pending step and hands the answer back, until the
//! sequence is finished.
use vstd::prelude::*;

use crate::error::ClientError;
use crate::menu::ClickCategoryResult;

verus! {

/// Pause before checking that a right-click opened the context menu.
pub const MENU_SETTLE_MS: u64 = 1000;

/// Pause after clicking "Categorize", before the submenu is read.
pub const SUBMENU_SETTLE_MS: u64 = 800;

/// Pause after clicking "Manage categories", before the dialog is read.
pub const DIALOG_SETTLE_MS: u64 = 1000;

/// Pause after closing the dialog, before the submenu is read again.
pub const CLOSE_SETTLE_MS: u64 = 300;

/// A step to perform on the mail tab. Where it carries `delay_ms`, the
/// driver waits that long first.
pub enum PageAction {
    /// Go to the inbox unless the tab shows it.
    NavigateToInbox,
    /// Find the id of the first listed message.
    FindFirstMessage,
    /// Wait for the message to be shown; answer whether it was.
    WaitForMessage { id: String },
    /// Answer whether a context menu is open.
    CheckContextMenu { delay_ms: u64 },
    /// Find where the message is drawn; answer whether it was found.
    LocateMessage { id: String },
    /// Right-click where the message was found.
    RightClickMessage,
    /// Answer whether a menu entry ends with the category's name.
    CheckCategoryVisible { label: String, delay_ms: u64 },
    /// Answer whether the context menu has a "Categorize" entry.
    CheckCategorizeButton,
    /// Click "Categorize"; answer whether an entry was clicked.
    ClickCategorize,
    /// Click the category's entry; hand back the script's reply.
    ClickCategory { label: String },
    /// Click "Manage categories"; answer whether an entry was clicked.
    ClickManageCategories { delay_ms: u64 },
    /// Hand back the text of every menu entry shown.
    ListMenuItems,
    /// Hand back the categories listed in the categories dialog.
    ReadDialogCategories { delay_ms: u64 },
    /// Close the dialog.
    CloseDialog,
    /// Hand back the categories listed in the submenu.
    ReadSubmenuCategories { delay_ms: u64 },
    /// Close the menu by clicking elsewhere.
    DismissMenu,
}

/// The answer to a step.
pub enum PageEvent {
    /// A step with nothing to report was carried out.
    Performed,
    /// A step that checks or clicks answered yes or no.
    Answer(bool),
    /// The first listed message's id, if any is listed.
    FoundMessage(Option<String>),
    /// A list of texts read from the page.
    Items(Vec<String>),
    /// The reply of the script that clicks a category.
    CategoryClicked(ClickCategoryResult),
}

/// The steps that bring up the context menu on a message.
#[derive(Clone, Copy, Debug, PartialEq, Eq, Structural)]
pub enum OpenStage {
    AwaitVisible,
    AwaitMenu,
    AwaitPosition,
    AwaitRightClick,
    AwaitReopened,
}

/// Where an answer leaves the opening of the context menu.
pub enum Opening {
    Continue(OpenStage),
    Opened,
    Failed(ClientError),
    /// The answer does not fit the pending step.
    Ignored,
}

/// The step pending while opening the context menu on message `id`.
pub open spec fn open_action(stage: OpenStage, id: String) -> PageAction {
    match stage {
        OpenStage::AwaitVisible => PageAction::WaitForMessage { id },
        OpenStage::AwaitMenu => PageAction::CheckContextMenu { delay_ms: 0 },
        OpenStage::AwaitPosition => PageAction::LocateMessage { id },
        OpenStage::AwaitRightClick => PageAction::RightClickMessage,
        OpenStage::AwaitReopened => PageAction::CheckContextMenu { delay_ms: MENU_SETTLE_MS },
    }
}

/// Opening the context menu: a message that is shown, and a menu that is
/// open already or opens after a right-click on the message.
pub open spec fn open_next(stage: OpenStage, id: String, e: PageEvent) -> Opening {
    match (stage, e) {
        (OpenStage::AwaitVisible, PageEvent::Answer(shown)) => if shown {
            Opening::Continue(OpenStage::AwaitMenu)
        } else {
            Opening::Failed(ClientError::MessageNotVisible { id })
        },
        (OpenStage::AwaitMenu, PageEvent::Answer(open)) => if open {
            Opening::Opened
        } else {
            Opening::Continue(OpenStage::AwaitPosition)
        },
        (OpenStage::AwaitPosition, PageEvent::Answer(found)) => if found {
            Opening::Continue(OpenStage::AwaitRightClick)
        } else {
            Opening::Failed(ClientError::MessageNotFound { id })
        },
        (OpenStage::AwaitRightClick, PageEvent::Performed) => Opening::Continue(
            OpenStage::AwaitReopened,
        ),
        (OpenStage::AwaitReopened, PageEvent::Answer(open)) => if open {
            Opening::Opened
        } else {
            Opening::Failed(ClientError::ContextMenuClosed)
        },
        _ => Opening::Ignored,
    }
}

fn open_pending(stage: OpenStage, id: &String) -> (r: PageAction)
    ensures
        r == open_action(stage, *id),
{
    match stage {
        OpenStage::AwaitVisible => PageAction::WaitForMessage { id: id.clone() },
        OpenStage::AwaitMenu => PageAction::CheckContextMenu { delay_ms: 0 },
        OpenStage::AwaitPosition => PageAction::LocateMessage { id: id.clone() },
        OpenStage::AwaitRightClick => PageAction::RightClickMessage,
        OpenStage::AwaitReopened => PageAction::CheckContextMenu { delay_ms: MENU_SETTLE_MS },
    }
}

fn open_step(stage: OpenStage, id: &String, e: PageEvent) -> (r: Opening)
    ensures
        r == open_next(stage, *id, e),
{
    match (stage, e) {
        (OpenStage::AwaitVisible, PageEvent::Answer(shown)) => if shown {
            Opening::Continue(OpenStage::AwaitMenu)
        } else {
            Opening::Failed(ClientError::MessageNotVisible { id: id.clone() })
        },
        (OpenStage::AwaitMenu, PageEvent::Answer(open)) => if open {
            Opening::Opened
        } else {
            Opening::Continue(OpenStage::AwaitPosition)
        },
        (OpenStage::AwaitPosition, PageEvent::Answer(found)) => if found {
            Opening::Continue(OpenStage::AwaitRightClick)
        } else {
            Opening::Failed(ClientError::MessageNotFound { id: id.clone() })
        },
        (OpenStage::AwaitRightClick, PageEvent::Performed) => Opening::Continue(
            OpenStage::AwaitReopened,
        ),
        (OpenStage::AwaitReopened, PageEvent::Answer(open)) => if open {
            Opening::Opened
        } else {
            Opening::Failed(ClientError::ContextMenuClosed)
        },
        _ => Opening::Ignored,
    }
}

/// Where the toggling of a category on a message stands.
pub enum LabelStage {
    Opening(OpenStage),
    AwaitCategory,
    AwaitCategorizeButton,
    AwaitCategorizeClick,
    AwaitSubmenu,
    AwaitCategoryClick,
    Finished(Result<(), ClientError>),
}

/// Toggles the category `label` on the message `id`: bring up the context
/// menu, open the category submenu unless the category shows already, and
/// click the category.
pub struct LabelFlow {
    pub id: String,
    pub label: String,
    pub stage: LabelStage,
}

impl LabelFlow {
    /// The step pending in this state, or `None` once finished.
    pub open spec fn spec_pending(self) -> Option<PageAction> {
        match self.stage {
            LabelStage::Opening(s) => Some(open_action(s, self.id)),
            LabelStage::AwaitCategory => Some(
                PageAction::CheckCategoryVisible { label: self.label, delay_ms: 0 },
            ),
            LabelStage::AwaitCategorizeButton => Some(PageAction::CheckCategorizeButton),
            LabelStage::AwaitCategorizeClick => Some(PageAction::ClickCategorize),
            LabelStage::AwaitSubmenu => Some(
                PageAction::CheckCategoryVisible { label: self.label, delay_ms: SUBMENU_SETTLE_MS },
            ),
            LabelStage::AwaitCategoryClick => Some(PageAction::ClickCategory { label: self.label }),
            LabelStage::Finished(_) => None,
        }
    }

    /// This flow in stage `stage`.
    pub open spec fn with_stage(self, stage: LabelStage) -> LabelFlow {
        LabelFlow { id: self.id, label: self.label, stage }
    }

    /// The state an answer leads to. An answer that does not fit the pending
    /// step, or comes after the end, changes nothing.
    pub open spec fn spec_advance(self, e: PageEvent) -> LabelFlow {
        match self.stage {
            LabelStage::Opening(s) => match open_next(s, self.id, e) {
                Opening::Continue(t) => self.with_stage(LabelStage::Opening(t)),
                Opening::Opened => self.with_stage(LabelStage::AwaitCategory),
                Opening::Failed(err) => self.with_stage(LabelStage::Finished(Err(err))),
                Opening::Ignored => self,
            },
            LabelStage::AwaitCategory => match e {
                PageEvent::Answer(shown) => if shown {
                    self.with_stage(LabelStage::AwaitCategoryClick)
                } else {
                    self.with_stage(LabelStage::AwaitCategorizeButton)
                },
                _ => self,
            },
            LabelStage::AwaitCategorizeButton => match e {
                PageEvent::Answer(shown) => if shown {
                    self.with_stage(LabelStage::AwaitCategorizeClick)
                } else {
                    self.with_stage(LabelStage::Finished(Err(ClientError::CategorizeButtonMissing)))
                },
                _ => self,
            },
            LabelStage::AwaitCategorizeClick => match e {
                PageEvent::Answer(clicked) => if clicked {
                    self.with_stage(LabelStage::AwaitSubmenu)
                } else {
                    self.with_stage(LabelStage::Finished(Err(ClientError::CategorizeClickFailed)))
                },
                _ => self,
            },
            LabelStage::AwaitSubmenu => match e {
                PageEvent::Answer(shown) => if shown {
                    self.with_stage(LabelStage::AwaitCategoryClick)
                } else {
                    self.with_stage(LabelStage::Finished(Err(ClientError::SubmenuClosed)))
                },
                _ => self,
            },
            LabelStage::AwaitCategoryClick => match e {
                PageEvent::CategoryClicked(reply) => self.with_stage(
                    LabelStage::Finished(reply.spec_outcome(self.label)),
                ),
                _ => self,
            },
            LabelStage::Finished(_) => self,
        }
    }

    /// The flow before its first step.
    pub fn new(id: String, label: String) -> (r: LabelFlow)
        ensures
            r.id == id,
            r.label == label,
            r.stage == LabelStage::Opening(OpenStage::AwaitVisible),
    {
        LabelFlow { id, label, stage: LabelStage::Opening(OpenStage::AwaitVisible) }
    }

    /// The step pending in this state, or `None` once finished.
    pub fn pending(&self) -> (r: Option<PageAction>)
        ensures
            r == self.spec_pending(),
    {
        match &self.stage {
            LabelStage::Opening(s) => Some(open_pending(*s, &self.id)),
            LabelStage::AwaitCategory => Some(
                PageAction::CheckCategoryVisible { label: self.label.clone(), delay_ms: 0 },
            ),
            LabelStage::AwaitCategorizeButton => Some(PageAction::CheckCategorizeButton),
            LabelStage::AwaitCategorizeClick => Some(PageAction::ClickCategorize),
            LabelStage::AwaitSubmenu => Some(
                PageAction::CheckCategoryVisible {
                    label: self.label.clone(),
                    delay_ms: SUBMENU_SETTLE_MS,
                },
            ),
            LabelStage::AwaitCategoryClick => Some(
                PageAction::ClickCategory { label: self.label.clone() },
            ),
            LabelStage::Finished(_) => None,
        }
    }

    /// Takes the answer to the pending step.
    pub fn advance(self, e: PageEvent) -> (r: LabelFlow)
        ensures
            r == self.spec_advance(e),
    {
        let LabelFlow { id, label, stage } = self;
        let next = match stage {
            LabelStage::Opening(s) => match open_step(s, &id, e) {
                Opening::Continue(t) => LabelStage::Opening(t),
                Opening::Opened => LabelStage::AwaitCategory,
                Opening::Failed(err) => LabelStage::Finished(Err(err)),
                Opening::Ignored => LabelStage::Opening(s),
            },
            LabelStage::AwaitCategory => match e {
                PageEvent::Answer(shown) => if shown {
                    LabelStage::AwaitCategoryClick
                } else {
                    LabelStage::AwaitCategorizeButton
                },
                _ => LabelStage::AwaitCategory,
            },
            LabelStage::AwaitCategorizeButton => match e {
                PageEvent::Answer(shown) => if shown {
                    LabelStage::AwaitCategorizeClick
                } else {
                    LabelStage::Finished(Err(ClientError::CategorizeButtonMissing))
                },
                _ => LabelStage::AwaitCategorizeButton,
            },
            LabelStage::AwaitCategorizeClick => match e {
                PageEvent::Answer(clicked) => if clicked {
                    LabelStage::AwaitSubmenu
                } else {
                    LabelStage::Finished(Err(ClientError::CategorizeClickFailed))
                },
                _ => LabelStage::AwaitCategorizeClick,
            },
            LabelStage::AwaitSubmenu => match e {
                PageEvent::Answer(shown) => if shown {
                    LabelStage::AwaitCategoryClick
                } else {
                    LabelStage::Finished(Err(ClientError::SubmenuClosed))
                },
                _ => LabelStage::AwaitSubmenu,
            },
            LabelStage::AwaitCategoryClick => match e {
                PageEvent::CategoryClicked(reply) => LabelStage::Finished(
                    reply.outcome(label.clone()),
                ),
                _ => LabelStage::AwaitCategoryClick,
            },
            LabelStage::Finished(res) => LabelStage::Finished(res),
        };
        LabelFlow { id, label, stage: next }
    }

    /// The result once finished, or `None` while a step is pending.
    pub fn into_result(self) -> (r: Option<Result<(), ClientError>>)
        ensures
            match self.stage {
                LabelStage::Finished(res) => r == Some(res),
                _ => r is None,
            },
    {
        match self.stage {
            LabelStage::Finished(res) => Some(res),
            _ => None,
        }
    }
}

/// Where the reading of the category list stands.
pub enum ListingStage {
    AwaitInbox,
    AwaitFirstMessage,
    Opening(OpenStage),
    AwaitCategorizeClick,
    AwaitManage,
    AwaitMenuItems,
    AwaitDialog,
    AwaitDialogClosed(Vec<String>),
    AwaitSubmenu,
    AwaitDismiss(Vec<String>),
    Finished(Result<Vec<String>, ClientError>),
}

/// Reads the categories the mailbox knows: open the context menu on the
/// first message of the inbox, open "Categorize", then "Manage categories",
/// and read the dialog; where the dialog lists none, read the submenu.
pub struct CategoryListing {
    /// The message whose context menu is used, once found.
    pub target: String,
    pub stage: ListingStage,
}

impl CategoryListing {
    /// The step pending in this state, or `None` once finished.
    pub open spec fn spec_pending(self) -> Option<PageAction> {
        match self.stage {
            ListingStage::AwaitInbox => Some(PageAction::NavigateToInbox),
            ListingStage::AwaitFirstMessage => Some(PageAction::FindFirstMessage),
            ListingStage::Opening(s) => Some(open_action(s, self.target)),
            ListingStage::AwaitCategorizeClick => Some(PageAction::ClickCategorize),
            ListingStage::AwaitManage => Some(
                PageAction::ClickManageCategories { delay_ms: SUBMENU_SETTLE_MS },
            ),
            ListingStage::AwaitMenuItems => Some(PageAction::ListMenuItems),
            ListingStage::AwaitDialog => Some(
                PageAction::ReadDialogCategories { delay_ms: DIALOG_SETTLE_MS },
            ),
            ListingStage::AwaitDialogClosed(_) => Some(PageAction::CloseDialog),
            ListingStage::AwaitSubmenu => Some(
                PageAction::ReadSubmenuCategories { delay_ms: CLOSE_SETTLE_MS },
            ),
            ListingStage::AwaitDismiss(_) => Some(PageAction::DismissMenu),
            ListingStage::Finished(_) => None,
        }
    }

    /// This listing in stage `stage`.
    pub open spec fn with_stage(self, stage: ListingStage) -> CategoryListing {
        CategoryListing { target: self.target, stage }
    }

    /// The state an answer leads to. An answer that does not fit the pending
    /// step, or comes after the end, changes nothing.
    pub open spec fn spec_advance(self, e: PageEvent) -> CategoryListing {
        match self.stage {
            ListingStage::AwaitInbox => match e {
                PageEvent::Performed => self.with_stage(ListingStage::AwaitFirstMessage),
                _ => self,
            },
            ListingStage::AwaitFirstMessage => match e {
                PageEvent::FoundMessage(found) => match found {
                    Some(id) => CategoryListing {
                        target: id,
                        stage: ListingStage::Opening(OpenStage::AwaitVisible),
                    },
                    None => self.with_stage(ListingStage::Finished(Err(ClientError::NoMessages))),
                },
                _ => self,
            },
            ListingStage::Opening(s) => match open_next(s, self.target, e) {
                Opening::Continue(t) => self.with_stage(ListingStage::Opening(t)),
                Opening::Opened => self.with_stage(ListingStage::AwaitCategorizeClick),
                Opening::Failed(err) => self.with_stage(ListingStage::Finished(Err(err))),
                Opening::Ignored => self,
            },
            ListingStage::AwaitCategorizeClick => match e {
                PageEvent::Answer(clicked) => if clicked {
                    self.with_stage(ListingStage::AwaitManage)
                } else {
                    self.with_stage(ListingStage::Finished(Err(ClientError::CategorizeClickFailed)))
                },
                _ => self,
            },
            ListingStage::AwaitManage => match e {
                PageEvent::Answer(clicked) => if clicked {
                    self.with_stage(ListingStage::AwaitDialog)
                } else {
                    self.with_stage(ListingStage::AwaitMenuItems)
                },
                _ => self,
            },
            ListingStage::AwaitMenuItems => match e {
                PageEvent::Items(items) => self.with_stage(
                    ListingStage::Finished(Err(ClientError::ManageCategoriesMissing { items })),
                ),
                _ => self,
            },
            ListingStage::AwaitDialog => match e {
                PageEvent::Items(found) => self.with_stage(ListingStage::AwaitDialogClosed(found)),
                _ => self,
            },
            ListingStage::AwaitDialogClosed(found) => match e {
                PageEvent::Performed => if found@.len() == 0 {
                    self.with_stage(ListingStage::AwaitSubmenu)
                } else {
                    self.with_stage(ListingStage::Finished(Ok(found)))
                },
                _ => self,
            },
            ListingStage::AwaitSubmenu => match e {
                PageEvent::Items(found) => self.with_stage(ListingStage::AwaitDismiss(found)),
                _ => self,
            },
            ListingStage::AwaitDismiss(found) => match e {
                PageEvent::Performed => self.with_stage(ListingStage::Finished(Ok(found))),
                _ => self,
            },
            ListingStage::Finished(_) => self,
        }
    }

    /// The listing before its first step.
    pub fn new() -> (r: CategoryListing)
        ensures
            r.target@.len() == 0,
            r.stage == ListingStage::AwaitInbox,
    {
        CategoryListing { target: String::new(), stage: ListingStage::AwaitInbox }
    }

    /// The step pending in this state, or `None` once finished.
    pub fn pending(&self) -> (r: Option<PageAction>)
        ensures
            r == self.spec_pending(),
    {
        match &self.stage {
            ListingStage::AwaitInbox => Some(PageAction::NavigateToInbox),
            ListingStage::AwaitFirstMessage => Some(PageAction::FindFirstMessage),
            ListingStage::Opening(s) => Some(open_pending(*s, &self.target)),
            ListingStage::AwaitCategorizeClick => Some(PageAction::ClickCategorize),
            ListingStage::AwaitManage => Some(
                PageAction::ClickManageCategories { delay_ms: SUBMENU_SETTLE_MS },
            ),
            ListingStage::AwaitMenuItems => Some(PageAction::ListMenuItems),
            ListingStage::AwaitDialog => Some(
                PageAction::ReadDialogCategories { delay_ms: DIALOG_SETTLE_MS },
            ),
            ListingStage::AwaitDialogClosed(_) => Some(PageAction::CloseDialog),
            ListingStage::AwaitSubmenu => Some(
                PageAction::ReadSubmenuCategories { delay_ms: CLOSE_SETTLE_MS },
            ),
            ListingStage::AwaitDismiss(_) => Some(PageAction::DismissMenu),
            ListingStage::Finished(_) => None,
        }
    }

    /// Takes the answer to the pending step.
    pub fn advance(self, e: PageEvent) -> (r: CategoryListing)
        ensures
            r == self.spec_advance(e),
    {
        let CategoryListing { target, stage } = self;
        match stage {
            ListingStage::AwaitInbox => match e {
                PageEvent::Performed => CategoryListing {
                    target,
                    stage: ListingStage::AwaitFirstMessage,
                },
                _ => CategoryListing { target, stage: ListingStage::AwaitInbox },
            },
            ListingStage::AwaitFirstMessage => match e {
                PageEvent::FoundMessage(found) => match found {
                    Some(id) => CategoryListing {
                        target: id,
                        stage: ListingStage::Opening(OpenStage::AwaitVisible),
                    },
                    None => CategoryListing {
                        target,
                        stage: ListingStage::Finished(Err(ClientError::NoMessages)),
                    },
                },
                _ => CategoryListing { target, stage: ListingStage::AwaitFirstMessage },
            },
            ListingStage::Opening(s) => {
                let next = match open_step(s, &target, e) {
                    Opening::Continue(t) => ListingStage::Opening(t),
                    Opening::Opened => ListingStage::AwaitCategorizeClick,
                    Opening::Failed(err) => ListingStage::Finished(Err(err)),
                    Opening::Ignored => ListingStage::Opening(s),
                };
                CategoryListing { target, stage: next }
            },
            ListingStage::AwaitCategorizeClick => {
                let next = match e {
                    PageEvent::Answer(clicked) => if clicked {
                        ListingStage::AwaitManage
                    } else {
                        ListingStage::Finished(Err(ClientError::CategorizeClickFailed))
                    },
                    _ => ListingStage::AwaitCategorizeClick,
                };
                CategoryListing { target, stage: next }
            },
            ListingStage::AwaitManage => {
                let next = match e {
                    PageEvent::Answer(clicked) => if clicked {
                        ListingStage::AwaitDialog
                    } else {
                        ListingStage::AwaitMenuItems
                    },
                    _ => ListingStage::AwaitManage,
                };
                CategoryListing { target, stage: next }
            },
            ListingStage::AwaitMenuItems => {
                let next = match e {
                    PageEvent::Items(items) => ListingStage::Finished(
                        Err(ClientError::ManageCategoriesMissing { items }),
                    ),
                    _ => ListingStage::AwaitMenuItems,
                };
                CategoryListing { target, stage: next }
            },
            ListingStage::AwaitDialog => {
                let next = match e {
                    PageEvent::Items(found) => ListingStage::AwaitDialogClosed(found),
                    _ => ListingStage::AwaitDialog,
                };
                CategoryListing { target, stage: next }
            },
            ListingStage::AwaitDialogClosed(found) => {
                let next = match e {
                    PageEvent::Performed => if found.len() == 0 {
                        ListingStage::AwaitSubmenu
                    } else {
                        ListingStage::Finished(Ok(found))
                    },
                    _ => ListingStage::AwaitDialogClosed(found),
                };
                CategoryListing { target, stage: next }
            },
            ListingStage::AwaitSubmenu => {
                let next = match e {
                    PageEvent::Items(found) => ListingStage::AwaitDismiss(found),
                    _ => ListingStage::AwaitSubmenu,
                };
                CategoryListing { target, stage: next }
            },
            ListingStage::AwaitDismiss(found) => {
                let next = match e {
                    PageEvent::Performed => ListingStage::Finished(Ok(found)),
                    _ => ListingStage::AwaitDismiss(found),
                };
                CategoryListing { target, stage: next }
            },
            ListingStage::Finished(res) => CategoryListing {
                target,
                stage: ListingStage::Finished(res),
            },
        }
    }

    /// The categories or the error once finished, or `None` while a step is
    /// pending.
    pub fn into_result(self) -> (r: Option<Result<Vec<String>, ClientError>>)
        ensures
            match self.stage {
                ListingStage::Finished(res) => r == Some(res),
                _ => r is None,
            },
    {
        match self.stage {
            ListingStage::Finished(res) => Some(res),
            _ => None,
        }
    }
}

/// How many answers opening the context menu still needs at most.
pub open spec fn open_steps(stage: OpenStage) -> nat {
    match stage {
        OpenStage::AwaitVisible => 5,
        OpenStage::AwaitMenu => 4,
        OpenStage::AwaitPosition => 3,
        OpenStage::AwaitRightClick => 2,
        OpenStage::AwaitReopened => 1,
    }
}

impl LabelFlow {
    /// How many answers are still to come at most.
    pub open spec fn steps_left(self) -> nat {
        match self.stage {
            LabelStage::Opening(s) => 5 + open_steps(s),
            LabelStage::AwaitCategory => 5,
            LabelStage::AwaitCategorizeButton => 4,
            LabelStage::AwaitCategorizeClick => 3,
            LabelStage::AwaitSubmenu => 2,
            LabelStage::AwaitCategoryClick => 1,
            LabelStage::Finished(_) => 0,
        }
    }
}

impl CategoryListing {
    /// How many answers are still to come at most.
    pub open spec fn steps_left(self) -> nat {
        match self.stage {
            ListingStage::AwaitInbox => 13,
            ListingStage::AwaitFirstMessage => 12,
            ListingStage::Opening(s) => 6 + open_steps(s),
            ListingStage::AwaitCategorizeClick => 6,
            ListingStage::AwaitManage => 5,
            ListingStage::AwaitDialog => 4,
            ListingStage::AwaitDialogClosed(_) => 3,
            ListingStage::AwaitSubmenu => 2,
            ListingStage::AwaitMenuItems => 1,
            ListingStage::AwaitDismiss(_) => 1,
            ListingStage::Finished(_) => 0,
        }
    }
}

/// An answer leaves a toggle as it is or brings it closer to its end.
pub open spec fn label_moves_on(before: LabelFlow, after: LabelFlow) -> bool {
    after == before || after.steps_left() < before.steps_left()
}

/// An answer leaves a listing as it is or brings it closer to its end.
pub open spec fn listing_moves_on(before: CategoryListing, after: CategoryListing) -> bool {
    after == before || after.steps_left() < before.steps_left()
}

/// The menu sequences end: an answer either does not fit the pending step
/// and changes nothing, or brings the sequence closer to its end; no more
/// than ten answers finish a toggle, and thirteen a listing.
pub proof fn menu_flows_end(label: LabelFlow, listing: CategoryListing, e: PageEvent)
    ensures
        label.steps_left() <= 10,
        label_moves_on(label, label.spec_advance(e)),
        (label.spec_advance(e).stage is Finished) == (label.spec_advance(e).steps_left() == 0),
        listing.steps_left() <= 13,
        listing_moves_on(listing, listing.spec_advance(e)),
        (listing.spec_advance(e).stage is Finished) == (listing.spec_advance(e).steps_left() == 0),
{
}

/// The answers that find the message shown, its menu open and the category
/// in it.
pub open spec fn short_path(flow: LabelFlow, reply: ClickCategoryResult) -> LabelFlow {
    flow.spec_advance(PageEvent::Answer(true)).spec_advance(PageEvent::Answer(true)).spec_advance(
        PageEvent::Answer(true),
    ).spec_advance(PageEvent::CategoryClicked(reply))
}

/// Where the message shows, its menu is open and the category shows in it,
/// toggling takes four answers and ends as the category click reports.
pub proof fn label_short_path(flow: LabelFlow, reply: ClickCategoryResult)
    requires
        flow.stage == LabelStage::Opening(OpenStage::AwaitVisible),
    ensures
        short_path(flow, reply).stage == LabelStage::Finished(reply.spec_outcome(flow.label)),
{
}

/// Toggling a category ends well only on a click of the category whose
/// reply reports success.
pub proof fn label_success_needs_click(flow: LabelFlow, e: PageEvent)
    requires
        !(flow.stage is Finished),
        flow.spec_advance(e).stage == LabelStage::Finished(Ok(())),
    ensures
        flow.stage == LabelStage::AwaitCategoryClick,
        (e matches PageEvent::CategoryClicked(reply) && reply.status@ == "success"@),
{
}

/// A finished flow has no step pending and stays as it is, whatever comes.
pub proof fn finished_flows_stay(label: LabelFlow, listing: CategoryListing, e: PageEvent)
    ensures
        (label.stage is Finished) == (label.spec_pending() is None),
        (label.stage is Finished) ==> label.spec_advance(e) == label,
        (listing.stage is Finished) == (listing.spec_pending() is None),
        (listing.stage is Finished) ==> listing.spec_advance(e) == listing,
{
}

/// The category listing ends with categories only after reading them from
/// the dialog, or from the submenu when the dialog listed none.
pub proof fn listing_success_reads_categories(flow: CategoryListing, e: PageEvent, found: Vec<String>)
    requires
        !(flow.stage is Finished),
        flow.spec_advance(e).stage == ListingStage::Finished(Ok(found)),
    ensures
        flow.stage == ListingStage::AwaitDialogClosed(found) && found@.len() > 0
            || flow.stage == ListingStage::AwaitDismiss(found),
        e == PageEvent::Performed,
{
}

} // verus!
