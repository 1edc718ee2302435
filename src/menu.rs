use vstd::prelude::*;

use crate::error::{ClientError, MenuCommand};
use crate::text::{lower_of, lowercase, same_text};

verus! {

broadcast use vstd::string::group_string_axioms;

/// What reading a JSON array of strings yields: the strings, or nothing when
/// the text is not such an array.
pub uninterp spec fn json_string_list(json: Seq<char>) -> Option<Seq<Seq<char>>>;

/// Relies on `serde_json::from_str::<Vec<String>>`: the text read as a JSON
/// array of strings, or `None` where it is not one.
#[verifier::external_body]
fn parse_string_list(json: &str) -> (r: Option<Vec<String>>)
    ensures
        match r {
            Some(v) => json_string_list(json@) == Some(v.deep_view()),
            None => json_string_list(json@) is None,
        },
{
    serde_json::from_str::<Vec<String>>(json).ok()
}

/// The strings a JSON array holds, or none where the text is not such an array.
pub open spec fn string_list_or_empty(json: Seq<char>) -> Seq<Seq<char>> {
    match json_string_list(json) {
        Some(v) => v,
        None => Seq::empty(),
    }
}

/// Reads the JSON array of strings that a page script hands back; text that
/// is not one reads as an empty list.
pub fn string_list_from_json(json: &str) -> (r: Vec<String>)
    ensures
        r.deep_view() == string_list_or_empty(json@),
{
    match parse_string_list(json) {
        Some(v) => v,
        None => {
            let v: Vec<String> = Vec::new();
            assert(v.deep_view() =~= Seq::<Seq<char>>::empty());
            v
        },
    }
}

/// The text a menu entry is searched for by: the wanted text in lower case,
/// as the entries' own text is lowered before the search.
pub fn menu_item_needle(text: &str) -> (r: String)
    ensures
        r@ == lower_of(text@),
{
    lowercase(text)
}

/// The reply of the script that clicks a category in the submenu.
#[derive(Debug)]
pub struct ClickCategoryResult {
    pub status: String,
    pub categories: Vec<String>,
}

impl Default for ClickCategoryResult {
    /// A reply with no status and no categories.
    fn default() -> (r: ClickCategoryResult)
        ensures
            r.status@.len() == 0,
            r.categories@.len() == 0,
    {
        ClickCategoryResult { status: String::new(), categories: Vec::new() }
    }
}

impl ClickCategoryResult {
    /// Builds the reply from what could be decoded of the script's text
    /// (`parsed`) and the text itself (`raw`): where no status could be read,
    /// the raw text stands as the status.
    pub fn from_reply(parsed: Option<ClickCategoryResult>, raw: String) -> (r: ClickCategoryResult)
        ensures
            match parsed {
                Some(p) => {
                    &&& r.categories == p.categories
                    &&& r.status@ == if p.status@.len() == 0 { raw@ } else { p.status@ }
                },
                None => r.status@ == raw@ && r.categories@.len() == 0,
            },
    {
        match parsed {
            Some(p) => {
                if p.status.as_str().is_empty() {
                    ClickCategoryResult { status: raw, categories: p.categories }
                } else {
                    p
                }
            },
            None => ClickCategoryResult { status: raw, categories: Vec::new() },
        }
    }

    /// What clicking the category `label` came to.
    pub open spec fn spec_outcome(self, label: String) -> Result<(), ClientError> {
        if self.status@ == "success"@ {
            Ok(())
        } else if self.status@ == "category_not_found"@ {
            Err(ClientError::CategoryNotFound { label, available: self.categories })
        } else {
            Err(ClientError::LabelFailed { status: self.status })
        }
    }

    /// What clicking the category `label` came to: success, a category of
    /// that name missing (with the categories seen), or another status.
    pub fn outcome(self, label: String) -> (r: Result<(), ClientError>)
        ensures
            r == self.spec_outcome(label),
    {
        if same_text(self.status.as_str(), "success") {
            Ok(())
        } else if same_text(self.status.as_str(), "category_not_found") {
            Err(ClientError::CategoryNotFound { label, available: self.categories })
        } else {
            Err(ClientError::LabelFailed { status: self.status })
        }
    }
}

/// What a menu command's status word comes to, for the message `id`.
pub fn command_outcome(command: MenuCommand, id: &str, status: &str) -> (r: Result<(), ClientError>)
    ensures
        status@ == "success"@ ==> r is Ok,
        status@ == "not_found"@ && command != MenuCommand::MoveToInbox ==> (r matches Err(
            ClientError::MessageNotFound { id: i },
        ) && i@ == id@),
        status@ == "not_found"@ && command == MenuCommand::MoveToInbox ==> (r matches Err(
            ClientError::NotInJunk { id: i },
        ) && i@ == id@),
        status@ == "clear_not_found"@ && command == MenuCommand::ClearLabels ==> r matches Err(
            ClientError::ClearOptionMissing,
        ),
        status@ != "success"@ && status@ != "not_found"@ && !(status@ == "clear_not_found"@
            && command == MenuCommand::ClearLabels) ==> (r matches Err(
            ClientError::CommandFailed { command: c, status: s },
        ) && c == command && s@ == status@),
{
    proof {
        reveal_strlit("success");
        reveal_strlit("not_found");
        reveal_strlit("clear_not_found");
        assert("success"@.len() != "not_found"@.len());
        assert("success"@.len() != "clear_not_found"@.len());
        assert("not_found"@.len() != "clear_not_found"@.len());
    }
    if same_text(status, "success") {
        Ok(())
    } else if same_text(status, "not_found") {
        match command {
            MenuCommand::MoveToInbox => Err(ClientError::NotInJunk { id: id.to_owned() }),
            _ => Err(ClientError::MessageNotFound { id: id.to_owned() }),
        }
    } else if same_text(status, "clear_not_found") && command == MenuCommand::ClearLabels {
        Err(ClientError::ClearOptionMissing)
    } else {
        Err(ClientError::CommandFailed { command, status: status.to_owned() })
    }
}

} // verus!
