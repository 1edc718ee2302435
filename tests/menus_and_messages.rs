use outlook_web::error::{ClientError, MenuCommand};
use outlook_web::flow::{CategoryListing, LabelFlow, PageAction, PageEvent};
use outlook_web::menu::{command_outcome, menu_item_needle, string_list_from_json, ClickCategoryResult};
use outlook_web::message::{join, take_messages, unknown_labels, Client, Message};

fn message(id: &str, labels: &[&str]) -> Message {
    Message {
        id: id.to_string(),
        subject: None,
        from: None,
        body: None,
        preview: None,
        labels: labels.iter().map(|l| l.to_string()).collect(),
        is_unread: false,
    }
}

fn reply(status: &str, categories: &[&str]) -> ClickCategoryResult {
    ClickCategoryResult {
        status: status.to_string(),
        categories: categories.iter().map(|c| c.to_string()).collect(),
    }
}

#[test]
fn client_keeps_its_port() {
    assert_eq!(Client::new(9555).port(), 9555);
}

#[test]
fn string_lists_from_json() {
    assert_eq!(string_list_from_json("[\"Red\",\"Blue category\"]"), vec!["Red", "Blue category"]);
    assert_eq!(string_list_from_json("[]"), Vec::<String>::new());
    assert_eq!(string_list_from_json(""), Vec::<String>::new());
    assert_eq!(string_list_from_json("{\"a\":1}"), Vec::<String>::new());
}

#[test]
fn menu_needle_is_lower_case() {
    assert_eq!(menu_item_needle("Mark as Read"), "mark as read");
    assert_eq!(menu_item_needle("ÉTÉ"), "été");
}

#[test]
fn click_reply_falls_back_to_raw_text() {
    let r = ClickCategoryResult::from_reply(None, "oops".to_string());
    assert_eq!(r.status, "oops");
    assert!(r.categories.is_empty());
    let r = ClickCategoryResult::from_reply(Some(reply("", &["Red"])), "{\"categories\":[\"Red\"]}".to_string());
    assert_eq!(r.status, "{\"categories\":[\"Red\"]}");
    assert_eq!(r.categories, vec!["Red"]);
    let r = ClickCategoryResult::from_reply(Some(reply("success", &[])), "raw".to_string());
    assert_eq!(r.status, "success");
}

#[test]
fn click_reply_outcomes() {
    assert!(reply("success", &[]).outcome("Red".to_string()).is_ok());
    match reply("category_not_found", &["Blue category"]).outcome("Red".to_string()) {
        Err(ClientError::CategoryNotFound { label, available }) => {
            assert_eq!(label, "Red");
            assert_eq!(available, vec!["Blue category"]);
        }
        other => panic!("unexpected {:?}", other),
    }
    match reply("weird", &[]).outcome("Red".to_string()) {
        Err(ClientError::LabelFailed { status }) => assert_eq!(status, "weird"),
        other => panic!("unexpected {:?}", other),
    }
}

#[test]
fn command_statuses() {
    assert!(command_outcome(MenuCommand::MarkSpam, "m1", "success").is_ok());
    match command_outcome(MenuCommand::MarkRead, "m1", "not_found") {
        Err(ClientError::MessageNotFound { id }) => assert_eq!(id, "m1"),
        other => panic!("unexpected {:?}", other),
    }
    match command_outcome(MenuCommand::MoveToInbox, "m2", "not_found") {
        Err(ClientError::NotInJunk { id }) => assert_eq!(id, "m2"),
        other => panic!("unexpected {:?}", other),
    }
    assert!(matches!(
        command_outcome(MenuCommand::ClearLabels, "m1", "clear_not_found"),
        Err(ClientError::ClearOptionMissing)
    ));
    match command_outcome(MenuCommand::MarkUnread, "m1", "clear_not_found") {
        Err(ClientError::CommandFailed { command, status }) => {
            assert_eq!(command, MenuCommand::MarkUnread);
            assert_eq!(status, "clear_not_found");
        }
        other => panic!("unexpected {:?}", other),
    }
    match command_outcome(MenuCommand::MarkSpam, "m1", "menu_not_found") {
        Err(ClientError::CommandFailed { command, status }) => {
            assert_eq!(command, MenuCommand::MarkSpam);
            assert_eq!(status, "menu_not_found");
        }
        other => panic!("unexpected {:?}", other),
    }
}

#[test]
fn label_flow_with_menu_closed_and_submenu_hidden() {
    let mut f = LabelFlow::new("m1".to_string(), "Red".to_string());
    assert!(matches!(f.pending(), Some(PageAction::WaitForMessage { ref id }) if id == "m1"));
    f = f.advance(PageEvent::Answer(true));
    assert!(matches!(f.pending(), Some(PageAction::CheckContextMenu { delay_ms: 0 })));
    f = f.advance(PageEvent::Answer(false));
    assert!(matches!(f.pending(), Some(PageAction::LocateMessage { ref id }) if id == "m1"));
    f = f.advance(PageEvent::Answer(true));
    assert!(matches!(f.pending(), Some(PageAction::RightClickMessage)));
    f = f.advance(PageEvent::Performed);
    assert!(matches!(f.pending(), Some(PageAction::CheckContextMenu { delay_ms: 1000 })));
    f = f.advance(PageEvent::Answer(true));
    assert!(matches!(f.pending(), Some(PageAction::CheckCategoryVisible { ref label, delay_ms: 0 }) if label == "Red"));
    f = f.advance(PageEvent::Answer(false));
    assert!(matches!(f.pending(), Some(PageAction::CheckCategorizeButton)));
    f = f.advance(PageEvent::Answer(true));
    assert!(matches!(f.pending(), Some(PageAction::ClickCategorize)));
    f = f.advance(PageEvent::Answer(true));
    assert!(matches!(f.pending(), Some(PageAction::CheckCategoryVisible { delay_ms: 800, .. })));
    f = f.advance(PageEvent::Answer(true));
    assert!(matches!(f.pending(), Some(PageAction::ClickCategory { ref label }) if label == "Red"));
    f = f.advance(PageEvent::CategoryClicked(reply("success", &[])));
    assert!(f.pending().is_none());
    assert!(matches!(f.into_result(), Some(Ok(()))));
}

#[test]
fn label_flow_short_path_and_errors() {
    let f = LabelFlow::new("m1".to_string(), "Red".to_string())
        .advance(PageEvent::Answer(true))
        .advance(PageEvent::Answer(true))
        .advance(PageEvent::Answer(true));
    assert!(matches!(f.pending(), Some(PageAction::ClickCategory { .. })));

    let f = LabelFlow::new("m9".to_string(), "Red".to_string()).advance(PageEvent::Answer(false));
    match f.into_result() {
        Some(Err(ClientError::MessageNotVisible { id })) => assert_eq!(id, "m9"),
        other => panic!("unexpected {:?}", other),
    }

    let f = LabelFlow::new("m1".to_string(), "Red".to_string())
        .advance(PageEvent::Answer(true))
        .advance(PageEvent::Answer(false))
        .advance(PageEvent::Answer(true))
        .advance(PageEvent::Performed)
        .advance(PageEvent::Answer(false));
    assert!(matches!(f.into_result(), Some(Err(ClientError::ContextMenuClosed))));

    let f = LabelFlow::new("m1".to_string(), "Red".to_string())
        .advance(PageEvent::Answer(true))
        .advance(PageEvent::Answer(true))
        .advance(PageEvent::Answer(false))
        .advance(PageEvent::Answer(false));
    assert!(matches!(f.into_result(), Some(Err(ClientError::CategorizeButtonMissing))));
}

#[test]
fn label_flow_ignores_unfitting_answers() {
    let f = LabelFlow::new("m1".to_string(), "Red".to_string())
        .advance(PageEvent::Performed)
        .advance(PageEvent::Items(vec![]));
    assert!(matches!(f.pending(), Some(PageAction::WaitForMessage { .. })));
}

#[test]
fn listing_reads_dialog() {
    let mut f = CategoryListing::new();
    assert!(matches!(f.pending(), Some(PageAction::NavigateToInbox)));
    f = f.advance(PageEvent::Performed);
    assert!(matches!(f.pending(), Some(PageAction::FindFirstMessage)));
    f = f.advance(PageEvent::FoundMessage(Some("m7".to_string())));
    assert!(matches!(f.pending(), Some(PageAction::WaitForMessage { ref id }) if id == "m7"));
    f = f.advance(PageEvent::Answer(true)).advance(PageEvent::Answer(true));
    assert!(matches!(f.pending(), Some(PageAction::ClickCategorize)));
    f = f.advance(PageEvent::Answer(true));
    assert!(matches!(f.pending(), Some(PageAction::ClickManageCategories { delay_ms: 800 })));
    f = f.advance(PageEvent::Answer(true));
    assert!(matches!(f.pending(), Some(PageAction::ReadDialogCategories { delay_ms: 1000 })));
    f = f.advance(PageEvent::Items(vec!["Red".to_string(), "Travel".to_string()]));
    assert!(matches!(f.pending(), Some(PageAction::CloseDialog)));
    f = f.advance(PageEvent::Performed);
    match f.into_result() {
        Some(Ok(found)) => assert_eq!(found, vec!["Red", "Travel"]),
        other => panic!("unexpected {:?}", other),
    }
}

#[test]
fn listing_falls_back_to_submenu() {
    let mut f = CategoryListing::new()
        .advance(PageEvent::Performed)
        .advance(PageEvent::FoundMessage(Some("m7".to_string())))
        .advance(PageEvent::Answer(true))
        .advance(PageEvent::Answer(true))
        .advance(PageEvent::Answer(true))
        .advance(PageEvent::Answer(true))
        .advance(PageEvent::Items(vec![]))
        .advance(PageEvent::Performed);
    assert!(matches!(f.pending(), Some(PageAction::ReadSubmenuCategories { delay_ms: 300 })));
    f = f.advance(PageEvent::Items(vec!["Blue".to_string()]));
    assert!(matches!(f.pending(), Some(PageAction::DismissMenu)));
    f = f.advance(PageEvent::Performed);
    match f.into_result() {
        Some(Ok(found)) => assert_eq!(found, vec!["Blue"]),
        other => panic!("unexpected {:?}", other),
    }
}

#[test]
fn listing_errors() {
    let f = CategoryListing::new().advance(PageEvent::Performed).advance(PageEvent::FoundMessage(None));
    assert!(matches!(f.into_result(), Some(Err(ClientError::NoMessages))));
    let f = CategoryListing::new()
        .advance(PageEvent::Performed)
        .advance(PageEvent::FoundMessage(Some("m7".to_string())))
        .advance(PageEvent::Answer(true))
        .advance(PageEvent::Answer(true))
        .advance(PageEvent::Answer(true))
        .advance(PageEvent::Answer(false));
    assert!(matches!(f.pending(), Some(PageAction::ListMenuItems)));
    match f.advance(PageEvent::Items(vec!["Red".to_string()])).into_result() {
        Some(Err(ClientError::ManageCategoriesMissing { items })) => assert_eq!(items, vec!["Red"]),
        other => panic!("unexpected {:?}", other),
    }
}

#[test]
fn messages_are_truncated() {
    let all = vec![message("a", &[]), message("b", &[]), message("c", &[])];
    let two = take_messages(all.clone(), 2);
    assert_eq!(two.len(), 2);
    assert_eq!(two[1].id, "b");
    assert_eq!(take_messages(all.clone(), 10).len(), 3);
    assert_eq!(take_messages(all, 0).len(), 0);
}

#[test]
fn joined_labels() {
    assert_eq!(join(&vec![], ", "), "");
    assert_eq!(join(&vec!["a".to_string()], ", "), "a");
    assert_eq!(join(&vec!["a".to_string(), "b".to_string(), "c".to_string()], ", "), "a, b, c");
}

#[test]
fn message_lines() {
    let mut m = message("m1", &["Red", "Travel"]);
    m.is_unread = true;
    m.subject = Some("Hello".to_string());
    assert_eq!(m.summary_line(), "*m1 | Unknown | Hello [Red, Travel]");
    assert_eq!(m.spam_line(), "m1 | Unknown | Hello");
    let plain = message("m2", &[]);
    assert_eq!(plain.summary_line(), " m2 | Unknown | (no subject)");
    assert_eq!(plain.detail_lines(), vec!["From: Unknown", "Subject: (no subject)", "---", ""]);
    m.from = Some("Ann".to_string());
    m.body = Some("Body text".to_string());
    assert_eq!(
        m.detail_lines(),
        vec!["From: Ann", "Subject: Hello", "Labels: Red, Travel", "---", "Body text"]
    );
}

#[test]
fn unknown_labels_ignore_case_and_repeat() {
    let known = vec!["Red category".to_string(), "Travel".to_string()];
    let messages = vec![
        message("a", &["red CATEGORY", "Receipts"]),
        message("b", &["Receipts", "TRAVEL", "Family"]),
        message("c", &[]),
    ];
    assert_eq!(unknown_labels(&known, &messages), vec!["Receipts", "Family"]);
    assert!(unknown_labels(&known, &vec![]).is_empty());
    assert_eq!(unknown_labels(&vec![], &vec![message("d", &["X", "x"])]), vec!["X", "x"]);
}
