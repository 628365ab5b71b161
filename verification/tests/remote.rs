use std::collections::HashMap;

use app_iced::bridge::{Request, UiMessage};
use app_iced::remote::{call_done, call_failed, plan_request, upload_progress, RemoteCall, RemotePlan};

fn known() -> HashMap<i64, String> {
    let mut k = HashMap::new();
    k.insert(1, "Camille".to_string());
    k.insert(2, "Rust Group".to_string());
    k
}

fn error_of(p: &RemotePlan) -> &str {
    match p {
        RemotePlan::Reply(UiMessage::Error(e)) => e.as_str(),
        other => panic!("not an error: {other:?}"),
    }
}

#[test]
fn requests_on_unknown_chats_are_refused_or_dropped() {
    let k = known();
    assert_eq!(error_of(&plan_request(Request::OpenChat { id: 9 }, &k)), "Unknown chat");
    assert_eq!(error_of(&plan_request(Request::SendMessage { id: 9, text: "x".into(), reply_to: None }, &k)), "Unknown chat");
    assert_eq!(error_of(&plan_request(Request::ForwardMessage { from_chat: 1, msg_id: 3, to_chat: 9 }, &k)), "Unknown chat");
    assert_eq!(error_of(&plan_request(Request::LeaveChat { id: 9 }, &k)), "Could not remove the chat: unknown chat");
    assert!(matches!(plan_request(Request::MarkRead { id: 9 }, &k), RemotePlan::Nothing));
    assert!(matches!(plan_request(Request::Typing { id: 9, typing: true }, &k), RemotePlan::Nothing));
    assert!(matches!(plan_request(Request::LoginPhone { phone: "+1".into() }, &k), RemotePlan::Nothing));
}

#[test]
fn known_chats_get_their_operation() {
    let k = known();
    match plan_request(Request::OpenChat { id: 2 }, &k) {
        RemotePlan::Call(c) => assert_eq!(c, RemoteCall::LoadHistory { id: 2, title: "Rust Group".into() }),
        other => panic!("unexpected {other:?}"),
    }
    match plan_request(Request::PinMessage { id: 1, msg_id: 4, pin: true }, &k) {
        RemotePlan::Call(c) => assert_eq!(c, RemoteCall::Pin { id: 1, msg_id: 4, pin: true }),
        other => panic!("unexpected {other:?}"),
    }
}

#[test]
fn search_routes_by_scope_and_empty_queries_clear() {
    let k = known();
    assert!(matches!(plan_request(Request::Search { id: Some(1), query: String::new() }, &k),
        RemotePlan::Reply(UiMessage::SearchResults { id: Some(1), ref query, ref hits }) if query.is_empty() && hits.is_empty()));
    match plan_request(Request::Search { id: Some(1), query: "hi".into() }, &k) {
        RemotePlan::Call(c) => assert_eq!(c, RemoteCall::SearchChat { id: 1, title: "Camille".into(), query: "hi".into() }),
        other => panic!("unexpected {other:?}"),
    }
    match plan_request(Request::Search { id: Some(9), query: "hi".into() }, &k) {
        RemotePlan::Call(c) => assert_eq!(c, RemoteCall::SearchGlobal { id: Some(9), query: "hi".into() }),
        other => panic!("unexpected {other:?}"),
    }
}

#[test]
fn groups_with_known_members_are_groups() {
    let k = known();
    match plan_request(Request::CreateChannel { title: "G".into(), about: "a".into(), megagroup: true, members: vec![9, 2, 1] }, &k) {
        RemotePlan::Call(c) => assert_eq!(c, RemoteCall::CreateGroup { title: "G".into(), about: "a".into(), members: vec![2, 1] }),
        other => panic!("unexpected {other:?}"),
    }
    match plan_request(Request::CreateChannel { title: "G".into(), about: "a".into(), megagroup: true, members: vec![9] }, &k) {
        RemotePlan::Call(c) => assert_eq!(c, RemoteCall::CreateChannel { title: "G".into(), about: "a".into(), megagroup: true }),
        other => panic!("unexpected {other:?}"),
    }
    let (msgs, retry) = call_failed(&RemoteCall::CreateGroup { title: "G".into(), about: "a".into(), members: vec![2] }, "nope");
    assert!(msgs.is_empty());
    assert_eq!(retry, Some(RemoteCall::CreateChannel { title: "G".into(), about: "a".into(), megagroup: true }));
}

#[test]
fn failures_and_completions_are_reported() {
    let (msgs, retry) = call_failed(&RemoteCall::Edit { id: 1, msg_id: 2, text: "t".into() }, "timeout");
    assert!(retry.is_none());
    assert!(matches!(&msgs[..], [UiMessage::Error(e)] if e == "Edit failed: timeout"));
    let (msgs, _) = call_failed(&RemoteCall::Upload { id: 1, path: "/f".into(), caption: String::new(), reply_to: None, token: 5 }, "io");
    assert!(matches!(&msgs[..], [UiMessage::UploadDone { chat_id: 1, token: 5 }, UiMessage::Error(e)] if e == "Send failed: io"));
    let (msgs, _) = call_failed(&RemoteCall::MarkRead { id: 1 }, "x");
    assert!(msgs.is_empty(), "read marks fail quietly");
    assert!(matches!(call_done(&RemoteCall::MarkRead { id: 1 })[..], [UiMessage::ChatRead { id: 1 }]));
    assert!(matches!(call_done(&RemoteCall::Pin { id: 1, msg_id: 3, pin: false })[..], [UiMessage::PinnedMessage { chat_id: 1, msg_id: None }]));
    assert!(matches!(call_done(&RemoteCall::Leave { id: 2 })[..], [UiMessage::ChatGone { id: 2 }]));
    assert!(call_done(&RemoteCall::StickerSets).is_empty());
}

#[test]
fn upload_progress_is_in_thousandths() {
    assert_eq!(upload_progress(0, 0), 1000);
    assert_eq!(upload_progress(1, 4), 250);
    assert_eq!(upload_progress(2, 3), 666);
    assert_eq!(upload_progress(9, 4), 1000);
}
