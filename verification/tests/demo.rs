use std::collections::HashMap;

use app_iced::bridge::{DocKind, Request, UiMessage};
use app_iced::demo::{matches_query, DemoServer, DemoSticker, DemoStickerSet, UPLOAD_STEPS};

const NOW: i32 = 1_700_000_000;

fn packs() -> Vec<DemoStickerSet> {
    let set = |k: i64, title: &str| DemoStickerSet {
        title: title.into(),
        short_name: format!("pack{k}"),
        docs: (0..5)
            .map(|i| DemoSticker {
                doc_id: k * 100 + i,
                access_hash: 7,
                alt: format!("a{k}{i}"),
                path: format!("/tmp/s{k}{i}.png"),
            })
            .collect(),
    };
    vec![set(1, "Shapes"), set(2, "Faces")]
}

fn server() -> DemoServer {
    let mut avatars = HashMap::new();
    avatars.insert(1001, "/tmp/a1001.png".to_string());
    let mut photos = HashMap::new();
    photos.insert(1001, "/tmp/p1001.png".to_string());
    photos.insert(1003, "/tmp/p1003.png".to_string());
    DemoServer::new(NOW, None, avatars, photos, packs())
}

#[test]
fn demo_starts_signed_in_with_five_chats() {
    let s = server();
    let msgs = s.start();
    match &msgs[0] {
        UiMessage::Dialogs(rows) => {
            let ids: Vec<i64> = rows.iter().map(|r| r.id).collect();
            assert_eq!(ids, vec![1001, 1002, 1003, 1004, 1005]);
            assert_eq!(rows[0].title, "Camille");
            assert_eq!(rows[0].date, NOW - 42);
            assert_eq!(rows[0].unread, 3);
            assert_eq!(rows[0].avatar_path.as_deref(), Some("/tmp/a1001.png"));
            assert_eq!(rows[1].avatar_path, None);
            assert_eq!(rows[3].unread, 12);
        }
        other => panic!("unexpected {other:?}"),
    }
    assert!(matches!(&msgs[1], UiMessage::LoginOk { name } if name == "Demo"));
}

#[test]
fn demo_opening_a_chat_sends_its_history_and_pin() {
    let mut s = server();
    let r = s.handle(Request::OpenChat { id: 1001 });
    assert!(r.upload.is_none() && r.fetch.is_none());
    match &r.messages[0] {
        UiMessage::Messages { id, title, rows } => {
            assert_eq!(*id, 1001);
            assert_eq!(title, "Camille");
            assert_eq!(rows.len(), 11);
            assert_eq!(rows[1].photo, Some((640, 480)));
            assert_eq!(rows[1].photo_path.as_deref(), Some("/tmp/p1001.png"));
            assert_eq!(rows[2].reply_to, Some(1));
            assert_eq!(rows[5].doc.as_ref().map(|d| d.kind), Some(DocKind::Audio { voice: true }));
            assert_eq!(rows[10].text, "Yes! see you tomorrow 👋");
            assert_eq!(rows[10].date, NOW - 42);
        }
        other => panic!("unexpected {other:?}"),
    }
    assert!(matches!(r.messages[1], UiMessage::PinnedMessage { chat_id: 1001, msg_id: None }));
    assert_eq!(s.open, Some(1001));
    let r = s.handle(Request::OpenChat { id: 1002 });
    assert!(matches!(r.messages[1], UiMessage::PinnedMessage { chat_id: 1002, msg_id: Some(1) }));
    match &r.messages[0] {
        UiMessage::Messages { rows, .. } => {
            assert_eq!(rows[0].sender_name.as_deref(), Some("Camille"));
            assert!(rows[0].pinned);
            assert_eq!(rows[2].sticker.as_ref().map(|st| st.alt.as_str()), Some("a10"));
            assert_eq!(rows[6].sticker_path.as_deref(), Some("/tmp/s24.png"));
        }
        other => panic!("unexpected {other:?}"),
    }
    let r = s.handle(Request::OpenChat { id: 42 });
    assert!(matches!(&r.messages[0], UiMessage::Messages { title, rows, .. } if title == "Chat" && rows.is_empty()));
}

#[test]
fn demo_edits_show_up_when_reopening() {
    let mut s = server();
    let r = s.handle(Request::EditMessage { id: 1001, msg_id: 3, text: "fixed".into() });
    assert!(matches!(&r.messages[0], UiMessage::MessageEdited { chat_id: 1001, id: 3, text, date } if text == "fixed" && *date == NOW));
    let r = s.handle(Request::OpenChat { id: 1001 });
    match &r.messages[0] {
        UiMessage::Messages { rows, .. } => assert_eq!(rows[2].text, "fixed"),
        other => panic!("unexpected {other:?}"),
    }
    let r = s.handle(Request::DeleteMessage { id: 1001, msg_id: 3 });
    assert!(matches!(&r.messages[0], UiMessage::MessageDeleted { ids } if ids == &vec![3]));
    let r = s.handle(Request::OpenChat { id: 1001 });
    match &r.messages[0] {
        UiMessage::Messages { rows, .. } => assert_eq!(rows[2].text, "Stunning! taken this morning?"),
        other => panic!("unexpected {other:?}"),
    }
}

#[test]
fn demo_echoes_sent_messages_with_fresh_ids() {
    let mut s = server();
    let r = s.handle(Request::SendMessage { id: 1002, text: "hi".into(), reply_to: Some(4) });
    assert!(matches!(&r.messages[0], UiMessage::NewMessage { chat_id: 1002, id: 10000, out: true, reply_to: Some(4), text, .. } if text == "hi"));
    let r = s.handle(Request::SendMessage { id: 1002, text: "again".into(), reply_to: None });
    assert!(matches!(&r.messages[0], UiMessage::NewMessage { id: 10001, .. }));
}

#[test]
fn demo_forward_copies_the_message_and_its_photo() {
    let mut s = server();
    let r = s.handle(Request::ForwardMessage { from_chat: 1001, msg_id: 2, to_chat: 1004 });
    assert_eq!(r.messages.len(), 2);
    assert!(matches!(&r.messages[0], UiMessage::NewMessage { chat_id: 1004, id: 10000, photo: Some((640, 480)), forwarded_from: Some(f), .. } if f == "Camille"));
    assert!(matches!(&r.messages[1], UiMessage::PhotoReady { chat_id: 1004, msg_id: 10000, path: Some(p) } if p == "/tmp/p1001.png"));
    let r = s.handle(Request::ForwardMessage { from_chat: 1001, msg_id: 99, to_chat: 1004 });
    assert!(r.messages.is_empty());
    assert_eq!(s.next_id, 10001, "an unknown message takes no id");
}

#[test]
fn demo_document_downloads_tell_voice_notes_apart() {
    let mut s = server();
    let r = s.handle(Request::DownloadDoc { chat_id: 1001, msg_id: 6 });
    let f = r.fetch.expect("a document to write");
    assert!(f.voice);
    assert!(matches!(f.ready("/tmp/v.wav".into()), UiMessage::DocReady { chat_id: 1001, msg_id: 6, path: Some(p) } if p == "/tmp/v.wav"));
    let r = s.handle(Request::DownloadDoc { chat_id: 1001, msg_id: 7 });
    assert!(!r.fetch.unwrap().voice);
}

#[test]
fn demo_search_in_chat_is_case_insensitive() {
    let mut s = server();
    let r = s.handle(Request::Search { id: Some(1001), query: "SEE".into() });
    match &r.messages[0] {
        UiMessage::SearchResults { id: Some(1001), query, hits } => {
            assert_eq!(query, "SEE");
            let ids: Vec<i32> = hits.iter().map(|h| h.row.id).collect();
            assert_eq!(ids, vec![1, 11]);
            assert!(hits.iter().all(|h| h.chat_title == "Camille" && h.chat_id == 1001));
        }
        other => panic!("unexpected {other:?}"),
    }
    let r = s.handle(Request::Search { id: Some(1001), query: String::new() });
    assert!(matches!(&r.messages[0], UiMessage::SearchResults { hits, .. } if hits.is_empty()));
}

#[test]
fn demo_global_search_gives_one_hit_per_chat() {
    let mut s = server();
    let r = s.handle(Request::Search { id: None, query: "rust".into() });
    match &r.messages[0] {
        UiMessage::SearchResults { id: None, hits, .. } => {
            let got: Vec<(i64, i32)> = hits.iter().map(|h| (h.chat_id, h.row.id)).collect();
            assert_eq!(got, vec![(1001, 9), (1002, 1)], "a matching title contributes the chat's first row");
        }
        other => panic!("unexpected {other:?}"),
    }
}

#[test]
fn demo_query_matching_needs_a_non_empty_query() {
    assert!(matches_query("hello world", "lo w"));
    assert!(!matches_query("hello", ""));
    assert!(!matches_query("hello", "world"));
    assert!(matches_query("abc", "abc"));
}

#[test]
fn demo_chats_can_be_created_renamed_and_left() {
    let mut s = server();
    s.handle(Request::OpenChat { id: 1003 });
    let r = s.handle(Request::CreateChannel { title: "New".into(), about: String::new(), megagroup: true, members: vec![] });
    assert!(matches!(&r.messages[0], UiMessage::Dialogs(rows) if rows.len() == 6 && rows[5].id == 1006 && rows[5].title == "New" && rows[5].date == NOW));
    assert!(matches!(r.messages[1], UiMessage::ChatCreated { id: 1006 }));
    let r = s.handle(Request::EditChatTitle { id: 1003, title: "Sea".into() });
    assert_eq!(r.messages.len(), 2, "the open chat is sent again");
    assert!(matches!(&r.messages[1], UiMessage::Messages { id: 1003, title, rows } if title == "Sea" && rows.len() == 2));
    let r = s.handle(Request::EditChatTitle { id: 1004, title: "Fam".into() });
    assert_eq!(r.messages.len(), 1);
    let r = s.handle(Request::LeaveChat { id: 1002 });
    assert!(matches!(&r.messages[0], UiMessage::Dialogs(rows) if rows.iter().all(|c| c.id != 1002) && rows.len() == 5));
    assert!(matches!(r.messages[1], UiMessage::ChatGone { id: 1002 }));
    let r = s.handle(Request::DeleteChat { id: 1006 });
    assert!(matches!(&r.messages[0], UiMessage::Dialogs(rows) if rows.len() == 4));
}

#[test]
fn demo_stickers_list_send_and_download() {
    let mut s = server();
    let r = s.handle(Request::GetStickerSets);
    assert_eq!(r.messages.len(), 1 + 10);
    assert!(matches!(&r.messages[0], UiMessage::StickerSets(sets) if sets.len() == 2 && sets[1].docs[2] == (202, 7, "a22".to_string())));
    assert!(matches!(&r.messages[1], UiMessage::StickerThumbReady { doc_id: 100, path: Some(p) } if p == "/tmp/s10.png"));
    let r = s.handle(Request::SendSticker { id: 1001, doc_id: 203, access_hash: 7 });
    assert!(matches!(&r.messages[0], UiMessage::NewMessage { id: 10000, sticker: Some(st), .. } if st.alt == "a23"));
    assert!(matches!(&r.messages[1], UiMessage::StickerPathReady { chat_id: 1001, msg_id: 10000, path: Some(p) } if p == "/tmp/s23.png"));
    let r = s.handle(Request::SendSticker { id: 1001, doc_id: 999, access_hash: 7 });
    assert!(r.messages.is_empty());
    let r = s.handle(Request::DownloadSticker { chat_id: 1002, msg_id: 3 });
    assert!(matches!(&r.messages[0], UiMessage::StickerPathReady { chat_id: 1002, msg_id: 3, path: Some(p) } if p == "/tmp/s10.png"));
    let r = s.handle(Request::DownloadSticker { chat_id: 1002, msg_id: 1 });
    assert!(r.messages.is_empty());
}

#[test]
fn demo_simple_requests_are_echoed() {
    let mut s = server();
    assert!(matches!(s.handle(Request::MarkRead { id: 1004 }).messages[..], [UiMessage::ChatRead { id: 1004 }]));
    assert!(matches!(s.handle(Request::PinMessage { id: 1002, msg_id: 5, pin: true }).messages[..], [UiMessage::PinnedMessage { chat_id: 1002, msg_id: Some(5) }]));
    assert!(matches!(s.handle(Request::PinMessage { id: 1002, msg_id: 5, pin: false }).messages[..], [UiMessage::PinnedMessage { chat_id: 1002, msg_id: None }]));
    assert!(matches!(s.handle(Request::KickParticipant { id: 1002, user_id: 2003 }).messages[..], [UiMessage::ParticipantKicked { user_id: 2003 }]));
    assert!(matches!(&s.handle(Request::GetChatInfo { id: 1002 }).messages[..], [UiMessage::ChatInfo(d)] if d.title == "Rust Group"));
    assert!(s.handle(Request::GetChatInfo { id: 7 }).messages.is_empty());
    assert!(matches!(&s.handle(Request::GetParticipants { id: 1002 }).messages[..], [UiMessage::Participants(ps)] if ps.len() == 5));
    assert!(s.handle(Request::Typing { id: 1001, typing: true }).messages.is_empty());
    assert!(s.handle(Request::SetMuted { id: 1001, muted: true }).messages.is_empty());
}

#[test]
fn demo_uploads_report_progress_then_echo() {
    let mut s = server();
    let r = s.handle(Request::SendMedia {
        id: 1001,
        path: "/tmp/f.pdf".into(),
        caption: "doc".into(),
        is_photo: false,
        reply_to: None,
        token: 9,
    });
    let u = r.upload.expect("an upload to simulate");
    assert!(matches!(u.progress(1), UiMessage::UploadProgress { chat_id: 1001, token: 9, progress: 100 }));
    assert!(matches!(u.progress(UPLOAD_STEPS), UiMessage::UploadProgress { progress: 1000, .. }));
    let msgs = u.finish("f.pdf".into(), 123);
    assert_eq!(msgs.len(), 3);
    assert!(matches!(msgs[0], UiMessage::UploadDone { chat_id: 1001, token: 9 }));
    assert!(matches!(&msgs[1], UiMessage::NewMessage { id: 10000, doc: Some(d), photo: None, text, .. } if d.name == "f.pdf" && d.size == 123 && text == "doc"));
    assert!(matches!(&msgs[2], UiMessage::DocReady { msg_id: 10000, path: Some(p), .. } if p == "/tmp/f.pdf"));
    let r = s.handle(Request::SendMedia {
        id: 1003,
        path: "/tmp/x.jpg".into(),
        caption: String::new(),
        is_photo: true,
        reply_to: None,
        token: 10,
    });
    let msgs = r.upload.unwrap().finish("x.jpg".into(), 1);
    assert!(matches!(&msgs[2], UiMessage::PhotoReady { msg_id: 10001, path: Some(p), .. } if p == "/tmp/p1003.png"));
}

#[test]
fn demo_peer_types_then_writes() {
    let mut s = server();
    assert!(s.peer_tick(false, false, NOW).is_empty());
    let m = s.peer_tick(true, false, NOW);
    assert!(matches!(m[..], [UiMessage::PeerTyping { chat_id: 1001, typing: true }]));
    assert!(s.peer_tick(true, false, NOW).is_empty(), "no repeat while typing");
    let m = s.peer_tick(true, true, NOW + 5);
    assert_eq!(m.len(), 2);
    assert!(matches!(m[0], UiMessage::PeerTyping { typing: false, .. }));
    assert!(matches!(&m[1], UiMessage::NewMessage { chat_id: 1001, id: 10000, out: false, text, date, .. } if text == "Hey there!" && *date == NOW + 5));
    let m = s.peer_tick(false, true, NOW + 50);
    assert!(matches!(&m[1], UiMessage::NewMessage { text, .. } if text == "Did you see the news this morning?"));
}

#[test]
fn demo_big_history_is_generated() {
    let mut s = DemoServer::new(NOW, Some(50), HashMap::new(), HashMap::new(), Vec::new());
    let r = s.handle(Request::OpenChat { id: 1001 });
    match &r.messages[0] {
        UiMessage::Messages { rows, .. } => {
            assert_eq!(rows.len(), 50);
            assert!(rows[0].text.starts_with("A longer message"));
            assert_eq!(rows[1].text, "Message 1 of the big test conversation — the quick brown fox jumps over the lazy dog 1");
            assert_eq!(rows[7].photo, Some((640, 480)));
            assert_eq!(rows[7].photo_path, None, "no generated photo here");
            assert_eq!(rows[5].reply_to, Some(4));
            assert_eq!(rows[3].date, NOW - 30);
            assert!(rows[2].out && !rows[3].out);
        }
        other => panic!("unexpected {other:?}"),
    }
}

#[test]
fn demo_creating_then_leaving_restores_the_list() {
    let mut s = server();
    let before: Vec<i64> = s.chats.iter().map(|c| c.id).collect();
    s.handle(Request::CreateChannel { title: "T".into(), about: String::new(), megagroup: false, members: vec![] });
    s.handle(Request::LeaveChat { id: 1006 });
    let after: Vec<i64> = s.chats.iter().map(|c| c.id).collect();
    assert_eq!(before, after);
    assert_eq!(s.next_chat_id, 1007, "the id is not handed out again");
}
