use std::collections::HashMap;

use app_iced::bridge::DocKind;
use app_iced::bridge::UiMessage;
use app_iced::rows::{dialog_rows, DialogInfo, media_to_row, msg_row_from_info, notification_for, update_messages, Downloads, ForwardInfo, LiveUpdate, MediaKind, MessageInfo, PathCache};

#[test]
fn media_to_row_classifies_document_kinds() {
    // Video → DocKind::Video.
    let (photo, doc, _) = media_to_row(Some(MediaKind::Video { name: "v.mp4".into(), size: 10 }));
    assert!(photo.is_none());
    assert_eq!(doc.as_ref().map(|d| d.kind), Some(DocKind::Video));
    // Voice → DocKind::Audio { voice: true }.
    let (_, doc, _) = media_to_row(Some(MediaKind::Audio { name: "v.ogg".into(), size: 20, voice: true }));
    assert_eq!(doc.unwrap().kind, DocKind::Audio { voice: true });
    // Plain file stays a file.
    let (_, doc, _) = media_to_row(Some(MediaKind::Document { name: "f.pdf".into(), size: 30 }));
    assert_eq!(doc.unwrap().kind, DocKind::File);
}

#[test]
fn media_to_row_classifies_stickers_as_frameless_media() {
    let (photo, doc, sticker) = media_to_row(Some(MediaKind::Sticker {
        name: String::new(),
        size: 1234,
        alt: "🎉".into(),
    }));
    assert!(photo.is_none());
    assert!(doc.is_none(), "stickers must not render as document cards");
    assert_eq!(sticker.map(|s| s.alt), Some("🎉".to_string()));
}

#[test]
fn photos_and_gifs_keep_their_shape() {
    let (photo, doc, sticker) = media_to_row(Some(MediaKind::Photo { width: 640, height: 480 }));
    assert_eq!(photo, Some((640, 480)));
    assert!(doc.is_none() && sticker.is_none());
    let (_, doc, _) = media_to_row(Some(MediaKind::Gif { name: "g.mp4".into(), size: 5 }));
    let doc = doc.unwrap();
    assert_eq!((doc.name.as_str(), doc.size, doc.kind), ("g.mp4", 5, DocKind::Gif));
    assert_eq!(media_to_row(None), (None, None, None));
}

#[test]
fn path_cache_keeps_the_latest_file() {
    let mut c = PathCache::new();
    assert_eq!(c.get(1, 2), None);
    c.insert(1, 2, "/a".into());
    c.insert(1, 3, "/b".into());
    c.insert(1, 2, "/c".into());
    assert_eq!(c.get(1, 2).as_deref(), Some("/c"));
    assert_eq!(c.get(1, 3).as_deref(), Some("/b"));
    assert_eq!(c.get(2, 2), None);
}

fn info(id: i32, media: Option<MediaKind>, forwarded: Option<ForwardInfo>) -> MessageInfo {
    MessageInfo {
        id,
        text: "hello".into(),
        date: 100,
        out: false,
        media,
        reply_to: Some(3),
        forwarded,
        sender_name: Some("Ann".into()),
        sender_id: Some(9),
        pinned: true,
    }
}

#[test]
fn rows_reuse_downloaded_files_and_resolve_forwards() {
    let mut d = Downloads::new();
    d.insert(42, 1, "/p.jpg".into());
    d.insert_doc(42, 2, "/d.pdf".into());
    d.insert_sticker(42, 3, "/s.png".into());
    let mut peers = HashMap::new();
    peers.insert(7, "Rust Group".to_string());

    let row = msg_row_from_info(
        info(1, Some(MediaKind::Photo { width: 1, height: 2 }), Some(ForwardInfo { name: None, chat_id: Some(7) })),
        42,
        &d,
        &peers,
    );
    assert_eq!(row.photo_path.as_deref(), Some("/p.jpg"));
    assert_eq!(row.forwarded_from.as_deref(), Some("Rust Group"));
    assert_eq!((row.id, row.text.as_str(), row.date, row.reply_to, row.pinned), (1, "hello", 100, Some(3), true));
    assert_eq!(row.sender_name.as_deref(), Some("Ann"));
    assert!(!row.read && row.uploading.is_none());

    let row = msg_row_from_info(
        info(2, Some(MediaKind::Document { name: "d.pdf".into(), size: 1 }), Some(ForwardInfo { name: Some("Bob".into()), chat_id: Some(7) })),
        42,
        &d,
        &peers,
    );
    assert_eq!(row.doc_path.as_deref(), Some("/d.pdf"));
    assert_eq!(row.photo_path, None);
    assert_eq!(row.forwarded_from.as_deref(), Some("Bob"), "the header's own name wins");

    let row = msg_row_from_info(
        info(3, Some(MediaKind::Sticker { name: String::new(), size: 1, alt: "🎉".into() }), Some(ForwardInfo { name: None, chat_id: Some(8) })),
        42,
        &d,
        &peers,
    );
    assert_eq!(row.sticker_path.as_deref(), Some("/s.png"));
    assert_eq!(row.forwarded_from, None, "an unknown origin chat gives no name");

    // A photo of another chat is not reused.
    let row = msg_row_from_info(info(1, Some(MediaKind::Photo { width: 1, height: 2 }), None), 43, &d, &peers);
    assert_eq!(row.photo_path, None);
}

fn live(private: bool) -> LiveUpdate {
    LiveUpdate::NewMessage {
        chat_id: 5,
        private,
        id: 8,
        text: "yo".into(),
        date: 77,
        out: false,
        media: Some(MediaKind::Audio { name: "v.ogg".into(), size: 3, voice: true }),
        reply_to: None,
        forwarded: Some(ForwardInfo { name: None, chat_id: Some(7) }),
        sender_name: Some("Ann".into()),
        sender_id: Some(9),
    }
}

#[test]
fn live_messages_hide_the_sender_in_private_chats() {
    let mut peers = HashMap::new();
    peers.insert(7, "Rust Group".to_string());
    let m = update_messages(live(true), &peers);
    match &m[..] {
        [UiMessage::NewMessage { chat_id: 5, id: 8, sender_name: None, sender_id: None, forwarded_from: Some(f), doc: Some(d), .. }] => {
            assert_eq!(f, "Rust Group");
            assert_eq!(d.kind, DocKind::Audio { voice: true });
        }
        other => panic!("unexpected {other:?}"),
    }
    let m = update_messages(live(false), &peers);
    assert!(matches!(&m[..], [UiMessage::NewMessage { sender_name: Some(n), sender_id: Some(9), .. }] if n == "Ann"));
}

#[test]
fn live_read_marks_typing_and_pins() {
    let peers = HashMap::new();
    assert!(matches!(update_messages(LiveUpdate::InboxRead { chat_id: 1, still_unread: -3 }, &peers)[..], [UiMessage::UnreadCount { chat_id: 1, count: 0 }]));
    assert!(matches!(update_messages(LiveUpdate::InboxRead { chat_id: 1, still_unread: 4 }, &peers)[..], [UiMessage::UnreadCount { count: 4, .. }]));
    assert!(matches!(update_messages(LiveUpdate::OutboxRead { chat_id: 1, max_id: 9 }, &peers)[..], [UiMessage::ChatRead { id: 1 }, UiMessage::OutboxRead { chat_id: 1, max_id: 9 }]));
    assert!(matches!(update_messages(LiveUpdate::Typing { chat_id: 1, cancel: true }, &peers)[..], [UiMessage::PeerTyping { typing: false, .. }]));
    assert!(matches!(update_messages(LiveUpdate::Pinned { chat_id: 1, ids: vec![3, 4] }, &peers)[..], [UiMessage::PinnedMessage { msg_id: Some(4), .. }]));
    assert!(matches!(update_messages(LiveUpdate::Pinned { chat_id: 1, ids: vec![] }, &peers)[..], [UiMessage::PinnedMessage { msg_id: None, .. }]));
    assert!(matches!(&update_messages(LiveUpdate::MessagesDeleted { ids: vec![2] }, &peers)[..], [UiMessage::MessageDeleted { ids }] if ids == &vec![2]));
    assert!(matches!(&update_messages(LiveUpdate::MessageEdited { chat_id: 1, id: 2, text: "t".into(), date: 3 }, &peers)[..], [UiMessage::MessageEdited { id: 2, text, .. }] if text == "t"));
}

#[test]
fn notifications_skip_the_open_chat() {
    let mut peers = HashMap::new();
    peers.insert(7, "Rust Group".to_string());
    assert_eq!(notification_for(Some(7), 7, "hi", &peers), None);
    assert_eq!(notification_for(Some(1), 7, "hi", &peers), Some(("Rust Group".to_string(), "hi".to_string())));
    assert_eq!(notification_for(None, 8, "", &peers), Some(("Message".to_string(), String::new())));
}

#[test]
fn dialog_rows_fill_missing_subtitles_and_dates() {
    let ds = vec![
        DialogInfo { id: 1, title: "A".into(), last_message: Some("hi".into()), last_date: Some(50), unread: 2 },
        DialogInfo { id: 2, title: "B".into(), last_message: None, last_date: None, unread: 0 },
    ];
    let (rows, titles) = dialog_rows(&ds);
    assert_eq!(rows.len(), 2);
    assert_eq!((rows[0].id, rows[0].subtitle.as_str(), rows[0].date, rows[0].unread), (1, "hi", 50, 2));
    assert_eq!((rows[1].subtitle.as_str(), rows[1].date), ("", 0));
    assert!(rows.iter().all(|r| r.avatar_path.is_none()));
    assert_eq!(titles.get(&2).map(String::as_str), Some("B"));
    assert_eq!(titles.len(), 2);
}
