use app_iced::bridge::{DocKind, DocMeta, ParticipantRole, StickerMeta};
use app_iced::state::{
    admin_menu_items, emoji_recents_file, last_chat_marker, notifications_marker,
    parse_emoji_recents, parse_last_chat, parse_notifications, preview_text, push_recent,
    AdminAction, EMOJI_RECENTS_MAX,
};

#[test]
fn admin_menu_items_follow_the_role() {
    // Plain members: promote + ban + remove.
    assert_eq!(
        admin_menu_items(ParticipantRole::Member, false),
        vec![AdminAction::Promote, AdminAction::Ban, AdminAction::Remove]
    );
    // Admins: demote + ban.
    assert_eq!(
        admin_menu_items(ParticipantRole::Admin, false),
        vec![AdminAction::Demote, AdminAction::Ban]
    );
    // The owner and yourself: no menu at all.
    assert!(admin_menu_items(ParticipantRole::Creator, false).is_empty());
    assert!(admin_menu_items(ParticipantRole::Member, true).is_empty());
    assert!(admin_menu_items(ParticipantRole::Admin, true).is_empty());
}

#[test]
fn last_chat_marker_roundtrip() {
    // A missing file reads as the empty content.
    assert_eq!(parse_last_chat(""), None);
    assert_eq!(parse_last_chat(&last_chat_marker(987654321)), Some(987654321));
    assert_eq!(parse_last_chat(&last_chat_marker(-42)), Some(-42));
    assert_eq!(parse_last_chat(" 17\n"), Some(17));
    assert_eq!(parse_last_chat("garbage"), None);
}

#[test]
fn emoji_recents_persistence_roundtrip() {
    assert!(parse_emoji_recents("").is_empty());
    let recents = vec!["🎉".to_string(), "😀".to_string()];
    let file = emoji_recents_file(&recents);
    assert_eq!(parse_emoji_recents(&file), recents);
    assert_eq!(parse_emoji_recents("🎉\n\n 😀 \n"), recents);
}

#[test]
fn notifications_marker_roundtrip() {
    assert!(parse_notifications(""), "missing file = enabled");
    assert!(!parse_notifications(notifications_marker(false)));
    assert!(parse_notifications(notifications_marker(true)));
    assert!(parse_notifications("garbage"));
}

#[test]
fn recents_are_deduplicated_and_capped() {
    let mut r: Vec<String> = Vec::new();
    push_recent(&mut r, "😀".into());
    push_recent(&mut r, "🎉".into());
    push_recent(&mut r, "😀".into());
    assert_eq!(r, vec!["😀".to_string(), "🎉".to_string()]);
    for i in 0..40u32 {
        push_recent(&mut r, char::from_u32(0x1F600 + i).unwrap().to_string());
    }
    assert_eq!(r.len(), EMOJI_RECENTS_MAX);
    assert_eq!(r[0], char::from_u32(0x1F600 + 39).unwrap().to_string());
}

#[test]
fn previews_describe_media() {
    assert_eq!(preview_text("hello", &None, &None, &None), "hello");
    assert_eq!(preview_text("", &Some((10, 10)), &None, &None), "📷 Photo");
    let doc = DocMeta { name: "a.pdf".into(), size: 3, kind: DocKind::File };
    assert_eq!(preview_text("", &None, &Some(doc), &None), "📄 a.pdf");
    let sticker = StickerMeta { alt: " 😺 ".into() };
    assert_eq!(preview_text("", &None, &None, &Some(sticker)), "😺 Sticker");
    assert_eq!(preview_text("", &None, &None, &None), "");
}
