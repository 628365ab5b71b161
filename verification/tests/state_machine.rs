use app_iced::bridge::{
    ChatDetail, ChatKind, ChatRow, MsgRow, MyProfile, ParticipantRole, ParticipantRow, Request,
    SearchHit, SessionInfo, StickerMeta, StickerSetBridge, TopicRow, UiMessage,
};
use app_iced::state::machine::{open_url_target, VoiceAction};
use app_iced::state::{
    notifications_marker, parse_notifications, preview_text, AdminAction, AdminConfirm,
    ConfirmKind, ContextMenu, CreateKind, LoginStep, QrStage, ReplyTarget, SearchMode,
    SettingsTab, State, EMOJI_RECENTS_MAX,
};
use app_iced::theme::{ThemeMode, BUBBLE_SENT, LIST_BG, TEXT_PRIMARY};

/// Signed in with an open chat (42) holding one incoming and one own message.
fn demo_state() -> State {
    let mut state = State::new();
    state.login.authenticated = true;
    state.chat.open_chat = Some(42);
    state.chat.messages = vec![
        MsgRow::text(1, "incoming".into(), 100, false),
        MsgRow::text(2, "mine".into(), 200, true),
    ];
    state
}

/// Everything the state queued for the network, oldest first.
fn drain(state: &mut State) -> Vec<Request> {
    std::mem::take(&mut state.outbox)
}

fn chat_row(id: i64, title: &str, unread: i32) -> ChatRow {
    ChatRow { id, title: title.into(), subtitle: String::new(), date: 0, unread, avatar_path: None }
}

fn new_message(chat_id: i64, id: i32, text: &str, date: i32, out: bool) -> UiMessage {
    UiMessage::NewMessage {
        chat_id,
        id,
        text: text.into(),
        date,
        out,
        photo: None,
        doc: None,
        sticker: None,
        reply_to: None,
        forwarded_from: None,
        sender_name: None,
        sender_id: None,
    }
}

#[test]
fn demo_signed_in_state_is_ready() {
    let state = demo_state();
    assert!(state.login.authenticated);
    assert_eq!(state.chat.open_chat, Some(42));
    assert_eq!(state.chat.messages.len(), 2);
}

#[test]
fn pinned_message_banner_arrives_and_clears() {
    let mut state = demo_state();
    assert_eq!(state.chat.pinned_id, None);

    state.on_message(UiMessage::PinnedMessage { chat_id: 42, msg_id: Some(1) });
    assert_eq!(state.chat.pinned_id, Some(1));
    assert!(state.chat.messages.iter().find(|m| m.id == 1).unwrap().pinned);

    state.on_message(UiMessage::PinnedMessage { chat_id: 42, msg_id: None });
    assert_eq!(state.chat.pinned_id, None);
    assert!(!state.chat.messages.iter().find(|m| m.id == 1).unwrap().pinned);

    // A pin for another chat must not touch this one's banner.
    state.on_message(UiMessage::PinnedMessage { chat_id: 7, msg_id: Some(2) });
    assert_eq!(state.chat.pinned_id, None);
}

#[test]
fn context_pin_sends_request_and_toggles() {
    let mut state = demo_state();
    state.open_context(0);
    assert!(!state.context_row_pinned());
    state.context_pin();
    let reqs = drain(&mut state);
    assert!(
        reqs.iter().any(|r| matches!(r, Request::PinMessage { id: 42, msg_id: 1, pin: true })),
        "expected PinMessage request, got {reqs:?}"
    );
    assert_eq!(state.chat.pinned_id, Some(1));
    assert!(state.compose.context_menu.is_none());

    state.open_context(0);
    assert!(state.context_row_pinned());
    state.context_pin();
    let reqs = drain(&mut state);
    assert!(
        reqs.iter().any(|r| matches!(r, Request::PinMessage { id: 42, msg_id: 1, pin: false })),
        "expected unpin request, got {reqs:?}"
    );
    assert_eq!(state.chat.pinned_id, None);
}

#[test]
fn deleting_the_pinned_message_clears_the_banner() {
    let mut state = demo_state();
    state.chat.messages[0].pinned = true;
    state.chat.pinned_id = Some(1);
    state.open_context(0);
    state.context_delete();
    assert_eq!(state.chat.pinned_id, None);
    assert!(state.chat.messages.iter().all(|m| m.id != 1));
}

#[test]
fn opening_another_chat_resets_the_banner() {
    let mut state = demo_state();
    state.chat.pinned_id = Some(1);
    state.open_chat(43);
    assert_eq!(state.chat.pinned_id, None);
    let mut row = MsgRow::text(5, "topic".into(), 10, false);
    row.pinned = true;
    state.on_message(UiMessage::Messages { id: 43, title: "G".into(), rows: vec![row] });
    assert_eq!(state.chat.pinned_id, Some(5));
}

#[test]
fn dialogs_reopen_last_chat_when_present() {
    let mut state = demo_state();
    state.login.authenticated = true;
    state.chat.open_chat = None;
    state.list.initial_chat = Some(7);
    state.on_message(UiMessage::Dialogs(vec![chat_row(1, "A", 0), chat_row(7, "B", 0)]));
    state.restore_after_dialogs();
    assert_eq!(state.chat.open_chat, Some(7));
    assert_eq!(state.list.initial_chat, None);
    assert!(drain(&mut state).iter().any(|r| matches!(r, Request::OpenChat { id: 7 })));
}

#[test]
fn stale_last_chat_falls_back_to_first() {
    let mut state = demo_state();
    state.chat.open_chat = None;
    state.list.initial_chat = Some(999);
    state.on_message(UiMessage::Dialogs(vec![chat_row(1, "A", 0), chat_row(2, "B", 0)]));
    state.restore_after_dialogs();
    // Not in the list and no "open first" request: nothing opens.
    assert_eq!(state.chat.open_chat, None);
    assert_eq!(state.list.initial_chat, None);
    // With "open first", the first chat opens.
    state.list.auto_open_first = true;
    state.restore_after_dialogs();
    assert_eq!(state.chat.open_chat, Some(1));
}

#[test]
fn close_chat_clears_state() {
    let mut state = demo_state();
    state.prefs.persist_ui = false;
    state.close_chat();
    assert_eq!(state.chat.open_chat, None);
    assert!(state.chat.messages.is_empty());
    assert!(state.compose.editing.is_none());
    assert!(state.compose.context_menu.is_none());
}

#[test]
fn left_click_outgoing_opens_edit() {
    let mut state = demo_state();
    state.open_context(1);
    assert!(state.compose.context_menu.is_some());
    state.context_edit();
    assert_eq!(state.compose.editing, Some(2));
    assert_eq!(state.compose.composer, "mine");
    assert!(state.compose.context_menu.is_none());
}

#[test]
fn right_click_incoming_opens_menu_without_edit() {
    let mut state = demo_state();
    state.open_context(0);
    assert!(state.compose.context_menu.is_some());
    assert!(!state.context_can_edit());
}

#[test]
fn delete_sends_request_and_removes_row() {
    let mut state = demo_state();
    state.open_context(1);
    state.context_delete();
    assert!(state.compose.context_menu.is_none());
    assert!(!state.chat.messages.iter().any(|m| m.id == 2));
    assert_eq!(state.chat.messages.len(), 1);
    let reqs = drain(&mut state);
    assert!(matches!(reqs.last(), Some(Request::DeleteMessage { id: 42, msg_id: 2 })));
}

#[test]
fn clicking_message_opens_viewer_when_photo_ready() {
    let mut state = demo_state();
    state.chat.messages[0].photo = Some((640, 480));
    state.chat.messages[0].photo_path = Some("/tmp/pic.jpg".into());
    state.click(0);
    assert_eq!(state.view.viewer.as_deref(), Some("/tmp/pic.jpg"));
}

#[test]
fn click_on_open_menu_dismisses_instead_of_opening_viewer() {
    let mut state = demo_state();
    state.chat.messages[0].photo = Some((640, 480));
    state.chat.messages[0].photo_path = Some("/tmp/pic.jpg".into());
    state.open_context(1);
    state.click(0);
    assert!(state.compose.context_menu.is_none());
    assert!(state.view.viewer.is_none());
}

#[test]
fn edit_flows_back_into_the_row_and_sends_request() {
    let mut state = demo_state();
    state.compose.editing = Some(2);
    state.compose.composer = "edited".into();
    state.submit();
    assert_eq!(state.chat.messages[1].text, "edited");
    assert!(state.compose.editing.is_none());
    let reqs = drain(&mut state);
    assert!(matches!(
        reqs.last(),
        Some(Request::EditMessage { id: 42, msg_id: 2, text }) if text == "edited"
    ));
}

#[test]
fn new_message_appends_and_clears_typing() {
    let mut state = demo_state();
    state.chat.typing = true;
    state.on_message(new_message(42, 3, "hey", 300, false));
    assert_eq!(state.chat.messages.len(), 3);
    assert!(!state.chat.typing);
    assert!(state.view.scroll_to_bottom, "new message must scroll to bottom");
}

#[test]
fn new_message_from_other_chat_updates_list_not_open_chat() {
    let mut state = demo_state();
    state.list.dialogs = vec![chat_row(7, "Other", 0)];
    state.on_message(new_message(7, 9, "ping", 400, false));
    assert_eq!(state.chat.messages.len(), 2);
    assert_eq!(state.list.dialogs[0].subtitle, "ping");
    assert_eq!(state.list.dialogs[0].unread, 1);
    assert_eq!(state.list.dialogs[0].date, 400);
    assert_eq!(state.list.dialog_short[0].1, "ping");
    assert!(!state.view.scroll_to_bottom, "other chat's message must not scroll");
}

#[test]
fn optimistic_send_is_deduplicated_by_the_update() {
    let mut state = demo_state();
    state.compose.composer = "hello".into();
    state.submit();
    assert_eq!(state.chat.messages.len(), 3);
    assert_eq!(state.chat.messages.last().unwrap().id, 0);

    state.on_message(new_message(42, 777, "hello", 0, true));
    assert_eq!(state.chat.messages.len(), 3);
    assert_eq!(state.chat.messages.last().unwrap().id, 777);
}

#[test]
fn mark_read_clears_the_list_badge() {
    let mut state = demo_state();
    state.list.dialogs = vec![chat_row(42, "Camille", 5)];
    state.on_message(UiMessage::ChatRead { id: 42 });
    assert_eq!(state.list.dialogs[0].unread, 0);
    assert!(state.chat.messages.iter().all(|m| !m.out || m.read));
}

#[test]
fn outbox_read_marks_only_the_open_chat_sent_messages() {
    let mut state = demo_state();
    state.chat.messages.push(MsgRow::text(55, "mine".into(), 0, true));
    state.chat.messages.push(MsgRow::text(56, "mine too".into(), 0, true));

    state.on_message(UiMessage::OutboxRead { chat_id: 42, max_id: 55 });
    assert!(state.chat.messages.iter().find(|m| m.id == 55).unwrap().read);
    assert!(!state.chat.messages.iter().find(|m| m.id == 56).unwrap().read);

    state.on_message(UiMessage::OutboxRead { chat_id: 7, max_id: i32::MAX });
    assert!(!state.chat.messages.iter().find(|m| m.id == 56).unwrap().read);
}

#[test]
fn unread_count_sync_only_lowers_the_badge() {
    let mut state = demo_state();
    state.list.dialogs = vec![chat_row(42, "Camille", 3)];
    state.on_message(UiMessage::UnreadCount { chat_id: 42, count: 10 });
    assert_eq!(state.list.dialogs[0].unread, 3);
    state.on_message(UiMessage::UnreadCount { chat_id: 42, count: 1 });
    assert_eq!(state.list.dialogs[0].unread, 1);
}

#[test]
fn new_message_in_list_view_updates_the_list() {
    let mut state = demo_state();
    state.chat.open_chat = None;
    state.list.dialogs = vec![chat_row(7, "Other", 0)];
    state.on_message(new_message(7, 9, "ping", 400, false));
    assert_eq!(state.list.dialogs[0].subtitle, "ping");
    assert_eq!(state.list.dialogs[0].unread, 1);
    assert!(!state.view.scroll_to_bottom, "list view must not scroll messages");
}

#[test]
fn escape_cancels_editing() {
    let mut state = demo_state();
    state.open_context(1);
    state.context_edit();
    assert_eq!(state.compose.editing, Some(2));
    assert_eq!(state.compose.composer, "mine");
    state.escape();
    assert!(state.compose.editing.is_none());
    assert!(state.compose.composer.is_empty());
    assert!(state.compose.context_menu.is_none());
}

#[test]
fn reply_armed_then_sent_with_the_message() {
    let mut state = demo_state();
    state.open_context(0);
    state.context_reply();
    assert!(state.compose.reply_target.is_some(), "reply target armed");
    assert_eq!(state.compose.reply_target.as_ref().unwrap().snippet, "incoming");
    state.compose.composer = "ma réponse".into();
    state.submit();

    let reqs = drain(&mut state);
    assert!(matches!(
        reqs.last(),
        Some(Request::SendMessage { id: _, reply_to: Some(1), text }) if text == "ma réponse"
    ));
    let last = state.chat.messages.last().unwrap();
    assert_eq!(last.reply_to, Some(1));
    assert!(state.compose.reply_target.is_none());
}

#[test]
fn escape_cancels_reply_but_keeps_text() {
    let mut state = demo_state();
    state.open_context(1);
    state.context_reply();
    state.compose.composer = "brouillon".into();
    state.escape();
    assert!(state.compose.reply_target.is_none());
    assert_eq!(state.compose.composer, "brouillon");
}

#[test]
fn qr_toggle_switches_screen_and_cleans_up_on_leave() {
    let mut state = demo_state();
    state.toggle_login_screen();
    assert!(state.login.login_qr_selected);
    state.qr_started();
    assert_eq!(state.login.qr_stage, QrStage::AwaitingScan);

    state.on_message(UiMessage::QrCodeReady { path: "/tmp/q.png".into() });
    assert_eq!(state.login.qr_png_path.as_deref(), Some("/tmp/q.png"));

    state.toggle_login_screen();
    assert!(!state.login.login_qr_selected);
    assert_eq!(state.login.qr_stage, QrStage::Idle);
    assert!(state.login.qr_png_path.is_none());
}

#[test]
fn qr_code_ready_scan_confirmed_then_login_ok_resets() {
    let mut state = demo_state();
    state.login.login_qr_selected = true;
    state.qr_started();
    state.on_message(UiMessage::QrCodeReady { path: "/tmp/q.png".into() });
    assert_eq!(state.login.qr_png_path.as_deref(), Some("/tmp/q.png"));

    state.on_message(UiMessage::QrScanConfirmed);
    assert_eq!(state.login.qr_stage, QrStage::ScanConfirmed);

    state.on_message(UiMessage::LoginOk { name: "QR Demo".into() });
    assert!(state.login.authenticated);
    assert!(!state.login.login_qr_selected, "back on phone pane next login");
    assert_eq!(state.login.qr_stage, QrStage::Idle);
    assert!(state.login.qr_png_path.is_none());
    assert_eq!(state.status, "Signed in as QR Demo");
}

#[test]
fn qr_failure_clears_the_code_and_shows_the_error() {
    let mut state = demo_state();
    state.login.login_qr_selected = true;
    state.qr_started();
    state.on_message(UiMessage::QrCodeReady { path: "/tmp/q.png".into() });
    state.on_message(UiMessage::QrLoginFailed { error: "QR sign-in failed".into() });
    assert_eq!(state.login.qr_stage, QrStage::Idle);
    assert!(state.login.qr_png_path.is_none());
    assert_eq!(state.login.qr_error.as_deref(), Some("QR sign-in failed"));
    assert_eq!(state.login.login_step, LoginStep::Phone);
}

#[test]
fn forward_picks_a_chat_and_sends_one_request() {
    let mut state = demo_state();
    state.list.dialogs = vec![chat_row(7, "Cible", 0)];
    state.open_context(1);
    state.context_forward();
    assert_eq!(state.compose.forward_pick, Some(1));

    state.forward_to(7);
    let reqs = drain(&mut state);
    assert!(matches!(
        reqs.last(),
        Some(Request::ForwardMessage { from_chat: 42, msg_id: 2, to_chat: 7 })
    ));
    assert!(state.compose.forward_pick.is_none(), "picker closes after send");
}

#[test]
fn media_send_pushes_optistic_row_and_tracks_progress() {
    let mut state = demo_state();
    state.send_media("/tmp/vacances.png".into(), true, "vacances.png".into());

    let last = state.chat.messages.last().unwrap();
    assert_eq!(last.id, 0);
    assert_eq!(last.photo, Some((0, 0)));
    assert_eq!(last.uploading, Some(0));
    assert!(last.upload_token.is_some());

    let token = last.upload_token.unwrap();
    let reqs = drain(&mut state);
    match reqs.last() {
        Some(Request::SendMedia { id: 42, path, is_photo, token: t, .. }) => {
            assert_eq!(path, "/tmp/vacances.png");
            assert!(is_photo, "png must be sent as a photo");
            assert_eq!(*t, token);
        }
        other => panic!("expected SendMedia, got {other:?}"),
    }

    // Progress updates (in thousandths) flow into the same row.
    state.on_message(UiMessage::UploadProgress { chat_id: 42, token, progress: 500 });
    assert_eq!(state.chat.messages.last().unwrap().uploading, Some(500));

    state.on_message(UiMessage::NewMessage {
        chat_id: 42,
        id: 777,
        text: String::new(),
        date: 500,
        out: true,
        photo: Some((640, 480)),
        doc: None,
        reply_to: None,
        forwarded_from: None,
        sender_name: None,
        sender_id: None,
        sticker: None,
    });
    assert_eq!(state.chat.messages.len(), 3, "echo merges, no duplicate");
    let merged = state.chat.messages.last().unwrap();
    assert_eq!(merged.id, 777);
    assert_eq!(merged.uploading, None);
}

#[test]
fn document_send_is_not_flagged_as_photo() {
    let mut state = demo_state();
    state.send_media("/tmp/rapport.pdf".into(), false, "rapport.pdf".into());
    let last = state.chat.messages.last().unwrap();
    assert!(last.doc.is_some());
    assert_eq!(last.doc.as_ref().unwrap().name, "rapport.pdf");
    assert!(last.photo.is_none());

    let reqs = drain(&mut state);
    assert!(matches!(reqs.last(), Some(Request::SendMedia { is_photo: false, .. })));
}

#[test]
fn opening_search_sends_requests_and_applies_results() {
    let mut state = demo_state();
    state.open_search(SearchMode::InChat);
    assert!(state.search_open());
    state.search_changed("weekend".into());

    let reqs = drain(&mut state);
    assert!(matches!(
        reqs.last(),
        Some(Request::Search { id: Some(42), query }) if query == "weekend"
    ));

    state.on_message(UiMessage::SearchResults {
        id: Some(42),
        query: "weekend".into(),
        hits: vec![SearchHit {
            chat_id: 42,
            chat_title: "Camille".into(),
            row: MsgRow::text(77, "le weekend 😎".into(), 500, false),
        }],
    });
    assert_eq!(state.search.search_hits.len(), 1);
    assert_eq!(state.search.search_hits[0].row.id, 77);
}

#[test]
fn search_results_for_a_stale_mode_are_ignored() {
    let mut state = demo_state();
    state.open_search(SearchMode::Global);
    state.search_changed("foo".into());
    state.close_search();
    assert!(!state.search_open());
    assert!(state.search.search_query.is_empty());

    state.on_message(UiMessage::SearchResults { id: Some(42), query: "foo".into(), hits: vec![] });
    assert!(state.search.search_hits.is_empty());
}

#[test]
fn in_chat_hit_jumps_to_the_message() {
    let mut state = demo_state();
    state.open_search(SearchMode::InChat);
    state.on_message(UiMessage::SearchResults {
        id: Some(42),
        query: "".into(),
        hits: vec![SearchHit {
            chat_id: 42,
            chat_title: "Camille".into(),
            row: MsgRow::text(1, "incoming".into(), 100, false),
        }],
    });
    state.click_search_hit(0);
    assert!(!state.search_open(), "jumping closes the search UI");
    // The list scrolls to that message.
    assert_eq!(state.view.scroll_target, Some(1));
    assert!(!state.view.scroll_to_bottom);
}

#[test]
fn global_hit_opens_the_target_chat() {
    let mut state = demo_state();
    state.open_search(SearchMode::Global);
    state.on_message(UiMessage::SearchResults {
        id: None,
        query: "".into(),
        hits: vec![SearchHit {
            chat_id: 7,
            chat_title: "Autre".into(),
            row: MsgRow::text(9, "ping".into(), 400, false),
        }],
    });
    state.click_search_hit(0);
    assert!(!state.search_open());
    let reqs = drain(&mut state);
    assert!(matches!(reqs.first(), Some(Request::OpenChat { id: 7 })));
}

#[test]
fn escape_closes_search_before_context_menu() {
    let mut state = demo_state();
    state.open_search(SearchMode::Global);
    state.escape();
    assert!(!state.search_open());
    assert!(state.compose.context_menu.is_none());
}

#[test]
fn dialogs_from_a_valid_session_authenticate_the_app() {
    let mut state = demo_state();
    state.login.authenticated = false;
    state.on_message(UiMessage::Dialogs(vec![chat_row(42, "Chat", 0)]));
    assert!(state.login.authenticated, "existing session must skip the login screen");
}

#[test]
fn opening_a_chat_clears_messages_and_is_loading() {
    let mut state = demo_state();
    state.open_chat(7);
    assert_eq!(state.chat.open_chat, Some(7));
    assert!(state.chat.messages.is_empty());
    assert!(state.chat.loading, "opening a chat must set the loading flag");
    let reqs = drain(&mut state);
    assert_eq!(reqs.len(), 3, "open + mark-read + get-topics are sent to the network");
    assert!(matches!(reqs[0], Request::OpenChat { id: 7 }));
    assert!(matches!(reqs[1], Request::MarkRead { id: 7 }));
    assert!(matches!(reqs[2], Request::GetTopics { id: 7 }));
}

#[test]
fn messages_reply_clears_loading_and_populates_rows() {
    let mut state = demo_state();
    state.open_chat(7);
    assert!(state.chat.loading);
    state.on_message(UiMessage::Messages {
        id: 7,
        title: "Camille".into(),
        rows: vec![MsgRow::text(1, "hi".into(), 5, false)],
    });
    assert!(!state.chat.loading, "loading stops once history arrives");
    assert_eq!(state.chat.messages.len(), 1);
    assert!(state.view.scroll_to_bottom, "first history loads scroll to bottom");
    assert_eq!(state.chat.chat_title, "Camille");
}

#[test]
fn messages_for_a_different_chat_do_not_clear_loading() {
    let mut state = demo_state();
    state.open_chat(7);
    state.on_message(UiMessage::Messages { id: 8, title: "Other".into(), rows: vec![] });
    assert!(state.chat.loading, "a stale response must not clear loading");
    assert!(state.chat.messages.is_empty());
}

#[test]
fn loading_is_not_set_after_history_arrives() {
    let mut state = demo_state();
    state.open_chat(7);
    state.on_message(UiMessage::Messages {
        id: 7,
        title: "Camille".into(),
        rows: vec![MsgRow::text(1, "hi".into(), 5, true)],
    });
    state.on_message(UiMessage::Messages { id: 7, title: "Camille".into(), rows: vec![] });
    assert!(!state.chat.loading);
    assert!(state.chat.messages.is_empty());
}

fn seed_dialogs(state: &mut State) {
    state.on_message(UiMessage::Dialogs(vec![
        chat_row(1001, "Camille", 0),
        chat_row(1002, "Rust Group", 0),
        chat_row(1003, "Landscape Channel", 0),
    ]));
}

#[test]
fn create_modal_opens_with_contacts_and_cancels() {
    let mut state = demo_state();
    seed_dialogs(&mut state);

    state.toggle_create_menu();
    assert!(state.list.create_menu_open, "+ picker menu opens");
    state.open_create(CreateKind::Group);
    assert_eq!(state.create.create_dialog, Some(CreateKind::Group));
    assert!(!state.list.create_menu_open, "picker closes when the modal opens");
    assert_eq!(state.create.member_pick.len(), 3);
    assert!(state.create.member_pick.iter().all(|(_, _, on)| !on));

    state.create.create_title = "draft".into();
    state.escape();
    assert!(state.create.create_dialog.is_none());
    assert!(state.create.create_title.is_empty());
    assert!(state.create.member_pick.is_empty());
}

#[test]
fn submit_channel_sends_request_and_closes() {
    let mut state = demo_state();
    state.open_create(CreateKind::Channel);
    state.create.create_title = "  My Channel  ".into();
    state.create.create_about = "about it".into();
    state.submit_create();

    assert!(state.create.create_dialog.is_none(), "modal closes after submit");
    let reqs = drain(&mut state);
    assert!(
        matches!(
            reqs.last(),
            Some(Request::CreateChannel { title, about, megagroup: false, members })
                if title == "My Channel" && about == "about it" && members.is_empty()
        ),
        "expected CreateChannel request, got {reqs:?}"
    );

    state.open_create(CreateKind::Channel);
    state.submit_create();
    assert!(state.create.create_dialog.is_some());
    assert!(drain(&mut state).is_empty());
}

#[test]
fn submit_group_carries_checked_members() {
    let mut state = demo_state();
    seed_dialogs(&mut state);
    state.open_create(CreateKind::Group);
    state.toggle_member(0);
    state.toggle_member(2);
    state.create.create_title = "Team".into();
    state.submit_create();

    let reqs = drain(&mut state);
    match reqs.last() {
        Some(Request::CreateChannel { megagroup: true, members, .. }) => {
            assert_eq!(members, &[1001, 1003]);
        }
        other => panic!("expected group CreateChannel, got {other:?}"),
    }
}

fn group_detail(id: i64) -> ChatDetail {
    ChatDetail {
        id,
        title: "Rust Group".into(),
        kind: ChatKind::Group,
        username: None,
        bio: Some("Weekly reviews".into()),
        phone: None,
        members_count: Some(3),
        is_forum: false,
    }
}

#[test]
fn chat_created_opens_the_new_chat() {
    let mut state = demo_state();
    state.on_message(UiMessage::ChatCreated { id: 1006 });
    assert_eq!(state.chat.open_chat, Some(1006), "the new chat opens right away");
    assert!(state.chat.loading);
    let reqs = drain(&mut state);
    assert!(matches!(reqs.first(), Some(Request::OpenChat { id: 1006 })));
}

#[test]
fn chat_gone_closes_only_that_chat() {
    let mut state = demo_state();
    state.on_message(UiMessage::ChatGone { id: 7 });
    assert_eq!(state.chat.open_chat, Some(42));

    state.on_message(UiMessage::ChatGone { id: 42 });
    assert_eq!(state.chat.open_chat, None, "the open chat closes");
    assert!(state.chat.messages.is_empty());
}

#[test]
fn leave_and_delete_go_through_confirmation() {
    let mut state = demo_state();
    state.open_row_menu(42);
    assert_eq!(state.list.row_menu, Some(42));

    state.ask_confirm(ConfirmKind::Leave, 42);
    assert!(state.list.row_menu.is_none(), "row menu closes");
    assert_eq!(state.list.confirm_leave, Some((ConfirmKind::Leave, 42)));

    state.cancel_confirm();
    assert!(state.list.confirm_leave.is_none());
    assert!(drain(&mut state).is_empty());

    state.ask_confirm(ConfirmKind::Delete, 42);
    state.confirm_yes();
    let reqs = drain(&mut state);
    assert!(matches!(reqs.last(), Some(Request::DeleteChat { id: 42 })));
    assert!(state.list.confirm_leave.is_none());
}

#[test]
fn escape_closes_row_menu_before_other_overlays() {
    let mut state = demo_state();
    state.list.row_menu = Some(42);
    state.compose.editing = Some(2);
    state.escape();
    assert!(state.list.row_menu.is_none());
    assert_eq!(state.compose.editing, Some(2), "deeper overlays are untouched");
}

#[test]
fn info_panel_opens_and_requests_details() {
    let mut state = demo_state();
    assert!(!state.info.info_open);
    state.open_info();
    assert!(state.info.info_open, "panel open");
    let reqs = drain(&mut state);
    assert!(reqs.iter().any(|r| matches!(r, Request::GetChatInfo { id: 42 })));
    assert!(reqs.iter().any(|r| matches!(r, Request::GetParticipants { id: 42 })));
}

#[test]
fn chat_info_populates_panel_and_stale_is_ignored() {
    let mut state = demo_state();
    state.open_info();
    state.on_message(UiMessage::ChatInfo(group_detail(42)));
    assert_eq!(state.info.chat_info.as_ref().map(|d| d.id), Some(42));
    state.on_message(UiMessage::ChatInfo(group_detail(99)));
    assert_eq!(state.info.chat_info.as_ref().map(|d| d.id), Some(42));
}

fn part(id: i64, name: &str, role: ParticipantRole) -> ParticipantRow {
    ParticipantRow { id, name: name.into(), username: None, role }
}

#[test]
fn participants_kick_flow_with_inline_confirmation() {
    let mut state = demo_state();
    state.open_info();
    state.on_message(UiMessage::Participants(vec![
        part(2001, "Camille", ParticipantRole::Creator),
        part(2002, "Léo", ParticipantRole::Member),
    ]));
    assert_eq!(state.info.participants.len(), 2);

    state.kick(2002);
    assert_eq!(state.info.kick_confirm, Some(2002));
    drain(&mut state);

    state.kick_confirmed();
    let reqs = drain(&mut state);
    assert!(reqs.iter().any(|r| matches!(r, Request::KickParticipant { id: 42, user_id: 2002 })));
    assert_eq!(state.info.participants.len(), 2);

    state.on_message(UiMessage::ParticipantKicked { user_id: 2002 });
    assert_eq!(state.info.participants.len(), 1);
    assert_eq!(state.info.kick_confirm, None);

    state.kick(9999);
    assert_eq!(state.info.kick_confirm, None);
}

#[test]
fn admin_menu_hidden_on_owner_and_self() {
    let mut state = demo_state();
    state.open_info();
    state.on_message(UiMessage::Participants(vec![
        part(2001, "Member 2001", ParticipantRole::Creator),
        part(2002, "Member 2002", ParticipantRole::Member),
        part(2003, "Member 2003", ParticipantRole::Admin),
    ]));

    state.admin_open_menu(2001);
    assert_eq!(state.info.admin_menu, None, "the owner gets no menu");

    state.admin_open_menu(2003);
    assert_eq!(state.info.admin_menu, Some(2003));
    state.info.admin_menu = None;

    state.info.admin_self_id = Some(2002);
    state.admin_open_menu(2002);
    assert_eq!(state.info.admin_menu, None, "you get no menu on yourself");

    state.info.admin_self_id = None;
    state.admin_open_menu(2002);
    assert_eq!(state.info.admin_menu, Some(2002));
}

#[test]
fn admin_promote_and_demote_fire_immediately() {
    let mut state = demo_state();
    state.open_info();
    state.on_message(UiMessage::Participants(vec![
        part(2002, "Member 2002", ParticipantRole::Member),
        part(2003, "Member 2003", ParticipantRole::Admin),
    ]));

    state.admin_open_menu(2002);
    state.admin_action(2002, AdminAction::Promote);
    assert!(state.info.admin_menu.is_none(), "menu closes");
    assert!(drain(&mut state).iter().any(|r| matches!(r, Request::AdminPromote { id: 42, user_id: 2002 })));

    state.admin_open_menu(2003);
    state.admin_action(2003, AdminAction::Demote);
    assert!(drain(&mut state).iter().any(|r| matches!(r, Request::AdminDemote { id: 42, user_id: 2003 })));
}

#[test]
fn admin_ban_and_remove_go_through_inline_confirmation() {
    let mut state = demo_state();
    state.open_info();
    state.on_message(UiMessage::Participants(vec![part(2002, "Member 2002", ParticipantRole::Member)]));
    drain(&mut state);

    state.admin_open_menu(2002);
    state.admin_action(2002, AdminAction::Ban);
    assert_eq!(state.info.admin_confirm, Some((AdminConfirm::Ban, 2002)));
    assert!(drain(&mut state).is_empty());

    state.escape();
    assert_eq!(state.info.admin_confirm, None);
    assert!(drain(&mut state).is_empty());

    state.admin_open_menu(2002);
    state.admin_action(2002, AdminAction::Remove);
    assert_eq!(state.info.admin_confirm, Some((AdminConfirm::Remove, 2002)));
    state.admin_confirmed();
    assert!(drain(&mut state)
        .iter()
        .any(|r| matches!(r, Request::AdminBan { id: 42, user_id: 2002, kick_only: true })));
    assert_eq!(state.info.admin_confirm, None);

    state.admin_open_menu(2002);
    state.admin_action(2002, AdminAction::Ban);
    state.admin_confirmed();
    assert!(drain(&mut state)
        .iter()
        .any(|r| matches!(r, Request::AdminBan { id: 42, user_id: 2002, kick_only: false })));
}

#[test]
fn member_updated_refreshes_the_member_list() {
    let mut state = demo_state();
    state.open_info();
    drain(&mut state);

    state.on_message(UiMessage::MemberUpdated { chat_id: 42, user_id: 2002 });
    assert!(drain(&mut state).iter().any(|r| matches!(r, Request::GetParticipants { id: 42 })));

    state.on_message(UiMessage::MemberUpdated { chat_id: 99, user_id: 2002 });
    assert!(drain(&mut state).is_empty());
}

#[test]
fn escape_closes_admin_menu_before_the_info_panel() {
    let mut state = demo_state();
    state.open_info();
    state.on_message(UiMessage::Participants(vec![part(2002, "Member 2002", ParticipantRole::Member)]));
    state.admin_open_menu(2002);

    state.escape();
    assert_eq!(state.info.admin_menu, None);
    assert!(state.info.info_open, "only the menu closes first");

    state.escape();
    assert!(!state.info.info_open);
}

#[test]
fn member_self_id_hides_admin_actions_on_yourself() {
    let mut state = demo_state();
    assert_eq!(state.info.admin_self_id, None);
    state.on_message(UiMessage::MemberSelfId { id: 2002 });
    assert_eq!(state.info.admin_self_id, Some(2002));
}

#[test]
fn toggle_mute_flips_and_sends() {
    let mut state = demo_state();
    assert!(!state.info.muted);
    state.toggle_mute();
    assert!(state.info.muted);
    state.toggle_mute();
    assert!(!state.info.muted);
    let reqs = drain(&mut state);
    assert_eq!(reqs.iter().filter(|r| matches!(r, Request::SetMuted { id: 42, .. })).count(), 2);
}

#[test]
fn switching_chats_resets_the_info_panel() {
    let mut state = demo_state();
    state.open_info();
    state.on_message(UiMessage::ChatInfo(group_detail(42)));
    state.on_message(UiMessage::Participants(vec![part(2001, "Camille", ParticipantRole::Creator)]));
    state.kick(2001);
    assert!(state.info.info_open && !state.info.participants.is_empty());
    assert!(!state.info.muted);

    state.toggle_mute();
    state.info.muted = true;
    state.open_chat(43);
    assert!(!state.info.info_open, "panel closed on chat switch");
    assert!(state.info.chat_info.is_none(), "stale detail dropped");
    assert!(state.info.participants.is_empty(), "stale members dropped");
    assert_eq!(state.info.kick_confirm, None);
    assert!(!state.info.muted, "mute flag is per-chat");
    assert_eq!(state.chat.pinned_id, None);
}

#[test]
fn escape_closes_kick_confirm_then_info_panel() {
    let mut state = demo_state();
    state.open_info();
    state.on_message(UiMessage::Participants(vec![part(2001, "Camille", ParticipantRole::Creator)]));
    state.kick(2001);

    state.escape();
    assert_eq!(state.info.kick_confirm, None);
    assert!(state.info.info_open, "panel must stay open");

    state.escape();
    assert!(!state.info.info_open);
}

#[test]
fn close_chat_clears_the_info_panel() {
    let mut state = demo_state();
    state.prefs.persist_ui = false;
    state.open_info();
    state.on_message(UiMessage::ChatInfo(group_detail(42)));
    state.close_chat();
    assert!(!state.info.info_open);
    assert!(state.info.chat_info.is_none());
    assert!(state.info.participants.is_empty());
    assert!(state.info.kick_confirm.is_none());
}

#[test]
fn copy_username_returns_at_prefixed_handle() {
    let mut state = demo_state();
    state.open_info();
    assert_eq!(state.copy_username(), None, "no info yet");
    state.on_message(UiMessage::ChatInfo(ChatDetail {
        id: 42,
        title: "Camille".into(),
        kind: ChatKind::User,
        username: Some("camille_dev".into()),
        bio: None,
        phone: None,
        members_count: None,
        is_forum: false,
    }));
    assert_eq!(state.copy_username().as_deref(), Some("@camille_dev"));
}

#[test]
fn emoji_panel_toggles_and_escape_closes_it_first() {
    let mut state = demo_state();
    assert!(!state.compose.emoji_panel_open);
    state.toggle_emoji_panel();
    assert!(state.compose.emoji_panel_open);
    state.toggle_emoji_panel();
    assert!(!state.compose.emoji_panel_open);

    state.toggle_emoji_panel();
    state.open_context(0);
    state.escape();
    assert!(!state.compose.emoji_panel_open, "panel must close first");
    assert!(state.compose.context_menu.is_some(), "menu must stay open");
    state.escape();
    assert!(state.compose.context_menu.is_none());
}

#[test]
fn emoji_pick_appends_to_composer_and_dedups_recents() {
    let mut state = demo_state();
    assert!(state.prefs.emoji_recents.is_empty());

    state.compose.composer.push_str("hi ");
    state.pick_emoji("😀".into());
    state.pick_emoji("🎉".into());
    assert_eq!(state.compose.composer, "hi 😀🎉");
    assert_eq!(state.prefs.emoji_recents, vec!["🎉".to_string(), "😀".to_string()]);

    state.pick_emoji("😀".into());
    assert_eq!(state.prefs.emoji_recents, vec!["😀".to_string(), "🎉".to_string()]);
}

#[test]
fn emoji_recents_are_capped_at_max() {
    let mut state = demo_state();
    for i in 0..30 {
        state.pick_emoji(format!("e{i}"));
    }
    assert_eq!(state.prefs.emoji_recents.len(), EMOJI_RECENTS_MAX);
    assert_eq!(state.prefs.emoji_recents[0], "e29");
    assert_eq!(state.prefs.emoji_recents[EMOJI_RECENTS_MAX - 1], "e6");
}

#[test]
fn theme_defaults_to_dark_and_toggle_flips_palette() {
    let mut state = demo_state();
    assert_eq!(state.prefs.theme_mode, ThemeMode::Dark);
    assert_eq!(LIST_BG(state.prefs.theme_mode), (23, 33, 43));

    state.toggle_theme();
    assert_eq!(state.prefs.theme_mode, ThemeMode::Light);
    assert_eq!(LIST_BG(state.prefs.theme_mode), (255, 255, 255));
    assert_eq!(TEXT_PRIMARY(state.prefs.theme_mode), (0, 0, 0));
    assert_eq!(BUBBLE_SENT(state.prefs.theme_mode), (238, 255, 222));

    state.toggle_theme();
    assert_eq!(state.prefs.theme_mode, ThemeMode::Dark);
    assert_eq!(LIST_BG(state.prefs.theme_mode), (23, 33, 43));
}

#[test]
fn sticker_picker_opens_and_requests_sets_once() {
    let mut state = demo_state();
    assert!(!state.compose.sticker_picker_open);
    state.toggle_sticker_picker();
    assert!(state.compose.sticker_picker_open);
    let reqs = drain(&mut state);
    assert!(matches!(reqs.last(), Some(Request::GetStickerSets)), "expected GetStickerSets, got {reqs:?}");
    state.escape();
    assert!(!state.compose.sticker_picker_open, "Escape closes the picker");
    state.media.sticker_sets = vec![StickerSetBridge {
        title: "Happy Blocks".into(),
        short_name: "happy_blocks".into(),
        docs: vec![(900_000_000, 42, "🎉".to_string())],
    }];
    state.toggle_sticker_picker();
    let reqs = drain(&mut state);
    assert!(!reqs.iter().any(|r| matches!(r, Request::GetStickerSets)));
    state.open_chat(43);
    assert!(!state.compose.sticker_picker_open);
    assert_eq!(state.media.sticker_sets.len(), 1, "sets are global");
}

#[test]
fn sticker_sets_arrive_and_pick_sends_request() {
    let mut state = demo_state();
    state.toggle_sticker_picker();
    drain(&mut state);
    state.on_message(UiMessage::StickerSets(vec![StickerSetBridge {
        title: "Happy Blocks".into(),
        short_name: "happy_blocks".into(),
        docs: vec![(900_000_001, 11, "🎉".to_string()), (900_000_002, 22, "⭐".to_string())],
    }]));
    assert_eq!(state.media.sticker_sets.len(), 1);

    state.send_sticker(0, 1);
    let reqs = drain(&mut state);
    assert!(matches!(
        reqs.last(),
        Some(Request::SendSticker { id: 42, doc_id: 900_000_002, access_hash: 22 })
    ));
    assert!(!state.compose.sticker_picker_open, "picker closes on send");
    let last = state.chat.messages.last().expect("optimistic row");
    assert_eq!(last.id, 0);
    assert_eq!(last.sticker.as_ref().map(|s| s.alt.as_str()), Some("⭐"));

    state.on_message(UiMessage::NewMessage {
        chat_id: 42,
        id: 777,
        text: String::new(),
        date: 500,
        out: true,
        photo: None,
        doc: None,
        sticker: Some(StickerMeta { alt: "⭐".into() }),
        reply_to: None,
        forwarded_from: None,
        sender_name: None,
        sender_id: None,
    });
    assert!(!state.chat.messages.iter().any(|m| m.id == 0), "optimistic row merged");
    let merged = state.chat.messages.iter().find(|m| m.id == 777).expect("echo row");
    assert_eq!(merged.sticker.as_ref().map(|s| s.alt.as_str()), Some("⭐"));
    let reqs = drain(&mut state);
    assert!(matches!(reqs.last(), Some(Request::DownloadSticker { chat_id: 42, msg_id: 777 })));

    state.on_message(UiMessage::StickerPathReady {
        chat_id: 42,
        msg_id: 777,
        path: Some("/tmp/sticker.webp".into()),
    });
    let with_path = state.chat.messages.iter().find(|m| m.id == 777).unwrap();
    assert_eq!(with_path.sticker_path.as_deref(), Some("/tmp/sticker.webp"));
}

#[test]
fn incoming_sticker_updates_dialog_preview_and_row() {
    let mut state = demo_state();
    state.on_message(UiMessage::NewMessage {
        chat_id: 42,
        id: 900,
        text: String::new(),
        date: 600,
        out: false,
        photo: None,
        doc: None,
        sticker: Some(StickerMeta { alt: "🎉".into() }),
        reply_to: None,
        forwarded_from: None,
        sender_name: None,
        sender_id: None,
    });
    let row = state.chat.messages.iter().find(|m| m.id == 900).expect("row pushed");
    assert_eq!(row.sticker.as_ref().map(|s| s.alt.as_str()), Some("🎉"));
    assert!(row.doc.is_none(), "stickers are not document cards");
    assert!(preview_text("", &None, &None, &row.sticker).contains("🎉"));
}

#[test]
fn settings_open_close_requests_profile_and_sessions() {
    let mut state = demo_state();
    state.open_settings(1234);
    assert!(state.settings.settings_open);
    assert_eq!(state.settings.cache_bytes, Some(1234), "cache measured on open");
    let reqs = drain(&mut state);
    assert!(reqs.iter().any(|r| matches!(r, Request::GetMe)));
    assert!(reqs.iter().any(|r| matches!(r, Request::GetSessions)));
    state.close_settings();
    assert!(!state.settings.settings_open);
}

#[test]
fn settings_survives_chat_switches() {
    let mut state = demo_state();
    state.open_settings(0);
    state.open_chat(43);
    assert!(state.settings.settings_open, "settings is global, not chat-scoped");
}

#[test]
fn settings_tabs_switch() {
    let mut state = demo_state();
    assert_eq!(state.settings.settings_tab, SettingsTab::Profile);
    state.set_settings_tab(SettingsTab::Storage);
    assert_eq!(state.settings.settings_tab, SettingsTab::Storage);
    state.set_settings_tab(SettingsTab::Sessions);
    assert_eq!(state.settings.settings_tab, SettingsTab::Sessions);
}

#[test]
fn profile_echo_seeds_edit_inputs_once() {
    let mut state = demo_state();
    state.on_message(UiMessage::MyProfile(MyProfile {
        name: "Demo User".into(),
        last_name: Some("User".into()),
        username: Some("demo_user".into()),
        phone: Some("+33612345678".into()),
        bio: Some("Hello".into()),
    }));
    assert_eq!(state.settings.edit_name, "Demo");
    assert_eq!(state.settings.edit_last_name, "User");
    assert_eq!(state.settings.edit_bio, "Hello");
    state.settings.edit_name = "Typed".into();
    state.on_message(UiMessage::MyProfile(MyProfile {
        name: "Demo User".into(),
        last_name: Some("User".into()),
        username: None,
        phone: None,
        bio: None,
    }));
    assert_eq!(state.settings.edit_name, "Typed");
    assert_eq!(state.settings.my_profile.as_ref().unwrap().name, "Demo User");
}

#[test]
fn profile_update_request_shape() {
    let mut state = demo_state();
    state.settings.edit_name = "  Alice  ".into();
    state.settings.edit_last_name = "  Smith  ".into();
    state.settings.edit_bio = "  Rust dev  ".into();
    state.submit_profile_edit();
    let reqs = drain(&mut state);
    assert!(
        reqs.iter().any(|r| matches!(
            r,
            Request::UpdateProfile { first_name: Some(f), last_name: Some(l), bio: Some(b) }
                if f == "Alice" && l == "Smith" && b == "Rust dev"
        )),
        "expected trimmed UpdateProfile request, got {reqs:?}"
    );
    state.settings.edit_name = "   ".into();
    state.submit_profile_edit();
    assert!(drain(&mut state).is_empty());
}

fn session(device: &str, current: bool, hash: i64) -> SessionInfo {
    SessionInfo {
        device: device.into(),
        platform: "Linux".into(),
        country: "France".into(),
        current,
        hash,
    }
}

#[test]
fn sessions_arrive_and_revoke_removes_row() {
    let mut state = demo_state();
    state.open_settings(0);
    drain(&mut state);
    state.on_message(UiMessage::Sessions(vec![session("This device", true, 111), session("iPhone", false, 222)]));
    assert_eq!(state.settings.sessions.len(), 2);
    state.revoke_session(222);
    assert!(drain(&mut state).iter().any(|r| matches!(r, Request::RevokeSession { hash: 222 })));
    assert_eq!(state.settings.sessions.len(), 2);
    state.on_message(UiMessage::SessionRevoked { hash: 222 });
    assert_eq!(state.settings.sessions.len(), 1);
    assert_eq!(state.settings.sessions[0].hash, 111);
}

#[test]
fn clear_cache_confirmation_flow() {
    let mut state = demo_state();
    state.ask_clear_cache();
    assert!(state.settings.confirm_clear_cache);
    state.cancel_clear_cache();
    assert!(drain(&mut state).is_empty());
    state.ask_clear_cache();
    state.confirm_clear_cache_now();
    let reqs = drain(&mut state);
    assert!(reqs.iter().any(|r| matches!(r, Request::ClearCache)));
    assert!(!state.settings.confirm_clear_cache);
    state.on_message(UiMessage::CacheCleared { bytes: 0 });
    assert_eq!(state.settings.cache_bytes, Some(0));
    assert!(!state.settings.confirm_clear_cache);
    state.confirm_clear_cache_now();
    assert!(drain(&mut state).is_empty());
}

#[test]
fn logout_confirmation_flow() {
    let mut state = demo_state();
    state.ask_logout();
    assert!(state.settings.confirm_logout);
    state.cancel_logout();
    assert!(drain(&mut state).is_empty());
    state.ask_logout();
    state.confirm_logout_now();
    let reqs = drain(&mut state);
    assert!(reqs.iter().any(|r| matches!(r, Request::LogOut)));
    assert!(!state.settings.confirm_logout);
    state.confirm_logout_now();
    assert!(drain(&mut state).is_empty());
}

#[test]
fn logged_out_resets_to_sign_in() {
    let mut state = demo_state();
    state.on_message(UiMessage::Dialogs(vec![ChatRow {
        id: 42,
        title: "Camille".into(),
        subtitle: "Hello!".into(),
        date: 100,
        unread: 1,
        avatar_path: None,
    }]));
    state.on_message(UiMessage::Messages {
        id: 42,
        title: "Camille".into(),
        rows: vec![MsgRow::text(1, "incoming".into(), 100, false)],
    });
    state.settings.my_profile = Some(MyProfile { name: "Demo User".into(), ..MyProfile::default() });
    state.settings.sessions.push(session("This device", true, 111));
    state.settings.settings_open = true;
    state.settings.settings_tab = SettingsTab::Sessions;
    state.settings.edit_name = "Demo".into();
    state.search.search_mode = Some(SearchMode::Global);
    state.search.search_query = "rust".into();
    state.compose.reply_target = Some(ReplyTarget { msg_id: 1, snippet: "s".into() });
    let epoch_before = state.chat.layout_epoch;

    state.on_message(UiMessage::LoggedOut);

    assert!(!state.login.authenticated);
    assert_eq!(state.login.login_step, LoginStep::Phone);
    assert!(state.login.login_input.is_empty());
    assert!(state.list.dialogs.is_empty());
    assert!(state.chat.messages.is_empty());
    assert_eq!(state.chat.open_chat, None);
    assert!(state.chat.chat_title.is_empty());
    assert!(!state.chat.loading);
    assert!(state.list.dialog_short.is_empty());
    assert!(state.compose.context_menu.is_none());
    assert!(state.compose.composer.is_empty());
    assert!(state.view.viewer.is_none());
    assert!(state.compose.reply_target.is_none());
    assert!(!state.info.info_open);
    assert!(state.info.chat_info.is_none());
    assert!(state.info.participants.is_empty());
    assert!(state.search.search_mode.is_none());
    assert!(state.search.search_query.is_empty());
    assert!(state.search.search_hits.is_empty());
    assert!(state.settings.my_profile.is_none());
    assert!(state.settings.sessions.is_empty());
    assert!(!state.settings.settings_open);
    assert_eq!(state.settings.settings_tab, SettingsTab::Profile);
    assert!(state.settings.edit_name.is_empty());
    assert_ne!(state.chat.layout_epoch, epoch_before, "layout cache invalidated");
    let theme_before = state.prefs.theme_mode;
    state.on_message(UiMessage::LoggedOut);
    assert_eq!(state.prefs.theme_mode, theme_before, "theme survives logout");
}

#[test]
fn notifications_flip_updates_shared_flag_and_persists() {
    // A missing file reads as the empty content: enabled.
    assert!(parse_notifications(""), "missing file = enabled");
    assert!(!parse_notifications(notifications_marker(false)));
    assert!(parse_notifications(notifications_marker(true)));

    let mut state = demo_state();
    assert!(state.prefs.notifications_on);
    state.toggle_notifications();
    assert!(!state.prefs.notifications_on);
    state.toggle_notifications();
    assert!(state.prefs.notifications_on);
}

#[test]
fn escape_closes_settings_before_context_menu() {
    let mut state = demo_state();
    state.open_settings(0);
    state.compose.context_menu = Some(ContextMenu { row: 0 });
    state.escape();
    assert!(!state.settings.settings_open);
    assert!(state.compose.context_menu.is_some(), "settings closes first; menu untouched");
    state.escape();
    assert!(state.compose.context_menu.is_none());
}

/// A forum chat (id 1002): topics loaded, a history with a thread rooted
/// at 20 and one general row, no topic selected.
fn forum_state() -> State {
    let mut state = State::new();
    state.login.authenticated = true;
    state.chat.open_chat = Some(1002);
    state.topics.topic_is_forum = true;
    state.topics.topic_topics = vec![
        TopicRow { id: 20, root_msg_id: 20, title: "Announcements".into(), icon_color: 0 },
        TopicRow { id: 30, root_msg_id: 30, title: "PR review".into(), icon_color: 1 },
    ];
    let mut reply = MsgRow::text(21, "in the thread".into(), 110, false);
    reply.reply_to = Some(20);
    state.chat.topic_all_messages = vec![
        MsgRow::text(20, "topic root".into(), 100, false),
        reply,
        MsgRow::text(50, "general row".into(), 120, false),
    ];
    // No topic selected: the visible list is the whole history.
    state.chat.messages = vec![
        MsgRow::text(20, "topic root".into(), 100, false),
        state.chat.topic_all_messages[1].duplicate(),
        MsgRow::text(50, "general row".into(), 120, false),
    ];
    state
}

#[test]
fn topic_chips_visible_only_for_loaded_forum_topics() {
    let mut state = forum_state();
    assert!(state.topic_bar_visible());
    state.topics.topic_is_forum = false;
    assert!(!state.topic_bar_visible());
    state.topics.topic_is_forum = true;
    state.topics.topic_topics.clear();
    assert!(!state.topic_bar_visible());
}

#[test]
fn topic_selection_filters_the_visible_list() {
    let mut state = forum_state();
    assert_eq!(state.chat.messages.len(), 3, "All messages shows everything");

    state.topic_select(Some(20));
    assert_eq!(state.chat.messages.iter().map(|m| m.id).collect::<Vec<_>>(), vec![20, 21]);
    assert_eq!(state.chat.topic_all_messages.len(), 3);

    state.topic_select(None);
    assert_eq!(state.chat.messages.len(), 3);

    state.topic_select(Some(30));
    assert!(state.chat.messages.is_empty());
}

#[test]
fn topic_create_flow_validates_and_echoes() {
    let mut state = forum_state();
    state.topic_open_create();
    assert!(state.topics.topic_creating);

    state.topic_submit_create();
    assert!(drain(&mut state).is_empty());
    assert!(state.topics.topic_creating, "invalid input keeps the field open");

    state.topics.topic_title = "  Release  ".into();
    state.topic_submit_create();
    let reqs = drain(&mut state);
    assert!(
        reqs.iter().any(|r| matches!(r, Request::CreateTopic { id: 1002, title } if title.as_str() == "Release")),
        "expected CreateTopic, got {reqs:?}"
    );

    state.on_message(UiMessage::TopicCreated {
        chat_id: 1002,
        topic: TopicRow { id: 60, root_msg_id: 60, title: "Release".into(), icon_color: 3 },
    });
    assert_eq!(state.topics.topic_topics.len(), 3);
    assert_eq!(state.topics.topic_selected, Some(60));
    assert!(!state.topics.topic_creating);
    assert!(state.topics.topic_title.is_empty());
}

#[test]
fn topic_composer_routes_plain_posts_into_the_thread() {
    let mut state = forum_state();
    state.topic_select(Some(20));
    state.compose.composer = "hello thread".into();
    state.submit();
    let reqs = drain(&mut state);
    assert!(
        reqs.iter().any(|r| matches!(r, Request::SendTopicMessage { id: 1002, topic_root: 20, .. })),
        "expected SendTopicMessage, got {reqs:?}"
    );
    assert!(state.chat.messages.iter().any(|m| m.id == 0 && m.text == "hello thread"));
    assert!(state.chat.topic_all_messages.iter().any(|m| m.id == 0));

    let mut echo = new_message(1002, 70, "hello thread", 130, true);
    if let UiMessage::NewMessage { reply_to, .. } = &mut echo {
        *reply_to = Some(20);
    }
    state.on_message(echo);
    assert!(state.chat.messages.iter().all(|m| m.id != 0), "row deduped");
    assert!(state.chat.topic_all_messages.iter().all(|m| m.id != 0));
    assert_eq!(state.chat.messages.iter().find(|m| m.id == 70).map(|m| m.reply_to), Some(Some(20)));

    state.topic_select(None);
    state.compose.composer = "general".into();
    state.submit();
    let reqs = drain(&mut state);
    assert!(reqs.iter().any(|r| matches!(r, Request::SendMessage { id: 1002, .. })));
    assert!(!reqs.iter().any(|r| matches!(r, Request::SendTopicMessage { .. })));
}

#[test]
fn topic_state_resets_on_chat_switch() {
    let mut state = forum_state();
    state.topic_select(Some(20));
    state.topic_open_create();
    state.topics.topic_title = "half typed".into();

    state.open_chat(1004);
    assert_eq!(state.topics.topic_selected, None);
    assert!(!state.topics.topic_is_forum);
    assert!(state.topics.topic_topics.is_empty());
    assert!(!state.topics.topic_creating);
    assert!(state.topics.topic_title.is_empty());
    assert!(state.chat.topic_all_messages.is_empty());
    let reqs = drain(&mut state);
    assert!(reqs.iter().any(|r| matches!(r, Request::GetTopics { id: 1004 })));
}

#[test]
fn topic_new_message_outside_the_selection_stays_out_of_the_view() {
    let mut state = forum_state();
    state.topic_select(Some(20));
    state.on_message(new_message(1002, 80, "general arrival", 140, false));
    assert!(state.chat.topic_all_messages.iter().any(|m| m.id == 80));
    assert!(state.chat.messages.iter().all(|m| m.id != 80));

    state.topic_select(None);
    assert!(state.chat.messages.iter().any(|m| m.id == 80));
}

#[test]
fn escape_closes_the_topic_create_field_before_other_overlays() {
    let mut state = forum_state();
    state.topic_open_create();
    state.info.info_open = true;
    state.escape();
    assert!(!state.topics.topic_creating, "the create field closes first");
    assert!(state.info.info_open, "only the topic field closed");
    state.escape();
    assert!(!state.info.info_open);
}

// ---------------------------------------------------------------------------
// Shell-level decisions
// ---------------------------------------------------------------------------

#[test]
fn typing_notices_follow_the_composer() {
    let mut state = demo_state();
    state.composer_changed("h".into());
    assert!(matches!(drain(&mut state).as_slice(), [Request::Typing { id: 42, typing: true }]));
    state.composer_changed("hi".into());
    drain(&mut state);
    state.submit_key();
    let reqs = drain(&mut state);
    assert!(matches!(reqs[0], Request::Typing { id: 42, typing: false }));
    assert!(matches!(&reqs[1], Request::SendMessage { id: 42, text, reply_to: None } if text == "hi"));
}

#[test]
fn login_steps_submit_and_go_back() {
    let mut state = State::new();
    state.login.login_input = " +33 6 ".into();
    state.submit_login();
    assert!(matches!(drain(&mut state).as_slice(), [Request::LoginPhone { phone }] if phone == "+33 6"));
    assert!(state.login.login_input.is_empty());
    state.submit_login();
    assert!(drain(&mut state).is_empty(), "a blank input is not submitted");

    state.on_message(UiMessage::LoginCodeRequired);
    assert_eq!(state.login.login_step, LoginStep::Code);
    assert_eq!(state.status, "Enter the code received by Telegram");
    state.on_message(UiMessage::LoginPasswordRequired { hint: "cat".into() });
    assert_eq!(state.login.login_step, LoginStep::Password);
    assert_eq!(state.status, "Two-step verification (hint: cat)");
    state.login.login_input = " secret ".into();
    state.submit_login();
    assert!(matches!(drain(&mut state).as_slice(), [Request::LoginPassword { password }] if password == " secret "));

    state.login_back();
    assert_eq!(state.login.login_step, LoginStep::Code);
    state.login_back();
    assert_eq!(state.login.login_step, LoginStep::Phone);

    state.on_message(UiMessage::LoginPasswordRequired { hint: String::new() });
    assert_eq!(state.status, "Enter your two-step verification password");
    state.on_message(UiMessage::Error("boom".into()));
    assert!(state.login.login_error);
    assert_eq!(state.status, "boom");
}

#[test]
fn login_ok_counts_the_known_chats() {
    let mut state = State::new();
    state.on_message(UiMessage::Dialogs(vec![chat_row(1, "A", 0), chat_row(2, "B", 0)]));
    state.on_message(UiMessage::LoginOk { name: "Ann".into() });
    assert_eq!(state.status, "Signed in as Ann — 2 chats");
}

#[test]
fn qr_pane_switch_queues_the_session_requests() {
    let mut state = State::new();
    state.toggle_login_pane();
    assert!(state.login.login_qr_selected);
    assert_eq!(state.login.qr_stage, QrStage::AwaitingScan);
    assert!(matches!(drain(&mut state).as_slice(), [Request::QrLoginStart]));
    state.toggle_login_pane();
    assert!(matches!(drain(&mut state).as_slice(), [Request::QrLoginCancel]));
    state.qr_cancel();
    assert!(matches!(drain(&mut state).as_slice(), [Request::QrLoginCancel]));
}

#[test]
fn voice_notes_download_then_play() {
    let mut state = demo_state();
    state.voice_clicked(42, 1, "/tmp/v.ogg".into());
    assert!(matches!(drain(&mut state).as_slice(), [Request::DownloadDoc { chat_id: 42, msg_id: 1 }]));
    state.chat.messages[0].doc_path = Some("/tmp/v.ogg".into());
    state.voice_clicked(42, 1, "/tmp/v.ogg".into());
    assert_eq!(state.media.voice_request, Some((42, 1, "/tmp/v.ogg".to_string())));
}

#[test]
fn voice_click_plays_pauses_resumes_and_restarts() {
    let mut state = demo_state();
    let p = "/tmp/v.ogg".to_string();
    assert_eq!(state.voice_click(42, 1, p.clone(), false), VoiceAction::Play(p.clone()));
    assert_eq!(state.media.playing_voice, Some((42, 1, p.clone())));
    state.voice_started(p.clone(), true, true);
    assert!(state.media.voice_playing);
    assert_eq!(state.voice_click(42, 1, p.clone(), true), VoiceAction::Pause);
    assert!(!state.media.voice_playing);
    assert_eq!(state.voice_click(42, 1, p.clone(), true), VoiceAction::Resume);
    assert!(state.media.voice_playing);
    // The device let go of the note (it finished): the same click restarts it.
    assert_eq!(state.voice_click(42, 1, p.clone(), false), VoiceAction::Restart(p.clone()));
    // Another note switches.
    assert_eq!(state.voice_click(42, 2, "/tmp/w.ogg".into(), true), VoiceAction::Play("/tmp/w.ogg".into()));
    assert_eq!(state.media.playing_voice, Some((42, 2, "/tmp/w.ogg".to_string())));
}

#[test]
fn undecodable_ogg_falls_back_to_the_system_player() {
    let mut state = demo_state();
    let p = "/tmp/v.ogg".to_string();
    state.voice_click(42, 1, p.clone(), false);
    state.voice_started(p.clone(), false, true);
    assert_eq!(state.view.open_file, Some(p.clone()));
    assert_eq!(state.status, "Opening with the system player…");
    assert!(state.media.voice_sim && state.media.voice_playing);
    // A second click stops the simulation.
    assert_eq!(state.voice_click(42, 1, p.clone(), false), VoiceAction::Stop);
    assert_eq!(state.media.playing_voice, None);
    assert!(!state.media.voice_sim && !state.media.voice_playing);
}

#[test]
fn undecodable_non_ogg_just_does_not_play() {
    let mut state = demo_state();
    let p = "/tmp/v.mp3".to_string();
    state.voice_click(42, 1, p.clone(), false);
    state.voice_started(p, false, false);
    assert!(!state.media.voice_playing && !state.media.voice_sim);
    assert_eq!(state.view.open_file, None);
}

#[test]
fn voice_tick_ends_finished_and_expired_notes() {
    let mut state = demo_state();
    let p = "/tmp/v.ogg".to_string();
    assert!(!state.voice_tick(true, true, true), "nothing plays: nothing to release");
    state.voice_click(42, 1, p.clone(), false);
    state.voice_started(p.clone(), true, false);
    assert!(!state.voice_tick(true, false, true));
    assert!(state.media.playing_voice.is_some());
    assert!(state.voice_tick(true, true, false));
    assert_eq!(state.media.playing_voice, None);
    // Simulated playback ends once past its duration.
    state.voice_click(42, 1, p.clone(), false);
    state.voice_started(p, false, true);
    assert!(!state.voice_tick(false, false, false));
    assert!(state.media.voice_sim);
    assert!(!state.voice_tick(false, false, true));
    assert_eq!(state.media.playing_voice, None);
    assert!(!state.media.voice_sim);
}

#[test]
fn downloaded_voice_note_starts_and_opening_a_chat_stops_audio() {
    let mut state = demo_state();
    state.chat.messages[0].doc = Some(app_iced::bridge::DocMeta {
        name: "voice.ogg".into(),
        size: 10,
        kind: app_iced::bridge::DocKind::Audio { voice: true },
    });
    state.on_message(UiMessage::DocReady { chat_id: 42, msg_id: 1, path: Some("/tmp/v.ogg".into()) });
    assert_eq!(state.media.playing_voice, Some((42, 1, "/tmp/v.ogg".to_string())));
    assert_eq!(state.media.voice_start, Some("/tmp/v.ogg".to_string()));
    state.open_chat(7);
    assert!(state.media.audio_stop);
    assert_eq!(state.media.playing_voice, None);
}

#[test]
fn escape_key_closes_the_viewer_before_overlays() {
    let mut state = demo_state();
    state.view.viewer = Some("/tmp/p.jpg".into());
    state.toggle_emoji_panel();
    state.escape_key();
    assert!(state.view.viewer.is_none());
    assert!(state.compose.emoji_panel_open, "the panel stays for the next Escape");
    state.escape_key();
    assert!(!state.compose.emoji_panel_open);
}

#[test]
fn missing_files_are_reported() {
    let mut state = demo_state();
    state.file_picked("/nope.png".into(), false, true, "nope.png".into());
    assert_eq!(state.status, "File not found: /nope.png");
    assert!(drain(&mut state).is_empty());
}

#[test]
fn bare_www_links_get_a_scheme() {
    assert_eq!(open_url_target("www.rust-lang.org"), "https://www.rust-lang.org");
    assert_eq!(open_url_target("http://a.io"), "http://a.io");
    assert_eq!(open_url_target("ww"), "ww");
}

#[test]
fn fresh_state_is_signed_out_and_empty() {
    let state = State::new();
    assert!(!state.login.authenticated);
    assert!(state.outbox.is_empty());
    assert_eq!(state.prefs.theme_mode, ThemeMode::Dark);
    assert!(state.prefs.notifications_on);
    assert_eq!(state.media.next_media_token, 1);
}

#[test]
fn persist_ui_restores_what_was_read_back() {
    let state = State::new().with_persist_ui(true, Some(7), vec!["😀".into()], false, ThemeMode::Light);
    assert!(state.prefs.persist_ui);
    assert_eq!(state.list.initial_chat, Some(7));
    assert_eq!(state.prefs.emoji_recents, vec!["😀".to_string()]);
    assert!(!state.prefs.notifications_on);
    assert_eq!(state.prefs.theme_mode, ThemeMode::Light);
}

#[test]
fn persist_ui_off_restores_nothing() {
    let state = State::new().with_persist_ui(false, Some(7), vec!["😀".into()], false, ThemeMode::Light);
    assert!(!state.prefs.persist_ui);
    assert_eq!(state.list.initial_chat, None);
    assert!(state.prefs.emoji_recents.is_empty());
    assert!(state.prefs.notifications_on);
    assert_eq!(state.prefs.theme_mode, ThemeMode::Dark);
}

#[test]
fn auto_open_first_opens_the_first_chat_when_no_last_chat() {
    let mut state = State::new().with_auto_open_first(true);
    state.on_message(UiMessage::Dialogs(vec![chat_row(1, "A", 0), chat_row(2, "B", 0)]));
    state.restore_after_dialogs();
    assert_eq!(state.chat.open_chat, Some(1));
}

#[test]
fn info_subtitle_follows_the_chat_kind() {
    let mut state = demo_state();
    assert_eq!(state.info_subtitle(), "");
    let mut d = group_detail(42);
    d.members_count = Some(12);
    state.info.chat_info = Some(d.clone());
    assert_eq!(state.info_subtitle(), "12 members");
    d.members_count = None;
    state.info.chat_info = Some(d.clone());
    assert_eq!(state.info_subtitle(), "");
    d.kind = ChatKind::User;
    state.info.chat_info = Some(d.clone());
    assert_eq!(state.info_subtitle(), "online");
    d.kind = ChatKind::Bot;
    state.info.chat_info = Some(d);
    assert_eq!(state.info_subtitle(), "bot");
}

#[test]
fn context_menu_counts_edit_and_copy_entries() {
    let mut state = demo_state();
    state.open_context(1);
    assert_eq!(state.context_menu_items(), 7, "own text message: edit twice and copy");
    state.dismiss_menu();
    state.open_context(0);
    assert_eq!(state.context_menu_items(), 5, "incoming text: copy only");
    state.dismiss_menu();
    state.chat.messages[0].text = String::new();
    state.open_context(0);
    assert_eq!(state.context_menu_items(), 4);
}

#[test]
fn voice_pause_then_resume_gives_back_the_playing_note() {
    let mut state = demo_state();
    let p = "/tmp/v.ogg".to_string();
    state.voice_click(42, 1, p.clone(), false);
    state.voice_started(p.clone(), true, false);
    let playing = state.media.playing_voice.clone();
    assert_eq!(state.voice_click(42, 1, p.clone(), true), VoiceAction::Pause);
    assert_eq!(state.voice_click(42, 1, p.clone(), true), VoiceAction::Resume);
    assert_eq!(state.media.playing_voice, playing);
    assert!(state.media.voice_playing);
}

#[test]
fn list_labels_follow_the_rows_through_updates() {
    let mut state = demo_state();
    state.on_message(UiMessage::Dialogs(vec![
        chat_row(7, "A very long chat title here", 0),
        chat_row(8, "Short", 2),
    ]));
    assert!(state.login.authenticated);
    assert_eq!(state.list.dialog_short.len(), 2);
    assert_eq!(state.list.dialog_short[0].0, "A very long ch…");
    assert_eq!(state.list.dialog_short[1].0, "Short");
    state.on_message(new_message(8, 5, "a message longer than twenty chars", 10, false));
    state.on_message(UiMessage::ChatRead { id: 8 });
    state.on_message(UiMessage::AvatarReady { chat_id: 7, path: Some("/tmp/a.png".into()) });
    assert_eq!(state.list.dialog_short.len(), state.list.dialogs.len());
    for (row, short) in state.list.dialogs.iter().zip(state.list.dialog_short.iter()) {
        assert_eq!(short.0, app_iced::format::ellipsize(&row.title, 15));
        assert_eq!(short.1, app_iced::format::ellipsize(&row.subtitle, 20));
    }
    assert_eq!(state.list.dialog_short[1].1, "a message longer th…");
}

#[test]
fn taking_the_scroll_target_resolves_a_loaded_pending_jump() {
    let mut state = demo_state();
    state.view.pending_jump_id = Some(2);
    state.view.scroll_to_bottom = true;
    assert_eq!(state.take_scroll_target(), Some(2));
    assert_eq!(state.view.pending_jump_id, None);
    assert_eq!(state.view.scroll_target, None);
    assert!(!state.view.scroll_to_bottom);
    assert_eq!(state.take_scroll_target(), None);
}

#[test]
fn a_jump_to_a_message_not_loaded_yet_stays_pending() {
    let mut state = demo_state();
    state.view.pending_jump_id = Some(99);
    state.view.scroll_target = Some(1);
    assert_eq!(state.take_scroll_target(), Some(1));
    assert_eq!(state.view.pending_jump_id, Some(99));
    assert_eq!(state.view.scroll_target, None);
}
