//! Display rows built from what the Telegram layer reports about a
//! message: its media split into photo, document card or sticker, its
//! forward origin resolved, and the files already downloaded for it.

use vstd::prelude::*;
use std::collections::HashMap;
use crate::bridge::{ChatRow, DocKind, DocMeta, MsgRow, StickerMeta, UiMessage};

verus! {

/// The media of a message as the Telegram layer reports it. (A video's
/// playback length travels beside it, as a float, in the interface.)
#[derive(Debug, Clone)]
pub enum MediaKind {
    Photo { width: u32, height: u32 },
    Document { name: String, size: i64 },
    Video { name: String, size: i64 },
    Gif { name: String, size: i64 },
    Audio { name: String, size: i64, voice: bool },
    Sticker { name: String, size: i64, alt: String },
}

/// Where a forwarded message comes from: the origin's name when the
/// header carries it, else the id of the origin chat.
#[derive(Debug, Clone)]
pub struct ForwardInfo {
    pub name: Option<String>,
    pub chat_id: Option<i64>,
}

/// A message as the Telegram layer reports it.
#[derive(Debug, Clone)]
pub struct MessageInfo {
    pub id: i32,
    pub text: String,
    pub date: i32,
    pub out: bool,
    pub media: Option<MediaKind>,
    pub reply_to: Option<i32>,
    pub forwarded: Option<ForwardInfo>,
    pub sender_name: Option<String>,
    pub sender_id: Option<i64>,
    pub pinned: bool,
}

/// The photo size, document card and sticker a media gives: a photo keeps
/// its size; documents, videos, GIFs and audio become cards of their kind;
/// a sticker is neither a photo nor a card.
pub open spec fn spec_media_to_row(media: Option<MediaKind>) -> (Option<(u32, u32)>, Option<DocMeta>, Option<StickerMeta>) {
    match media {
        Some(MediaKind::Photo { width, height }) => (Some((width, height)), None, None),
        Some(MediaKind::Document { name, size }) => (None, Some(DocMeta { name, size, kind: DocKind::File }), None),
        Some(MediaKind::Video { name, size }) => (None, Some(DocMeta { name, size, kind: DocKind::Video }), None),
        Some(MediaKind::Gif { name, size }) => (None, Some(DocMeta { name, size, kind: DocKind::Gif }), None),
        Some(MediaKind::Audio { name, size, voice }) => (
            None,
            Some(DocMeta { name, size, kind: DocKind::Audio { voice } }),
            None,
        ),
        Some(MediaKind::Sticker { name: _, size: _, alt }) => (None, None, Some(StickerMeta { alt })),
        None => (None, None, None),
    }
}

/// Splits a message's media into photo size, document card and sticker
/// (see [`spec_media_to_row`]).
pub fn media_to_row(media: Option<MediaKind>) -> (r: (Option<(u32, u32)>, Option<DocMeta>, Option<StickerMeta>))
    ensures
        r == spec_media_to_row(media),
{
    match media {
        Some(MediaKind::Photo { width, height }) => (Some((width, height)), None, None),
        Some(MediaKind::Document { name, size }) => (None, Some(DocMeta { name, size, kind: DocKind::File }), None),
        Some(MediaKind::Video { name, size }) => (None, Some(DocMeta { name, size, kind: DocKind::Video }), None),
        Some(MediaKind::Gif { name, size }) => (None, Some(DocMeta { name, size, kind: DocKind::Gif }), None),
        Some(MediaKind::Audio { name, size, voice }) => (
            None,
            Some(DocMeta { name, size, kind: DocKind::Audio { voice } }),
            None,
        ),
        Some(MediaKind::Sticker { name: _, size: _, alt }) => (None, None, Some(StickerMeta { alt })),
        None => (None, None, None),
    }
}

/// An audio keeps what it is: its card carries the audio's own name, size
/// and voice flag (a music file stays a music file, a voice note a voice
/// note), and only an audio gives an audio card.
pub proof fn lemma_audio_card_keeps_voice(media: Option<MediaKind>)
    ensures
        media matches Some(MediaKind::Audio { name, size, voice }) ==> {
            let r = spec_media_to_row(media);
            &&& r.1 matches Some(d) && d.name == name && d.size == size
                && d.kind == (DocKind::Audio { voice })
            &&& r.0 is None && r.2 is None
        },
        (spec_media_to_row(media).1 matches Some(d) && d.kind is Audio) ==> media matches Some(
            MediaKind::Audio { .. },
        ),
{
}

/// Files downloaded for messages, by chat and message id; recording a
/// file again for a message replaces the earlier one.
#[derive(Debug)]
pub struct PathCache {
    by_chat: HashMap<i64, HashMap<i32, String>>,
}

impl PathCache {
    /// The file recorded for `(chat_id, msg_id)`, if any.
    pub closed spec fn get_spec(self, chat_id: i64, msg_id: i32) -> Option<String> {
        if self.by_chat@.contains_key(chat_id) && self.by_chat@[chat_id]@.contains_key(msg_id) {
            Some(self.by_chat@[chat_id]@[msg_id])
        } else {
            None
        }
    }

    /// An empty cache.
    pub fn new() -> (c: PathCache)
        ensures
            forall|chat_id: i64, msg_id: i32| #[trigger] c.get_spec(chat_id, msg_id) is None,
    {
        PathCache { by_chat: HashMap::new() }
    }

    /// The file recorded for `(chat_id, msg_id)`.
    pub fn get(&self, chat_id: i64, msg_id: i32) -> (r: Option<String>)
        ensures
            r == self.get_spec(chat_id, msg_id),
    {
        broadcast use vstd::std_specs::hash::group_hash_axioms;
        match self.by_chat.get(&chat_id) {
            Some(inner) => match inner.get(&msg_id) {
                Some(p) => Some(p.clone()),
                None => None,
            },
            None => None,
        }
    }

    /// Records `path` for `(chat_id, msg_id)`.
    pub fn insert(&mut self, chat_id: i64, msg_id: i32, path: String)
        ensures
            final(self).get_spec(chat_id, msg_id) == Some(path),
            forall|c: i64, m: i32| !(c == chat_id && m == msg_id) ==> #[trigger] final(self).get_spec(c, m)
                == old(self).get_spec(c, m),
    {
        broadcast use vstd::std_specs::hash::group_hash_axioms;
        let mut inner = match self.by_chat.remove(&chat_id) {
            Some(i) => i,
            None => HashMap::new(),
        };
        inner.insert(msg_id, path);
        self.by_chat.insert(chat_id, inner);
    }
}

/// The files downloaded so far: photo thumbnails, documents and sticker
/// images.
#[derive(Debug)]
pub struct Downloads {
    pub photos: PathCache,
    pub docs: PathCache,
    pub stickers: PathCache,
}

impl Downloads {
    /// Nothing downloaded yet.
    pub fn new() -> (d: Downloads)
        ensures
            forall|c: i64, m: i32| #[trigger] d.photos.get_spec(c, m) is None,
            forall|c: i64, m: i32| #[trigger] d.docs.get_spec(c, m) is None,
            forall|c: i64, m: i32| #[trigger] d.stickers.get_spec(c, m) is None,
    {
        Downloads { photos: PathCache::new(), docs: PathCache::new(), stickers: PathCache::new() }
    }

    /// The downloaded photo of a message.
    pub fn path(&self, chat_id: i64, msg_id: i32) -> (r: Option<String>)
        ensures
            r == self.photos.get_spec(chat_id, msg_id),
    {
        self.photos.get(chat_id, msg_id)
    }

    /// Records the downloaded photo of a message.
    pub fn insert(&mut self, chat_id: i64, msg_id: i32, path: String)
        ensures
            final(self).photos.get_spec(chat_id, msg_id) == Some(path),
            forall|c: i64, m: i32| !(c == chat_id && m == msg_id) ==> #[trigger] final(self).photos.get_spec(c, m)
                == old(self).photos.get_spec(c, m),
            final(self).docs == old(self).docs && final(self).stickers == old(self).stickers,
    {
        self.photos.insert(chat_id, msg_id, path);
    }

    /// The downloaded document of a message.
    pub fn doc_path(&self, chat_id: i64, msg_id: i32) -> (r: Option<String>)
        ensures
            r == self.docs.get_spec(chat_id, msg_id),
    {
        self.docs.get(chat_id, msg_id)
    }

    /// Records the downloaded document of a message.
    pub fn insert_doc(&mut self, chat_id: i64, msg_id: i32, path: String)
        ensures
            final(self).docs.get_spec(chat_id, msg_id) == Some(path),
            forall|c: i64, m: i32| !(c == chat_id && m == msg_id) ==> #[trigger] final(self).docs.get_spec(c, m)
                == old(self).docs.get_spec(c, m),
            final(self).photos == old(self).photos && final(self).stickers == old(self).stickers,
    {
        self.docs.insert(chat_id, msg_id, path);
    }

    /// The downloaded sticker image of a message.
    pub fn sticker_path(&self, chat_id: i64, msg_id: i32) -> (r: Option<String>)
        ensures
            r == self.stickers.get_spec(chat_id, msg_id),
    {
        self.stickers.get(chat_id, msg_id)
    }

    /// Records the downloaded sticker image of a message.
    pub fn insert_sticker(&mut self, chat_id: i64, msg_id: i32, path: String)
        ensures
            final(self).stickers.get_spec(chat_id, msg_id) == Some(path),
            forall|c: i64, m: i32| !(c == chat_id && m == msg_id) ==> #[trigger] final(self).stickers.get_spec(c, m)
                == old(self).stickers.get_spec(c, m),
            final(self).photos == old(self).photos && final(self).docs == old(self).docs,
    {
        self.stickers.insert(chat_id, msg_id, path);
    }
}

/// The display name of a forward origin: the header's name, else the
/// title of the origin chat when the chat list knows it.
pub open spec fn forward_origin(f: Option<ForwardInfo>, peers: Map<i64, String>) -> Option<String> {
    match f {
        Some(f) => match f.name {
            Some(n) => Some(n),
            None => match f.chat_id {
                Some(id) => if peers.contains_key(id) { Some(peers[id]) } else { None },
                None => None,
            },
        },
        None => None,
    }
}

/// The display row of message `m` of chat `chat_id`: its media split (see
/// [`spec_media_to_row`]), its forward origin resolved against the chat
/// titles `peers`, and the files already downloaded for its photo,
/// document or sticker; not uploading, not read.
pub open spec fn spec_row_from_info(m: MessageInfo, chat_id: i64, d: Downloads, peers: Map<i64, String>) -> MsgRow {
    let (photo, doc, sticker) = spec_media_to_row(m.media);
    MsgRow {
        id: m.id,
        text: m.text,
        date: m.date,
        out: m.out,
        photo,
        photo_path: if photo is Some { d.photos.get_spec(chat_id, m.id) } else { None },
        doc,
        doc_path: if doc is Some { d.docs.get_spec(chat_id, m.id) } else { None },
        sticker,
        sticker_path: if sticker is Some { d.stickers.get_spec(chat_id, m.id) } else { None },
        reply_to: m.reply_to,
        forwarded_from: forward_origin(m.forwarded, peers),
        uploading: None,
        upload_token: None,
        read: false,
        sender_name: m.sender_name,
        sender_id: m.sender_id,
        pinned: m.pinned,
    }
}

/// Builds the display row of a reported message (see
/// [`spec_row_from_info`]).
pub fn msg_row_from_info(m: MessageInfo, chat_id: i64, downloads: &Downloads, peers: &HashMap<i64, String>) -> (row: MsgRow)
    ensures
        row == spec_row_from_info(m, chat_id, *downloads, peers@),
{
    broadcast use vstd::std_specs::hash::group_hash_axioms;
    let ghost m0 = m;
    let (photo, doc, sticker) = media_to_row(m.media);
    let forwarded_from = match m.forwarded {
        Some(f) => match f.name {
            Some(n) => Some(n),
            None => match f.chat_id {
                Some(id) => match peers.get(&id) {
                    Some(t) => Some(t.clone()),
                    None => None,
                },
                None => None,
            },
        },
        None => None,
    };
    let photo_path = if photo.is_some() { downloads.path(chat_id, m.id) } else { None };
    let doc_path = if doc.is_some() { downloads.doc_path(chat_id, m.id) } else { None };
    let sticker_path = if sticker.is_some() { downloads.sticker_path(chat_id, m.id) } else { None };
    MsgRow {
        id: m.id,
        text: m.text,
        date: m.date,
        out: m.out,
        photo,
        photo_path,
        doc,
        doc_path,
        sticker,
        sticker_path,
        reply_to: m.reply_to,
        forwarded_from,
        uploading: None,
        upload_token: None,
        read: false,
        sender_name: m.sender_name,
        sender_id: m.sender_id,
        pinned: m.pinned,
    }
}

/// A live update from Telegram, by its plain values (chat ids already in
/// the dialog-id form the interface uses).
#[derive(Debug, Clone)]
pub enum LiveUpdate {
    /// A new message in chat `chat_id`; `private` for one-to-one chats
    /// (where the sender is not shown).
    NewMessage {
        chat_id: i64,
        private: bool,
        id: i32,
        text: String,
        date: i32,
        out: bool,
        media: Option<MediaKind>,
        reply_to: Option<i32>,
        forwarded: Option<ForwardInfo>,
        sender_name: Option<String>,
        sender_id: Option<i64>,
    },
    MessageEdited { chat_id: i64, id: i32, text: String, date: i32 },
    MessagesDeleted { ids: Vec<i32> },
    /// Another device read a chat: `still_unread` messages are left.
    InboxRead { chat_id: i64, still_unread: i32 },
    /// The other side read our messages up to `max_id`.
    OutboxRead { chat_id: i64, max_id: i32 },
    /// Someone is typing in a chat (`cancel`: they stopped).
    Typing { chat_id: i64, cancel: bool },
    /// The pinned messages of a chat, oldest first.
    Pinned { chat_id: i64, ids: Vec<i32> },
}

/// What the interface is told of a live update: a new message with its
/// media split and forward origin resolved (no sender in private chats),
/// an edit, a deletion, the unread count (never below zero), the chat
/// read with the read mark, a typing change, or the latest pinned message.
pub open spec fn spec_update_messages(u: LiveUpdate, peers: Map<i64, String>) -> Seq<UiMessage> {
    match u {
        LiveUpdate::NewMessage {
            chat_id, private, id, text, date, out, media, reply_to, forwarded, sender_name, sender_id,
        } => {
            let (photo, doc, sticker) = spec_media_to_row(media);
            seq![UiMessage::NewMessage {
                chat_id,
                id,
                text,
                date,
                out,
                photo,
                doc,
                sticker,
                reply_to,
                forwarded_from: forward_origin(forwarded, peers),
                sender_name: if private { None } else { sender_name },
                sender_id: if private { None } else { sender_id },
            }]
        },
        LiveUpdate::MessageEdited { chat_id, id, text, date } => seq![UiMessage::MessageEdited { chat_id, id, text, date }],
        LiveUpdate::MessagesDeleted { ids } => seq![UiMessage::MessageDeleted { ids }],
        LiveUpdate::InboxRead { chat_id, still_unread } => seq![
            UiMessage::UnreadCount { chat_id, count: if still_unread < 0 { 0i32 } else { still_unread } },
        ],
        LiveUpdate::OutboxRead { chat_id, max_id } => seq![
            UiMessage::ChatRead { id: chat_id },
            UiMessage::OutboxRead { chat_id, max_id },
        ],
        LiveUpdate::Typing { chat_id, cancel } => seq![UiMessage::PeerTyping { chat_id, typing: !cancel }],
        LiveUpdate::Pinned { chat_id, ids } => seq![
            UiMessage::PinnedMessage { chat_id, msg_id: if ids@.len() > 0 { Some(ids@.last()) } else { None } },
        ],
    }
}

/// The messages for the interface of a live update (see
/// [`spec_update_messages`]), `peers` giving the chat titles.
pub fn update_messages(u: LiveUpdate, peers: &HashMap<i64, String>) -> (msgs: Vec<UiMessage>)
    ensures
        msgs@ == spec_update_messages(u, peers@),
{
    broadcast use vstd::std_specs::hash::group_hash_axioms;
    let mut msgs: Vec<UiMessage> = Vec::new();
    match u {
        LiveUpdate::NewMessage {
            chat_id, private, id, text, date, out, media, reply_to, forwarded, sender_name, sender_id,
        } => {
            let (photo, doc, sticker) = media_to_row(media);
            let forwarded_from = match forwarded {
                Some(f) => match f.name {
                    Some(n) => Some(n),
                    None => match f.chat_id {
                        Some(cid) => match peers.get(&cid) {
                            Some(t) => Some(t.clone()),
                            None => None,
                        },
                        None => None,
                    },
                },
                None => None,
            };
            msgs.push(UiMessage::NewMessage {
                chat_id,
                id,
                text,
                date,
                out,
                photo,
                doc,
                sticker,
                reply_to,
                forwarded_from,
                sender_name: if private { None } else { sender_name },
                sender_id: if private { None } else { sender_id },
            });
        },
        LiveUpdate::MessageEdited { chat_id, id, text, date } => {
            msgs.push(UiMessage::MessageEdited { chat_id, id, text, date });
        },
        LiveUpdate::MessagesDeleted { ids } => {
            msgs.push(UiMessage::MessageDeleted { ids });
        },
        LiveUpdate::InboxRead { chat_id, still_unread } => {
            msgs.push(UiMessage::UnreadCount { chat_id, count: if still_unread < 0 { 0 } else { still_unread } });
        },
        LiveUpdate::OutboxRead { chat_id, max_id } => {
            msgs.push(UiMessage::ChatRead { id: chat_id });
            msgs.push(UiMessage::OutboxRead { chat_id, max_id });
        },
        LiveUpdate::Typing { chat_id, cancel } => {
            msgs.push(UiMessage::PeerTyping { chat_id, typing: !cancel });
        },
        LiveUpdate::Pinned { chat_id, ids } => {
            let last = if ids.len() > 0 { Some(ids[ids.len() - 1]) } else { None };
            msgs.push(UiMessage::PinnedMessage { chat_id, msg_id: last });
        },
    }
    proof {
        assert(msgs@ =~= spec_update_messages(u, peers@));
    }
    msgs
}

/// The desktop notification a live message of chat `chat_id` raises: none
/// when that chat is open (it is on screen); otherwise the chat's title
/// ("Message" when the chat list does not know it) over the text's preview.
pub fn notification_for(open: Option<i64>, chat_id: i64, text: &str, peers: &HashMap<i64, String>) -> (r: Option<
    (String, String),
>)
    ensures
        open == Some(chat_id) ==> r is None,
        open != Some(chat_id) ==> (r matches Some(n) && n.0@ == (if peers@.contains_key(chat_id) {
            peers@[chat_id]@
        } else {
            "Message"@
        }) && n.1@ == crate::state::spec_preview(text@, None, None, None)),
{
    broadcast use vstd::std_specs::hash::group_hash_axioms;
    if open == Some(chat_id) {
        return None;
    }
    let title = match peers.get(&chat_id) {
        Some(t) => t.clone(),
        None => String::from_str("Message"),
    };
    let body = crate::state::preview_text(text, &None, &None, &None);
    Some((title, body))
}

/// A chat of the dialog list as the Telegram layer reports it.
#[derive(Debug, Clone)]
pub struct DialogInfo {
    pub id: i64,
    pub title: String,
    pub last_message: Option<String>,
    pub last_date: Option<i32>,
    pub unread: i32,
}

/// The list row of a reported chat: its last message as subtitle (empty
/// when none), its last date (0 when none), no avatar yet.
pub open spec fn dialog_row(d: DialogInfo) -> (i64, Seq<char>, Seq<char>, i32, i32) {
    (
        d.id,
        d.title@,
        match d.last_message {
            Some(m) => m@,
            None => Seq::empty(),
        },
        match d.last_date {
            Some(t) => t,
            None => 0,
        },
        d.unread,
    )
}

/// The chat list rows of the reported dialogs, in order, and the title of
/// each chat by id (a later chat with the same id wins).
pub fn dialog_rows(dialogs: &Vec<DialogInfo>) -> (r: (Vec<ChatRow>, HashMap<i64, String>))
    ensures
        r.0@.len() == dialogs@.len(),
        forall|k: int| 0 <= k < dialogs@.len() ==> {
            let row = #[trigger] r.0@[k];
            &&& (row.id, row.title@, row.subtitle@, row.date, row.unread) == dialog_row(dialogs@[k])
            &&& row.avatar_path is None
        },
        forall|id: i64| #[trigger] r.1@.contains_key(id) <==> exists|k: int| 0 <= k < dialogs@.len() && dialogs@[k].id == id,
        forall|k: int| 0 <= k < dialogs@.len() ==> (forall|j: int| k < j < dialogs@.len() ==> dialogs@[j].id != dialogs@[k].id)
            ==> r.1@[#[trigger] dialogs@[k].id] == dialogs@[k].title,
{
    broadcast use vstd::std_specs::hash::group_hash_axioms;
    let mut rows: Vec<ChatRow> = Vec::new();
    let mut titles: HashMap<i64, String> = HashMap::new();
    let mut i: usize = 0;
    while i < dialogs.len()
        invariant
            i <= dialogs.len(),
            rows@.len() == i,
            forall|k: int| 0 <= k < i ==> {
                let row = #[trigger] rows@[k];
                &&& (row.id, row.title@, row.subtitle@, row.date, row.unread) == dialog_row(dialogs@[k])
                &&& row.avatar_path is None
            },
            forall|id: i64| #[trigger] titles@.contains_key(id) <==> exists|k: int| 0 <= k < i && dialogs@[k].id == id,
            forall|k: int| 0 <= k < i ==> (forall|j: int| k < j < i ==> dialogs@[j].id != dialogs@[k].id)
                ==> titles@[#[trigger] dialogs@[k].id] == dialogs@[k].title,
        decreases dialogs.len() - i,
    {
        let d = &dialogs[i];
        titles.insert(d.id, d.title.clone());
        let subtitle = match &d.last_message {
            Some(m) => m.clone(),
            None => String::new(),
        };
        let date = match d.last_date {
            Some(t) => t,
            None => 0,
        };
        rows.push(ChatRow { id: d.id, title: d.title.clone(), subtitle, date, unread: d.unread, avatar_path: None });
        proof {
            assert forall|id: i64| #[trigger] titles@.contains_key(id) <==> exists|k: int| 0 <= k < i + 1 && dialogs@[k].id == id by {
                if titles@.contains_key(id) && id != dialogs@[i as int].id {
                    let k = choose|k: int| 0 <= k < i && dialogs@[k].id == id;
                    assert(0 <= k < i + 1 && dialogs@[k].id == id);
                }
                if exists|k: int| 0 <= k < i + 1 && dialogs@[k].id == id {
                    let k = choose|k: int| 0 <= k < i + 1 && dialogs@[k].id == id;
                    if k < i {
                    }
                }
            }
        }
        i = i + 1;
    }
    (rows, titles)
}

} // verus!
