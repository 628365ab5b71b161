//! How the network runtime serves the interface's requests on a real
//! account: which Telegram operation each request needs (given the chats
//! the dialog list resolved), what is answered without one, and what the
//! interface is told when an operation fails or ends without a payload.

use vstd::prelude::*;
use std::collections::HashMap;
use crate::bridge::{Request, SearchHit, UiMessage};

verus! {

/// A Telegram operation. Chats are named by their dialog ids, all of them
/// known to the dialog list.
#[derive(Debug, Clone, PartialEq, Eq)]
pub enum RemoteCall {
    MarkRead { id: i64 },
    SetTyping { id: i64, typing: bool },
    /// The history of a chat, shown under `title`.
    LoadHistory { id: i64, title: String },
    DownloadAvatar { chat_id: i64 },
    SendText { id: i64, text: String, reply_to: Option<i32> },
    Upload { id: i64, path: String, caption: String, reply_to: Option<i32>, token: u64 },
    Forward { from_chat: i64, msg_id: i32, to_chat: i64 },
    DownloadDoc { chat_id: i64, msg_id: i32 },
    DownloadSticker { chat_id: i64, msg_id: i32 },
    SendSticker { id: i64, doc_id: i64, access_hash: i64 },
    StickerSets,
    /// Search within a chat, whose results carry `title`.
    SearchChat { id: i64, title: String, query: String },
    /// Search everywhere; `id` is echoed with the results.
    SearchGlobal { id: Option<i64>, query: String },
    Edit { id: i64, msg_id: i32, text: String },
    Delete { id: i64, msg_id: i32 },
    Pin { id: i64, msg_id: i32, pin: bool },
    /// A group with initial members (a supergroup is made instead when
    /// this fails).
    CreateGroup { title: String, about: String, members: Vec<i64> },
    CreateChannel { title: String, about: String, megagroup: bool },
    Leave { id: i64 },
    DeleteChat { id: i64 },
    Rename { id: i64, title: String },
    ChatInfo { id: i64 },
    SetMuted { id: i64, muted: bool },
    Participants { id: i64 },
    Kick { id: i64, user_id: i64 },
}

/// What a request leads to.
#[derive(Debug, Clone)]
pub enum RemotePlan {
    Call(RemoteCall),
    /// Answered at once, without an operation.
    Reply(UiMessage),
    Nothing,
}

/// `m` is an error message with this text.
pub open spec fn is_error(m: UiMessage, text: Seq<char>) -> bool {
    m matches UiMessage::Error(e) && e@ == text
}

/// The plan is the "Unknown chat" error.
pub open spec fn unknown_chat(p: RemotePlan) -> bool {
    p matches RemotePlan::Reply(m) && is_error(m, "Unknown chat"@)
}

/// The members of `members` the dialog list knows, in order.
pub open spec fn known_members(members: Seq<i64>, known: Map<i64, String>) -> Seq<i64> {
    members.filter(|m: i64| known.contains_key(m))
}

/// How each request is served (see [`plan_request`]): an operation on a
/// chat the dialog list knows; for an unknown chat, the "Unknown chat"
/// error where the interface waits for an answer and nothing where it does
/// not; an empty search answered at once with no hits; a group with known
/// members created as a group, any other creation as a channel.
pub open spec fn planned(req: Request, known: Map<i64, String>, p: RemotePlan) -> bool {
    match req {
        Request::MarkRead { id } => p == (if known.contains_key(id) {
            RemotePlan::Call(RemoteCall::MarkRead { id })
        } else {
            RemotePlan::Nothing
        }),
        Request::Typing { id, typing } => p == (if known.contains_key(id) {
            RemotePlan::Call(RemoteCall::SetTyping { id, typing })
        } else {
            RemotePlan::Nothing
        }),
        Request::OpenChat { id } => if known.contains_key(id) {
            p == RemotePlan::Call(RemoteCall::LoadHistory { id, title: known[id] })
        } else {
            unknown_chat(p)
        },
        Request::DownloadAvatar { chat_id } => p == (if known.contains_key(chat_id) {
            RemotePlan::Call(RemoteCall::DownloadAvatar { chat_id })
        } else {
            RemotePlan::Nothing
        }),
        Request::SendMessage { id, text, reply_to } => if known.contains_key(id) {
            p == RemotePlan::Call(RemoteCall::SendText { id, text, reply_to })
        } else {
            unknown_chat(p)
        },
        Request::SendMedia { id, path, caption, is_photo: _, reply_to, token } => if known.contains_key(id) {
            p == RemotePlan::Call(RemoteCall::Upload { id, path, caption, reply_to, token })
        } else {
            unknown_chat(p)
        },
        Request::ForwardMessage { from_chat, msg_id, to_chat } => if known.contains_key(from_chat)
            && known.contains_key(to_chat) {
            p == RemotePlan::Call(RemoteCall::Forward { from_chat, msg_id, to_chat })
        } else {
            unknown_chat(p)
        },
        Request::DownloadDoc { chat_id, msg_id } => p == (if known.contains_key(chat_id) {
            RemotePlan::Call(RemoteCall::DownloadDoc { chat_id, msg_id })
        } else {
            RemotePlan::Nothing
        }),
        Request::DownloadSticker { chat_id, msg_id } => p == (if known.contains_key(chat_id) {
            RemotePlan::Call(RemoteCall::DownloadSticker { chat_id, msg_id })
        } else {
            RemotePlan::Nothing
        }),
        Request::SendSticker { id, doc_id, access_hash } => if known.contains_key(id) {
            p == RemotePlan::Call(RemoteCall::SendSticker { id, doc_id, access_hash })
        } else {
            unknown_chat(p)
        },
        Request::GetStickerSets => p == RemotePlan::Call(RemoteCall::StickerSets),
        Request::Search { id, query } => if query@.len() == 0 {
            p matches RemotePlan::Reply(UiMessage::SearchResults { id: i, query: q, hits }) && i == id && q@.len() == 0
                && hits@.len() == 0
        } else {
            match id {
                Some(c) => if known.contains_key(c) {
                    p == RemotePlan::Call(RemoteCall::SearchChat { id: c, title: known[c], query })
                } else {
                    p == RemotePlan::Call(RemoteCall::SearchGlobal { id, query })
                },
                None => p == RemotePlan::Call(RemoteCall::SearchGlobal { id, query }),
            }
        },
        Request::EditMessage { id, msg_id, text } => if known.contains_key(id) {
            p == RemotePlan::Call(RemoteCall::Edit { id, msg_id, text })
        } else {
            unknown_chat(p)
        },
        Request::DeleteMessage { id, msg_id } => if known.contains_key(id) {
            p == RemotePlan::Call(RemoteCall::Delete { id, msg_id })
        } else {
            unknown_chat(p)
        },
        Request::PinMessage { id, msg_id, pin } => if known.contains_key(id) {
            p == RemotePlan::Call(RemoteCall::Pin { id, msg_id, pin })
        } else {
            unknown_chat(p)
        },
        Request::CreateChannel { title, about, megagroup, members } => if megagroup && known_members(
            members@,
            known,
        ).len() > 0 {
            p matches RemotePlan::Call(RemoteCall::CreateGroup { title: t, about: a, members: ms }) && t == title
                && a == about && ms@ == known_members(members@, known)
        } else {
            p == RemotePlan::Call(RemoteCall::CreateChannel { title, about, megagroup })
        },
        Request::LeaveChat { id } => if known.contains_key(id) {
            p == RemotePlan::Call(RemoteCall::Leave { id })
        } else {
            p matches RemotePlan::Reply(m) && is_error(m, "Could not remove the chat: unknown chat"@)
        },
        Request::DeleteChat { id } => if known.contains_key(id) {
            p == RemotePlan::Call(RemoteCall::DeleteChat { id })
        } else {
            p matches RemotePlan::Reply(m) && is_error(m, "Could not remove the chat: unknown chat"@)
        },
        Request::EditChatTitle { id, title } => if known.contains_key(id) {
            p == RemotePlan::Call(RemoteCall::Rename { id, title })
        } else {
            unknown_chat(p)
        },
        Request::GetChatInfo { id } => if known.contains_key(id) {
            p == RemotePlan::Call(RemoteCall::ChatInfo { id })
        } else {
            unknown_chat(p)
        },
        Request::SetMuted { id, muted } => p == (if known.contains_key(id) {
            RemotePlan::Call(RemoteCall::SetMuted { id, muted })
        } else {
            RemotePlan::Nothing
        }),
        Request::GetParticipants { id } => if known.contains_key(id) {
            p == RemotePlan::Call(RemoteCall::Participants { id })
        } else {
            unknown_chat(p)
        },
        Request::KickParticipant { id, user_id } => if known.contains_key(id) {
            p == RemotePlan::Call(RemoteCall::Kick { id, user_id })
        } else {
            unknown_chat(p)
        },
        _ => p == RemotePlan::Nothing,
    }
}

fn unknown() -> (p: RemotePlan)
    ensures
        unknown_chat(p),
{
    RemotePlan::Reply(UiMessage::Error(String::from_str("Unknown chat")))
}

/// The members of `members` that `known` holds, in order.
fn filter_known(members: &Vec<i64>, known: &HashMap<i64, String>) -> (r: Vec<i64>)
    ensures
        r@ == known_members(members@, known@),
{
    broadcast use vstd::std_specs::hash::group_hash_axioms;
    let ghost p = |m: i64| known@.contains_key(m);
    let mut r: Vec<i64> = Vec::new();
    let mut i: usize = 0;
    while i < members.len()
        invariant
            i <= members.len(),
            p == (|m: i64| known@.contains_key(m)),
            r@ == members@.take(i as int).filter(p),
        decreases members.len() - i,
    {
        proof {
            assert(members@.take(i as int + 1) =~= members@.take(i as int).push(members@[i as int]));
            members@.take(i as int).lemma_filter_push(members@[i as int], p);
        }
        if known.contains_key(&members[i]) {
            r.push(members[i]);
        }
        i = i + 1;
    }
    proof {
        assert(members@.take(members.len() as int) =~= members@);
    }
    r
}

/// The title the dialog list knows for chat `id`.
fn title_of(known: &HashMap<i64, String>, id: i64) -> (t: Option<String>)
    ensures
        known@.contains_key(id) ==> t == Some(known@[id]),
        !known@.contains_key(id) ==> t is None,
{
    broadcast use vstd::std_specs::hash::group_hash_axioms;
    match known.get(&id) {
        Some(t) => Some(t.clone()),
        None => None,
    }
}

/// How a request is served, `known` holding the title of each chat of
/// the dialog list (see [`planned`]).
pub fn plan_request(req: Request, known: &HashMap<i64, String>) -> (p: RemotePlan)
    ensures
        planned(req, known@, p),
{
    broadcast use vstd::std_specs::hash::group_hash_axioms;
    match req {
        Request::MarkRead { id } => if known.contains_key(&id) {
            RemotePlan::Call(RemoteCall::MarkRead { id })
        } else {
            RemotePlan::Nothing
        },
        Request::Typing { id, typing } => if known.contains_key(&id) {
            RemotePlan::Call(RemoteCall::SetTyping { id, typing })
        } else {
            RemotePlan::Nothing
        },
        Request::OpenChat { id } => match title_of(known, id) {
            Some(title) => RemotePlan::Call(RemoteCall::LoadHistory { id, title }),
            None => unknown(),
        },
        Request::DownloadAvatar { chat_id } => if known.contains_key(&chat_id) {
            RemotePlan::Call(RemoteCall::DownloadAvatar { chat_id })
        } else {
            RemotePlan::Nothing
        },
        Request::SendMessage { id, text, reply_to } => if known.contains_key(&id) {
            RemotePlan::Call(RemoteCall::SendText { id, text, reply_to })
        } else {
            unknown()
        },
        Request::SendMedia { id, path, caption, is_photo: _, reply_to, token } => if known.contains_key(&id) {
            RemotePlan::Call(RemoteCall::Upload { id, path, caption, reply_to, token })
        } else {
            unknown()
        },
        Request::ForwardMessage { from_chat, msg_id, to_chat } => if known.contains_key(&from_chat)
            && known.contains_key(&to_chat) {
            RemotePlan::Call(RemoteCall::Forward { from_chat, msg_id, to_chat })
        } else {
            unknown()
        },
        Request::DownloadDoc { chat_id, msg_id } => if known.contains_key(&chat_id) {
            RemotePlan::Call(RemoteCall::DownloadDoc { chat_id, msg_id })
        } else {
            RemotePlan::Nothing
        },
        Request::DownloadSticker { chat_id, msg_id } => if known.contains_key(&chat_id) {
            RemotePlan::Call(RemoteCall::DownloadSticker { chat_id, msg_id })
        } else {
            RemotePlan::Nothing
        },
        Request::SendSticker { id, doc_id, access_hash } => if known.contains_key(&id) {
            RemotePlan::Call(RemoteCall::SendSticker { id, doc_id, access_hash })
        } else {
            unknown()
        },
        Request::GetStickerSets => RemotePlan::Call(RemoteCall::StickerSets),
        Request::Search { id, query } => if query.as_str().is_empty() {
            let hits: Vec<SearchHit> = Vec::new();
            RemotePlan::Reply(UiMessage::SearchResults { id, query: String::new(), hits })
        } else {
            match id {
                Some(c) => match title_of(known, c) {
                    Some(title) => RemotePlan::Call(RemoteCall::SearchChat { id: c, title, query }),
                    None => RemotePlan::Call(RemoteCall::SearchGlobal { id, query }),
                },
                None => RemotePlan::Call(RemoteCall::SearchGlobal { id, query }),
            }
        },
        Request::EditMessage { id, msg_id, text } => if known.contains_key(&id) {
            RemotePlan::Call(RemoteCall::Edit { id, msg_id, text })
        } else {
            unknown()
        },
        Request::DeleteMessage { id, msg_id } => if known.contains_key(&id) {
            RemotePlan::Call(RemoteCall::Delete { id, msg_id })
        } else {
            unknown()
        },
        Request::PinMessage { id, msg_id, pin } => if known.contains_key(&id) {
            RemotePlan::Call(RemoteCall::Pin { id, msg_id, pin })
        } else {
            unknown()
        },
        Request::CreateChannel { title, about, megagroup, members } => {
            let refs = filter_known(&members, known);
            if megagroup && refs.len() > 0 {
                RemotePlan::Call(RemoteCall::CreateGroup { title, about, members: refs })
            } else {
                RemotePlan::Call(RemoteCall::CreateChannel { title, about, megagroup })
            }
        },
        Request::LeaveChat { id } => if known.contains_key(&id) {
            RemotePlan::Call(RemoteCall::Leave { id })
        } else {
            RemotePlan::Reply(UiMessage::Error(String::from_str("Could not remove the chat: unknown chat")))
        },
        Request::DeleteChat { id } => if known.contains_key(&id) {
            RemotePlan::Call(RemoteCall::DeleteChat { id })
        } else {
            RemotePlan::Reply(UiMessage::Error(String::from_str("Could not remove the chat: unknown chat")))
        },
        Request::EditChatTitle { id, title } => if known.contains_key(&id) {
            RemotePlan::Call(RemoteCall::Rename { id, title })
        } else {
            unknown()
        },
        Request::GetChatInfo { id } => if known.contains_key(&id) {
            RemotePlan::Call(RemoteCall::ChatInfo { id })
        } else {
            unknown()
        },
        Request::SetMuted { id, muted } => if known.contains_key(&id) {
            RemotePlan::Call(RemoteCall::SetMuted { id, muted })
        } else {
            RemotePlan::Nothing
        },
        Request::GetParticipants { id } => if known.contains_key(&id) {
            RemotePlan::Call(RemoteCall::Participants { id })
        } else {
            unknown()
        },
        Request::KickParticipant { id, user_id } => if known.contains_key(&id) {
            RemotePlan::Call(RemoteCall::Kick { id, user_id })
        } else {
            unknown()
        },
        _ => RemotePlan::Nothing,
    }
}

/// The error the interface shows when `call` fails, by its prefix (the
/// failure's own message follows); none for the calls that fail quietly:
/// read marks, typing, and downloads (a download reports its own empty
/// result).
pub open spec fn failure_prefix(c: RemoteCall) -> Option<Seq<char>> {
    match c {
        RemoteCall::LoadHistory { .. } => Some("Could not load messages: "@),
        RemoteCall::SendText { .. } => Some("Send failed: "@),
        RemoteCall::Upload { .. } => Some("Send failed: "@),
        RemoteCall::Forward { .. } => Some("Forward failed: "@),
        RemoteCall::SendSticker { .. } => Some("Send failed: "@),
        RemoteCall::StickerSets => Some("Could not load sticker packs: "@),
        RemoteCall::SearchChat { .. } => Some("Search failed: "@),
        RemoteCall::SearchGlobal { .. } => Some("Search failed: "@),
        RemoteCall::Edit { .. } => Some("Edit failed: "@),
        RemoteCall::Delete { .. } => Some("Delete failed: "@),
        RemoteCall::Pin { .. } => Some("Pin failed: "@),
        RemoteCall::CreateGroup { .. } => None,
        RemoteCall::CreateChannel { .. } => Some("Could not create chat: "@),
        RemoteCall::Leave { .. } => Some("Could not remove the chat: "@),
        RemoteCall::DeleteChat { .. } => Some("Could not remove the chat: "@),
        RemoteCall::Rename { .. } => Some("Rename failed: "@),
        RemoteCall::ChatInfo { .. } => Some("Could not load info: "@),
        RemoteCall::SetMuted { .. } => Some("Could not update mute: "@),
        RemoteCall::Participants { .. } => Some("Could not load members: "@),
        RemoteCall::Kick { .. } => Some("Kick failed: "@),
        _ => None,
    }
}

/// `a` followed by `b`, as a `String`.
fn concat(a: &str, b: &str) -> (s: String)
    ensures
        s@ == a@ + b@,
{
    let mut cs = crate::text::chars_of(a);
    crate::text::push_str(&mut cs, b);
    crate::text::string_from_chars(&cs)
}

fn prefix_of(call: &RemoteCall) -> (r: Option<&'static str>)
    ensures
        match failure_prefix(*call) {
            Some(p) => r matches Some(x) && x@ == p,
            None => r is None,
        },
{
    match call {
        RemoteCall::LoadHistory { .. } => Some("Could not load messages: "),
        RemoteCall::SendText { .. } => Some("Send failed: "),
        RemoteCall::Upload { .. } => Some("Send failed: "),
        RemoteCall::Forward { .. } => Some("Forward failed: "),
        RemoteCall::SendSticker { .. } => Some("Send failed: "),
        RemoteCall::StickerSets => Some("Could not load sticker packs: "),
        RemoteCall::SearchChat { .. } => Some("Search failed: "),
        RemoteCall::SearchGlobal { .. } => Some("Search failed: "),
        RemoteCall::Edit { .. } => Some("Edit failed: "),
        RemoteCall::Delete { .. } => Some("Delete failed: "),
        RemoteCall::Pin { .. } => Some("Pin failed: "),
        RemoteCall::CreateGroup { .. } => None,
        RemoteCall::CreateChannel { .. } => Some("Could not create chat: "),
        RemoteCall::Leave { .. } => Some("Could not remove the chat: "),
        RemoteCall::DeleteChat { .. } => Some("Could not remove the chat: "),
        RemoteCall::Rename { .. } => Some("Rename failed: "),
        RemoteCall::ChatInfo { .. } => Some("Could not load info: "),
        RemoteCall::SetMuted { .. } => Some("Could not update mute: "),
        RemoteCall::Participants { .. } => Some("Could not load members: "),
        RemoteCall::Kick { .. } => Some("Kick failed: "),
        _ => None,
    }
}

/// What the interface is told when `call` failed with the message `err`:
/// an upload ends (its progress bar goes) before its error; a group that
/// could not be made is tried again as a supergroup, returned as the call
/// to make.
pub fn call_failed(call: &RemoteCall, err: &str) -> (r: (Vec<UiMessage>, Option<RemoteCall>))
    ensures
        (match *call {
            RemoteCall::CreateGroup { title, about, members: _ } => r.0@.len() == 0 && r.1 == Some(
                RemoteCall::CreateChannel { title, about, megagroup: true },
            ),
            RemoteCall::Upload { id, path: _, caption: _, reply_to: _, token } => r.1 is None && r.0@.len() == 2
                && r.0@[0] == (UiMessage::UploadDone { chat_id: id, token }) && is_error(r.0@[1], "Send failed: "@ + err@),
            _ => r.1 is None && match failure_prefix(*call) {
                Some(p) => r.0@.len() == 1 && is_error(r.0@[0], p + err@),
                None => r.0@.len() == 0,
            },
        }),
{
    let mut msgs: Vec<UiMessage> = Vec::new();
    match call {
        RemoteCall::CreateGroup { title, about, members: _ } => {
            return (msgs, Some(RemoteCall::CreateChannel { title: title.clone(), about: about.clone(), megagroup: true }));
        },
        RemoteCall::Upload { id, path: _, caption: _, reply_to: _, token } => {
            msgs.push(UiMessage::UploadDone { chat_id: *id, token: *token });
        },
        _ => {},
    }
    match prefix_of(call) {
        Some(p) => {
            msgs.push(UiMessage::Error(concat(p, err)));
        },
        None => {},
    }
    (msgs, None)
}

/// What the interface is told when `call` succeeded without data: a read
/// mark clears the badge, an upload ends, a pin or unpin moves the banner,
/// a member is removed, a left or deleted chat is gone. (Histories, packs,
/// results, details, members and the refreshed chat list carry data and
/// are sent by the runtime.)
pub fn call_done(call: &RemoteCall) -> (msgs: Vec<UiMessage>)
    ensures
        msgs@ == (match *call {
            RemoteCall::MarkRead { id } => seq![UiMessage::ChatRead { id }],
            RemoteCall::Upload { id, path: _, caption: _, reply_to: _, token } => seq![
                UiMessage::UploadDone { chat_id: id, token },
            ],
            RemoteCall::Pin { id, msg_id, pin } => seq![
                UiMessage::PinnedMessage { chat_id: id, msg_id: if pin { Some(msg_id) } else { None } },
            ],
            RemoteCall::Kick { id: _, user_id } => seq![UiMessage::ParticipantKicked { user_id }],
            RemoteCall::Leave { id } => seq![UiMessage::ChatGone { id }],
            RemoteCall::DeleteChat { id } => seq![UiMessage::ChatGone { id }],
            _ => Seq::<UiMessage>::empty(),
        }),
{
    let mut msgs: Vec<UiMessage> = Vec::new();
    match call {
        RemoteCall::MarkRead { id } => msgs.push(UiMessage::ChatRead { id: *id }),
        RemoteCall::Upload { id, path: _, caption: _, reply_to: _, token } => msgs.push(
            UiMessage::UploadDone { chat_id: *id, token: *token },
        ),
        RemoteCall::Pin { id, msg_id, pin } => msgs.push(
            UiMessage::PinnedMessage { chat_id: *id, msg_id: if *pin { Some(*msg_id) } else { None } },
        ),
        RemoteCall::Kick { id: _, user_id } => msgs.push(UiMessage::ParticipantKicked { user_id: *user_id }),
        RemoteCall::Leave { id } => msgs.push(UiMessage::ChatGone { id: *id }),
        RemoteCall::DeleteChat { id } => msgs.push(UiMessage::ChatGone { id: *id }),
        _ => {},
    }
    proof {
        assert(msgs@ =~= (match *call {
            RemoteCall::MarkRead { id } => seq![UiMessage::ChatRead { id }],
            RemoteCall::Upload { id, path: _, caption: _, reply_to: _, token } => seq![
                UiMessage::UploadDone { chat_id: id, token },
            ],
            RemoteCall::Pin { id, msg_id, pin } => seq![
                UiMessage::PinnedMessage { chat_id: id, msg_id: if pin { Some(msg_id) } else { None } },
            ],
            RemoteCall::Kick { id: _, user_id } => seq![UiMessage::ParticipantKicked { user_id }],
            RemoteCall::Leave { id } => seq![UiMessage::ChatGone { id }],
            RemoteCall::DeleteChat { id } => seq![UiMessage::ChatGone { id }],
            _ => Seq::<UiMessage>::empty(),
        }));
    }
    msgs
}

/// Upload progress in thousandths: the share of `total` bytes sent, all of
/// it when the size is unknown (zero), never above the whole.
pub fn upload_progress(sent: u64, total: u64) -> (p: u16)
    ensures
        total == 0 ==> p == 1000,
        total > 0 ==> p == (if sent >= total { 1000 } else { (sent as int * 1000 / total as int) as u16 }),
{
    if total == 0 || sent >= total {
        return 1000;
    }
    let p = (sent as u128) * 1000 / (total as u128);
    proof {
        assert((sent as int) * 1000 / (total as int) < 1000) by (nonlinear_arith)
            requires
                sent < total,
                total > 0,
        ;
    }
    p as u16
}

} // verus!
