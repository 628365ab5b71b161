//! The client's interface state and its transitions: what every user action
//! and every network message does to it, and which requests it queues for
//! the network.
//!
//! The state is grouped by concern (sign-in, chat list, open conversation,
//! composer, info panel, topics, search, settings...), so each transition
//! states exactly which groups it changes.

use vstd::prelude::*;
use std::collections::HashMap;
use crate::bridge::{
    UiMessage, DocKind, DocMeta, StickerMeta, ChatDetail, ChatKind, ChatRow, MsgRow, MyProfile, ParticipantRow, Request, SearchHit, SessionInfo,
    StickerSetBridge, TopicRow,
};
use crate::state::{
    AdminConfirm, ConfirmKind, ContextMenu, CreateKind, LoginStep, QrStage, ReplyTarget,
    SearchMode, SettingsTab,
};
use crate::theme::ThemeMode;
use crate::text::{spec_trim, spec_trim_end, string_from_chars, trim_chars, trim_end_seq, push_str};
use crate::format::{nat_str, u64_digits};
use crate::format::{ellipsize, spec_ellipsize};
use crate::state::{spec_admin_menu, admin_menu_items, AdminAction, preview_text, spec_preview, push_recent, spec_push_recent, views};

verus! {

/// Sign-in flow.
#[derive(Debug)]
pub struct Login {
    /// True once the account is signed in (chat UI active).
    pub authenticated: bool,
    /// True between login completing and the dialog list arriving.
    pub connecting: bool,
    pub login_step: LoginStep,
    pub login_input: String,
    pub login_error: bool,
    /// True when the sign-in screen shows the QR pane.
    pub login_qr_selected: bool,
    /// QR sign-in progress.
    pub qr_stage: QrStage,
    /// On-disk PNG of the current login QR code, once generated.
    pub qr_png_path: Option<String>,
    /// Last QR sign-in failure.
    pub qr_error: Option<String>,
}

/// The chat list pane and its row-level menus.
#[derive(Debug)]
pub struct ChatList {
    pub dialogs: Vec<ChatRow>,
    /// Pre-ellipsized labels `(title, subtitle)`, aligned with `dialogs`.
    pub dialog_short: Vec<(String, String)>,
    /// Chat to re-open when the dialog list arrives.
    pub initial_chat: Option<i64>,
    /// Open the first chat once the list arrives.
    pub auto_open_first: bool,
    /// Right-click mini menu over a chat-list row (id of that chat).
    pub row_menu: Option<i64>,
    /// Destructive action pending confirmation: (kind, chat id).
    pub confirm_leave: Option<(ConfirmKind, i64)>,
    /// The header "+" picker menu (New Group / New Channel) is open.
    pub create_menu_open: bool,
}

/// The open conversation.
#[derive(Debug)]
pub struct Conversation {
    pub open_chat: Option<i64>,
    pub chat_title: String,
    /// The visible (topic-filtered) messages.
    pub messages: Vec<MsgRow>,
    /// Full history of the open chat; `messages` is its topic-filtered view.
    pub topic_all_messages: Vec<MsgRow>,
    /// True while the open chat's history hasn't arrived yet.
    pub loading: bool,
    /// The peer of the open chat is typing.
    pub typing: bool,
    /// Id of the open chat's pinned message.
    pub pinned_id: Option<i32>,
    /// Bumped on any change that affects message row heights or offsets.
    pub layout_epoch: u64,
}

/// Where the message list should scroll and what the shell should open.
#[derive(Debug)]
pub struct Viewport {
    /// True once the message list should be scrolled to the bottom.
    pub scroll_to_bottom: bool,
    /// Message the list should scroll to (the shell turns it into an
    /// offset).
    pub scroll_target: Option<i32>,
    /// Id of a message to jump to once it appears in the history.
    pub pending_jump_id: Option<i32>,
    /// Full-screen photo viewer path, if any.
    pub viewer: Option<String>,
    /// A downloaded document the user asked to open (consumed by the shell).
    pub open_file: Option<String>,
}

/// The composer and the per-message interactions around it.
#[derive(Debug)]
pub struct Composer {
    /// Composer text (fresh message, or the edited text).
    pub composer: String,
    /// Message id being edited; its old text lives in `composer`.
    pub editing: Option<i32>,
    /// Message the composer is replying to, if any.
    pub reply_target: Option<ReplyTarget>,
    /// Open context menu, if any.
    pub context_menu: Option<ContextMenu>,
    /// Index of the message being forwarded (chat-picker overlay open).
    pub forward_pick: Option<usize>,
    /// The emoji picker panel above the composer is open.
    pub emoji_panel_open: bool,
    /// The sticker picker panel is open.
    pub sticker_picker_open: bool,
}

/// The group/channel creation modal.
#[derive(Debug)]
pub struct CreateFlow {
    /// Open creation modal, if any.
    pub create_dialog: Option<CreateKind>,
    /// Title typed in the creation modal.
    pub create_title: String,
    /// Description typed for a channel.
    pub create_about: String,
    /// Checkable contacts shown when creating a group: `(id, name, checked)`.
    pub member_pick: Vec<(i64, String, bool)>,
}

/// The right-hand info panel (chat details + members).
#[derive(Debug)]
pub struct InfoPanel {
    pub info_open: bool,
    /// Latest fetched detail of the open chat.
    pub chat_info: Option<ChatDetail>,
    /// Members of the open group/channel.
    pub participants: Vec<ParticipantRow>,
    /// Member id awaiting kick confirmation.
    pub kick_confirm: Option<i64>,
    /// Member id whose admin context menu is open.
    pub admin_menu: Option<i64>,
    /// Destructive admin action pending confirmation: (kind, member id).
    pub admin_confirm: Option<(AdminConfirm, i64)>,
    /// Bot-api id of the signed-in user.
    pub admin_self_id: Option<i64>,
    /// Local mute flag of the open chat.
    pub muted: bool,
}

/// Forum topics of the open chat.
#[derive(Debug)]
pub struct Topics {
    pub topic_topics: Vec<TopicRow>,
    /// True when the open chat is a forum.
    pub topic_is_forum: bool,
    /// Selected topic's root message id (`None` = all messages).
    pub topic_selected: Option<i32>,
    /// The inline create-topic field is open.
    pub topic_creating: bool,
    /// Title input of the inline create-topic field.
    pub topic_title: String,
}

/// The search UI.
#[derive(Debug)]
pub struct Search {
    /// Active search UI, if any: global or in-chat.
    pub search_mode: Option<SearchMode>,
    /// Live query of the search field.
    pub search_query: String,
    /// Latest search hits.
    pub search_hits: Vec<SearchHit>,
    /// True while a search result may still arrive.
    pub search_pending: bool,
}

/// The settings sheet.
#[derive(Debug)]
pub struct Settings {
    pub settings_open: bool,
    pub settings_tab: SettingsTab,
    /// The signed-in user's own profile.
    pub my_profile: Option<MyProfile>,
    /// First-name input of the profile edit form.
    pub edit_name: String,
    /// Last-name input of the profile edit form.
    pub edit_last_name: String,
    /// Bio input of the profile edit form.
    pub edit_bio: String,
    /// Active account sessions.
    pub sessions: Vec<SessionInfo>,
    /// Media cache size in bytes (`Some` once measured).
    pub cache_bytes: Option<u64>,
    /// The "Clear cache" action awaits confirmation.
    pub confirm_clear_cache: bool,
    /// The "Log out" action awaits confirmation.
    pub confirm_logout: bool,
}

/// Preferences that survive sign-out.
#[derive(Debug)]
pub struct Prefs {
    /// Current color scheme.
    pub theme_mode: ThemeMode,
    /// Recently used emojis, most recent first.
    pub emoji_recents: Vec<String>,
    /// Desktop notifications preference.
    pub notifications_on: bool,
    /// Persist/restore UI state (last open chat, recents, theme,
    /// notifications).
    pub persist_ui: bool,
}

/// What the shell does with the audio device after a voice-note click.
#[derive(Debug, Clone, PartialEq, Eq)]
pub enum VoiceAction {
    /// End the simulated playback of the system player.
    Stop,
    /// Pause the playing note.
    Pause,
    /// Resume the paused note.
    Resume,
    /// Play the note again from the start (it had finished).
    Restart(String),
    /// Start the note from the start (another note, or none, was playing).
    Play(String),
}

/// Sticker packs and media sends.
#[derive(Debug)]
pub struct Media {
    /// Installed sticker packs.
    pub sticker_sets: Vec<StickerSetBridge>,
    /// Downloaded picker thumbnails keyed by document id.
    pub sticker_thumbs: HashMap<i64, String>,
    /// Voice note currently playing (or paused): (chat_id, msg_id, path).
    pub playing_voice: Option<(i64, i32, String)>,
    /// True while the voice note is actively playing (not paused).
    pub voice_playing: bool,
    /// True while a note's progress is simulated because the system player
    /// plays it.
    pub voice_sim: bool,
    /// A clicked voice note the shell resolves with [`State::voice_click`]:
    /// (chat_id, msg_id, path).
    pub voice_request: Option<(i64, i32, String)>,
    /// A downloaded voice note the shell starts playing now (it reports the
    /// outcome with [`State::voice_started`]).
    pub voice_start: Option<String>,
    /// The shell stops the audio device (a chat was opened).
    pub audio_stop: bool,
    /// Token source for optimistic media sends.
    pub next_media_token: u64,
}

/// Application state. Requests for the network are queued in `outbox`, in
/// the order they are made; the runtime drains it.
#[derive(Debug)]
pub struct State {
    /// Requests queued for the network runtime, oldest first.
    pub outbox: Vec<Request>,
    /// Status line (sign-in prompts, errors).
    pub status: String,
    pub login: Login,
    pub list: ChatList,
    pub chat: Conversation,
    pub view: Viewport,
    pub compose: Composer,
    pub create: CreateFlow,
    pub info: InfoPanel,
    pub topics: Topics,
    pub search: Search,
    pub settings: Settings,
    pub prefs: Prefs,
    pub media: Media,
}

/// `s1` is `s0` with the other color scheme.
pub open spec fn theme_toggled(s0: State, s1: State) -> bool {
    s1 == (State {
        prefs: Prefs {
            theme_mode: match s0.prefs.theme_mode {
                ThemeMode::Dark => ThemeMode::Light,
                ThemeMode::Light => ThemeMode::Dark,
            },
            ..s0.prefs
        },
        ..s0
    })
}

/// `s1` is `s0` with desktop notifications flipped.
pub open spec fn notifications_toggled(s0: State, s1: State) -> bool {
    s1 == (State { prefs: Prefs { notifications_on: !s0.prefs.notifications_on, ..s0.prefs }, ..s0 })
}

/// The effect of Escape on the topmost overlay (see [`State::escape`]).
pub open spec fn escaped(s0: State, s1: State) -> bool {
    &&& (s0.search.search_mode is Some ==> {
        &&& search_cleared(s1.search)
        &&& s1 == (State {
            search: s1.search,
            view: Viewport { pending_jump_id: None, ..s0.view },
            ..s0
        })
    })
    &&& (s0.search.search_mode is None ==> if s0.topics.topic_creating {
        &&& s1.topics.topic_title@ == Seq::<char>::empty()
        &&& s1 == (State {
            topics: Topics {
                topic_creating: false,
                topic_title: s1.topics.topic_title,
                ..s0.topics
            },
            ..s0
        })
    } else if s0.settings.confirm_logout {
        s1 == (State {
            settings: Settings { confirm_logout: false, ..s0.settings },
            ..s0
        })
    } else if s0.compose.sticker_picker_open {
        s1 == (State {
            compose: Composer { sticker_picker_open: false, ..s0.compose },
            ..s0
        })
    } else if s0.info.kick_confirm is Some {
        s1 == (State {
            info: InfoPanel { kick_confirm: None, ..s0.info },
            ..s0
        })
    } else if s0.info.admin_confirm is Some {
        s1 == (State {
            info: InfoPanel { admin_confirm: None, ..s0.info },
            ..s0
        })
    } else if s0.info.admin_menu is Some {
        s1 == (State {
            info: InfoPanel { admin_menu: None, ..s0.info },
            ..s0
        })
    } else if s0.info.info_open {
        s1 == (State {
            info: InfoPanel { info_open: false, ..s0.info },
            ..s0
        })
    } else if s0.create.create_dialog is Some {
        &&& create_cleared(s1.create)
        &&& s1 == (State {
            create: s1.create,
            chat: Conversation {
                layout_epoch: bump(s0.chat.layout_epoch),
                ..s0.chat
            },
            ..s0
        })
    } else if s0.list.row_menu is Some {
        s1 == (State {
            list: ChatList { row_menu: None, ..s0.list },
            ..s0
        })
    } else if s0.list.confirm_leave is Some {
        s1 == (State {
            list: ChatList { confirm_leave: None, ..s0.list },
            ..s0
        })
    } else if s0.compose.emoji_panel_open {
        s1 == (State {
            compose: Composer { emoji_panel_open: false, ..s0.compose },
            ..s0
        })
    } else if s0.settings.settings_open {
        s1 == (State {
            settings: Settings {
                settings_open: false,
                confirm_clear_cache: false,
                ..s0.settings
            },
            ..s0
        })
    } else {
        &&& (s0.compose.editing is Some ==> s1.compose.composer@
            == Seq::<char>::empty())
        &&& (s0.compose.editing is None ==> s1.compose.composer
            == s0.compose.composer)
        &&& s1 == (State {
            compose: Composer {
                composer: s1.compose.composer,
                context_menu: None,
                editing: None,
                reply_target: None,
                forward_pick: None,
                ..s0.compose
            },
            chat: if s0.compose.forward_pick is Some {
                s0.chat
            } else {
                Conversation {
                    layout_epoch: bump(s0.chat.layout_epoch),
                    ..s0.chat
                }
            },
            ..s0
        })
    })
}

/// The next layout epoch (wrapping).
pub open spec fn bump(e: u64) -> u64 {
    if e == u64::MAX {
        0
    } else {
        (e + 1) as u64
    }
}

fn next_epoch(e: u64) -> (n: u64)
    ensures
        n == bump(e),
{
    if e == u64::MAX {
        0
    } else {
        e + 1
    }
}

/// `s` without leading and trailing whitespace, as a `String`.
fn trimmed(s: &str) -> (t: String)
    ensures
        t@ == spec_trim(s@),
{
    let cs = trim_chars(s);
    string_from_chars(&cs)
}

/// Some member of `ps` has the id `id`.
pub open spec fn has_member(ps: Seq<ParticipantRow>, id: i64) -> bool {
    exists|k: int| 0 <= k < ps.len() && (#[trigger] ps[k]).id == id
}

/// Index of the first member of `ps` (from `i`) with the id `id`.
pub open spec fn first_member(ps: Seq<ParticipantRow>, id: i64, i: int) -> Option<int>
    decreases ps.len() - i,
{
    if i < 0 || i >= ps.len() {
        None
    } else if ps[i].id == id {
        Some(i)
    } else {
        first_member(ps, id, i + 1)
    }
}

proof fn lemma_first_member(ps: Seq<ParticipantRow>, id: i64, i: int)
    requires
        0 <= i,
    ensures
        first_member(ps, id, i) matches Some(k) ==> i <= k < ps.len() && ps[k].id == id,
        first_member(ps, id, i) is None ==> forall|k: int| i <= k < ps.len() ==> (#[trigger] ps[k]).id != id,
    decreases ps.len() - i,
{
    if i < ps.len() && ps[i].id != id {
        lemma_first_member(ps, id, i + 1);
    }
}

fn find_member(ps: &Vec<ParticipantRow>, id: i64) -> (r: Option<usize>)
    ensures
        r matches Some(k) ==> first_member(ps@, id, 0) == Some(k as int) && k < ps.len(),
        r is None ==> first_member(ps@, id, 0) is None,
        r is Some <==> has_member(ps@, id),
{
    let mut i: usize = 0;
    proof {
        lemma_first_member(ps@, id, 0);
    }
    while i < ps.len()
        invariant
            i <= ps.len(),
            first_member(ps@, id, 0) == first_member(ps@, id, i as int),
            forall|k: int| 0 <= k < i ==> (#[trigger] ps@[k]).id != id,
        decreases ps.len() - i,
    {
        if ps[i].id == id {
            return Some(i);
        }
        i = i + 1;
    }
    None
}

/// Ids of the checked entries of the member picker, in order.
pub open spec fn checked_ids(mp: Seq<(i64, String, bool)>) -> Seq<i64>
    decreases mp.len(),
{
    if mp.len() == 0 {
        Seq::empty()
    } else if mp.last().2 {
        checked_ids(mp.drop_last()).push(mp.last().0)
    } else {
        checked_ids(mp.drop_last())
    }
}

fn checked_members(mp: &Vec<(i64, String, bool)>) -> (ids: Vec<i64>)
    ensures
        ids@ == checked_ids(mp@),
{
    let mut ids: Vec<i64> = Vec::new();
    let mut i: usize = 0;
    while i < mp.len()
        invariant
            i <= mp.len(),
            ids@ == checked_ids(mp@.take(i as int)),
        decreases mp.len() - i,
    {
        proof {
            assert(mp@.take(i as int + 1).drop_last() =~= mp@.take(i as int));
        }
        if mp[i].2 {
            ids.push(mp[i].0);
        }
        i = i + 1;
    }
    proof {
        assert(mp@.take(mp.len() as int) =~= mp@);
    }
    ids
}

/// `ms` without the messages whose id is `id`.
pub open spec fn without_id(ms: Seq<MsgRow>, id: i32) -> Seq<MsgRow>
    decreases ms.len(),
{
    if ms.len() == 0 {
        Seq::empty()
    } else if ms.last().id == id {
        without_id(ms.drop_last(), id)
    } else {
        without_id(ms.drop_last(), id).push(ms.last())
    }
}

fn remove_id(ms: &mut Vec<MsgRow>, id: i32)
    ensures
        final(ms)@ == without_id(old(ms)@, id),
{
    let mut rest: Vec<MsgRow> = Vec::new();
    std::mem::swap(&mut rest, ms);
    let ghost orig = rest@;
    let mut out: Vec<MsgRow> = Vec::new();
    let mut k: usize = 0;
    let n = rest.len();
    proof {
        assert(orig.take(0) =~= Seq::<MsgRow>::empty());
    }
    while rest.len() > 0
        invariant
            k + rest.len() == n,
            orig.len() == n,
            rest@ == orig.skip(k as int),
            out@ == without_id(orig.take(k as int), id),
        decreases rest.len(),
    {
        let x = rest.remove(0);
        proof {
            assert(orig.take(k as int + 1).drop_last() =~= orig.take(k as int));
            assert(orig.take(k as int + 1).last() == x);
            assert(rest@ =~= orig.skip(k as int + 1));
        }
        if x.id != id {
            out.push(x);
        }
        k = k + 1;
    }
    proof {
        assert(orig.take(n as int) =~= orig);
    }
    *ms = out;
}

/// The pin flags after pinning (`pin`) or unpinning message `id`: that
/// message takes the flag; a pin unpins every other message.
pub open spec fn repinned(ms: Seq<MsgRow>, id: i32, pin: bool) -> Seq<MsgRow> {
    ms.map_values(
        |x: MsgRow|
            MsgRow {
                pinned: if x.id == id {
                    pin
                } else if pin {
                    false
                } else {
                    x.pinned
                },
                ..x
            },
    )
}

fn repin(ms: &mut Vec<MsgRow>, id: i32, pin: bool)
    ensures
        final(ms)@ == repinned(old(ms)@, id, pin),
{
    let mut rest: Vec<MsgRow> = Vec::new();
    std::mem::swap(&mut rest, ms);
    let ghost orig = rest@;
    let mut out: Vec<MsgRow> = Vec::new();
    let mut k: usize = 0;
    let n = rest.len();
    while rest.len() > 0
        invariant
            k + rest.len() == n,
            orig.len() == n,
            rest@ == orig.skip(k as int),
            out@ == repinned(orig.take(k as int), id, pin),
        decreases rest.len(),
    {
        let mut x = rest.remove(0);
        proof {
            assert(rest@ =~= orig.skip(k as int + 1));
        }
        if x.id == id {
            x.pinned = pin;
        } else if pin {
            x.pinned = false;
        }
        out.push(x);
        proof {
            assert(out@ =~= repinned(orig.take(k as int + 1), id, pin));
        }
        k = k + 1;
    }
    proof {
        assert(orig.take(n as int) =~= orig);
    }
    *ms = out;
}

/// Some message of `ms` has the id `id`.
pub open spec fn has_msg(ms: Seq<MsgRow>, id: i32) -> bool {
    exists|k: int| 0 <= k < ms.len() && (#[trigger] ms[k]).id == id
}

fn find_msg(ms: &Vec<MsgRow>, id: i32) -> (b: bool)
    ensures
        b == has_msg(ms@, id),
{
    let mut i: usize = 0;
    while i < ms.len()
        invariant
            i <= ms.len(),
            forall|k: int| 0 <= k < i ==> (#[trigger] ms@[k]).id != id,
        decreases ms.len() - i,
    {
        if ms[i].id == id {
            return true;
        }
        i = i + 1;
    }
    false
}

/// The member picker seeded from the chat list: every chat, unchecked.
pub open spec fn picker_of(ds: Seq<ChatRow>) -> Seq<(i64, String, bool)> {
    ds.map_values(|d: ChatRow| (d.id, d.title, false))
}

fn member_picker(ds: &Vec<ChatRow>) -> (mp: Vec<(i64, String, bool)>)
    ensures
        mp@ == picker_of(ds@),
{
    let mut mp: Vec<(i64, String, bool)> = Vec::new();
    let mut i: usize = 0;
    while i < ds.len()
        invariant
            i <= ds.len(),
            mp@ == picker_of(ds@.take(i as int)),
        decreases ds.len() - i,
    {
        mp.push((ds[i].id, ds[i].title.clone(), false));
        proof {
            assert(mp@ =~= picker_of(ds@.take(i as int + 1)));
        }
        i = i + 1;
    }
    proof {
        assert(ds@.take(ds.len() as int) =~= ds@);
    }
    mp
}

/// The context menu's target can be edited: an own text message.
pub open spec fn can_edit_target(s: State) -> bool {
    s.compose.context_menu matches Some(c) && c.row < s.chat.messages.len() && {
        let m = s.chat.messages@[c.row as int];
        m.out && m.doc is None && m.sticker is None
    }
}

/// `a` followed by `b`, as a `String`.
fn concat(a: &str, b: &str) -> (s: String)
    ensures
        s@ == a@ + b@,
{
    let mut cs = crate::text::chars_of(a);
    crate::text::push_str(&mut cs, b);
    string_from_chars(&cs)
}

/// `m` belongs to the thread of the topic rooted at `root`: the root itself
/// or a message replying to it.
pub open spec fn in_thread(m: MsgRow, root: i32) -> bool {
    m.id == root || m.reply_to == Some(root)
}

/// The messages of `all` in the thread of `root`, in order.
pub open spec fn thread_of(all: Seq<MsgRow>, root: i32) -> Seq<MsgRow>
    decreases all.len(),
{
    if all.len() == 0 {
        Seq::empty()
    } else if in_thread(all.last(), root) {
        thread_of(all.drop_last(), root).push(all.last())
    } else {
        thread_of(all.drop_last(), root)
    }
}

/// The visible part of the history for a topic selection (`None` = all).
pub open spec fn spec_topic_view(all: Seq<MsgRow>, selected: Option<i32>) -> Seq<MsgRow> {
    match selected {
        None => all,
        Some(root) => thread_of(all, root),
    }
}

fn topic_view(all: &Vec<MsgRow>, selected: Option<i32>) -> (v: Vec<MsgRow>)
    ensures
        v@ == spec_topic_view(all@, selected),
{
    let mut v: Vec<MsgRow> = Vec::new();
    let mut i: usize = 0;
    while i < all.len()
        invariant
            i <= all.len(),
            v@ == spec_topic_view(all@.take(i as int), selected),
        decreases all.len() - i,
    {
        proof {
            assert(all@.take(i as int + 1).drop_last() =~= all@.take(i as int));
        }
        let m = &all[i];
        let keep = match selected {
            None => true,
            Some(root) => m.id == root || m.reply_to == Some(root),
        };
        if keep {
            v.push(m.duplicate());
        }
        i = i + 1;
    }
    proof {
        assert(all@.take(all.len() as int) =~= all@);
    }
    v
}

/// Index of the first message of `rows` (from `i`) with the id `id`.
pub open spec fn first_with_id(rows: Seq<MsgRow>, id: i32, i: int) -> Option<int>
    decreases rows.len() - i,
{
    if i < 0 || i >= rows.len() {
        None
    } else if rows[i].id == id {
        Some(i)
    } else {
        first_with_id(rows, id, i + 1)
    }
}

/// `m` is the optimistic local copy (id 0) of the echoed `row`: same text,
/// or an upload of ours.
pub open spec fn echoes(m: MsgRow, row: MsgRow) -> bool {
    m.id == 0 && (m.text@ == row.text@ || (m.uploading is Some && row.out))
}

/// Index of the first optimistic copy of `row` in `rows` (from `i`).
pub open spec fn first_echo(rows: Seq<MsgRow>, row: MsgRow, i: int) -> Option<int>
    decreases rows.len() - i,
{
    if i < 0 || i >= rows.len() {
        None
    } else if echoes(rows[i], row) {
        Some(i)
    } else {
        first_echo(rows, row, i + 1)
    }
}

proof fn lemma_first_with_id(rows: Seq<MsgRow>, id: i32, i: int)
    requires
        0 <= i,
    ensures
        first_with_id(rows, id, i) matches Some(k) ==> i <= k < rows.len() && rows[k].id == id,
    decreases rows.len() - i,
{
    if i < rows.len() && rows[i].id != id {
        lemma_first_with_id(rows, id, i + 1);
    }
}

proof fn lemma_first_echo(rows: Seq<MsgRow>, row: MsgRow, i: int)
    requires
        0 <= i,
    ensures
        first_echo(rows, row, i) matches Some(k) ==> i <= k < rows.len() && echoes(rows[k], row),
    decreases rows.len() - i,
{
    if i < rows.len() && !echoes(rows[i], row) {
        lemma_first_echo(rows, row, i + 1);
    }
}

/// A known message updated by its echo `row`: content and attachments
/// follow the echo, the upload is over; paths, date, read and pin stay.
pub open spec fn refreshed(m: MsgRow, row: MsgRow) -> MsgRow {
    MsgRow {
        text: row.text,
        out: row.out,
        photo: row.photo,
        doc: row.doc,
        sticker: row.sticker,
        reply_to: row.reply_to,
        forwarded_from: row.forwarded_from,
        uploading: None,
        ..m
    }
}

/// The echo `row` replacing the optimistic copy `m`: the local attachments
/// and downloaded paths win, the upload is over.
pub open spec fn settled(m: MsgRow, row: MsgRow) -> MsgRow {
    MsgRow {
        photo: if m.photo is Some { m.photo } else { row.photo },
        doc: if m.doc is Some { m.doc } else { row.doc },
        sticker: if m.sticker is Some { m.sticker } else { row.sticker },
        photo_path: m.photo_path,
        doc_path: m.doc_path,
        sticker_path: m.sticker_path,
        uploading: None,
        ..row
    }
}

/// `rows` after merging the incoming message `row`: a known id is
/// refreshed, else the first optimistic copy is replaced, else the message
/// is appended.
pub open spec fn merged(rows: Seq<MsgRow>, row: MsgRow) -> Seq<MsgRow> {
    match first_with_id(rows, row.id, 0) {
        Some(k) => rows.update(k, refreshed(rows[k], row)),
        None => match first_echo(rows, row, 0) {
            Some(k) => rows.update(k, settled(rows[k], row)),
            None => rows.push(row),
        },
    }
}

fn merge_new_message(rows: &mut Vec<MsgRow>, row: MsgRow)
    ensures
        final(rows)@ == merged(old(rows)@, row),
{
    let ghost r0 = rows@;
    let mut i: usize = 0;
    while i < rows.len()
        invariant
            i <= rows.len(),
            rows@ == r0,
            r0 == old(rows)@,
            first_with_id(r0, row.id, 0) == first_with_id(r0, row.id, i as int),
        decreases rows.len() - i,
    {
        if rows[i].id == row.id {
            assert(first_with_id(r0, row.id, i as int) == Some(i as int));
            let m = rows.remove(i);
            let upd = MsgRow {
                text: row.text,
                out: row.out,
                photo: row.photo,
                doc: row.doc,
                sticker: row.sticker,
                reply_to: row.reply_to,
                forwarded_from: row.forwarded_from,
                uploading: None,
                ..m
            };
            rows.insert(i, upd);
            proof {
                assert(rows@ =~= r0.update(i as int, refreshed(r0[i as int], row)));
            }
            return;
        }
        i = i + 1;
    }
    assert(first_with_id(r0, row.id, i as int) is None);
    let mut j: usize = 0;
    while j < rows.len()
        invariant
            j <= rows.len(),
            rows@ == r0,
            r0 == old(rows)@,
            first_with_id(r0, row.id, 0) is None,
            first_echo(r0, row, 0) == first_echo(r0, row, j as int),
        decreases rows.len() - j,
    {
        let hit = rows[j].id == 0 && (rows[j].text == row.text || (rows[j].uploading.is_some()
            && row.out));
        if hit {
            assert(echoes(r0[j as int], row));
            assert(first_echo(r0, row, j as int) == Some(j as int));
            let m = rows.remove(j);
            let photo = if m.photo.is_some() {
                m.photo
            } else {
                row.photo
            };
            let doc = if m.doc.is_some() {
                m.doc
            } else {
                row.doc
            };
            let sticker = if m.sticker.is_some() {
                m.sticker
            } else {
                row.sticker
            };
            let upd = MsgRow {
                photo,
                doc,
                sticker,
                photo_path: m.photo_path,
                doc_path: m.doc_path,
                sticker_path: m.sticker_path,
                uploading: None,
                ..row
            };
            rows.insert(j, upd);
            proof {
                assert(rows@ =~= r0.update(j as int, settled(r0[j as int], row)));
            }
            return;
        }
        assert(!echoes(r0[j as int], row));
        j = j + 1;
    }
    assert(first_echo(r0, row, j as int) is None);
    rows.push(row);
}

/// `f` is the info panel `i` closed and emptied (the self id stays).
pub open spec fn info_cleared(i: InfoPanel, f: InfoPanel) -> bool {
    &&& f.participants@ == Seq::<ParticipantRow>::empty()
    &&& f == InfoPanel {
        info_open: false,
        chat_info: None,
        participants: f.participants,
        kick_confirm: None,
        admin_menu: None,
        admin_confirm: None,
        muted: false,
        ..i
    }
}

/// `f` holds no topic state.
pub open spec fn topics_cleared(f: Topics) -> bool {
    &&& f.topic_topics@ == Seq::<TopicRow>::empty()
    &&& f.topic_title@ == Seq::<char>::empty()
    &&& !f.topic_is_forum
    &&& f.topic_selected is None
    &&& !f.topic_creating
}

/// `f` is `ms` with the text of every message `id` replaced by `t`.
pub open spec fn retexted(ms: Seq<MsgRow>, f: Seq<MsgRow>, id: i32, t: Seq<char>) -> bool {
    &&& f.len() == ms.len()
    &&& forall|k: int|
        0 <= k < ms.len() ==> if (#[trigger] ms[k]).id == id {
            f[k] == MsgRow { text: f[k].text, ..ms[k] } && f[k].text@ == t
        } else {
            f[k] == ms[k]
        }
}

fn retext(ms: &mut Vec<MsgRow>, id: i32, t: &String)
    ensures
        retexted(old(ms)@, final(ms)@, id, t@),
{
    let ghost m0 = ms@;
    let mut i: usize = 0;
    while i < ms.len()
        invariant
            i <= ms.len(),
            ms.len() == m0.len(),
            m0 == old(ms)@,
            forall|k: int|
                0 <= k < i ==> if (#[trigger] m0[k]).id == id {
                    ms@[k] == MsgRow { text: ms@[k].text, ..m0[k] } && ms@[k].text@ == t@
                } else {
                    ms@[k] == m0[k]
                },
            forall|k: int| i <= k < ms.len() ==> #[trigger] ms@[k] == m0[k],
        decreases ms.len() - i,
    {
        if ms[i].id == id {
            let m = ms.remove(i);
            ms.insert(i, MsgRow { text: t.clone(), ..m });
        }
        i = i + 1;
    }
}

/// The sign-in flow of a signed-out client, with the QR pane as `l` had it.
pub open spec fn signed_out(l: Login, f: Login) -> bool {
    &&& f.login_input@ == Seq::<char>::empty()
    &&& f == Login {
        authenticated: false,
        connecting: false,
        login_step: LoginStep::Phone,
        login_input: f.login_input,
        login_error: false,
        ..l
    }
}

/// A closed, empty search UI.
pub open spec fn search_cleared(f: Search) -> bool {
    &&& f.search_mode is None
    &&& f.search_query@ == Seq::<char>::empty()
    &&& f.search_hits@ == Seq::<SearchHit>::empty()
    &&& !f.search_pending
}

/// A closed settings sheet that knows nothing of the account.
pub open spec fn settings_cleared(f: Settings) -> bool {
    &&& !f.settings_open
    &&& f.settings_tab == SettingsTab::Profile
    &&& f.my_profile is None
    &&& f.edit_name@ == Seq::<char>::empty()
    &&& f.edit_last_name@ == Seq::<char>::empty()
    &&& f.edit_bio@ == Seq::<char>::empty()
    &&& f.sessions@ == Seq::<SessionInfo>::empty()
    &&& f.cache_bytes is None
    &&& !f.confirm_clear_cache
    &&& !f.confirm_logout
}

/// A closed creation modal with no draft.
pub open spec fn create_cleared(f: CreateFlow) -> bool {
    &&& f.create_dialog is None
    &&& f.create_title@ == Seq::<char>::empty()
    &&& f.create_about@ == Seq::<char>::empty()
    &&& f.member_pick@ == Seq::<(i64, String, bool)>::empty()
}

/// An idle composer with no text and nothing pending.
pub open spec fn composer_cleared(f: Composer) -> bool {
    &&& f.composer@ == Seq::<char>::empty()
    &&& f.editing is None
    &&& f.reply_target is None
    &&& f.context_menu is None
    &&& f.forward_pick is None
    &&& !f.emoji_panel_open
    &&& !f.sticker_picker_open
}

/// The state of a client that just started: signed out, nothing loaded,
/// nothing open, dark theme, notifications on.
pub open spec fn is_fresh(s: State) -> bool {
    &&& s.outbox@ == Seq::<Request>::empty()
    &&& s.status@ == Seq::<char>::empty()
    &&& s.login.login_input@ == Seq::<char>::empty()
    &&& s.login == Login {
        authenticated: false,
        connecting: false,
        login_step: LoginStep::Phone,
        login_input: s.login.login_input,
        login_error: false,
        login_qr_selected: false,
        qr_stage: QrStage::Idle,
        qr_png_path: None,
        qr_error: None,
    }
    &&& s.list.dialogs@ == Seq::<ChatRow>::empty()
    &&& s.list.dialog_short@ == Seq::<(String, String)>::empty()
    &&& s.list.initial_chat is None
    &&& !s.list.auto_open_first
    &&& s.list.row_menu is None
    &&& s.list.confirm_leave is None
    &&& !s.list.create_menu_open
    &&& s.chat.open_chat is None
    &&& s.chat.chat_title@ == Seq::<char>::empty()
    &&& s.chat.messages@ == Seq::<MsgRow>::empty()
    &&& s.chat.topic_all_messages@ == Seq::<MsgRow>::empty()
    &&& !s.chat.loading
    &&& !s.chat.typing
    &&& s.chat.pinned_id is None
    &&& s.chat.layout_epoch == 0
    &&& s.view == Viewport {
        scroll_to_bottom: false,
        scroll_target: None,
        pending_jump_id: None,
        viewer: None,
        open_file: None,
    }
    &&& composer_cleared(s.compose)
    &&& create_cleared(s.create)
    &&& info_cleared(s.info, s.info) && s.info.admin_self_id is None
    &&& topics_cleared(s.topics)
    &&& search_cleared(s.search)
    &&& settings_cleared(s.settings)
    &&& s.prefs.theme_mode == ThemeMode::Dark
    &&& s.prefs.emoji_recents@ == Seq::<String>::empty()
    &&& s.prefs.notifications_on
    &&& !s.prefs.persist_ui
    &&& s.media.sticker_sets@ == Seq::<StickerSetBridge>::empty()
    &&& s.media.sticker_thumbs@ == Map::<i64, String>::empty()
    &&& s.media.playing_voice is None
    &&& !s.media.voice_playing
    &&& !s.media.voice_sim
    &&& s.media.voice_request is None
    &&& s.media.voice_start is None
    &&& !s.media.audio_stop
    &&& s.media.next_media_token == 1
}

/// Index of the first chat of `ds` (from `i`) with the id `id`.
pub open spec fn first_dialog(ds: Seq<ChatRow>, id: i64, i: int) -> Option<int>
    decreases ds.len() - i,
{
    if i < 0 || i >= ds.len() {
        None
    } else if ds[i].id == id {
        Some(i)
    } else {
        first_dialog(ds, id, i + 1)
    }
}

fn find_dialog(ds: &Vec<ChatRow>, id: i64) -> (r: Option<usize>)
    ensures
        r matches Some(k) ==> first_dialog(ds@, id, 0) == Some(k as int) && k < ds.len() && ds@[k as int].id == id,
        r is None ==> first_dialog(ds@, id, 0) is None,
{
    let mut i: usize = 0;
    while i < ds.len()
        invariant
            i <= ds.len(),
            first_dialog(ds@, id, 0) == first_dialog(ds@, id, i as int),
        decreases ds.len() - i,
    {
        if ds[i].id == id {
            return Some(i);
        }
        i = i + 1;
    }
    None
}

/// Index of the first message of `ms` with the id `id`, computed.
fn find_msg_index(ms: &Vec<MsgRow>, id: i32) -> (r: Option<usize>)
    ensures
        r matches Some(k) ==> first_with_id(ms@, id, 0) == Some(k as int) && k < ms.len() && ms@[k as int].id == id,
        r is None ==> first_with_id(ms@, id, 0) is None,
{
    let mut i: usize = 0;
    while i < ms.len()
        invariant
            i <= ms.len(),
            first_with_id(ms@, id, 0) == first_with_id(ms@, id, i as int),
        decreases ms.len() - i,
    {
        if ms[i].id == id {
            return Some(i);
        }
        i = i + 1;
    }
    None
}

/// The list labels of a chat row: title and subtitle, ellipsized.
pub open spec fn short_of(d: ChatRow) -> (Seq<char>, Seq<char>) {
    (spec_ellipsize(d.title@, 15), spec_ellipsize(d.subtitle@, 20))
}

/// `sh` holds the labels of the rows `ds`, in order.
pub open spec fn shorts_of(ds: Seq<ChatRow>, sh: Seq<(String, String)>) -> bool {
    &&& sh.len() == ds.len()
    &&& forall|k: int| 0 <= k < ds.len() ==> ((#[trigger] sh[k]).0@, sh[k].1@) == short_of(ds[k])
}

/// `f` is the label list `sh` with the labels of row `d` at `pos` (padded
/// with empty labels up to `pos`).
pub open spec fn shorts_refreshed(sh: Seq<(String, String)>, f: Seq<(String, String)>, pos: int, d: ChatRow) -> bool {
    &&& f.len() == (if sh.len() > pos { sh.len() as int } else { pos + 1 })
    &&& forall|k: int|
        0 <= k < f.len() ==> if k == pos {
            ((#[trigger] f[k]).0@, f[k].1@) == short_of(d)
        } else if k < sh.len() {
            f[k] == sh[k]
        } else {
            f[k].0@ == Seq::<char>::empty() && f[k].1@ == Seq::<char>::empty()
        }
}

fn labels(ds: &Vec<ChatRow>) -> (sh: Vec<(String, String)>)
    ensures
        shorts_of(ds@, sh@),
{
    let mut sh: Vec<(String, String)> = Vec::new();
    let mut i: usize = 0;
    while i < ds.len()
        invariant
            i <= ds.len(),
            sh.len() == i,
            forall|k: int| 0 <= k < i ==> ((#[trigger] sh@[k]).0@, sh@[k].1@) == short_of(ds@[k]),
        decreases ds.len() - i,
    {
        let t = ellipsize(ds[i].title.as_str(), 15);
        let st = ellipsize(ds[i].subtitle.as_str(), 20);
        sh.push((t, st));
        i = i + 1;
    }
    sh
}

fn pad_labels(sh: &mut Vec<(String, String)>, pos: usize)
    ensures
        final(sh).len() == (if old(sh).len() > pos { old(sh).len() as int } else { pos + 1 }),
        forall|k: int| 0 <= k < old(sh).len() ==> #[trigger] final(sh)@[k] == old(sh)@[k],
        forall|k: int|
            old(sh).len() <= k < final(sh).len() ==> (#[trigger] final(sh)@[k]).0@ == Seq::<char>::empty()
                && final(sh)@[k].1@ == Seq::<char>::empty(),
{
    let ghost sh0 = sh@;
    while sh.len() <= pos
        invariant
            sh0 == old(sh)@,
            sh0.len() <= sh.len(),
            sh.len() <= (if sh0.len() > pos { sh0.len() as int } else { pos + 1 }),
            forall|k: int| 0 <= k < sh0.len() ==> #[trigger] sh@[k] == sh0[k],
            forall|k: int|
                sh0.len() <= k < sh.len() ==> (#[trigger] sh@[k]).0@ == Seq::<char>::empty()
                    && sh@[k].1@ == Seq::<char>::empty(),
        decreases pos + 1 - sh.len(),
    {
        sh.push((String::new(), String::new()));
    }
}

/// The row of the last pinned message of `rows`, if any.
pub open spec fn last_pinned(rows: Seq<MsgRow>) -> Option<i32>
    decreases rows.len(),
{
    if rows.len() == 0 {
        None
    } else if rows.last().pinned {
        Some(rows.last().id)
    } else {
        last_pinned(rows.drop_last())
    }
}

fn find_last_pinned(rows: &Vec<MsgRow>) -> (r: Option<i32>)
    ensures
        r == last_pinned(rows@),
{
    let mut i: usize = rows.len();
    proof {
        assert(rows@.take(rows.len() as int) =~= rows@);
    }
    while i > 0
        invariant
            i <= rows.len(),
            last_pinned(rows@) == last_pinned(rows@.take(i as int)),
        decreases i,
    {
        proof {
            assert(rows@.take(i as int).drop_last() =~= rows@.take(i as int - 1));
        }
        if rows[i - 1].pinned {
            return Some(rows[i - 1].id);
        }
        i = i - 1;
    }
    proof {
        assert(rows@.take(0) =~= Seq::<MsgRow>::empty());
    }
    None
}

/// Ids of the stored messages (id > 0) with a sticker whose image is not
/// there yet, in order.
pub open spec fn missing_stickers(ms: Seq<MsgRow>) -> Seq<i32>
    decreases ms.len(),
{
    if ms.len() == 0 {
        Seq::empty()
    } else {
        let m = ms.last();
        if m.id > 0 && m.sticker is Some && m.sticker_path is None {
            missing_stickers(ms.drop_last()).push(m.id)
        } else {
            missing_stickers(ms.drop_last())
        }
    }
}

/// `out` is `o` followed by one `DownloadSticker` per id of `ids`.
pub open spec fn sticker_requests(o: Seq<Request>, chat_id: i64, ids: Seq<i32>) -> Seq<Request>
    decreases ids.len(),
{
    if ids.len() == 0 {
        o
    } else {
        sticker_requests(o, chat_id, ids.drop_last()).push(
            Request::DownloadSticker { chat_id, msg_id: ids.last() },
        )
    }
}

/// `s1` is `s0` after opening chat `id`: an empty, loading conversation
/// with every conversation-scoped overlay closed, playback stopped, and
/// the history, read mark and topic list queued.
pub open spec fn opened(s0: State, s1: State, id: i64) -> bool {
    &&& s1.outbox@ == s0.outbox@.push(Request::OpenChat { id }).push(
            Request::MarkRead { id },
        ).push(Request::GetTopics { id })
    &&& s1.chat.messages@ == Seq::<MsgRow>::empty()
    &&& s1.chat.topic_all_messages@ == Seq::<MsgRow>::empty()
    &&& s1.chat.chat_title@ == Seq::<char>::empty()
    &&& s1.chat == (Conversation {
            open_chat: Some(id),
            messages: s1.chat.messages,
            topic_all_messages: s1.chat.topic_all_messages,
            chat_title: s1.chat.chat_title,
            loading: true,
            pinned_id: None,
            layout_epoch: bump(s0.chat.layout_epoch),
            ..s0.chat
        })
    &&& s1.compose.composer@ == Seq::<char>::empty()
    &&& s1.compose == (Composer {
            composer: s1.compose.composer,
            editing: None,
            reply_target: None,
            context_menu: None,
            forward_pick: None,
            emoji_panel_open: false,
            sticker_picker_open: false,
        })
    &&& info_cleared(s0.info, s1.info)
    &&& topics_cleared(s1.topics)
    &&& s1 == (State {
            outbox: s1.outbox,
            chat: s1.chat,
            compose: s1.compose,
            info: s1.info,
            topics: s1.topics,
            view: Viewport { pending_jump_id: None, ..s0.view },
            media: Media {
                playing_voice: None,
                voice_playing: false,
                voice_sim: false,
                audio_stop: true,
                ..s0.media
            },
            ..s0
        })
}

/// `s1` is `s0` after closing the open chat: no conversation, and the
/// conversation-scoped overlays closed.
pub open spec fn closed(s0: State, s1: State) -> bool {
    &&& s1.chat.messages@ == Seq::<MsgRow>::empty()
    &&& s1.chat.topic_all_messages@ == Seq::<MsgRow>::empty()
    &&& s1.chat == (Conversation {
            open_chat: None,
            messages: s1.chat.messages,
            topic_all_messages: s1.chat.topic_all_messages,
            pinned_id: None,
            layout_epoch: bump(s0.chat.layout_epoch),
            ..s0.chat
        })
    &&& info_cleared(s0.info, s1.info)
    &&& topics_cleared(s1.topics)
    &&& s1 == (State {
            chat: s1.chat,
            compose: Composer {
                editing: None,
                context_menu: None,
                emoji_panel_open: false,
                sticker_picker_open: false,
                ..s0.compose
            },
            info: s1.info,
            topics: s1.topics,
            ..s0
        })
}

/// The message row built from a live `NewMessage`: nothing downloaded, no
/// upload, not read, not pinned.
pub open spec fn incoming_row(
    id: i32,
    text: String,
    date: i32,
    out: bool,
    photo: Option<(u32, u32)>,
    doc: Option<DocMeta>,
    sticker: Option<StickerMeta>,
    reply_to: Option<i32>,
    forwarded_from: Option<String>,
    sender_name: Option<String>,
    sender_id: Option<i64>,
) -> MsgRow {
    MsgRow {
        id,
        text,
        date,
        out,
        photo,
        doc,
        sticker,
        reply_to,
        forwarded_from,
        sender_name,
        sender_id,
        ..MsgRow::spec_text(0, text, 0, false)
    }
}

/// The visible list after the stored history `all` received message `id`:
/// the stored row is merged into `shown` when it belongs to the selected
/// topic (or no topic is selected).
pub open spec fn shown_after(shown: Seq<MsgRow>, all: Seq<MsgRow>, id: i32, selected: Option<i32>) -> Seq<MsgRow> {
    match first_with_id(all, id, 0) {
        Some(k) => if (match selected {
            None => true,
            Some(root) => in_thread(all[k], root),
        }) {
            merged(shown, all[k])
        } else {
            shown
        },
        None => shown,
    }
}

fn queue_missing_stickers(out: &mut Vec<Request>, chat_id: i64, ms: &Vec<MsgRow>)
    ensures
        final(out)@ == sticker_requests(old(out)@, chat_id, missing_stickers(ms@)),
{
    let ghost o0 = out@;
    let mut i: usize = 0;
    proof {
        assert(ms@.take(0) =~= Seq::<MsgRow>::empty());
    }
    while i < ms.len()
        invariant
            i <= ms.len(),
            o0 == old(out)@,
            out@ == sticker_requests(o0, chat_id, missing_stickers(ms@.take(i as int))),
        decreases ms.len() - i,
    {
        proof {
            assert(ms@.take(i as int + 1).drop_last() =~= ms@.take(i as int));
        }
        let m = &ms[i];
        proof {
            assert(ms@.take(i as int + 1).last() == ms@[i as int]);
        }
        if m.id > 0 && m.sticker.is_some() && m.sticker_path.is_none() {
            out.push(Request::DownloadSticker { chat_id, msg_id: m.id });
            proof {
                let ids = missing_stickers(ms@.take(i as int));
                assert(ids.push(m.id).drop_last() =~= ids);
            }
        }
        i = i + 1;
    }
    proof {
        assert(ms@.take(ms.len() as int) =~= ms@);
    }
}

/// `f` is `ms` with the first message `id` (if any) given the text `t` and
/// the date `date`.
pub open spec fn edited_first(ms: Seq<MsgRow>, f: Seq<MsgRow>, id: i32, t: Seq<char>, date: i32) -> bool {
    match first_with_id(ms, id, 0) {
        None => f == ms,
        Some(k) => f == ms.update(k, MsgRow { text: f[k].text, date, ..ms[k] }) && f[k].text@ == t,
    }
}

fn edit_first(ms: &mut Vec<MsgRow>, id: i32, text: String, date: i32)
    ensures
        edited_first(old(ms)@, final(ms)@, id, text@, date),
{
    match find_msg_index(ms, id) {
        Some(k) => {
            proof {
                lemma_first_with_id(ms@, id, 0);
            }
            let ghost m0 = ms@;
            let m = ms.remove(k);
            ms.insert(k, MsgRow { text, date, ..m });
            proof {
                assert(ms@ =~= m0.update(k as int, MsgRow { text: ms@[k as int].text, date, ..m0[k as int] }));
            }
        },
        None => {},
    }
}

/// `ms` without the messages whose id is in `ids`.
pub open spec fn without_ids(ms: Seq<MsgRow>, ids: Seq<i32>) -> Seq<MsgRow>
    decreases ms.len(),
{
    if ms.len() == 0 {
        Seq::empty()
    } else if ids.contains(ms.last().id) {
        without_ids(ms.drop_last(), ids)
    } else {
        without_ids(ms.drop_last(), ids).push(ms.last())
    }
}

fn contains_id(ids: &Vec<i32>, id: i32) -> (b: bool)
    ensures
        b == ids@.contains(id),
{
    let mut i: usize = 0;
    while i < ids.len()
        invariant
            i <= ids.len(),
            forall|k: int| 0 <= k < i ==> ids@[k] != id,
        decreases ids.len() - i,
    {
        if ids[i] == id {
            return true;
        }
        i = i + 1;
    }
    false
}

fn remove_ids(ms: &mut Vec<MsgRow>, ids: &Vec<i32>)
    ensures
        final(ms)@ == without_ids(old(ms)@, ids@),
{
    let mut rest: Vec<MsgRow> = Vec::new();
    std::mem::swap(&mut rest, ms);
    let ghost orig = rest@;
    let mut out: Vec<MsgRow> = Vec::new();
    let mut k: usize = 0;
    let n = rest.len();
    proof {
        assert(orig.take(0) =~= Seq::<MsgRow>::empty());
    }
    while rest.len() > 0
        invariant
            k + rest.len() == n,
            orig.len() == n,
            rest@ == orig.skip(k as int),
            out@ == without_ids(orig.take(k as int), ids@),
        decreases rest.len(),
    {
        let x = rest.remove(0);
        proof {
            assert(orig.take(k as int + 1).drop_last() =~= orig.take(k as int));
            assert(orig.take(k as int + 1).last() == x);
            assert(rest@ =~= orig.skip(k as int + 1));
        }
        if !contains_id(ids, x.id) {
            out.push(x);
        }
        k = k + 1;
    }
    proof {
        assert(orig.take(n as int) =~= orig);
    }
    *ms = out;
}

/// The pin flags following the authoritative pinned message `pinned`.
pub open spec fn pins_synced(ms: Seq<MsgRow>, pinned: Option<i32>) -> Seq<MsgRow> {
    ms.map_values(|x: MsgRow| MsgRow { pinned: pinned == Some(x.id), ..x })
}

fn sync_pins(ms: &mut Vec<MsgRow>, pinned: Option<i32>)
    ensures
        final(ms)@ == pins_synced(old(ms)@, pinned),
{
    let mut rest: Vec<MsgRow> = Vec::new();
    std::mem::swap(&mut rest, ms);
    let ghost orig = rest@;
    let mut out: Vec<MsgRow> = Vec::new();
    let mut k: usize = 0;
    let n = rest.len();
    while rest.len() > 0
        invariant
            k + rest.len() == n,
            orig.len() == n,
            rest@ == orig.skip(k as int),
            out@ == pins_synced(orig.take(k as int), pinned),
        decreases rest.len(),
    {
        let mut x = rest.remove(0);
        proof {
            assert(rest@ =~= orig.skip(k as int + 1));
        }
        x.pinned = pinned == Some(x.id);
        out.push(x);
        proof {
            assert(out@ =~= pins_synced(orig.take(k as int + 1), pinned));
        }
        k = k + 1;
    }
    proof {
        assert(orig.take(n as int) =~= orig);
    }
    *ms = out;
}

/// `f` is `ms` with the first message `id` (if any) given the photo path
/// `p` (`which == 0`), document path (`1`) or sticker path (`2`).
pub open spec fn path_set(ms: Seq<MsgRow>, f: Seq<MsgRow>, id: i32, which: u8, p: Option<String>) -> bool {
    match first_with_id(ms, id, 0) {
        None => f == ms,
        Some(k) => f == ms.update(
            k,
            if which == 0 {
                MsgRow { photo_path: p, ..ms[k] }
            } else if which == 1 {
                MsgRow { doc_path: p, ..ms[k] }
            } else {
                MsgRow { sticker_path: p, ..ms[k] }
            },
        ),
    }
}

fn set_path(ms: &mut Vec<MsgRow>, id: i32, which: u8, p: Option<String>)
    ensures
        path_set(old(ms)@, final(ms)@, id, which, p),
{
    match find_msg_index(ms, id) {
        Some(k) => {
            proof {
                lemma_first_with_id(ms@, id, 0);
            }
            let ghost m0 = ms@;
            let m = ms.remove(k);
            let upd = if which == 0 {
                MsgRow { photo_path: p, ..m }
            } else if which == 1 {
                MsgRow { doc_path: p, ..m }
            } else {
                MsgRow { sticker_path: p, ..m }
            };
            ms.insert(k, upd);
            proof {
                assert(ms@ =~= m0.update(k as int, upd));
            }
        },
        None => {},
    }
}

proof fn lemma_first_dialog_update(ds: Seq<ChatRow>, id: i64, i: int, pos: int, x: ChatRow)
    requires
        0 <= i,
        first_dialog(ds, id, i) == Some(pos),
        x.id == id,
    ensures
        first_dialog(ds.update(pos, x), id, i) == Some(pos),
    decreases ds.len() - i,
{
    lemma_first_dialog_bounds(ds, id, i);
    if i < ds.len() && ds[i].id != id {
        assert(ds.update(pos, x)[i] == ds[i]);
        lemma_first_dialog_update(ds, id, i + 1, pos, x);
    }
}

proof fn lemma_first_dialog_bounds(ds: Seq<ChatRow>, id: i64, i: int)
    requires
        0 <= i,
    ensures
        first_dialog(ds, id, i) matches Some(k) ==> i <= k < ds.len() && ds[k].id == id,
    decreases ds.len() - i,
{
    if i < ds.len() && ds[i].id != id {
        lemma_first_dialog_bounds(ds, id, i + 1);
    }
}

/// `s1` is `s0` after picking the topic chip `root` (`None` = all): the
/// visible list becomes that thread of the history, scrolled to the
/// bottom; re-picking the selected chip changes nothing.
pub open spec fn topic_selected_to(s0: State, s1: State, root: Option<i32>) -> bool {
    &&& s0.topics.topic_selected == root ==> s1 == s0
    &&& s0.topics.topic_selected != root ==> {
        &&& s1.chat.messages@ == spec_topic_view(s0.chat.topic_all_messages@, root)
        &&& s1 == (State {
            topics: Topics { topic_selected: root, ..s0.topics },
            chat: Conversation {
                messages: s1.chat.messages,
                layout_epoch: bump(s0.chat.layout_epoch),
                ..s0.chat
            },
            view: Viewport { scroll_to_bottom: true, ..s0.view },
            ..s0
        })
    }
}

/// `f` is `ms` with the first message of upload `token` (still uploading,
/// when `active`) given the progress `p`.
pub open spec fn first_upload(ms: Seq<MsgRow>, token: u64, active: bool, i: int) -> Option<int>
    decreases ms.len() - i,
{
    if i < 0 || i >= ms.len() {
        None
    } else if ms[i].upload_token == Some(token) && (!active || ms[i].uploading is Some) {
        Some(i)
    } else {
        first_upload(ms, token, active, i + 1)
    }
}

fn set_upload(ms: &mut Vec<MsgRow>, token: u64, active: bool, p: u16)
    ensures
        match first_upload(old(ms)@, token, active, 0) {
            None => final(ms)@ == old(ms)@,
            Some(k) => final(ms)@ == old(ms)@.update(k, MsgRow { uploading: Some(p), ..old(ms)@[k] }),
        },
{
    let ghost m0 = ms@;
    let mut i: usize = 0;
    while i < ms.len()
        invariant
            i <= ms.len(),
            ms@ == m0,
            m0 == old(ms)@,
            first_upload(m0, token, active, 0) == first_upload(m0, token, active, i as int),
        decreases ms.len() - i,
    {
        if ms[i].upload_token == Some(token) && (!active || ms[i].uploading.is_some()) {
            let m = ms.remove(i);
            ms.insert(i, MsgRow { uploading: Some(p), ..m });
            proof {
                assert(ms@ =~= m0.update(i as int, MsgRow { uploading: Some(p), ..m0[i as int] }));
            }
            return;
        }
        i = i + 1;
    }
}

/// Read marks: every outgoing message (with an id up to `max_id`, when
/// given) is read.
pub open spec fn read_marked(ms: Seq<MsgRow>, max_id: Option<i32>) -> Seq<MsgRow> {
    ms.map_values(
        |x: MsgRow|
            if x.out && (match max_id {
                Some(mx) => x.id <= mx,
                None => true,
            }) {
                MsgRow { read: true, ..x }
            } else {
                x
            },
    )
}

fn mark_read(ms: &mut Vec<MsgRow>, max_id: Option<i32>)
    ensures
        final(ms)@ == read_marked(old(ms)@, max_id),
{
    let mut rest: Vec<MsgRow> = Vec::new();
    std::mem::swap(&mut rest, ms);
    let ghost orig = rest@;
    let mut out: Vec<MsgRow> = Vec::new();
    let mut k: usize = 0;
    let n = rest.len();
    while rest.len() > 0
        invariant
            k + rest.len() == n,
            orig.len() == n,
            rest@ == orig.skip(k as int),
            out@ == read_marked(orig.take(k as int), max_id),
        decreases rest.len(),
    {
        let mut x = rest.remove(0);
        proof {
            assert(rest@ =~= orig.skip(k as int + 1));
        }
        let hit = x.out && match max_id {
            Some(mx) => x.id <= mx,
            None => true,
        };
        if hit {
            x.read = true;
        }
        out.push(x);
        proof {
            assert(out@ =~= read_marked(orig.take(k as int + 1), max_id));
        }
        k = k + 1;
    }
    proof {
        assert(orig.take(n as int) =~= orig);
    }
    *ms = out;
}

/// `ps` without the members whose id is `id`.
pub open spec fn without_member(ps: Seq<ParticipantRow>, id: i64) -> Seq<ParticipantRow>
    decreases ps.len(),
{
    if ps.len() == 0 {
        Seq::empty()
    } else if ps.last().id == id {
        without_member(ps.drop_last(), id)
    } else {
        without_member(ps.drop_last(), id).push(ps.last())
    }
}

fn remove_member(ps: &mut Vec<ParticipantRow>, id: i64)
    ensures
        final(ps)@ == without_member(old(ps)@, id),
{
    let mut rest: Vec<ParticipantRow> = Vec::new();
    std::mem::swap(&mut rest, ps);
    let ghost orig = rest@;
    let mut out: Vec<ParticipantRow> = Vec::new();
    let mut k: usize = 0;
    let n = rest.len();
    proof {
        assert(orig.take(0) =~= Seq::<ParticipantRow>::empty());
    }
    while rest.len() > 0
        invariant
            k + rest.len() == n,
            orig.len() == n,
            rest@ == orig.skip(k as int),
            out@ == without_member(orig.take(k as int), id),
        decreases rest.len(),
    {
        let x = rest.remove(0);
        proof {
            assert(orig.take(k as int + 1).drop_last() =~= orig.take(k as int));
            assert(orig.take(k as int + 1).last() == x);
            assert(rest@ =~= orig.skip(k as int + 1));
        }
        if x.id != id {
            out.push(x);
        }
        k = k + 1;
    }
    proof {
        assert(orig.take(n as int) =~= orig);
    }
    *ps = out;
}

/// `ss` without the sessions whose hash is `hash`.
pub open spec fn without_session(ss: Seq<SessionInfo>, hash: i64) -> Seq<SessionInfo>
    decreases ss.len(),
{
    if ss.len() == 0 {
        Seq::empty()
    } else if ss.last().hash == hash {
        without_session(ss.drop_last(), hash)
    } else {
        without_session(ss.drop_last(), hash).push(ss.last())
    }
}

fn remove_session(ss: &mut Vec<SessionInfo>, hash: i64)
    ensures
        final(ss)@ == without_session(old(ss)@, hash),
{
    let mut rest: Vec<SessionInfo> = Vec::new();
    std::mem::swap(&mut rest, ss);
    let ghost orig = rest@;
    let mut out: Vec<SessionInfo> = Vec::new();
    let mut k: usize = 0;
    let n = rest.len();
    proof {
        assert(orig.take(0) =~= Seq::<SessionInfo>::empty());
    }
    while rest.len() > 0
        invariant
            k + rest.len() == n,
            orig.len() == n,
            rest@ == orig.skip(k as int),
            out@ == without_session(orig.take(k as int), hash),
        decreases rest.len(),
    {
        let x = rest.remove(0);
        proof {
            assert(orig.take(k as int + 1).drop_last() =~= orig.take(k as int));
            assert(orig.take(k as int + 1).last() == x);
            assert(rest@ =~= orig.skip(k as int + 1));
        }
        if x.hash != hash {
            out.push(x);
        }
        k = k + 1;
    }
    proof {
        assert(orig.take(n as int) =~= orig);
    }
    *ss = out;
}

/// Some topic of `ts` has the id `id`.
pub open spec fn has_topic(ts: Seq<TopicRow>, id: i64) -> bool {
    exists|k: int| 0 <= k < ts.len() && (#[trigger] ts[k]).id == id
}

fn find_topic(ts: &Vec<TopicRow>, id: i64) -> (b: bool)
    ensures
        b == has_topic(ts@, id),
{
    let mut i: usize = 0;
    while i < ts.len()
        invariant
            i <= ts.len(),
            forall|k: int| 0 <= k < i ==> (#[trigger] ts@[k]).id != id,
        decreases ts.len() - i,
    {
        if ts[i].id == id {
            return true;
        }
        i = i + 1;
    }
    false
}

/// The first name of the profile edit form: the display name without its
/// last-name suffix (when it ends with it), without trailing whitespace.
pub open spec fn first_name_of(name: Seq<char>, last: Option<Seq<char>>) -> Seq<char> {
    match last {
        Some(l) => if l.len() <= name.len() && name.subrange(name.len() - l.len(), name.len() as int) == l {
            spec_trim_end(name.take(name.len() - l.len()))
        } else {
            spec_trim_end(name)
        },
        None => spec_trim_end(name),
    }
}

fn first_name(name: &String, last: &Option<String>) -> (f: String)
    ensures
        f@ == first_name_of(name@, match last {
            Some(l) => Some(l@),
            None => None,
        }),
{
    let cs = crate::text::chars_of(name.as_str());
    let base = match last {
        Some(l) => {
            let ls = crate::text::chars_of(l.as_str());
            if ls.len() <= cs.len() {
                let start = cs.len() - ls.len();
                let mut same = true;
                let mut k: usize = 0;
                while k < ls.len()
                    invariant
                        k <= ls.len(),
                        start + ls.len() == cs.len(),
                        same == (forall|j: int| 0 <= j < k ==> cs@[start + j] == ls@[j]),
                    decreases ls.len() - k,
                {
                    if cs[start + k] != ls[k] {
                        same = false;
                    }
                    k = k + 1;
                }
                proof {
                    if same {
                        assert(cs@.subrange(start as int, cs.len() as int) =~= ls@);
                    } else {
                        if cs@.subrange(start as int, cs.len() as int) == ls@ {
                            assert forall|j: int| 0 <= j < ls.len() implies cs@[start + j] == ls@[j] by {
                                assert(cs@.subrange(start as int, cs.len() as int)[j] == cs@[start + j]);
                            }
                        }
                    }
                }
                if same {
                    let t = crate::text::sub_vec(&cs, 0, start);
                    assert(t@ =~= cs@.take(start as int));
                    t
                } else {
                    cs
                }
            } else {
                cs
            }
        },
        None => cs,
    };
    let t = trim_end_seq(&base);
    string_from_chars(&t)
}

/// `"Signed in as <name>"`, and ` — <n> chats` when the list is known.
pub open spec fn signed_in_text(name: Seq<char>, n: nat) -> Seq<char> {
    if n == 0 {
        "Signed in as "@ + name
    } else {
        "Signed in as "@ + name + " — "@ + nat_str(n) + " chats"@
    }
}

/// The prompt of the 2FA step, with the password hint when there is one.
pub open spec fn password_prompt(hint: Seq<char>) -> Seq<char> {
    if hint.len() == 0 {
        "Enter your two-step verification password"@
    } else {
        "Two-step verification (hint: "@ + hint + ")"@
    }
}

/// The effect of `Connecting` on a state.
pub open spec fn connecting_applied(s0: State, s1: State) -> bool {
    &&& s1 == (State { login: Login { connecting: true, ..s0.login }, ..s0 })
}

/// The effect of `Dialogs` on a state.
pub open spec fn dialogs_applied(s0: State, s1: State, rows: Vec<ChatRow>) -> bool {
    &&& s1.list.dialogs == rows
    &&& shorts_of(rows@, s1.list.dialog_short@)
    &&& s1 == (State {
        list: ChatList {
            dialogs: s1.list.dialogs,
            dialog_short: s1.list.dialog_short,
            ..s0.list
        },
        login: Login { authenticated: true, ..s0.login },
        ..s0
    })
}

/// The effect of `Messages` on a state.
pub open spec fn messages_applied(s0: State, s1: State, id: i64, title: String, rows: Vec<MsgRow>) -> bool {
    &&& s0.chat.open_chat != Some(id) ==> s1 == s0
    &&& s0.chat.open_chat == Some(id) ==> {
        let shown = spec_topic_view(rows@, s0.topics.topic_selected);
        let grew = s0.chat.messages.len() == 0 || shown.len() > s0.chat.messages.len();
        &&& s1.chat.messages@ == shown
        &&& s1.chat == (Conversation {
            chat_title: title,
            pinned_id: last_pinned(rows@),
            topic_all_messages: rows,
            messages: s1.chat.messages,
            loading: false,
            layout_epoch: bump(s0.chat.layout_epoch),
            ..s0.chat
        })
        &&& s1.view == (match s0.view.pending_jump_id {
            Some(j) => if has_msg(shown, j) {
                Viewport {
                    scroll_to_bottom: false,
                    scroll_target: Some(j),
                    pending_jump_id: None,
                    ..s0.view
                }
            } else {
                Viewport {
                    scroll_to_bottom: grew || s0.view.scroll_to_bottom,
                    pending_jump_id: None,
                    ..s0.view
                }
            },
            None => Viewport {
                scroll_to_bottom: grew || s0.view.scroll_to_bottom,
                ..s0.view
            },
        })
        &&& s1 == (State {
            chat: s1.chat,
            view: s1.view,
            compose: Composer { editing: None, context_menu: None, ..s0.compose },
            ..s0
        })
    }
}

/// The effect of `NewMessage` on a state.
pub open spec fn new_message_applied(s0: State, s1: State, chat_id: i64, id: i32, text: String, date: i32, out: bool, photo: Option<(u32, u32)>, doc: Option<DocMeta>, sticker: Option<StickerMeta>, reply_to: Option<i32>, forwarded_from: Option<String>, sender_name: Option<String>, sender_id: Option<i64>) -> bool {
    &&& s0.chat.open_chat == Some(chat_id) ==> {
        let row = incoming_row(
            id,
            text,
            date,
            out,
            photo,
            doc,
            sticker,
            reply_to,
            forwarded_from,
            sender_name,
            sender_id,
        );
        let all = merged(s0.chat.topic_all_messages@, row);
        &&& s1.chat.topic_all_messages@ == all
        &&& s1.chat.messages@ == shown_after(
            s0.chat.messages@,
            all,
            id,
            s0.topics.topic_selected,
        )
        &&& s1.outbox@ == sticker_requests(s0.outbox@, chat_id, missing_stickers(all))
        &&& s1 == (State {
            outbox: s1.outbox,
            chat: Conversation {
                topic_all_messages: s1.chat.topic_all_messages,
                messages: s1.chat.messages,
                loading: false,
                typing: if out { s0.chat.typing } else { false },
                layout_epoch: bump(s0.chat.layout_epoch),
                ..s0.chat
            },
            view: Viewport { scroll_to_bottom: true, ..s0.view },
            ..s0
        })
    }
    &&& s0.chat.open_chat != Some(chat_id) ==> match first_dialog(
        s0.list.dialogs@,
        chat_id,
        0,
    ) {
        None => s1 == s0,
        Some(pos) => {
            let d = s0.list.dialogs@[pos];
            let nd = s1.list.dialogs@[pos];
            &&& nd.subtitle@ == spec_preview(text@, photo, doc, sticker)
            &&& nd == (ChatRow {
                subtitle: nd.subtitle,
                date,
                unread: if out { d.unread } else { (d.unread + 1) as i32 },
                ..d
            })
            &&& s1.list.dialogs@ == s0.list.dialogs@.update(pos, nd)
            &&& shorts_refreshed(s0.list.dialog_short@, s1.list.dialog_short@, pos, nd)
            &&& s1 == (State {
                list: ChatList {
                    dialogs: s1.list.dialogs,
                    dialog_short: s1.list.dialog_short,
                    ..s0.list
                },
                ..s0
            })
        },
    }
}

/// The effect of `MessageEdited` on a state.
pub open spec fn message_edited_applied(s0: State, s1: State, chat_id: i64, id: i32, text: String, date: i32) -> bool {
    &&& s0.chat.open_chat == Some(chat_id) ==> {
        &&& edited_first(s0.chat.messages@, s1.chat.messages@, id, text@, date)
        &&& edited_first(
            s0.chat.topic_all_messages@,
            s1.chat.topic_all_messages@,
            id,
            text@,
            date,
        )
        &&& s1 == (State {
            chat: Conversation {
                messages: s1.chat.messages,
                topic_all_messages: s1.chat.topic_all_messages,
                layout_epoch: bump(s0.chat.layout_epoch),
                ..s0.chat
            },
            ..s0
        })
    }
    &&& s0.chat.open_chat != Some(chat_id) ==> match first_dialog(
        s0.list.dialogs@,
        chat_id,
        0,
    ) {
        None => s1 == s0,
        Some(pos) => {
            let nd = ChatRow { subtitle: text, ..s0.list.dialogs@[pos] };
            &&& s1.list.dialogs@ == s0.list.dialogs@.update(pos, nd)
            &&& shorts_refreshed(s0.list.dialog_short@, s1.list.dialog_short@, pos, nd)
            &&& s1 == (State {
                list: ChatList {
                    dialogs: s1.list.dialogs,
                    dialog_short: s1.list.dialog_short,
                    ..s0.list
                },
                ..s0
            })
        },
    }
}

/// The effect of `MessageDeleted` on a state.
pub open spec fn message_deleted_applied(s0: State, s1: State, ids: Vec<i32>) -> bool {
    &&& s1.chat.messages@ == without_ids(s0.chat.messages@, ids@)
    &&& s1.chat.topic_all_messages@ == without_ids(s0.chat.topic_all_messages@, ids@)
    &&& s1 == (State {
        chat: Conversation {
            messages: s1.chat.messages,
            topic_all_messages: s1.chat.topic_all_messages,
            pinned_id: match s0.chat.pinned_id {
                Some(p) => if ids@.contains(p) { None } else { Some(p) },
                None => None,
            },
            layout_epoch: bump(s0.chat.layout_epoch),
            ..s0.chat
        },
        compose: Composer {
            editing: match s0.compose.editing {
                Some(e) => if ids@.contains(e) { None } else { Some(e) },
                None => None,
            },
            context_menu: None,
            ..s0.compose
        },
        ..s0
    })
}

/// The effect of `PinnedMessage` on a state.
pub open spec fn pinned_message_applied(s0: State, s1: State, chat_id: i64, msg_id: Option<i32>) -> bool {
    &&& s0.chat.open_chat != Some(chat_id) ==> s1 == s0
    &&& s0.chat.open_chat == Some(chat_id) ==> {
        &&& s1.chat.messages@ == pins_synced(s0.chat.messages@, msg_id)
        &&& s1 == (State {
            chat: Conversation {
                pinned_id: msg_id,
                messages: s1.chat.messages,
                layout_epoch: bump(s0.chat.layout_epoch),
                ..s0.chat
            },
            ..s0
        })
    }
}

/// The effect of `ChatCreated` on a state.
pub open spec fn chat_created_applied(s0: State, s1: State, id: i64) -> bool {
    &&& opened(
        State { list: ChatList { create_menu_open: false, ..s0.list }, ..s0 },
        s1,
        id,
    )
}

/// The effect of `ChatGone` on a state.
pub open spec fn chat_gone_applied(s0: State, s1: State, id: i64) -> bool {
    &&& ({
        let mid = State {
            list: ChatList {
                row_menu: if s0.list.row_menu == Some(id) {
                    None
                } else {
                    s0.list.row_menu
                },
                confirm_leave: match s0.list.confirm_leave {
                    Some(c) => if c.1 == id { None } else { Some(c) },
                    None => None,
                },
                ..s0.list
            },
            ..s0
        };
        if s0.chat.open_chat == Some(id) {
            closed(mid, s1)
        } else {
            s1 == mid
        }
    })
}

/// The effect of a click on the downloaded voice note `(chat_id, msg_id,
/// path)`, and the action `a` handed to the shell.
pub open spec fn voice_clicked_applied(
    s0: State,
    s1: State,
    chat_id: i64,
    msg_id: i32,
    path: Seq<char>,
    audio_active: bool,
    a: VoiceAction,
) -> bool {
    let same = match s0.media.playing_voice {
        Some(v) => v.0 == chat_id && v.1 == msg_id && v.2@ == path,
        None => false,
    };
    if !same {
        &&& a matches VoiceAction::Play(p) && p@ == path
        &&& s1.media.playing_voice matches Some(v) && v.0 == chat_id && v.1 == msg_id && v.2@ == path
        &&& s1 == (State { media: Media { playing_voice: s1.media.playing_voice, ..s0.media }, ..s0 })
    } else if s0.media.voice_sim {
        &&& a == VoiceAction::Stop
        &&& s1 == (State {
            media: Media { playing_voice: None, voice_playing: false, voice_sim: false, ..s0.media },
            ..s0
        })
    } else if audio_active {
        &&& a == (if s0.media.voice_playing { VoiceAction::Pause } else { VoiceAction::Resume })
        &&& s1 == (State { media: Media { voice_playing: !s0.media.voice_playing, ..s0.media }, ..s0 })
    } else {
        &&& a matches VoiceAction::Restart(p) && p@ == path
        &&& s1 == s0
    }
}

/// The effect of `PhotoReady`, `DocReady` or `StickerPathReady` on a state.
pub open spec fn path_ready_applied(s0: State, s1: State, which: u8, chat_id: i64, msg_id: i32, path: Option<String>) -> bool {
    &&& s0.chat.open_chat != Some(chat_id) ==> s1 == s0
    &&& s0.chat.open_chat == Some(chat_id) ==> {
        &&& path_set(s0.chat.messages@, s1.chat.messages@, msg_id, which, path)
        &&& s1.media == (if which == 1 && path is Some && (match first_with_id(
            s0.chat.messages@,
            msg_id,
            0,
        ) {
            Some(k) => s0.chat.messages@[k].doc matches Some(d) && d.kind
                == (DocKind::Audio { voice: true }),
            None => false,
        }) {
            Media {
                playing_voice: Some((chat_id, msg_id, path.unwrap())),
                voice_start: path,
                ..s0.media
            }
        } else {
            s0.media
        })
        &&& s1 == (State {
            chat: Conversation {
                messages: s1.chat.messages,
                layout_epoch: bump(s0.chat.layout_epoch),
                ..s0.chat
            },
            media: s1.media,
            ..s0
        })
    }
}

/// The effect of `StickerThumbReady` on a state.
pub open spec fn sticker_thumb_ready_applied(s0: State, s1: State, doc_id: i64, path: Option<String>) -> bool {
    &&& match path {
        None => s1 == s0,
        Some(p) => {
            &&& s1.media.sticker_thumbs@ == s0.media.sticker_thumbs@.insert(doc_id, p)
            &&& s1 == (State {
                media: Media { sticker_thumbs: s1.media.sticker_thumbs, ..s0.media },
                ..s0
            })
        },
    }
}

/// The effect of `StickerSets` on a state.
pub open spec fn sticker_sets_applied(s0: State, s1: State, sets: Vec<StickerSetBridge>) -> bool {
    &&& s0.compose.sticker_picker_open || s0.media.sticker_sets@.len() == 0
        ==> s1 == (State { media: Media { sticker_sets: sets, ..s0.media }, ..s0 })
    &&& !(s0.compose.sticker_picker_open || s0.media.sticker_sets@.len() == 0)
        ==> s1 == s0
}

/// The effect of `UploadProgress` or `UploadDone` on a state.
pub open spec fn upload_applied(s0: State, s1: State, chat_id: i64, token: u64, done: bool, progress: u16) -> bool {
    &&& s0.chat.open_chat != Some(chat_id) ==> s1 == s0
    &&& s0.chat.open_chat == Some(chat_id) ==> {
        let p: u16 = if done || progress > 1000 { 1000 } else { progress };
        &&& match first_upload(s0.chat.messages@, token, done, 0) {
            None => s1.chat.messages@ == s0.chat.messages@,
            Some(k) => s1.chat.messages@ == s0.chat.messages@.update(
                k,
                MsgRow { uploading: Some(p), ..s0.chat.messages@[k] },
            ),
        }
        &&& s1 == (State {
            chat: Conversation { messages: s1.chat.messages, ..s0.chat },
            ..s0
        })
    }
}

/// The effect of `SearchResults` on a state.
pub open spec fn search_results_applied(s0: State, s1: State, id: Option<i64>, query: String, hits: Vec<SearchHit>) -> bool {
    &&& ({
        let matches_mode = match (s0.search.search_mode, id) {
            (Some(SearchMode::Global), None) => true,
            (Some(SearchMode::InChat), Some(cid)) => s0.chat.open_chat == Some(cid),
            _ => false,
        };
        if matches_mode && s0.search.search_query@ == query@ {
            s1 == (State {
                search: Search { search_pending: false, search_hits: hits, ..s0.search },
                ..s0
            })
        } else {
            s1 == (State {
                search: Search { search_pending: false, ..s0.search },
                ..s0
            })
        }
    })
}

/// The effect of `ChatRead` on a state.
pub open spec fn chat_read_applied(s0: State, s1: State, id: i64) -> bool {
    &&& s1.list.dialogs@ == (match first_dialog(s0.list.dialogs@, id, 0) {
        Some(pos) => s0.list.dialogs@.update(
            pos,
            ChatRow { unread: 0, ..s0.list.dialogs@[pos] },
        ),
        None => s0.list.dialogs@,
    })
    &&& s1.chat.messages@ == if s0.chat.open_chat == Some(id) {
        read_marked(s0.chat.messages@, None)
    } else {
        s0.chat.messages@
    }
    &&& s1 == (State {
        list: ChatList { dialogs: s1.list.dialogs, ..s0.list },
        chat: Conversation { messages: s1.chat.messages, ..s0.chat },
        ..s0
    })
}

/// The effect of `OutboxRead` on a state.
pub open spec fn outbox_read_applied(s0: State, s1: State, chat_id: i64, max_id: i32) -> bool {
    &&& s0.chat.open_chat != Some(chat_id) ==> s1 == s0
    &&& s0.chat.open_chat == Some(chat_id) ==> {
        &&& s1.chat.messages@ == read_marked(s0.chat.messages@, Some(max_id))
        &&& s1 == (State {
            chat: Conversation { messages: s1.chat.messages, ..s0.chat },
            ..s0
        })
    }
}

/// The effect of `UnreadCount` on a state.
pub open spec fn unread_count_applied(s0: State, s1: State, chat_id: i64, count: i32) -> bool {
    &&& s1.list.dialogs@ == (match first_dialog(s0.list.dialogs@, chat_id, 0) {
        Some(pos) => if count < s0.list.dialogs@[pos].unread {
            s0.list.dialogs@.update(
                pos,
                ChatRow { unread: count, ..s0.list.dialogs@[pos] },
            )
        } else {
            s0.list.dialogs@
        },
        None => s0.list.dialogs@,
    })
    &&& s1 == (State {
        list: ChatList { dialogs: s1.list.dialogs, ..s0.list },
        ..s0
    })
}

/// The effect of `PeerTyping` on a state.
pub open spec fn peer_typing_applied(s0: State, s1: State, chat_id: i64, typing: bool) -> bool {
    &&& s0.chat.open_chat == Some(chat_id) ==> s1 == (State {
        chat: Conversation { typing, ..s0.chat },
        ..s0
    })
    &&& s0.chat.open_chat != Some(chat_id) ==> s1 == s0
}

/// The effect of `AvatarReady` on a state.
pub open spec fn avatar_ready_applied(s0: State, s1: State, chat_id: i64, path: Option<String>) -> bool {
    &&& s1.list.dialogs@ == (match first_dialog(s0.list.dialogs@, chat_id, 0) {
        Some(pos) => s0.list.dialogs@.update(
            pos,
            ChatRow { avatar_path: path, ..s0.list.dialogs@[pos] },
        ),
        None => s0.list.dialogs@,
    })
    &&& s1 == (State {
        list: ChatList { dialogs: s1.list.dialogs, ..s0.list },
        ..s0
    })
}

/// The effect of `ChatInfo` on a state.
pub open spec fn chat_info_applied(s0: State, s1: State, detail: ChatDetail) -> bool {
    &&& s0.chat.open_chat == Some(detail.id) ==> s1 == (State {
        info: InfoPanel { chat_info: Some(detail), ..s0.info },
        ..s0
    })
    &&& s0.chat.open_chat != Some(detail.id) ==> s1 == s0
}

/// The effect of `Participants` on a state.
pub open spec fn participants_applied(s0: State, s1: State, rows: Vec<ParticipantRow>) -> bool {
    &&& !s0.info.info_open ==> s1 == s0
    &&& s0.info.info_open ==> s1 == (State {
        info: InfoPanel {
            kick_confirm: match s0.info.kick_confirm {
                Some(k) => if has_member(rows@, k) { Some(k) } else { None },
                None => None,
            },
            participants: rows,
            ..s0.info
        },
        ..s0
    })
}

/// The effect of `ParticipantKicked` on a state.
pub open spec fn participant_kicked_applied(s0: State, s1: State, user_id: i64) -> bool {
    &&& s1.info.participants@ == without_member(s0.info.participants@, user_id)
    &&& s1 == (State {
        info: InfoPanel {
            participants: s1.info.participants,
            kick_confirm: if s0.info.kick_confirm == Some(user_id) {
                None
            } else {
                s0.info.kick_confirm
            },
            ..s0.info
        },
        ..s0
    })
}

/// The effect of `MemberUpdated` on a state.
pub open spec fn member_updated_applied(s0: State, s1: State, chat_id: i64, user_id: i64) -> bool {
    &&& !(s0.chat.open_chat == Some(chat_id) && s0.info.info_open) ==> s1
        == s0
    &&& s0.chat.open_chat == Some(chat_id) && s0.info.info_open ==> {
        &&& s1.outbox@ == s0.outbox@.push(Request::GetParticipants { id: chat_id })
        &&& s1 == (State {
            outbox: s1.outbox,
            info: InfoPanel {
                admin_confirm: match s0.info.admin_confirm {
                    Some(c) => if c.1 == user_id { None } else { Some(c) },
                    None => None,
                },
                admin_menu: if s0.info.admin_menu == Some(user_id) {
                    None
                } else {
                    s0.info.admin_menu
                },
                ..s0.info
            },
            ..s0
        })
    }
}

/// The effect of `MemberSelfId` on a state.
pub open spec fn member_self_id_applied(s0: State, s1: State, id: i64) -> bool {
    &&& s1 == (State { info: InfoPanel { admin_self_id: Some(id), ..s0.info }, ..s0 })
}

/// The effect of `Topics` on a state.
pub open spec fn topics_applied(s0: State, s1: State, id: i64, is_forum: bool, topics: Vec<TopicRow>) -> bool {
    &&& s0.chat.open_chat == Some(id) ==> s1 == (State {
        topics: Topics { topic_is_forum: is_forum, topic_topics: topics, ..s0.topics },
        ..s0
    })
    &&& s0.chat.open_chat != Some(id) ==> s1 == s0
}

/// The effect of `TopicCreated` on a state.
pub open spec fn topic_created_applied(s0: State, s1: State, chat_id: i64, topic: TopicRow) -> bool {
    &&& s0.chat.open_chat != Some(chat_id) ==> s1 == s0
    &&& s0.chat.open_chat == Some(chat_id) ==> exists|mid: State|
        {
            &&& (if has_topic(s0.topics.topic_topics@, topic.id) {
                mid.topics.topic_topics@ == s0.topics.topic_topics@
            } else {
                mid.topics.topic_topics@ == s0.topics.topic_topics@.push(topic)
            })
            &&& mid.topics.topic_title@ == Seq::<char>::empty()
            &&& mid == (State {
                topics: Topics {
                    topic_topics: mid.topics.topic_topics,
                    topic_creating: false,
                    topic_title: mid.topics.topic_title,
                    ..s0.topics
                },
                ..s0
            })
            &&& topic_selected_to(mid, s1, Some(topic.root_msg_id))
        }
}

/// The effect of `LoginCodeRequired` on a state.
pub open spec fn login_code_required_applied(s0: State, s1: State) -> bool {
    &&& s1.login.login_input@ == Seq::<char>::empty()
    &&& s1.status@ == "Enter the code received by Telegram"@
    &&& s1 == (State {
        login: Login {
            login_step: LoginStep::Code,
            login_input: s1.login.login_input,
            login_error: false,
            ..s0.login
        },
        status: s1.status,
        ..s0
    })
}

/// The effect of `LoginPasswordRequired` on a state.
pub open spec fn login_password_required_applied(s0: State, s1: State, hint: String) -> bool {
    &&& s1.login.login_input@ == Seq::<char>::empty()
    &&& s1.status@ == password_prompt(hint@)
    &&& s1 == (State {
        login: Login {
            login_step: LoginStep::Password,
            login_input: s1.login.login_input,
            login_error: false,
            ..s0.login
        },
        status: s1.status,
        ..s0
    })
}

/// The effect of `LoginOk` on a state.
pub open spec fn login_ok_applied(s0: State, s1: State, name: String) -> bool {
    &&& s1.login.login_input@ == Seq::<char>::empty()
    &&& s1.status@ == signed_in_text(name@, s0.list.dialogs@.len())
    &&& s1 == (State {
        login: Login {
            authenticated: true,
            login_input: s1.login.login_input,
            login_error: false,
            login_qr_selected: false,
            qr_stage: QrStage::Idle,
            qr_png_path: None,
            qr_error: None,
            ..s0.login
        },
        status: s1.status,
        ..s0
    })
}

/// The effect of `MyProfile` on a state.
pub open spec fn my_profile_applied(s0: State, s1: State, p: MyProfile) -> bool {
    &&& s1.settings.my_profile == Some(p)
    &&& (s0.settings.edit_name@.len() == 0 && s0.settings.edit_last_name@.len() == 0
        && s0.settings.edit_bio@.len() == 0) ==> {
        &&& s1.settings.edit_name@ == first_name_of(p.name@, match p.last_name {
            Some(l) => Some(l@),
            None => None,
        })
        &&& s1.settings.edit_last_name@ == (match p.last_name {
            Some(l) => l@,
            None => Seq::<char>::empty(),
        })
        &&& s1.settings.edit_bio@ == (match p.bio {
            Some(b) => b@,
            None => Seq::<char>::empty(),
        })
        &&& s1 == (State {
            settings: Settings {
                my_profile: s1.settings.my_profile,
                edit_name: s1.settings.edit_name,
                edit_last_name: s1.settings.edit_last_name,
                edit_bio: s1.settings.edit_bio,
                ..s0.settings
            },
            ..s0
        })
    }
    &&& !(s0.settings.edit_name@.len() == 0 && s0.settings.edit_last_name@.len() == 0
        && s0.settings.edit_bio@.len() == 0) ==> s1 == (State {
        settings: Settings { my_profile: s1.settings.my_profile, ..s0.settings },
        ..s0
    })
}

/// The effect of `Sessions` on a state.
pub open spec fn sessions_applied(s0: State, s1: State, list: Vec<SessionInfo>) -> bool {
    &&& s0.settings.settings_open || s0.settings.sessions@.len() == 0
        ==> s1 == (State { settings: Settings { sessions: list, ..s0.settings }, ..s0 })
    &&& !(s0.settings.settings_open || s0.settings.sessions@.len() == 0)
        ==> s1 == s0
}

/// The effect of `SessionRevoked` on a state.
pub open spec fn session_revoked_applied(s0: State, s1: State, hash: i64) -> bool {
    &&& s1.settings.sessions@ == without_session(s0.settings.sessions@, hash)
    &&& s1 == (State {
        settings: Settings { sessions: s1.settings.sessions, ..s0.settings },
        ..s0
    })
}

/// The effect of `CacheCleared` on a state.
pub open spec fn cache_cleared_applied(s0: State, s1: State, bytes: u64) -> bool {
    &&& s1 == (State {
        settings: Settings { cache_bytes: Some(bytes), confirm_clear_cache: false, ..s0.settings },
        ..s0
    })
}

/// The effect of `Error` on a state.
pub open spec fn error_applied(s0: State, s1: State, e: String) -> bool {
    &&& s1 == (State {
        status: e,
        chat: Conversation { loading: false, ..s0.chat },
        login: Login {
            login_error: if s0.login.authenticated {
                s0.login.login_error
            } else {
                true
            },
            ..s0.login
        },
        ..s0
    })
}

/// The effect of a ready QR code on a state.
pub open spec fn qr_code_ready_applied(s0: State, s1: State, path: String) -> bool {
    &&& s1 == (State {
        login: Login {
            qr_png_path: Some(path),
            qr_stage: QrStage::AwaitingScan,
            qr_error: None,
            ..s0.login
        },
        ..s0
    })
}

/// The effect of a scanned QR code on a state.
pub open spec fn qr_scan_confirmed_applied(s0: State, s1: State) -> bool {
    &&& s1 == (State {
        login: Login { qr_stage: QrStage::ScanConfirmed, ..s0.login },
        ..s0
    })
}

/// The effect of a failed QR session on a state.
pub open spec fn qr_failed_applied(s0: State, s1: State, error: String) -> bool {
    &&& s1 == (State {
        login: Login {
            qr_stage: QrStage::Idle,
            qr_png_path: None,
            qr_error: Some(error),
            ..s0.login
        },
        ..s0
    })
}

/// The effect of a logout on a state.
pub open spec fn logged_out_applied(s0: State, s1: State) -> bool {
    &&& signed_out(s0.login, s1.login)
    &&& s1.status@ == Seq::<char>::empty()
    &&& s1.list.dialogs@ == Seq::<ChatRow>::empty()
    &&& s1.list.dialog_short@ == Seq::<(String, String)>::empty()
    &&& s1.list == (ChatList {
        dialogs: s1.list.dialogs,
        dialog_short: s1.list.dialog_short,
        row_menu: None,
        confirm_leave: None,
        create_menu_open: false,
        ..s0.list
    })
    &&& s1.chat.messages@ == Seq::<MsgRow>::empty()
    &&& s1.chat.topic_all_messages@ == Seq::<MsgRow>::empty()
    &&& s1.chat.chat_title@ == Seq::<char>::empty()
    &&& s1.chat == (Conversation {
        open_chat: None,
        chat_title: s1.chat.chat_title,
        messages: s1.chat.messages,
        topic_all_messages: s1.chat.topic_all_messages,
        loading: false,
        typing: false,
        pinned_id: None,
        layout_epoch: bump(s0.chat.layout_epoch),
    })
    &&& s1.view == (Viewport {
        scroll_to_bottom: false,
        scroll_target: None,
        viewer: None,
        open_file: None,
        ..s0.view
    })
    &&& composer_cleared(s1.compose)
    &&& create_cleared(s1.create)
    &&& info_cleared(s0.info, s1.info)
    &&& topics_cleared(s1.topics)
    &&& search_cleared(s1.search)
    &&& settings_cleared(s1.settings)
    &&& s1.media == (Media { playing_voice: None, voice_playing: false, ..s0.media })
    &&& s1.outbox == s0.outbox
    &&& s1.prefs == s0.prefs
}

/// `s1` is `s0` after submitting the composer (see `State::submit`).
pub open spec fn submitted(s0: State, s1: State) -> bool {
    &&& spec_trim(s0.compose.composer@).len() == 0 ==> s1 == s0
    &&& spec_trim(s0.compose.composer@).len() > 0 ==> {
        let t = spec_trim(s0.compose.composer@);
        &&& s1.compose.composer@ == Seq::<char>::empty()
        &&& s1.view == (Viewport { scroll_to_bottom: true, ..s0.view })
        &&& s1.chat.layout_epoch == bump(s0.chat.layout_epoch)
        &&& match s0.compose.editing {
            Some(msg_id) => {
                &&& s1.outbox@.len() == s0.outbox@.len() + 1
                &&& s1.outbox@.drop_last() =~= s0.outbox@
                &&& s1.outbox@.last() matches Request::EditMessage {
                    id,
                    msg_id: mid,
                    text,
                } && mid == msg_id && text@ == t && id == (match s0.chat.open_chat {
                    Some(x) => x,
                    None => 0,
                })
                &&& retexted(s0.chat.messages@, s1.chat.messages@, msg_id, t)
                &&& s1.compose == (Composer {
                    composer: s1.compose.composer,
                    editing: None,
                    ..s0.compose
                })
                &&& s1 == (State {
                    outbox: s1.outbox,
                    compose: s1.compose,
                    view: s1.view,
                    chat: Conversation {
                        messages: s1.chat.messages,
                        layout_epoch: s1.chat.layout_epoch,
                        ..s0.chat
                    },
                    ..s0
                })
            },
            None => match s0.chat.open_chat {
                None => s1 == (State {
                    compose: s1.compose,
                    view: s1.view,
                    chat: Conversation {
                        layout_epoch: s1.chat.layout_epoch,
                        ..s0.chat
                    },
                    ..s0
                }) && s1.compose == (Composer {
                    composer: s1.compose.composer,
                    ..s0.compose
                }),
                Some(id) => {
                    let reply_to = match s0.compose.reply_target {
                        Some(r) => Some(r.msg_id),
                        None => None,
                    };
                    let row = s1.chat.messages@.last();
                    &&& row == (MsgRow { text: row.text, reply_to, ..MsgRow::spec_text(0, row.text, 0, true) })
                    &&& row.text@ == t
                    &&& s1.chat.messages@ =~= s0.chat.messages@.push(row)
                    &&& s1.chat.topic_all_messages@ =~= s0.chat.topic_all_messages@.push(row)
                    &&& s1.outbox@.len() == s0.outbox@.len() + 1
                    &&& s1.outbox@.drop_last() =~= s0.outbox@
                    &&& match s0.topics.topic_selected {
                        Some(root) if reply_to is None => s1.outbox@.last() matches Request::SendTopicMessage {
                            id: cid,
                            text,
                            topic_root,
                        } && cid == id && text@ == t && topic_root == root,
                        _ => s1.outbox@.last() matches Request::SendMessage {
                            id: cid,
                            text,
                            reply_to: rt,
                        } && cid == id && text@ == t && rt == reply_to,
                    }
                    &&& s1.compose == (Composer {
                        composer: s1.compose.composer,
                        reply_target: None,
                        ..s0.compose
                    })
                    &&& s1 == (State {
                        outbox: s1.outbox,
                        compose: s1.compose,
                        view: s1.view,
                        chat: Conversation {
                            messages: s1.chat.messages,
                            topic_all_messages: s1.chat.topic_all_messages,
                            layout_epoch: s1.chat.layout_epoch,
                            typing: false,
                            ..s0.chat
                        },
                        ..s0
                    })
                },
            },
        }
    }
}

/// The address handed to the system opener for a clicked link: bare
/// `www.` links get an `https://` scheme.
pub open spec fn spec_open_url(url: Seq<char>) -> Seq<char> {
    if url.len() >= 4 && url.take(4) == "www."@ {
        "https://"@ + url
    } else {
        url
    }
}

/// The address handed to the system opener for a clicked link.
pub fn open_url_target(url: &str) -> (t: String)
    ensures
        t@ == spec_open_url(url@),
{
    proof {
        reveal_strlit("www.");
    }
    let cs = crate::text::chars_of(url);
    if cs.len() >= 4 && cs[0] == 'w' && cs[1] == 'w' && cs[2] == 'w' && cs[3] == '.' {
        assert(cs@.take(4) =~= "www."@);
        concat("https://", url)
    } else {
        proof {
            if cs@.len() >= 4 && cs@.take(4) == "www."@ {
                assert(cs@.take(4)[0] == 'w');
                assert(cs@.take(4)[1] == 'w');
                assert(cs@.take(4)[2] == 'w');
                assert(cs@.take(4)[3] == '.');
            }
        }
        crate::text::to_owned_string(url)
    }
}

/// `s1` is `s0` after sending the file `path` (see `State::send_media`).
pub open spec fn media_sent(s0: State, s1: State, path: String, is_photo: bool, name: String) -> bool {
    &&& s0.chat.open_chat is None ==> s1 == s0
    &&& s0.chat.open_chat matches Some(id) ==> {
        let token = s0.media.next_media_token;
        let reply_to = match s0.compose.reply_target {
            Some(r) => Some(r.msg_id),
            None => None,
        };
        let row = s1.chat.messages@.last();
        &&& row.text@ == s0.compose.composer@
        &&& row == (MsgRow {
            doc: row.doc,
            photo: if is_photo { Some((0u32, 0u32)) } else { None },
            uploading: Some(0u16),
            upload_token: Some(token),
            reply_to,
            ..MsgRow::spec_text(0, row.text, 0, true)
        })
        &&& if is_photo {
            row.doc is None
        } else {
            row.doc matches Some(d) && d.name@ == name@ && d.size == 0 && d.kind
                == DocKind::Audio { voice: false }
        }
        &&& s1.chat.messages@ =~= s0.chat.messages@.push(row)
        &&& s1.outbox@.len() == s0.outbox@.len() + 1
        &&& s1.outbox@.drop_last() =~= s0.outbox@
        &&& s1.outbox@.last() matches Request::SendMedia {
            id: cid,
            path: p,
            caption,
            is_photo: ph,
            reply_to: rt,
            token: tk,
        } && cid == id && p == path && caption@ == s0.compose.composer@ && ph
            == is_photo && rt == reply_to && tk == token
        &&& s1.compose.composer@ == Seq::<char>::empty()
        &&& s1 == (State {
            outbox: s1.outbox,
            chat: Conversation {
                messages: s1.chat.messages,
                layout_epoch: bump(s0.chat.layout_epoch),
                ..s0.chat
            },
            compose: Composer {
                composer: s1.compose.composer,
                reply_target: None,
                ..s0.compose
            },
            media: Media { next_media_token: (token + 1) as u64, ..s0.media },
            view: Viewport { scroll_to_bottom: true, ..s0.view },
            ..s0
        })
    }
}

/// `s1` is `s0` after opening the info panel (see `State::open_info`).
pub open spec fn info_opened(s0: State, s1: State) -> bool {
    &&& s1.outbox@ == (match s0.chat.open_chat {
        Some(id) => s0.outbox@.push(Request::GetChatInfo { id }).push(
            Request::GetParticipants { id },
        ),
        None => s0.outbox@,
    })
    &&& s1.info.participants@ == Seq::<ParticipantRow>::empty()
    &&& s1 == (State {
        outbox: s1.outbox,
        info: InfoPanel {
            info_open: true,
            chat_info: None,
            participants: s1.info.participants,
            kick_confirm: None,
            admin_menu: None,
            admin_confirm: None,
            ..s0.info
        },
        ..s0
    })
}

/// `s1` is `s0` after the network message `msg` (see each `*_applied`
/// transition).
pub open spec fn message_applied(s0: State, s1: State, msg: UiMessage) -> bool {
    match msg {
        UiMessage::Connecting => connecting_applied(s0, s1),
        UiMessage::Dialogs(rows) => dialogs_applied(s0, s1, rows),
        UiMessage::Messages { id, title, rows } => messages_applied(s0, s1, id, title, rows),
        UiMessage::NewMessage {
            chat_id,
            id,
            text,
            date,
            out,
            photo,
            doc,
            sticker,
            reply_to,
            forwarded_from,
            sender_name,
            sender_id,
        } => new_message_applied(
            s0,
            s1,
            chat_id,
            id,
            text,
            date,
            out,
            photo,
            doc,
            sticker,
            reply_to,
            forwarded_from,
            sender_name,
            sender_id,
        ),
        UiMessage::MessageEdited { chat_id, id, text, date } => message_edited_applied(
            s0,
            s1,
            chat_id,
            id,
            text,
            date,
        ),
        UiMessage::PhotoReady { chat_id, msg_id, path } => path_ready_applied(s0, s1, 0, chat_id, msg_id, path),
        UiMessage::DocReady { chat_id, msg_id, path } => path_ready_applied(s0, s1, 1, chat_id, msg_id, path),
        UiMessage::StickerPathReady { chat_id, msg_id, path } => path_ready_applied(s0, s1, 2, chat_id, msg_id, path),
        UiMessage::StickerThumbReady { doc_id, path } => sticker_thumb_ready_applied(s0, s1, doc_id, path),
        UiMessage::StickerSets(sets) => sticker_sets_applied(s0, s1, sets),
        UiMessage::SearchResults { id, query, hits } => search_results_applied(s0, s1, id, query, hits),
        UiMessage::UploadProgress { chat_id, token, progress } => upload_applied(s0, s1, chat_id, token, false, progress),
        UiMessage::UploadDone { chat_id, token } => upload_applied(s0, s1, chat_id, token, true, 1000),
        UiMessage::ChatRead { id } => chat_read_applied(s0, s1, id),
        UiMessage::UnreadCount { chat_id, count } => unread_count_applied(s0, s1, chat_id, count),
        UiMessage::OutboxRead { chat_id, max_id } => outbox_read_applied(s0, s1, chat_id, max_id),
        UiMessage::PeerTyping { chat_id, typing } => peer_typing_applied(s0, s1, chat_id, typing),
        UiMessage::AvatarReady { chat_id, path } => avatar_ready_applied(s0, s1, chat_id, path),
        UiMessage::ChatInfo(detail) => chat_info_applied(s0, s1, detail),
        UiMessage::Participants(rows) => participants_applied(s0, s1, rows),
        UiMessage::ParticipantKicked { user_id } => participant_kicked_applied(s0, s1, user_id),
        UiMessage::MessageDeleted { ids } => message_deleted_applied(s0, s1, ids),
        UiMessage::PinnedMessage { chat_id, msg_id } => pinned_message_applied(s0, s1, chat_id, msg_id),
        UiMessage::ChatCreated { id } => chat_created_applied(s0, s1, id),
        UiMessage::ChatGone { id } => chat_gone_applied(s0, s1, id),
        UiMessage::LoginCodeRequired => login_code_required_applied(s0, s1),
        UiMessage::LoginPasswordRequired { hint } => login_password_required_applied(s0, s1, hint),
        UiMessage::LoginOk { name } => login_ok_applied(s0, s1, name),
        UiMessage::QrCodeReady { path } => qr_code_ready_applied(s0, s1, path),
        UiMessage::QrScanConfirmed => qr_scan_confirmed_applied(s0, s1),
        UiMessage::QrLoginFailed { error } => qr_failed_applied(s0, s1, error),
        UiMessage::MyProfile(p) => my_profile_applied(s0, s1, p),
        UiMessage::Sessions(list) => sessions_applied(s0, s1, list),
        UiMessage::SessionRevoked { hash } => session_revoked_applied(s0, s1, hash),
        UiMessage::CacheCleared { bytes } => cache_cleared_applied(s0, s1, bytes),
        UiMessage::LoggedOut => logged_out_applied(s0, s1),
        UiMessage::MemberUpdated { chat_id, user_id } => member_updated_applied(s0, s1, chat_id, user_id),
        UiMessage::MemberSelfId { id } => member_self_id_applied(s0, s1, id),
        UiMessage::Topics { id, is_forum, topics } => topics_applied(s0, s1, id, is_forum, topics),
        UiMessage::TopicCreated { chat_id, topic } => topic_created_applied(s0, s1, chat_id, topic),
        UiMessage::Error(e) => error_applied(s0, s1, e),
    }
}

impl State {
    #[verifier::spinoff_prover]
    fn invalidate_layout(&mut self)
        ensures
            *final(self) == (State {
                chat: Conversation { layout_epoch: bump(old(self).chat.layout_epoch), ..old(self).chat },
                ..*old(self)
            }),
    {
        self.chat.layout_epoch = next_epoch(self.chat.layout_epoch);
    }

    /// Shows/hides the emoji panel above the composer (one composer panel at
    /// a time: opening it closes the sticker picker).
    #[verifier::spinoff_prover]
    pub fn toggle_emoji_panel(&mut self)
        ensures
            *final(self) == (State {
                compose: Composer {
                    emoji_panel_open: !old(self).compose.emoji_panel_open,
                    sticker_picker_open: if old(self).compose.emoji_panel_open {
                        old(self).compose.sticker_picker_open
                    } else {
                        false
                    },
                    ..old(self).compose
                },
                ..*old(self)
            }),
    {
        self.compose.emoji_panel_open = !self.compose.emoji_panel_open;
        if self.compose.emoji_panel_open {
            self.compose.sticker_picker_open = false;
        }
    }

    /// Hides the emoji panel (Escape or click outside).
    #[verifier::spinoff_prover]
    pub fn close_emoji_panel(&mut self)
        ensures
            *final(self) == (State {
                compose: Composer { emoji_panel_open: false, ..old(self).compose },
                ..*old(self)
            }),
    {
        self.compose.emoji_panel_open = false;
    }

    /// Cancels the pending logout confirmation.
    #[verifier::spinoff_prover]
    pub fn cancel_logout(&mut self)
        ensures
            *final(self) == (State {
                settings: Settings { confirm_logout: false, ..old(self).settings },
                ..*old(self)
            }),
    {
        self.settings.confirm_logout = false;
    }

    /// Opens the settings sheet on the profile tab: queues `GetMe` when the
    /// profile is not known yet, then `GetSessions`, and records the measured
    /// media cache size `cache_bytes`.
    #[verifier::spinoff_prover]
    pub fn open_settings(&mut self, cache_bytes: u64)
        ensures
            final(self).outbox@ == if old(self).settings.my_profile is None {
                old(self).outbox@.push(Request::GetMe).push(Request::GetSessions)
            } else {
                old(self).outbox@.push(Request::GetSessions)
            },
            *final(self) == (State {
                outbox: final(self).outbox,
                settings: Settings {
                    settings_open: true,
                    settings_tab: SettingsTab::Profile,
                    confirm_clear_cache: false,
                    cache_bytes: Some(cache_bytes),
                    ..old(self).settings
                },
                ..*old(self)
            }),
    {
        self.settings.settings_open = true;
        self.settings.settings_tab = SettingsTab::Profile;
        self.settings.confirm_clear_cache = false;
        if self.settings.my_profile.is_none() {
            self.outbox.push(Request::GetMe);
        }
        self.outbox.push(Request::GetSessions);
        self.settings.cache_bytes = Some(cache_bytes);
    }

    /// The QR session failed: drop the code and surface the error.
    #[verifier::spinoff_prover]
    pub fn qr_failed(&mut self, error: String)
        ensures
            qr_failed_applied(*old(self), *final(self), error),
    {
        self.login.qr_stage = QrStage::Idle;
        self.login.qr_png_path = None;
        self.login.qr_error = Some(error);
    }

    /// Cancels the pending leave/delete confirmation.
    #[verifier::spinoff_prover]
    pub fn cancel_confirm(&mut self)
        ensures
            *final(self) == (State {
                list: ChatList { confirm_leave: None, ..old(self).list },
                ..*old(self)
            }),
    {
        self.list.confirm_leave = None;
    }

    /// Flips dark and light. (Applying the palette and persisting the choice
    /// are the shell's.)
    #[verifier::spinoff_prover]
    pub fn toggle_theme(&mut self)
        ensures
            theme_toggled(*old(self), *final(self)),
    {
        self.prefs.theme_mode = match self.prefs.theme_mode {
            ThemeMode::Dark => ThemeMode::Light,
            ThemeMode::Light => ThemeMode::Dark,
        };
    }

    /// Toggles the header "+" picker menu (and closes a chat-row menu).
    #[verifier::spinoff_prover]
    pub fn toggle_create_menu(&mut self)
        ensures
            *final(self) == (State {
                list: ChatList {
                    create_menu_open: !old(self).list.create_menu_open,
                    row_menu: None,
                    ..old(self).list
                },
                ..*old(self)
            }),
    {
        self.list.create_menu_open = !self.list.create_menu_open;
        self.list.row_menu = None;
    }

    /// Right-click over a chat-list row: open its Leave/Delete mini menu.
    #[verifier::spinoff_prover]
    pub fn open_row_menu(&mut self, chat_id: i64)
        ensures
            *final(self) == (State {
                list: ChatList { row_menu: Some(chat_id), create_menu_open: false, ..old(self).list },
                ..*old(self)
            }),
    {
        self.list.row_menu = Some(chat_id);
        self.list.create_menu_open = false;
    }

    /// Dismisses the chat-row mini menu.
    #[verifier::spinoff_prover]
    pub fn dismiss_row_menu(&mut self)
        ensures
            *final(self) == (State { list: ChatList { row_menu: None, ..old(self).list }, ..*old(self) }),
    {
        self.list.row_menu = None;
    }

    /// Asks for confirmation before leaving/deleting a chat (closes the row
    /// menu that raised it).
    #[verifier::spinoff_prover]
    pub fn ask_confirm(&mut self, kind: ConfirmKind, chat_id: i64)
        ensures
            *final(self) == (State {
                list: ChatList {
                    row_menu: None,
                    confirm_leave: Some((kind, chat_id)),
                    ..old(self).list
                },
                ..*old(self)
            }),
    {
        self.list.row_menu = None;
        self.list.confirm_leave = Some((kind, chat_id));
    }

    /// Confirms the pending leave/delete: queues the request and closes the
    /// confirmation. Nothing happens when none is pending.
    #[verifier::spinoff_prover]
    pub fn confirm_yes(&mut self)
        ensures
            old(self).list.confirm_leave is None ==> *final(self) == *old(self),
            old(self).list.confirm_leave matches Some((kind, id)) ==> {
                &&& final(self).outbox@ == old(self).outbox@.push(
                    match kind {
                        ConfirmKind::Leave => Request::LeaveChat { id },
                        ConfirmKind::Delete => Request::DeleteChat { id },
                    },
                )
                &&& *final(self) == (State {
                    outbox: final(self).outbox,
                    list: ChatList { confirm_leave: None, ..old(self).list },
                    ..*old(self)
                })
            },
    {
        match self.list.confirm_leave {
            None => {},
            Some((kind, id)) => {
                self.list.confirm_leave = None;
                let req = match kind {
                    ConfirmKind::Leave => Request::LeaveChat { id },
                    ConfirmKind::Delete => Request::DeleteChat { id },
                };
                self.outbox.push(req);
            },
        }
    }

    /// Switches the sign-in screen between the phone form and the QR pane
    /// (leaving the QR pane drops its code and error).
    #[verifier::spinoff_prover]
    pub fn toggle_login_screen(&mut self)
        ensures
            old(self).login.login_qr_selected ==> *final(self) == (State {
                login: Login {
                    login_qr_selected: false,
                    qr_stage: QrStage::Idle,
                    qr_png_path: None,
                    qr_error: None,
                    login_error: false,
                    ..old(self).login
                },
                ..*old(self)
            }),
            !old(self).login.login_qr_selected ==> *final(self) == (State {
                login: Login { login_qr_selected: true, login_error: false, ..old(self).login },
                ..*old(self)
            }),
    {
        self.login.login_qr_selected = !self.login.login_qr_selected;
        if !self.login.login_qr_selected {
            self.qr_cancelled();
        }
        self.login.login_error = false;
    }

    /// A QR session was requested: clear stale data and wait for the code.
    #[verifier::spinoff_prover]
    pub fn qr_started(&mut self)
        ensures
            *final(self) == (State {
                login: Login {
                    qr_stage: QrStage::AwaitingScan,
                    qr_png_path: None,
                    qr_error: None,
                    ..old(self).login
                },
                ..*old(self)
            }),
    {
        self.login.qr_stage = QrStage::AwaitingScan;
        self.login.qr_png_path = None;
        self.login.qr_error = None;
    }

    /// A fresh QR PNG is on disk: show it.
    #[verifier::spinoff_prover]
    pub fn qr_code_ready(&mut self, path: String)
        ensures
            qr_code_ready_applied(*old(self), *final(self), path),
    {
        self.login.qr_png_path = Some(path);
        self.login.qr_stage = QrStage::AwaitingScan;
        self.login.qr_error = None;
    }

    /// The phone scanned the code; waiting for server-side confirmation.
    #[verifier::spinoff_prover]
    pub fn qr_scan_confirmed(&mut self)
        ensures
            qr_scan_confirmed_applied(*old(self), *final(self)),
    {
        self.login.qr_stage = QrStage::ScanConfirmed;
    }

    /// Stops the QR pane without a failure (state cleanup only; cancelling
    /// the token session is the caller's).
    #[verifier::spinoff_prover]
    pub fn qr_cancelled(&mut self)
        ensures
            *final(self) == (State {
                login: Login { qr_stage: QrStage::Idle, qr_png_path: None, qr_error: None, ..old(self).login },
                ..*old(self)
            }),
    {
        self.login.qr_stage = QrStage::Idle;
        self.login.qr_png_path = None;
        self.login.qr_error = None;
    }

    /// Switches the active settings tab.
    #[verifier::spinoff_prover]
    pub fn set_settings_tab(&mut self, tab: SettingsTab)
        ensures
            *final(self) == (State {
                settings: Settings { settings_tab: tab, ..old(self).settings },
                ..*old(self)
            }),
    {
        self.settings.settings_tab = tab;
    }

    /// "Clear cache" pressed: arms the inline confirmation.
    #[verifier::spinoff_prover]
    pub fn ask_clear_cache(&mut self)
        ensures
            *final(self) == (State {
                settings: Settings { confirm_clear_cache: true, ..old(self).settings },
                ..*old(self)
            }),
    {
        self.settings.confirm_clear_cache = true;
    }

    /// Cancels the pending cache-clear confirmation.
    #[verifier::spinoff_prover]
    pub fn cancel_clear_cache(&mut self)
        ensures
            *final(self) == (State {
                settings: Settings { confirm_clear_cache: false, ..old(self).settings },
                ..*old(self)
            }),
    {
        self.settings.confirm_clear_cache = false;
    }

    /// Confirms the cache wipe: queues `ClearCache` once, only when armed.
    #[verifier::spinoff_prover]
    pub fn confirm_clear_cache_now(&mut self)
        ensures
            !old(self).settings.confirm_clear_cache ==> *final(self) == *old(self),
            old(self).settings.confirm_clear_cache ==> {
                &&& final(self).outbox@ == old(self).outbox@.push(Request::ClearCache)
                &&& *final(self) == (State {
                    outbox: final(self).outbox,
                    settings: Settings { confirm_clear_cache: false, ..old(self).settings },
                    ..*old(self)
                })
            },
    {
        if !self.settings.confirm_clear_cache {
            return;
        }
        self.settings.confirm_clear_cache = false;
        self.outbox.push(Request::ClearCache);
    }

    /// "Log out" pressed: arms the inline confirmation.
    #[verifier::spinoff_prover]
    pub fn ask_logout(&mut self)
        ensures
            *final(self) == (State {
                settings: Settings { confirm_logout: true, ..old(self).settings },
                ..*old(self)
            }),
    {
        self.settings.confirm_logout = true;
    }

    /// Confirms the logout: queues `LogOut` once, only when armed; the
    /// `LoggedOut` echo resets the interface.
    #[verifier::spinoff_prover]
    pub fn confirm_logout_now(&mut self)
        ensures
            !old(self).settings.confirm_logout ==> *final(self) == *old(self),
            old(self).settings.confirm_logout ==> {
                &&& final(self).outbox@ == old(self).outbox@.push(Request::LogOut)
                &&& *final(self) == (State {
                    outbox: final(self).outbox,
                    settings: Settings { confirm_logout: false, ..old(self).settings },
                    ..*old(self)
                })
            },
    {
        if !self.settings.confirm_logout {
            return;
        }
        self.settings.confirm_logout = false;
        self.outbox.push(Request::LogOut);
    }

    /// Closes the settings sheet (and disarms the cache-clear confirmation).
    #[verifier::spinoff_prover]
    pub fn close_settings(&mut self)
        ensures
            *final(self) == (State {
                settings: Settings { settings_open: false, confirm_clear_cache: false, ..old(self).settings },
                ..*old(self)
            }),
    {
        self.settings.settings_open = false;
        self.settings.confirm_clear_cache = false;
    }

    /// The header gear button: closes the sheet when open, otherwise opens
    /// it (see [`Self::open_settings`]).
    #[verifier::spinoff_prover]
    pub fn toggle_settings(&mut self, cache_bytes: u64)
        ensures
            old(self).settings.settings_open ==> *final(self) == (State {
                settings: Settings { settings_open: false, confirm_clear_cache: false, ..old(self).settings },
                ..*old(self)
            }),
            !old(self).settings.settings_open ==> {
                &&& final(self).outbox@ == if old(self).settings.my_profile is None {
                    old(self).outbox@.push(Request::GetMe).push(Request::GetSessions)
                } else {
                    old(self).outbox@.push(Request::GetSessions)
                }
                &&& *final(self) == (State {
                    outbox: final(self).outbox,
                    settings: Settings {
                        settings_open: true,
                        settings_tab: SettingsTab::Profile,
                        confirm_clear_cache: false,
                        cache_bytes: Some(cache_bytes),
                        ..old(self).settings
                    },
                    ..*old(self)
                })
            },
    {
        if self.settings.settings_open {
            self.close_settings();
        } else {
            self.open_settings(cache_bytes);
        }
    }

    /// "Terminate" on a session row: queues the revocation; the
    /// `SessionRevoked` echo removes the row.
    #[verifier::spinoff_prover]
    pub fn revoke_session(&mut self, hash: i64)
        ensures
            final(self).outbox@ == old(self).outbox@.push(Request::RevokeSession { hash }),
            *final(self) == (State { outbox: final(self).outbox, ..*old(self) }),
    {
        self.outbox.push(Request::RevokeSession { hash });
    }

    /// The notifications On/Off button. (Sharing the flag with the network
    /// runtime and persisting it are the shell's.)
    #[verifier::spinoff_prover]
    pub fn toggle_notifications(&mut self)
        ensures
            notifications_toggled(*old(self), *final(self)),
    {
        self.prefs.notifications_on = !self.prefs.notifications_on;
    }

    /// Toggles the sticker picker. Opening it closes the emoji panel and,
    /// with no packs loaded yet, queues a single `GetStickerSets`.
    #[verifier::spinoff_prover]
    pub fn toggle_sticker_picker(&mut self)
        ensures
            old(self).compose.sticker_picker_open ==> *final(self) == (State {
                compose: Composer { sticker_picker_open: false, ..old(self).compose },
                ..*old(self)
            }),
            !old(self).compose.sticker_picker_open ==> {
                &&& final(self).outbox@ == if old(self).media.sticker_sets@.len() == 0 {
                    old(self).outbox@.push(Request::GetStickerSets)
                } else {
                    old(self).outbox@
                }
                &&& *final(self) == (State {
                    outbox: final(self).outbox,
                    compose: Composer {
                        sticker_picker_open: true,
                        emoji_panel_open: false,
                        ..old(self).compose
                    },
                    ..*old(self)
                })
            },
    {
        self.compose.sticker_picker_open = !self.compose.sticker_picker_open;
        if self.compose.sticker_picker_open {
            self.compose.emoji_panel_open = false;
            if self.media.sticker_sets.len() == 0 {
                self.outbox.push(Request::GetStickerSets);
            }
        }
    }

    /// Closes the sticker picker panel.
    #[verifier::spinoff_prover]
    pub fn close_sticker_picker(&mut self)
        ensures
            *final(self) == (State {
                compose: Composer { sticker_picker_open: false, ..old(self).compose },
                ..*old(self)
            }),
    {
        self.compose.sticker_picker_open = false;
    }

    /// Opens the inline create-topic field with an empty title.
    #[verifier::spinoff_prover]
    pub fn topic_open_create(&mut self)
        ensures
            final(self).topics.topic_title@ == Seq::<char>::empty(),
            *final(self) == (State {
                topics: Topics {
                    topic_creating: true,
                    topic_title: final(self).topics.topic_title,
                    ..old(self).topics
                },
                ..*old(self)
            }),
    {
        self.topics.topic_creating = true;
        self.topics.topic_title = String::new();
    }

    /// Closes the inline create-topic field and drops its title.
    #[verifier::spinoff_prover]
    pub fn topic_cancel_create(&mut self)
        ensures
            final(self).topics.topic_title@ == Seq::<char>::empty(),
            *final(self) == (State {
                topics: Topics {
                    topic_creating: false,
                    topic_title: final(self).topics.topic_title,
                    ..old(self).topics
                },
                ..*old(self)
            }),
    {
        self.topics.topic_creating = false;
        self.topics.topic_title = String::new();
    }

    /// Chips-bar visibility: forum chats with a loaded topic list only.
    pub fn topic_bar_visible(&self) -> (b: bool)
        ensures
            b == (self.topics.topic_is_forum && self.topics.topic_topics@.len() > 0),
    {
        self.topics.topic_is_forum && self.topics.topic_topics.len() > 0
    }

    /// True when the search UI is open.
    pub fn search_open(&self) -> (b: bool)
        ensures
            b == self.search.search_mode is Some,
    {
        self.search.search_mode.is_some()
    }

    /// Consumes and returns the pending scroll target (the message to scroll
    /// to). A pending jump whose message is in the loaded history is
    /// resolved first: it becomes the target (and stops the scroll to the
    /// bottom); a jump whose message has not arrived yet stays pending.
    #[verifier::spinoff_prover]
    pub fn take_scroll_target(&mut self) -> (t: Option<i32>)
        ensures
            (old(self).view.pending_jump_id matches Some(j) && has_msg(old(self).chat.messages@, j))
                ==> {
                &&& t == old(self).view.pending_jump_id
                &&& *final(self) == (State {
                    view: Viewport {
                        scroll_target: None,
                        scroll_to_bottom: false,
                        pending_jump_id: None,
                        ..old(self).view
                    },
                    ..*old(self)
                })
            },
            !(old(self).view.pending_jump_id matches Some(j) && has_msg(old(self).chat.messages@, j))
                ==> {
                &&& t == old(self).view.scroll_target
                &&& *final(self) == (State {
                    view: Viewport { scroll_target: None, ..old(self).view },
                    ..*old(self)
                })
            },
    {
        if let Some(j) = self.view.pending_jump_id {
            if find_msg(&self.chat.messages, j) {
                self.view.pending_jump_id = None;
                self.view.scroll_to_bottom = false;
                self.view.scroll_target = None;
                return Some(j);
            }
        }
        let t = self.view.scroll_target;
        self.view.scroll_target = None;
        t
    }

    /// The Mute button: flips the local flag and queues it server-side
    /// (nothing without an open chat).
    #[verifier::spinoff_prover]
    pub fn toggle_mute(&mut self)
        ensures
            old(self).chat.open_chat is None ==> *final(self) == *old(self),
            old(self).chat.open_chat matches Some(id) ==> {
                &&& final(self).outbox@ == old(self).outbox@.push(
                    Request::SetMuted { id, muted: !old(self).info.muted },
                )
                &&& *final(self) == (State {
                    outbox: final(self).outbox,
                    info: InfoPanel { muted: !old(self).info.muted, ..old(self).info },
                    ..*old(self)
                })
            },
    {
        match self.chat.open_chat {
            None => {},
            Some(id) => {
                self.info.muted = !self.info.muted;
                let muted = self.info.muted;
                self.outbox.push(Request::SetMuted { id, muted });
            },
        }
    }

    /// Opens the info panel and queues the open chat's details and member
    /// list (re-opening refreshes both).
    #[verifier::spinoff_prover]
    pub fn open_info(&mut self)
        ensures
            info_opened(*old(self), *final(self)),
    {
        self.info.info_open = true;
        self.info.chat_info = None;
        self.info.participants = Vec::new();
        self.info.kick_confirm = None;
        self.info.admin_menu = None;
        self.info.admin_confirm = None;
        match self.chat.open_chat {
            Some(id) => {
                self.outbox.push(Request::GetChatInfo { id });
                self.outbox.push(Request::GetParticipants { id });
            },
            None => {},
        }
    }

    /// Closes the info panel and its member menus and confirmations.
    #[verifier::spinoff_prover]
    pub fn close_info(&mut self)
        ensures
            *final(self) == (State {
                info: InfoPanel {
                    info_open: false,
                    kick_confirm: None,
                    admin_menu: None,
                    admin_confirm: None,
                    ..old(self).info
                },
                ..*old(self)
            }),
    {
        self.info.info_open = false;
        self.info.kick_confirm = None;
        self.info.admin_menu = None;
        self.info.admin_confirm = None;
    }

    /// "Remove" on a member row: arms the inline confirmation, for a listed
    /// member only.
    #[verifier::spinoff_prover]
    pub fn kick(&mut self, user_id: i64)
        ensures
            has_member(old(self).info.participants@, user_id) ==> *final(self) == (State {
                info: InfoPanel { kick_confirm: Some(user_id), ..old(self).info },
                ..*old(self)
            }),
            !has_member(old(self).info.participants@, user_id) ==> *final(self) == *old(self),
    {
        if find_member(&self.info.participants, user_id).is_some() {
            self.info.kick_confirm = Some(user_id);
        }
    }

    /// Confirms a pending kick: queues it for the open chat. The confirmation
    /// is consumed either way.
    #[verifier::spinoff_prover]
    pub fn kick_confirmed(&mut self)
        ensures
            old(self).info.kick_confirm is None ==> *final(self) == *old(self),
            old(self).info.kick_confirm matches Some(user_id) ==> {
                &&& final(self).outbox@ == (match old(self).chat.open_chat {
                    Some(id) => old(self).outbox@.push(Request::KickParticipant { id, user_id }),
                    None => old(self).outbox@,
                })
                &&& *final(self) == (State {
                    outbox: final(self).outbox,
                    info: InfoPanel { kick_confirm: None, ..old(self).info },
                    ..*old(self)
                })
            },
    {
        let user_id = match self.info.kick_confirm {
            Some(u) => u,
            None => {
                return;
            },
        };
        self.info.kick_confirm = None;
        match self.chat.open_chat {
            Some(id) => {
                self.outbox.push(Request::KickParticipant { id, user_id });
            },
            None => {},
        }
    }

    /// Right-click on a member row: opens its admin menu (closing any
    /// pending confirmation), unless the member is unknown, the owner or
    /// yourself.
    #[verifier::spinoff_prover]
    pub fn admin_open_menu(&mut self, user_id: i64)
        ensures
            match first_member(old(self).info.participants@, user_id, 0) {
                None => *final(self) == *old(self),
                Some(k) => if spec_admin_menu(
                    old(self).info.participants@[k].role,
                    old(self).info.admin_self_id == Some(user_id),
                ).len() == 0 {
                    *final(self) == *old(self)
                } else {
                    *final(self) == (State {
                        info: InfoPanel {
                            admin_menu: Some(user_id),
                            admin_confirm: None,
                            kick_confirm: None,
                            ..old(self).info
                        },
                        ..*old(self)
                    })
                },
            },
    {
        let k = match find_member(&self.info.participants, user_id) {
            Some(k) => k,
            None => {
                return;
            },
        };
        proof {
            lemma_first_member(self.info.participants@, user_id, 0);
        }
        let is_self = match self.info.admin_self_id {
            Some(x) => x == user_id,
            None => false,
        };
        assert(is_self == (self.info.admin_self_id == Some(user_id)));
        let role = self.info.participants[k].role;
        assert(first_member(self.info.participants@, user_id, 0) == Some(k as int));
        let items = admin_menu_items(role, is_self);
        if items.len() == 0 {
            return;
        }
        self.info.admin_menu = Some(user_id);
        self.info.admin_confirm = None;
        self.info.kick_confirm = None;
    }

    /// Applies an admin menu action: promote/demote are queued at once (for
    /// the open chat); ban/remove arm the inline confirmation (for a listed
    /// member). The menu closes either way.
    #[verifier::spinoff_prover]
    pub fn admin_action(&mut self, user_id: i64, action: AdminAction)
        ensures
            (action == AdminAction::Promote || action == AdminAction::Demote) ==> {
                &&& final(self).outbox@ == (match old(self).chat.open_chat {
                    Some(id) => old(self).outbox@.push(
                        if action == AdminAction::Promote {
                            Request::AdminPromote { id, user_id }
                        } else {
                            Request::AdminDemote { id, user_id }
                        },
                    ),
                    None => old(self).outbox@,
                })
                &&& *final(self) == (State {
                    outbox: final(self).outbox,
                    info: InfoPanel { admin_menu: None, ..old(self).info },
                    ..*old(self)
                })
            },
            (action == AdminAction::Ban || action == AdminAction::Remove) ==> *final(self) == (State {
                info: InfoPanel {
                    admin_menu: None,
                    admin_confirm: if has_member(old(self).info.participants@, user_id) {
                        Some(
                            (
                                if action == AdminAction::Ban {
                                    AdminConfirm::Ban
                                } else {
                                    AdminConfirm::Remove
                                },
                                user_id,
                            ),
                        )
                    } else {
                        old(self).info.admin_confirm
                    },
                    ..old(self).info
                },
                ..*old(self)
            }),
    {
        match action {
            AdminAction::Promote | AdminAction::Demote => {
                self.info.admin_menu = None;
                match self.chat.open_chat {
                    Some(id) => {
                        let req = match action {
                            AdminAction::Promote => Request::AdminPromote { id, user_id },
                            _ => Request::AdminDemote { id, user_id },
                        };
                        self.outbox.push(req);
                    },
                    None => {},
                }
            },
            AdminAction::Ban | AdminAction::Remove => {
                if find_member(&self.info.participants, user_id).is_some() {
                    let kind = match action {
                        AdminAction::Ban => AdminConfirm::Ban,
                        _ => AdminConfirm::Remove,
                    };
                    self.info.admin_confirm = Some((kind, user_id));
                }
                self.info.admin_menu = None;
            },
        }
    }

    /// Confirms the pending ban/remove: queues an `AdminBan` (a remove only
    /// kicks) for the open chat. The confirmation is consumed either way.
    #[verifier::spinoff_prover]
    pub fn admin_confirmed(&mut self)
        ensures
            old(self).info.admin_confirm is None ==> *final(self) == *old(self),
            old(self).info.admin_confirm matches Some((kind, user_id)) ==> {
                &&& final(self).outbox@ == (match old(self).chat.open_chat {
                    Some(id) => old(self).outbox@.push(
                        Request::AdminBan { id, user_id, kick_only: kind == AdminConfirm::Remove },
                    ),
                    None => old(self).outbox@,
                })
                &&& *final(self) == (State {
                    outbox: final(self).outbox,
                    info: InfoPanel { admin_confirm: None, ..old(self).info },
                    ..*old(self)
                })
            },
    {
        let (kind, user_id) = match self.info.admin_confirm {
            Some(c) => c,
            None => {
                return;
            },
        };
        self.info.admin_confirm = None;
        match self.chat.open_chat {
            Some(id) => {
                let kick_only = match kind {
                    AdminConfirm::Ban => false,
                    AdminConfirm::Remove => true,
                };
                self.outbox.push(Request::AdminBan { id, user_id, kick_only });
            },
            None => {},
        }
    }

    /// The @username line of the info panel: the text to copy.
    pub fn copy_username(&self) -> (r: Option<String>)
        ensures
            match self.info.chat_info {
                Some(d) => match d.username {
                    Some(u) => r matches Some(t) && t@ == seq!['@'] + u@,
                    None => r is None,
                },
                None => r is None,
            },
    {
        match &self.info.chat_info {
            Some(d) => match &d.username {
                Some(u) => {
                    let mut cs: Vec<char> = Vec::new();
                    cs.push('@');
                    crate::text::push_str(&mut cs, u.as_str());
                    Some(string_from_chars(&cs))
                },
                None => None,
            },
            None => None,
        }
    }

    /// Opens the creation modal with empty inputs; the member picker lists
    /// every known chat, unchecked.
    #[verifier::spinoff_prover]
    pub fn open_create(&mut self, kind: CreateKind)
        ensures
            final(self).create.create_title@ == Seq::<char>::empty(),
            final(self).create.create_about@ == Seq::<char>::empty(),
            final(self).create.member_pick@ == picker_of(old(self).list.dialogs@),
            final(self).create.create_dialog == Some(kind),
            *final(self) == (State {
                list: ChatList { create_menu_open: false, ..old(self).list },
                create: final(self).create,
                ..*old(self)
            }),
    {
        self.list.create_menu_open = false;
        self.create.create_dialog = Some(kind);
        self.create.create_title = String::new();
        self.create.create_about = String::new();
        self.create.member_pick = member_picker(&self.list.dialogs);
    }

    /// Closes the creation modal and drops its draft (nothing when closed).
    #[verifier::spinoff_prover]
    pub fn cancel_create(&mut self)
        ensures
            old(self).create.create_dialog is None ==> *final(self) == *old(self),
            old(self).create.create_dialog is Some ==> {
                &&& final(self).create.create_dialog is None
                &&& final(self).create.create_title@ == Seq::<char>::empty()
                &&& final(self).create.create_about@ == Seq::<char>::empty()
                &&& final(self).create.member_pick@ == Seq::<(i64, String, bool)>::empty()
                &&& *final(self) == (State { create: final(self).create, ..*old(self) })
            },
    {
        if self.create.create_dialog.is_none() {
            return;
        }
        self.create.create_dialog = None;
        self.create.create_title = String::new();
        self.create.create_about = String::new();
        self.create.member_pick = Vec::new();
    }

    /// Toggles a contact's checkbox in the member picker (an index past the
    /// list changes nothing).
    #[verifier::spinoff_prover]
    pub fn toggle_member(&mut self, idx: usize)
        ensures
            idx >= old(self).create.member_pick.len() ==> *final(self) == *old(self),
            idx < old(self).create.member_pick.len() ==> {
                let e = old(self).create.member_pick@[idx as int];
                &&& final(self).create.member_pick@ == old(self).create.member_pick@.update(
                    idx as int,
                    (e.0, e.1, !e.2),
                )
                &&& *final(self) == (State {
                    create: CreateFlow { member_pick: final(self).create.member_pick, ..old(self).create },
                    ..*old(self)
                })
            },
    {
        if idx < self.create.member_pick.len() {
            let (a, b, c) = self.create.member_pick.remove(idx);
            self.create.member_pick.insert(idx, (a, b, !c));
        }
    }

    /// Submits the creation modal: queues the creation (a group carries the
    /// checked members) with the trimmed title and description, and closes
    /// the modal. A blank title, or no open modal, changes nothing.
    #[verifier::spinoff_prover]
    pub fn submit_create(&mut self)
        ensures
            (old(self).create.create_dialog is None || spec_trim(old(self).create.create_title@).len()
                == 0) ==> *final(self) == *old(self),
            old(self).create.create_dialog matches Some(kind) ==> spec_trim(
                old(self).create.create_title@,
            ).len() > 0 ==> {
                &&& final(self).outbox@.len() == old(self).outbox@.len() + 1
                &&& final(self).outbox@.drop_last() == old(self).outbox@
                &&& final(self).outbox@.last() matches Request::CreateChannel {
                    title,
                    about,
                    megagroup,
                    members,
                } && title@ == spec_trim(old(self).create.create_title@) && about@ == spec_trim(
                    old(self).create.create_about@,
                ) && megagroup == (kind == CreateKind::Group) && members@ == checked_ids(
                    old(self).create.member_pick@,
                )
                &&& final(self).create.create_dialog is None
                &&& final(self).create.create_title@ == Seq::<char>::empty()
                &&& final(self).create.create_about@ == Seq::<char>::empty()
                &&& final(self).create.member_pick@ == Seq::<(i64, String, bool)>::empty()
                &&& *final(self) == (State {
                    outbox: final(self).outbox,
                    create: final(self).create,
                    ..*old(self)
                })
            },
    {
        let kind = match self.create.create_dialog {
            Some(k) => k,
            None => {
                return;
            },
        };
        let title = trimmed(self.create.create_title.as_str());
        if title.as_str().is_empty() {
            return;
        }
        let about = trimmed(self.create.create_about.as_str());
        let members = checked_members(&self.create.member_pick);
        let megagroup = match kind {
            CreateKind::Group => true,
            CreateKind::Channel => false,
        };
        self.outbox.push(Request::CreateChannel { title, about, megagroup, members });
        self.cancel_create();
    }

    /// Right-click over a message row: opens the context menu on it (rows
    /// past the list are ignored).
    #[verifier::spinoff_prover]
    pub fn open_context(&mut self, row: usize)
        ensures
            row >= old(self).chat.messages.len() ==> *final(self) == *old(self),
            row < old(self).chat.messages.len() ==> *final(self) == (State {
                compose: Composer { context_menu: Some(ContextMenu { row }), ..old(self).compose },
                chat: Conversation { layout_epoch: bump(old(self).chat.layout_epoch), ..old(self).chat },
                ..*old(self)
            }),
    {
        if row >= self.chat.messages.len() {
            return;
        }
        self.compose.context_menu = Some(ContextMenu { row });
        self.invalidate_layout();
    }

    /// The context menu's target can be edited: an own text message.
    pub fn context_can_edit(&self) -> (b: bool)
        ensures
            b == can_edit_target(*self),
    {
        match self.compose.context_menu {
            Some(c) => {
                if c.row < self.chat.messages.len() {
                    let m = &self.chat.messages[c.row];
                    m.out && m.doc.is_none() && m.sticker.is_none()
                } else {
                    false
                }
            },
            None => false,
        }
    }

    /// How many entries the open context menu lists: four always (reply,
    /// forward, pin, delete), plus edit and the edit-mode twin when the
    /// target can be edited, plus copy when its text is not empty.
    pub fn context_menu_items(&self) -> (n: usize)
        ensures
            n == 4 + (if can_edit_target(*self) { 2int } else { 0int }) + (
            if self.compose.context_menu matches Some(c) && c.row < self.chat.messages.len()
                && self.chat.messages@[c.row as int].text@.len() > 0 {
                1int
            } else {
                0int
            }),
    {
        let can_edit = self.context_can_edit();
        let has_text = match self.compose.context_menu {
            Some(c) => c.row < self.chat.messages.len() && !self.chat.messages[c.row].text.as_str().is_empty(),
            None => false,
        };
        let mut n: usize = 4;
        if can_edit {
            n = n + 2;
        }
        if has_text {
            n = n + 1;
        }
        n
    }

    /// The info panel's subtitle: "online" for a user, "bot" for a bot, the
    /// member count of a group or channel when known, nothing otherwise.
    pub fn info_subtitle(&self) -> (s: String)
        ensures
            s@ == (match self.info.chat_info {
                Some(d) => match d.kind {
                    ChatKind::User => "online"@,
                    ChatKind::Bot => "bot"@,
                    _ => match d.members_count {
                        Some(n) => nat_str(n as nat) + " members"@,
                        None => Seq::<char>::empty(),
                    },
                },
                None => Seq::<char>::empty(),
            }),
    {
        match &self.info.chat_info {
            Some(d) => match d.kind {
                ChatKind::User => String::from_str("online"),
                ChatKind::Bot => String::from_str("bot"),
                _ => match d.members_count {
                    Some(n) => {
                        let digits = string_from_chars(&u64_digits(n as u64));
                        concat(digits.as_str(), " members")
                    },
                    None => String::new(),
                },
            },
            None => String::new(),
        }
    }

    /// The context menu's target is pinned (label switch).
    pub fn context_row_pinned(&self) -> (b: bool)
        ensures
            b == (self.compose.context_menu matches Some(c) && c.row < self.chat.messages.len()
                && self.chat.messages@[c.row as int].pinned),
    {
        match self.compose.context_menu {
            Some(c) => c.row < self.chat.messages.len() && self.chat.messages[c.row].pinned,
            None => false,
        }
    }

    /// Dismisses the context menu (click outside) and the member admin
    /// menu.
    #[verifier::spinoff_prover]
    pub fn dismiss_menu(&mut self)
        ensures
            old(self).compose.context_menu is None ==> *final(self) == (State {
                info: InfoPanel { admin_menu: None, ..old(self).info },
                ..*old(self)
            }),
            old(self).compose.context_menu is Some ==> *final(self) == (State {
                info: InfoPanel { admin_menu: None, ..old(self).info },
                compose: Composer { context_menu: None, ..old(self).compose },
                chat: Conversation { layout_epoch: bump(old(self).chat.layout_epoch), ..old(self).chat },
                ..*old(self)
            }),
    {
        self.info.admin_menu = None;
        if self.compose.context_menu.is_none() {
            return;
        }
        self.compose.context_menu = None;
        self.invalidate_layout();
    }

    /// "Reply" in the context menu: the composer replies to that message,
    /// with its preview as snippet. The menu closes either way.
    #[verifier::spinoff_prover]
    pub fn context_reply(&mut self)
        ensures
            old(self).compose.context_menu is None ==> *final(self) == *old(self),
            old(self).compose.context_menu matches Some(c) ==> {
                &&& c.row >= old(self).chat.messages.len() ==> *final(self) == (State {
                    compose: Composer { context_menu: None, ..old(self).compose },
                    ..*old(self)
                })
                &&& c.row < old(self).chat.messages.len() ==> {
                    let m = old(self).chat.messages@[c.row as int];
                    &&& final(self).compose.reply_target matches Some(r) && r.msg_id == m.id
                        && r.snippet@ == spec_preview(m.text@, m.photo, m.doc, m.sticker)
                    &&& *final(self) == (State {
                        compose: Composer {
                            context_menu: None,
                            reply_target: final(self).compose.reply_target,
                            ..old(self).compose
                        },
                        ..*old(self)
                    })
                }
            },
    {
        let menu = match self.compose.context_menu {
            Some(c) => c,
            None => {
                return;
            },
        };
        self.compose.context_menu = None;
        if menu.row >= self.chat.messages.len() {
            return;
        }
        let m = &self.chat.messages[menu.row];
        let snippet = preview_text(m.text.as_str(), &m.photo, &m.doc, &m.sticker);
        let msg_id = m.id;
        self.compose.reply_target = Some(ReplyTarget { msg_id, snippet });
    }

    /// "Forward" in the context menu: opens the chat picker for that row.
    /// The menu closes either way.
    #[verifier::spinoff_prover]
    pub fn context_forward(&mut self)
        ensures
            old(self).compose.context_menu is None ==> *final(self) == *old(self),
            old(self).compose.context_menu matches Some(c) ==> {
                &&& c.row >= old(self).chat.messages.len() ==> *final(self) == (State {
                    compose: Composer { context_menu: None, ..old(self).compose },
                    ..*old(self)
                })
                &&& c.row < old(self).chat.messages.len() ==> *final(self) == (State {
                    compose: Composer {
                        context_menu: None,
                        forward_pick: Some(c.row),
                        ..old(self).compose
                    },
                    chat: Conversation { layout_epoch: bump(old(self).chat.layout_epoch), ..old(self).chat },
                    ..*old(self)
                })
            },
    {
        let menu = match self.compose.context_menu {
            Some(c) => c,
            None => {
                return;
            },
        };
        self.compose.context_menu = None;
        if menu.row >= self.chat.messages.len() {
            return;
        }
        self.compose.forward_pick = Some(menu.row);
        self.invalidate_layout();
    }

    /// The chat picker chose `to_chat`: queues the forward of the picked
    /// message from the open chat. The pick is consumed either way.
    #[verifier::spinoff_prover]
    pub fn forward_to(&mut self, to_chat: i64)
        ensures
            old(self).compose.forward_pick is None ==> *final(self) == *old(self),
            old(self).compose.forward_pick matches Some(row) ==> {
                &&& old(self).chat.open_chat is None ==> *final(self) == (State {
                    compose: Composer { forward_pick: None, ..old(self).compose },
                    ..*old(self)
                })
                &&& old(self).chat.open_chat matches Some(from_chat) ==> {
                    &&& final(self).outbox@ == if row < old(self).chat.messages.len() {
                        old(self).outbox@.push(
                            Request::ForwardMessage {
                                from_chat,
                                msg_id: old(self).chat.messages@[row as int].id,
                                to_chat,
                            },
                        )
                    } else {
                        old(self).outbox@
                    }
                    &&& *final(self) == (State {
                        outbox: final(self).outbox,
                        compose: Composer { forward_pick: None, ..old(self).compose },
                        chat: Conversation {
                            layout_epoch: bump(old(self).chat.layout_epoch),
                            ..old(self).chat
                        },
                        ..*old(self)
                    })
                }
            },
    {
        let row = match self.compose.forward_pick {
            Some(r) => r,
            None => {
                return;
            },
        };
        self.compose.forward_pick = None;
        let from_chat = match self.chat.open_chat {
            Some(id) => id,
            None => {
                return;
            },
        };
        if row < self.chat.messages.len() {
            let msg_id = self.chat.messages[row].id;
            self.outbox.push(Request::ForwardMessage { from_chat, msg_id, to_chat });
        }
        self.invalidate_layout();
    }

    /// "Edit" in the context menu: the composer takes the message's text and
    /// edits that message. The menu closes either way.
    #[verifier::spinoff_prover]
    pub fn context_edit(&mut self)
        ensures
            old(self).compose.context_menu is None ==> *final(self) == *old(self),
            old(self).compose.context_menu matches Some(c) ==> {
                &&& c.row >= old(self).chat.messages.len() ==> *final(self) == (State {
                    compose: Composer { context_menu: None, ..old(self).compose },
                    chat: Conversation { layout_epoch: bump(old(self).chat.layout_epoch), ..old(self).chat },
                    ..*old(self)
                })
                &&& c.row < old(self).chat.messages.len() ==> *final(self) == (State {
                    compose: Composer {
                        context_menu: None,
                        editing: Some(old(self).chat.messages@[c.row as int].id),
                        composer: old(self).chat.messages@[c.row as int].text,
                        ..old(self).compose
                    },
                    chat: Conversation { layout_epoch: bump(old(self).chat.layout_epoch), ..old(self).chat },
                    ..*old(self)
                })
            },
    {
        let menu = match self.compose.context_menu {
            Some(c) => c,
            None => {
                return;
            },
        };
        self.compose.context_menu = None;
        self.invalidate_layout();
        if menu.row < self.chat.messages.len() {
            let id = self.chat.messages[menu.row].id;
            let text = self.chat.messages[menu.row].text.clone();
            self.compose.editing = Some(id);
            self.compose.composer = text;
        }
    }

    /// "Copy" in the context menu: the text to copy (`None` for a message
    /// without text). The menu closes either way.
    #[verifier::spinoff_prover]
    pub fn context_copy(&mut self) -> (r: Option<String>)
        ensures
            old(self).compose.context_menu is None ==> *final(self) == *old(self) && r is None,
            old(self).compose.context_menu matches Some(c) ==> {
                &&& *final(self) == (State {
                    compose: Composer { context_menu: None, ..old(self).compose },
                    chat: Conversation { layout_epoch: bump(old(self).chat.layout_epoch), ..old(self).chat },
                    ..*old(self)
                })
                &&& r == if c.row < old(self).chat.messages.len()
                    && old(self).chat.messages@[c.row as int].text@.len() > 0 {
                    Some(old(self).chat.messages@[c.row as int].text)
                } else {
                    None
                }
            },
    {
        let menu = match self.compose.context_menu {
            Some(c) => c,
            None => {
                return None;
            },
        };
        self.compose.context_menu = None;
        self.invalidate_layout();
        if menu.row >= self.chat.messages.len() {
            return None;
        }
        if self.chat.messages[menu.row].text.as_str().is_empty() {
            None
        } else {
            Some(self.chat.messages[menu.row].text.clone())
        }
    }

    /// "Delete" in the context menu: queues the deletion and drops the
    /// message from the visible list (and the edit or pin that pointed to
    /// it). The menu closes either way.
    #[verifier::spinoff_prover]
    pub fn context_delete(&mut self)
        ensures
            old(self).compose.context_menu is None ==> *final(self) == *old(self),
            old(self).compose.context_menu matches Some(c) ==> {
                &&& c.row >= old(self).chat.messages.len() ==> *final(self) == (State {
                    compose: Composer { context_menu: None, ..old(self).compose },
                    ..*old(self)
                })
                &&& c.row < old(self).chat.messages.len() ==> {
                    let id = old(self).chat.messages@[c.row as int].id;
                    &&& final(self).outbox@ == old(self).outbox@.push(
                        Request::DeleteMessage {
                            id: match old(self).chat.open_chat {
                                Some(x) => x,
                                None => 0,
                            },
                            msg_id: id,
                        },
                    )
                    &&& final(self).chat.messages@ == without_id(old(self).chat.messages@, id)
                    &&& *final(self) == (State {
                        outbox: final(self).outbox,
                        compose: Composer {
                            context_menu: None,
                            editing: if old(self).compose.editing == Some(id) {
                                None
                            } else {
                                old(self).compose.editing
                            },
                            ..old(self).compose
                        },
                        chat: Conversation {
                            messages: final(self).chat.messages,
                            pinned_id: if old(self).chat.pinned_id == Some(id) {
                                None
                            } else {
                                old(self).chat.pinned_id
                            },
                            layout_epoch: bump(old(self).chat.layout_epoch),
                            ..old(self).chat
                        },
                        ..*old(self)
                    })
                }
            },
    {
        let menu = match self.compose.context_menu {
            Some(c) => c,
            None => {
                return;
            },
        };
        self.compose.context_menu = None;
        if menu.row >= self.chat.messages.len() {
            return;
        }
        let id = self.chat.messages[menu.row].id;
        let chat_id = match self.chat.open_chat {
            Some(x) => x,
            None => 0,
        };
        self.outbox.push(Request::DeleteMessage { id: chat_id, msg_id: id });
        remove_id(&mut self.chat.messages, id);
        if self.compose.editing == Some(id) {
            self.compose.editing = None;
        }
        if self.chat.pinned_id == Some(id) {
            self.chat.pinned_id = None;
        }
        self.invalidate_layout();
    }

    /// "Pin"/"Unpin" in the context menu: queues the change and applies it
    /// at once (a pin unpins every other message). The menu closes either
    /// way.
    #[verifier::spinoff_prover]
    pub fn context_pin(&mut self)
        ensures
            old(self).compose.context_menu is None ==> *final(self) == *old(self),
            old(self).compose.context_menu matches Some(c) ==> {
                &&& c.row >= old(self).chat.messages.len() ==> *final(self) == (State {
                    compose: Composer { context_menu: None, ..old(self).compose },
                    ..*old(self)
                })
                &&& c.row < old(self).chat.messages.len() ==> {
                    let m = old(self).chat.messages@[c.row as int];
                    let pin = !m.pinned;
                    &&& final(self).outbox@ == old(self).outbox@.push(
                        Request::PinMessage {
                            id: match old(self).chat.open_chat {
                                Some(x) => x,
                                None => 0,
                            },
                            msg_id: m.id,
                            pin,
                        },
                    )
                    &&& final(self).chat.messages@ == repinned(old(self).chat.messages@, m.id, pin)
                    &&& *final(self) == (State {
                        outbox: final(self).outbox,
                        compose: Composer { context_menu: None, ..old(self).compose },
                        chat: Conversation {
                            messages: final(self).chat.messages,
                            pinned_id: if pin {
                                Some(m.id)
                            } else {
                                None
                            },
                            layout_epoch: bump(old(self).chat.layout_epoch),
                            ..old(self).chat
                        },
                        ..*old(self)
                    })
                }
            },
    {
        let menu = match self.compose.context_menu {
            Some(c) => c,
            None => {
                return;
            },
        };
        self.compose.context_menu = None;
        if menu.row >= self.chat.messages.len() {
            return;
        }
        let id = self.chat.messages[menu.row].id;
        let pin = !self.chat.messages[menu.row].pinned;
        let chat_id = match self.chat.open_chat {
            Some(x) => x,
            None => 0,
        };
        self.outbox.push(Request::PinMessage { id: chat_id, msg_id: id, pin });
        self.chat.pinned_id = if pin {
            Some(id)
        } else {
            None
        };
        repin(&mut self.chat.messages, id, pin);
        self.invalidate_layout();
    }

    /// Click on the pinned banner: scroll to the pinned message when it is
    /// in the list, otherwise remember it until the history has it.
    #[verifier::spinoff_prover]
    pub fn jump_to_pinned(&mut self)
        ensures
            old(self).chat.pinned_id is None ==> *final(self) == *old(self),
            old(self).chat.pinned_id matches Some(p) ==> if has_msg(old(self).chat.messages@, p) {
                *final(self) == (State {
                    compose: Composer { context_menu: None, ..old(self).compose },
                    view: Viewport {
                        scroll_to_bottom: false,
                        scroll_target: Some(p),
                        ..old(self).view
                    },
                    ..*old(self)
                })
            } else {
                *final(self) == (State {
                    compose: Composer { context_menu: None, ..old(self).compose },
                    view: Viewport { pending_jump_id: Some(p), ..old(self).view },
                    chat: Conversation { layout_epoch: bump(old(self).chat.layout_epoch), ..old(self).chat },
                    ..*old(self)
                })
            },
    {
        let pinned = match self.chat.pinned_id {
            Some(p) => p,
            None => {
                return;
            },
        };
        self.compose.context_menu = None;
        if find_msg(&self.chat.messages, pinned) {
            self.view.scroll_to_bottom = false;
            self.view.scroll_target = Some(pinned);
        } else {
            self.view.pending_jump_id = Some(pinned);
            self.invalidate_layout();
        }
    }

    /// Back: closes the photo viewer, the context menu and the edit.
    #[verifier::spinoff_prover]
    pub fn back(&mut self)
        ensures
            *final(self) == (State {
                view: Viewport { viewer: None, ..old(self).view },
                compose: Composer { context_menu: None, editing: None, ..old(self).compose },
                chat: if old(self).compose.context_menu is Some {
                    Conversation { layout_epoch: bump(old(self).chat.layout_epoch), ..old(self).chat }
                } else {
                    old(self).chat
                },
                ..*old(self)
            }),
    {
        self.view.viewer = None;
        if self.compose.context_menu.is_some() {
            self.compose.context_menu = None;
            self.invalidate_layout();
        }
        self.compose.editing = None;
    }

    /// Opens the search UI in `mode`, keeping a query already typed.
    #[verifier::spinoff_prover]
    pub fn open_search(&mut self, mode: SearchMode)
        ensures
            final(self).search.search_hits@ == Seq::<SearchHit>::empty(),
            *final(self) == (State {
                search: Search {
                    search_mode: Some(mode),
                    search_hits: final(self).search.search_hits,
                    search_pending: false,
                    ..old(self).search
                },
                ..*old(self)
            }),
    {
        self.search.search_mode = Some(mode);
        self.search.search_hits = Vec::new();
        self.search.search_pending = false;
    }

    /// Closes the search UI and forgets a pending jump.
    #[verifier::spinoff_prover]
    pub fn close_search(&mut self)
        ensures
            final(self).search.search_mode is None,
            final(self).search.search_query@ == Seq::<char>::empty(),
            final(self).search.search_hits@ == Seq::<SearchHit>::empty(),
            !final(self).search.search_pending,
            *final(self) == (State {
                search: final(self).search,
                view: Viewport { pending_jump_id: None, ..old(self).view },
                ..*old(self)
            }),
    {
        self.search.search_mode = None;
        self.search.search_query = String::new();
        self.search.search_hits = Vec::new();
        self.search.search_pending = false;
        self.view.pending_jump_id = None;
    }

    /// The search field changed: record the query and, when it is not
    /// blank and a search mode is open, queue the trimmed query (global, or
    /// in the open chat). A blank query clears the results.
    #[verifier::spinoff_prover]
    pub fn search_changed(&mut self, query: String)
        ensures
            final(self).search.search_query == query,
            spec_trim(query@).len() == 0 ==> {
                &&& final(self).search.search_hits@ == Seq::<SearchHit>::empty()
                &&& *final(self) == (State {
                    search: Search {
                        search_query: query,
                        search_hits: final(self).search.search_hits,
                        search_pending: false,
                        ..old(self).search
                    },
                    ..*old(self)
                })
            },
            spec_trim(query@).len() > 0 ==> {
                &&& old(self).search.search_mode is None ==> final(self).outbox@ == old(self).outbox@
                &&& old(self).search.search_mode matches Some(mode) ==> {
                    &&& final(self).outbox@.len() == old(self).outbox@.len() + 1
                    &&& final(self).outbox@.drop_last() == old(self).outbox@
                    &&& final(self).outbox@.last() matches Request::Search { id, query: q } && q@
                        == spec_trim(query@) && id == (match mode {
                        SearchMode::Global => None,
                        SearchMode::InChat => old(self).chat.open_chat,
                    })
                }
                &&& *final(self) == (State {
                    outbox: final(self).outbox,
                    search: Search {
                        search_query: query,
                        search_pending: true,
                        ..old(self).search
                    },
                    ..*old(self)
                })
            },
    {
        let q = trimmed(query.as_str());
        self.search.search_query = query;
        if q.as_str().is_empty() {
            self.search.search_hits = Vec::new();
            self.search.search_pending = false;
            return;
        }
        self.search.search_pending = true;
        let id = match self.search.search_mode {
            Some(SearchMode::Global) => None,
            Some(SearchMode::InChat) => self.chat.open_chat,
            None => {
                return;
            },
        };
        self.outbox.push(Request::Search { id, query: q });
    }

    /// An emoji was picked: appended to the composer and moved to the front
    /// of the recents (deduplicated, capped). An empty pick changes
    /// nothing. (Persisting the recents is the shell's.)
    #[verifier::spinoff_prover]
    pub fn pick_emoji(&mut self, emoji: String)
        ensures
            emoji@.len() == 0 ==> *final(self) == *old(self),
            emoji@.len() > 0 ==> {
                &&& final(self).compose.composer@ == old(self).compose.composer@ + emoji@
                &&& views(final(self).prefs.emoji_recents@) == spec_push_recent(
                    views(old(self).prefs.emoji_recents@),
                    emoji@,
                )
                &&& *final(self) == (State {
                    compose: Composer { composer: final(self).compose.composer, ..old(self).compose },
                    prefs: Prefs { emoji_recents: final(self).prefs.emoji_recents, ..old(self).prefs },
                    ..*old(self)
                })
            },
    {
        if emoji.as_str().is_empty() {
            return;
        }
        let text = concat(self.compose.composer.as_str(), emoji.as_str());
        self.compose.composer = text;
        push_recent(&mut self.prefs.emoji_recents, emoji);
    }

    /// Submits the profile form: queues the trimmed first name, last name
    /// and bio. A blank first name changes nothing.
    #[verifier::spinoff_prover]
    pub fn submit_profile_edit(&mut self)
        ensures
            spec_trim(old(self).settings.edit_name@).len() == 0 ==> *final(self) == *old(self),
            spec_trim(old(self).settings.edit_name@).len() > 0 ==> {
                &&& final(self).outbox@.len() == old(self).outbox@.len() + 1
                &&& final(self).outbox@.drop_last() == old(self).outbox@
                &&& final(self).outbox@.last() matches Request::UpdateProfile {
                    first_name: Some(f),
                    last_name: Some(l),
                    bio: Some(b),
                } && f@ == spec_trim(old(self).settings.edit_name@) && l@ == spec_trim(
                    old(self).settings.edit_last_name@,
                ) && b@ == spec_trim(old(self).settings.edit_bio@)
                &&& *final(self) == (State { outbox: final(self).outbox, ..*old(self) })
            },
    {
        let first = trimmed(self.settings.edit_name.as_str());
        if first.as_str().is_empty() {
            return;
        }
        let last = trimmed(self.settings.edit_last_name.as_str());
        let bio = trimmed(self.settings.edit_bio.as_str());
        self.outbox.push(
            Request::UpdateProfile { first_name: Some(first), last_name: Some(last), bio: Some(bio) },
        );
    }

    #[verifier::spinoff_prover]
    fn clear_info(&mut self)
        ensures
            info_cleared(old(self).info, final(self).info),
            *final(self) == (State { info: final(self).info, ..*old(self) }),
    {
        self.info.info_open = false;
        self.info.chat_info = None;
        self.info.participants = Vec::new();
        self.info.kick_confirm = None;
        self.info.admin_menu = None;
        self.info.admin_confirm = None;
        self.info.muted = false;
    }

    /// Drops every conversation-scoped topic bit, with the full history.
    #[verifier::spinoff_prover]
    fn topic_reset(&mut self)
        ensures
            topics_cleared(final(self).topics),
            final(self).chat.topic_all_messages@ == Seq::<MsgRow>::empty(),
            *final(self) == (State {
                topics: final(self).topics,
                chat: Conversation { topic_all_messages: final(self).chat.topic_all_messages, ..old(self).chat },
                ..*old(self)
            }),
    {
        self.topics.topic_topics = Vec::new();
        self.topics.topic_is_forum = false;
        self.topics.topic_selected = None;
        self.topics.topic_creating = false;
        self.topics.topic_title = String::new();
        self.chat.topic_all_messages = Vec::new();
    }

    /// Rebuilds the visible messages from the full history for the current
    /// topic selection.
    #[verifier::spinoff_prover]
    fn apply_topic_filter(&mut self)
        ensures
            final(self).chat.messages@ == spec_topic_view(
                old(self).chat.topic_all_messages@,
                old(self).topics.topic_selected,
            ),
            *final(self) == (State {
                chat: Conversation {
                    messages: final(self).chat.messages,
                    layout_epoch: bump(old(self).chat.layout_epoch),
                    ..old(self).chat
                },
                ..*old(self)
            }),
    {
        self.chat.messages = topic_view(&self.chat.topic_all_messages, self.topics.topic_selected);
        self.invalidate_layout();
    }

    /// A topic chip was picked (`None` = all messages): the visible list is
    /// that thread of the history, scrolled to the bottom. Re-picking the
    /// selected chip changes nothing.
    #[verifier::spinoff_prover]
    pub fn topic_select(&mut self, root: Option<i32>)
        ensures
            topic_selected_to(*old(self), *final(self), root),
    {
        if self.topics.topic_selected == root {
            return;
        }
        self.topics.topic_selected = root;
        self.apply_topic_filter();
        self.view.scroll_to_bottom = true;
    }

    /// Submits the create-topic field: a non-blank title is queued for the
    /// open chat (trimmed); the field's text is cleared. A blank title
    /// changes nothing.
    #[verifier::spinoff_prover]
    pub fn topic_submit_create(&mut self)
        ensures
            spec_trim(old(self).topics.topic_title@).len() == 0 ==> *final(self) == *old(self),
            spec_trim(old(self).topics.topic_title@).len() > 0 ==> {
                &&& old(self).chat.open_chat is None ==> final(self).outbox@ == old(self).outbox@
                &&& old(self).chat.open_chat matches Some(id) ==> {
                    &&& final(self).outbox@.len() == old(self).outbox@.len() + 1
                    &&& final(self).outbox@.drop_last() == old(self).outbox@
                    &&& final(self).outbox@.last() matches Request::CreateTopic { id: cid, title }
                        && cid == id && title@ == spec_trim(old(self).topics.topic_title@)
                }
                &&& final(self).topics.topic_title@ == Seq::<char>::empty()
                &&& *final(self) == (State {
                    outbox: final(self).outbox,
                    topics: Topics { topic_title: final(self).topics.topic_title, ..old(self).topics },
                    ..*old(self)
                })
            },
    {
        let title = trimmed(self.topics.topic_title.as_str());
        if title.as_str().is_empty() {
            return;
        }
        match self.chat.open_chat {
            Some(id) => {
                self.outbox.push(Request::CreateTopic { id, title });
            },
            None => {},
        }
        self.topics.topic_title = String::new();
    }

    /// Opens a chat: an empty, loading conversation with every
    /// conversation-scoped overlay closed, playback stopped, and its history,
    /// read mark and topic list queued. (Stopping the audio device and
    /// persisting the last chat are the shell's.)
    #[verifier::spinoff_prover]
    pub fn open_chat(&mut self, id: i64)
        ensures
            opened(*old(self), *final(self), id),
    {
        self.media.playing_voice = None;
        self.media.voice_playing = false;
        self.media.voice_sim = false;
        self.media.audio_stop = true;
        self.chat.open_chat = Some(id);
        self.chat.messages = Vec::new();
        self.chat.loading = true;
        self.chat.chat_title = String::new();
        self.compose.editing = None;
        self.compose.context_menu = None;
        self.compose.reply_target = None;
        self.compose.forward_pick = None;
        self.view.pending_jump_id = None;
        self.chat.pinned_id = None;
        self.compose.composer = String::new();
        self.clear_info();
        self.topic_reset();
        self.compose.emoji_panel_open = false;
        self.compose.sticker_picker_open = false;
        self.outbox.push(Request::OpenChat { id });
        self.outbox.push(Request::MarkRead { id });
        self.outbox.push(Request::GetTopics { id });
        self.invalidate_layout();
    }

    /// Back to the chat list: closes the open chat and clears the
    /// conversation-scoped state. (Forgetting the last-chat marker is the
    /// shell's.)
    #[verifier::spinoff_prover]
    pub fn close_chat(&mut self)
        ensures
            closed(*old(self), *final(self)),
    {
        self.chat.open_chat = None;
        self.chat.messages = Vec::new();
        self.compose.editing = None;
        self.compose.context_menu = None;
        self.chat.pinned_id = None;
        self.clear_info();
        self.topic_reset();
        self.compose.emoji_panel_open = false;
        self.compose.sticker_picker_open = false;
        self.invalidate_layout();
    }

    /// Submits the composer. With an edit pending, queues the edit of that
    /// message and updates its text; otherwise, in an open chat, appends an
    /// optimistic row (id 0) to the history and the visible list and queues
    /// the send — into the selected topic thread when there is one and the
    /// message is no reply. The composer empties. A blank composer changes
    /// nothing.
    #[verifier::spinoff_prover]
    pub fn submit(&mut self)
        ensures
            submitted(*old(self), *final(self)),
    {
        let text = trimmed(self.compose.composer.as_str());
        if text.as_str().is_empty() {
            return;
        }
        match self.compose.editing {
            Some(msg_id) => {
                self.compose.editing = None;
                let chat_id = match self.chat.open_chat {
                    Some(x) => x,
                    None => 0,
                };
                retext(&mut self.chat.messages, msg_id, &text);
                self.outbox.push(Request::EditMessage { id: chat_id, msg_id, text });
            },
            None => {
                match self.chat.open_chat {
                    Some(id) => {
                        let reply_to = match &self.compose.reply_target {
                            Some(r) => Some(r.msg_id),
                            None => None,
                        };
                        self.compose.reply_target = None;
                        let mut row = MsgRow::text(0, text.clone(), 0, true);
                        row.reply_to = reply_to;
                        self.chat.topic_all_messages.push(row.duplicate());
                        self.chat.messages.push(row);
                        let req = match self.topics.topic_selected {
                            Some(root) => {
                                if reply_to.is_none() {
                                    Request::SendTopicMessage { id, text, topic_root: root }
                                } else {
                                    Request::SendMessage { id, text, reply_to }
                                }
                            },
                            None => Request::SendMessage { id, text, reply_to },
                        };
                        self.outbox.push(req);
                        self.chat.typing = false;
                    },
                    None => {},
                }
            },
        }
        self.compose.composer = String::new();
        self.view.scroll_to_bottom = true;
        self.invalidate_layout();
    }

    /// A picker sticker was clicked: appends an optimistic sticker row
    /// (id 0) and queues the send to the open chat; the picker closes.
    /// Nothing happens without an open chat or for an unknown sticker.
    #[verifier::spinoff_prover]
    pub fn send_sticker(&mut self, set_idx: usize, doc_idx: usize)
        ensures
            (old(self).chat.open_chat is None || set_idx >= old(self).media.sticker_sets.len()
                || doc_idx >= old(self).media.sticker_sets@[set_idx as int].docs.len())
                ==> *final(self) == *old(self),
            old(self).chat.open_chat matches Some(id) ==> (set_idx < old(self).media.sticker_sets.len()
                && doc_idx < old(self).media.sticker_sets@[set_idx as int].docs.len()) ==> {
                let d = old(self).media.sticker_sets@[set_idx as int].docs@[doc_idx as int];
                let row = final(self).chat.messages@.last();
                &&& row.sticker matches Some(st) && st.alt@ == d.2@
                &&& row == (MsgRow { sticker: row.sticker, ..MsgRow::spec_text(0, row.text, 0, true) })
                &&& row.text@ == Seq::<char>::empty()
                &&& final(self).chat.messages@ == old(self).chat.messages@.push(row)
                &&& final(self).outbox@ == old(self).outbox@.push(
                    Request::SendSticker { id, doc_id: d.0, access_hash: d.1 },
                )
                &&& *final(self) == (State {
                    outbox: final(self).outbox,
                    chat: Conversation {
                        messages: final(self).chat.messages,
                        layout_epoch: bump(old(self).chat.layout_epoch),
                        ..old(self).chat
                    },
                    compose: Composer { sticker_picker_open: false, ..old(self).compose },
                    view: Viewport { scroll_to_bottom: true, ..old(self).view },
                    ..*old(self)
                })
            },
    {
        let id = match self.chat.open_chat {
            Some(id) => id,
            None => {
                return;
            },
        };
        if set_idx >= self.media.sticker_sets.len() {
            return;
        }
        if doc_idx >= self.media.sticker_sets[set_idx].docs.len() {
            return;
        }
        let doc_id = self.media.sticker_sets[set_idx].docs[doc_idx].0;
        let access_hash = self.media.sticker_sets[set_idx].docs[doc_idx].1;
        let alt = self.media.sticker_sets[set_idx].docs[doc_idx].2.clone();
        let mut row = MsgRow::text(0, String::new(), 0, true);
        row.sticker = Some(StickerMeta { alt });
        self.chat.messages.push(row);
        self.outbox.push(Request::SendSticker { id, doc_id, access_hash });
        self.compose.sticker_picker_open = false;
        self.view.scroll_to_bottom = true;
        self.invalidate_layout();
    }

    /// Sends the file at `path` (named `name`; `is_photo` picks compressed
    /// photo vs document) to the open chat: the composer text becomes the
    /// caption, the pending reply is used, and an optimistic row with a
    /// fresh upload token and zero progress is appended. Nothing happens
    /// without an open chat.
    #[verifier::spinoff_prover]
    pub fn send_media(&mut self, path: String, is_photo: bool, name: String)
        requires
            old(self).media.next_media_token < u64::MAX,
        ensures
            media_sent(*old(self), *final(self), path, is_photo, name),
    {
        let id = match self.chat.open_chat {
            Some(id) => id,
            None => {
                return;
            },
        };
        let mut caption = String::new();
        std::mem::swap(&mut caption, &mut self.compose.composer);
        let reply_to = match &self.compose.reply_target {
            Some(r) => Some(r.msg_id),
            None => None,
        };
        self.compose.reply_target = None;
        let token = self.media.next_media_token;
        self.media.next_media_token = token + 1;
        let mut row = MsgRow::text(0, caption.clone(), 0, true);
        row.doc = if is_photo {
            None
        } else {
            Some(DocMeta { name, size: 0, kind: DocKind::Audio { voice: false } })
        };
        row.photo = if is_photo {
            Some((0, 0))
        } else {
            None
        };
        row.uploading = Some(0);
        row.upload_token = Some(token);
        row.reply_to = reply_to;
        self.chat.messages.push(row);
        self.outbox.push(Request::SendMedia { id, path, caption, is_photo, reply_to, token });
        self.view.scroll_to_bottom = true;
        self.invalidate_layout();
    }

    /// A message row was clicked. An open context menu is dismissed instead.
    /// A downloaded voice note asks the shell to play or toggle it; another
    /// downloaded document asks the shell to open it; a document not yet
    /// downloaded is queued for download; a downloaded photo opens the
    /// viewer. Rows past the list are ignored.
    #[verifier::spinoff_prover]
    pub fn click(&mut self, row: usize)
        ensures
            old(self).compose.context_menu is Some ==> *final(self) == (State {
                info: InfoPanel { admin_menu: None, ..old(self).info },
                compose: Composer { context_menu: None, ..old(self).compose },
                chat: Conversation { layout_epoch: bump(old(self).chat.layout_epoch), ..old(self).chat },
                ..*old(self)
            }),
            old(self).compose.context_menu is None ==> (row >= old(self).chat.messages.len()
                ==> *final(self) == *old(self)),
            old(self).compose.context_menu is None ==> row < old(self).chat.messages.len() ==> {
                let m = old(self).chat.messages@[row as int];
                let chat_id = match old(self).chat.open_chat {
                    Some(x) => x,
                    None => 0,
                };
                match m.doc {
                    Some(d) => match m.doc_path {
                        Some(p) => if d.kind == (DocKind::Audio { voice: true }) {
                            *final(self) == (State {
                                media: Media {
                                    voice_request: Some((chat_id, m.id, p)),
                                    ..old(self).media
                                },
                                ..*old(self)
                            })
                        } else {
                            *final(self) == (State {
                                view: Viewport { open_file: Some(p), ..old(self).view },
                                ..*old(self)
                            })
                        },
                        None => {
                            &&& final(self).outbox@ == old(self).outbox@.push(
                                Request::DownloadDoc { chat_id, msg_id: m.id },
                            )
                            &&& *final(self) == (State { outbox: final(self).outbox, ..*old(self) })
                        },
                    },
                    None => match m.photo_path {
                        Some(p) => *final(self) == (State {
                            view: Viewport { viewer: Some(p), ..old(self).view },
                            ..*old(self)
                        }),
                        None => *final(self) == *old(self),
                    },
                }
            },
    {
        if self.compose.context_menu.is_some() {
            self.dismiss_menu();
            return;
        }
        if row >= self.chat.messages.len() {
            return;
        }
        let chat_id = match self.chat.open_chat {
            Some(x) => x,
            None => 0,
        };
        let msg_id = self.chat.messages[row].id;
        match &self.chat.messages[row].doc {
            Some(d) => {
                let voice = match d.kind {
                    DocKind::Audio { voice } => voice,
                    _ => false,
                };
                match &self.chat.messages[row].doc_path {
                    Some(p) => {
                        let p = p.clone();
                        if voice {
                            self.media.voice_request = Some((chat_id, msg_id, p));
                        } else {
                            self.view.open_file = Some(p);
                        }
                    },
                    None => {
                        self.outbox.push(Request::DownloadDoc { chat_id, msg_id });
                    },
                }
            },
            None => {
                match &self.chat.messages[row].photo_path {
                    Some(p) => {
                        let p = p.clone();
                        self.view.viewer = Some(p);
                    },
                    None => {},
                }
            },
        }
    }

    /// A search result was clicked. In-chat results of the open chat scroll
    /// to the message (or to the bottom when it is not in the list) and
    /// close the search; any other result opens its chat and closes the
    /// search.
    #[verifier::spinoff_prover]
    pub fn click_search_hit(&mut self, idx: usize)
        ensures
            idx >= old(self).search.search_hits.len() ==> *final(self) == *old(self),
            idx < old(self).search.search_hits.len() ==> {
                let hit = old(self).search.search_hits@[idx as int];
                &&& final(self).search.search_mode is None
                &&& final(self).search.search_query@ == Seq::<char>::empty()
                &&& final(self).search.search_hits@ == Seq::<SearchHit>::empty()
                &&& !final(self).search.search_pending
                &&& final(self).view.pending_jump_id is None
                &&& if old(self).search.search_mode == Some(SearchMode::InChat)
                    && old(self).chat.open_chat == Some(hit.chat_id) {
                    &&& final(self).view == (if has_msg(old(self).chat.messages@, hit.row.id) {
                        Viewport {
                            scroll_to_bottom: false,
                            scroll_target: Some(hit.row.id),
                            pending_jump_id: None,
                            ..old(self).view
                        }
                    } else {
                        Viewport { scroll_to_bottom: true, pending_jump_id: None, ..old(self).view }
                    })
                    &&& *final(self) == (State {
                        search: final(self).search,
                        view: final(self).view,
                        chat: Conversation {
                            layout_epoch: bump(old(self).chat.layout_epoch),
                            ..old(self).chat
                        },
                        ..*old(self)
                    })
                } else {
                    &&& final(self).outbox@ == old(self).outbox@.push(
                        Request::OpenChat { id: hit.chat_id },
                    ).push(Request::MarkRead { id: hit.chat_id }).push(
                        Request::GetTopics { id: hit.chat_id },
                    )
                    &&& final(self).chat.open_chat == Some(hit.chat_id)
                    &&& final(self).chat.loading
                    &&& final(self).chat.messages@ == Seq::<MsgRow>::empty()
                }
            },
    {
        if idx >= self.search.search_hits.len() {
            return;
        }
        let chat_id = self.search.search_hits[idx].chat_id;
        let msg_id = self.search.search_hits[idx].row.id;
        let in_chat = match self.search.search_mode {
            Some(SearchMode::InChat) => true,
            _ => false,
        };
        if in_chat && self.chat.open_chat == Some(chat_id) {
            if find_msg(&self.chat.messages, msg_id) {
                self.view.scroll_to_bottom = false;
                self.view.scroll_target = Some(msg_id);
            } else {
                self.view.scroll_to_bottom = true;
            }
            self.close_search();
            self.invalidate_layout();
            return;
        }
        self.view.pending_jump_id = Some(msg_id);
        self.open_chat(chat_id);
        self.close_search();
    }

    /// A freshly started client (see [`is_fresh`]).
    pub fn new() -> (s: State)
        ensures
            is_fresh(s),
    {
        State {
            outbox: Vec::new(),
            status: String::new(),
            login: Login {
                authenticated: false,
                connecting: false,
                login_step: LoginStep::Phone,
                login_input: String::new(),
                login_error: false,
                login_qr_selected: false,
                qr_stage: QrStage::Idle,
                qr_png_path: None,
                qr_error: None,
            },
            list: ChatList {
                dialogs: Vec::new(),
                dialog_short: Vec::new(),
                initial_chat: None,
                auto_open_first: false,
                row_menu: None,
                confirm_leave: None,
                create_menu_open: false,
            },
            chat: Conversation {
                open_chat: None,
                chat_title: String::new(),
                messages: Vec::new(),
                topic_all_messages: Vec::new(),
                loading: false,
                typing: false,
                pinned_id: None,
                layout_epoch: 0,
            },
            view: Viewport {
                scroll_to_bottom: false,
                scroll_target: None,
                pending_jump_id: None,
                viewer: None,
                open_file: None,
            },
            compose: Composer {
                composer: String::new(),
                editing: None,
                reply_target: None,
                context_menu: None,
                forward_pick: None,
                emoji_panel_open: false,
                sticker_picker_open: false,
            },
            create: CreateFlow {
                create_dialog: None,
                create_title: String::new(),
                create_about: String::new(),
                member_pick: Vec::new(),
            },
            info: InfoPanel {
                info_open: false,
                chat_info: None,
                participants: Vec::new(),
                kick_confirm: None,
                admin_menu: None,
                admin_confirm: None,
                admin_self_id: None,
                muted: false,
            },
            topics: Topics {
                topic_topics: Vec::new(),
                topic_is_forum: false,
                topic_selected: None,
                topic_creating: false,
                topic_title: String::new(),
            },
            search: Search {
                search_mode: None,
                search_query: String::new(),
                search_hits: Vec::new(),
                search_pending: false,
            },
            settings: Settings {
                settings_open: false,
                settings_tab: SettingsTab::Profile,
                my_profile: None,
                edit_name: String::new(),
                edit_last_name: String::new(),
                edit_bio: String::new(),
                sessions: Vec::new(),
                cache_bytes: None,
                confirm_clear_cache: false,
                confirm_logout: false,
            },
            prefs: Prefs {
                theme_mode: ThemeMode::Dark,
                emoji_recents: Vec::new(),
                notifications_on: true,
                persist_ui: false,
            },
            media: Media {
                sticker_sets: Vec::new(),
                sticker_thumbs: HashMap::new(),
                playing_voice: None,
                voice_playing: false,
                voice_sim: false,
                voice_request: None,
                voice_start: None,
                audio_stop: false,
                next_media_token: 1,
            },
        }
    }

    /// Sets the "open the first chat once the list arrives" flag.
    pub fn with_auto_open_first(self, on: bool) -> (s: State)
        ensures
            s == (State { list: ChatList { auto_open_first: on, ..self.list }, ..self }),
    {
        let mut s = self;
        s.list.auto_open_first = on;
        s
    }

    /// Sets whether the UI state is persisted and restored. When it is, the
    /// chat to re-open, the emoji recents, the notifications preference and
    /// the theme come from what the shell read back from disk; when it is
    /// not (the demo), nothing is restored.
    pub fn with_persist_ui(
        self,
        on: bool,
        initial_chat: Option<i64>,
        recents: Vec<String>,
        notifications_on: bool,
        theme_mode: ThemeMode,
    ) -> (s: State)
        ensures
            on ==> s == (State {
                list: ChatList { initial_chat, ..self.list },
                prefs: Prefs { persist_ui: true, emoji_recents: recents, notifications_on, theme_mode },
                ..self
            }),
            !on ==> s == (State { prefs: Prefs { persist_ui: false, ..self.prefs }, ..self }),
    {
        let mut s = self;
        s.prefs.persist_ui = on;
        if on {
            s.list.initial_chat = initial_chat;
            s.prefs.emoji_recents = recents;
            s.prefs.notifications_on = notifications_on;
            s.prefs.theme_mode = theme_mode;
        }
        s
    }

    /// The session was logged out: every conversation-scoped and
    /// account-scoped piece of state goes, back to the sign-in screen. The
    /// preferences (theme, recents, notifications), the sticker packs and
    /// the QR pane stay.
    #[verifier::spinoff_prover]
    pub fn reset_to_login(&mut self)
        ensures
            logged_out_applied(*old(self), *final(self)),
    {
        self.login.authenticated = false;
        self.login.connecting = false;
        self.login.login_step = LoginStep::Phone;
        self.login.login_input = String::new();
        self.login.login_error = false;
        self.status = String::new();
        self.list.dialogs = Vec::new();
        self.list.dialog_short = Vec::new();
        self.chat.messages = Vec::new();
        self.chat.open_chat = None;
        self.chat.chat_title = String::new();
        self.chat.loading = false;
        self.chat.typing = false;
        self.view.scroll_to_bottom = false;
        self.compose.context_menu = None;
        self.compose.editing = None;
        self.compose.composer = String::new();
        self.view.viewer = None;
        self.compose.reply_target = None;
        self.compose.forward_pick = None;
        self.clear_info();
        self.topic_reset();
        self.chat.pinned_id = None;
        self.list.create_menu_open = false;
        self.create.create_dialog = None;
        self.create.create_title = String::new();
        self.create.create_about = String::new();
        self.create.member_pick = Vec::new();
        self.list.row_menu = None;
        self.list.confirm_leave = None;
        self.settings.confirm_clear_cache = false;
        self.compose.sticker_picker_open = false;
        self.compose.emoji_panel_open = false;
        self.view.open_file = None;
        self.media.playing_voice = None;
        self.media.voice_playing = false;
        self.search.search_mode = None;
        self.search.search_query = String::new();
        self.search.search_hits = Vec::new();
        self.search.search_pending = false;
        self.view.scroll_target = None;
        self.settings.settings_open = false;
        self.settings.settings_tab = SettingsTab::Profile;
        self.settings.my_profile = None;
        self.settings.edit_name = String::new();
        self.settings.edit_last_name = String::new();
        self.settings.edit_bio = String::new();
        self.settings.sessions = Vec::new();
        self.settings.cache_bytes = None;
        self.settings.confirm_logout = false;
        self.invalidate_layout();
    }

    /// Escape closes the topmost overlay only, in this order: the search
    /// UI, the create-topic field, the logout confirmation, the sticker
    /// picker, the kick confirmation, the admin confirmation, the admin
    /// menu, the info panel, the creation modal, the chat-row menu, the
    /// leave confirmation, the emoji panel, the settings sheet. With none
    /// open, it closes the context menu, cancels an edit (dropping its
    /// text), the reply and the forward picker.
    #[verifier::spinoff_prover]
    pub fn escape(&mut self)
        ensures
            escaped(*old(self), *final(self)),
    {
        if self.search.search_mode.is_some() {
            self.close_search();
            return;
        }
        if self.topics.topic_creating {
            self.topic_cancel_create();
            return;
        }
        if self.settings.confirm_logout {
            self.cancel_logout();
            return;
        }
        if self.compose.sticker_picker_open {
            self.close_sticker_picker();
            return;
        }
        if self.info.kick_confirm.is_some() {
            self.info.kick_confirm = None;
            return;
        }
        if self.info.admin_confirm.is_some() {
            self.info.admin_confirm = None;
            return;
        }
        if self.info.admin_menu.is_some() {
            self.info.admin_menu = None;
            return;
        }
        if self.info.info_open {
            self.close_info();
            return;
        }
        if self.create.create_dialog.is_some() {
            self.create.create_dialog = None;
            self.create.create_title = String::new();
            self.create.create_about = String::new();
            self.create.member_pick = Vec::new();
            self.invalidate_layout();
            return;
        }
        if self.list.row_menu.is_some() {
            self.list.row_menu = None;
            return;
        }
        if self.list.confirm_leave.is_some() {
            self.list.confirm_leave = None;
            return;
        }
        if self.compose.emoji_panel_open {
            self.close_emoji_panel();
            return;
        }
        if self.settings.settings_open {
            self.close_settings();
            return;
        }
        self.compose.context_menu = None;
        if self.compose.editing.is_some() {
            self.compose.editing = None;
            self.compose.composer = String::new();
        }
        self.compose.reply_target = None;
        if self.compose.forward_pick.is_some() {
            self.compose.forward_pick = None;
            return;
        }
        self.invalidate_layout();
    }

    /// Re-ellipsizes the list labels of chat `chat_id` after its row
    /// changed (nothing for an unknown chat).
    #[verifier::spinoff_prover]
    fn refresh_dialog_short(&mut self, chat_id: i64)
        ensures
            match first_dialog(old(self).list.dialogs@, chat_id, 0) {
                None => *final(self) == *old(self),
                Some(pos) => {
                    &&& shorts_refreshed(
                        old(self).list.dialog_short@,
                        final(self).list.dialog_short@,
                        pos,
                        old(self).list.dialogs@[pos],
                    )
                    &&& *final(self) == (State {
                        list: ChatList { dialog_short: final(self).list.dialog_short, ..old(self).list },
                        ..*old(self)
                    })
                },
            },
    {
        let pos = match find_dialog(&self.list.dialogs, chat_id) {
            Some(p) => p,
            None => {
                return;
            },
        };
        let t = ellipsize(self.list.dialogs[pos].title.as_str(), 15);
        let st = ellipsize(self.list.dialogs[pos].subtitle.as_str(), 20);
        pad_labels(&mut self.list.dialog_short, pos);
        self.list.dialog_short.remove(pos);
        self.list.dialog_short.insert(pos, (t, st));
    }

    /// `Connecting`: sign-in finished, the chat list is on its way.
    #[verifier::spinoff_prover]
    pub fn on_connecting(&mut self)
        ensures
            connecting_applied(*old(self), *final(self)),
    {
        self.login.connecting = true;
    }

    /// `Dialogs`: the chat list arrived, with its labels; the account is
    /// signed in.
    #[verifier::spinoff_prover]
    pub fn on_dialogs(&mut self, rows: Vec<ChatRow>)
        ensures
            dialogs_applied(*old(self), *final(self), rows),
    {
        let sh = labels(&rows);
        self.list.dialogs = rows;
        self.list.dialog_short = sh;
        self.login.authenticated = true;
    }

    /// `Messages`: the history of chat `id` arrived. For the open chat it
    /// becomes the full history (the visible list is its topic view), the
    /// last pinned row seeds the banner, loading, edit and context menu end,
    /// the list scrolls to the bottom on first load or growth, and a pending
    /// jump resolves when its message is there. Other chats' histories are
    /// ignored.
    #[verifier::spinoff_prover]
    pub fn on_messages(&mut self, id: i64, title: String, rows: Vec<MsgRow>)
        ensures
            messages_applied(*old(self), *final(self), id, title, rows),
    {
        if self.chat.open_chat != Some(id) {
            return;
        }
        let prev_len = self.chat.messages.len();
        self.chat.chat_title = title;
        self.chat.pinned_id = find_last_pinned(&rows);
        let shown = topic_view(&rows, self.topics.topic_selected);
        self.chat.topic_all_messages = rows;
        self.chat.messages = shown;
        self.chat.loading = false;
        self.compose.editing = None;
        self.compose.context_menu = None;
        if prev_len == 0 || self.chat.messages.len() > prev_len {
            self.view.scroll_to_bottom = true;
        }
        match self.view.pending_jump_id {
            Some(j) => {
                self.view.pending_jump_id = None;
                if find_msg(&self.chat.messages, j) {
                    self.view.scroll_to_bottom = false;
                    self.view.scroll_target = Some(j);
                }
            },
            None => {},
        }
        self.invalidate_layout();
    }

    /// `NewMessage`: a live message. In the open chat it is merged into the
    /// full history (an optimistic copy is replaced) and, when it belongs to
    /// the selected topic, into the visible list; stickers still missing
    /// their image are queued for download; the list scrolls down and an
    /// incoming message ends the typing indicator. For another chat, its list
    /// row shows the message preview and date, and an incoming message bumps
    /// the unread badge.
    #[verifier::spinoff_prover]
    pub fn on_new_message(
        &mut self,
        chat_id: i64,
        id: i32,
        text: String,
        date: i32,
        out: bool,
        photo: Option<(u32, u32)>,
        doc: Option<DocMeta>,
        sticker: Option<StickerMeta>,
        reply_to: Option<i32>,
        forwarded_from: Option<String>,
        sender_name: Option<String>,
        sender_id: Option<i64>,
    )
        requires
            old(self).chat.open_chat != Some(chat_id) && !out ==> (first_dialog(
                old(self).list.dialogs@,
                chat_id,
                0,
            ) matches Some(k) ==> old(self).list.dialogs@[k].unread < i32::MAX),
        ensures
            new_message_applied(*old(self), *final(self), chat_id, id, text, date, out, photo, doc, sticker, reply_to, forwarded_from, sender_name, sender_id),
    {
        if self.chat.open_chat == Some(chat_id) {
            self.chat.loading = false;
            let mut row = MsgRow::text(id, text, date, out);
            row.photo = photo;
            row.doc = doc;
            row.sticker = sticker;
            row.reply_to = reply_to;
            row.forwarded_from = forwarded_from;
            row.sender_name = sender_name;
            row.sender_id = sender_id;
            merge_new_message(&mut self.chat.topic_all_messages, row);
            match find_msg_index(&self.chat.topic_all_messages, id) {
                Some(k) => {
                    let in_view = match self.topics.topic_selected {
                        None => true,
                        Some(root) => self.chat.topic_all_messages[k].id == root
                            || self.chat.topic_all_messages[k].reply_to == Some(root),
                    };
                    if in_view {
                        let stored = self.chat.topic_all_messages[k].duplicate();
                        merge_new_message(&mut self.chat.messages, stored);
                    }
                },
                None => {},
            }
            queue_missing_stickers(&mut self.outbox, chat_id, &self.chat.topic_all_messages);
            self.view.scroll_to_bottom = true;
            if !out {
                self.chat.typing = false;
            }
            self.invalidate_layout();
            return;
        }
        match find_dialog(&self.list.dialogs, chat_id) {
            Some(pos) => {
                let subtitle = preview_text(text.as_str(), &photo, &doc, &sticker);
                let ghost ds0 = self.list.dialogs@;
                let d = self.list.dialogs.remove(pos);
                let unread = if out {
                    d.unread
                } else {
                    d.unread + 1
                };
                let ghost sub = subtitle;
                self.list.dialogs.insert(pos, ChatRow { subtitle, date, unread, ..d });
                proof {
                    let nd = ChatRow { subtitle: sub, date, unread, ..ds0[pos as int] };
                    assert(self.list.dialogs@ =~= ds0.update(pos as int, nd));
                    lemma_first_dialog_update(ds0, chat_id, 0, pos as int, nd);
                }
                self.refresh_dialog_short(chat_id);
            },
            None => {},
        }
    }

    /// `MessageEdited`: in the open chat, the first message with that id
    /// (in the visible list and in the history) takes the new text and
    /// date; for another chat, its list row shows the new text.
    #[verifier::spinoff_prover]
    pub fn on_message_edited(&mut self, chat_id: i64, id: i32, text: String, date: i32)
        ensures
            message_edited_applied(*old(self), *final(self), chat_id, id, text, date),
    {
        if self.chat.open_chat == Some(chat_id) {
            edit_first(&mut self.chat.messages, id, text.clone(), date);
            edit_first(&mut self.chat.topic_all_messages, id, text, date);
            self.invalidate_layout();
        } else {
            match find_dialog(&self.list.dialogs, chat_id) {
                Some(pos) => {
                    let ghost ds0 = self.list.dialogs@;
                    let d = self.list.dialogs.remove(pos);
                    self.list.dialogs.insert(pos, ChatRow { subtitle: text, ..d });
                    proof {
                        assert(self.list.dialogs@ =~= ds0.update(pos as int, ChatRow { subtitle: text, ..ds0[pos as int] }));
                        lemma_first_dialog_update(ds0, chat_id, 0, pos as int, ChatRow { subtitle: text, ..ds0[pos as int] });
                    }
                    self.refresh_dialog_short(chat_id);
                },
                None => {},
            }
        }
    }

    /// `MessageDeleted`: the messages go from the visible list and the
    /// history, with the edit and the pin that pointed to one of them; the
    /// context menu closes.
    #[verifier::spinoff_prover]
    pub fn on_message_deleted(&mut self, ids: Vec<i32>)
        ensures
            message_deleted_applied(*old(self), *final(self), ids),
    {
        remove_ids(&mut self.chat.messages, &ids);
        remove_ids(&mut self.chat.topic_all_messages, &ids);
        match self.compose.editing {
            Some(e) => {
                if contains_id(&ids, e) {
                    self.compose.editing = None;
                }
            },
            None => {},
        }
        match self.chat.pinned_id {
            Some(p) => {
                if contains_id(&ids, p) {
                    self.chat.pinned_id = None;
                }
            },
            None => {},
        }
        self.compose.context_menu = None;
        self.invalidate_layout();
    }

    /// `PinnedMessage`: the open chat's pin (and every row's pin flag)
    /// follows the server.
    #[verifier::spinoff_prover]
    pub fn on_pinned_message(&mut self, chat_id: i64, msg_id: Option<i32>)
        ensures
            pinned_message_applied(*old(self), *final(self), chat_id, msg_id),
    {
        if self.chat.open_chat != Some(chat_id) {
            return;
        }
        self.chat.pinned_id = msg_id;
        sync_pins(&mut self.chat.messages, msg_id);
        self.invalidate_layout();
    }

    /// `ChatCreated`: the "+" menu closes and the new chat opens.
    #[verifier::spinoff_prover]
    pub fn on_chat_created(&mut self, id: i64)
        ensures
            chat_created_applied(*old(self), *final(self), id),
    {
        self.list.create_menu_open = false;
        self.open_chat(id);
    }

    /// `ChatGone`: a chat was left or deleted. It closes if it was open, and
    /// its row menu or pending leave confirmation goes.
    #[verifier::spinoff_prover]
    pub fn on_chat_gone(&mut self, id: i64)
        ensures
            chat_gone_applied(*old(self), *final(self), id),
    {
        if self.list.row_menu == Some(id) {
            self.list.row_menu = None;
        }
        match self.list.confirm_leave {
            Some(c) => {
                if c.1 == id {
                    self.list.confirm_leave = None;
                }
            },
            None => {},
        }
        if self.chat.open_chat == Some(id) {
            self.close_chat();
        }
    }

    /// `PhotoReady` (`which == 0`), `DocReady` (`1`) or `StickerPathReady`
    /// (`2`): in the open chat, the first message with that id takes the
    /// downloaded path. A downloaded voice note becomes the playing note and
    /// the shell starts it.
    #[verifier::spinoff_prover]
    pub fn on_path_ready(&mut self, which: u8, chat_id: i64, msg_id: i32, path: Option<String>)
        ensures
            path_ready_applied(*old(self), *final(self), which, chat_id, msg_id, path),
    {
        if self.chat.open_chat != Some(chat_id) {
            return;
        }
        let voice = match find_msg_index(&self.chat.messages, msg_id) {
            Some(k) => match &self.chat.messages[k].doc {
                Some(d) => match d.kind {
                    DocKind::Audio { voice } => voice,
                    _ => false,
                },
                None => false,
            },
            None => false,
        };
        let p2 = match &path {
            Some(p) => Some(p.clone()),
            None => None,
        };
        set_path(&mut self.chat.messages, msg_id, which, path);
        if which == 1 && voice {
            match p2 {
                Some(p) => {
                    let p2 = p.clone();
                    self.media.playing_voice = Some((chat_id, msg_id, p));
                    self.media.voice_start = Some(p2);
                },
                None => {},
            }
        }
        self.invalidate_layout();
    }

    /// `StickerThumbReady`: a downloaded picker thumbnail is recorded.
    #[verifier::spinoff_prover]
    pub fn on_sticker_thumb_ready(&mut self, doc_id: i64, path: Option<String>)
        ensures
            sticker_thumb_ready_applied(*old(self), *final(self), doc_id, path),
    {
        broadcast use vstd::std_specs::hash::group_hash_axioms;
        match path {
            Some(p) => {
                self.media.sticker_thumbs.insert(doc_id, p);
            },
            None => {},
        }
    }

    /// `StickerSets`: the packs are taken while the picker is open or none
    /// are known yet (a late answer after a close is dropped).
    #[verifier::spinoff_prover]
    pub fn on_sticker_sets(&mut self, sets: Vec<StickerSetBridge>)
        ensures
            sticker_sets_applied(*old(self), *final(self), sets),
    {
        if self.compose.sticker_picker_open || self.media.sticker_sets.len() == 0 {
            self.media.sticker_sets = sets;
        }
    }

    /// `UploadProgress` (`done == false`, progress in thousandths, capped at
    /// 1000) or `UploadDone` (`done == true`: a row still uploading holds at
    /// 1000 until the echo replaces it), for the open chat's first row of that
    /// upload token.
    #[verifier::spinoff_prover]
    pub fn on_upload(&mut self, chat_id: i64, token: u64, done: bool, progress: u16)
        ensures
            upload_applied(*old(self), *final(self), chat_id, token, done, progress),
    {
        if self.chat.open_chat != Some(chat_id) {
            return;
        }
        let p: u16 = if done || progress > 1000 {
            1000
        } else {
            progress
        };
        set_upload(&mut self.chat.messages, token, done, p);
    }

    /// `SearchResults`: the answer stops the "searching" placeholder; its hits
    /// are shown only when the search UI still asks for this mode (global,
    /// or in-chat for the open chat) and this query.
    #[verifier::spinoff_prover]
    pub fn on_search_results(&mut self, id: Option<i64>, query: String, hits: Vec<SearchHit>)
        ensures
            search_results_applied(*old(self), *final(self), id, query, hits),
    {
        let mode_matches = match self.search.search_mode {
            Some(SearchMode::Global) => id.is_none(),
            Some(SearchMode::InChat) => match id {
                Some(cid) => self.chat.open_chat == Some(cid),
                None => false,
            },
            None => false,
        };
        self.search.search_pending = false;
        if mode_matches && self.search.search_query == query {
            self.search.search_hits = hits;
        }
    }

    /// `ChatRead`: the chat's badge clears; in the open chat every outgoing
    /// message is read.
    #[verifier::spinoff_prover]
    pub fn on_chat_read(&mut self, id: i64)
        ensures
            chat_read_applied(*old(self), *final(self), id),
    {
        match find_dialog(&self.list.dialogs, id) {
            Some(pos) => {
                let ghost ds0 = self.list.dialogs@;
                let d = self.list.dialogs.remove(pos);
                self.list.dialogs.insert(pos, ChatRow { unread: 0, ..d });
                proof {
                    assert(self.list.dialogs@ =~= ds0.update(pos as int, ChatRow { unread: 0, ..ds0[pos as int] }));
                }
            },
            None => {},
        }
        if self.chat.open_chat == Some(id) {
            mark_read(&mut self.chat.messages, None);
        }
    }

    /// `OutboxRead`: in the open chat, our messages up to `max_id` are read.
    #[verifier::spinoff_prover]
    pub fn on_outbox_read(&mut self, chat_id: i64, max_id: i32)
        ensures
            outbox_read_applied(*old(self), *final(self), chat_id, max_id),
    {
        if self.chat.open_chat == Some(chat_id) {
            mark_read(&mut self.chat.messages, Some(max_id));
        }
    }

    /// `UnreadCount`: the badge only goes down to the synced count.
    #[verifier::spinoff_prover]
    pub fn on_unread_count(&mut self, chat_id: i64, count: i32)
        ensures
            unread_count_applied(*old(self), *final(self), chat_id, count),
    {
        match find_dialog(&self.list.dialogs, chat_id) {
            Some(pos) => {
                if count < self.list.dialogs[pos].unread {
                    let ghost ds0 = self.list.dialogs@;
                    let d = self.list.dialogs.remove(pos);
                    self.list.dialogs.insert(pos, ChatRow { unread: count, ..d });
                    proof {
                        assert(self.list.dialogs@ =~= ds0.update(pos as int, ChatRow { unread: count, ..ds0[pos as int] }));
                    }
                }
            },
            None => {},
        }
    }

    /// `PeerTyping`: the typing indicator of the open chat.
    #[verifier::spinoff_prover]
    pub fn on_peer_typing(&mut self, chat_id: i64, typing: bool)
        ensures
            peer_typing_applied(*old(self), *final(self), chat_id, typing),
    {
        if self.chat.open_chat == Some(chat_id) {
            self.chat.typing = typing;
        }
    }

    /// `AvatarReady`: the chat's row shows its downloaded photo.
    #[verifier::spinoff_prover]
    pub fn on_avatar_ready(&mut self, chat_id: i64, path: Option<String>)
        ensures
            avatar_ready_applied(*old(self), *final(self), chat_id, path),
    {
        match find_dialog(&self.list.dialogs, chat_id) {
            Some(pos) => {
                let ghost ds0 = self.list.dialogs@;
                let d = self.list.dialogs.remove(pos);
                self.list.dialogs.insert(pos, ChatRow { avatar_path: path, ..d });
                proof {
                    assert(self.list.dialogs@ =~= ds0.update(pos as int, ChatRow { avatar_path: path, ..ds0[pos as int] }));
                }
            },
            None => {},
        }
    }

    /// `ChatInfo`: the details are taken only while that chat is open.
    #[verifier::spinoff_prover]
    pub fn on_chat_info(&mut self, detail: ChatDetail)
        ensures
            chat_info_applied(*old(self), *final(self), detail),
    {
        if self.chat.open_chat == Some(detail.id) {
            self.info.chat_info = Some(detail);
        }
    }

    /// `Participants`: while the info panel is open, the member list is
    /// replaced, and a kick confirmation for a member no longer listed
    /// goes.
    #[verifier::spinoff_prover]
    pub fn on_participants(&mut self, rows: Vec<ParticipantRow>)
        ensures
            participants_applied(*old(self), *final(self), rows),
    {
        if !self.info.info_open {
            return;
        }
        match self.info.kick_confirm {
            Some(k) => {
                if find_member(&rows, k).is_none() {
                    self.info.kick_confirm = None;
                }
            },
            None => {},
        }
        self.info.participants = rows;
    }

    /// `ParticipantKicked`: the member leaves the list (and its kick
    /// confirmation goes).
    #[verifier::spinoff_prover]
    pub fn on_participant_kicked(&mut self, user_id: i64)
        ensures
            participant_kicked_applied(*old(self), *final(self), user_id),
    {
        remove_member(&mut self.info.participants, user_id);
        if self.info.kick_confirm == Some(user_id) {
            self.info.kick_confirm = None;
        }
    }

    /// `MemberUpdated`: while the open chat's info panel is up, the member's
    /// pending admin confirmation and menu close and the member list is
    /// queued again.
    #[verifier::spinoff_prover]
    pub fn on_member_updated(&mut self, chat_id: i64, user_id: i64)
        ensures
            member_updated_applied(*old(self), *final(self), chat_id, user_id),
    {
        if !(self.chat.open_chat == Some(chat_id) && self.info.info_open) {
            return;
        }
        match self.info.admin_confirm {
            Some(c) => {
                if c.1 == user_id {
                    self.info.admin_confirm = None;
                }
            },
            None => {},
        }
        if self.info.admin_menu == Some(user_id) {
            self.info.admin_menu = None;
        }
        self.outbox.push(Request::GetParticipants { id: chat_id });
    }

    /// `MemberSelfId`: the signed-in user's id (admin actions never apply to
    /// yourself).
    #[verifier::spinoff_prover]
    pub fn on_member_self_id(&mut self, id: i64)
        ensures
            member_self_id_applied(*old(self), *final(self), id),
    {
        self.info.admin_self_id = Some(id);
    }

    /// `Topics`: the open chat's forum flag and topic list.
    #[verifier::spinoff_prover]
    pub fn on_topics(&mut self, id: i64, is_forum: bool, topics: Vec<TopicRow>)
        ensures
            topics_applied(*old(self), *final(self), id, is_forum, topics),
    {
        if self.chat.open_chat == Some(id) {
            self.topics.topic_is_forum = is_forum;
            self.topics.topic_topics = topics;
        }
    }

    /// `TopicCreated`: in the open chat, the topic joins the list (once), the
    /// create field closes, and the new thread is selected.
    #[verifier::spinoff_prover]
    pub fn on_topic_created(&mut self, chat_id: i64, topic: TopicRow)
        ensures
            topic_created_applied(*old(self), *final(self), chat_id, topic),
    {
        if self.chat.open_chat != Some(chat_id) {
            return;
        }
        let root = topic.root_msg_id;
        if !find_topic(&self.topics.topic_topics, topic.id) {
            self.topics.topic_topics.push(topic);
        }
        self.topics.topic_creating = false;
        self.topics.topic_title = String::new();
        let ghost mid = *self;
        self.topic_select(Some(root));
        assert(topic_selected_to(mid, *self, Some(root)));
    }

    /// `LoginCodeRequired`: the code step, with an empty input.
    #[verifier::spinoff_prover]
    pub fn on_login_code_required(&mut self)
        ensures
            login_code_required_applied(*old(self), *final(self)),
    {
        self.login.login_step = LoginStep::Code;
        self.login.login_input = String::new();
        self.login.login_error = false;
        self.status = crate::text::to_owned_string("Enter the code received by Telegram");
    }

    /// `LoginPasswordRequired`: the 2FA step, with an empty input and the
    /// hint in the prompt.
    #[verifier::spinoff_prover]
    pub fn on_login_password_required(&mut self, hint: String)
        ensures
            login_password_required_applied(*old(self), *final(self), hint),
    {
        self.login.login_step = LoginStep::Password;
        self.login.login_input = String::new();
        self.login.login_error = false;
        if hint.as_str().is_empty() {
            self.status = crate::text::to_owned_string("Enter your two-step verification password");
        } else {
            let mut cs = crate::text::chars_of("Two-step verification (hint: ");
            push_str(&mut cs, hint.as_str());
            push_str(&mut cs, ")");
            self.status = string_from_chars(&cs);
        }
    }

    /// `LoginOk`: signed in; the sign-in inputs and the QR pane reset, and
    /// the status greets the account (with the chat count once known).
    #[verifier::spinoff_prover]
    pub fn on_login_ok(&mut self, name: String)
        ensures
            login_ok_applied(*old(self), *final(self), name),
    {
        self.login.authenticated = true;
        self.login.login_input = String::new();
        self.login.login_error = false;
        self.qr_cancelled();
        self.login.login_qr_selected = false;
        let mut cs = crate::text::chars_of("Signed in as ");
        push_str(&mut cs, name.as_str());
        let n = self.list.dialogs.len();
        if n > 0 {
            push_str(&mut cs, " — ");
            let digits = u64_digits(n as u64);
            let mut k: usize = 0;
            let ghost before = cs@;
            while k < digits.len()
                invariant
                    k <= digits.len(),
                    cs@ == before + digits@.take(k as int),
                decreases digits.len() - k,
            {
                cs.push(digits[k]);
                k = k + 1;
                proof {
                    assert(cs@ =~= before + digits@.take(k as int));
                }
            }
            proof {
                assert(digits@.take(digits.len() as int) =~= digits@);
            }
            push_str(&mut cs, " chats");
        }
        self.status = string_from_chars(&cs);
    }

    /// `MyProfile`: the profile is recorded; the edit form is seeded from it
    /// only while all three inputs are empty (a profile echo never clobbers
    /// text being typed).
    #[verifier::spinoff_prover]
    pub fn on_my_profile(&mut self, p: MyProfile)
        ensures
            my_profile_applied(*old(self), *final(self), p),
    {
        let untouched = self.settings.edit_name.as_str().is_empty()
            && self.settings.edit_last_name.as_str().is_empty()
            && self.settings.edit_bio.as_str().is_empty();
        if untouched {
            self.settings.edit_name = first_name(&p.name, &p.last_name);
            self.settings.edit_last_name = match &p.last_name {
                Some(l) => l.clone(),
                None => String::new(),
            };
            self.settings.edit_bio = match &p.bio {
                Some(b) => b.clone(),
                None => String::new(),
            };
        }
        self.settings.my_profile = Some(p);
    }

    /// `Sessions`: the list is taken while the settings sheet is open or
    /// none are known yet.
    #[verifier::spinoff_prover]
    pub fn on_sessions(&mut self, list: Vec<SessionInfo>)
        ensures
            sessions_applied(*old(self), *final(self), list),
    {
        if self.settings.settings_open || self.settings.sessions.len() == 0 {
            self.settings.sessions = list;
        }
    }

    /// `SessionRevoked`: that session leaves the list.
    #[verifier::spinoff_prover]
    pub fn on_session_revoked(&mut self, hash: i64)
        ensures
            session_revoked_applied(*old(self), *final(self), hash),
    {
        remove_session(&mut self.settings.sessions, hash);
    }

    /// `CacheCleared`: the remaining cache size; the confirmation closes.
    #[verifier::spinoff_prover]
    pub fn on_cache_cleared(&mut self, bytes: u64)
        ensures
            cache_cleared_applied(*old(self), *final(self), bytes),
    {
        self.settings.cache_bytes = Some(bytes);
        self.settings.confirm_clear_cache = false;
    }

    /// `Error`: loading stops, the message becomes the status, and before
    /// sign-in it marks the sign-in form as failed.
    #[verifier::spinoff_prover]
    pub fn on_error(&mut self, e: String)
        ensures
            error_applied(*old(self), *final(self), e),
    {
        self.chat.loading = false;
        if !self.login.authenticated {
            self.login.login_error = true;
        }
        self.status = e;
    }

    /// Applies a message of the network runtime (see each `*_applied`
    /// transition).
    #[verifier::spinoff_prover]
    pub fn on_message(&mut self, msg: UiMessage)
        requires
            msg matches UiMessage::NewMessage { chat_id, out, .. } ==> (old(self).chat.open_chat != Some(chat_id)
                && !out ==> (first_dialog(old(self).list.dialogs@, chat_id, 0) matches Some(k)
                ==> old(self).list.dialogs@[k].unread < i32::MAX)),
        ensures
            message_applied(*old(self), *final(self), msg),
    {
        match msg {
            UiMessage::Connecting => self.on_connecting(),
            UiMessage::Dialogs(rows) => self.on_dialogs(rows),
            UiMessage::Messages { id, title, rows } => self.on_messages(id, title, rows),
            UiMessage::NewMessage {
                chat_id,
                id,
                text,
                date,
                out,
                photo,
                doc,
                sticker,
                reply_to,
                forwarded_from,
                sender_name,
                sender_id,
            } => self.on_new_message(
                chat_id,
                id,
                text,
                date,
                out,
                photo,
                doc,
                sticker,
                reply_to,
                forwarded_from,
                sender_name,
                sender_id,
            ),
            UiMessage::MessageEdited { chat_id, id, text, date } => self.on_message_edited(chat_id, id, text, date),
            UiMessage::PhotoReady { chat_id, msg_id, path } => self.on_path_ready(0, chat_id, msg_id, path),
            UiMessage::DocReady { chat_id, msg_id, path } => self.on_path_ready(1, chat_id, msg_id, path),
            UiMessage::StickerPathReady { chat_id, msg_id, path } => self.on_path_ready(2, chat_id, msg_id, path),
            UiMessage::StickerThumbReady { doc_id, path } => self.on_sticker_thumb_ready(doc_id, path),
            UiMessage::StickerSets(sets) => self.on_sticker_sets(sets),
            UiMessage::SearchResults { id, query, hits } => self.on_search_results(id, query, hits),
            UiMessage::UploadProgress { chat_id, token, progress } => self.on_upload(chat_id, token, false, progress),
            UiMessage::UploadDone { chat_id, token } => self.on_upload(chat_id, token, true, 1000),
            UiMessage::ChatRead { id } => self.on_chat_read(id),
            UiMessage::UnreadCount { chat_id, count } => self.on_unread_count(chat_id, count),
            UiMessage::OutboxRead { chat_id, max_id } => self.on_outbox_read(chat_id, max_id),
            UiMessage::PeerTyping { chat_id, typing } => self.on_peer_typing(chat_id, typing),
            UiMessage::AvatarReady { chat_id, path } => self.on_avatar_ready(chat_id, path),
            UiMessage::ChatInfo(detail) => self.on_chat_info(detail),
            UiMessage::Participants(rows) => self.on_participants(rows),
            UiMessage::ParticipantKicked { user_id } => self.on_participant_kicked(user_id),
            UiMessage::MessageDeleted { ids } => self.on_message_deleted(ids),
            UiMessage::PinnedMessage { chat_id, msg_id } => self.on_pinned_message(chat_id, msg_id),
            UiMessage::ChatCreated { id } => self.on_chat_created(id),
            UiMessage::ChatGone { id } => self.on_chat_gone(id),
            UiMessage::LoginCodeRequired => self.on_login_code_required(),
            UiMessage::LoginPasswordRequired { hint } => self.on_login_password_required(hint),
            UiMessage::LoginOk { name } => self.on_login_ok(name),
            UiMessage::QrCodeReady { path } => self.qr_code_ready(path),
            UiMessage::QrScanConfirmed => self.qr_scan_confirmed(),
            UiMessage::QrLoginFailed { error } => self.qr_failed(error),
            UiMessage::MyProfile(p) => self.on_my_profile(p),
            UiMessage::Sessions(list) => self.on_sessions(list),
            UiMessage::SessionRevoked { hash } => self.on_session_revoked(hash),
            UiMessage::CacheCleared { bytes } => self.on_cache_cleared(bytes),
            UiMessage::LoggedOut => self.reset_to_login(),
            UiMessage::MemberUpdated { chat_id, user_id } => self.on_member_updated(chat_id, user_id),
            UiMessage::MemberSelfId { id } => self.on_member_self_id(id),
            UiMessage::Topics { id, is_forum, topics } => self.on_topics(id, is_forum, topics),
            UiMessage::TopicCreated { chat_id, topic } => self.on_topic_created(chat_id, topic),
            UiMessage::Error(e) => self.on_error(e),
        }
    }

    /// After the chat list arrived with no chat open: re-opens the persisted
    /// last chat when it is in the list, else the first chat when asked to.
    /// The persisted chat is consumed either way.
    #[verifier::spinoff_prover]
    pub fn restore_after_dialogs(&mut self)
        ensures
            old(self).chat.open_chat is Some ==> *final(self) == *old(self),
            old(self).chat.open_chat is None ==> {
                let mid = State { list: ChatList { initial_chat: None, ..old(self).list }, ..*old(self) };
                let wanted = match old(self).list.initial_chat {
                    Some(id) => if first_dialog(old(self).list.dialogs@, id, 0) is Some {
                        Some(id)
                    } else {
                        None
                    },
                    None => None,
                };
                let target = match wanted {
                    Some(id) => Some(id),
                    None => if old(self).list.auto_open_first && old(self).list.dialogs@.len() > 0 {
                        Some(old(self).list.dialogs@[0].id)
                    } else {
                        None
                    },
                };
                match target {
                    Some(id) => opened(mid, *final(self), id),
                    None => *final(self) == mid,
                }
            },
    {
        if self.chat.open_chat.is_some() {
            return;
        }
        let wanted = match self.list.initial_chat {
            Some(id) => match find_dialog(&self.list.dialogs, id) {
                Some(_) => Some(id),
                None => None,
            },
            None => None,
        };
        self.list.initial_chat = None;
        let target = match wanted {
            Some(id) => Some(id),
            None => {
                if self.list.auto_open_first && self.list.dialogs.len() > 0 {
                    Some(self.list.dialogs[0].id)
                } else {
                    None
                }
            },
        };
        match target {
            Some(id) => self.open_chat(id),
            None => {},
        }
    }

    /// The Escape key: closes the search UI first, then the photo viewer
    /// (see [`Self::back`]), else the topmost overlay (see
    /// [`Self::escape`]).
    #[verifier::spinoff_prover]
    pub fn escape_key(&mut self)
        ensures
            old(self).search.search_mode is Some ==> {
                &&& search_cleared(final(self).search)
                &&& *final(self) == (State {
                    search: final(self).search,
                    view: Viewport { pending_jump_id: None, ..old(self).view },
                    ..*old(self)
                })
            },
            old(self).search.search_mode is None && old(self).view.viewer is Some ==> *final(self)
                == (State {
                view: Viewport { viewer: None, ..old(self).view },
                compose: Composer { context_menu: None, editing: None, ..old(self).compose },
                chat: if old(self).compose.context_menu is Some {
                    Conversation { layout_epoch: bump(old(self).chat.layout_epoch), ..old(self).chat }
                } else {
                    old(self).chat
                },
                ..*old(self)
            }),
            old(self).search.search_mode is None && old(self).view.viewer is None ==> escaped(
                *old(self),
                *final(self),
            ),
    {
        if self.search.search_mode.is_some() {
            self.close_search();
        } else if self.view.viewer.is_some() {
            self.back();
        } else {
            self.escape();
        }
    }

    /// The composer text changed: it is recorded and, in an open chat, a
    /// "typing" notice is queued.
    #[verifier::spinoff_prover]
    pub fn composer_changed(&mut self, text: String)
        ensures
            final(self).outbox@ == (match old(self).chat.open_chat {
                Some(id) => old(self).outbox@.push(Request::Typing { id, typing: true }),
                None => old(self).outbox@,
            }),
            *final(self) == (State {
                outbox: final(self).outbox,
                compose: Composer { composer: text, ..old(self).compose },
                ..*old(self)
            }),
    {
        self.compose.composer = text;
        match self.chat.open_chat {
            Some(id) => {
                self.outbox.push(Request::Typing { id, typing: true });
            },
            None => {},
        }
    }

    /// The send key: in an open chat a "stopped typing" notice is queued,
    /// then the composer is submitted (see [`Self::submit`]).
    #[verifier::spinoff_prover]
    pub fn submit_key(&mut self)
        ensures
            old(self).chat.open_chat is None ==> submitted(*old(self), *final(self)),
            old(self).chat.open_chat matches Some(id) ==> exists|mid: State|
                {
                    &&& mid.outbox@ == old(self).outbox@.push(Request::Typing { id, typing: false })
                    &&& mid == (State { outbox: mid.outbox, ..*old(self) })
                    &&& submitted(mid, *final(self))
                },
    {
        match self.chat.open_chat {
            Some(id) => {
                self.outbox.push(Request::Typing { id, typing: false });
            },
            None => {},
        }
        let ghost mid = *self;
        self.submit();
        assert(submitted(mid, *self));
    }


    /// The phone/QR switch of the sign-in screen: switching to the QR pane
    /// starts a token session (queued), switching back cancels it (queued).
    #[verifier::spinoff_prover]
    pub fn toggle_login_pane(&mut self)
        ensures
            !old(self).login.login_qr_selected ==> {
                &&& final(self).outbox@ == old(self).outbox@.push(Request::QrLoginStart)
                &&& *final(self) == (State {
                    outbox: final(self).outbox,
                    login: Login {
                        login_qr_selected: true,
                        login_error: false,
                        qr_stage: QrStage::AwaitingScan,
                        qr_png_path: None,
                        qr_error: None,
                        ..old(self).login
                    },
                    ..*old(self)
                })
            },
            old(self).login.login_qr_selected ==> {
                &&& final(self).outbox@ == old(self).outbox@.push(Request::QrLoginCancel)
                &&& *final(self) == (State {
                    outbox: final(self).outbox,
                    login: Login {
                        login_qr_selected: false,
                        login_error: false,
                        qr_stage: QrStage::Idle,
                        qr_png_path: None,
                        qr_error: None,
                        ..old(self).login
                    },
                    ..*old(self)
                })
            },
    {
        self.toggle_login_screen();
        if self.login.login_qr_selected {
            self.qr_started();
            self.outbox.push(Request::QrLoginStart);
        } else {
            self.outbox.push(Request::QrLoginCancel);
        }
    }

    /// The QR pane's cancel button: the pane resets and the token session
    /// is cancelled (queued).
    #[verifier::spinoff_prover]
    pub fn qr_cancel(&mut self)
        ensures
            final(self).outbox@ == old(self).outbox@.push(Request::QrLoginCancel),
            *final(self) == (State {
                outbox: final(self).outbox,
                login: Login { qr_stage: QrStage::Idle, qr_png_path: None, qr_error: None, ..old(self).login },
                ..*old(self)
            }),
    {
        self.qr_cancelled();
        self.outbox.push(Request::QrLoginCancel);
    }

    /// A downloaded voice note was clicked (`audio_active`: the audio device
    /// still holds a note). The note that is playing stops a simulated
    /// playback, or pauses / resumes, or, once it has finished, restarts;
    /// another note becomes the playing one and starts.
    #[verifier::spinoff_prover]
    pub fn voice_click(&mut self, chat_id: i64, msg_id: i32, path: String, audio_active: bool)
        -> (a: VoiceAction)
        ensures
            voice_clicked_applied(*old(self), *final(self), chat_id, msg_id, path@, audio_active, a),
    {
        let same = match &self.media.playing_voice {
            Some(v) => v.0 == chat_id && v.1 == msg_id && v.2 == path,
            None => false,
        };
        if same {
            if self.media.voice_sim {
                self.media.playing_voice = None;
                self.media.voice_playing = false;
                self.media.voice_sim = false;
                VoiceAction::Stop
            } else if audio_active {
                if self.media.voice_playing {
                    self.media.voice_playing = false;
                    VoiceAction::Pause
                } else {
                    self.media.voice_playing = true;
                    VoiceAction::Resume
                }
            } else {
                VoiceAction::Restart(path)
            }
        } else {
            let p = path.clone();
            self.media.playing_voice = Some((chat_id, msg_id, path));
            VoiceAction::Play(p)
        }
    }

    /// The shell tried to play `path` (`played`: the audio device took it).
    /// A note the device cannot decode but that is Ogg (`ogg`) goes to the
    /// system player instead: it is opened as a file and its progress is
    /// simulated.
    #[verifier::spinoff_prover]
    pub fn voice_started(&mut self, path: String, played: bool, ogg: bool)
        ensures
            played || !ogg ==> *final(self) == (State {
                media: Media { voice_playing: played, ..old(self).media },
                ..*old(self)
            }),
            !played && ogg ==> {
                &&& final(self).status@ == "Opening with the system player…"@
                &&& *final(self) == (State {
                    status: final(self).status,
                    view: Viewport { open_file: Some(path), ..old(self).view },
                    media: Media { voice_playing: true, voice_sim: true, ..old(self).media },
                    ..*old(self)
                })
            },
    {
        self.media.voice_playing = played;
        if !played && ogg {
            self.view.open_file = Some(path);
            self.status = String::from_str("Opening with the system player…");
            self.media.voice_sim = true;
            self.media.voice_playing = true;
        }
    }

    /// The playback tick: a note the audio device reports finished
    /// (`audio_finished`, while `audio_active`), or a simulated one past its
    /// duration (`sim_expired`), stops being the playing note. Returns true
    /// when the shell releases the audio device.
    #[verifier::spinoff_prover]
    pub fn voice_tick(&mut self, audio_active: bool, audio_finished: bool, sim_expired: bool)
        -> (release: bool)
        ensures
            release == (old(self).media.playing_voice is Some && audio_active && audio_finished),
            ({
                let ends = old(self).media.playing_voice is Some && (if audio_active {
                    audio_finished
                } else {
                    old(self).media.voice_sim && old(self).media.voice_playing && sim_expired
                });
                if ends {
                    *final(self) == (State {
                        media: Media {
                            playing_voice: None,
                            voice_playing: false,
                            voice_sim: false,
                            ..old(self).media
                        },
                        ..*old(self)
                    })
                } else {
                    *final(self) == *old(self)
                }
            }),
    {
        if self.media.playing_voice.is_none() {
            return false;
        }
        let ends = if audio_active {
            audio_finished
        } else {
            self.media.voice_sim && self.media.voice_playing && sim_expired
        };
        if ends {
            self.media.playing_voice = None;
            self.media.voice_playing = false;
            self.media.voice_sim = false;
        }
        audio_active && audio_finished
    }

    /// A voice note's play button: a downloaded note is handed to the shell
    /// to play or toggle; otherwise its download is queued (the note plays
    /// when it arrives).
    #[verifier::spinoff_prover]
    pub fn voice_clicked(&mut self, chat_id: i64, msg_id: i32, path: String)
        ensures
            (match first_with_id(old(self).chat.messages@, msg_id, 0) {
                Some(k) => old(self).chat.messages@[k].doc_path is Some,
                None => false,
            }) ==> *final(self) == (State {
                media: Media { voice_request: Some((chat_id, msg_id, path)), ..old(self).media },
                ..*old(self)
            }),
            !(match first_with_id(old(self).chat.messages@, msg_id, 0) {
                Some(k) => old(self).chat.messages@[k].doc_path is Some,
                None => false,
            }) ==> {
                &&& final(self).outbox@ == old(self).outbox@.push(Request::DownloadDoc { chat_id, msg_id })
                &&& *final(self) == (State { outbox: final(self).outbox, ..*old(self) })
            },
    {
        let cached = match find_msg_index(&self.chat.messages, msg_id) {
            Some(k) => self.chat.messages[k].doc_path.is_some(),
            None => false,
        };
        if cached {
            self.media.voice_request = Some((chat_id, msg_id, path));
        } else {
            self.outbox.push(Request::DownloadDoc { chat_id, msg_id });
        }
    }

    /// A file was picked for sending: it is sent (see
    /// [`Self::send_media`]) when it exists, otherwise the status reports
    /// it missing.
    #[verifier::spinoff_prover]
    pub fn file_picked(&mut self, path: String, exists: bool, is_photo: bool, name: String)
        requires
            old(self).media.next_media_token < u64::MAX,
        ensures
            exists ==> media_sent(*old(self), *final(self), path, is_photo, name),
            !exists ==> {
                &&& final(self).status@ == "File not found: "@ + path@
                &&& *final(self) == (State { status: final(self).status, ..*old(self) })
            },
    {
        if exists {
            self.send_media(path, is_photo, name);
        } else {
            self.status = concat("File not found: ", path.as_str());
        }
    }

    /// The info button: closes the panel when open, otherwise opens it (see
    /// [`Self::open_info`]).
    #[verifier::spinoff_prover]
    pub fn toggle_info(&mut self)
        ensures
            old(self).info.info_open ==> *final(self) == (State {
                info: InfoPanel {
                    info_open: false,
                    kick_confirm: None,
                    admin_menu: None,
                    admin_confirm: None,
                    ..old(self).info
                },
                ..*old(self)
            }),
            !old(self).info.info_open ==> info_opened(*old(self), *final(self)),
    {
        if self.info.info_open {
            self.close_info();
        } else {
            self.open_info();
        }
    }

    /// Cancels the pending reply (the typed text stays).
    #[verifier::spinoff_prover]
    pub fn cancel_reply(&mut self)
        ensures
            *final(self) == (State {
                compose: Composer { reply_target: None, ..old(self).compose },
                ..*old(self)
            }),
    {
        self.compose.reply_target = None;
    }

    /// Submits the sign-in form: the phone number or code (trimmed) or the
    /// password (as typed) is queued for the current step, the input
    /// empties and the error mark clears. A blank input changes nothing.
    #[verifier::spinoff_prover]
    pub fn submit_login(&mut self)
        ensures
            spec_trim(old(self).login.login_input@).len() == 0 ==> *final(self) == *old(self),
            spec_trim(old(self).login.login_input@).len() > 0 ==> {
                &&& final(self).outbox@.len() == old(self).outbox@.len() + 1
                &&& final(self).outbox@.drop_last() == old(self).outbox@
                &&& match old(self).login.login_step {
                    LoginStep::Phone => final(self).outbox@.last() matches Request::LoginPhone { phone }
                        && phone@ == spec_trim(old(self).login.login_input@),
                    LoginStep::Code => final(self).outbox@.last() matches Request::LoginCode { code }
                        && code@ == spec_trim(old(self).login.login_input@),
                    LoginStep::Password => final(self).outbox@.last() matches Request::LoginPassword {
                        password,
                    } && password@ == old(self).login.login_input@,
                }
                &&& final(self).login.login_input@ == Seq::<char>::empty()
                &&& *final(self) == (State {
                    outbox: final(self).outbox,
                    login: Login {
                        login_input: final(self).login.login_input,
                        login_error: false,
                        ..old(self).login
                    },
                    ..*old(self)
                })
            },
    {
        let t = trimmed(self.login.login_input.as_str());
        if t.as_str().is_empty() {
            return;
        }
        let req = match self.login.login_step {
            LoginStep::Phone => Request::LoginPhone { phone: t },
            LoginStep::Code => Request::LoginCode { code: t },
            LoginStep::Password => Request::LoginPassword { password: self.login.login_input.clone() },
        };
        self.outbox.push(req);
        self.login.login_input = String::new();
        self.login.login_error = false;
    }

    /// The sign-in back button: one step back (from the phone step, leave
    /// the signed-in view).
    #[verifier::spinoff_prover]
    pub fn login_back(&mut self)
        ensures
            *final(self) == (State {
                login: match old(self).login.login_step {
                    LoginStep::Phone => Login { authenticated: false, ..old(self).login },
                    LoginStep::Code => Login { login_step: LoginStep::Phone, ..old(self).login },
                    LoginStep::Password => Login { login_step: LoginStep::Code, ..old(self).login },
                },
                ..*old(self)
            }),
    {
        match self.login.login_step {
            LoginStep::Phone => {
                self.login.authenticated = false;
            },
            LoginStep::Code => {
                self.login.login_step = LoginStep::Phone;
            },
            LoginStep::Password => {
                self.login.login_step = LoginStep::Code;
            },
        }
    }
}


proof fn lemma_first_with_id_found(rows: Seq<MsgRow>, id: i32, i: int, k: int)
    requires
        0 <= i <= k < rows.len(),
        rows[k].id == id,
    ensures
        first_with_id(rows, id, i) is Some,
    decreases k - i,
{
    if rows[i].id != id {
        lemma_first_with_id_found(rows, id, i + 1, k);
    }
}

proof fn lemma_first_echo_found(rows: Seq<MsgRow>, row: MsgRow, i: int, k: int)
    requires
        0 <= i <= k < rows.len(),
        echoes(rows[k], row),
    ensures
        first_echo(rows, row, i) is Some,
    decreases k - i,
{
    if !echoes(rows[i], row) {
        lemma_first_echo_found(rows, row, i + 1, k);
    }
}

/// After merging a message, the list holds a message with its id.
pub proof fn lemma_merged_has_it(rows: Seq<MsgRow>, row: MsgRow)
    ensures
        has_msg(merged(rows, row), row.id),
        merged(rows, row).len() == rows.len() || merged(rows, row).len() == rows.len() + 1,
{
    lemma_first_with_id(rows, row.id, 0);
    lemma_first_echo(rows, row, 0);
    let m = merged(rows, row);
    match first_with_id(rows, row.id, 0) {
        Some(k) => {
            assert(m[k].id == row.id);
        },
        None => match first_echo(rows, row, 0) {
            Some(k) => {
                assert(m[k].id == row.id);
            },
            None => {
                assert(m[rows.len() as int].id == row.id);
            },
        },
    }
}

/// Delivering the same message twice never duplicates it: the second merge
/// keeps the number of rows.
pub proof fn lemma_merge_twice_keeps_length(rows: Seq<MsgRow>, row: MsgRow)
    ensures
        merged(merged(rows, row), row).len() == merged(rows, row).len(),
{
    lemma_merged_has_it(rows, row);
    let m = merged(rows, row);
    let k = choose|k: int| 0 <= k < m.len() && (#[trigger] m[k]).id == row.id;
    lemma_first_with_id_found(m, row.id, 0, k);
    lemma_first_with_id(m, row.id, 0);
}

/// The echo of an optimistic send replaces it: when no message has the
/// echo's id yet and some row is its optimistic copy, merging keeps the
/// number of rows.
pub proof fn lemma_echo_replaces_optimistic_row(rows: Seq<MsgRow>, row: MsgRow, k: int)
    requires
        0 <= k < rows.len(),
        echoes(rows[k], row),
        !has_msg(rows, row.id),
    ensures
        merged(rows, row).len() == rows.len(),
        has_msg(merged(rows, row), row.id),
{
    lemma_first_with_id(rows, row.id, 0);
    lemma_first_echo_found(rows, row, 0, k);
    lemma_first_echo(rows, row, 0);
    lemma_merged_has_it(rows, row);
    if first_with_id(rows, row.id, 0) is Some {
        let j = first_with_id(rows, row.id, 0)->0;
        assert(rows[j].id == row.id);
        assert(has_msg(rows, row.id));
    }
}

/// A topic's thread holds only messages of that thread, and every such
/// message of the history.
pub proof fn lemma_thread_of_is_the_thread(all: Seq<MsgRow>, root: i32)
    ensures
        forall|k: int| 0 <= k < thread_of(all, root).len() ==> in_thread(#[trigger] thread_of(all, root)[k], root),
        forall|k: int| 0 <= k < all.len() && in_thread(all[k], root) ==> thread_of(all, root).contains(#[trigger] all[k]),
    decreases all.len(),
{
    if all.len() > 0 {
        lemma_thread_of_is_the_thread(all.drop_last(), root);
        let t0 = thread_of(all.drop_last(), root);
        let t = thread_of(all, root);
        assert forall|k: int| 0 <= k < all.len() && in_thread(all[k], root) implies t.contains(#[trigger] all[k]) by {
            if k < all.len() - 1 {
                assert(all.drop_last()[k] == all[k]);
                let j = choose|j: int| 0 <= j < t0.len() && t0[j] == all[k];
                assert(t[j] == all[k]);
            } else {
                assert(t[t.len() - 1] == all[k]);
            }
        }
    }
}


proof fn lemma_sticker_requests_prefix(o: Seq<Request>, chat_id: i64, ids: Seq<i32>)
    ensures
        o.is_prefix_of(sticker_requests(o, chat_id, ids)),
    decreases ids.len(),
{
    if ids.len() > 0 {
        lemma_sticker_requests_prefix(o, chat_id, ids.drop_last());
        let r = sticker_requests(o, chat_id, ids.drop_last());
        assert(r.push(Request::DownloadSticker { chat_id, msg_id: ids.last() }).subrange(0, o.len() as int)
            =~= r.subrange(0, o.len() as int));
    }
}

/// A network message never drops or reorders requests already queued for
/// the network: the queue before is a prefix of the queue after.
pub proof fn lemma_messages_keep_queued_requests(s0: State, s1: State, msg: UiMessage)
    requires
        message_applied(s0, s1, msg),
    ensures
        s0.outbox@.is_prefix_of(s1.outbox@),
{
    let o = s0.outbox@;
    assert(o.is_prefix_of(o)) by {
        assert(o.subrange(0, o.len() as int) =~= o);
    }
    match msg {
        UiMessage::NewMessage { chat_id, id, text, date, out, photo, doc, sticker, reply_to, forwarded_from, sender_name, sender_id } => {
            if s0.chat.open_chat == Some(chat_id) {
                let row = incoming_row(id, text, date, out, photo, doc, sticker, reply_to, forwarded_from, sender_name, sender_id);
                let all = merged(s0.chat.topic_all_messages@, row);
                lemma_sticker_requests_prefix(o, chat_id, missing_stickers(all));
            }
        },
        UiMessage::ChatCreated { id } => {
            let p = o.push(Request::OpenChat { id }).push(Request::MarkRead { id }).push(Request::GetTopics { id });
            assert(p.subrange(0, o.len() as int) =~= o);
        },
        UiMessage::MemberUpdated { chat_id, user_id } => {
            let p = o.push(Request::GetParticipants { id: chat_id });
            assert(p.subrange(0, o.len() as int) =~= o);
        },
        _ => {},
    }
}

/// Pausing and then resuming the playing voice note (two clicks on it
/// while the audio device holds it) gives back the state it was in, and
/// the shell is asked for one pause and one resume, in that order when it
/// was playing.
pub proof fn lemma_voice_click_twice_restores(
    s0: State,
    s1: State,
    s2: State,
    chat_id: i64,
    msg_id: i32,
    path: Seq<char>,
    a1: VoiceAction,
    a2: VoiceAction,
)
    requires
        s0.media.playing_voice matches Some(v) && v.0 == chat_id && v.1 == msg_id && v.2@ == path,
        !s0.media.voice_sim,
        voice_clicked_applied(s0, s1, chat_id, msg_id, path, true, a1),
        voice_clicked_applied(s1, s2, chat_id, msg_id, path, true, a2),
    ensures
        s2 == s0,
        s0.media.voice_playing ==> a1 == VoiceAction::Pause && a2 == VoiceAction::Resume,
        !s0.media.voice_playing ==> a1 == VoiceAction::Resume && a2 == VoiceAction::Pause,
{
    assert(s1.media.playing_voice == s0.media.playing_voice);
    assert(s2.media == s0.media);
}

/// Switching the color scheme twice gives back the state it started from
/// (the scheme flips each time).
pub proof fn lemma_theme_toggle_twice(s0: State, s1: State, s2: State)
    requires
        theme_toggled(s0, s1),
        theme_toggled(s1, s2),
    ensures
        s1.prefs.theme_mode != s0.prefs.theme_mode,
        s2 == s0,
{
    assert(s2.prefs == s0.prefs);
}

/// Flipping desktop notifications twice gives back the state it started
/// from.
pub proof fn lemma_notifications_toggle_twice(s0: State, s1: State, s2: State)
    requires
        notifications_toggled(s0, s1),
        notifications_toggled(s1, s2),
    ensures
        s1.prefs.notifications_on != s0.prefs.notifications_on,
        s2 == s0,
{
    assert(s2.prefs == s0.prefs);
}

/// The list labels stay those of the chat list: when `dialog_short` holds
/// the ellipsized title and subtitle of every chat row, it still does after
/// any network message. A fresh chat list also marks the session signed in.
pub proof fn lemma_messages_keep_labels(s0: State, s1: State, msg: UiMessage)
    requires
        shorts_of(s0.list.dialogs@, s0.list.dialog_short@),
        message_applied(s0, s1, msg),
    ensures
        shorts_of(s1.list.dialogs@, s1.list.dialog_short@),
        msg matches UiMessage::Dialogs(rows) ==> s1.list.dialogs == rows && s1.login.authenticated,
{
    let ds = s0.list.dialogs@;
    let sh = s0.list.dialog_short@;
    match msg {
        UiMessage::NewMessage { chat_id, .. } => {
            lemma_first_dialog_bounds(ds, chat_id, 0);
        },
        UiMessage::MessageEdited { chat_id, .. } => {
            lemma_first_dialog_bounds(ds, chat_id, 0);
        },
        UiMessage::ChatRead { id } => {
            lemma_first_dialog_bounds(ds, id, 0);
        },
        UiMessage::UnreadCount { chat_id, .. } => {
            lemma_first_dialog_bounds(ds, chat_id, 0);
        },
        UiMessage::AvatarReady { chat_id, .. } => {
            lemma_first_dialog_bounds(ds, chat_id, 0);
        },
        _ => {},
    }
}

/// A synced unread count never raises a badge: every chat keeps its row,
/// with at most the unread count it had.
pub proof fn lemma_unread_sync_never_raises(s0: State, s1: State, chat_id: i64, count: i32)
    requires
        unread_count_applied(s0, s1, chat_id, count),
    ensures
        s1.list.dialogs@.len() == s0.list.dialogs@.len(),
        forall|k: int| 0 <= k < s0.list.dialogs@.len() ==> {
            &&& #[trigger] s1.list.dialogs@[k].unread <= s0.list.dialogs@[k].unread
            &&& s1.list.dialogs@[k].id == s0.list.dialogs@[k].id
        },
{
    lemma_first_dialog_bounds(s0.list.dialogs@, chat_id, 0);
}

} // verus!
