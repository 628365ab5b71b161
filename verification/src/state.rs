//! Interface-state vocabulary and the pure decisions of the client state:
//! admin menus, message previews, emoji recents, and the small marker files
//! that persist the last open chat, the recents and the notification flag.

pub mod machine;

pub use machine::State;
use vstd::prelude::*;
use crate::bridge::{DocMeta, ParticipantRole, StickerMeta};
use crate::format::{i64_digits, int_str, parse_i64, spec_parse_i64, lemma_parse_int_str};
use crate::text::{
    chars_of, push_str, spec_trim, split_lines, split_lines_of, string_from_chars, trim_chars,
    trim_seq,
};

verus! {

/// Sign-in flow step (only used while unauthenticated).
#[derive(Debug, Clone, Copy, PartialEq, Eq, Structural)]
pub enum LoginStep {
    Phone,
    Code,
    Password,
}

/// Progress of the QR sign-in pane.
#[derive(Debug, Clone, Copy, PartialEq, Eq, Structural)]
pub enum QrStage {
    /// Nothing requested yet (pane just switched in / after a failure).
    Idle,
    /// A QR image is shown; waiting for the phone to scan it.
    AwaitingScan,
    /// The phone scanned the code; the server is confirming this device.
    ScanConfirmed,
}

/// Open context menu over a message (right-click / long-press).
#[derive(Debug, Clone, Copy, PartialEq, Eq, Structural)]
pub struct ContextMenu {
    /// Index of the message row the menu is over.
    pub row: usize,
}

/// What the creation modal is currently creating.
#[derive(Debug, Clone, Copy, PartialEq, Eq, Structural)]
pub enum CreateKind {
    Group,
    Channel,
}

/// Destructive chat action awaiting user confirmation.
#[derive(Debug, Clone, Copy, PartialEq, Eq, Structural)]
pub enum ConfirmKind {
    /// Leave the group/channel.
    Leave,
    /// Delete the chat from the account.
    Delete,
}

/// Destructive member-admin action awaiting its inline Yes/No confirmation.
#[derive(Debug, Clone, Copy, PartialEq, Eq, Structural)]
pub enum AdminConfirm {
    /// Ban the member forever (cannot rejoin).
    Ban,
    /// Remove the member from the group (may rejoin).
    Remove,
}

/// One admin action offered by a member row's context menu.
#[derive(Debug, Clone, Copy, PartialEq, Eq, Structural)]
pub enum AdminAction {
    /// Grant every admin right.
    Promote,
    /// Revoke every admin right.
    Demote,
    /// Ban the member forever.
    Ban,
    /// Remove the member (kick only).
    Remove,
}

/// Which tab of the settings panel is active.
#[derive(Debug, Clone, Copy, PartialEq, Eq, Structural)]
pub enum SettingsTab {
    /// Own profile (identity + edit + notifications + theme).
    Profile,
    /// Media cache size + clear action.
    Storage,
    /// Active account sessions.
    Sessions,
}

/// Where the search UI is currently searching.
#[derive(Debug, Clone, Copy, PartialEq, Eq, Structural)]
pub enum SearchMode {
    /// Search across all chats (opened from the list header).
    Global,
    /// Search inside the open chat only.
    InChat,
}

/// The composer is replying to a message: `(msg_id, preview snippet)`.
#[derive(Debug, Clone, PartialEq, Eq)]
pub struct ReplyTarget {
    pub msg_id: i32,
    /// Short preview of the replied-to text (or a media placeholder).
    pub snippet: String,
}

/// The admin actions a member row offers: none for the owner or yourself,
/// Demote + Ban for an admin, Promote + Ban + Remove for a plain member.
pub open spec fn spec_admin_menu(role: ParticipantRole, is_self: bool) -> Seq<AdminAction> {
    if is_self || role == ParticipantRole::Creator {
        seq![]
    } else if role == ParticipantRole::Admin {
        seq![AdminAction::Demote, AdminAction::Ban]
    } else {
        seq![AdminAction::Promote, AdminAction::Ban, AdminAction::Remove]
    }
}

/// Menu items for a member row, as data.
pub fn admin_menu_items(role: ParticipantRole, is_self: bool) -> (items: Vec<AdminAction>)
    ensures
        items@ == spec_admin_menu(role, is_self),
{
    if is_self || role == ParticipantRole::Creator {
        return Vec::new();
    }
    match role {
        ParticipantRole::Admin => vec![AdminAction::Demote, AdminAction::Ban],
        _ => vec![AdminAction::Promote, AdminAction::Ban, AdminAction::Remove],
    }
}

/// One-line preview of a message: the text, or a media placeholder when
/// there is none (sticker, then document, then photo).
pub open spec fn spec_preview(
    text: Seq<char>,
    photo: Option<(u32, u32)>,
    doc: Option<DocMeta>,
    sticker: Option<StickerMeta>,
) -> Seq<char> {
    if text.len() > 0 {
        text
    } else if sticker is Some {
        let alt = spec_trim(sticker->0.alt@);
        if alt.len() == 0 {
            "🖼 Sticker"@
        } else {
            alt + " Sticker"@
        }
    } else if doc is Some {
        "📄 "@ + (if doc->0.name@.len() == 0 { "File"@ } else { doc->0.name@ })
    } else if photo is Some {
        "📷 Photo"@
    } else {
        Seq::empty()
    }
}

/// A message with text previews as its text, whatever photo, document or
/// sticker it carries: media only stand in for an empty text.
pub proof fn lemma_text_wins_preview(
    text: Seq<char>,
    photo: Option<(u32, u32)>,
    doc: Option<DocMeta>,
    sticker: Option<StickerMeta>,
)
    requires
        text.len() > 0,
    ensures
        spec_preview(text, photo, doc, sticker) == text,
{
}

/// A preview is empty only for a message with no text and no media.
pub proof fn lemma_preview_empty_only_when_bare(
    text: Seq<char>,
    photo: Option<(u32, u32)>,
    doc: Option<DocMeta>,
    sticker: Option<StickerMeta>,
)
    ensures
        spec_preview(text, photo, doc, sticker).len() == 0 <==> (text.len() == 0 && photo is None
            && doc is None && sticker is None),
{
    reveal_strlit("🖼 Sticker");
    reveal_strlit(" Sticker");
    reveal_strlit("📄 ");
    reveal_strlit("📷 Photo");
}

/// One-line preview of a message for list rows / reply snippets.
pub fn preview_text(
    text: &str,
    photo: &Option<(u32, u32)>,
    doc: &Option<DocMeta>,
    sticker: &Option<StickerMeta>,
) -> (s: String)
    ensures
        s@ == spec_preview(text@, *photo, *doc, *sticker),
{
    let mut out: Vec<char> = Vec::new();
    if !text.is_empty() {
        push_str(&mut out, text);
    } else if let Some(st) = sticker {
        let alt = trim_chars(st.alt.as_str());
        if alt.len() == 0 {
            push_str(&mut out, "🖼 Sticker");
        } else {
            out = alt;
            push_str(&mut out, " Sticker");
        }
    } else if let Some(d) = doc {
        push_str(&mut out, "📄 ");
        if d.name.as_str().is_empty() {
            push_str(&mut out, "File");
        } else {
            push_str(&mut out, d.name.as_str());
        }
    } else if photo.is_some() {
        push_str(&mut out, "📷 Photo");
    }
    proof {
        if text@.len() == 0 && sticker is None && doc is None && photo is None {
            assert(out@ =~= Seq::<char>::empty());
        }
    }
    string_from_chars(&out)
}

// ---------------------------------------------------------------------------
// Emoji recents
// ---------------------------------------------------------------------------

/// Maximum number of recently-used emojis kept (and persisted).
pub const EMOJI_RECENTS_MAX: usize = 24;

/// `xs` without the entries equal to `e`.
pub open spec fn without(xs: Seq<Seq<char>>, e: Seq<char>) -> Seq<Seq<char>>
    decreases xs.len(),
{
    if xs.len() == 0 {
        Seq::empty()
    } else {
        let rest = without(xs.drop_last(), e);
        if xs.last() == e {
            rest
        } else {
            rest.push(xs.last())
        }
    }
}

/// The recents after picking `e`: `e` moves to the front, its older copies
/// go, and the list is capped at [`EMOJI_RECENTS_MAX`]. An empty pick
/// changes nothing.
pub open spec fn spec_push_recent(recents: Seq<Seq<char>>, e: Seq<char>) -> Seq<Seq<char>> {
    if e.len() == 0 {
        recents
    } else {
        let all = seq![e] + without(recents, e);
        if all.len() > 24 {
            all.take(24)
        } else {
            all
        }
    }
}

/// The views of a list of strings.
pub open spec fn views(xs: Seq<String>) -> Seq<Seq<char>> {
    xs.map_values(|s: String| s@)
}

proof fn lemma_without_props(xs: Seq<Seq<char>>, e: Seq<char>)
    ensures
        without(xs, e).len() <= xs.len(),
        forall|k: int| 0 <= k < without(xs, e).len() ==> #[trigger] without(xs, e)[k] != e,
        forall|k: int| 0 <= k < without(xs, e).len() ==> xs.contains(#[trigger] without(xs, e)[k]),
    decreases xs.len(),
{
    if xs.len() > 0 {
        lemma_without_props(xs.drop_last(), e);
        let rest = without(xs.drop_last(), e);
        assert forall|k: int| 0 <= k < without(xs, e).len() implies xs.contains(
            #[trigger] without(xs, e)[k],
        ) by {
            if k < rest.len() {
                let j = choose|j: int| 0 <= j < xs.drop_last().len() && xs.drop_last()[j] == rest[k];
                assert(xs[j] == rest[k]);
            } else {
                assert(xs[xs.len() - 1] == without(xs, e)[k]);
            }
        }
    }
}

/// An emoji was picked: it goes to the front of the recents, once, and the
/// list stays capped.
pub fn push_recent(recents: &mut Vec<String>, emoji: String)
    ensures
        views(final(recents)@) == spec_push_recent(views(old(recents)@), emoji@),
{
    if emoji.as_str().is_empty() {
        return;
    }
    let ghost old_views = views(recents@);
    let mut out: Vec<String> = Vec::new();
    let n = recents.len();
    let ghost e = emoji@;
    let mut k: usize = 0;
    while k < n
        invariant
            k <= n,
            n == recents.len(),
            e == emoji@,
            old_views == views(recents@),
            views(out@) == without(old_views.take(k as int), e),
        decreases n - k,
    {
        proof {
            assert(old_views.take(k as int + 1).drop_last() =~= old_views.take(k as int));
            assert(old_views.take(k as int + 1).last() == recents@[k as int]@);
        }
        let same = recents[k] == emoji;
        if !same {
            let x = recents[k].clone();
            out.push(x);
            proof {
                assert(views(out@) =~= views(out@.drop_last()).push(x@));
            }
        }
        k = k + 1;
    }
    proof {
        assert(old_views.take(n as int) =~= old_views);
    }
    let ghost without_e = views(out@);
    out.insert(0, emoji);
    proof {
        assert(views(out@) =~= seq![e] + without_e);
    }
    if out.len() > EMOJI_RECENTS_MAX {
        out.truncate(EMOJI_RECENTS_MAX);
        proof {
            assert(views(out@) =~= (seq![e] + without_e).take(24));
        }
    }
    *recents = out;
}

/// Picking an emoji puts it first, keeps it only once, and never lets the
/// list grow beyond [`EMOJI_RECENTS_MAX`] entries; every other entry was
/// already there.
pub proof fn lemma_push_recent_props(recents: Seq<Seq<char>>, e: Seq<char>)
    requires
        e.len() > 0,
    ensures
        spec_push_recent(recents, e)[0] == e,
        spec_push_recent(recents, e).len() <= 24,
        forall|k: int|
            1 <= k < spec_push_recent(recents, e).len() ==> #[trigger] spec_push_recent(recents, e)[k]
                != e && recents.contains(spec_push_recent(recents, e)[k]),
{
    lemma_without_props(recents, e);
    let all = seq![e] + without(recents, e);
    assert forall|k: int| 1 <= k < all.len() implies all[k] == without(recents, e)[k - 1] by {}
}

// ---------------------------------------------------------------------------
// Marker files
// ---------------------------------------------------------------------------

/// The last-open chat stored in a marker file: its content, trimmed, read
/// as an `i64`.
pub fn parse_last_chat(content: &str) -> (id: Option<i64>)
    ensures
        id == spec_parse_i64(spec_trim(content@)),
{
    let t = trim_chars(content);
    parse_i64(&t)
}

/// The marker file content for the last-open chat `id`.
pub fn last_chat_marker(id: i64) -> (s: String)
    ensures
        s@ == int_str(id as int),
{
    string_from_chars(&i64_digits(id))
}

/// Storing a chat id and reading the marker back gives the same id.
pub proof fn lemma_last_chat_roundtrip(id: i64)
    ensures
        spec_parse_i64(spec_trim(int_str(id as int))) == Some(id),
{
    crate::format::lemma_int_str_edges(id as int);
    crate::text::lemma_trim_plain(int_str(id as int));
    lemma_parse_int_str(id as int);
}

/// The notifications flag stored in a marker file: anything but "off"
/// (surrounding whitespace ignored), including a missing file, means on.
pub fn parse_notifications(content: &str) -> (on: bool)
    ensures
        on == (spec_trim(content@) != "off"@),
{
    let t = trim_chars(content);
    proof {
        reveal_strlit("off");
    }
    if t.len() == 3 && t[0] == 'o' && t[1] == 'f' && t[2] == 'f' {
        assert(t@ =~= "off"@);
        false
    } else {
        true
    }
}

/// Marker file content for the notifications flag.
pub fn notifications_marker(on: bool) -> (s: &'static str)
    ensures
        s@ == (if on { "on"@ } else { "off"@ }),
{
    if on {
        "on"
    } else {
        "off"
    }
}

/// Writing the notifications flag and reading it back gives the flag.
pub proof fn lemma_notifications_roundtrip(on: bool)
    ensures
        (spec_trim(if on { "on"@ } else { "off"@ }) != "off"@) == on,
{
    reveal_strlit("on");
    reveal_strlit("off");
    crate::text::lemma_trim_plain("on"@);
    crate::text::lemma_trim_plain("off"@);
    assert("on"@.len() != "off"@.len());
}

/// Trimmed, non-empty lines of a file, in order.
pub open spec fn kept_lines(lines: Seq<Seq<char>>) -> Seq<Seq<char>>
    decreases lines.len(),
{
    if lines.len() == 0 {
        Seq::empty()
    } else {
        let t = spec_trim(lines[0]);
        (if t.len() > 0 { seq![t] } else { Seq::empty() }) + kept_lines(lines.drop_first())
    }
}

/// The lines of `xs` joined with line feeds.
pub open spec fn join_lines(xs: Seq<Seq<char>>) -> Seq<char>
    decreases xs.len(),
{
    if xs.len() == 0 {
        Seq::empty()
    } else if xs.len() == 1 {
        xs[0]
    } else {
        xs[0] + seq!['\n'] + join_lines(xs.drop_first())
    }
}

proof fn lemma_kept_push(ys: Seq<Seq<char>>, y: Seq<char>)
    ensures
        kept_lines(ys.push(y)) == kept_lines(ys) + (if spec_trim(y).len() > 0 {
            seq![spec_trim(y)]
        } else {
            Seq::empty()
        }),
    decreases ys.len(),
{
    if ys.len() == 0 {
        assert(ys.push(y).drop_first() =~= Seq::<Seq<char>>::empty());
        assert(kept_lines(Seq::<Seq<char>>::empty()) == Seq::<Seq<char>>::empty());
        assert(ys =~= Seq::<Seq<char>>::empty());
        assert(ys.push(y)[0] == y);
        assert(kept_lines(ys.push(y)) =~= kept_lines(ys) + (if spec_trim(y).len() > 0 {
            seq![spec_trim(y)]
        } else {
            Seq::empty()
        }));
    } else {
        lemma_kept_push(ys.drop_first(), y);
        assert(ys.push(y).drop_first() =~= ys.drop_first().push(y));
        assert(ys.push(y)[0] == ys[0]);
        assert(kept_lines(ys.push(y)) =~= kept_lines(ys) + (if spec_trim(y).len() > 0 {
            seq![spec_trim(y)]
        } else {
            Seq::empty()
        }));
    }
}

/// Reads persisted recents: one emoji per line, trimmed, blank lines
/// skipped.
pub fn parse_emoji_recents(content: &str) -> (recents: Vec<String>)
    ensures
        views(recents@) == kept_lines(split_lines(content@)),
{
    let lines = split_lines_of(content);
    let ghost ls = split_lines(content@);
    let mut out: Vec<String> = Vec::new();
    let mut k: usize = 0;
    assert(ls.take(0) =~= Seq::<Seq<char>>::empty());
    assert(views(out@) =~= Seq::<Seq<char>>::empty());
    while k < lines.len()
        invariant
            k <= lines.len(),
            lines.len() == ls.len(),
            ls == split_lines(content@),
            forall|j: int| 0 <= j < lines.len() ==> #[trigger] lines@[j]@ == ls[j],
            views(out@) == kept_lines(ls.take(k as int)),
        decreases lines.len() - k,
    {
        let t = trim_seq(&lines[k]);
        proof {
            assert(ls.take(k as int + 1) =~= ls.take(k as int).push(ls[k as int]));
            lemma_kept_push(ls.take(k as int), ls[k as int]);
        }
        if t.len() > 0 {
            let s = string_from_chars(&t);
            out.push(s);
            proof {
                assert(views(out@) =~= views(out@.drop_last()).push(s@));
            }
        } else {
            proof {
                assert(kept_lines(ls.take(k as int)) + Seq::<Seq<char>>::empty() =~= kept_lines(ls.take(k as int)));
            }
        }
        k = k + 1;
    }
    proof {
        assert(ls.take(ls.len() as int) =~= ls);
    }
    out
}

proof fn lemma_join_push(ys: Seq<Seq<char>>, y: Seq<char>)
    ensures
        join_lines(ys.push(y)) == (if ys.len() == 0 {
            y
        } else {
            join_lines(ys) + seq!['\n'] + y
        }),
    decreases ys.len(),
{
    if ys.len() == 0 {
        assert(ys.push(y) =~= seq![y]);
    } else if ys.len() == 1 {
        assert(ys.push(y).drop_first() =~= seq![y]);
        assert(ys.push(y)[0] == ys[0]);
        assert(join_lines(seq![y]) == y);
        assert(join_lines(ys.push(y)) =~= ys[0] + seq!['\n'] + y);
    } else {
        lemma_join_push(ys.drop_first(), y);
        assert(ys.push(y).drop_first() =~= ys.drop_first().push(y));
        assert(ys.push(y)[0] == ys[0]);
        assert(join_lines(ys.push(y)) =~= join_lines(ys) + seq!['\n'] + y);
    }
}

/// The recents file content: one emoji per line.
pub fn emoji_recents_file(recents: &Vec<String>) -> (s: String)
    ensures
        s@ == join_lines(views(recents@)),
{
    let n = recents.len();
    let ghost xs = views(recents@);
    let mut out: Vec<char> = Vec::new();
    let mut k: usize = 0;
    while k < n
        invariant
            k <= n,
            n == recents.len(),
            xs == views(recents@),
            out@ == join_lines(xs.take(k as int)),
        decreases n - k,
    {
        proof {
            assert(xs.take(k as int + 1) =~= xs.take(k as int).push(recents@[k as int]@));
            lemma_join_push(xs.take(k as int), recents@[k as int]@);
        }
        if k > 0 {
            out.push('\n');
        }
        push_str(&mut out, recents[k].as_str());
        k = k + 1;
    }
    proof {
        assert(xs.take(n as int) =~= xs);
    }
    string_from_chars(&out)
}

/// A line with no line feed, that is its own trim and is not empty.
pub open spec fn is_plain_line(x: Seq<char>) -> bool {
    x.len() > 0 && spec_trim(x) == x && !x.contains('\n')
}

proof fn lemma_split_join(xs: Seq<Seq<char>>)
    requires
        xs.len() > 0,
        forall|k: int| 0 <= k < xs.len() ==> !(#[trigger] xs[k]).contains('\n'),
    ensures
        split_lines(join_lines(xs)) == xs,
    decreases xs.len(),
{
    let j = join_lines(xs);
    if xs.len() == 1 {
        crate::text::lemma_index_of_from(j, '\n', 0);
        if crate::text::index_of_from(j, '\n', 0) < j.len() {
            assert(xs[0].contains('\n'));
        }
    } else {
        let x = xs[0];
        let rest = xs.drop_first();
        lemma_split_join(rest);
        assert(j == x + seq!['\n'] + join_lines(rest));
        crate::text::lemma_index_of_from(j, '\n', 0);
        let i = crate::text::index_of_from(j, '\n', 0);
        assert(j[x.len() as int] == '\n');
        if i < x.len() {
            assert(j[i] == x[i]);
            assert(x.contains('\n'));
        }
        assert(i == x.len());
        assert(j.take(i) =~= x);
        assert(j.skip(i + 1) =~= join_lines(rest));
        assert(split_lines(j) =~= seq![x] + rest);
    }
}

proof fn lemma_kept_plain(xs: Seq<Seq<char>>)
    requires
        forall|k: int| 0 <= k < xs.len() ==> is_plain_line(#[trigger] xs[k]),
    ensures
        kept_lines(xs) == xs,
    decreases xs.len(),
{
    if xs.len() > 0 {
        lemma_kept_plain(xs.drop_first());
        assert(is_plain_line(xs[0]));
        assert(kept_lines(xs) =~= seq![xs[0]] + xs.drop_first());
    }
}

/// Persisting the recents and reading the file back gives the same list,
/// as long as each entry is a non-empty, trimmed, single-line string.
pub proof fn lemma_recents_roundtrip(xs: Seq<Seq<char>>)
    requires
        forall|k: int| 0 <= k < xs.len() ==> is_plain_line(#[trigger] xs[k]),
    ensures
        kept_lines(split_lines(join_lines(xs))) == xs,
{
    if xs.len() == 0 {
        let e = Seq::<char>::empty();
        crate::text::lemma_index_of_from(e, '\n', 0);
        assert(split_lines(e) == seq![e]);
        assert(spec_trim(e) =~= e);
        assert(seq![e].drop_first() =~= Seq::<Seq<char>>::empty());
        assert(kept_lines(Seq::<Seq<char>>::empty()) == Seq::<Seq<char>>::empty());
        assert(kept_lines(seq![e]) =~= Seq::<Seq<char>>::empty());
    } else {
        assert forall|k: int| 0 <= k < xs.len() implies !(#[trigger] xs[k]).contains('\n') by {
            assert(is_plain_line(xs[k]));
        }
        lemma_split_join(xs);
        lemma_kept_plain(xs);
    }
}

} // verus!
