//! Chats and messages: which chat a `read` argument names, how a lookup
//! reply becomes a chat id or an error, and how messages and chat lists are
//! rendered as text.

use vstd::prelude::*;
use crate::decimal::{decimal_text, format_i64, parse_i64, parse_i64_spec, lemma_decimal_roundtrip, is_digit, digits_text, lemma_digits_text};
use crate::text::{eq_ignore_ascii_case, eq_ignore_ascii_case_spec, ascii_lower, push_str, push_padded, pad_right_spec, push_repeated, repeat_spec};

verus! {

/// What the `chat` argument of `read` names.
#[derive(Debug, Clone, PartialEq, Eq)]
pub enum ChatTarget {
    /// The user's own Saved Messages.
    Saved,
    /// A chat given by its numeric id.
    ChatId(i64),
    /// A public channel or group given by its username.
    Username(String),
}

pub enum ChatTargetView {
    Saved,
    ChatId(i64),
    Username(Seq<char>),
}

impl View for ChatTarget {
    type V = ChatTargetView;

    open spec fn view(&self) -> ChatTargetView {
        match self {
            ChatTarget::Saved => ChatTargetView::Saved,
            ChatTarget::ChatId(id) => ChatTargetView::ChatId(*id),
            ChatTarget::Username(u) => ChatTargetView::Username(u@),
        }
    }
}

pub open spec fn saved_word() -> Seq<char> {
    seq!['s', 'a', 'v', 'e', 'd']
}

/// `saved` in any ASCII case names Saved Messages; otherwise a text that
/// parses as an `i64` is a chat id; anything else is a username.
pub open spec fn classify_target(target: Seq<char>) -> ChatTargetView {
    if eq_ignore_ascii_case_spec(target, saved_word()) {
        ChatTargetView::Saved
    } else if parse_i64_spec(target) is Some {
        ChatTargetView::ChatId(parse_i64_spec(target)->0)
    } else {
        ChatTargetView::Username(target)
    }
}

impl ChatTarget {
    /// Reads the `chat` argument of `read`.
    pub fn parse(target: &str) -> (res: ChatTarget)
        ensures
            res@ == classify_target(target@),
    {
        let saved = "saved";
        proof {
            reveal_strlit("saved");
            assert(saved@ =~= saved_word());
        }
        if eq_ignore_ascii_case(target, saved) {
            ChatTarget::Saved
        } else {
            match parse_i64(target) {
                Some(id) => ChatTarget::ChatId(id),
                None => ChatTarget::Username(target.to_owned()),
            }
        }
    }
}

/// The id and title of a chat (or, for Saved Messages, the id of the user)
/// as TDLib reported them.
#[derive(Debug, Clone, PartialEq, Eq)]
pub struct ChatInfo {
    pub id: i64,
    pub title: String,
}

pub open spec fn lookup_error_text(target: ChatTargetView, message: Seq<char>) -> Seq<char> {
    match target {
        ChatTargetView::Saved => "Failed to get current user: "@ + message,
        ChatTargetView::ChatId(id) => "Failed to find chat "@ + decimal_text(id as int) + ": "@ + message,
        ChatTargetView::Username(u) => "Failed to find channel @"@ + u + ": "@ + message,
    }
}

pub open spec fn display_name(target: ChatTargetView, title: Seq<char>) -> Seq<char> {
    match target {
        ChatTargetView::Saved => "Saved Messages"@,
        ChatTargetView::ChatId(_) => title,
        ChatTargetView::Username(u) => "@"@ + u,
    }
}

/// Turns the reply to a chat lookup into the chat id and the name to show
/// for it, or into the error message the command reports.
///
/// The lookup is `get_me` for Saved Messages, `get_chat` for a chat id and
/// `search_public_chat` for a username; `reply` is its result (the TDLib
/// error message on failure).
pub fn resolve_chat_id(target: &ChatTarget, reply: Result<ChatInfo, String>) -> (res: Result<(i64, String), String>)
    ensures
        match reply {
            Ok(info) => res is Ok && res->Ok_0.0 == info.id && res->Ok_0.1@ == display_name(target@, info.title@),
            Err(m) => res is Err && res->Err_0@ == lookup_error_text(target@, m@),
        },
{
    match reply {
        Ok(info) => {
            let name = match target {
                ChatTarget::Saved => "Saved Messages".to_owned(),
                ChatTarget::ChatId(_) => info.title,
                ChatTarget::Username(u) => {
                    let mut s = String::new();
                    push_str(&mut s, "@");
                    push_str(&mut s, u.as_str());
                    s
                },
            };
            Ok((info.id, name))
        },
        Err(m) => {
            let mut s = String::new();
            match target {
                ChatTarget::Saved => {
                    push_str(&mut s, "Failed to get current user: ");
                },
                ChatTarget::ChatId(id) => {
                    push_str(&mut s, "Failed to find chat ");
                    let t = format_i64(*id);
                    push_str(&mut s, t.as_str());
                    push_str(&mut s, ": ");
                },
                ChatTarget::Username(u) => {
                    push_str(&mut s, "Failed to find channel @");
                    push_str(&mut s, u.as_str());
                    push_str(&mut s, ": ");
                },
            }
            push_str(&mut s, m.as_str());
            Err(s)
        },
    }
}

/// A numeric chat id, written in decimal as the chat list shows it, names
/// that same chat when given back to `read`.
pub proof fn lemma_listed_id_names_chat(id: i64)
    ensures
        classify_target(decimal_text(id as int)) == ChatTargetView::ChatId(id),
{
    lemma_decimal_roundtrip(id as int);
    let t = decimal_text(id as int);
    if id < 0 {
    } else {
        lemma_digits_text(id as nat);
        assert(t[0] == digits_text(id as nat)[0]);
        assert(is_digit(t[0]));
    }
    assert(ascii_lower(t[0]) != ascii_lower(saved_word()[0]));
    assert(!eq_ignore_ascii_case_spec(t, saved_word()));
}

/// The content of a message, as far as the reader shows it.
#[derive(Debug, Clone, PartialEq, Eq)]
pub enum MessageContent {
    Text(String),
    Photo { caption: String },
    Video { caption: String },
    Document { caption: String },
    Audio { caption: String },
    Sticker { emoji: String },
    Animation,
    VoiceNote,
    VideoNote,
    Unsupported,
}

/// `[label]`, followed by a space and the caption when there is one.
pub open spec fn caption_text(label: Seq<char>, caption: Seq<char>) -> Seq<char> {
    if caption.len() == 0 {
        "["@ + label + "]"@
    } else {
        "["@ + label + "] "@ + caption
    }
}

/// How a message's content is shown.
pub open spec fn content_text(c: MessageContent) -> Seq<char> {
    match c {
        MessageContent::Text(t) => t@,
        MessageContent::Photo { caption } => caption_text("Photo"@, caption@),
        MessageContent::Video { caption } => caption_text("Video"@, caption@),
        MessageContent::Document { caption } => caption_text("Document"@, caption@),
        MessageContent::Audio { caption } => caption_text("Audio"@, caption@),
        MessageContent::Sticker { emoji } => "[Sticker: "@ + emoji@ + "]"@,
        MessageContent::Animation => "[GIF]"@,
        MessageContent::VoiceNote => "[Voice message]"@,
        MessageContent::VideoNote => "[Video message]"@,
        MessageContent::Unsupported => "[Unsupported message type]"@,
    }
}

/// Labels a media message, adding its caption when it has one.
pub fn format_with_caption(label: &str, caption: &str) -> (res: String)
    ensures
        res@ == caption_text(label@, caption@),
{
    let mut s = String::new();
    push_str(&mut s, "[");
    push_str(&mut s, label);
    if caption.is_empty() {
        push_str(&mut s, "]");
    } else {
        push_str(&mut s, "] ");
        push_str(&mut s, caption);
    }
    s
}

fn literal(t: &str) -> (res: String)
    ensures
        res@ == t@,
{
    let mut s = String::new();
    push_str(&mut s, t);
    s
}

/// The text shown for a message.
pub fn render_content(content: &MessageContent) -> (res: String)
    ensures
        res@ == content_text(*content),
{
    match content {
        MessageContent::Text(t) => t.clone(),
        MessageContent::Photo { caption } => format_with_caption("Photo", caption.as_str()),
        MessageContent::Video { caption } => format_with_caption("Video", caption.as_str()),
        MessageContent::Document { caption } => format_with_caption("Document", caption.as_str()),
        MessageContent::Audio { caption } => format_with_caption("Audio", caption.as_str()),
        MessageContent::Sticker { emoji } => {
            let mut s = String::new();
            push_str(&mut s, "[Sticker: ");
            push_str(&mut s, emoji.as_str());
            push_str(&mut s, "]");
            s
        },
        MessageContent::Animation => literal("[GIF]"),
        MessageContent::VoiceNote => literal("[Voice message]"),
        MessageContent::VideoNote => literal("[Video message]"),
        MessageContent::Unsupported => literal("[Unsupported message type]"),
    }
}

/// A media message is shown as its label in brackets, followed by a space
/// and its whole caption when it has one: `[Photo]`, or `[Photo] ` and the
/// caption, and the same for videos, documents and audio files.
pub proof fn lemma_media_caption_shown(caption: String)
    ensures
        caption@.len() == 0 ==> {
            &&& content_text(MessageContent::Photo { caption }) == "[Photo]"@
            &&& content_text(MessageContent::Video { caption }) == "[Video]"@
            &&& content_text(MessageContent::Document { caption }) == "[Document]"@
            &&& content_text(MessageContent::Audio { caption }) == "[Audio]"@
        },
        caption@.len() > 0 ==> {
            &&& content_text(MessageContent::Photo { caption }) == "[Photo] "@ + caption@
            &&& content_text(MessageContent::Video { caption }) == "[Video] "@ + caption@
            &&& content_text(MessageContent::Document { caption }) == "[Document] "@ + caption@
            &&& content_text(MessageContent::Audio { caption }) == "[Audio] "@ + caption@
        },
{
    reveal_strlit("[");
    reveal_strlit("]");
    reveal_strlit("] ");
    reveal_strlit("Photo");
    reveal_strlit("Video");
    reveal_strlit("Document");
    reveal_strlit("Audio");
    reveal_strlit("[Photo]");
    reveal_strlit("[Video]");
    reveal_strlit("[Document]");
    reveal_strlit("[Audio]");
    reveal_strlit("[Photo] ");
    reveal_strlit("[Video] ");
    reveal_strlit("[Document] ");
    reveal_strlit("[Audio] ");
    if caption@.len() == 0 {
        assert("["@ + "Photo"@ + "]"@ =~= "[Photo]"@);
        assert("["@ + "Video"@ + "]"@ =~= "[Video]"@);
        assert("["@ + "Document"@ + "]"@ =~= "[Document]"@);
        assert("["@ + "Audio"@ + "]"@ =~= "[Audio]"@);
    } else {
        assert("["@ + "Photo"@ + "] "@ + caption@ =~= "[Photo] "@ + caption@);
        assert("["@ + "Video"@ + "] "@ + caption@ =~= "[Video] "@ + caption@);
        assert("["@ + "Document"@ + "] "@ + caption@ =~= "[Document] "@ + caption@);
        assert("["@ + "Audio"@ + "] "@ + caption@ =~= "[Audio] "@ + caption@);
    }
}

/// A text message is shown as its text, unchanged; a sticker as its emoji
/// in `[Sticker: ...]`; the other kinds by a fixed label.
pub proof fn lemma_other_content_shown(text: String, emoji: String)
    ensures
        content_text(MessageContent::Text(text)) == text@,
        content_text(MessageContent::Sticker { emoji }) == "[Sticker: "@ + emoji@ + "]"@,
        content_text(MessageContent::Animation) == "[GIF]"@,
        content_text(MessageContent::VoiceNote) == "[Voice message]"@,
        content_text(MessageContent::VideoNote) == "[Video message]"@,
        content_text(MessageContent::Unsupported) == "[Unsupported message type]"@,
{
}

/// One printed line of `read`: `[time] text`.
pub open spec fn message_line_text(time: Seq<char>, content: MessageContent) -> Seq<char> {
    "["@ + time + "] "@ + content_text(content)
}

/// A line of `read` is the time label in brackets, one space, and then the
/// message's whole text.
pub proof fn lemma_message_line_layout(time: Seq<char>, content: MessageContent)
    ensures
        ({
            let l = message_line_text(time, content);
            let t = content_text(content);
            &&& l.len() == time.len() + 3 + t.len()
            &&& l[0] == '['
            &&& l.subrange(1, time.len() + 1int) == time
            &&& l[time.len() + 1int] == ']'
            &&& l[time.len() + 2int] == ' '
            &&& l.subrange(time.len() + 3int, l.len() as int) == t
        }),
{
    reveal_strlit("[");
    reveal_strlit("] ");
    let l = message_line_text(time, content);
    let t = content_text(content);
    assert(l =~= "["@ + time + "] "@ + t);
    assert(l.subrange(1, time.len() + 1int) =~= time);
    assert(l.subrange(time.len() + 3int, l.len() as int) =~= t);
}

/// Renders one message as `read` prints it, given its time label.
pub fn message_line(time: &str, content: &MessageContent) -> (res: String)
    ensures
        res@ == message_line_text(time@, *content),
{
    let mut s = String::new();
    push_str(&mut s, "[");
    push_str(&mut s, time);
    push_str(&mut s, "] ");
    let body = render_content(content);
    push_str(&mut s, body.as_str());
    s
}

/// Width of the id column in the chat list.
pub const ID_COLUMN_WIDTH: usize = 16;

/// Width of the rule under the chat list's header.
pub const RULE_WIDTH: usize = 60;

/// The two header lines of `list`: the column titles and a rule.
pub open spec fn chat_list_header_text() -> Seq<Seq<char>> {
    seq![pad_right_spec("ID"@, ID_COLUMN_WIDTH as nat) + " TITLE"@, repeat_spec('-', RULE_WIDTH as nat)]
}

/// One row of `list`: the id, padded to the id column, then the title.
pub open spec fn chat_row_text(id: i64, title: Seq<char>) -> Seq<char> {
    pad_right_spec(decimal_text(id as int), ID_COLUMN_WIDTH as nat) + " "@ + title
}

/// The list's header is `ID` padded to the id column, then ` TITLE`, over
/// a rule of sixty dashes.
pub proof fn lemma_chat_list_header()
    ensures
        chat_list_header_text().len() == 2,
        chat_list_header_text()[0] == "ID               TITLE"@,
        chat_list_header_text()[1].len() == 60,
        forall|i: int| 0 <= i < 60 ==> #[trigger] chat_list_header_text()[1][i] == '-',
{
    reveal_strlit("ID");
    reveal_strlit(" TITLE");
    reveal_strlit("ID               TITLE");
    assert(chat_list_header_text()[0] =~= "ID               TITLE"@);
}

/// A row of the chat list is the chat's id in decimal, padded with spaces
/// to the id column's width (or longer, when the id is longer), one space,
/// and then the chat's whole title.
pub proof fn lemma_chat_row_layout(id: i64, title: Seq<char>)
    ensures
        ({
            let d = decimal_text(id as int);
            let r = chat_row_text(id, title);
            let w: int = if d.len() >= ID_COLUMN_WIDTH { d.len() as int } else { ID_COLUMN_WIDTH as int };
            &&& r.len() == w + 1 + title.len()
            &&& r.subrange(0, d.len() as int) == d
            &&& forall|i: int| d.len() <= i <= w ==> #[trigger] r[i] == ' '
            &&& r.subrange(w + 1, r.len() as int) == title
        }),
{
    reveal_strlit(" ");
    let d = decimal_text(id as int);
    let r = chat_row_text(id, title);
    let p = pad_right_spec(d, ID_COLUMN_WIDTH as nat);
    let w: int = if d.len() >= ID_COLUMN_WIDTH { d.len() as int } else { ID_COLUMN_WIDTH as int };
    assert(p.len() == w);
    assert(r =~= p + " "@ + title);
    assert(r.subrange(0, d.len() as int) =~= d);
    assert(r.subrange(w + 1, r.len() as int) =~= title);
    assert forall|i: int| d.len() <= i <= w implies #[trigger] r[i] == ' ' by {
        if i < w {
            assert(r[i] == p[i]);
        } else {
            assert(r[i] == " "@[0]);
        }
    }
}

/// The header lines that `list` prints before the chats.
pub fn chat_list_header() -> (res: Vec<String>)
    ensures
        res@.len() == 2,
        res@[0]@ == chat_list_header_text()[0],
        res@[1]@ == chat_list_header_text()[1],
{
    let mut title = String::new();
    push_padded(&mut title, "ID", ID_COLUMN_WIDTH);
    push_str(&mut title, " TITLE");
    let mut rule = String::new();
    push_repeated(&mut rule, '-', RULE_WIDTH);
    let mut v = Vec::new();
    v.push(title);
    v.push(rule);
    v
}

/// One row of the chat list.
pub fn chat_row(id: i64, title: &str) -> (res: String)
    ensures
        res@ == chat_row_text(id, title@),
{
    let mut s = String::new();
    let id_text = format_i64(id);
    push_padded(&mut s, id_text.as_str(), ID_COLUMN_WIDTH);
    push_str(&mut s, " ");
    push_str(&mut s, title);
    s
}

/// The message `list` reports when the chat list cannot be fetched.
pub fn list_error(message: &str) -> (res: String)
    ensures
        res@ == "Failed to list chats: "@ + message@,
{
    let mut s = String::new();
    push_str(&mut s, "Failed to list chats: ");
    push_str(&mut s, message);
    s
}

/// The message `list` reports when one chat of the list cannot be fetched.
pub fn chat_error(id: i64, message: &str) -> (res: String)
    ensures
        res@ == "Failed to get chat "@ + decimal_text(id as int) + ": "@ + message@,
{
    let mut s = String::new();
    push_str(&mut s, "Failed to get chat ");
    let t = format_i64(id);
    push_str(&mut s, t.as_str());
    push_str(&mut s, ": ");
    push_str(&mut s, message);
    s
}

/// The format in which `read` shows a send time: date, hour and minute, and
/// the offset of the local time zone.
pub open spec fn time_format_text() -> Seq<char> {
    "%Y-%m-%d %H:%M %Z"@
}

/// The format in which `read` shows a send time.
pub fn time_format() -> (res: &'static str)
    ensures
        res@ == time_format_text(),
{
    "%Y-%m-%d %H:%M %Z"
}

/// chrono's rendering with `format` of the instant `secs` seconds after the
/// Unix epoch, seen at a fixed offset of `offset` seconds east of UTC.
pub uninterp spec fn chrono_offset_text(secs: int, offset: int, format: Seq<char>) -> Seq<char>;

/// The send time of a message in the machine's local time zone:
/// `chrono::DateTime::from_timestamp`, then `with_timezone(&Local)`,
/// `format` and `to_string`.
/// Trusted: a 32-bit Unix timestamp always lies within chrono's range of
/// dates, so a text always comes back; it is the rendering at the offset of
/// the local time zone at that instant, a `FixedOffset` and so strictly
/// within a day of UTC. Which offset that is depends on the machine and is
/// not stated. The format is the one `read` uses, which chrono accepts.
#[verifier::external_body]
fn local_time_text(secs: i32, format: &str) -> (res: Option<String>)
    requires
        format@ == time_format_text(),
    ensures
        res is Some,
        res matches Some(t) ==> exists|offset: int|
            #![trigger chrono_offset_text(secs as int, offset, format@)]
            -86400 < offset < 86400 && t@ == chrono_offset_text(secs as int, offset, format@),
{
    match chrono::DateTime::from_timestamp(secs as i64, 0) {
        Some(dt) => Some(dt.with_timezone(&chrono::Local).format(format).to_string()),
        None => None,
    }
}

/// The time label of a message: the formatted time, or `unknown date` when
/// the timestamp cannot be placed.
pub fn time_label(formatted: Option<String>) -> (res: String)
    ensures
        res@ == match formatted {
            Some(t) => t@,
            None => "unknown date"@,
        },
{
    match formatted {
        Some(t) => t,
        None => literal("unknown date"),
    }
}

/// The local send time of a message, as `read` shows it.
pub open spec fn local_time_label(date: i32, offset: int) -> Seq<char> {
    chrono_offset_text(date as int, offset, time_format_text())
}

/// One line of `read` for a message: its send time in the local time zone,
/// then its text.
pub fn read_line(date: i32, content: &MessageContent) -> (res: String)
    ensures
        exists|offset: int|
            #![trigger local_time_label(date, offset)]
            -86400 < offset < 86400 && res@ == message_line_text(local_time_label(date, offset), *content),
{
    let formatted = local_time_text(date, time_format());
    let ghost offset = choose|offset: int|
        #![trigger chrono_offset_text(date as int, offset, time_format_text())]
        -86400 < offset < 86400 && formatted->0@ == chrono_offset_text(date as int, offset, time_format_text());
    let label = time_label(formatted);
    let line = message_line(label.as_str(), content);
    assert(line@ == message_line_text(local_time_label(date, offset), *content));
    line
}

} // verus!
