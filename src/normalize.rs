//! Turning the platform's inbound event shapes into one uniform tagged model.
use vstd::prelude::*;

use crate::model::{clone_opt_string, ChatContext, TelegramUser, TriggerEvent};

verus! {

/// Whitespace as `char::is_whitespace` defines it (the Unicode White_Space set).
pub open spec fn is_space_spec(c: char) -> bool {
    let n = c as u32;
    (9 <= n && n <= 13) || n == 32 || n == 0x85 || n == 0xa0 || n == 0x1680 || (0x2000 <= n
        && n <= 0x200a) || n == 0x2028 || n == 0x2029 || n == 0x202f || n == 0x205f || n == 0x3000
}

/// Whether `c` is whitespace.
pub fn is_space(c: char) -> (r: bool)
    ensures
        r == is_space_spec(c),
{
    let n = c as u32;
    (9 <= n && n <= 13) || n == 32 || n == 0x85 || n == 0xa0 || n == 0x1680 || (0x2000 <= n && n
        <= 0x200a) || n == 0x2028 || n == 0x2029 || n == 0x202f || n == 0x205f || n == 0x3000
}

/// Reading `s` from left to right: the words completed so far, and the word
/// still being read (empty after a space).
pub open spec fn split_state(s: Seq<char>) -> (Seq<Seq<char>>, Seq<char>)
    decreases s.len(),
{
    if s.len() == 0 {
        (seq![], seq![])
    } else {
        let prev = split_state(s.drop_last());
        let c = s.last();
        if !is_space_spec(c) {
            (prev.0, prev.1.push(c))
        } else if prev.1.len() > 0 {
            (prev.0.push(prev.1), seq![])
        } else {
            (prev.0, seq![])
        }
    }
}

/// The words of `s`: its maximal runs of non-whitespace characters, in order.
pub open spec fn words(s: Seq<char>) -> Seq<Seq<char>> {
    let st = split_state(s);
    if st.1.len() > 0 {
        st.0.push(st.1)
    } else {
        st.0
    }
}

/// The character sequences of a sequence of strings.
pub open spec fn string_views(v: Seq<String>) -> Seq<Seq<char>> {
    v.map_values(|w: String| w@)
}

proof fn lemma_views_push(v: Seq<String>, w: String)
    ensures
        string_views(v.push(w)) == string_views(v).push(w@),
{
    assert(string_views(v.push(w)) =~= string_views(v).push(w@));
}

/// Splits `s` into its whitespace-separated words.
pub fn split_words(s: &str) -> (r: Vec<String>)
    ensures
        string_views(r@) == words(s@),
{
    let n = s.unicode_len();
    let mut out: Vec<String> = Vec::new();
    let mut start: usize = 0;
    let mut i: usize = 0;
    while i < n
        invariant
            n == s@.len(),
            start <= i <= n,
            split_state(s@.subrange(0, i as int)).0 == string_views(out@),
            split_state(s@.subrange(0, i as int)).1 == s@.subrange(start as int, i as int),
        decreases n - i,
    {
        let c = s.get_char(i);
        assert(s@.subrange(0, i + 1).drop_last() =~= s@.subrange(0, i as int));
        if is_space(c) {
            if start < i {
                let w = String::from_str(s.substring_char(start, i));
                proof {
                    lemma_views_push(out@, w);
                }
                out.push(w);
            }
            start = i + 1;
        } else {
            assert(s@.subrange(start as int, i as int).push(c) =~= s@.subrange(
                start as int,
                i + 1,
            ));
        }
        i = i + 1;
    }
    assert(s@.subrange(0, n as int) =~= s@);
    if start < n {
        let w = String::from_str(s.substring_char(start, n));
        proof {
            lemma_views_push(out@, w);
        }
        out.push(w);
    }
    out
}

/// Whether a message text is a command: it begins with `/`.
pub open spec fn is_command_text(t: Seq<char>) -> bool {
    t.len() > 0 && t[0] == '/'
}

/// The command name of a command text: the first word after the `/`, or
/// empty when there is none.
pub open spec fn command_name(t: Seq<char>) -> Seq<char> {
    let w = words(t.drop_first());
    if w.len() > 0 {
        w[0]
    } else {
        seq![]
    }
}

/// The arguments of a command text: the words after the command name.
pub open spec fn command_args(t: Seq<char>) -> Seq<Seq<char>> {
    let w = words(t.drop_first());
    if w.len() > 0 {
        w.drop_first()
    } else {
        seq![]
    }
}

/// The event that a message text stands for.
pub open spec fn is_event_of_text(t: Seq<char>, e: TriggerEvent) -> bool {
    if is_command_text(t) {
        match e {
            TriggerEvent::Command(name, args) => name@ == command_name(t) && string_views(args@)
                == command_args(t),
            _ => false,
        }
    } else {
        match e {
            TriggerEvent::Message(m) => m@ == t,
            _ => false,
        }
    }
}

/// The trigger event of a message text: a command with its arguments when the
/// text begins with `/`, and a plain message otherwise.
pub fn trigger_from_text(text: &str) -> (r: TriggerEvent)
    ensures
        is_event_of_text(text@, r),
{
    let n = text.unicode_len();
    if n > 0 && text.get_char(0) == '/' {
        let rest = text.substring_char(1, n);
        assert(rest@ =~= text@.drop_first());
        let mut w = split_words(rest);
        if w.len() > 0 {
            let ghost before = w@;
            let name = w.remove(0);
            assert(string_views(w@) =~= string_views(before).drop_first());
            TriggerEvent::Command(name, w)
        } else {
            assert(string_views(w@) =~= seq![]);
            let name = String::new();
            assert(name@ =~= seq![]);
            TriggerEvent::Command(name, w)
        }
    } else {
        TriggerEvent::Message(String::from_str(text))
    }
}

/// The sender of an inbound event, as the platform reports it.
#[derive(Clone, Debug, PartialEq, Eq)]
pub struct RawUser {
    pub id: u64,
    pub username: Option<String>,
    pub is_bot: bool,
    pub language_code: Option<String>,
}

/// The kind of a chat: private, or a public one described by the platform.
#[derive(Clone, Debug, PartialEq, Eq)]
pub enum RawChatKind {
    Private,
    Public(String),
}

/// A chat as the platform reports it.
#[derive(Clone, Debug, PartialEq, Eq)]
pub struct RawChat {
    pub id: i64,
    pub kind: RawChatKind,
    pub title: Option<String>,
}

/// A full chat message as the platform reports it.
#[derive(Clone, Debug, PartialEq, Eq)]
pub struct RawMessage {
    pub from: Option<RawUser>,
    pub chat: RawChat,
    pub text: Option<String>,
}

/// The inbound event shapes that are dispatched to the plugin.
#[derive(Clone, Debug, PartialEq, Eq)]
pub enum RawEvent {
    Message(RawMessage),
    InlineQuery { from: RawUser, query: String },
    CallbackQuery { from: RawUser, data: Option<String> },
    ChosenInlineResult { from: RawUser, result_id: String },
}

/// The identity of a sender.
pub open spec fn user_of(u: RawUser) -> TelegramUser {
    TelegramUser {
        id: u.id as i64,
        username: u.username,
        is_bot: u.is_bot,
        language_code: u.language_code,
    }
}

/// The pseudo-context of an event without a real chat: a private chat whose
/// id is the sender's.
pub open spec fn is_private_context_of(u: RawUser, c: ChatContext) -> bool {
    &&& c.id == u.id as i64
    &&& c.chat_type@ == "private"@
    &&& c.title is None
}

/// The context of a real chat.
pub open spec fn is_context_of_chat(ch: RawChat, c: ChatContext) -> bool {
    &&& c.id == ch.id
    &&& c.chat_type@ == match ch.kind {
        RawChatKind::Private => "private"@,
        RawChatKind::Public(k) => k@,
    }
    &&& c.title == ch.title
}

/// The text of a message; empty when it has none.
pub open spec fn text_of(m: RawMessage) -> Seq<char> {
    match m.text {
        Some(t) => t@,
        None => seq![],
    }
}

fn user_from(from: &RawUser) -> (r: TelegramUser)
    ensures
        r == user_of(*from),
{
    TelegramUser {
        id: from.id as i64,
        username: clone_opt_string(&from.username),
        is_bot: from.is_bot,
        language_code: clone_opt_string(&from.language_code),
    }
}

/// The identity and context of a full message; `None` when it has no sender.
pub fn map_tele_to_wit(msg: &RawMessage) -> (r: Option<(TelegramUser, ChatContext)>)
    ensures
        match r {
            None => msg.from is None,
            Some((user, chat)) => msg.from is Some && user == user_of(
                msg.from->0,
            ) && is_context_of_chat(msg.chat, chat),
        },
{
    match &msg.from {
        None => None,
        Some(from) => {
            let chat_type = match &msg.chat.kind {
                RawChatKind::Private => String::from_str("private"),
                RawChatKind::Public(k) => k.clone(),
            };
            let chat = ChatContext {
                id: msg.chat.id,
                chat_type,
                title: clone_opt_string(&msg.chat.title),
            };
            Some((user_from(from), chat))
        },
    }
}

/// The identity of a sender and the private pseudo-context that stands for an
/// event without a real chat.
pub fn map_tele_to_wit_from_user(from: &RawUser) -> (r: (TelegramUser, ChatContext))
    ensures
        r.0 == user_of(*from),
        is_private_context_of(*from, r.1),
{
    let chat = ChatContext { id: from.id as i64, chat_type: String::from_str("private"), title: None };
    (user_from(from), chat)
}

/// What an inbound event normalizes to, or `None` when it is not dispatched.
pub open spec fn is_normalized(raw: RawEvent, r: Option<(TelegramUser, ChatContext, TriggerEvent)>) -> bool {
    match raw {
        RawEvent::Message(m) => match (m.from, r) {
            (None, None) => true,
            (Some(u), Some((user, chat, event))) => user == user_of(u) && is_context_of_chat(
                m.chat,
                chat,
            ) && is_event_of_text(text_of(m), event),
            _ => false,
        },
        RawEvent::InlineQuery { from, query } => match r {
            Some((user, chat, event)) => user == user_of(from) && is_private_context_of(from, chat)
                && event == TriggerEvent::InlineQuery(query),
            None => false,
        },
        RawEvent::CallbackQuery { from, data } => match (data, r) {
            (None, None) => true,
            (Some(d), Some((user, chat, event))) => user == user_of(from) && is_private_context_of(
                from,
                chat,
            ) && event == TriggerEvent::CallbackQuery(d),
            _ => false,
        },
        RawEvent::ChosenInlineResult { from, result_id } => match r {
            Some((user, chat, event)) => user == user_of(from) && is_private_context_of(from, chat)
                && event == TriggerEvent::ChosenInlineResult(result_id),
            None => false,
        },
    }
}

/// Maps an inbound event to the sender's identity, the conversation context
/// and the trigger event handed to the plugin.
pub fn normalize(raw: &RawEvent) -> (r: Option<(TelegramUser, ChatContext, TriggerEvent)>)
    ensures
        is_normalized(*raw, r),
{
    match raw {
        RawEvent::Message(m) => match map_tele_to_wit(m) {
            None => None,
            Some((user, chat)) => {
                let event = match &m.text {
                    Some(t) => trigger_from_text(t.as_str()),
                    None => {
                        let empty = "";
                        proof {
                            reveal_strlit("");
                        }
                        assert(empty@ =~= text_of(*m));
                        trigger_from_text(empty)
                    },
                };
                Some((user, chat, event))
            },
        },
        RawEvent::InlineQuery { from, query } => {
            let (user, chat) = map_tele_to_wit_from_user(from);
            Some((user, chat, TriggerEvent::InlineQuery(query.clone())))
        },
        RawEvent::CallbackQuery { from, data } => match data {
            None => None,
            Some(d) => {
                let (user, chat) = map_tele_to_wit_from_user(from);
                Some((user, chat, TriggerEvent::CallbackQuery(d.clone())))
            },
        },
        RawEvent::ChosenInlineResult { from, result_id } => {
            let (user, chat) = map_tele_to_wit_from_user(from);
            Some((user, chat, TriggerEvent::ChosenInlineResult(result_id.clone())))
        },
    }
}

/// Whether `p` occurs in `s` as a contiguous run.
pub open spec fn occurs_in(s: Seq<char>, p: Seq<char>) -> bool {
    exists|i: int| 0 <= i && i + p.len() <= s.len() && #[trigger] s.subrange(i, i + p.len()) == p
}

fn occurs_at(s: &str, p: &str, i: usize) -> (r: bool)
    requires
        i + p@.len() <= s@.len(),
    ensures
        r == (s@.subrange(i as int, i + p@.len()) == p@),
{
    let n = s.unicode_len();
    let m = p.unicode_len();
    let mut j: usize = 0;
    while j < m
        invariant
            n == s@.len(),
            m == p@.len(),
            i + m <= s@.len(),
            j <= m,
            forall|k: int| 0 <= k < j ==> s@[i + k] == p@[k],
        decreases m - j,
    {
        if s.get_char(i + j) != p.get_char(j) {
            assert(s@.subrange(i as int, i + m)[j as int] != p@[j as int]);
            return false;
        }
        j = j + 1;
    }
    assert(s@.subrange(i as int, i + m) =~= p@);
    true
}

/// Whether `p` occurs in `s`.
pub fn contains_text(s: &str, p: &str) -> (r: bool)
    ensures
        r == occurs_in(s@, p@),
{
    let n = s.unicode_len();
    let m = p.unicode_len();
    if m > n {
        return false;
    }
    if m == 0 {
        assert(s@.subrange(0, 0 + p@.len() as int) =~= p@);
        return true;
    }
    let mut i: usize = 0;
    while i <= n - m
        invariant
            n == s@.len(),
            m == p@.len(),
            1 <= m <= n,
            i <= n - m + 1,
            forall|k: int| 0 <= k < i ==> #[trigger] s@.subrange(k, k + m) != p@,
        decreases n + 1 - i,
    {
        if occurs_at(s, p, i) {
            return true;
        }
        i = i + 1;
    }
    false
}

/// Whether a chat message is for the bot: a command, a mention of the bot's
/// name, a reply to one of the bot's messages, or anything in a private chat.
pub open spec fn is_for_bot(
    text: Seq<char>,
    bot_name: Seq<char>,
    reply_author: Option<u64>,
    bot_id: u64,
    is_private: bool,
) -> bool {
    is_command_text(text) || occurs_in(text, seq!['@'] + bot_name) || reply_author == Some(bot_id)
        || is_private
}

/// Decides whether a chat message is dispatched to the plugin.
pub fn should_handle_message(
    text: &str,
    bot_name: &str,
    reply_author: Option<u64>,
    bot_id: u64,
    is_private: bool,
) -> (r: bool)
    ensures
        r == is_for_bot(text@, bot_name@, reply_author, bot_id, is_private),
{
    let n = text.unicode_len();
    let is_command = n > 0 && text.get_char(0) == '/';
    let mut mention = String::from_str("@");
    proof {
        reveal_strlit("@");
    }
    mention.append(bot_name);
    assert(mention@ =~= seq!['@'] + bot_name@);
    let is_mention = contains_text(text, mention.as_str());
    let is_reply = match reply_author {
        Some(a) => a == bot_id,
        None => false,
    };
    is_command || is_mention || is_reply || is_private
}

} // verus!
