//! The events that Feishu sends.

use vstd::prelude::*;
use crate::bot::commands::{mention_views, Mention};
use crate::json::{models, Json, JsonView};
use crate::seqs::{lemma_map_step, lemma_take_ends};
use crate::values::{body_in, parse_body};

verus! {

impl JsonView {
    /// The value that a path of fields leads to.
    pub open spec fn at2(self, a: Seq<char>, b: Seq<char>) -> Option<JsonView> {
        match self.field(a) {
            Some(j) => j.field(b),
            None => None,
        }
    }

    /// The text that a field of a field holds, or nothing.
    pub open spec fn text2(self, a: Seq<char>, b: Seq<char>) -> Seq<char> {
        match self.field(a) {
            Some(j) => j.text_or_empty(b),
            None => Seq::empty(),
        }
    }

    /// The list in a field, empty if there is none.
    pub open spec fn list_at(self, k: Seq<char>) -> Seq<JsonView> {
        match self.field(k) {
            Some(JsonView::List(l)) => l,
            _ => Seq::empty(),
        }
    }
}

impl Json {
    /// The text that a field of a field holds, or nothing.
    pub fn text2(&self, a: &str, b: &str) -> (r: String)
        ensures
            r@ == self.model().text2(a@, b@),
    {
        match self.get(a) {
            Some(j) => j.text_or_empty(b),
            None => String::new(),
        }
    }
}

/// A message in a chat.
#[derive(Debug)]
pub struct InboundMessage {
    pub event_id: String,
    pub chat_id: String,
    pub chat_type: String,
    pub message_type: String,
    pub sender_open_id: String,
    /// What was said, in the format of the message type.
    pub content: String,
    pub mentions: Vec<Mention>,
}

/// A message in a chat.
pub struct MessageView {
    pub event_id: Seq<char>,
    pub chat_id: Seq<char>,
    pub chat_type: Seq<char>,
    pub message_type: Seq<char>,
    pub sender_open_id: Seq<char>,
    pub content: Seq<char>,
    pub mentions: Seq<(Seq<char>, Seq<char>)>,
}

impl View for InboundMessage {
    type V = MessageView;

    open spec fn view(&self) -> MessageView {
        MessageView {
            event_id: self.event_id@,
            chat_id: self.chat_id@,
            chat_type: self.chat_type@,
            message_type: self.message_type@,
            sender_open_id: self.sender_open_id@,
            content: self.content@,
            mentions: mention_views(self.mentions@),
        }
    }
}

/// A mention: its key and whom it names.
pub open spec fn mention_in() -> spec_fn(JsonView) -> (Seq<char>, Seq<char>) {
    |j: JsonView| (j.text_or_empty("key"@), j.text2("id"@, "open_id"@))
}

/// The id of an event.
pub open spec fn event_id_of(body: JsonView) -> Seq<char> {
    body.text2("header"@, "event_id"@)
}

/// The message that an event brings.
pub open spec fn message_in(body: JsonView) -> Option<MessageView> {
    match body.at2("event"@, "message"@) {
        Some(m) => Some(
            MessageView {
                event_id: event_id_of(body),
                chat_id: m.text_or_empty("chat_id"@),
                chat_type: m.text_or_empty("chat_type"@),
                message_type: m.text_or_empty("message_type"@),
                sender_open_id: match body.at2("event"@, "sender"@) {
                    Some(s) => s.text2("sender_id"@, "open_id"@),
                    None => Seq::empty(),
                },
                content: m.text_or_empty("content"@),
                mentions: m.list_at("mentions"@).map_values(mention_in()),
            },
        ),
        None => None,
    }
}

fn get2<'a>(j: &'a Json, a: &str, b: &str) -> (r: Option<&'a Json>)
    ensures
        match r {
            Some(x) => j.model().at2(a@, b@) == Some(x.model()),
            None => j.model().at2(a@, b@) is None,
        },
{
    match j.get(a) {
        Some(x) => x.get(b),
        None => None,
    }
}

fn read_mentions(m: &Json) -> (r: Vec<Mention>)
    ensures
        mention_views(r@) == m.model().list_at("mentions"@).map_values(mention_in()),
{
    let mut r: Vec<Mention> = Vec::new();
    match m.get("mentions") {
        Some(Json::List(v)) => {
            proof {
                crate::json::lemma_list_model(*v);
            }
            let ghost l = models(v@);
            let mut i: usize = 0;
            assert(mention_views(r@) =~= l.take(0).map_values(mention_in()));
            while i < v.len()
                invariant
                    i <= v.len(),
                    l == models(v@),
                    l.len() == v.len(),
                    mention_views(r@) == l.take(i as int).map_values(mention_in()),
                decreases v.len() - i,
            {
                let ghost before = mention_views(r@);
                proof {
                    lemma_map_step(l, mention_in(), i as int);
                }
                let key = v[i].text_or_empty("key");
                let open_id = v[i].text2("id", "open_id");
                let ghost added = (key@, open_id@);
                r.push(Mention { key, open_id });
                assert(mention_views(r@) =~= before.push(added));
                i = i + 1;
            }
            proof {
                lemma_take_ends(l);
            }
            r
        },
        _ => {
            assert(mention_views(r@) =~= Seq::<JsonView>::empty().map_values(mention_in()));
            r
        },
    }
}

/// What is said in a text message with this content.
pub fn said_in(content: &str) -> (r: String)
    ensures
        r@ == body_in(vstd::utf8::encode_utf8(content@)).text_or_empty("text"@),
{
    message_text(&parse_body(content.as_bytes()))
}

/// What is said in the content of a text message.
pub fn message_text(content: &Json) -> (r: String)
    ensures
        r@ == content.model().text_or_empty("text"@),
{
    content.text_or_empty("text")
}

/// The view of a message, if there is one.
pub open spec fn message_of(m: Option<InboundMessage>) -> Option<MessageView> {
    match m {
        Some(x) => Some(x@),
        None => None,
    }
}

/// The message that an event brings.
pub fn parse_inbound_message(body: &Json) -> (r: Option<InboundMessage>)
    ensures
        message_of(r) == message_in(body.model()),
{
    match get2(body, "event", "message") {
        Some(m) => {
            let sender = match get2(body, "event", "sender") {
                Some(s) => s.text2("sender_id", "open_id"),
                None => String::new(),
            };
            Some(
                InboundMessage {
                    event_id: body.text2("header", "event_id"),
                    chat_id: m.text_or_empty("chat_id"),
                    chat_type: m.text_or_empty("chat_type"),
                    message_type: m.text_or_empty("message_type"),
                    sender_open_id: sender,
                    content: m.text_or_empty("content"),
                    mentions: read_mentions(m),
                },
            )
        },
        None => None,
    }
}

/// Somebody has joined a chat: the name and the open id.
pub open spec fn newcomer_in() -> spec_fn(JsonView) -> (Seq<char>, Seq<char>) {
    |j: JsonView| (j.text_or_empty("name"@), j.text2("user_id"@, "open_id"@))
}

/// The chat of an event.
pub open spec fn event_chat(body: JsonView) -> Seq<char> {
    body.text2("event"@, "chat_id"@)
}

/// Who has joined a chat.
pub open spec fn newcomers(body: JsonView) -> Seq<(Seq<char>, Seq<char>)> {
    match body.field("event"@) {
        Some(e) => e.list_at("users"@).map_values(newcomer_in()),
        None => Seq::empty(),
    }
}

/// Somebody has joined a chat.
#[derive(Debug)]
pub struct MemberAdded {
    pub event_id: String,
    pub chat_id: String,
    /// The names and open ids of the newcomers.
    pub users: Vec<(String, String)>,
}

/// Who has joined a chat.
pub fn parse_member_added(body: &Json) -> (r: MemberAdded)
    ensures
        r.event_id@ == event_id_of(body.model()),
        r.chat_id@ == event_chat(body.model()),
        r.users.deep_view() == newcomers(body.model()),
{
    let mut users: Vec<(String, String)> = Vec::new();
    assert(users.deep_view() =~= Seq::<(Seq<char>, Seq<char>)>::empty());
    if let Some(e) = body.get("event") {
        assert(Seq::<JsonView>::empty().map_values(newcomer_in()) =~= Seq::empty());
        if let Some(Json::List(v)) = e.get("users") {
            proof {
                crate::json::lemma_list_model(*v);
            }
            let ghost l = models(v@);
            let mut i: usize = 0;
            assert(users.deep_view() =~= l.take(0).map_values(newcomer_in()));
            while i < v.len()
                invariant
                    i <= v.len(),
                    l == models(v@),
                    l.len() == v.len(),
                    users.deep_view() == l.take(i as int).map_values(newcomer_in()),
                decreases v.len() - i,
            {
                let ghost before = users.deep_view();
                proof {
                    lemma_map_step(l, newcomer_in(), i as int);
                }
                let name = v[i].text_or_empty("name");
                let open_id = v[i].text2("user_id", "open_id");
                let ghost added = (name@, open_id@);
                users.push((name, open_id));
                assert(users.deep_view() =~= before.push(added));
                i = i + 1;
            }
            proof {
                lemma_take_ends(l);
            }
        }
    }
    MemberAdded {
        event_id: body.text2("header", "event_id"),
        chat_id: body.text2("event", "chat_id"),
        users,
    }
}

/// The bot was added to a chat.
#[derive(Debug)]
pub struct BotAdded {
    pub event_id: String,
    pub chat_id: String,
    pub operator_open_id: String,
}

/// Who has added the bot to a chat.
pub fn parse_bot_added(body: &Json) -> (r: BotAdded)
    ensures
        r.event_id@ == event_id_of(body.model()),
        r.chat_id@ == event_chat(body.model()),
        r.operator_open_id@ == (match body.model().at2("event"@, "operator_id"@) {
            Some(o) => o.text_or_empty("open_id"@),
            None => Seq::empty(),
        }),
{
    let operator_open_id = match get2(body, "event", "operator_id") {
        Some(o) => o.text_or_empty("open_id"),
        None => String::new(),
    };
    BotAdded {
        event_id: body.text2("header", "event_id"),
        chat_id: body.text2("event", "chat_id"),
        operator_open_id,
    }
}

/// A button was pressed: by whom and in which chat.
#[derive(Debug)]
pub struct CardAction {
    pub event_id: String,
    pub open_id: String,
    pub open_chat_id: String,
}

/// A text three fields deep, or nothing.
pub open spec fn deep_text(body: JsonView, a: Seq<char>, b: Seq<char>, c: Seq<char>) -> Seq<char> {
    match body.at2(a, b) {
        Some(j) => j.text_or_empty(c),
        None => Seq::empty(),
    }
}

fn read_deep(body: &Json, a: &str, b: &str, c: &str) -> (r: String)
    ensures
        r@ == deep_text(body.model(), a@, b@, c@),
{
    match get2(body, a, b) {
        Some(j) => j.text_or_empty(c),
        None => String::new(),
    }
}

/// The action of a pressed button, if the event has one.
pub open spec fn action_in(body: JsonView) -> Option<JsonView> {
    body.at2("event"@, "action"@)
}

/// Who has pressed a button, if the event is of one.
pub fn parse_card_action(body: &Json) -> (r: Option<CardAction>)
    ensures
        match r {
            Some(a) => action_in(body.model()) is Some && a.event_id@ == event_id_of(body.model())
                && a.open_id@ == deep_text(body.model(), "event"@, "operator"@, "open_id"@)
                && a.open_chat_id@ == deep_text(
                body.model(),
                "event"@,
                "context"@,
                "open_chat_id"@,
            ),
            None => action_in(body.model()) is None,
        },
{
    match get2(body, "event", "action") {
        Some(_) => Some(
            CardAction {
                event_id: body.text2("header", "event_id"),
                open_id: read_deep(body, "event", "operator", "open_id"),
                open_chat_id: read_deep(body, "event", "context", "open_chat_id"),
            },
        ),
        None => None,
    }
}

/// A part of the action of a pressed button.
pub open spec fn action_part(body: JsonView, k: Seq<char>) -> Option<JsonView> {
    match action_in(body) {
        Some(a) => a.field(k),
        None => None,
    }
}

/// A part of the action of a pressed button: the value that the button carries, or what
/// was typed into the form around it.
pub fn read_action_part<'a>(body: &'a Json, k: &str) -> (r: Option<&'a Json>)
    ensures
        match r {
            Some(j) => action_part(body.model(), k@) == Some(j.model()),
            None => action_part(body.model(), k@) is None,
        },
{
    match get2(body, "event", "action") {
        Some(a) => a.get(k),
        None => None,
    }
}

} // verus!
