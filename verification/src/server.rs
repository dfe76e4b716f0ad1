//! What is done with a request of Feishu.

use vstd::prelude::*;
use crate::feishu::events::{action_in, message_in};
use crate::json::{obj1, text, Json, JsonView};
use crate::text::same;
use crate::values::{body_in, json_in, parse_body};

verus! {

/// What an event asks for.
#[derive(Debug)]
pub enum Inbound {
    /// The challenge is sent back.
    Challenge(String),
    /// The token is wrong: the request is refused.
    BadToken,
    Message,
    MemberAdded,
    BotAdded,
    /// Nothing.
    Ignored,
}

/// What an event asks for.
pub enum InboundView {
    Challenge(Seq<char>),
    BadToken,
    Message,
    MemberAdded,
    BotAdded,
    Ignored,
}

impl View for Inbound {
    type V = InboundView;

    open spec fn view(&self) -> InboundView {
        match *self {
            Inbound::Challenge(c) => InboundView::Challenge(c@),
            Inbound::BadToken => InboundView::BadToken,
            Inbound::Message => InboundView::Message,
            Inbound::MemberAdded => InboundView::MemberAdded,
            Inbound::BotAdded => InboundView::BotAdded,
            Inbound::Ignored => InboundView::Ignored,
        }
    }
}

/// The challenge of a request that verifies the address, if it is one.
pub open spec fn challenge_in(body: JsonView) -> Option<Seq<char>> {
    if body.text_at("type"@) == Some("url_verification"@) {
        body.text_at("challenge"@)
    } else {
        None
    }
}

/// The token of a request: the one in its header, or else its own, or nothing.
pub open spec fn token_in(body: JsonView) -> Seq<char> {
    let in_header = match body.field("header"@) {
        Some(h) => h.field("token"@),
        None => None,
    };
    match in_header {
        Some(t) => match t {
            JsonView::Text(s) => s,
            _ => Seq::empty(),
        },
        None => body.text_or_empty("token"@),
    }
}

/// Whether a request carries the token that is expected, if one is.
pub open spec fn token_fits(body: JsonView, expected: Option<Seq<char>>) -> bool {
    match expected {
        Some(e) => e.len() == 0 || token_in(body) == e,
        None => true,
    }
}

/// A text in a part of the request.
pub open spec fn part_text(body: JsonView, part: Seq<char>, k: Seq<char>) -> Option<Seq<char>> {
    match body.field(part) {
        Some(h) => h.text_at(k),
        None => None,
    }
}

/// What an event asks for.
pub open spec fn event_asks(body: JsonView, expected: Option<Seq<char>>) -> InboundView {
    match challenge_in(body) {
        Some(c) => InboundView::Challenge(c),
        None => if !token_fits(body, expected) {
            InboundView::BadToken
        } else {
            match part_text(body, "header"@, "event_type"@) {
                Some(t) => if t == "im.message.receive_v1"@ {
                    InboundView::Message
                } else if t == "im.chat.member.user.added_v1"@ {
                    InboundView::MemberAdded
                } else if t == "im.chat.member.bot.added_v1"@ {
                    InboundView::BotAdded
                } else if t == "url_verification"@ {
                    match part_text(body, "event"@, "challenge"@) {
                        Some(c) => InboundView::Challenge(c),
                        None => InboundView::Ignored,
                    }
                } else {
                    InboundView::Ignored
                },
                None => InboundView::Ignored,
            }
        },
    }
}

fn read_challenge(body: &Json) -> (r: Option<String>)
    ensures
        r.deep_view() == challenge_in(body.model()),
{
    match body.text_at("type") {
        Some(t) => if same(t.as_str(), "url_verification") {
            body.text_at("challenge")
        } else {
            None
        },
        None => None,
    }
}

fn read_token(body: &Json) -> (r: String)
    ensures
        r@ == token_in(body.model()),
{
    let in_header = match body.get("header") {
        Some(h) => h.get("token"),
        None => None,
    };
    match in_header {
        Some(t) => match t {
            Json::Text(s) => s.clone(),
            _ => String::new(),
        },
        None => body.text_or_empty("token"),
    }
}

fn has_token(body: &Json, expected: &Option<String>) -> (r: bool)
    ensures
        r == token_fits(body.model(), expected.deep_view()),
{
    match expected {
        Some(e) => e.as_str().is_empty() || same(read_token(body).as_str(), e.as_str()),
        None => true,
    }
}

fn read_part(body: &Json, part: &str, k: &str) -> (r: Option<String>)
    ensures
        r.deep_view() == part_text(body.model(), part@, k@),
{
    match body.get(part) {
        Some(h) => h.text_at(k),
        None => None,
    }
}

/// What an event asks for.
pub fn inbound_event(body: &Json, expected: &Option<String>) -> (r: Inbound)
    ensures
        r@ == event_asks(body.model(), expected.deep_view()),
{
    if let Some(c) = read_challenge(body) {
        return Inbound::Challenge(c);
    }
    if !has_token(body, expected) {
        return Inbound::BadToken;
    }
    match read_part(body, "header", "event_type") {
        Some(kind) => {
            let t = kind.as_str();
            if same(t, "im.message.receive_v1") {
                Inbound::Message
            } else if same(t, "im.chat.member.user.added_v1") {
                Inbound::MemberAdded
            } else if same(t, "im.chat.member.bot.added_v1") {
                Inbound::BotAdded
            } else if same(t, "url_verification") {
                match read_part(body, "event", "challenge") {
                    Some(c) => Inbound::Challenge(c),
                    None => Inbound::Ignored,
                }
            } else {
                Inbound::Ignored
            }
        },
        None => Inbound::Ignored,
    }
}

/// What an event asks for whose request has these bytes.
pub fn event_in(bytes: &[u8], expected: &Option<String>) -> (r: Inbound)
    ensures
        r@ == event_asks(body_in(bytes@), expected.deep_view()),
{
    inbound_event(&parse_body(bytes), expected)
}

/// What is done with a card request: the challenge is sent back, the request is refused,
/// or the button press is handled.
#[derive(Debug)]
pub enum CardRequest {
    Challenge(String),
    BadToken,
    Press,
}

/// What is done with a card request.
pub enum CardRequestView {
    Challenge(Seq<char>),
    BadToken,
    Press,
}

impl View for CardRequest {
    type V = CardRequestView;

    open spec fn view(&self) -> CardRequestView {
        match *self {
            CardRequest::Challenge(c) => CardRequestView::Challenge(c@),
            CardRequest::BadToken => CardRequestView::BadToken,
            CardRequest::Press => CardRequestView::Press,
        }
    }
}

/// What is done with a card request.
pub open spec fn card_asks(body: JsonView, expected: Option<Seq<char>>) -> CardRequestView {
    match challenge_in(body) {
        Some(c) => CardRequestView::Challenge(c),
        None => if token_fits(body, expected) {
            CardRequestView::Press
        } else {
            CardRequestView::BadToken
        },
    }
}

/// What is done with a card request.
pub fn inbound_card(body: &Json, expected: &Option<String>) -> (r: CardRequest)
    ensures
        r@ == card_asks(body.model(), expected.deep_view()),
{
    if let Some(c) = read_challenge(body) {
        return CardRequest::Challenge(c);
    }
    if has_token(body, expected) {
        CardRequest::Press
    } else {
        CardRequest::BadToken
    }
}

/// What is done with a card request that has these bytes.
pub fn card_in(bytes: &[u8], expected: &Option<String>) -> (r: CardRequest)
    ensures
        r@ == card_asks(body_in(bytes@), expected.deep_view()),
{
    inbound_card(&parse_body(bytes), expected)
}

/// A request that is not the text of a JSON value is never taken for a challenge, and brings
/// neither a message nor a button press. It is skipped, unless a token is expected, which it
/// does not carry.
pub proof fn law_malformed_request_is_skipped(bytes: Seq<u8>, expected: Option<Seq<char>>)
    requires
        json_in(bytes) is None,
    ensures
        expected is None || expected->0.len() == 0 ==> event_asks(body_in(bytes), expected)
            is Ignored && card_asks(body_in(bytes), expected) is Press,
        expected is Some && expected->0.len() > 0 ==> event_asks(body_in(bytes), expected)
            is BadToken && card_asks(body_in(bytes), expected) is BadToken,
        message_in(body_in(bytes)) is None,
        action_in(body_in(bytes)) is None,
{
}

/// A request with a wrong token is refused, whatever else it holds, unless it only
/// verifies the address.
pub proof fn law_wrong_token_is_refused(body: JsonView, expected: Seq<char>)
    requires
        expected.len() > 0,
        token_in(body) != expected,
        challenge_in(body) is None,
    ensures
        event_asks(body, Some(expected)) is BadToken,
        card_asks(body, Some(expected)) is BadToken,
{
}

/// The answer to a challenge.
pub fn challenge_reply(challenge: &str) -> (r: Json)
    ensures
        r.model() == JsonView::Object(seq![("challenge"@, JsonView::Text(challenge@))]),
{
    obj1("challenge", text(challenge))
}

/// The answer to any other event.
pub fn ok_reply() -> (r: Json)
    ensures
        r.model() == JsonView::Object(seq![("ok"@, JsonView::Bool(true))]),
{
    obj1("ok", Json::Bool(true))
}

} // verus!
