//! What the bot makes of requests, of its settings, of stored records and of a model's turns.

use vstd::prelude::*;
use crate::assoc::{get_key, has_key, lemma_key_pos, lemma_key_pos_is};
use crate::bot::dedupe::{law_event_is_forgotten, law_event_is_heard_once, law_press_counts_once,
    SeenView};
use crate::config::{configured, effort_in, stripped, with_line, ConfigErrorView, ReasoningEffort,
    Vars};
use crate::feishu::events::{action_part, deep_text, event_chat, message_in, newcomers};
use crate::feishu::reading::{holds_part, lemma_holds_self, lemma_holds_side};
use crate::json::JsonView;
use crate::llm::{asked_again, opening, role_named, turned, Chain, ChatRole, ChoiceView, TurnView};
use crate::persona::persona_at;
use crate::server::{card_asks, challenge_in, event_asks, part_text, token_in, CardRequestView,
    InboundView};
use crate::storage::{reading_of, Reading};
use crate::text::{ascii_lowered, char_pos, decimal_text, is_white, trimmed};
use crate::text_laws::{law_bare_text_stays, law_first_place};
use crate::words::rest;

verus! {

/// A request that only asks whether the bot is there is answered with its challenge, whatever
/// token it brings.
pub proof fn law_challenge_is_answered(
    body: JsonView,
    challenge: Seq<char>,
    expected: Option<Seq<char>>,
)
    requires
        body.text_at("type"@) == Some("url_verification"@),
        body.text_at("challenge"@) == Some(challenge),
    ensures
        event_asks(body, expected) == InboundView::Challenge(challenge),
        card_asks(body, expected) == CardRequestView::Challenge(challenge),
{
}

proof fn lemma_event_types()
    ensures
        "im.message.receive_v1"@.len() == 21,
        "im.chat.member.user.added_v1"@.len() == 28,
        "im.chat.member.bot.added_v1"@.len() == 27,
        "url_verification"@.len() == 16,
{
    reveal_strlit("im.message.receive_v1");
    reveal_strlit("im.chat.member.user.added_v1");
    reveal_strlit("im.chat.member.bot.added_v1");
    reveal_strlit("url_verification");
}

/// A request with the right token, or to a bot that asks for none, goes where its event belongs;
/// a press of a button always does.
pub proof fn law_right_token_is_heard(body: JsonView, expected: Option<Seq<char>>)
    requires
        challenge_in(body) is None,
        expected is None || expected->0.len() == 0 || token_in(body) == expected->0,
    ensures
        ({
            let kind = part_text(body, "header"@, "event_type"@);
            let r = event_asks(body, expected);
            &&& r is Message <==> kind == Some("im.message.receive_v1"@)
            &&& r is MemberAdded <==> kind == Some("im.chat.member.user.added_v1"@)
            &&& r is BotAdded <==> kind == Some("im.chat.member.bot.added_v1"@)
            &&& !(r is BadToken)
            &&& card_asks(body, expected) is Press
        }),
{
    lemma_event_types();
}

/// The token of a request is the one in its header, and only without that the one beside it.
pub proof fn law_token_in_the_header_counts(body: JsonView, header: JsonView, token: Seq<char>)
    ensures
        body.field("header"@) == Some(header) && header.field("token"@) == Some(
            JsonView::Text(token),
        ) ==> token_in(body) == token,
        body.field("header"@) is None && body.text_at("token"@) == Some(token) ==> token_in(body)
            == token,
{
}

/// A message is read with its chat, its kind, its sender and what was said.
pub proof fn law_message_is_read(body: JsonView, event: JsonView, m: JsonView, sender: JsonView)
    requires
        body.field("event"@) == Some(event),
        event.field("message"@) == Some(m),
        event.field("sender"@) == Some(sender),
    ensures
        message_in(body) is Some,
        ({
            let r = message_in(body)->0;
            &&& m.text_at("chat_id"@) is Some ==> Some(r.chat_id) == m.text_at("chat_id"@)
            &&& m.text_at("chat_type"@) is Some ==> Some(r.chat_type) == m.text_at("chat_type"@)
            &&& m.text_at("message_type"@) is Some ==> Some(r.message_type) == m.text_at(
                "message_type"@,
            )
            &&& m.text_at("content"@) is Some ==> Some(r.content) == m.text_at("content"@)
            &&& part_text(sender, "sender_id"@, "open_id"@) is Some ==> Some(r.sender_open_id)
                == part_text(sender, "sender_id"@, "open_id"@)
            &&& part_text(body, "header"@, "event_id"@) is Some ==> Some(r.event_id) == part_text(
                body,
                "header"@,
                "event_id"@,
            )
        }),
{
}

/// Who is mentioned in a message is read with the place of the mention.
pub proof fn law_mentions_are_read(
    body: JsonView,
    event: JsonView,
    m: JsonView,
    mentions: Seq<JsonView>,
    k: int,
)
    requires
        body.field("event"@) == Some(event),
        event.field("message"@) == Some(m),
        m.field("mentions"@) == Some(JsonView::List(mentions)),
        0 <= k < mentions.len(),
        mentions[k].text_at("key"@) is Some,
        part_text(mentions[k], "id"@, "open_id"@) is Some,
    ensures
        message_in(body) is Some,
        message_in(body)->0.mentions.len() == mentions.len(),
        message_in(body)->0.mentions[k] == (
            mentions[k].text_at("key"@)->0,
            part_text(mentions[k], "id"@, "open_id"@)->0,
        ),
{
}

/// Everybody who has come to a chat is read with name and id.
pub proof fn law_newcomers_are_read(body: JsonView, event: JsonView, users: Seq<JsonView>, k: int)
    requires
        body.field("event"@) == Some(event),
        event.field("users"@) == Some(JsonView::List(users)),
        event.text_at("chat_id"@) is Some,
        0 <= k < users.len(),
        users[k].text_at("name"@) is Some,
        part_text(users[k], "user_id"@, "open_id"@) is Some,
    ensures
        newcomers(body).len() == users.len(),
        newcomers(body)[k] == (
            users[k].text_at("name"@)->0,
            part_text(users[k], "user_id"@, "open_id"@)->0,
        ),
        Some(event_chat(body)) == event.text_at("chat_id"@),
{
}

/// What a pressed button sends is read from the action of the event.
pub proof fn law_press_is_read(body: JsonView, event: JsonView, action: JsonView, value: JsonView)
    requires
        body.field("event"@) == Some(event),
        event.field("action"@) == Some(action),
        action.field("value"@) == Some(value),
    ensures
        action_part(body, "value"@) == Some(value),
{
}

spec fn features(s: Seq<char>) -> (nat, char) {
    (s.len(), s[0])
}

proof fn lemma_efforts()
    ensures
        features("none"@) == (4nat, 'n'),
        features("minimal"@) == (7nat, 'm'),
        features("low"@) == (3nat, 'l'),
        features("medium"@) == (6nat, 'm'),
        features("high"@) == (4nat, 'h'),
        features("xhigh"@) == (5nat, 'x'),
{
    reveal_strlit("none");
    reveal_strlit("minimal");
    reveal_strlit("low");
    reveal_strlit("medium");
    reveal_strlit("high");
    reveal_strlit("xhigh");
}

/// The effort is named by one of six words, in capitals or not and with blanks around it or not;
/// any other word is refused and named in the refusal.
pub proof fn law_efforts_have_their_names(value: Seq<char>)
    ensures
        ({
            let w = ascii_lowered(trimmed(value));
            let r = effort_in(value);
            &&& r == Ok::<ReasoningEffort, ConfigErrorView>(ReasoningEffort::Off) <==> w == "none"@
            &&& r == Ok::<ReasoningEffort, ConfigErrorView>(ReasoningEffort::Minimal) <==> w
                == "minimal"@
            &&& r == Ok::<ReasoningEffort, ConfigErrorView>(ReasoningEffort::Low) <==> w == "low"@
            &&& r == Ok::<ReasoningEffort, ConfigErrorView>(ReasoningEffort::Medium) <==> w
                == "medium"@
            &&& r == Ok::<ReasoningEffort, ConfigErrorView>(ReasoningEffort::High) <==> w == "high"@
            &&& r == Ok::<ReasoningEffort, ConfigErrorView>(ReasoningEffort::Xhigh) <==> w
                == "xhigh"@
            &&& r is Err ==> r->Err_0 == ConfigErrorView::BadEffort(w)
        }),
{
    lemma_efforts();
    assert(features(ascii_lowered(trimmed(value))) == features(ascii_lowered(trimmed(value))));
}

/// A setting of the bot is the variable of its name if that is set to something, and without it
/// nothing; only the id and the secret of the app have to be there.
pub proof fn law_settings_are_taken(vars: Vars, k: Seq<char>, v: Seq<char>)
    requires
        get_key(vars, k) == Some(v),
        v.len() > 0,
        configured(vars) is Ok,
    ensures
        ({
            let c = configured(vars)->Ok_0;
            &&& k == "FEISHU_APP_ID"@ ==> c.app_id == v
            &&& k == "FEISHU_APP_SECRET"@ ==> c.app_secret == v
            &&& k == "BIND_ADDR"@ ==> c.bind_addr == v
            &&& k == "ALLOWED_CHAT_ID"@ ==> c.allowed_chat_id == Some(v)
            &&& k == "FEISHU_VERIFICATION_TOKEN"@ ==> c.verification_token == Some(v)
            &&& k == "OPENAI_API_KEY"@ ==> c.openai_api_key == Some(v)
            &&& k == "OPENAI_BASE_URL"@ ==> c.openai_base_url == v
            &&& k == "OPENAI_MODEL"@ ==> c.openai_model == v
            &&& k == "LARK_ARENA_DB_PATH"@ ==> c.db_path == v
            &&& k == "OPENAI_REASONING_EFFORT"@ ==> effort_in(v) == Ok::<
                ReasoningEffort,
                ConfigErrorView,
            >(c.openai_reasoning_effort)
        }),
{
}

/// Without the id or the secret of the app the settings are refused, with the name of what is
/// missing; without a key for the models, a chat or a token the bot does without.
pub proof fn law_missing_settings(vars: Vars)
    ensures
        !has_key(vars, "FEISHU_APP_ID"@) ==> configured(vars) is Err && configured(vars)->Err_0
            == ConfigErrorView::Missing("FEISHU_APP_ID"@),
        has_key(vars, "FEISHU_APP_ID"@) && !has_key(vars, "FEISHU_APP_SECRET"@) ==> configured(vars)
            is Err && configured(vars)->Err_0 == ConfigErrorView::Missing("FEISHU_APP_SECRET"@),
        has_key(vars, "FEISHU_APP_ID"@) && has_key(vars, "FEISHU_APP_SECRET"@) && !has_key(
            vars,
            "OPENAI_REASONING_EFFORT"@,
        ) ==> configured(vars) is Ok,
        configured(vars) is Ok ==> ({
            let c = configured(vars)->Ok_0;
            &&& !has_key(vars, "OPENAI_API_KEY"@) ==> c.openai_api_key is None
            &&& !has_key(vars, "ALLOWED_CHAT_ID"@) ==> c.allowed_chat_id is None
            &&& !has_key(vars, "FEISHU_VERIFICATION_TOKEN"@) ==> c.verification_token is None
        }),
{
    lemma_key_pos(vars, "FEISHU_APP_ID"@);
    lemma_key_pos(vars, "FEISHU_APP_SECRET"@);
    lemma_key_pos(vars, "OPENAI_REASONING_EFFORT"@);
    lemma_key_pos(vars, "OPENAI_API_KEY"@);
    lemma_key_pos(vars, "ALLOWED_CHAT_ID"@);
    lemma_key_pos(vars, "FEISHU_VERIFICATION_TOKEN"@);
    reveal_strlit("xhigh");
    let w = "xhigh"@;
    law_bare_text_stays(w);
    assert(ascii_lowered(w) =~= w);
}

/// A line of a settings file that begins with a hash sets nothing; neither does an empty one.
pub proof fn law_comments_set_nothing(vars: Vars, line: Seq<char>)
    requires
        trimmed(line).len() == 0 || trimmed(line)[0] == '#',
    ensures
        with_line(vars, line) == vars,
{
}

/// A line of a name, an equals sign and a value gives the variable of that name the value, if it
/// has none yet.
pub proof fn law_line_sets_its_variable(vars: Vars, k: Seq<char>, v: Seq<char>)
    requires
        k.len() > 0,
        v.len() > 0,
        !is_white(k[0]),
        !is_white(k.last()),
        k[0] != '#',
        forall|i: int| 0 <= i < k.len() ==> #[trigger] k[i] != '=',
        !is_white(v[0]),
        !is_white(v.last()),
        v[0] != '"',
        v[0] != '\'',
        v.last() != '"',
        v.last() != '\'',
        !has_key(vars, k),
    ensures
        get_key(with_line(vars, k + seq!['='] + v), k) == Some(v),
{
    let line = k + seq!['='] + v;
    let n = k.len() as int;
    assert(line[0] == k[0] && line.last() == v.last());
    law_bare_text_stays(line);
    law_first_place(line, '=');
    let p = char_pos(line, '=');
    assert(line[n] == '=');
    assert(p == n) by {
        if p < n {
            assert(line[p] == k[p]);
        }
    }
    assert(line.subrange(0, p) =~= k);
    assert(rest(line, p + 1) =~= v);
    law_bare_text_stays(k);
    law_bare_text_stays(v);
    assert(stripped(v, '"') == v);
    assert(stripped(v, '\'') == v);
    let more = vars.push((k, v));
    lemma_key_pos(vars, k);
    assert forall|i: int| 0 <= i < vars.len() implies (#[trigger] more[i]).0 != k by {
        assert(more[i] == vars[i]);
    }
    lemma_key_pos_is(more, k, vars.len() as int);
}

/// A stored record of a later version than this one is refused with its version; one without a
/// game is refused; one without a version is read as it stands.
pub proof fn law_stored_records(version: u32, has_game: bool)
    ensures
        !has_game ==> reading_of(Some((Some(version), has_game))).refusal() is Some,
        has_game && version > 1 ==> reading_of(Some((Some(version), has_game))) == Reading::Newer(
            version,
        ) && holds_part(
            reading_of(Some((Some(version), has_game))).refusal()->0,
            "werewolf schema v"@ + decimal_text(version as nat),
        ),
        has_game && version <= 1 ==> reading_of(Some((Some(version), has_game))).refusal() is None,
        reading_of(Some((None, has_game))) == Reading::Bare,
        reading_of(None) == Reading::Bare,
{
    let a = "werewolf schema v"@ + decimal_text(version as nat);
    lemma_holds_self(a);
    lemma_holds_side(a, " is newer than this binary's v"@, a);
    lemma_holds_side(a + " is newer than this binary's v"@, decimal_text(1), a);
}

/// What a model says is taken as soon as it says anything, without the blanks around it. A model
/// that says nothing is asked again up to three times.
pub proof fn law_first_word_counts(c: ChoiceView, attempt: nat)
    ensures
        c.content is Some && trimmed(c.content->0).len() > 0 ==> turned(Some(c), attempt)
            == TurnView::Answer(trimmed(c.content->0)),
        (c.content is None || trimmed(c.content->0).len() == 0) && attempt < 3 ==> turned(
            Some(c),
            attempt,
        ) is Again,
        (c.content is None || trimmed(c.content->0).len() == 0) && attempt >= 3 ==> turned(
            Some(c),
            attempt,
        ) is Failed,
        turned(None, attempt) is Failed,
{
}

/// An event that comes again within two minutes is not taken again, and one that comes later is;
/// a press that comes again within three seconds is not taken again.
pub proof fn law_repeats_are_dropped(
    s: SeenView,
    id: Seq<char>,
    key: u64,
    first: u64,
    second: u64,
)
    requires
        s.wf(),
        id.len() > 0,
        first <= second,
        !s.event_arrives(id, first).1,
        !s.action_arrives(key, first).1,
    ensures
        second - first < 120_000 <==> s.event_arrives(id, first).0.event_arrives(id, second).1,
        second - first < 3_000 ==> s.action_arrives(key, first).0.action_arrives(key, second).1,
{
    if second - first < 120_000 {
        law_event_is_heard_once(s, id, first, second);
    } else {
        law_event_is_forgotten(s, id, first, second);
    }
    if second - first < 3_000 {
        law_press_counts_once(s, key, first, second);
    }
}

/// Who pressed a button, and where, is read from the event.
pub proof fn law_presser_is_read(body: JsonView, event: JsonView, operator: JsonView, context: JsonView)
    requires
        body.field("event"@) == Some(event),
        event.field("operator"@) == Some(operator),
        event.field("context"@) == Some(context),
        operator.text_at("open_id"@) is Some,
        context.text_at("open_chat_id"@) is Some,
    ensures
        Some(deep_text(body, "event"@, "operator"@, "open_id"@)) == operator.text_at("open_id"@),
        Some(deep_text(body, "event"@, "context"@, "open_chat_id"@)) == context.text_at(
            "open_chat_id"@,
        ),
{
}

proof fn lemma_role_names()
    ensures
        features("system"@) == (6nat, 's'),
        features("user"@) == (4nat, 'u'),
        features("assistant"@) == (9nat, 'a'),
{
    reveal_strlit("system");
    reveal_strlit("user");
    reveal_strlit("assistant");
}

/// The roles of a conversation with a model have their names.
pub proof fn law_roles_have_their_names(name: Seq<char>)
    ensures
        role_named(name) == Some(ChatRole::System) <==> name == "system"@,
        role_named(name) == Some(ChatRole::User) <==> name == "user"@,
        role_named(name) == Some(ChatRole::Assistant) <==> name == "assistant"@,
{
    lemma_role_names();
    assert(features(name) == features(name));
}

/// A conversation opens with the instructions and then the question, and when the model is asked
/// again nothing of it is lost: an empty answer and the request to try again come behind it.
pub proof fn law_conversation_only_grows(system: Seq<char>, user: Seq<char>, chain: Chain, i: int)
    ensures
        opening(system, user).len() == 2,
        opening(system, user)[0].1 == system,
        opening(system, user)[1].1 == user,
        role_named(opening(system, user)[0].0) == Some(ChatRole::System),
        role_named(opening(system, user)[1].0) == Some(ChatRole::User),
        asked_again(chain).len() == chain.len() + 2,
        0 <= i < chain.len() ==> asked_again(chain)[i] == chain[i],
        role_named(asked_again(chain).last().0) == Some(ChatRole::User),
        role_named(asked_again(chain)[chain.len() as int].0) == Some(ChatRole::Assistant),
{
    lemma_role_names();
}

/// The personas are drawn from a list in which no two are the same, and they are told apart by
/// their names and by their emoji.
pub proof fn law_personas_differ(i: int, j: int)
    requires
        0 <= i < j < 5,
    ensures
        persona_at(i) != persona_at(j),
        persona_at(i).label_text() != persona_at(j).label_text(),
        persona_at(i).emoji_text() != persona_at(j).emoji_text(),
{
    reveal_strlit("莽哥");
    reveal_strlit("老炮");
    reveal_strlit("跟注站");
    reveal_strlit("老抠");
    reveal_strlit("头铁");
    reveal_strlit("🐺");
    reveal_strlit("🦈");
    reveal_strlit("🐟");
    reveal_strlit("🪨");
    reveal_strlit("🤪");
    let a = persona_at(i).label_text();
    let b = persona_at(j).label_text();
    assert(a[0] != b[0] || a[1] != b[1]);
    assert(persona_at(i).emoji_text()[0] != persona_at(j).emoji_text()[0]);
}

} // verus!
