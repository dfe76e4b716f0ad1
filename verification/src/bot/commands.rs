//! The commands that are typed in a chat.

use vstd::prelude::*;
use crate::text::{begins, begins_with, lowercase, same, trim, trimmed, unicode_lowercase};
use crate::words::{after_word, first_word, remove_all, removed, rest, split_word};

verus! {

/// A command for the room of a chat.
#[derive(Debug, Clone, Copy, PartialEq, Eq, Structural)]
pub enum Command {
    WolfJoin,
    WolfLeave,
    WolfStart,
    WolfReset,
    WolfHelp,
}

/// Somebody mentioned in a message: the key that stands for the mention in the text, and
/// who it is.
#[derive(Debug, Clone)]
pub struct Mention {
    pub key: String,
    pub open_id: String,
}

/// The mentions, as keys and open ids.
pub open spec fn mention_views(m: Seq<Mention>) -> Seq<(Seq<char>, Seq<char>)> {
    m.map_values(|x: Mention| (x.key@, x.open_id@))
}

/// A text without the keys of the mentions, taken out one after the other.
pub open spec fn unmentioned(s: Seq<char>, mentions: Seq<(Seq<char>, Seq<char>)>) -> Seq<char>
    decreases mentions.len(),
{
    if mentions.len() == 0 {
        s
    } else {
        removed(unmentioned(s, mentions.drop_last()), mentions.last().0)
    }
}

/// Whether somebody is mentioned.
pub open spec fn mentions_id(mentions: Seq<(Seq<char>, Seq<char>)>, id: Seq<char>) -> bool {
    exists|i: int| 0 <= i < mentions.len() && (#[trigger] mentions[i]).1 == id
}

/// What a message says to the bot: what follows a slash command, or the whole text if the
/// bot is addressed.
pub open spec fn body_of(t: Seq<char>, addressed: bool) -> Option<Seq<char>> {
    if begins(t, "/wolf"@) {
        Some(trimmed(rest(t, "/wolf"@.len() as int)))
    } else if begins(t, "/狼人杀"@) {
        Some(trimmed(rest(t, "/狼人杀"@.len() as int)))
    } else if begins(t, "/狼"@) {
        Some(trimmed(rest(t, "/狼"@.len() as int)))
    } else if addressed {
        Some(t)
    } else {
        None
    }
}

/// The second word of a text, if it has one.
pub open spec fn second_word(s: Seq<char>) -> Option<Seq<char>> {
    let w = first_word(after_word(s));
    if w.len() == 0 {
        None
    } else {
        Some(w)
    }
}

/// What a message says to the bot, without the mentions.
pub open spec fn said_to_bot(
    text: Seq<char>,
    mentions: Seq<(Seq<char>, Seq<char>)>,
    bot_id: Seq<char>,
    p2p: bool,
) -> Option<Seq<char>> {
    body_of(trimmed(unmentioned(text, mentions)), p2p || mentions_id(mentions, bot_id))
}

/// Whether a word names the game.
pub open spec fn names_game(w: Seq<char>) -> bool {
    w == "wolf"@ || w == "狼"@ || w == "狼人"@ || w == "狼人杀"@
}

/// The command that a word in lower case is.
pub open spec fn command_word(w: Seq<char>) -> Option<Command> {
    if w == "join"@ || w == "加入"@ {
        Some(Command::WolfJoin)
    } else if w == "leave"@ || w == "离开"@ {
        Some(Command::WolfLeave)
    } else if w == "start"@ || w == "begin"@ || w == "go"@ || w == "开始"@ {
        Some(Command::WolfStart)
    } else if w == "reset"@ || w == "重置"@ {
        Some(Command::WolfReset)
    } else if w == "help"@ || w == "帮助"@ || w == "?"@ || w == ""@ {
        Some(Command::WolfHelp)
    } else {
        None
    }
}

/// The command that the first two words, in lower case, are: the first word, or, if it
/// names the game, the second.
pub open spec fn command_words(first: Seq<char>, second: Option<Seq<char>>) -> Option<Command> {
    if names_game(first) {
        command_word(
            match second {
                Some(w) => w,
                None => "help"@,
            },
        )
    } else {
        command_word(first)
    }
}

/// The lower case of a word, if there is one.
pub open spec fn lowered(w: Option<Seq<char>>) -> Option<Seq<char>> {
    match w {
        Some(s) => Some(unicode_lowercase(s)),
        None => None,
    }
}

/// The command of a message.
pub open spec fn commanded(
    text: Seq<char>,
    mentions: Seq<(Seq<char>, Seq<char>)>,
    bot_id: Seq<char>,
    p2p: bool,
) -> Option<Command> {
    match said_to_bot(text, mentions, bot_id, p2p) {
        Some(body) => command_words(
            unicode_lowercase(first_word(body)),
            lowered(second_word(body)),
        ),
        None => None,
    }
}

fn strip_mentions(text: &str, mentions: &[Mention]) -> (r: String)
    ensures
        r@ == unmentioned(text@, mention_views(mentions@)),
{
    let ghost ms = mention_views(mentions@);
    let mut r = text.to_owned();
    let mut i: usize = 0;
    assert(ms.take(0) =~= Seq::empty());
    while i < mentions.len()
        invariant
            i <= mentions.len(),
            ms == mention_views(mentions@),
            r@ == unmentioned(text@, ms.take(i as int)),
        decreases mentions.len() - i,
    {
        assert(ms.take(i + 1).drop_last() =~= ms.take(i as int));
        r = remove_all(r.as_str(), mentions[i].key.as_str());
        i = i + 1;
    }
    assert(ms.take(i as int) =~= ms);
    r
}

fn is_mentioned(mentions: &[Mention], id: &str) -> (r: bool)
    ensures
        r == mentions_id(mention_views(mentions@), id@),
{
    let ghost ms = mention_views(mentions@);
    let mut i: usize = 0;
    while i < mentions.len()
        invariant
            i <= mentions.len(),
            ms == mention_views(mentions@),
            forall|j: int| 0 <= j < i ==> (#[trigger] ms[j]).1 != id@,
        decreases mentions.len() - i,
    {
        if same(mentions[i].open_id.as_str(), id) {
            assert(ms[i as int].1 == id@);
            return true;
        }
        i = i + 1;
    }
    false
}

fn after_prefix<'a>(t: &'a str, p: &str) -> (r: &'a str)
    requires
        begins(t@, p@),
    ensures
        r@ == trimmed(rest(t@, p@.len() as int)),
{
    trim(t.substring_char(p.unicode_len(), t.unicode_len()))
}

/// What a message says to the bot, without the mentions.
pub fn said_to(text: &str, mentions: &[Mention], bot_id: &str, p2p: bool) -> (r: Option<String>)
    ensures
        r.deep_view() == said_to_bot(text@, mention_views(mentions@), bot_id@, p2p),
{
    let cleaned = strip_mentions(text, mentions);
    let addressed = p2p || is_mentioned(mentions, bot_id);
    let t = trim(cleaned.as_str());
    if begins_with(t, "/wolf") {
        Some(after_prefix(t, "/wolf").to_owned())
    } else if begins_with(t, "/狼人杀") {
        Some(after_prefix(t, "/狼人杀").to_owned())
    } else if begins_with(t, "/狼") {
        Some(after_prefix(t, "/狼").to_owned())
    } else if addressed {
        Some(t.to_owned())
    } else {
        None
    }
}

fn command_in(w: &str) -> (r: Option<Command>)
    ensures
        r == command_word(w@),
{
    if same(w, "join") || same(w, "加入") {
        Some(Command::WolfJoin)
    } else if same(w, "leave") || same(w, "离开") {
        Some(Command::WolfLeave)
    } else if same(w, "start") || same(w, "begin") || same(w, "go") || same(w, "开始") {
        Some(Command::WolfStart)
    } else if same(w, "reset") || same(w, "重置") {
        Some(Command::WolfReset)
    } else if same(w, "help") || same(w, "帮助") || same(w, "?") || same(w, "") {
        Some(Command::WolfHelp)
    } else {
        None
    }
}

/// The command that the first two words, in lower case, are.
pub fn command_of(first: &str, second: Option<&str>) -> (r: Option<Command>)
    ensures
        r == command_words(first@, second.deep_view()),
{
    if same(first, "wolf") || same(first, "狼") || same(first, "狼人") || same(first, "狼人杀") {
        match second {
            Some(w) => command_in(w),
            None => command_in("help"),
        }
    } else {
        command_in(first)
    }
}

/// The command of a message: after `/wolf`, `/狼人杀` or `/狼`, or in any message that is
/// addressed to the bot, in a chat with it or by a mention.
pub fn parse_command(text: &str, mentions: &[Mention], bot_id: &str, p2p: bool) -> (r: Option<
    Command,
>)
    ensures
        r == commanded(text@, mention_views(mentions@), bot_id@, p2p),
{
    let body = match said_to(text, mentions, bot_id, p2p) {
        Some(b) => b,
        None => {
            return None;
        },
    };
    let (one, tail) = split_word(body.as_str());
    let (two, _more) = split_word(tail);
    let first = lowercase(one);
    if two.is_empty() {
        command_of(first.as_str(), None)
    } else {
        let second = lowercase(two);
        command_of(first.as_str(), Some(second.as_str()))
    }
}

} // verus!
