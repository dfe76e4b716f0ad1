//! The conversation with a language model that answers in JSON.

use vstd::prelude::*;
use crate::text::{cat2, cat3, same, trim, trimmed};

verus! {

/// How often a model is asked before an empty answer is given up on.
pub const MAX_REPLIES: usize = 4;

/// Who says something in a conversation.
#[derive(Debug, Clone, Copy, PartialEq, Eq, Structural)]
pub enum ChatRole {
    System,
    User,
    Assistant,
}

/// A conversation: who says what, in order, each speaker by name.
pub type Chain = Seq<(Seq<char>, Seq<char>)>;

/// The speaker with a name.
pub open spec fn role_named(name: Seq<char>) -> Option<ChatRole> {
    if name == "system"@ {
        Some(ChatRole::System)
    } else if name == "user"@ {
        Some(ChatRole::User)
    } else if name == "assistant"@ {
        Some(ChatRole::Assistant)
    } else {
        None
    }
}

/// The speaker with a name, or why there is none.
pub fn chat_role(name: &str) -> (r: Result<ChatRole, String>)
    ensures
        match role_named(name@) {
            Some(role) => r == Ok::<ChatRole, String>(role),
            None => r is Err && r->Err_0@ == "unknown chat role: "@ + name@,
        },
{
    if same(name, "system") {
        Ok(ChatRole::System)
    } else if same(name, "user") {
        Ok(ChatRole::User)
    } else if same(name, "assistant") {
        Ok(ChatRole::Assistant)
    } else {
        Err(cat2("unknown chat role: ", name))
    }
}

/// The first two turns of a conversation.
pub open spec fn opening(system: Seq<char>, user: Seq<char>) -> Chain {
    seq![("system"@, system), ("user"@, user)]
}

/// The first two turns of a conversation.
pub fn chat_json(system: &str, user: &str) -> (r: Vec<(String, String)>)
    ensures
        r.deep_view() == opening(system@, user@),
{
    let mut r: Vec<(String, String)> = Vec::new();
    r.push(("system".to_owned(), system.to_owned()));
    r.push(("user".to_owned(), user.to_owned()));
    assert(r.deep_view() =~= opening(system@, user@));
    r
}

/// What a model has answered: the text, if there is one, and why it stopped.
#[derive(Debug)]
pub struct Choice {
    pub content: Option<String>,
    pub finish_reason: Option<String>,
}

/// What a model has answered.
pub struct ChoiceView {
    pub content: Option<Seq<char>>,
    pub finish_reason: Option<Seq<char>>,
}

impl View for Choice {
    type V = ChoiceView;

    open spec fn view(&self) -> ChoiceView {
        ChoiceView {
            content: self.content.deep_view(),
            finish_reason: self.finish_reason.deep_view(),
        }
    }
}

impl ChoiceView {
    /// The text of the answer without the white space around it.
    pub open spec fn said(self) -> Seq<char> {
        match self.content {
            Some(s) => trimmed(s),
            None => Seq::empty(),
        }
    }

    /// Why the model stopped.
    pub open spec fn reason(self) -> Seq<char> {
        match self.finish_reason {
            Some(s) => s,
            None => "unknown"@,
        }
    }
}

/// How a conversation goes on.
#[derive(Debug)]
pub enum Turn {
    /// The model has answered.
    Answer(String),
    /// The model is asked again.
    Again,
    /// There is no answer.
    Failed(String),
}

/// How a conversation goes on.
pub enum TurnView {
    Answer(Seq<char>),
    Again,
    Failed(Seq<char>),
}

impl DeepView for Turn {
    type V = TurnView;

    open spec fn deep_view(&self) -> TurnView {
        match *self {
            Turn::Answer(s) => TurnView::Answer(s@),
            Turn::Again => TurnView::Again,
            Turn::Failed(s) => TurnView::Failed(s@),
        }
    }
}

/// What is asked after an empty answer.
pub const ASK_AGAIN: &'static str = "请返回一个非空的合法 JSON 对象，不要使用 markdown 代码块。";

/// The conversation after an empty answer.
pub open spec fn asked_again(chain: Chain) -> Chain {
    chain.push(("assistant"@, Seq::empty())).push(("user"@, ASK_AGAIN@))
}

/// How a conversation goes on after the model's answer to attempt `attempt`, counted from
/// zero: a text that is not blank is the answer; a blank one is asked for again, up to
/// four times.
pub open spec fn turned(choice: Option<ChoiceView>, attempt: nat) -> TurnView {
    match choice {
        None => TurnView::Failed("empty LLM response"@),
        Some(c) => if c.said().len() > 0 {
            TurnView::Answer(c.said())
        } else if attempt + 1 < MAX_REPLIES {
            TurnView::Again
        } else {
            TurnView::Failed(
                "LLM returned empty content after 4 attempts (last finish_reason="@ + c.reason()
                    + ")"@,
            )
        },
    }
}

/// The view of an answer, if there is one.
pub open spec fn choice_of(c: Option<Choice>) -> Option<ChoiceView> {
    match c {
        Some(x) => Some(x@),
        None => None,
    }
}

/// Takes the model's answer and goes on with the conversation.
pub fn take_reply(chain: &mut Vec<(String, String)>, attempt: usize, choice: Option<Choice>) -> (r:
    Turn)
    requires
        attempt < MAX_REPLIES,
    ensures
        r.deep_view() == turned(choice_of(choice), attempt as nat),
        final(chain).deep_view() == (if r is Again {
            asked_again(old(chain).deep_view())
        } else {
            old(chain).deep_view()
        }),
{
    let c = match choice {
        None => {
            return Turn::Failed("empty LLM response".to_owned());
        },
        Some(c) => c,
    };
    let said = match &c.content {
        Some(s) => trim(s.as_str()).to_owned(),
        None => String::new(),
    };
    if !said.as_str().is_empty() {
        return Turn::Answer(said);
    }
    if attempt + 1 < MAX_REPLIES {
        let ghost before = chain.deep_view();
        chain.push(("assistant".to_owned(), String::new()));
        assert(chain.deep_view() =~= before.push(("assistant"@, Seq::empty())));
        chain.push(("user".to_owned(), ASK_AGAIN.to_owned()));
        assert(chain.deep_view() =~= asked_again(before));
        return Turn::Again;
    }
    let reason = match c.finish_reason {
        Some(s) => s,
        None => "unknown".to_owned(),
    };
    Turn::Failed(
        cat3(
            "LLM returned empty content after 4 attempts (last finish_reason=",
            reason.as_str(),
            ")",
        ),
    )
}

/// The model is asked at most four times: the fourth attempt never leads to another.
pub proof fn law_asked_at_most_four_times(choice: Option<ChoiceView>)
    ensures
        !(turned(choice, (MAX_REPLIES - 1) as nat) is Again),
{
}

} // verus!
