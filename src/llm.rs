//! The message generator: the prompt and request sent to the language model,
//! what its reply means, and how a reply splits into subject and body.
use vstd::prelude::*;

use crate::config::{Config, MessageLevel};
use crate::text::{
    blank_line, find_blank_line, first_line, first_line_of, lemma_first_line_single, trim, trimmed,
};

verus! {

/// Largest number of tokens the completion may hold.
pub const MAX_TOKENS: u32 = 200;

/// One entry of the conversation sent to the model.
#[derive(Debug)]
pub struct ChatMessage {
    pub role: String,
    pub content: String,
}

/// The request for one completion. The sampling temperature is fixed by the
/// transport and is not part of this value.
#[derive(Debug)]
pub struct ChatRequest {
    pub model: String,
    pub messages: Vec<ChatMessage>,
    pub max_tokens: u32,
}

/// What the transport made of one request.
#[derive(Debug)]
pub enum Reply {
    /// The request could not be sent; the transport's cause.
    Unsent(String),
    /// The service answered with a non-success status; the raw error body.
    Rejected(String),
    /// A success status whose body could not be decoded; the decoder's cause.
    Unreadable(String),
    /// The content of each completion choice, in order.
    Choices(Vec<String>),
}

/// Why no commit message could be generated.
#[derive(Clone, Debug, PartialEq, Eq)]
pub enum GenError {
    Transport(String),
    Api(String),
    Malformed(String),
    NoResponse,
}

pub struct LLM {
    pub config: Config,
}

pub open spec fn style_text(level: MessageLevel) -> Seq<char> {
    match level {
        MessageLevel::Quiet => "a very brief, one-line"@,
        MessageLevel::Normal => "a concise subject plus short body"@,
        MessageLevel::Verbose => "a detailed subject and explanatory body"@,
    }
}

pub open spec fn prompt_head() -> Seq<char> {
    "Write "@
}

pub open spec fn prompt_middle() -> Seq<char> {
    " Git commit message for these staged changes. Follow conventional commit format.\n\nChanges:\n"@
}

/// The user prompt for a diff at a level of detail.
pub open spec fn prompt_text(level: MessageLevel, diff: Seq<char>) -> Seq<char> {
    prompt_head() + style_text(level) + prompt_middle() + diff
}

pub open spec fn system_text() -> Seq<char> {
    "You are a helpful assistant that writes clear, concise Git commit messages following conventional commit format."@
}

/// `r` asks `config`'s model, under the fixed system instruction, for a
/// commit message for `diff`.
pub open spec fn is_request_for(r: ChatRequest, config: Config, diff: Seq<char>) -> bool {
    &&& r.model@ == config.model@
    &&& r.max_tokens == MAX_TOKENS
    &&& r.messages@.len() == 2
    &&& r.messages@[0].role@ == "system"@
    &&& r.messages@[0].content@ == system_text()
    &&& r.messages@[1].role@ == "user"@
    &&& r.messages@[1].content@ == prompt_text(config.message_level, diff)
}

/// The subject of a raw reply: the first line of what precedes the first
/// blank line of the trimmed reply, or of the whole trimmed reply.
pub open spec fn subject_of(raw: Seq<char>) -> Seq<char> {
    let t = trimmed(raw);
    let k = blank_line(t, 0);
    if k >= 0 {
        first_line_of(t.subrange(0, k))
    } else {
        first_line_of(t)
    }
}

/// The body of a raw reply: what follows the first blank line, trimmed,
/// unless that is empty.
pub open spec fn body_of(raw: Seq<char>) -> Option<Seq<char>> {
    let t = trimmed(raw);
    let k = blank_line(t, 0);
    if k >= 0 && trimmed(t.subrange(k + 2, t.len() as int)).len() > 0 {
        Some(trimmed(t.subrange(k + 2, t.len() as int)))
    } else {
        None
    }
}

pub open spec fn text_of(o: Option<String>) -> Option<Seq<char>> {
    match o {
        Some(s) => Some(s@),
        None => None,
    }
}

/// `m` is the subject and body parsed from `raw`.
pub open spec fn is_message_of(m: (String, Option<String>), raw: Seq<char>) -> bool {
    m.0@ == subject_of(raw) && text_of(m.1) == body_of(raw)
}

/// The failure that `reply` stands for, if it stands for one.
pub open spec fn reply_failure(reply: Reply) -> Option<GenError> {
    match reply {
        Reply::Unsent(e) => Some(GenError::Transport(e)),
        Reply::Rejected(b) => Some(GenError::Api(b)),
        Reply::Unreadable(e) => Some(GenError::Malformed(e)),
        Reply::Choices(v) => if v@.len() == 0 {
            Some(GenError::NoResponse)
        } else {
            None
        },
    }
}

/// The content of the first choice of a reply.
pub open spec fn first_choice(reply: Reply) -> Seq<char> {
    match reply {
        Reply::Choices(v) => v@[0]@,
        _ => Seq::empty(),
    }
}

/// The outcome that `reply` stands for.
pub open spec fn reply_means(reply: Reply, r: Result<(String, Option<String>), GenError>) -> bool {
    match reply_failure(reply) {
        Some(g) => r == Err::<(String, Option<String>), GenError>(g),
        None => r is Ok && is_message_of(r->Ok_0, first_choice(reply)),
    }
}

/// For every level of detail the prompt is the fixed head, the style
/// directive of that level and of no other, the fixed middle, and then the
/// diff, unchanged, at its end.
pub proof fn law_prompt_embeds_style_and_diff(level: MessageLevel, diff: Seq<char>)
    ensures
        prompt_text(level, diff) == prompt_head() + style_text(level) + prompt_middle() + diff,
        prompt_text(level, diff).subrange(
            prompt_text(level, diff).len() - diff.len(),
            prompt_text(level, diff).len() as int,
        ) == diff,
        forall|other: MessageLevel| style_text(other) == style_text(level) <==> other == level,
{
    reveal_strlit("a very brief, one-line");
    reveal_strlit("a concise subject plus short body");
    reveal_strlit("a detailed subject and explanatory body");
    let p = prompt_text(level, diff);
    let front = prompt_head() + style_text(level) + prompt_middle();
    assert(p.subrange(front.len() as int, p.len() as int) =~= diff);
    assert forall|other: MessageLevel| style_text(other) == style_text(level) implies other == level by {
        assert(style_text(other).len() == style_text(level).len());
    }
}

/// A parsed subject is a single line, and a parsed body is never empty.
pub proof fn law_message_shape(raw: Seq<char>)
    ensures
        !subject_of(raw).contains('\n'),
        body_of(raw) matches Some(b) ==> b.len() > 0,
{
    let t = trimmed(raw);
    let k = blank_line(t, 0);
    if k >= 0 {
        lemma_first_line_single(t.subrange(0, k));
    } else {
        lemma_first_line_single(t);
    }
}

/// The style directive for a level of detail.
pub fn style_directive(level: MessageLevel) -> (r: &'static str)
    ensures
        r@ == style_text(level),
{
    match level {
        MessageLevel::Quiet => "a very brief, one-line",
        MessageLevel::Normal => "a concise subject plus short body",
        MessageLevel::Verbose => "a detailed subject and explanatory body",
    }
}

impl LLM {
    pub fn new(config: Config) -> (r: Self)
        ensures
            r.config == config,
    {
        Self { config }
    }

    /// The user prompt for `diff`, which it ends with unchanged.
    pub fn build_prompt(&self, diff: &str) -> (r: String)
        ensures
            r@ == prompt_text(self.config.message_level, diff@),
    {
        let mut p = String::from_str("Write ");
        p.append(style_directive(self.config.message_level));
        p.append(
            " Git commit message for these staged changes. Follow conventional commit format.\n\nChanges:\n",
        );
        p.append(diff);
        p
    }

    /// The request that asks the model for a commit message for `diff`.
    pub fn build_request(&self, diff: &str) -> (r: ChatRequest)
        ensures
            is_request_for(r, self.config, diff@),
    {
        let system = ChatMessage {
            role: String::from_str("system"),
            content: String::from_str(
                "You are a helpful assistant that writes clear, concise Git commit messages following conventional commit format.",
            ),
        };
        let user = ChatMessage { role: String::from_str("user"), content: self.build_prompt(diff) };
        let mut messages: Vec<ChatMessage> = Vec::new();
        messages.push(system);
        messages.push(user);
        ChatRequest { model: self.config.model.clone(), messages, max_tokens: MAX_TOKENS }
    }

    /// The commit message that a transport reply yields, or why there is none.
    pub fn interpret_reply(&self, reply: Reply) -> (r: Result<(String, Option<String>), GenError>)
        ensures
            reply_means(reply, r),
    {
        match reply {
            Reply::Unsent(e) => Err(GenError::Transport(e)),
            Reply::Rejected(b) => Err(GenError::Api(b)),
            Reply::Unreadable(e) => Err(GenError::Malformed(e)),
            Reply::Choices(v) => {
                if v.len() == 0 {
                    Err(GenError::NoResponse)
                } else {
                    self.parse_commit_message(v[0].as_str())
                }
            },
        }
    }

    /// Splits a raw reply into subject and optional body. It never fails.
    pub fn parse_commit_message(&self, response: &str) -> (r: Result<(String, Option<String>), GenError>)
        ensures
            r is Ok,
            is_message_of(r->Ok_0, response@),
    {
        let t = trim(response);
        let n = t.unicode_len();
        match find_blank_line(t) {
            Some(k) => {
                let subject = String::from_str(first_line(t.substring_char(0, k)));
                let rest = trim(t.substring_char(k + 2, n));
                if rest.unicode_len() == 0 {
                    Ok((subject, None))
                } else {
                    Ok((subject, Some(String::from_str(rest))))
                }
            },
            None => Ok((String::from_str(first_line(t)), None)),
        }
    }
}

} // verus!
