use vstd::prelude::*;
use vstd::string::StringExecFns;

verus! {

/// A bearer token for the model API together with its expiry instant, in
/// seconds since the Unix epoch.
#[derive(Debug, Clone)]
pub struct Token {
    pub access_token: String,
    pub expires_at: u64,
}

impl Token {
    /// An exact copy of the token; unlike a derived clone, the result is
    /// known to equal the original.
    pub fn duplicate(&self) -> (r: Token)
        ensures
            r == *self,
    {
        Token { access_token: self.access_token.clone(), expires_at: self.expires_at }
    }
}

/// One turn of a model conversation: who speaks and what is said.
#[derive(Debug, Clone)]
pub struct Message {
    pub role: String,
    pub content: String,
}

/// A completion request: the model name, the conversation so far and the
/// answer budget in tokens.
#[derive(Debug)]
pub struct Question {
    pub model: String,
    pub messages: Vec<Message>,
    pub max_tokens: u32,
}

impl Question {
    /// A question holding `message` as the sole user turn.
    pub fn from_string(message: String, model: String, max_tokens: u32) -> (r: Self)
        ensures
            r.model == model,
            r.max_tokens == max_tokens,
            r.messages@.len() == 1,
            r.messages@[0].role@ == "user"@,
            r.messages@[0].content == message,
    {
        let mut messages: Vec<Message> = Vec::new();
        messages.push(Message { role: String::from_str("user"), content: message });
        Question { model, messages, max_tokens }
    }
}

/// A token-count request: the model name and the texts to measure.
#[derive(Debug)]
pub struct CountQuestion {
    pub model: String,
    pub input: Vec<String>,
}

impl CountQuestion {
    /// A count question holding `message` as the sole input.
    pub fn from_string(message: String, model: String) -> (r: Self)
        ensures
            r.model == model,
            r.input@.len() == 1,
            r.input@[0] == message,
    {
        let mut input: Vec<String> = Vec::new();
        input.push(message);
        CountQuestion { model, input }
    }
}

/// A completion answer: when it was created and the choices offered.
#[derive(Debug)]
pub struct Answer {
    pub created: u64,
    pub choices: Vec<Choice>,
}

/// One entry of a token-count answer: how many tokens and characters one
/// input held.
#[derive(Debug, Clone, Copy, PartialEq, Eq, Structural)]
pub struct CountAnswer {
    pub tokens: u32,
    pub characters: u32,
}

/// One choice of a completion answer.
#[derive(Debug)]
pub struct Choice {
    pub message: Message,
    pub index: u32,
    pub finish_reason: String,
}

} // verus!
