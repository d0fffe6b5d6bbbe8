use vstd::prelude::*;
use vstd::string::StrSliceExecFns;
use vstd::string::StringExecFns;
use crate::gigachat::types::{Answer, CountAnswer, CountQuestion, Question};
use crate::strings::{
    dec_str, first_space, lemma_find_space_in_range, split_at_space, str_eq, u64_to_dec,
};
use crate::telegram::types::{Message, MessageRequest, ReplyParameters, UpdateEvent};

verus! {

/// The canned reply to a message that carries no command.
pub open spec fn placeholder_text() -> Seq<char> {
    "Какой-то ответ"@
}

/// The help text behind `/start`.
pub open spec fn help_text() -> Seq<char> {
    "Help:\n/text {message} - ask a question\n/count {message} - count tokens in message"@
}

/// The fixed model name every upstream request carries.
pub open spec fn model_name() -> Seq<char> {
    "GigaChat"@
}

/// The fixed answer budget, in tokens, of a `/text` question.
pub open spec fn max_answer_tokens() -> u32 {
    512
}

/// What the bot does with one inbound message: send one canned or prepared
/// reply, ask the model, count tokens, or nothing at all.
#[derive(Debug)]
pub enum Directive {
    /// Exactly one `sendMessage` call, with exactly this payload.
    Reply(MessageRequest),
    /// One typing indicator to `chat_id`, one completion request carrying
    /// `question`, then one `sendMessage` replying to `reply_to` with the
    /// answer's first choice (see `answer_reply`).
    AskModel { chat_id: u64, reply_to: u64, question: Question },
    /// One typing indicator to `chat_id`, one count request carrying
    /// `question`, then one `sendMessage` replying to `reply_to` with the
    /// formatted summary (see `count_reply`).
    CountTokens { chat_id: u64, reply_to: u64, question: CountQuestion },
    /// No outbound call at all.
    Ignore,
}

/// The directive the dispatcher owes for the message `m`: the canned reply
/// for plain text; nothing for a slash without a space; otherwise the text
/// splits at the first space into a command and its argument, and only
/// `/text`, `/count` and `/start` are acted on.
pub open spec fn dispatch_obligation(m: Message, r: Directive) -> bool {
    let t = m.text@;
    if !(t.len() > 0 && t[0] == '/') {
        r matches Directive::Reply(req) && req.chat_id == m.from.id && req.text@
            == placeholder_text() && req.reply_parameters == Some(
            (ReplyParameters { message_id: m.message_id }),
        )
    } else {
        match split_at_space(t) {
            None => r is Ignore,
            Some((command, args)) => {
                if command == "/text"@ {
                    r matches Directive::AskModel { chat_id, reply_to, question } && chat_id
                        == m.chat.id && reply_to == m.message_id && question.model@ == model_name()
                        && question.max_tokens == max_answer_tokens() && question.messages@.len()
                        == 1 && question.messages@[0].role@ == "user"@
                        && question.messages@[0].content@ == args
                } else if command == "/count"@ {
                    r matches Directive::CountTokens { chat_id, reply_to, question } && chat_id
                        == m.chat.id && reply_to == m.message_id && question.model@ == model_name()
                        && question.input@.len() == 1 && question.input@[0]@ == args
                } else if command == "/start"@ {
                    r matches Directive::Reply(req) && req.chat_id == m.chat.id && req.text@
                        == help_text() && req.reply_parameters is None
                } else {
                    r is Ignore
                }
            },
        }
    }
}

/// Route one polled event to the message dispatcher.
pub fn dispatch_event(event: &UpdateEvent) -> (r: Directive)
    ensures
        *event matches UpdateEvent::Message(m) ==> dispatch_obligation(m, r),
{
    match event {
        UpdateEvent::Message(m) => dispatch_message(m),
    }
}

/// Route one inbound message: text without a leading slash earns the canned
/// reply to its sender; a slash with no following space is silently ignored;
/// anything else is looked up in the command table.
pub fn dispatch_message(message: &Message) -> (r: Directive)
    ensures
        dispatch_obligation(*message, r),
{
    let text: &str = message.text.as_str();
    let n = text.unicode_len();
    if n == 0 || text.get_char(0) != '/' {
        Directive::Reply(
            MessageRequest::new(
                message.from.id,
                String::from_str("Какой-то ответ"),
                Some(message.message_id),
            ),
        )
    } else {
        match first_space(text) {
            None => Directive::Ignore,
            Some(j) => {
                proof {
                    lemma_find_space_in_range(text@, 0);
                }
                let command: &str = text.substring_char(0, j);
                let args: &str = text.substring_char(j + 1, n);
                dispatch_command(message, command, args)
            },
        }
    }
}

/// The command table: `/text` asks the model, `/count` counts tokens,
/// `/start` sends the help text, and any other command is a no-op.
pub fn dispatch_command(message: &Message, command: &str, full_args: &str) -> (r: Directive)
    ensures
        command@ == "/text"@ ==> (r matches Directive::AskModel { chat_id, reply_to, question }
            && chat_id == message.chat.id && reply_to == message.message_id && question.model@
            == model_name() && question.max_tokens == max_answer_tokens()
            && question.messages@.len() == 1 && question.messages@[0].role@ == "user"@
            && question.messages@[0].content@ == full_args@),
        command@ == "/count"@ ==> (r matches Directive::CountTokens {
            chat_id,
            reply_to,
            question,
        } && chat_id == message.chat.id && reply_to == message.message_id && question.model@
            == model_name() && question.input@.len() == 1 && question.input@[0]@ == full_args@),
        command@ == "/start"@ ==> (r matches Directive::Reply(req) && req.chat_id
            == message.chat.id && req.text@ == help_text() && req.reply_parameters is None),
        command@ != "/text"@ && command@ != "/count"@ && command@ != "/start"@ ==> r is Ignore,
{
    proof {
        // The three command words are pairwise distinct, so at most one
        // branch of the contract can be owed.
        reveal_strlit("/text");
        reveal_strlit("/count");
        reveal_strlit("/start");
        assert("/text"@.len() == 5);
        assert("/count"@.len() == 6);
        assert("/start"@.len() == 6);
        assert("/text"@ != "/count"@);
        assert("/text"@ != "/start"@);
        assert("/count"@[1] != "/start"@[1]);
        assert("/count"@ != "/start"@);
    }
    if str_eq(command, "/text") {
        let question = Question::from_string(
            String::from_str(full_args),
            String::from_str("GigaChat"),
            512,
        );
        Directive::AskModel { chat_id: message.chat.id, reply_to: message.message_id, question }
    } else if str_eq(command, "/count") {
        let question = CountQuestion::from_string(
            String::from_str(full_args),
            String::from_str("GigaChat"),
        );
        Directive::CountTokens { chat_id: message.chat.id, reply_to: message.message_id, question }
    } else if str_eq(command, "/start") {
        Directive::Reply(
            MessageRequest::new(
                message.chat.id,
                String::from_str(
                    "Help:\n/text {message} - ask a question\n/count {message} - count tokens in message",
                ),
                None,
            ),
        )
    } else {
        Directive::Ignore
    }
}

/// The reply owed for a model answer: the first choice's content, sent to
/// `chat_id` as a reply to message `reply_to`.
pub fn answer_reply(chat_id: u64, reply_to: u64, answer: &Answer) -> (r: MessageRequest)
    requires
        answer.choices@.len() > 0,
    ensures
        r.chat_id == chat_id,
        r.text@ == answer.choices@[0].message.content@,
        r.reply_parameters == Some((ReplyParameters { message_id: reply_to })),
{
    MessageRequest::new(chat_id, answer.choices[0].message.content.clone(), Some(reply_to))
}

/// The two-line token/character summary of one count answer.
pub open spec fn count_summary(tokens: int, characters: int) -> Seq<char> {
    "Tokens: "@ + dec_str(tokens) + "\nCharacters: "@ + dec_str(characters)
}

/// Renders the token/character summary of one count answer.
pub fn count_reply_text(count: &CountAnswer) -> (s: String)
    ensures
        s@ == count_summary(count.tokens as int, count.characters as int),
{
    let mut s = String::from_str("Tokens: ");
    let t = u64_to_dec(count.tokens as u64);
    s.append(t.as_str());
    s.append("\nCharacters: ");
    let c = u64_to_dec(count.characters as u64);
    s.append(c.as_str());
    s
}

/// The reply owed for a count answer: the formatted summary of its first
/// entry, sent to `chat_id` as a reply to message `reply_to`.
pub fn count_reply(chat_id: u64, reply_to: u64, counts: &Vec<CountAnswer>) -> (r: MessageRequest)
    requires
        counts@.len() > 0,
    ensures
        r.chat_id == chat_id,
        r.text@ == count_summary(counts@[0].tokens as int, counts@[0].characters as int),
        r.reply_parameters == Some((ReplyParameters { message_id: reply_to })),
{
    let first = counts[0];
    MessageRequest::new(chat_id, count_reply_text(&first), Some(reply_to))
}

} // verus!
