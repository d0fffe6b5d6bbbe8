use gigabot::dispatch::{answer_reply, count_reply, count_reply_text, dispatch_event,
    dispatch_message, Directive};
use gigabot::gigachat::types::{Answer, Choice, CountAnswer, Message as GigaMessage};
use gigabot::telegram::types::{ChatBlock, FromBlock, Message, UpdateEvent};

fn inbound(text: &str) -> Message {
    Message {
        message_id: 7,
        from: FromBlock { id: 11 },
        chat: ChatBlock { id: 22 },
        text: text.to_string(),
    }
}

#[test]
fn text_command_asks_the_model() {
    match dispatch_message(&inbound("/text hello")) {
        Directive::AskModel { chat_id, reply_to, question } => {
            assert_eq!(chat_id, 22);
            assert_eq!(reply_to, 7);
            assert_eq!(question.model, "GigaChat".to_string());
            assert_eq!(question.max_tokens, 512);
            assert_eq!(question.messages.len(), 1);
            assert_eq!(question.messages[0].role, "user".to_string());
            assert_eq!(question.messages[0].content, "hello".to_string());
        }
        other => panic!("expected AskModel, got {:?}", other),
    }
}

#[test]
fn answer_reply_sends_first_choice_content() {
    let answer = Answer {
        created: 0,
        choices: vec![Choice {
            message: GigaMessage { role: "assistant".to_string(), content: "hi".to_string() },
            index: 0,
            finish_reason: "stop".to_string(),
        }],
    };
    let req = answer_reply(22, 7, &answer);
    assert_eq!(req.chat_id, 22);
    assert_eq!(req.text, "hi".to_string());
    assert_eq!(req.reply_parameters.expect("must reply to the inbound message").message_id, 7);
}

#[test]
fn count_command_counts_tokens() {
    match dispatch_message(&inbound("/count hello")) {
        Directive::CountTokens { chat_id, reply_to, question } => {
            assert_eq!(chat_id, 22);
            assert_eq!(reply_to, 7);
            assert_eq!(question.model, "GigaChat".to_string());
            assert_eq!(question.input, vec!["hello".to_string()]);
        }
        other => panic!("expected CountTokens, got {:?}", other),
    }
}

#[test]
fn count_reply_formats_the_two_line_summary() {
    let req = count_reply(22, 7, &vec![CountAnswer { tokens: 3, characters: 5 }]);
    assert_eq!(req.chat_id, 22);
    assert_eq!(req.text, "Tokens: 3\nCharacters: 5".to_string());
    assert_eq!(req.reply_parameters.expect("must reply to the inbound message").message_id, 7);
}

#[test]
fn count_reply_uses_the_first_entry_only() {
    let counts = vec![
        CountAnswer { tokens: 1, characters: 2 },
        CountAnswer { tokens: 9, characters: 9 },
    ];
    let req = count_reply(22, 7, &counts);
    assert_eq!(req.text, "Tokens: 1\nCharacters: 2".to_string());
}

#[test]
fn count_reply_text_with_large_values() {
    let text = count_reply_text(&CountAnswer { tokens: 4294967295, characters: 120034 });
    assert_eq!(text, "Tokens: 4294967295\nCharacters: 120034".to_string());
}

#[test]
fn plain_message_gets_the_placeholder_reply() {
    match dispatch_message(&inbound("hello")) {
        Directive::Reply(req) => {
            assert_eq!(req.chat_id, 11);
            assert_eq!(req.text, "Какой-то ответ".to_string());
            assert_eq!(req.reply_parameters.expect("must reply to the inbound message").message_id, 7);
        }
        other => panic!("expected Reply, got {:?}", other),
    }
}

#[test]
fn placeholder_reply_is_unrelated_to_message_content() {
    match dispatch_message(&inbound("a completely different message")) {
        Directive::Reply(req) => assert_eq!(req.text, "Какой-то ответ".to_string()),
        other => panic!("expected Reply, got {:?}", other),
    }
}

#[test]
fn empty_text_gets_the_placeholder_reply() {
    match dispatch_message(&inbound("")) {
        Directive::Reply(req) => assert_eq!(req.text, "Какой-то ответ".to_string()),
        other => panic!("expected Reply, got {:?}", other),
    }
}

#[test]
fn unknown_command_is_ignored() {
    match dispatch_message(&inbound("/unknown args")) {
        Directive::Ignore => {}
        other => panic!("expected Ignore, got {:?}", other),
    }
}

#[test]
fn slash_without_space_is_ignored() {
    match dispatch_message(&inbound("/text")) {
        Directive::Ignore => {}
        other => panic!("expected Ignore, got {:?}", other),
    }
}

#[test]
fn start_sends_the_help_text_without_reply_target() {
    match dispatch_message(&inbound("/start anything")) {
        Directive::Reply(req) => {
            assert_eq!(req.chat_id, 22);
            assert_eq!(
                req.text,
                "Help:\n/text {message} - ask a question\n/count {message} - count tokens in message"
                    .to_string()
            );
            assert!(req.reply_parameters.is_none());
        }
        other => panic!("expected Reply, got {:?}", other),
    }
}

#[test]
fn text_command_keeps_later_spaces_in_the_argument() {
    match dispatch_message(&inbound("/text hello world")) {
        Directive::AskModel { question, .. } => {
            assert_eq!(question.messages[0].content, "hello world".to_string());
        }
        other => panic!("expected AskModel, got {:?}", other),
    }
}

#[test]
fn text_command_accepts_non_ascii_argument() {
    match dispatch_message(&inbound("/text привет")) {
        Directive::AskModel { question, .. } => {
            assert_eq!(question.messages[0].content, "привет".to_string());
        }
        other => panic!("expected AskModel, got {:?}", other),
    }
}

#[test]
fn dispatch_event_routes_a_message_event() {
    let event = UpdateEvent::Message(inbound("hello"));
    match dispatch_event(&event) {
        Directive::Reply(req) => assert_eq!(req.chat_id, 11),
        other => panic!("expected Reply, got {:?}", other),
    }
}
