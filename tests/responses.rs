use zundamon_bot::bot::{Character, DiscordHelp, MessageInput, MessageResponder, MessageResponse, TTSController, TtsError, ZundaBotCore, greeting_reply, reply_count, speech_reply, spoken_text};
use zundamon_bot::connector::{Connector, DiscordBotConnector};

struct FixedAudio(Vec<u8>);

impl TTSController for FixedAudio {
    fn text_to_speech(&self, _character: Character, _text: &str) -> Result<Vec<u8>, TtsError> {
        Ok(self.0.clone())
    }
}

struct NoSpeech;

impl TTSController for NoSpeech {
    fn text_to_speech(&self, _character: Character, _text: &str) -> Result<Vec<u8>, TtsError> {
        Err(TtsError { reason: "service unavailable".to_string() })
    }
}

const HELP: &str = "> 僕はずんだもんbotなのだ\n> 僕に話しかけるには最初に `!ずんだもん` をつけて話しかけてほしいのだ";
const GOOD_MORNING: [&str; 5] = ["おはようなのだ！", "おはようございますなのだ！", "ぐっどもーにんぐなのだ！", "朝なのだ！僕の朝食を作るのだ！", "今日の朝ごはんはずんだもちなのだ！"];
const HELLO: [&str; 3] = ["こんにちはなのだ！", "はろーなのだ！", "今日の昼ごはんはずんだもちなのだ！"];
const GOOD_EVENING: [&str; 1] = ["こんばんわなのだ！"];

fn text_of(r: MessageResponse) -> String {
    match r {
        MessageResponse::Message(m) => m,
        _ => panic!("expected a text reply"),
    }
}

#[test]
fn help_reply_is_exact() {
    let core = ZundaBotCore::new(DiscordHelp, NoSpeech);
    assert_eq!(text_of(core.message(MessageInput::Help)), HELP);
}

#[test]
fn greeting_replies_are_canned() {
    let core = ZundaBotCore::new(DiscordHelp, NoSpeech);
    for _ in 0..50 {
        assert!(GOOD_MORNING.contains(&text_of(core.message(MessageInput::GoodMorning)).as_str()));
        assert!(HELLO.contains(&text_of(core.message(MessageInput::Hello)).as_str()));
        assert!(GOOD_EVENING.contains(&text_of(core.message(MessageInput::GoodEvening)).as_str()));
    }
}

#[test]
fn greeting_reply_by_index() {
    assert_eq!(reply_count(MessageInput::GoodMorning), 5);
    assert_eq!(reply_count(MessageInput::Hello), 3);
    assert_eq!(reply_count(MessageInput::GoodEvening), 1);
    assert_eq!(reply_count(MessageInput::Help), 0);
    for (i, want) in GOOD_MORNING.iter().enumerate() {
        assert_eq!(greeting_reply(MessageInput::GoodMorning, i), *want);
    }
    for (i, want) in HELLO.iter().enumerate() {
        assert_eq!(greeting_reply(MessageInput::Hello, i), *want);
    }
    assert_eq!(greeting_reply(MessageInput::GoodEvening, 0), GOOD_EVENING[0]);
}

#[test]
fn say_attaches_audio() {
    let core = ZundaBotCore::new(DiscordHelp, FixedAudio(vec![1, 2, 3]));
    match core.message(MessageInput::Say("hi")) {
        MessageResponse::MessageWithFile { message, file_name, file_content } => {
            assert_eq!(message, "hi なのだ");
            assert_eq!(file_name, "zundamon.wav");
            assert_eq!(file_content, vec![1, 2, 3]);
        }
        _ => panic!("expected a reply with audio"),
    }
}

#[test]
fn say_failure_is_silent() {
    let core = ZundaBotCore::new(DiscordHelp, NoSpeech);
    assert!(matches!(core.message(MessageInput::Say("hi")), MessageResponse::NoReply));
}

#[test]
fn speech_reply_by_outcome() {
    assert_eq!(spoken_text("hi"), "hi なのだ");
    match speech_reply("a なのだ".to_string(), Ok(vec![9])) {
        MessageResponse::MessageWithFile { message, file_name, file_content } => {
            assert_eq!(message, "a なのだ");
            assert_eq!(file_name, "zundamon.wav");
            assert_eq!(file_content, vec![9]);
        }
        _ => panic!("expected a reply with audio"),
    }
    let failed = speech_reply("a なのだ".to_string(), Err(TtsError { reason: "down".to_string() }));
    assert!(matches!(failed, MessageResponse::NoReply));
}

#[test]
fn connector_answers_normalized_help() {
    let bot = DiscordBotConnector::new(ZundaBotCore::new(DiscordHelp, NoSpeech));
    assert_eq!(text_of(bot.message("！ずんだもん　ＨＥＬＰ")), HELP);
}

#[test]
fn connector_speaks_lowercased_text() {
    let bot = DiscordBotConnector::new(ZundaBotCore::new(DiscordHelp, FixedAudio(vec![7])));
    match bot.message("!Zunda Say Hi") {
        MessageResponse::MessageWithFile { message, file_content, .. } => {
            assert_eq!(message, "hi なのだ");
            assert_eq!(file_content, vec![7]);
        }
        _ => panic!("expected a reply with audio"),
    }
}

#[test]
fn connector_ignores_unaddressed_text() {
    let bot = DiscordBotConnector::new(ZundaBotCore::new(DiscordHelp, FixedAudio(vec![7])));
    assert!(matches!(bot.message("hello everyone"), MessageResponse::NoReply));
    assert!(matches!(bot.message("!ずんだもん say "), MessageResponse::NoReply));
    assert!(matches!(bot.message("!ずんだもん dance"), MessageResponse::NoReply));
}
