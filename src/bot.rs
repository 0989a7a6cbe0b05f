//! Commands, replies, and the engine that answers a command.

use rand::Rng;
use vstd::prelude::*;

verus! {

/// What a command means, as contracts speak of it.
pub enum Command {
    Help,
    GoodMorning,
    Hello,
    GoodEvening,
    Say(Seq<char>),
}

/// What a reply holds, as contracts speak of it.
pub enum Reply {
    Silent,
    Text(Seq<char>),
    TextWithAudio(Seq<char>, Seq<char>, Seq<u8>),
}

/// The reply that the bot sends back for one message.
pub enum MessageResponse {
    NoReply,
    Message(String),
    MessageWithFile { message: String, file_name: String, file_content: Vec<u8> },
}

impl View for MessageResponse {
    type V = Reply;

    open spec fn view(&self) -> Reply {
        match self {
            MessageResponse::NoReply => Reply::Silent,
            MessageResponse::Message(m) => Reply::Text(m@),
            MessageResponse::MessageWithFile { message, file_name, file_content } => {
                Reply::TextWithAudio(message@, file_name@, file_content@)
            },
        }
    }
}

/// A command addressed to the bot.
#[derive(Debug, Clone, Copy)]
pub enum MessageInput<'a> {
    Help,
    GoodMorning,
    Hello,
    GoodEvening,
    Say(&'a str),
}

impl<'a> View for MessageInput<'a> {
    type V = Command;

    open spec fn view(&self) -> Command {
        match self {
            MessageInput::Help => Command::Help,
            MessageInput::GoodMorning => Command::GoodMorning,
            MessageInput::Hello => Command::Hello,
            MessageInput::GoodEvening => Command::GoodEvening,
            MessageInput::Say(text) => Command::Say(text@),
        }
    }
}

/// A voice that speech can be made in.
#[derive(Debug, Clone, Copy, PartialEq, Eq, Structural, Hash)]
pub enum Character {
    Zundamon,
}

/// Why speech could not be made.
#[derive(Debug, Clone)]
pub struct TtsError {
    pub reason: String,
}

/// Turns text into audio in a character's voice.
pub trait TTSController {
    fn text_to_speech(&self, character: Character, text: &str) -> Result<Vec<u8>, TtsError>;
}

/// Supplies the help text.
pub trait HelpMessage {
    spec fn text(&self) -> Seq<char>;

    fn message(&self) -> (r: &'static str)
        ensures
            r@ == self.text(),
    ;
}

/// Answers a command.
pub trait MessageResponder {
    /// `r` is an answer that may be given to `c`.
    spec fn answers(&self, c: Command, r: Reply) -> bool;

    fn message<'a>(&self, msg: MessageInput<'a>) -> (r: MessageResponse)
        ensures
            self.answers(msg@, r@),
    ;
}

/// The help text of the chat bot.
pub open spec fn help_text() -> Seq<char> {
    "> 僕はずんだもんbotなのだ\n> 僕に話しかけるには最初に `!ずんだもん` をつけて話しかけてほしいのだ"@
}

/// The help text shown in the chat.
pub struct DiscordHelp;

impl HelpMessage for DiscordHelp {
    open spec fn text(&self) -> Seq<char> {
        help_text()
    }

    fn message(&self) -> (r: &'static str) {
        "> 僕はずんだもんbotなのだ\n> 僕に話しかけるには最初に `!ずんだもん` をつけて話しかけてほしいのだ"
    }
}

/// The replies that a greeting may get; empty for other commands.
pub open spec fn replies(c: Command) -> Seq<Seq<char>> {
    match c {
        Command::GoodMorning => seq![
            "おはようなのだ！"@,
            "おはようございますなのだ！"@,
            "ぐっどもーにんぐなのだ！"@,
            "朝なのだ！僕の朝食を作るのだ！"@,
            "今日の朝ごはんはずんだもちなのだ！"@,
        ],
        Command::Hello => seq!["こんにちはなのだ！"@, "はろーなのだ！"@, "今日の昼ごはんはずんだもちなのだ！"@],
        Command::GoodEvening => seq!["こんばんわなのだ！"@],
        _ => seq![],
    }
}

pub open spec fn is_greeting(c: Command) -> bool {
    c is GoodMorning || c is Hello || c is GoodEvening
}

/// The sentence spoken for `say`: the text and the persona's ending.
pub open spec fn spoken(text: Seq<char>) -> Seq<char> {
    text + " なのだ"@
}

/// The name under which speech audio is attached.
pub open spec fn audio_file_name() -> Seq<char> {
    "zundamon.wav"@
}

/// The answers that the bot may give to `c`, with `help` as its help text:
/// the help text; one of the greeting's replies; for `say`, the spoken
/// sentence with its audio, or nothing where speech could not be made.
pub open spec fn may_answer(help: Seq<char>, c: Command, r: Reply) -> bool {
    match c {
        Command::Help => r == Reply::Text(help),
        Command::Say(text) => r == Reply::Silent || (r is TextWithAudio && r->TextWithAudio_0
            == spoken(text) && r->TextWithAudio_1 == audio_file_name()),
        _ => r is Text && replies(c).contains(r->Text_0),
    }
}

/// The number of replies that a greeting may get.
pub fn reply_count(msg: MessageInput) -> (r: usize)
    ensures
        r == replies(msg@).len(),
{
    match msg {
        MessageInput::GoodMorning => 5,
        MessageInput::Hello => 3,
        MessageInput::GoodEvening => 1,
        _ => 0,
    }
}

/// The greeting reply at `index` in the list of `msg`'s replies.
pub fn greeting_reply(msg: MessageInput, index: usize) -> (r: String)
    requires
        index < replies(msg@).len(),
    ensures
        r@ == replies(msg@)[index as int],
{
    let text: &str = match msg {
        MessageInput::GoodMorning => {
            if index == 0 {
                "おはようなのだ！"
            } else if index == 1 {
                "おはようございますなのだ！"
            } else if index == 2 {
                "ぐっどもーにんぐなのだ！"
            } else if index == 3 {
                "朝なのだ！僕の朝食を作るのだ！"
            } else {
                "今日の朝ごはんはずんだもちなのだ！"
            }
        },
        MessageInput::Hello => {
            if index == 0 {
                "こんにちはなのだ！"
            } else if index == 1 {
                "はろーなのだ！"
            } else {
                "今日の昼ごはんはずんだもちなのだ！"
            }
        },
        _ => "こんばんわなのだ！",
    };
    String::from_str(text)
}

/// The sentence spoken for `say text`.
pub fn spoken_text(text: &str) -> (r: String)
    ensures
        r@ == spoken(text@),
{
    let mut r = String::from_str(text);
    r.append(" なのだ");
    r
}

/// The reply to `say`, once speech of `sentence` was asked for and
/// `outcome` came back: the sentence with its audio, or nothing on failure.
pub fn speech_reply(sentence: String, outcome: Result<Vec<u8>, TtsError>) -> (r: MessageResponse)
    ensures
        match outcome {
            Ok(audio) => r@ == Reply::TextWithAudio(sentence@, audio_file_name(), audio@),
            Err(_) => r@ == Reply::Silent,
        },
{
    match outcome {
        Ok(audio) => MessageResponse::MessageWithFile {
            message: sentence,
            file_name: String::from_str("zundamon.wav"),
            file_content: audio,
        },
        Err(_) => MessageResponse::NoReply,
    }
}

/// Relies on rand's `thread_rng().gen_range`: a value drawn from `0..n`,
/// which panics only on an empty range.
#[verifier::external_body]
fn random_below(n: usize) -> (r: usize)
    requires
        n > 0,
    ensures
        r < n,
{
    rand::thread_rng().gen_range(0..n)
}

/// The bot's response engine: the help text and a speech maker.
pub struct ZundaBotCore<H, T> {
    help: H,
    tts: T,
}

impl<H: HelpMessage, T: TTSController> ZundaBotCore<H, T> {
    pub fn new(help_message: H, tts_controller: T) -> (r: Self)
        ensures
            r.help() == help_message,
            r.tts() == tts_controller,
    {
        ZundaBotCore { help: help_message, tts: tts_controller }
    }

    pub closed spec fn help(&self) -> H {
        self.help
    }

    pub closed spec fn tts(&self) -> T {
        self.tts
    }
}

impl<H: HelpMessage, T: TTSController> MessageResponder for ZundaBotCore<H, T> {
    open spec fn answers(&self, c: Command, r: Reply) -> bool {
        may_answer(self.help().text(), c, r)
    }

    fn message<'a>(&self, msg: MessageInput<'a>) -> (r: MessageResponse) {
        match msg {
            MessageInput::Help => MessageResponse::Message(String::from_str(self.help.message())),
            MessageInput::Say(text) => {
                let sentence = spoken_text(text);
                let outcome = self.tts.text_to_speech(Character::Zundamon, sentence.as_str());
                speech_reply(sentence, outcome)
            },
            _ => {
                let index = random_below(reply_count(msg));
                MessageResponse::Message(greeting_reply(msg, index))
            },
        }
    }
}

/// A greeting is answered with one of that greeting's fixed replies, and
/// nothing else.
pub proof fn greeting_reply_is_canned<H: HelpMessage, T: TTSController>(
    core: ZundaBotCore<H, T>,
    c: Command,
    r: Reply,
)
    requires
        is_greeting(c),
        core.answers(c, r),
    ensures
        r is Text,
        replies(c).contains(r->Text_0),
{
}

} // verus!
